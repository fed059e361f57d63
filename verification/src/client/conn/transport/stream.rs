//! Transports that hand out one common type of stream.

use vstd::prelude::*;
use vstd::std_specs::convert::*;

use crate::poll::Poll;

verus! {

/// A transport which can be converted into a stream.
#[derive(Debug)]
pub struct IntoStream<T> {
    transport: T,
}

impl<T> IntoStream<T> {
    /// The transport inside.
    pub closed spec fn inner(self) -> T {
        self.transport
    }

    /// Create a new `IntoStream` transport.
    pub fn new(transport: T) -> (wrapped: Self)
        ensures
            wrapped.inner() == transport,
    {
        IntoStream { transport }
    }

    /// The transport inside.
    pub fn transport_mut(&mut self) -> (transport: &mut T)
        ensures
            *transport == old(self).inner(),
            final(self).inner() == *final(transport),
    {
        &mut self.transport
    }
}

impl<T: Clone> Clone for IntoStream<T> {
    fn clone(&self) -> (copy: Self)
        ensures
            cloned(self.inner(), copy.inner()),
    {
        IntoStream { transport: self.transport.clone() }
    }
}

/// A transport that is connecting, and whose stream will be converted.
#[derive(Debug)]
pub struct ConnectFuture<F> {
    future: F,
}

impl<F> ConnectFuture<F> {
    /// What connects.
    pub closed spec fn inner(self) -> F {
        self.future
    }

    /// Wraps what connects.
    pub fn new(future: F) -> (connecting: Self)
        ensures
            connecting.inner() == future,
    {
        ConnectFuture { future }
    }

    /// Takes in what came of connecting: the stream is converted.
    pub fn poll<IO, S: From<IO>, E>(&self, outcome: Poll<Result<IO, E>>) -> (next: Poll<Result<S, E>>)
        ensures
            match outcome {
                Poll::Ready(Ok(io)) => next matches Poll::Ready(Ok(stream)) && (S::obeys_from_spec()
                    ==> stream == S::from_spec(io)),
                Poll::Ready(Err(error)) => next == Poll::Ready(Err::<S, E>(error)),
                Poll::Pending => next is Pending,
            },
    {
        match outcome {
            Poll::Ready(Ok(io)) => Poll::Ready(Ok(S::from(io))),
            Poll::Ready(Err(error)) => Poll::Ready(Err(error)),
            Poll::Pending => Poll::Pending,
        }
    }
}

/// A stream that is connected is converted and nothing else is; an error comes as it is, and
/// nothing comes before either.
pub proof fn law_connected_stream_is_converted<F, IO, S: From<IO>, E>(
    future: F,
    connecting: ConnectFuture<F>,
    outcome: Poll<Result<IO, E>>,
    next: Poll<Result<S, E>>,
)
    requires
        call_ensures(ConnectFuture::<F>::new, (future,), connecting),
        call_ensures(ConnectFuture::<F>::poll::<IO, S, E>, (&connecting, outcome), next),
    ensures
        outcome is Pending <==> next is Pending,
        outcome matches Poll::Ready(Ok(io)) ==> (next matches Poll::Ready(Ok(stream)) && (
        S::obeys_from_spec() ==> stream == S::from_spec(io))),
        outcome matches Poll::Ready(Err(error)) ==> next == Poll::Ready(Err::<S, E>(error)),
{
}

/// A wrapped transport is the transport that was wrapped, and takes what is put in its place.
pub proof fn law_wrapped_transport_is_kept<T>(
    transport: T,
    wrapped: IntoStream<T>,
    before: T,
    other: T,
    after: IntoStream<T>,
    last: T,
)
    requires
        call_ensures(IntoStream::<T>::new, (transport,), wrapped),
        exists|m: &mut IntoStream<T>, place: &mut T|
            *m == wrapped && *final(m) == after && *place == before && *final(place) == other
                && #[trigger] call_ensures(IntoStream::<T>::transport_mut, (m,), place),
        exists|m: &mut IntoStream<T>, place: &mut T|
            *m == after && *place == last && #[trigger] call_ensures(
                IntoStream::<T>::transport_mut,
                (m,),
                place,
            ),
    ensures
        before == transport,
        last == other,
{
}

} // verus!
