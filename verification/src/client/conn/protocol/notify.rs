//! Protocols whose connections can be watched.

use vstd::prelude::*;

use crate::client::conn::connection::notify::WatchedConnection;
use crate::poll::Poll;

verus! {

/// Wraps a protocol so that its connections can be watched.
pub trait ProtocolNotifyExt: Sized {
    /// Wrap this protocol so that its connections can be watched.
    fn with_notify(self) -> (wrapped: ProtocolWithNotify<Self>)
        ensures
            wrapped.inner() == self,
    ;
}

impl<P> ProtocolNotifyExt for P {
    fn with_notify(self) -> (wrapped: ProtocolWithNotify<Self>) {
        ProtocolWithNotify::new(self)
    }
}

/// Makes the connections of a protocol watchable.
#[derive(Debug)]
pub struct ProtocolWithNotify<P> {
    protocol: P,
}

impl<P> ProtocolWithNotify<P> {
    /// The protocol.
    pub closed spec fn inner(self) -> P {
        self.protocol
    }

    /// Wrap a protocol
    pub fn new(protocol: P) -> (wrapped: Self)
        ensures
            wrapped.inner() == protocol,
    {
        ProtocolWithNotify { protocol }
    }

    /// Access a reference to the inner protocol
    pub fn protocol(&self) -> (protocol: &P)
        ensures
            protocol == self.inner(),
    {
        &self.protocol
    }

    /// Access a mutable reference to the inner protocol
    pub fn protocol_mut(&mut self) -> (protocol: &mut P)
        ensures
            *protocol == old(self).inner(),
            final(self).inner() == *final(protocol),
    {
        &mut self.protocol
    }

    /// Unwrap the protocol into the inner value.
    pub fn into_inner(self) -> (protocol: P)
        ensures
            protocol == self.inner(),
    {
        self.protocol
    }
}

impl<P: Clone> Clone for ProtocolWithNotify<P> {
    fn clone(&self) -> (copy: Self)
        ensures
            cloned(self.inner(), copy.inner()),
    {
        ProtocolWithNotify { protocol: self.protocol.clone() }
    }
}

/// A connection in the making that will be watchable.
#[derive(Debug)]
pub struct ProtocolWithNotifyFuture<F> {
    future: F,
}

impl<F> ProtocolWithNotifyFuture<F> {
    /// What makes the connection.
    pub closed spec fn inner(self) -> F {
        self.future
    }

    /// Wraps what makes the connection.
    pub fn new(future: F) -> (making: Self)
        ensures
            making.inner() == future,
    {
        ProtocolWithNotifyFuture { future }
    }

    /// Takes in what came of making the connection: one that is made can be watched.
    pub fn poll<C, E>(&self, outcome: Poll<Result<C, E>>) -> (next: Poll<
        Result<WatchedConnection<C>, E>,
    >)
        ensures
            match outcome {
                Poll::Ready(Ok(connection)) => next matches Poll::Ready(Ok(watched))
                    && watched.inner() == connection && watched.starts_unready(),
                Poll::Ready(Err(error)) => next == Poll::Ready(
                    Err::<WatchedConnection<C>, E>(error),
                ),
                Poll::Pending => next is Pending,
            },
    {
        match outcome {
            Poll::Ready(Ok(connection)) => Poll::Ready(Ok(WatchedConnection::new(connection))),
            Poll::Ready(Err(error)) => Poll::Ready(Err(error)),
            Poll::Pending => Poll::Pending,
        }
    }
}

/// A connection that is made can be watched, and shows that it is not ready at first; an
/// error comes as it is, and nothing comes before either.
pub proof fn law_made_connection_is_watched<F, C, E>(
    future: F,
    making: ProtocolWithNotifyFuture<F>,
    outcome: Poll<Result<C, E>>,
    next: Poll<Result<WatchedConnection<C>, E>>,
)
    requires
        call_ensures(ProtocolWithNotifyFuture::<F>::new, (future,), making),
        call_ensures(ProtocolWithNotifyFuture::<F>::poll::<C, E>, (&making, outcome), next),
    ensures
        outcome is Pending <==> next is Pending,
        outcome matches Poll::Ready(Ok(connection)) ==> {
            &&& next matches Poll::Ready(Ok(watched))
            &&& watched.inner() == connection
            &&& watched.starts_unready()
        },
        outcome matches Poll::Ready(Err(error)) ==> next == Poll::Ready(
            Err::<WatchedConnection<C>, E>(error),
        ),
{
}

/// A wrapped protocol is the protocol that was wrapped, and takes what is put in its place.
pub proof fn law_wrapped_protocol_is_kept<P>(
    protocol: P,
    made: ProtocolWithNotify<P>,
    found: &P,
    before: P,
    set: P,
    after: ProtocolWithNotify<P>,
    last: P,
)
    requires
        call_ensures(P::with_notify, (protocol,), made) || call_ensures(
            ProtocolWithNotify::<P>::new,
            (protocol,),
            made,
        ),
        call_ensures(ProtocolWithNotify::<P>::protocol, (&made,), found),
        exists|m: &mut ProtocolWithNotify<P>, place: &mut P|
            *m == made && *final(m) == after && *place == before && *final(place) == set
                && #[trigger] call_ensures(ProtocolWithNotify::<P>::protocol_mut, (m,), place),
        call_ensures(ProtocolWithNotify::<P>::into_inner, (after,), last),
    ensures
        *found == protocol,
        before == protocol,
        last == set,
{
}

} // verus!
