//! Protocols whose connections tell where they lead.

use vstd::prelude::*;

use crate::client::conn::connection::info::WithInfo;
use crate::info::ConnectionInfo;
use crate::poll::Poll;

verus! {

/// Wraps a protocol so that its connections tell where they lead.
pub trait ProtocolInfoExt: Sized {
    /// Wrap this protocol so that transport connection info is kept.
    fn with_info(self) -> (wrapped: ProtocolWithInfo<Self>)
        ensures
            wrapped.inner() == self,
    ;
}

impl<P> ProtocolInfoExt for P {
    fn with_info(self) -> (wrapped: ProtocolWithInfo<Self>) {
        ProtocolWithInfo::new(self)
    }
}

/// Preserves the input transport connection info on the output protocol connection.
#[derive(Debug)]
pub struct ProtocolWithInfo<P> {
    protocol: P,
}

impl<P> ProtocolWithInfo<P> {
    /// The protocol.
    pub closed spec fn inner(self) -> P {
        self.protocol
    }

    /// Wrap a protocol
    pub fn new(protocol: P) -> (wrapped: Self)
        ensures
            wrapped.inner() == protocol,
    {
        ProtocolWithInfo { protocol }
    }

    /// Access a reference to the inner protocol
    pub fn protocol(&self) -> (protocol: &P)
        ensures
            protocol == self.inner(),
    {
        &self.protocol
    }

    /// Access a mutable reference to the inner protocol
    pub fn protocol_mut(&mut self) -> (protocol: &mut P)
        ensures
            *protocol == old(self).inner(),
            final(self).inner() == *final(protocol),
    {
        &mut self.protocol
    }

    /// Unwrap the protocol into the inner value.
    pub fn into_inner(self) -> (protocol: P)
        ensures
            protocol == self.inner(),
    {
        self.protocol
    }
}

impl<P: Clone> Clone for ProtocolWithInfo<P> {
    fn clone(&self) -> (copy: Self)
        ensures
            cloned(self.inner(), copy.inner()),
    {
        ProtocolWithInfo { protocol: self.protocol.clone() }
    }
}

/// A connection in the making, together with the info of its transport.
#[derive(Debug)]
pub struct ProtocolWithInfoFuture<F, A> {
    future: F,
    info: Option<ConnectionInfo<A>>,
}

impl<F, A> ProtocolWithInfoFuture<F, A> {
    /// What makes the connection, and the info until it has been handed out.
    pub closed spec fn parts(self) -> (F, Option<ConnectionInfo<A>>) {
        (self.future, self.info)
    }

    /// Puts the info beside what makes the connection.
    pub fn new(future: F, info: ConnectionInfo<A>) -> (making: Self)
        ensures
            making.parts() == (future, Some(info)),
    {
        ProtocolWithInfoFuture { future, info: Some(info) }
    }

    /// Takes in what came of making the connection: one that is made comes with the
    /// info. Either way the info is gone afterwards.
    pub fn poll<C, E>(&mut self, outcome: Poll<Result<C, E>>) -> (next: Poll<
        Result<WithInfo<C, A>, E>,
    >)
        requires
            old(self).parts().1 is Some,
        ensures
            match outcome {
                Poll::Ready(Ok(connection)) => next matches Poll::Ready(Ok(wrapped))
                    && wrapped.parts() == (connection, old(self).parts().1->0),
                Poll::Ready(Err(error)) => next == Poll::Ready(Err::<WithInfo<C, A>, E>(error)),
                Poll::Pending => next is Pending,
            },
            final(self).parts().0 == old(self).parts().0,
            final(self).parts().1 == if outcome is Ready {
                None
            } else {
                old(self).parts().1
            },
    {
        match outcome {
            Poll::Ready(connected) => {
                let info = self.info.take().unwrap();
                match connected {
                    Ok(connection) => Poll::Ready(Ok(WithInfo::new(connection, info))),
                    Err(error) => Poll::Ready(Err(error)),
                }
            },
            Poll::Pending => Poll::Pending,
        }
    }
}

/// A connection that is made comes with the info that was put beside it, however often it
/// was asked for before; an error comes as it is, and nothing comes before either.
pub proof fn law_made_connection_has_its_info<F, A, C, E>(
    future: F,
    info: ConnectionInfo<A>,
    making: ProtocolWithInfoFuture<F, A>,
    early: Poll<Result<WithInfo<C, A>, E>>,
    waited: ProtocolWithInfoFuture<F, A>,
    outcome: Result<C, E>,
    next: Poll<Result<WithInfo<C, A>, E>>,
    last: ProtocolWithInfoFuture<F, A>,
    parts: (C, ConnectionInfo<A>),
)
    requires
        call_ensures(ProtocolWithInfoFuture::<F, A>::new, (future, info), making),
        exists|m: &mut ProtocolWithInfoFuture<F, A>|
            *m == making && *final(m) == waited && #[trigger] call_ensures(
                ProtocolWithInfoFuture::<F, A>::poll::<C, E>,
                (m, Poll::<Result<C, E>>::Pending),
                early,
            ),
        exists|m: &mut ProtocolWithInfoFuture<F, A>|
            *m == waited && *final(m) == last && #[trigger] call_ensures(
                ProtocolWithInfoFuture::<F, A>::poll::<C, E>,
                (m, Poll::Ready(outcome)),
                next,
            ),
        next is Ready && next->Ready_0 is Ok ==> call_ensures(
            WithInfo::<C, A>::into_inner,
            (next->Ready_0->Ok_0,),
            parts,
        ),
    ensures
        early is Pending,
        waited == making,
        next is Ready,
        outcome is Ok ==> next->Ready_0 is Ok && parts.0 == outcome->Ok_0 && parts.1 == info,
        outcome is Err ==> next->Ready_0 is Err && next->Ready_0->Err_0 == outcome->Err_0,
{
}

/// A wrapped protocol is the protocol that was wrapped, and takes what is put in its place.
pub proof fn law_wrapped_protocol_is_kept<P>(
    protocol: P,
    made: ProtocolWithInfo<P>,
    found: &P,
    before: P,
    set: P,
    after: ProtocolWithInfo<P>,
    last: P,
)
    requires
        call_ensures(P::with_info, (protocol,), made) || call_ensures(
            ProtocolWithInfo::<P>::new,
            (protocol,),
            made,
        ),
        call_ensures(ProtocolWithInfo::<P>::protocol, (&made,), found),
        exists|m: &mut ProtocolWithInfo<P>, place: &mut P|
            *m == made && *final(m) == after && *place == before && *final(place) == set
                && #[trigger] call_ensures(ProtocolWithInfo::<P>::protocol_mut, (m,), place),
        call_ensures(ProtocolWithInfo::<P>::into_inner, (after,), last),
    ensures
        *found == protocol,
        before == protocol,
        last == set,
{
}

} // verus!
