//! Connections that tell where they lead.

use vstd::prelude::*;

use crate::client::pool::PoolableConnection;
use crate::info::ConnectionInfo;
use crate::poll::Poll;

verus! {

/// A connection with associated info, which is handed out with each response.
#[derive(Debug)]
pub struct WithInfo<C, A> {
    connection: C,
    info: ConnectionInfo<A>,
}

impl<C, A> WithInfo<C, A> {
    /// The connection and its info.
    pub closed spec fn parts(self) -> (C, ConnectionInfo<A>) {
        (self.connection, self.info)
    }

    /// Wrap a connection with asssociated transport info.
    pub fn new(connection: C, info: ConnectionInfo<A>) -> (wrapped: Self)
        ensures
            wrapped.parts() == (connection, info),
    {
        WithInfo { connection, info }
    }

    /// Unwrap the connection and info objects.
    pub fn into_inner(self) -> (parts: (C, ConnectionInfo<A>))
        ensures
            parts == self.parts(),
    {
        (self.connection, self.info)
    }

    /// Access the inner connection
    pub fn connection(&self) -> (connection: &C)
        ensures
            connection == self.parts().0,
    {
        &self.connection
    }

    /// Access a mutable reference to the inner connection
    pub fn connection_mut(&mut self) -> (connection: &mut C)
        ensures
            *connection == old(self).parts().0,
            final(self).parts() == (*final(connection), old(self).parts().1),
    {
        &mut self.connection
    }

    /// Access the connection info
    pub fn info(&self) -> (info: &ConnectionInfo<A>)
        ensures
            info == self.parts().1,
    {
        &self.info
    }

    /// Begins to wait for a response with `future`; it will come with the info.
    pub fn send_with<F>(&self, future: F) -> (sending: SendWithInfoFuture<F, A>) where A: Clone
        ensures
            sending.parts().0 == future,
            sending.parts().1 matches Some(info) && ConnectionInfo::copied(self.parts().1, info),
    {
        SendWithInfoFuture::new(future, self.info.clone())
    }
}

impl<C: Clone, A: Clone> Clone for WithInfo<C, A> {
    fn clone(&self) -> (copy: Self)
        ensures
            cloned(self.parts().0, copy.parts().0),
            ConnectionInfo::copied(self.parts().1, copy.parts().1),
    {
        WithInfo { connection: self.connection.clone(), info: self.info.clone() }
    }
}

impl<C: PoolableConnection, A: Clone> PoolableConnection for WithInfo<C, A> {
    open spec fn reports_open(&self, open: bool) -> bool {
        self.parts().0.reports_open(open)
    }

    open spec fn reports_share(&self, share: bool) -> bool {
        self.parts().0.reports_share(share)
    }

    open spec fn reuses(before: Self, after: Self, copy: Option<Self>) -> bool {
        &&& after.parts().1 == before.parts().1
        &&& match copy {
            Some(copy) => {
                &&& C::reuses(before.parts().0, after.parts().0, Some(copy.parts().0))
                &&& ConnectionInfo::copied(before.parts().1, copy.parts().1)
            },
            None => C::reuses(before.parts().0, after.parts().0, None),
        }
    }

    fn is_open(&self) -> (open: bool) {
        self.connection.is_open()
    }

    fn can_share(&self) -> (share: bool) {
        self.connection.can_share()
    }

    fn reuse(&mut self) -> (copy: Option<Self>) {
        match self.connection.reuse() {
            Some(connection) => Some(WithInfo { connection, info: self.info.clone() }),
            None => None,
        }
    }
}

/// A response on its way, together with the info of its connection.
#[derive(Debug)]
pub struct SendWithInfoFuture<F, A> {
    future: F,
    info: Option<ConnectionInfo<A>>,
}

impl<F, A> SendWithInfoFuture<F, A> {
    /// What makes the response, and the info until it has been handed out.
    pub closed spec fn parts(self) -> (F, Option<ConnectionInfo<A>>) {
        (self.future, self.info)
    }

    /// Puts the info beside what makes the response.
    pub fn new(future: F, info: ConnectionInfo<A>) -> (sending: Self)
        ensures
            sending.parts() == (future, Some(info)),
    {
        SendWithInfoFuture { future, info: Some(info) }
    }

    /// Takes in what came of the response: one that succeeds is handed out with the
    /// info.
    pub fn poll<R, E>(&mut self, outcome: Poll<Result<R, E>>) -> (next: Poll<
        Result<(R, ConnectionInfo<A>), E>,
    >)
        requires
            old(self).parts().1 is Some,
        ensures
            next == match outcome {
                Poll::Ready(Ok(response)) => Poll::Ready(Ok((response, old(self).parts().1->0))),
                Poll::Ready(Err(error)) => Poll::Ready(Err(error)),
                Poll::Pending => Poll::Pending,
            },
            final(self).parts().0 == old(self).parts().0,
            final(self).parts().1 == if outcome matches Poll::Ready(Ok(_)) {
                None
            } else {
                old(self).parts().1
            },
    {
        match outcome {
            Poll::Ready(Ok(response)) => {
                let info = self.info.take().unwrap();
                Poll::Ready(Ok((response, info)))
            },
            Poll::Ready(Err(error)) => Poll::Ready(Err(error)),
            Poll::Pending => Poll::Pending,
        }
    }
}

/// A response comes with the info of the connection that it was sent on, however often it
/// was asked for before. An error comes as it is, and leaves the info for another try.
pub proof fn law_response_has_the_info_of_its_connection<C, F, A: Clone, R, E>(
    connection: C,
    info: ConnectionInfo<A>,
    wrapped: WithInfo<C, A>,
    future: F,
    sending: SendWithInfoFuture<F, A>,
    early: Poll<Result<R, E>>,
    before: Poll<Result<(R, ConnectionInfo<A>), E>>,
    waited: SendWithInfoFuture<F, A>,
    response: R,
    next: Poll<Result<(R, ConnectionInfo<A>), E>>,
    last: SendWithInfoFuture<F, A>,
)
    requires
        call_ensures(WithInfo::<C, A>::new, (connection, info), wrapped),
        call_ensures(WithInfo::<C, A>::send_with::<F>, (&wrapped, future), sending),
        early is Pending || early->Ready_0 is Err,
        exists|m: &mut SendWithInfoFuture<F, A>|
            *m == sending && *final(m) == waited && #[trigger] call_ensures(
                SendWithInfoFuture::<F, A>::poll::<R, E>,
                (m, early),
                before,
            ),
        exists|m: &mut SendWithInfoFuture<F, A>|
            *m == waited && *final(m) == last && #[trigger] call_ensures(
                SendWithInfoFuture::<F, A>::poll::<R, E>,
                (m, Poll::Ready(Ok::<R, E>(response))),
                next,
            ),
    ensures
        early is Pending ==> before is Pending,
        early is Ready ==> before == Poll::Ready(
            Err::<(R, ConnectionInfo<A>), E>(early->Ready_0->Err_0),
        ),
        waited == sending,
        next matches Poll::Ready(Ok((same, told))) && same == response && cloned(
            info.local_addr,
            told.local_addr,
        ) && cloned(info.remote_addr, told.remote_addr),
{
}

/// A connection with info is open, shared and copied as the connection inside is, and keeps
/// its info; each copy has a copy of that.
pub proof fn law_info_changes_nothing_of_the_connection<C: PoolableConnection, A: Clone>(
    connection: C,
    info: ConnectionInfo<A>,
    wrapped: WithInfo<C, A>,
    open: bool,
    share: bool,
    copy: Option<WithInfo<C, A>>,
    after: WithInfo<C, A>,
    found: &C,
    told: &ConnectionInfo<A>,
    parts: (C, ConnectionInfo<A>),
    parts_after: (C, ConnectionInfo<A>),
    parts_of_copy: (C, ConnectionInfo<A>),
)
    requires
        call_ensures(WithInfo::<C, A>::new, (connection, info), wrapped),
        call_ensures(WithInfo::<C, A>::is_open, (&wrapped,), open),
        call_ensures(WithInfo::<C, A>::can_share, (&wrapped,), share),
        exists|m: &mut WithInfo<C, A>|
            *m == wrapped && *final(m) == after && #[trigger] call_ensures(
                WithInfo::<C, A>::reuse,
                (m,),
                copy,
            ),
        call_ensures(WithInfo::<C, A>::connection, (&wrapped,), found),
        call_ensures(WithInfo::<C, A>::info, (&wrapped,), told),
        call_ensures(WithInfo::<C, A>::into_inner, (wrapped,), parts),
        call_ensures(WithInfo::<C, A>::into_inner, (after,), parts_after),
        copy is Some ==> call_ensures(WithInfo::<C, A>::into_inner, (copy->0,), parts_of_copy),
    ensures
        connection.reports_open(open),
        connection.reports_share(share),
        copy is Some ==> C::reuses(connection, parts_after.0, Some(parts_of_copy.0)),
        copy is None ==> C::reuses(connection, parts_after.0, None),
        copy is Some ==> cloned(info.local_addr, parts_of_copy.1.local_addr) && cloned(
            info.remote_addr,
            parts_of_copy.1.remote_addr,
        ),
        parts_after.1 == info,
        *found == connection,
        *told == info,
        parts == (connection, info),
{
}

/// A copy of a connection with info is a copy of the connection with a copy of the info, and
/// what is done to the connection inside leaves the info.
pub proof fn law_copied_connection_keeps_its_info<C: Clone, A: Clone>(
    connection: C,
    info: ConnectionInfo<A>,
    wrapped: WithInfo<C, A>,
    copy: WithInfo<C, A>,
    parts: (C, ConnectionInfo<A>),
    before: C,
    other: C,
    changed: WithInfo<C, A>,
    left: (C, ConnectionInfo<A>),
)
    requires
        call_ensures(WithInfo::<C, A>::new, (connection, info), wrapped),
        call_ensures(WithInfo::<C, A>::clone, (&wrapped,), copy),
        call_ensures(WithInfo::<C, A>::into_inner, (copy,), parts),
        exists|m: &mut WithInfo<C, A>, place: &mut C|
            *m == wrapped && *final(m) == changed && *place == before && *final(place) == other
                && #[trigger] call_ensures(WithInfo::<C, A>::connection_mut, (m,), place),
        call_ensures(WithInfo::<C, A>::into_inner, (changed,), left),
    ensures
        cloned(connection, parts.0),
        cloned(info.local_addr, parts.1.local_addr),
        cloned(info.remote_addr, parts.1.remote_addr),
        before == connection,
        left == (other, info),
{
}

} // verus!
