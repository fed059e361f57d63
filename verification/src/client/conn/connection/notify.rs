//! A connection type which can notify the user when it is ready.

use tokio::sync::watch;
use vstd::prelude::*;

use crate::client::pool::PoolableConnection;
use crate::poll::Poll;

verus! {

/// The side of a watched value that sets it.
#[verifier::external_type_specification]
#[verifier::external_body]
#[verifier::reject_recursive_types(T)]
pub struct ExWatchSender<T>(watch::Sender<T>);

/// The side of a watched value that looks at it.
#[verifier::external_type_specification]
#[verifier::external_body]
#[verifier::reject_recursive_types(T)]
pub struct ExWatchReceiver<T>(watch::Receiver<T>);

/// Calls [`tokio::sync::watch::channel`], which makes the two sides of a new watched
/// value. They tell nothing of themselves; that they belong together is what
/// [`WatchedConnection::starts_unready`] says.
#[verifier::external_body]
fn watch_channel(start: bool) -> (watch::Sender<bool>, watch::Receiver<bool>) {
    watch::channel(start)
}

/// Calls [`tokio::sync::watch::Sender::send`], which sets the value for all who look at
/// it. It fails where nobody does; nothing is claimed of that.
#[verifier::external_body]
fn watch_send(sender: &watch::Sender<bool>, value: bool) -> bool {
    sender.send(value).is_ok()
}

/// Calls [`tokio::sync::watch::Receiver::borrow`] and copies the value. It depends on
/// what was set by the time of the call, so nothing is claimed of it.
#[verifier::external_body]
fn watch_current(receiver: &watch::Receiver<bool>) -> bool {
    *receiver.borrow()
}

/// Calls the `Clone` of [`tokio::sync::watch::Sender`], which makes another sender for
/// the same value: the copy is what that call gives.
#[verifier::external_body]
fn watch_sender_clone(sender: &watch::Sender<bool>) -> (copy: watch::Sender<bool>)
    ensures
        cloned(*sender, copy),
{
    sender.clone()
}

/// Calls the `Clone` of [`tokio::sync::watch::Receiver`], which makes another receiver
/// for the same value: the copy is what that call gives.
#[verifier::external_body]
fn watch_receiver_clone(receiver: &watch::Receiver<bool>) -> (copy: watch::Receiver<bool>)
    ensures
        cloned(*receiver, copy),
{
    receiver.clone()
}

/// What a connection announces once it has been asked whether it is ready: that it is,
/// or nothing.
pub fn announcement<E>(ready: &Poll<Result<(), E>>) -> (announced: Option<bool>)
    ensures
        announced == if *ready matches Poll::Ready(Ok(_)) {
            Some(true)
        } else {
            None
        },
{
    match ready {
        Poll::Ready(Ok(_)) => Some(true),
        _ => None,
    }
}

/// A connection which can be monitored for readiness.
#[derive(Debug)]
pub struct WatchedConnection<C> {
    connection: C,
    sender: watch::Sender<bool>,
    receiver: watch::Receiver<bool>,
}

impl<C> WatchedConnection<C> {
    /// The connection.
    pub closed spec fn inner(self) -> C {
        self.connection
    }

    /// The two sides of the watched value that shows whether the connection is ready.
    pub closed spec fn channel(self) -> (watch::Sender<bool>, watch::Receiver<bool>) {
        (self.sender, self.receiver)
    }

    /// Whether the connection has the two sides of one watched value, made to show that
    /// it is not ready.
    pub closed spec fn starts_unready(self) -> bool {
        call_ensures(watch_channel, (false,), (self.sender, self.receiver))
    }

    /// Whether the connection has announced, to all who watch it, whether it is ready.
    pub closed spec fn announced(self, ready: bool) -> bool {
        exists|heard: bool| call_ensures(watch_send, (&self.sender, ready), heard)
    }

    /// Create a new notifying connection, which is not ready at first.
    pub fn new(connection: C) -> (watched: Self)
        ensures
            watched.inner() == connection,
            watched.starts_unready(),
    {
        let (sender, receiver) = watch_channel(false);
        WatchedConnection { connection, sender, receiver }
    }

    /// Whether a watcher looks at the readiness of this connection: its receiver is a
    /// copy of the connection's own.
    pub closed spec fn watched_by(self, watcher: Watcher) -> bool {
        cloned(self.receiver, watcher.receiver)
    }

    /// Whether another connection announces its readiness where this one does: both ends
    /// of its channel are copies of this connection's.
    pub closed spec fn announces_with(self, other: Self) -> bool {
        cloned(self.sender, other.sender) && cloned(self.receiver, other.receiver)
    }

    /// The connection, to send a request on before [`send_with`](Self::send_with).
    pub fn connection_mut(&mut self) -> (connection: &mut C)
        ensures
            *connection == old(self).inner(),
            final(self).inner() == *final(connection),
            final(self).channel() == old(self).channel(),
    {
        &mut self.connection
    }

    /// Get a connection watcher.
    pub fn watch(&self) -> (watcher: Watcher)
        ensures
            self.watched_by(watcher),
    {
        Watcher { receiver: watch_receiver_clone(&self.receiver) }
    }

    /// Begins to wait for a response with `future`: until the connection is asked
    /// again, it is not ready. The response will come with a watcher.
    pub fn send_with<F>(&mut self, future: F) -> (sending: SendAndWatchFuture<F>)
        ensures
            sending.inner() == future,
            sending.holds_watcher(),
            old(self).watched_by(sending.watcher()),
            old(self).announced(false),
            *final(self) == *old(self),
    {
        let _ = watch_send(&self.sender, false);
        let watcher = self.watch();
        SendAndWatchFuture::new(future, watcher)
    }

    /// Passes on whether the connection is ready, and announces it where it is.
    pub fn poll_ready<E>(&mut self, ready: Poll<Result<(), E>>) -> (same: Poll<Result<(), E>>)
        ensures
            same == ready,
            ready matches Poll::Ready(Ok(_)) ==> old(self).announced(true),
            *final(self) == *old(self),
    {
        if let Some(value) = announcement(&ready) {
            let _ = watch_send(&self.sender, value);
        }
        ready
    }
}

impl<C: Clone> Clone for WatchedConnection<C> {
    fn clone(&self) -> (copy: Self)
        ensures
            cloned(self.inner(), copy.inner()),
            self.announces_with(copy),
    {
        WatchedConnection {
            connection: self.connection.clone(),
            sender: watch_sender_clone(&self.sender),
            receiver: watch_receiver_clone(&self.receiver),
        }
    }
}

impl<C: PoolableConnection> PoolableConnection for WatchedConnection<C> {
    open spec fn reports_open(&self, open: bool) -> bool {
        self.inner().reports_open(open)
    }

    open spec fn reports_share(&self, share: bool) -> bool {
        self.inner().reports_share(share)
    }

    open spec fn reuses(before: Self, after: Self, copy: Option<Self>) -> bool {
        &&& after.channel() == before.channel()
        &&& match copy {
            Some(copy) => {
                &&& C::reuses(before.inner(), after.inner(), Some(copy.inner()))
                &&& before.announces_with(copy)
            },
            None => C::reuses(before.inner(), after.inner(), None),
        }
    }

    fn is_open(&self) -> (open: bool) {
        self.connection.is_open()
    }

    fn can_share(&self) -> (share: bool) {
        self.connection.can_share()
    }

    fn reuse(&mut self) -> (copy: Option<Self>) {
        match self.connection.reuse() {
            Some(connection) => Some(
                WatchedConnection {
                    connection,
                    sender: watch_sender_clone(&self.sender),
                    receiver: watch_receiver_clone(&self.receiver),
                },
            ),
            None => None,
        }
    }
}

/// Connection watcher
#[derive(Debug)]
pub struct Watcher {
    receiver: watch::Receiver<bool>,
}

impl Watcher {
    /// Whether looking at the connection may show `ready`. The connection may announce
    /// something else between two looks.
    pub closed spec fn shows(self, ready: bool) -> bool {
        call_ensures(watch_current, (&self.receiver,), ready)
    }

    /// Whether another watcher looks at the connection that this one looks at: its
    /// receiver is a copy of this one's.
    pub closed spec fn watches_with(self, other: Self) -> bool {
        cloned(self.receiver, other.receiver)
    }

    /// Check if the underlying connection is ready now.
    pub fn is_ready(&self) -> (ready: bool)
        ensures
            self.shows(ready),
    {
        watch_current(&self.receiver)
    }

    /// What to report once the wait for the connection is over: `reached` says whether
    /// it became ready, or disappeared.
    pub fn ready(reached: bool) -> (outcome: Result<(), WatchError>)
        ensures
            outcome == if reached {
                Ok::<(), WatchError>(())
            } else {
                Err(WatchError)
            },
    {
        if reached {
            Ok(())
        } else {
            Err(WatchError)
        }
    }
}

impl Clone for Watcher {
    fn clone(&self) -> (copy: Self)
        ensures
            self.watches_with(copy),
    {
        Watcher { receiver: watch_receiver_clone(&self.receiver) }
    }
}

/// Error returned when a watched connection disappears.
#[derive(Debug, Clone, Copy, PartialEq, Eq, Structural)]
pub struct WatchError;

impl WatchError {
    /// The error as text.
    pub fn to_string(&self) -> (shown: String)
        ensures
            shown@ == "Connection dropped before being ready."@,
    {
        "Connection dropped before being ready.".to_owned()
    }
}

/// A response on its way, together with a watcher of its connection.
#[derive(Debug)]
pub struct SendAndWatchFuture<F> {
    future: F,
    watch: Option<Watcher>,
}

impl<F> SendAndWatchFuture<F> {
    /// What makes the response.
    pub closed spec fn inner(self) -> F {
        self.future
    }

    /// Whether the watcher has not been handed out yet.
    pub closed spec fn holds_watcher(self) -> bool {
        self.watch is Some
    }

    /// The watcher.
    pub closed spec fn watcher(self) -> Watcher {
        self.watch->0
    }

    /// Puts the watcher beside what makes the response.
    pub fn new(future: F, watcher: Watcher) -> (sending: Self)
        ensures
            sending.inner() == future,
            sending.holds_watcher(),
            sending.watcher() == watcher,
    {
        SendAndWatchFuture { future, watch: Some(watcher) }
    }

    /// Takes in what came of the response: one that succeeds is handed out with the
    /// watcher.
    pub fn poll<R, E>(&mut self, outcome: Poll<Result<R, E>>) -> (next: Poll<
        Result<(R, Watcher), E>,
    >)
        requires
            old(self).holds_watcher(),
        ensures
            next == match outcome {
                Poll::Ready(Ok(response)) => Poll::Ready(Ok((response, old(self).watcher()))),
                Poll::Ready(Err(error)) => Poll::Ready(Err(error)),
                Poll::Pending => Poll::Pending,
            },
            final(self).inner() == old(self).inner(),
            final(self).holds_watcher() == !(outcome matches Poll::Ready(Ok(_))),
            final(self).holds_watcher() ==> final(self).watcher() == old(self).watcher(),
    {
        match outcome {
            Poll::Ready(Ok(response)) => {
                let watcher = self.watch.take().unwrap();
                Poll::Ready(Ok((response, watcher)))
            },
            Poll::Ready(Err(error)) => Poll::Ready(Err(error)),
            Poll::Pending => Poll::Pending,
        }
    }
}

/// A connection announces that it is ready exactly when it is asked and is, and passes on
/// what it was told either way.
pub proof fn law_readiness_is_announced<C, E>(
    before: WatchedConnection<C>,
    ready: Poll<Result<(), E>>,
    same: Poll<Result<(), E>>,
    after: WatchedConnection<C>,
    announced: Option<bool>,
)
    requires
        exists|m: &mut WatchedConnection<C>|
            *m == before && *final(m) == after && #[trigger] call_ensures(
                WatchedConnection::<C>::poll_ready::<E>,
                (m, ready),
                same,
            ),
        call_ensures(announcement::<E>, (&ready,), announced),
    ensures
        same == ready,
        after == before,
        announced == Some(true) <==> ready is Ready && ready->Ready_0 is Ok,
        announced is None <==> !(ready is Ready && ready->Ready_0 is Ok),
        ready is Ready && ready->Ready_0 is Ok ==> before.announced(true),
{
    if ready is Ready && ready->Ready_0 is Ok {
        assert(exists|heard: bool| #[trigger]
            call_ensures(watch_send, (&before.sender, true), heard));
    }
}

/// Sending a request announces that the connection is not ready, and the response comes with
/// a watcher that looks where the connection announces. A request that failed leaves the
/// watcher for another try.
pub proof fn law_response_has_a_watcher_of_its_connection<C, F, R, E>(
    connection: C,
    watched: WatchedConnection<C>,
    future: F,
    sending: SendAndWatchFuture<F>,
    after: WatchedConnection<C>,
    early: Poll<Result<R, E>>,
    before: Poll<Result<(R, Watcher), E>>,
    waited: SendAndWatchFuture<F>,
    response: R,
    next: Poll<Result<(R, Watcher), E>>,
    last: SendAndWatchFuture<F>,
)
    requires
        call_ensures(WatchedConnection::<C>::new, (connection,), watched),
        exists|m: &mut WatchedConnection<C>|
            *m == watched && *final(m) == after && #[trigger] call_ensures(
                WatchedConnection::<C>::send_with::<F>,
                (m, future),
                sending,
            ),
        early is Pending || early->Ready_0 is Err,
        exists|m: &mut SendAndWatchFuture<F>|
            *m == sending && *final(m) == waited && #[trigger] call_ensures(
                SendAndWatchFuture::<F>::poll::<R, E>,
                (m, early),
                before,
            ),
        exists|m: &mut SendAndWatchFuture<F>|
            *m == waited && *final(m) == last && #[trigger] call_ensures(
                SendAndWatchFuture::<F>::poll::<R, E>,
                (m, Poll::Ready(Ok::<R, E>(response))),
                next,
            ),
    ensures
        watched.inner() == connection,
        watched.starts_unready(),
        watched.announced(false),
        after == watched,
        early is Pending ==> before is Pending,
        early is Ready ==> before == Poll::Ready(Err::<(R, Watcher), E>(early->Ready_0->Err_0)),
        waited == sending,
        next matches Poll::Ready(Ok((same, watcher))) && same == response && watched.watched_by(
            watcher,
        ),
{
    assert(call_ensures(watch_channel, (false,), (watched.sender, watched.receiver)));
    assert(exists|heard: bool| #[trigger]
        call_ensures(watch_send, (&watched.sender, false), heard));
    assert(cloned(watched.receiver, next->Ready_0->Ok_0.1.receiver));
}

/// Who watches a connection sees what it announces last: a watcher and its copies look at
/// the value that the connection sets. The wait ends well only where the connection became
/// ready.
pub proof fn law_watchers_look_where_is_announced<C>(
    watched: WatchedConnection<C>,
    watcher: Watcher,
    copy: Watcher,
    ready: bool,
    reached: bool,
    outcome: Result<(), WatchError>,
    shown: String,
)
    requires
        call_ensures(WatchedConnection::<C>::watch, (&watched,), watcher),
        call_ensures(Watcher::clone, (&watcher,), copy),
        call_ensures(Watcher::is_ready, (&watcher,), ready),
        call_ensures(Watcher::ready, (reached,), outcome),
        call_ensures(WatchError::to_string, (&WatchError,), shown),
    ensures
        watched.watched_by(watcher),
        watcher.watches_with(copy),
        watcher.shows(ready),
        outcome is Ok <==> reached,
        shown@ == "Connection dropped before being ready."@,
{
    assert(cloned(watched.receiver, watcher.receiver));
    assert(cloned(watcher.receiver, copy.receiver));
    assert(call_ensures(watch_current, (&watcher.receiver,), ready));
}

/// A connection that is watched is open, shared and copied as the connection inside is, and
/// its copies announce where it does.
pub proof fn law_watching_changes_nothing_of_the_connection<C: PoolableConnection>(
    before: WatchedConnection<C>,
    open: bool,
    share: bool,
    copy: Option<WatchedConnection<C>>,
    after: WatchedConnection<C>,
)
    requires
        call_ensures(WatchedConnection::<C>::is_open, (&before,), open),
        call_ensures(WatchedConnection::<C>::can_share, (&before,), share),
        exists|m: &mut WatchedConnection<C>|
            *m == before && *final(m) == after && #[trigger] call_ensures(
                WatchedConnection::<C>::reuse,
                (m,),
                copy,
            ),
    ensures
        before.inner().reports_open(open),
        before.inner().reports_share(share),
        copy is Some ==> C::reuses(before.inner(), after.inner(), Some(copy->0.inner()))
            && before.announces_with(copy->0),
        copy is None ==> C::reuses(before.inner(), after.inner(), None),
        after.channel() == before.channel(),
{
    assert(before.connection.reports_open(open));
    assert(after.sender == before.sender && after.receiver == before.receiver);
    if copy is Some {
        assert(cloned(before.sender, copy->0.sender));
        assert(cloned(before.receiver, copy->0.receiver));
    }
}

/// A copy of a watched connection is a copy of the connection that announces where it does,
/// and what is done to the connection inside leaves where it announces.
pub proof fn law_copied_connection_is_watched_too<C: Clone>(
    connection: C,
    watched: WatchedConnection<C>,
    copy: WatchedConnection<C>,
    before: C,
    other: C,
    changed: WatchedConnection<C>,
)
    requires
        call_ensures(WatchedConnection::<C>::new, (connection,), watched),
        call_ensures(WatchedConnection::<C>::clone, (&watched,), copy),
        exists|m: &mut WatchedConnection<C>, place: &mut C|
            *m == watched && *final(m) == changed && *place == before && *final(place) == other
                && #[trigger] call_ensures(WatchedConnection::<C>::connection_mut, (m,), place),
    ensures
        cloned(connection, copy.inner()),
        watched.announces_with(copy),
        before == connection,
        changed.inner() == other,
        changed.channel() == watched.channel(),
{
    assert(cloned(watched.sender, copy.sender));
    assert(cloned(watched.receiver, copy.receiver));
    assert(changed.sender == watched.sender && changed.receiver == watched.receiver);
}

} // verus!
