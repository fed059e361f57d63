//! What holds of the pool as a whole.

use tokio::sync::oneshot::error::RecvError;
use tokio::sync::oneshot::{Receiver, Sender};
use vstd::prelude::*;
use vstd::std_specs::cmp::*;

use crate::client::conn::connector::{
    self, Connector, ConnectorEvent, ConnectorStep,
};
use crate::client::pool::checkout::{
    Checkout, CheckoutDrop, CheckoutId, CheckoutStep, Error, InnerCheckoutConnecting, Waiting,
};
use crate::client::pool::idle::{self, Idle};
use crate::client::pool::key::{self, Token};
use crate::client::pool::waiter::Waiter;
use crate::client::pool::{
    self, PoolInner, PoolRef, PoolableConnection, PoolableStream, Pooled,
};
use crate::poll::Poll;
use crate::time::Instant;

verus! {

/// A connection that was put into the pool while nobody waited for it and there was
/// room for it, and that has neither expired nor closed since, is the one that the next
/// checkout gets.
pub proof fn law_returned_connection_is_used_next<C: PoolableConnection, W: Waiter<Pooled<C>>>(
    before: PoolInner<C, W>,
    token: Token,
    connection: C,
    link: PoolRef,
    then: Instant,
    holding: PoolInner<C, W>,
    now: Instant,
    after: PoolInner<C, W>,
    found: Option<C>,
)
    requires
        before.waiters(token).len() == 0,
        before.idle_at(token).len() < before.config().max_idle_per_host,
        PoolInner::pushed_at(before, token, connection, link, then, holding),
        !idle::expired(
            Idle { at: then, inner: connection },
            idle::expiry(holding.config().idle_timeout, now),
        ),
        !connection.reports_open(false),
        PoolInner::popped_at(holding, token, now, after, found),
    ensures
        found == Some(connection),
{
    let expiry = idle::expiry(holding.config().idle_timeout, now);
    let (left, kept) = choose|left: Seq<W>, kept: Option<C>|
        {
            &&& #[trigger] pool::walked(before.waiters(token), token, link, connection, left, kept)
            &&& holding.idle() == PoolInner::idle_with(before, token, then, kept)
        };
    assert(kept == Some(connection));
    let entries = holding.idle_at(token);
    let last = entries.len() - 1;
    assert(entries[last] == Idle { at: then, inner: connection });
    let list = choose|list: Seq<Idle<C>>| #[trigger] idle::searched(entries, expiry, list, found);
    let k = choose|k: int| #[trigger] idle::search_ended_at(entries, expiry, list, found, k);
    if k < last {
        assert(idle::passed_over(entries[last], expiry));
    }
}

/// What the pool hands out was idle there, had not expired, and reported open.
pub proof fn law_popped_connection_is_open_and_fresh<C: PoolableConnection, W: Waiter<Pooled<C>>>(
    before: PoolInner<C, W>,
    token: Token,
    now: Instant,
    after: PoolInner<C, W>,
    connection: C,
)
    requires
        PoolInner::popped_at(before, token, now, after, Some(connection)),
    ensures
        connection.reports_open(true),
        exists|i: int|
            {
                &&& 0 <= i < before.idle_at(token).len()
                &&& (#[trigger] before.idle_at(token)[i]).inner == connection
                &&& !idle::expired(
                    before.idle_at(token)[i],
                    idle::expiry(before.config().idle_timeout, now),
                )
            },
{
    let expiry = idle::expiry(before.config().idle_timeout, now);
    let entries = before.idle_at(token);
    let list = choose|list: Seq<Idle<C>>| #[trigger]
        idle::searched(entries, expiry, list, Some(connection));
    let k = choose|k: int| #[trigger]
        idle::search_ended_at(entries, expiry, list, Some(connection), k);
    assert(entries[k].inner == connection);
}

/// While a connection is being made that can be shared, and none is idle, a second
/// checkout makes no attempt of its own.
pub proof fn law_shared_attempt_is_made_once<C: PoolableConnection, W: Waiter<Pooled<C>>, N>(
    before: PoolInner<C, W>,
    token: Token,
    connector: N,
    sender: W,
    receiver: Receiver<Pooled<C>>,
    then: Instant,
    between: PoolInner<C, W>,
    first: Checkout<C, N>,
    multiplex: bool,
    second_connector: N,
    second_sender: W,
    second_receiver: Receiver<Pooled<C>>,
    now: Instant,
    after: PoolInner<C, W>,
    second: Checkout<C, N>,
)
    requires
        PoolInner::checked_out_at(
            before,
            token,
            true,
            connector,
            sender,
            receiver,
            then,
            between,
            first,
        ),
        first.connection is None,
        PoolInner::checked_out_at(
            between,
            token,
            multiplex,
            second_connector,
            second_sender,
            second_receiver,
            now,
            after,
            second,
        ),
        second.connection is None,
    ensures
        second.inner == InnerCheckoutConnecting::<N>::Waiting,
        second.waiter == Waiting::Connecting(second_receiver),
        after.connecting() == between.connecting(),
{
}

/// A stream that says that it can be shared is shared before the handshake is complete:
/// the connector asks it as soon as there is a stream, and has the pool told when the
/// handshake starts, and a checkout from then on that finds no idle connection makes no
/// attempt of its own, whatever the version of the first attempt was. Of a stream that
/// says that it cannot be shared, the pool is not told.
pub proof fn law_shared_stream_is_waited_for<
    A,
    T,
    P,
    S: PoolableStream,
    TE,
    PE,
    C: PoolableConnection,
    W: Waiter<Pooled<C>>,
    N,
>(
    connector: Connector<A, T, P, S>,
    stream: S,
    connected: ConnectorStep<A, T, P, S, C, TE, PE>,
    ready: Connector<A, T, P, S>,
    started: ConnectorStep<A, T, P, S, C, TE, PE>,
    share: bool,
    other: bool,
    before: PoolInner<C, W>,
    token: Token,
    told: PoolInner<C, W>,
    multiplex: bool,
    second_connector: N,
    sender: W,
    receiver: Receiver<Pooled<C>>,
    now: Instant,
    after: PoolInner<C, W>,
    second: Checkout<C, N>,
)
    requires
        connector.valid(),
        connector.state is Connect,
        ({
            let event = ConnectorEvent::Connected(Poll::Ready(Ok(stream)));
            connector::asked::<S, C, TE, PE>(event, share) && connected == connector.next(
                event,
                share,
            )
        }),
        connected == ConnectorStep::<A, T, P, S, C, TE, PE>::PollProtocol(ready),
        started == ready.next(
            ConnectorEvent::<S, C, TE, PE>::ProtocolReady(Poll::Ready(Ok(()))),
            other,
        ),
        told.idle() == before.idle(),
        told.waiting() == before.waiting(),
        told.connecting() == if started->notify {
            before.connecting().insert(token.index())
        } else {
            before.connecting()
        },
        PoolInner::checked_out_at(
            told,
            token,
            multiplex,
            second_connector,
            sender,
            receiver,
            now,
            after,
            second,
        ),
        second.connection is None,
    ensures
        started is Handshake,
        stream.stream_reports_share(started->notify),
        !stream.stream_reports_share(false) ==> {
            &&& second.inner == InnerCheckoutConnecting::<N>::Waiting
            &&& second.waiter == Waiting::Connecting(receiver)
        },
        !stream.stream_reports_share(true) ==> told.connecting() == before.connecting(),
{
}

/// Once an attempt is cancelled, or has come to its end, the next checkout that finds
/// no idle connection makes an attempt of its own.
pub proof fn law_ended_attempt_frees_the_host<C: PoolableConnection, W: Waiter<Pooled<C>>, N>(
    before: PoolInner<C, W>,
    token: Token,
    multiplex: bool,
    connector: N,
    sender: W,
    receiver: Receiver<Pooled<C>>,
    now: Instant,
    after: PoolInner<C, W>,
    checkout: Checkout<C, N>,
)
    requires
        !before.connecting().contains(token.index()),
        PoolInner::checked_out_at(
            before,
            token,
            multiplex,
            connector,
            sender,
            receiver,
            now,
            after,
            checkout,
        ),
        checkout.connection is None,
    ensures
        checkout.inner.attempts(),
        checkout.waiter == Waiting::Idle(receiver),
        after.connecting().contains(token.index()) <==> multiplex,
{
}

/// Waiters are served in the order in which they came: those that a walk does not
/// reach are the last of them. And the connection is never lost: either it is kept,
/// or the last waiter that the walk reached took it.
pub proof fn law_connection_is_kept_or_taken<C: PoolableConnection, W: Waiter<Pooled<C>>>(
    waiters: Seq<W>,
    token: Token,
    link: PoolRef,
    connection: C,
    left: Seq<W>,
    kept: Option<C>,
)
    requires
        pool::walked(waiters, token, link, connection, left, kept),
    ensures
        left.len() <= waiters.len(),
        left == waiters.skip(waiters.len() - left.len()),
        kept is Some ==> left.len() == 0,
        kept is None ==> left.len() < waiters.len() && exists|held: C, sent: C| #[trigger]
            pool::sent_whole(waiters[waiters.len() - left.len() - 1], token, link, held, sent, true),
    decreases waiters.len(),
{
    if waiters.len() == 0 {
        assert(left =~= waiters.skip(0));
    } else {
        let waiter = waiters[0];
        let rest = waiters.skip(1);
        if waiter.reports_closed(true) && pool::walked(rest, token, link, connection, left, kept) {
            law_connection_is_kept_or_taken(rest, token, link, connection, left, kept);
        } else if exists|next: C| #[trigger]
            pool::sent_copy(waiter, token, link, connection, next) && pool::walked(
                rest,
                token,
                link,
                next,
                left,
                kept,
            ) {
            let next = choose|next: C| #[trigger]
                pool::sent_copy(waiter, token, link, connection, next) && pool::walked(
                    rest,
                    token,
                    link,
                    next,
                    left,
                    kept,
                );
            law_connection_is_kept_or_taken(rest, token, link, next, left, kept);
        } else if exists|next: C| #[trigger]
            pool::sent_whole(waiter, token, link, connection, next, false) && pool::walked(
                rest,
                token,
                link,
                next,
                left,
                kept,
            ) {
            let next = choose|next: C| #[trigger]
                pool::sent_whole(waiter, token, link, connection, next, false) && pool::walked(
                    rest,
                    token,
                    link,
                    next,
                    left,
                    kept,
                );
            law_connection_is_kept_or_taken(rest, token, link, next, left, kept);
        } else {
            let next = choose|next: C| #[trigger]
                pool::sent_whole(waiter, token, link, connection, next, true);
            assert(left == rest);
            assert(pool::sent_whole(
                waiters[waiters.len() - left.len() - 1],
                token,
                link,
                connection,
                next,
                true,
            ));
        }
        assert(left =~= waiters.skip(waiters.len() - left.len()));
        if left.len() < rest.len() {
            assert(rest[rest.len() - left.len() - 1] == waiters[waiters.len() - left.len() - 1]);
        }
    }
}

/// Whether copies can always be made of a connection with this trait, and have the trait
/// too, as has the connection once it has been copied.
pub open spec fn copies_keep<C: PoolableConnection>(kin: spec_fn(C) -> bool) -> bool {
    forall|held: C, next: C, copy: Option<C>| #[trigger]
        C::reuses(held, next, copy) && kin(held) ==> kin(next) && copy is Some && kin(copy->0)
}

/// Whether somebody who waits was sent a copy with this trait.
pub open spec fn sent_kin<C: PoolableConnection, W: Waiter<Pooled<C>>>(
    waiter: W,
    token: Token,
    link: PoolRef,
    kin: spec_fn(C) -> bool,
) -> bool {
    exists|copy: C, answer: Result<(), Pooled<C>>|
        kin(copy) && #[trigger] waiter.answers(pool::shared(copy, token, link), answer)
}

/// A connection of which copies can always be made is sent to everyone who still
/// waits for it, and is left over for the pool. Whatever holds of the connection and is
/// kept by copying holds of the copies.
pub proof fn law_copies_reach_everyone<C: PoolableConnection, W: Waiter<Pooled<C>>>(
    waiters: Seq<W>,
    token: Token,
    link: PoolRef,
    connection: C,
    left: Seq<W>,
    kept: Option<C>,
    kin: spec_fn(C) -> bool,
)
    requires
        pool::walked(waiters, token, link, connection, left, kept),
        kin(connection),
        copies_keep(kin),
    ensures
        left.len() == 0,
        kept matches Some(rest) && kin(rest),
        forall|i: int|
            #![trigger waiters[i]]
            0 <= i < waiters.len() ==> waiters[i].reports_closed(true) || sent_kin(
                waiters[i],
                token,
                link,
                kin,
            ),
    decreases waiters.len(),
{
    if waiters.len() > 0 {
        let waiter = waiters[0];
        let rest = waiters.skip(1);
        if waiter.reports_closed(true) && pool::walked(rest, token, link, connection, left, kept) {
            law_copies_reach_everyone(rest, token, link, connection, left, kept, kin);
        } else {
            let next = choose|next: C| #[trigger]
                pool::sent_copy(waiter, token, link, connection, next) && pool::walked(
                    rest,
                    token,
                    link,
                    next,
                    left,
                    kept,
                );
            let (copy, answer) = choose|copy: C, answer: Result<(), Pooled<C>>|
                #![trigger C::reuses(connection, next, Some(copy)), waiter.answers(pool::shared(copy, token, link), answer)]
                C::reuses(connection, next, Some(copy)) && waiter.answers(
                    pool::shared(copy, token, link),
                    answer,
                );
            assert(C::reuses(connection, next, Some(copy)));
            assert(kin(copy) && waiter.answers(pool::shared(copy, token, link), answer));
            law_copies_reach_everyone(rest, token, link, next, left, kept, kin);
        }
        assert forall|i: int| #![trigger waiters[i]] 0 <= i < waiters.len() implies (
        waiters[i].reports_closed(true) || sent_kin(waiters[i], token, link, kin)) by {
            if i > 0 {
                assert(waiters[i] == rest[i - 1]);
            }
        }
    }
}

/// Whether somebody who waits for the connection of another was sent a copy with this
/// trait, to the other end of their channel, unless nobody listens at it any more.
pub open spec fn served<C: PoolableConnection>(
    waiting: Waiting<C>,
    token: Token,
    link: PoolRef,
    kin: spec_fn(C) -> bool,
) -> bool {
    match waiting {
        Waiting::Connecting(receiver) => exists|sender: Sender<Pooled<C>>|
            {
                &&& #[trigger] pool::paired(sender, receiver)
                &&& sender.reports_closed(true) || sent_kin(sender, token, link, kin)
            },
        _ => false,
    }
}

/// A checkout that waits for a connection which another checkout is making gets it:
/// where nothing is idle, the second of two checkouts makes no attempt of its own, and
/// once the connection of the first is registered, which can be shared, a copy of it is
/// sent to the other end of the channel on which the second waits, unless nobody listens
/// there any more. The second yields the copy once it arrives, and until something does
/// it goes on waiting.
pub proof fn law_waiting_checkout_is_served<C: PoolableConnection, N, T, P>(
    before: PoolInner<C, Sender<Pooled<C>>>,
    token: Token,
    connector: N,
    between: PoolInner<C, Sender<Pooled<C>>>,
    first: Checkout<C, N>,
    multiplex: bool,
    second_connector: N,
    holding: PoolInner<C, Sender<Pooled<C>>>,
    second: Checkout<C, N>,
    connection: C,
    now: Instant,
    after: PoolInner<C, Sender<Pooled<C>>>,
    pooled: Pooled<C>,
    kin: spec_fn(C) -> bool,
)
    requires
        before.idle_at(token).len() == 0,
        pool::checked_out(before, token, true, connector, between, first),
        pool::checked_out(between, token, multiplex, second_connector, holding, second),
        PoolInner::registered_at(holding, token, connection, now, after, pooled),
        kin(connection),
        copies_keep(kin),
    ensures
        pooled.connection matches Some(own) && kin(own),
        first.connection is None,
        second.connection is None,
        second.inner is Waiting,
        second.next_step::<T, P>(Poll::Pending) is Pending,
        served(second.waiter, token, PoolRef::Attached, kin),
        forall|item: Pooled<C>|
            #[trigger] second.next_step::<T, P>(Poll::Ready(Ok(item))) == CheckoutStep::<
                C,
                T,
                P,
            >::Done(Ok(item)),
{
    let (sender, receiver, then) = choose|
        sender: Sender<Pooled<C>>,
        receiver: Receiver<Pooled<C>>,
        then: Instant,
    |
        {
            &&& pool::paired(sender, receiver)
            &&& #[trigger] PoolInner::checked_out_at(
                before,
                token,
                true,
                connector,
                sender,
                receiver,
                then,
                between,
                first,
            )
        };
    if let Some(found) = first.connection {
        law_pop_adds_no_idle_connection(before, token, then, between, Some(found));
    }
    let searched = choose|searched: PoolInner<C, Sender<Pooled<C>>>|
        {
            &&& #[trigger] PoolInner::popped_at(before, token, then, searched, None)
            &&& PoolInner::queued(
                searched,
                token,
                true,
                connector,
                sender,
                receiver,
                between,
                first,
            )
        };
    law_pop_adds_no_idle_connection(before, token, then, searched, None);
    assert(between.idle_at(token).len() == 0);
    assert(between.connecting().contains(token.index()));

    let (second_sender, second_receiver, later) = choose|
        sender: Sender<Pooled<C>>,
        receiver: Receiver<Pooled<C>>,
        later: Instant,
    |
        {
            &&& pool::paired(sender, receiver)
            &&& #[trigger] PoolInner::checked_out_at(
                between,
                token,
                multiplex,
                second_connector,
                sender,
                receiver,
                later,
                holding,
                second,
            )
        };
    if let Some(found) = second.connection {
        law_pop_adds_no_idle_connection(between, token, later, holding, Some(found));
    }
    let second_searched = choose|searched: PoolInner<C, Sender<Pooled<C>>>|
        {
            &&& #[trigger] PoolInner::popped_at(between, token, later, searched, None)
            &&& PoolInner::queued(
                searched,
                token,
                multiplex,
                second_connector,
                second_sender,
                second_receiver,
                holding,
                second,
            )
        };
    assert(second.waiter == Waiting::Connecting(second_receiver));
    let waiters = holding.waiters(token);
    assert(waiters == second_searched.waiters(token).push(second_sender));

    let (held, copy) = choose|held: C, copy: Option<C>|
        {
            &&& #[trigger] C::reuses(connection, held, copy)
            &&& match copy {
                Some(copy) => {
                    &&& PoolInner::pushed_at(holding, token, copy, PoolRef::Attached, now, after)
                    &&& pooled == pool::shared(held, token, PoolRef::Detached)
                },
                None => pooled == pool::owned(held, token, PoolRef::Attached),
            }
        };
    assert(kin(held) && copy is Some && kin(copy->0));
    let (left, kept) = choose|left: Seq<Sender<Pooled<C>>>, kept: Option<C>| #[trigger]
        pool::walked(waiters, token, PoolRef::Attached, copy->0, left, kept);
    law_copies_reach_everyone(waiters, token, PoolRef::Attached, copy->0, left, kept, kin);
    assert(waiters[waiters.len() - 1] == second_sender);
    assert(second_sender.reports_closed(true) || sent_kin(
        second_sender,
        token,
        PoolRef::Attached,
        kin,
    ));
    assert(second.waiter->Connecting_0 == second_receiver);
    assert(pool::paired(second_sender, second.waiter->Connecting_0));
}

/// Putting a connection into the pool leaves what the pool holds for other hosts as
/// it was.
pub proof fn law_push_leaves_other_hosts_alone<C: PoolableConnection, W: Waiter<Pooled<C>>>(
    before: PoolInner<C, W>,
    token: Token,
    connection: C,
    link: PoolRef,
    now: Instant,
    after: PoolInner<C, W>,
    other: Token,
)
    requires
        PoolInner::pushed_at(before, token, connection, link, now, after),
        other.index() != token.index(),
    ensures
        after.waiters(other) == before.waiters(other),
        after.idle_at(other) == before.idle_at(other),
        after.connecting().contains(other.index()) == before.connecting().contains(other.index()),
{
}

/// Taking a connection out of the pool leaves what the pool holds for other hosts as
/// it was.
pub proof fn law_pop_leaves_other_hosts_alone<C: PoolableConnection, W: Waiter<Pooled<C>>>(
    before: PoolInner<C, W>,
    token: Token,
    now: Instant,
    after: PoolInner<C, W>,
    found: Option<C>,
    other: Token,
)
    requires
        PoolInner::popped_at(before, token, now, after, found),
        other.index() != token.index(),
    ensures
        after.waiters(other) == before.waiters(other),
        after.idle_at(other) == before.idle_at(other),
        after.connecting().contains(other.index()) == before.connecting().contains(other.index()),
{
}

/// Putting a connection into the pool never makes more connections to a host idle than
/// the configuration allows.
pub proof fn law_push_keeps_the_limit<C: PoolableConnection, W: Waiter<Pooled<C>>>(
    before: PoolInner<C, W>,
    token: Token,
    connection: C,
    link: PoolRef,
    now: Instant,
    after: PoolInner<C, W>,
)
    requires
        before.within_limit(),
        PoolInner::pushed_at(before, token, connection, link, now, after),
    ensures
        after.within_limit(),
{
    assert forall|other: Token| #[trigger]
        after.idle_at(other).len() <= after.config().max_idle_per_host by {
        assert(before.idle_at(other).len() <= before.config().max_idle_per_host);
        assert(before.idle_at(token).len() <= before.config().max_idle_per_host);
    }
}

/// Registering a connection never makes more connections to a host idle than the
/// configuration allows.
pub proof fn law_register_keeps_the_limit<C: PoolableConnection, W: Waiter<Pooled<C>>>(
    before: PoolInner<C, W>,
    token: Token,
    connection: C,
    now: Instant,
    after: PoolInner<C, W>,
    pooled: Pooled<C>,
)
    requires
        before.within_limit(),
        PoolInner::registered_at(before, token, connection, now, after, pooled),
    ensures
        after.within_limit(),
{
    let (held, copy) = choose|held: C, copy: Option<C>|
        {
            &&& #[trigger] C::reuses(connection, held, copy)
            &&& match copy {
                Some(copy) => PoolInner::pushed_at(
                    before,
                    token,
                    copy,
                    PoolRef::Attached,
                    now,
                    after,
                ),
                None => after == before,
            }
        };
    if let Some(copy) = copy {
        law_push_keeps_the_limit(before, token, copy, PoolRef::Attached, now, after);
    }
}

/// Taking a connection out of the pool never makes more connections to a host idle than
/// the configuration allows.
pub proof fn law_pop_keeps_the_limit<C: PoolableConnection, W: Waiter<Pooled<C>>>(
    before: PoolInner<C, W>,
    token: Token,
    now: Instant,
    after: PoolInner<C, W>,
    found: Option<C>,
)
    requires
        before.within_limit(),
        PoolInner::popped_at(before, token, now, after, found),
    ensures
        after.within_limit(),
{
    law_pop_adds_no_idle_connection(before, token, now, after, found);
    assert forall|other: Token| #[trigger]
        after.idle_at(other).len() <= after.config().max_idle_per_host by {
        assert(before.idle_at(other).len() <= before.config().max_idle_per_host);
        if other.index() != token.index() {
            law_pop_leaves_other_hosts_alone(before, token, now, after, found, other);
        } else {
            assert(before.idle_at(other) == before.idle_at(token));
            assert(after.idle_at(other) == after.idle_at(token));
        }
    }
}

/// A checkout never makes more connections to a host idle than the configuration
/// allows.
pub proof fn law_checkout_keeps_the_limit<C: PoolableConnection, W: Waiter<Pooled<C>>, N>(
    before: PoolInner<C, W>,
    token: Token,
    multiplex: bool,
    connector: N,
    sender: W,
    receiver: Receiver<Pooled<C>>,
    now: Instant,
    after: PoolInner<C, W>,
    checkout: Checkout<C, N>,
)
    requires
        before.within_limit(),
        PoolInner::checked_out_at(
            before,
            token,
            multiplex,
            connector,
            sender,
            receiver,
            now,
            after,
            checkout,
        ),
    ensures
        after.within_limit(),
{
    match checkout.connection {
        Some(connection) => {
            law_pop_keeps_the_limit(before, token, now, after, Some(connection));
        },
        None => {
            let searched = choose|searched: PoolInner<C, W>|
                {
                    &&& #[trigger] PoolInner::popped_at(before, token, now, searched, None)
                    &&& PoolInner::queued(
                        searched,
                        token,
                        multiplex,
                        connector,
                        sender,
                        receiver,
                        after,
                        checkout,
                    )
                };
            law_pop_keeps_the_limit(before, token, now, searched, None);
            assert forall|other: Token| #[trigger]
                after.idle_at(other).len() <= after.config().max_idle_per_host by {
                assert(searched.idle_at(other).len() <= searched.config().max_idle_per_host);
            }
        },
    }
}

/// Taking a connection out of the pool makes no connection idle.
pub proof fn law_pop_adds_no_idle_connection<C: PoolableConnection, W: Waiter<Pooled<C>>>(
    before: PoolInner<C, W>,
    token: Token,
    now: Instant,
    after: PoolInner<C, W>,
    found: Option<C>,
)
    requires
        PoolInner::popped_at(before, token, now, after, found),
    ensures
        after.idle_at(token).len() <= before.idle_at(token).len(),
        found is Some ==> after.idle_at(token).len() < before.idle_at(token).len(),
{
    if before.idle().contains_key(token.index()) {
        let entries = before.idle_at(token);
        let expiry = idle::expiry(before.config().idle_timeout, now);
        let list = choose|list: Seq<Idle<C>>|
            {
                &&& #[trigger] idle::searched(entries, expiry, list, found)
                &&& PoolInner::idle_list_left(before, token, list, found, after)
            };
        let k = choose|k: int| #[trigger] idle::search_ended_at(entries, expiry, list, found, k);
        assert(idle::search_ended_at(entries, expiry, list, found, k));
    }
}

/// A connection that cannot be copied, registered by a checkout, and released by its
/// user while open, goes back to the pool, and the next checkout gets it, if nobody
/// waited for it, there was room for it, and it has not expired or closed.
pub proof fn law_single_use_connection_comes_back<C: PoolableConnection, W: Waiter<Pooled<C>>>(
    start: PoolInner<C, W>,
    token: Token,
    connection: C,
    at: Instant,
    registered: PoolInner<C, W>,
    pooled: Pooled<C>,
    returned: C,
    then: Instant,
    holding: PoolInner<C, W>,
    now: Instant,
    after: PoolInner<C, W>,
    found: Option<C>,
)
    requires
        forall|held: C, next: C, copy: Option<C>| #[trigger]
            C::reuses(held, next, copy) ==> copy is None,
        PoolInner::registered_at(start, token, connection, at, registered, pooled),
        registered.waiters(token).len() == 0,
        registered.idle_at(token).len() < registered.config().max_idle_per_host,
        pooled.connection == Some(returned),
        PoolInner::pushed_at(registered, token, returned, pooled.pool, then, holding),
        !returned.reports_open(false),
        !idle::expired(
            Idle { at: then, inner: returned },
            idle::expiry(holding.config().idle_timeout, now),
        ),
        PoolInner::popped_at(holding, token, now, after, found),
    ensures
        pooled.pool == PoolRef::Attached,
        !pooled.is_reused,
        registered == start,
        found == pooled.connection,
{
    law_returned_connection_is_used_next(
        registered,
        token,
        returned,
        pooled.pool,
        then,
        holding,
        now,
        after,
        found,
    );
}

/// A connection that can be copied leaves a copy in the pool when it is registered,
/// where there is room for one, and does not go back to it.
pub proof fn law_shared_connection_stays<C: PoolableConnection, W: Waiter<Pooled<C>>>(
    before: PoolInner<C, W>,
    token: Token,
    connection: C,
    now: Instant,
    after: PoolInner<C, W>,
    pooled: Pooled<C>,
)
    requires
        forall|held: C, next: C, copy: Option<C>| #[trigger]
            C::reuses(held, next, copy) ==> copy is Some,
        PoolInner::registered_at(before, token, connection, now, after, pooled),
    ensures
        pooled.is_reused,
        pooled.pool == PoolRef::Detached,
        after.waiters(token).len() == 0,
        before.idle_at(token).len() < before.config().max_idle_per_host ==> {
            &&& after.idle_at(token).len() == before.idle_at(token).len() + 1
            &&& after.idle_at(token).last().at == now
        },
        before.idle_at(token).len() >= before.config().max_idle_per_host ==> after.idle_at(token)
            == before.idle_at(token),
{
    let (held, copy) = choose|held: C, copy: Option<C>|
        {
            &&& #[trigger] C::reuses(connection, held, copy)
            &&& copy is Some
            &&& PoolInner::pushed_at(before, token, copy->0, PoolRef::Attached, now, after)
        };
    let (left, kept) = choose|left: Seq<W>, kept: Option<C>|
        {
            &&& #[trigger] pool::walked(
                before.waiters(token),
                token,
                PoolRef::Attached,
                copy->0,
                left,
                kept,
            )
            &&& after.waiting() == if before.waiting().contains_key(token.index()) {
                before.waiting().insert(token.index(), left)
            } else {
                before.waiting()
            }
            &&& after.idle() == PoolInner::idle_with(before, token, now, kept)
        };
    law_copies_reach_everyone(
        before.waiters(token),
        token,
        PoolRef::Attached,
        copy->0,
        left,
        kept,
        |any: C| true,
    );
}

/// An idle connection that is handed out was put into the pool no longer ago than the
/// configured timeout, where one is set that is not zero; it reported open, all that were
/// put there after it reported closed, and those that were put there before it stay.
pub proof fn law_handed_out_connection_is_fresh<C: PoolableConnection, W: Waiter<Pooled<C>>>(
    before: PoolInner<C, W>,
    token: Token,
    now: Instant,
    after: PoolInner<C, W>,
    connection: C,
)
    requires
        exists|pool: &mut PoolInner<C, W>|
            *pool == before && *final(pool) == after && #[trigger] call_ensures(
                PoolInner::<C, W>::pop_at,
                (pool, token, now),
                Some(connection),
            ),
    ensures
        connection.reports_open(true),
        exists|i: int|
            {
                &&& 0 <= i < before.idle_at(token).len()
                &&& (#[trigger] before.idle_at(token)[i]).inner == connection
                &&& before.config().idle_timeout matches Some(limit) ==> limit@ == 0
                    || before.idle_at(token)[i].at@ + limit@ >= now@
                &&& after.idle_at(token) == before.idle_at(token).take(i)
                &&& forall|j: int|
                    i < j < before.idle_at(token).len() ==> (#[trigger] before.idle_at(
                        token,
                    )[j]).inner.reports_open(false)
            },
{
    let entries = before.idle_at(token);
    let expiry = idle::expiry(before.config().idle_timeout, now);
    let list = choose|list: Seq<Idle<C>>|
        {
            &&& #[trigger] idle::searched(entries, expiry, list, Some(connection))
            &&& PoolInner::idle_list_left(before, token, list, Some(connection), after)
        };
    let k = choose|k: int| #[trigger]
        idle::search_ended_at(entries, expiry, list, Some(connection), k);
    assert(entries[k].inner == connection);
    assert(after.idle_at(token) =~= entries.take(k));
}

/// The connection that was put into the pool last is the one that is taken out, where it
/// has not been there for longer than the configured timeout and does not report closed;
/// a timeout of zero, or none, is no limit. A host without idle connections has none to
/// take out. Nothing but the idle connections to the host changes.
pub proof fn law_newest_connection_is_taken_first<C: PoolableConnection, W: Waiter<Pooled<C>>>(
    before: PoolInner<C, W>,
    token: Token,
    now: Instant,
    after: PoolInner<C, W>,
    found: Option<C>,
    other: Token,
)
    requires
        exists|pool: &mut PoolInner<C, W>|
            *pool == before && *final(pool) == after && #[trigger] call_ensures(
                PoolInner::<C, W>::pop_at,
                (pool, token, now),
                found,
            ),
    ensures
        before.idle_at(token).len() == 0 ==> found is None,
        before.idle_at(token).len() > 0 ==> {
            let last = before.idle_at(token).last();
            let lasts = match before.config().idle_timeout {
                Some(limit) => limit@ == 0 || last.at@ + limit@ >= now@,
                None => true,
            };
            &&& lasts && !last.inner.reports_open(false) ==> {
                &&& found == Some(last.inner)
                &&& after.idle_at(token) == before.idle_at(token).drop_last()
            }
            &&& !lasts ==> found is None
        },
        found is None ==> after.idle_at(token).len() == 0,
        after.waiting() == before.waiting(),
        after.connecting() == before.connecting(),
        after.config() == before.config(),
        other.index() != token.index() ==> after.idle_at(other) == before.idle_at(other),
{
    let entries = before.idle_at(token);
    if entries.len() > 0 {
        let expiry = idle::expiry(before.config().idle_timeout, now);
        let list = choose|list: Seq<Idle<C>>|
            {
                &&& #[trigger] idle::searched(entries, expiry, list, found)
                &&& PoolInner::idle_list_left(before, token, list, found, after)
            };
        let k = choose|k: int| #[trigger] idle::search_ended_at(entries, expiry, list, found, k);
        assert(idle::search_ended_at(entries, expiry, list, found, k));
        let last = entries.len() - 1;
        if k < last {
            assert(idle::passed_over(entries[last], expiry));
        } else {
            assert(entries.take(last) =~= entries.drop_last());
        }
    } else if before.idle().contains_key(token.index()) {
        let expiry = idle::expiry(before.config().idle_timeout, now);
        let list = choose|list: Seq<Idle<C>>|
            {
                &&& #[trigger] idle::searched(entries, expiry, list, found)
                &&& PoolInner::idle_list_left(before, token, list, found, after)
            };
        let k = choose|k: int| #[trigger] idle::search_ended_at(entries, expiry, list, found, k);
        assert(idle::search_ended_at(entries, expiry, list, found, k));
    }
}

/// A connection for which nobody waits becomes idle, with the time at which it was put
/// into the pool, where as many as the configuration allows are not idle already; where
/// they are, it is dropped, and those that are idle stay. Either way the host is no longer
/// being connected to.
pub proof fn law_unwanted_connection_becomes_idle<C: PoolableConnection, W: Waiter<Pooled<C>>>(
    before: PoolInner<C, W>,
    token: Token,
    connection: C,
    link: PoolRef,
    now: Instant,
    after: PoolInner<C, W>,
)
    requires
        exists|pool: &mut PoolInner<C, W>|
            *pool == before && *final(pool) == after && #[trigger] call_ensures(
                PoolInner::<C, W>::push_at,
                (pool, token, connection, link, now),
                (),
            ),
        before.waiters(token).len() == 0,
    ensures
        before.idle_at(token).len() < before.config().max_idle_per_host ==> after.idle_at(token)
            == before.idle_at(token).push(Idle { at: now, inner: connection }),
        before.idle_at(token).len() >= before.config().max_idle_per_host ==> after.idle_at(token)
            == before.idle_at(token),
        !after.connecting().contains(token.index()),
        after.waiters(token).len() == 0,
        after.config() == before.config(),
{
}

/// A connection that cannot be copied goes to the first who waits for it, and to nobody
/// else: it becomes that one's alone, and goes back to the pool after its use. The others
/// go on waiting, in their order, and nothing becomes idle.
pub proof fn law_first_in_line_gets_the_connection<C: PoolableConnection, W: Waiter<Pooled<C>>>(
    before: PoolInner<C, W>,
    token: Token,
    connection: C,
    link: PoolRef,
    now: Instant,
    after: PoolInner<C, W>,
)
    requires
        exists|pool: &mut PoolInner<C, W>|
            *pool == before && *final(pool) == after && #[trigger] call_ensures(
                PoolInner::<C, W>::push_at,
                (pool, token, connection, link, now),
                (),
            ),
        before.waiters(token).len() > 0,
        !before.waiters(token)[0].reports_closed(true),
        forall|item: Pooled<C>, answer: Result<(), Pooled<C>>| #[trigger]
            before.waiters(token)[0].answers(item, answer) ==> answer is Ok,
        forall|held: C, next: C, copy: Option<C>| #[trigger]
            C::reuses(held, next, copy) ==> copy is None,
    ensures
        after.waiters(token) == before.waiters(token).skip(1),
        after.idle_at(token) == before.idle_at(token),
        !after.connecting().contains(token.index()),
        exists|held: C, answer: Result<(), Pooled<C>>|
            {
                &&& C::reuses(connection, held, None)
                &&& #[trigger] before.waiters(token)[0].answers(
                    Pooled { connection: Some(held), is_reused: false, token, pool: link },
                    answer,
                )
            },
{
    let waiters = before.waiters(token);
    let waiter = waiters[0];
    let (left, kept) = choose|left: Seq<W>, kept: Option<C>|
        {
            &&& #[trigger] pool::walked(waiters, token, link, connection, left, kept)
            &&& after.waiting() == if before.waiting().contains_key(token.index()) {
                before.waiting().insert(token.index(), left)
            } else {
                before.waiting()
            }
            &&& after.idle() == PoolInner::idle_with(before, token, now, kept)
        };
    assert(pool::walked(waiters, token, link, connection, left, kept));
    assert(left == waiters.skip(1) && kept is None);
    let held = choose|held: C| #[trigger]
        pool::sent_whole(waiter, token, link, connection, held, true);
    let answer = choose|answer: Result<(), Pooled<C>>|
        {
            &&& C::reuses(connection, held, None)
            &&& #[trigger] waiter.answers(pool::owned(held, token, link), answer)
        };
    assert(pool::owned(held, token, link) == Pooled {
        connection: Some(held),
        is_reused: false,
        token,
        pool: link,
    });
    assert(waiter.answers(
        Pooled { connection: Some(held), is_reused: false, token, pool: link },
        answer,
    ));
}

/// A new connection of which no copy can be made is handed out whole: it goes back to the
/// pool after its use, and the pool does not change until then. One of which a copy was
/// made is handed out as a copy among others, which does not go back, and frees the host
/// for other attempts. Either way it is the connection to the host that it was registered
/// for.
pub proof fn law_new_connection_is_handed_out<C: PoolableConnection, W: Waiter<Pooled<C>>>(
    before: PoolInner<C, W>,
    token: Token,
    connection: C,
    now: Instant,
    after: PoolInner<C, W>,
    pooled: Pooled<C>,
)
    requires
        exists|pool: &mut PoolInner<C, W>|
            *pool == before && *final(pool) == after && #[trigger] call_ensures(
                PoolInner::<C, W>::register_connected_at,
                (pool, token, connection, now),
                pooled,
            ),
    ensures
        pooled.token == token,
        pooled.connection is Some,
        pooled.is_reused <==> pooled.pool == PoolRef::Detached,
        exists|copy: Option<C>|
            {
                &&& #[trigger] C::reuses(connection, pooled.connection->0, copy)
                &&& copy is Some <==> pooled.is_reused
            },
        !pooled.is_reused ==> after == before,
        pooled.is_reused ==> !after.connecting().contains(token.index()),
{
    let (held, copy) = choose|held: C, copy: Option<C>|
        {
            &&& #[trigger] C::reuses(connection, held, copy)
            &&& match copy {
                Some(copy) => {
                    &&& PoolInner::pushed_at(before, token, copy, PoolRef::Attached, now, after)
                    &&& pooled == pool::shared(held, token, PoolRef::Detached)
                },
                None => {
                    &&& after == before
                    &&& pooled == pool::owned(held, token, PoolRef::Attached)
                },
            }
        };
    assert(C::reuses(connection, pooled.connection->0, copy));
}

/// A checkout joins the end of the line of those who wait for the host, where it finds no
/// idle connection. It makes an attempt with what it was given to connect with, unless one
/// is under way that it can share; and its attempt can be shared by others if and only if
/// it said so. Where the host is connected to already, it only waits.
pub proof fn law_checkout_waits_in_line<C: PoolableConnection, W: Waiter<Pooled<C>>, N>(
    before: PoolInner<C, W>,
    token: Token,
    multiplex: bool,
    connector: N,
    sender: W,
    receiver: Receiver<Pooled<C>>,
    id: CheckoutId,
    now: Instant,
    after: PoolInner<C, W>,
    checkout: Checkout<C, N>,
    other: Token,
)
    requires
        exists|pool: &mut PoolInner<C, W>|
            *pool == before && *final(pool) == after && #[trigger] call_ensures(
                PoolInner::<C, W>::checkout_at::<N>,
                (pool, token, multiplex, connector, sender, receiver, id, now),
                checkout,
            ),
        before.idle_at(token).len() == 0,
    ensures
        checkout.token == token,
        checkout.id == id,
        checkout.pool == PoolRef::Attached,
        checkout.connection is None,
        after.waiters(token) == before.waiters(token).push(sender),
        before.connecting().contains(token.index()) ==> {
            &&& checkout.inner is Waiting
            &&& checkout.waiter == Waiting::Connecting(receiver)
        },
        !before.connecting().contains(token.index()) ==> {
            &&& checkout.waiter == Waiting::Idle(receiver)
            &&& before.config().continue_after_preemption ==> checkout.inner
                == InnerCheckoutConnecting::ConnectingWithDelayDrop(Some(connector))
            &&& !before.config().continue_after_preemption ==> checkout.inner
                == InnerCheckoutConnecting::Connecting(connector)
        },
        after.connecting().contains(token.index()) <==> before.connecting().contains(token.index())
            || multiplex,
        other.index() != token.index() ==> {
            &&& after.waiters(other) == before.waiters(other)
            &&& after.idle_at(other) == before.idle_at(other)
            &&& after.connecting().contains(other.index()) == before.connecting().contains(
                other.index(),
            )
        },
{
    if checkout.connection is Some {
        law_pop_adds_no_idle_connection(before, token, now, after, checkout.connection);
    } else {
        let searched = choose|searched: PoolInner<C, W>|
            {
                &&& #[trigger] PoolInner::popped_at(before, token, now, searched, None)
                &&& PoolInner::queued(
                    searched,
                    token,
                    multiplex,
                    connector,
                    sender,
                    receiver,
                    after,
                    checkout,
                )
            };
        assert(searched.waiters(token) == before.waiters(token));
        if other.index() != token.index() {
            law_pop_leaves_other_hosts_alone(before, token, now, searched, None, other);
        }
    }
}

/// A checkout gets the idle connection to the host that was put into the pool last, where
/// it lasts and does not report closed, and makes no attempt and joins no line.
pub proof fn law_checkout_reuses_the_idle_connection<C: PoolableConnection, W: Waiter<Pooled<C>>, N>(
    before: PoolInner<C, W>,
    token: Token,
    multiplex: bool,
    connector: N,
    sender: W,
    receiver: Receiver<Pooled<C>>,
    id: CheckoutId,
    now: Instant,
    after: PoolInner<C, W>,
    checkout: Checkout<C, N>,
)
    requires
        exists|pool: &mut PoolInner<C, W>|
            *pool == before && *final(pool) == after && #[trigger] call_ensures(
                PoolInner::<C, W>::checkout_at::<N>,
                (pool, token, multiplex, connector, sender, receiver, id, now),
                checkout,
            ),
        before.idle_at(token).len() > 0,
        !before.idle_at(token).last().inner.reports_open(false),
        before.config().idle_timeout matches Some(limit) ==> limit@ == 0 || before.idle_at(
            token,
        ).last().at@ + limit@ >= now@,
    ensures
        checkout.connection == Some(before.idle_at(token).last().inner),
        checkout.inner is Connected,
        checkout.token == token,
        after.idle_at(token) == before.idle_at(token).drop_last(),
        after.waiting() == before.waiting(),
        after.connecting() == before.connecting(),
{
    let entries = before.idle_at(token);
    let expiry = idle::expiry(before.config().idle_timeout, now);
    let end = if checkout.connection is Some {
        after
    } else {
        choose|searched: PoolInner<C, W>|
            {
                &&& #[trigger] PoolInner::popped_at(before, token, now, searched, None)
                &&& PoolInner::queued(
                    searched,
                    token,
                    multiplex,
                    connector,
                    sender,
                    receiver,
                    after,
                    checkout,
                )
            }
    };
    let found = checkout.connection;
    assert(PoolInner::popped_at(before, token, now, end, found));
    let list = choose|list: Seq<Idle<C>>|
        {
            &&& #[trigger] idle::searched(entries, expiry, list, found)
            &&& PoolInner::idle_list_left(before, token, list, found, end)
        };
    let k = choose|k: int| #[trigger] idle::search_ended_at(entries, expiry, list, found, k);
    assert(idle::search_ended_at(entries, expiry, list, found, k));
    let last = entries.len() - 1;
    if k < last {
        assert(idle::passed_over(entries[last], expiry));
    } else {
        assert(entries.take(last) =~= entries.drop_last());
    }
}

/// A host is being connected to, for others to wait for, from when the pool is told of it
/// until the attempt is given up; neither touches other hosts, nor who waits or what is
/// idle.
pub proof fn law_attempt_is_known_until_it_is_given_up<C, W>(
    before: PoolInner<C, W>,
    token: Token,
    told: PoolInner<C, W>,
    after: PoolInner<C, W>,
    other: Token,
)
    requires
        exists|pool: &mut PoolInner<C, W>|
            *pool == before && *final(pool) == told && #[trigger] call_ensures(
                PoolInner::<C, W>::connected_in_handshake,
                (pool, token),
                (),
            ),
        exists|pool: &mut PoolInner<C, W>|
            *pool == told && *final(pool) == after && #[trigger] call_ensures(
                PoolInner::<C, W>::cancel_connection,
                (pool, token),
                (),
            ),
    ensures
        told.connecting().contains(token.index()),
        !after.connecting().contains(token.index()),
        other.index() != token.index() ==> {
            &&& told.connecting().contains(other.index()) == before.connecting().contains(
                other.index(),
            )
            &&& after.connecting().contains(other.index()) == before.connecting().contains(
                other.index(),
            )
        },
        after.idle_at(other) == before.idle_at(other),
        after.waiters(other) == before.waiters(other),
        told.config() == before.config() && after.config() == before.config(),
        told.clock() == before.clock() && after.clock() == before.clock(),
{
}

/// A connection goes back to the pool after its use exactly where it came from one, no
/// copy of it stayed there, and it still reports open; and then it is that connection.
pub proof fn law_used_connection_goes_back<C: PoolableConnection>(
    pooled: Pooled<C>,
    connection: C,
    returned: Option<C>,
)
    requires
        pooled.connection == Some(connection),
        call_ensures(Pooled::<C>::release, (pooled,), returned),
    ensures
        returned is Some ==> returned == Some(connection) && connection.reports_open(true)
            && !pooled.is_reused && pooled.pool == PoolRef::Attached,
        !pooled.is_reused && pooled.pool == PoolRef::Attached && !connection.reports_open(false)
            ==> returned == Some(connection),
{
}

/// A connection that belongs to no pool is handed out whole, and goes back to none.
pub proof fn law_connection_without_a_pool_goes_nowhere<C: PoolableConnection>(
    token: Token,
    connection: C,
    pooled: Pooled<C>,
    returned: Option<C>,
)
    requires
        call_ensures(pool::unregistered::<C>, (token, connection), pooled),
        call_ensures(Pooled::<C>::release, (pooled,), returned),
    ensures
        pooled.connection == Some(connection),
        pooled.token == token,
        !pooled.is_reused,
        returned is None,
{
}

/// A checkout yields a connection that is delivered to it, whatever its own attempt is
/// doing. While nothing is delivered, one that makes an attempt drives it on, one that
/// found a connection at once registers that, and one that only waits goes on waiting; once
/// nothing can be delivered any more, the one that only waits fails.
pub proof fn law_delivered_connection_wins<C, N, T, P>(
    before: Checkout<C, N>,
    received: Poll<Result<Pooled<C>, RecvError>>,
    step: CheckoutStep<C, T, P>,
    after: Checkout<C, N>,
)
    requires
        before.live(),
        exists|checkout: &mut Checkout<C, N>|
            *checkout == before && *final(checkout) == after && #[trigger] call_ensures(
                Checkout::<C, N>::poll::<T, P>,
                (checkout, received),
                step,
            ),
    ensures
        before.waiter !is NoPool ==> (received matches Poll::Ready(Ok(pooled)) ==> step
            == CheckoutStep::<C, T, P>::Done(Ok(pooled))),
        before.waiter is Idle && !(received matches Poll::Ready(Ok(_))) || before.waiter is NoPool
            || before.waiter is Connecting && (received matches Poll::Ready(Err(_))) ==> {
            &&& before.inner is Waiting ==> step == CheckoutStep::<C, T, P>::Done(
                Err(Error::Unavailable),
            )
            &&& before.inner is Connected ==> step == CheckoutStep::<C, T, P>::Register(
                before.connection->0,
            ) && after.connection is None
            &&& before.inner !is Waiting && before.inner !is Connected ==> step is PollConnector
        },
        before.waiter is Connecting && received is Pending ==> step is Pending && after == before,
        after.token == before.token,
        after.inner == before.inner,
{
}

/// The connection of a checkout's own attempt is registered, and its failure ends the
/// checkout with the error that it reported; until then the checkout stays as it is.
pub proof fn law_attempt_ends_the_checkout<C, N, T, P>(
    before: Checkout<C, N>,
    outcome: Poll<Result<C, Error<T, P>>>,
    step: CheckoutStep<C, T, P>,
    after: Checkout<C, N>,
)
    requires
        before.inner.attempts(),
        exists|checkout: &mut Checkout<C, N>|
            *checkout == before && *final(checkout) == after && #[trigger] call_ensures(
                Checkout::<C, N>::poll_connector::<T, P>,
                (checkout, outcome),
                step,
            ),
    ensures
        outcome matches Poll::Ready(Ok(connection)) ==> step == CheckoutStep::<C, T, P>::Register(
            connection,
        ),
        outcome matches Poll::Ready(Err(error)) ==> step == CheckoutStep::<C, T, P>::Done(
            Err(error),
        ),
        outcome is Pending ==> step is Pending && after == before,
        outcome is Ready ==> after.inner is Connected && after.waiter is NoPool,
        after.token == before.token,
{
}

/// An attempt that is to go on when its checkout is dropped goes on by itself, for the same
/// host; any other is given up, which the pool is told, where there is one.
pub proof fn law_dropped_checkout_goes_on_or_is_given_up<C, N>(
    before: Checkout<C, N>,
    action: CheckoutDrop<C, N>,
    after: Checkout<C, N>,
)
    requires
        exists|checkout: &mut Checkout<C, N>|
            *checkout == before && *final(checkout) == after && #[trigger] call_ensures(
                Checkout::<C, N>::on_drop,
                (checkout,),
                action,
            ),
    ensures
        before.inner matches InnerCheckoutConnecting::ConnectingWithDelayDrop(Some(connector)) ==> {
            &&& action matches CheckoutDrop::Continue(rest)
            &&& rest.inner == InnerCheckoutConnecting::ConnectingDelayed(connector)
            &&& rest.token == before.token
            &&& rest.pool == before.pool
            &&& rest.waiter is NoPool
        },
        !(before.inner matches InnerCheckoutConnecting::ConnectingWithDelayDrop(Some(_))) ==> {
            &&& before.pool == PoolRef::Attached ==> action == CheckoutDrop::<C, N>::Cancel(
                before.token,
            )
            &&& before.pool == PoolRef::Detached ==> action is Nothing
        },
{
}

/// A new pool has nothing idle, nobody waiting and nothing under way, and the configuration
/// that it was made with; without one, connections are idle for a minute and a half, 32 to a
/// host, and attempts outlive their checkouts.
pub proof fn law_new_pool_is_empty<C, W, K>(
    config: pool::Config,
    made: PoolInner<C, W>,
    token: Token,
    idle: usize,
    waiting: usize,
    kept: pool::Config,
    whole: pool::Pool<C, K>,
    plain: pool::Pool<C, K>,
)
    requires
        call_ensures(PoolInner::<C, W>::new, (config,), made),
        call_ensures(PoolInner::<C, W>::count_idle, (&made, token), idle),
        call_ensures(PoolInner::<C, W>::count_waiting, (&made, token), waiting),
        call_ensures(PoolInner::<C, W>::configuration, (&made,), kept),
        call_ensures(pool::Pool::<C, K>::new, (config,), whole),
        call_ensures(pool::Pool::<C, K>::default, (), plain),
    ensures
        idle == 0,
        waiting == 0,
        !made.connecting().contains(token.index()),
        kept == config,
        whole.inner.config() == config,
        whole.inner.idle_at(token).len() == 0 && whole.inner.waiters(token).len() == 0,
        !whole.inner.connecting().contains(token.index()),
        whole.keys.entries().len() == 0 && whole.keys.upcoming() == 1 && whole.ids.upcoming() == 1,
        plain.inner.config().idle_timeout matches Some(limit) && limit.nanos == 90 * 1_000_000_000,
        plain.inner.config().max_idle_per_host == 32,
        plain.inner.config().continue_after_preemption,
        plain.inner.idle_at(token).len() == 0 && plain.inner.waiters(token).len() == 0,
        !plain.inner.connecting().contains(token.index()),
        plain.keys.entries().len() == 0 && plain.keys.upcoming() == 1 && plain.ids.upcoming() == 1,
        made.clock().started() && whole.inner.clock().started() && plain.inner.clock().started(),
{
}

/// A connection that is put into the pool by its clock is taken out by its clock: it is idle
/// from the moment that the clock showed, and what is taken out is open. Where nothing limits
/// how long connections are idle, and it does not report closed, it is the one that is taken
/// out.
pub proof fn law_clock_times_the_pool<C: PoolableConnection, W: Waiter<Pooled<C>>>(
    before: PoolInner<C, W>,
    token: Token,
    connection: C,
    link: PoolRef,
    between: PoolInner<C, W>,
    found: Option<C>,
    after: PoolInner<C, W>,
)
    requires
        exists|pool: &mut PoolInner<C, W>|
            *pool == before && *final(pool) == between && #[trigger] call_ensures(
                PoolInner::<C, W>::push,
                (pool, token, connection, link),
                (),
            ),
        before.waiters(token).len() == 0,
        before.idle_at(token).len() < before.config().max_idle_per_host,
        before.config().idle_timeout is None || before.config().idle_timeout->0.nanos == 0,
        exists|pool: &mut PoolInner<C, W>|
            *pool == between && *final(pool) == after && #[trigger] call_ensures(
                PoolInner::<C, W>::pop,
                (pool, token),
                found,
            ),
    ensures
        between.idle_at(token).len() == before.idle_at(token).len() + 1,
        between.idle_at(token).last().inner == connection,
        before.clock().shows(between.idle_at(token).last().at),
        found matches Some(found) ==> found.reports_open(true),
        !connection.reports_open(false) ==> found == Some(connection) && after.idle_at(token)
            == before.idle_at(token),
{
    let now = choose|now: Instant|
        between.clock().shows(now) && #[trigger] PoolInner::popped_at(
            between,
            token,
            now,
            after,
            found,
        );
    let entries = between.idle_at(token);
    let expiry = idle::expiry(between.config().idle_timeout, now);
    let list = choose|list: Seq<Idle<C>>|
        {
            &&& #[trigger] idle::searched(entries, expiry, list, found)
            &&& PoolInner::idle_list_left(between, token, list, found, after)
        };
    let k = choose|k: int| #[trigger] idle::search_ended_at(entries, expiry, list, found, k);
    assert(idle::search_ended_at(entries, expiry, list, found, k));
    let last = entries.len() - 1;
    if k < last {
        assert(idle::passed_over(entries[last], expiry));
    } else {
        assert(entries.take(last) =~= before.idle_at(token));
    }
}

/// A new connection that is registered by the clock of the pool is handed out for the host
/// that it was registered for, whole where no copy can be made of it, and as a copy among
/// others where one was.
pub proof fn law_registered_connection_is_handed_out<C: PoolableConnection, W: Waiter<Pooled<C>>>(
    before: PoolInner<C, W>,
    token: Token,
    connection: C,
    after: PoolInner<C, W>,
    pooled: Pooled<C>,
)
    requires
        exists|pool: &mut PoolInner<C, W>|
            *pool == before && *final(pool) == after && #[trigger] call_ensures(
                PoolInner::<C, W>::register_connected,
                (pool, token, connection),
                pooled,
            ),
    ensures
        pooled.token == token,
        pooled.connection is Some,
        pooled.is_reused <==> pooled.pool == PoolRef::Detached,
        exists|copy: Option<C>|
            {
                &&& #[trigger] C::reuses(connection, pooled.connection->0, copy)
                &&& copy is Some <==> pooled.is_reused
            },
        !pooled.is_reused ==> after == before,
        pooled.is_reused ==> !after.connecting().contains(token.index()),
{
    let now = choose|now: Instant|
        before.clock().shows(now) && #[trigger] PoolInner::registered_at(
            before,
            token,
            connection,
            now,
            after,
            pooled,
        );
    let (held, copy) = choose|held: C, copy: Option<C>|
        {
            &&& #[trigger] C::reuses(connection, held, copy)
            &&& match copy {
                Some(copy) => {
                    &&& PoolInner::pushed_at(before, token, copy, PoolRef::Attached, now, after)
                    &&& pooled == pool::shared(held, token, PoolRef::Detached)
                },
                None => {
                    &&& after == before
                    &&& pooled == pool::owned(held, token, PoolRef::Attached)
                },
            }
        };
    assert(C::reuses(connection, pooled.connection->0, copy));
}

/// Those who do not listen any more are passed over: a connection that cannot be copied goes
/// to the second who waits where the first has left, and the two leave the line. Where all
/// have left, nobody remains in the line, and the connection becomes idle.
pub proof fn law_absent_waiter_is_passed_over<C: PoolableConnection, W: Waiter<Pooled<C>>>(
    before: PoolInner<C, W>,
    token: Token,
    connection: C,
    link: PoolRef,
    now: Instant,
    after: PoolInner<C, W>,
)
    requires
        exists|pool: &mut PoolInner<C, W>|
            *pool == before && *final(pool) == after && #[trigger] call_ensures(
                PoolInner::<C, W>::push_at,
                (pool, token, connection, link, now),
                (),
            ),
        before.waiters(token).len() > 0,
        !before.waiters(token)[0].reports_closed(false),
        forall|held: C, next: C, copy: Option<C>| #[trigger]
            C::reuses(held, next, copy) ==> copy is None,
    ensures
        before.waiters(token).len() == 1 ==> {
            &&& after.waiters(token).len() == 0
            &&& before.idle_at(token).len() < before.config().max_idle_per_host ==> after.idle_at(
                token,
            ) == before.idle_at(token).push(Idle { at: now, inner: connection })
        },
        before.waiters(token).len() > 1 && !before.waiters(token)[1].reports_closed(true) && (
        forall|item: Pooled<C>, answer: Result<(), Pooled<C>>| #[trigger]
            before.waiters(token)[1].answers(item, answer) ==> answer is Ok) ==> {
            &&& after.waiters(token) == before.waiters(token).skip(2)
            &&& after.idle_at(token) == before.idle_at(token)
            &&& exists|held: C, answer: Result<(), Pooled<C>>|
                {
                    &&& C::reuses(connection, held, None)
                    &&& #[trigger] before.waiters(token)[1].answers(
                        Pooled { connection: Some(held), is_reused: false, token, pool: link },
                        answer,
                    )
                }
        },
{
    let waiters = before.waiters(token);
    let rest = waiters.skip(1);
    let (left, kept) = choose|left: Seq<W>, kept: Option<C>|
        {
            &&& #[trigger] pool::walked(waiters, token, link, connection, left, kept)
            &&& after.waiting() == if before.waiting().contains_key(token.index()) {
                before.waiting().insert(token.index(), left)
            } else {
                before.waiting()
            }
            &&& after.idle() == PoolInner::idle_with(before, token, now, kept)
        };
    assert(pool::walked(waiters, token, link, connection, left, kept));
    assert(pool::walked(rest, token, link, connection, left, kept));
    if waiters.len() > 1 && !waiters[1].reports_closed(true) && (forall|
        item: Pooled<C>,
        answer: Result<(), Pooled<C>>,
    | #[trigger]
        waiters[1].answers(item, answer) ==> answer is Ok) {
        let waiter = rest[0];
        assert(waiter == waiters[1]);
        assert(rest.skip(1) =~= waiters.skip(2));
        assert(left == waiters.skip(2) && kept is None);
        let held = choose|held: C| #[trigger]
            pool::sent_whole(waiter, token, link, connection, held, true);
        let answer = choose|answer: Result<(), Pooled<C>>|
            {
                &&& C::reuses(connection, held, None)
                &&& #[trigger] waiter.answers(pool::owned(held, token, link), answer)
            };
        assert(pool::owned(held, token, link) == Pooled {
            connection: Some(held),
            is_reused: false,
            token,
            pool: link,
        });
        assert(waiters[1].answers(
            Pooled { connection: Some(held), is_reused: false, token, pool: link },
            answer,
        ));
    }
}

/// A connection that is taken out of its wrapping is the one that was put there, and a link
/// that leads nowhere says so.
pub proof fn law_wrapped_connection_is_taken_out<C>(
    token: Token,
    connection: C,
    pooled: Pooled<C>,
    taken: Option<C>,
    none: PoolRef,
    nowhere: bool,
    link: PoolRef,
    detached: bool,
)
    requires
        call_ensures(pool::unregistered::<C>, (token, connection), pooled),
        call_ensures(Pooled::<C>::take, (pooled,), taken),
        call_ensures(PoolRef::none, (), none),
        call_ensures(PoolRef::is_none, (&none,), nowhere),
        call_ensures(PoolRef::is_none, (&link,), detached),
    ensures
        taken == Some(connection),
        nowhere,
        detached <==> link == PoolRef::Detached,
        none == PoolRef::Detached,
{
}

/// The first checkout of a pool makes an attempt with what it was given to connect with. The
/// second goes by the same token exactly where its key is the same, and then waits for the
/// attempt of the first if that said that it can be shared; otherwise it makes one of its
/// own. The two have numbers of their own.
pub proof fn law_pool_checks_out_by_key<C: PoolableConnection, K: PartialEq, N>(
    config: pool::Config,
    made: pool::Pool<C, K>,
    first_key: K,
    second_key: K,
    equal: bool,
    multiplex: bool,
    first_connector: N,
    second_connector: N,
    first: Checkout<C, N>,
    between: pool::Pool<C, K>,
    second: Checkout<C, N>,
    after: pool::Pool<C, K>,
)
    requires
        K::obeys_eq_spec(),
        !config.continue_after_preemption,
        call_ensures(pool::Pool::<C, K>::new, (config,), made),
        call_ensures(K::eq, (&first_key, &second_key), equal),
        exists|m: &mut pool::Pool<C, K>|
            *m == made && *final(m) == between && #[trigger] call_ensures(
                pool::Pool::<C, K>::checkout::<N>,
                (m, first_key, multiplex, first_connector),
                first,
            ),
        exists|m: &mut pool::Pool<C, K>|
            *m == between && *final(m) == after && #[trigger] call_ensures(
                pool::Pool::<C, K>::checkout::<N>,
                (m, second_key, multiplex, second_connector),
                second,
            ),
    ensures
        first.inner == InnerCheckoutConnecting::Connecting(first_connector),
        first.connection is None,
        equal <==> second.token == first.token,
        equal && multiplex ==> second.inner is Waiting,
        !(equal && multiplex) ==> second.inner == InnerCheckoutConnecting::Connecting(
            second_connector,
        ),
        second.connection is None,
        second.id != first.id,
        between.inner.waiters(first.token).len() == 1,
        equal ==> after.inner.waiters(first.token).len() == 2,
{
    reveal_with_fuel(key::lookup, 3);
    lemma_checked_out_without_idle(
        made.inner,
        first.token,
        multiplex,
        first_connector,
        between.inner,
        first,
    );
    if !equal {
        key::law_number_makes_the_token(first.token, second.token);
    }
    lemma_checked_out_without_idle(
        between.inner,
        second.token,
        multiplex,
        second_connector,
        after.inner,
        second,
    );
}

proof fn lemma_checked_out_without_idle<C: PoolableConnection, N>(
    before: PoolInner<C, Sender<Pooled<C>>>,
    token: Token,
    multiplex: bool,
    connector: N,
    after: PoolInner<C, Sender<Pooled<C>>>,
    checkout: Checkout<C, N>,
)
    requires
        pool::checked_out(before, token, multiplex, connector, after, checkout),
        forall|host: Token| #[trigger] before.idle_at(host).len() == 0,
        !before.config().continue_after_preemption,
    ensures
        checkout.connection is None,
        before.connecting().contains(token.index()) ==> checkout.inner is Waiting,
        !before.connecting().contains(token.index()) ==> checkout.inner
            == InnerCheckoutConnecting::Connecting(connector),
        forall|host: Token| #[trigger] after.idle_at(host).len() == 0,
        after.config() == before.config(),
        after.waiters(token).len() == before.waiters(token).len() + 1,
        forall|index: usize| #[trigger]
            after.connecting().contains(index) <==> before.connecting().contains(index) || (
            multiplex && index == token.index()),
{
    let (sender, receiver, now) = choose|
        sender: Sender<Pooled<C>>,
        receiver: Receiver<Pooled<C>>,
        now: Instant,
    |
        #[trigger] PoolInner::checked_out_at(
            before,
            token,
            multiplex,
            connector,
            sender,
            receiver,
            now,
            after,
            checkout,
        );
    if checkout.connection is Some {
        law_pop_adds_no_idle_connection(before, token, now, after, checkout.connection);
        assert(before.idle_at(token).len() == 0);
    } else {
        let searched = choose|searched: PoolInner<C, Sender<Pooled<C>>>|
            {
                &&& #[trigger] PoolInner::popped_at(before, token, now, searched, None)
                &&& PoolInner::queued(
                    searched,
                    token,
                    multiplex,
                    connector,
                    sender,
                    receiver,
                    after,
                    checkout,
                )
            };
        assert(searched.waiters(token) == before.waiters(token));
        assert forall|host: Token| #[trigger] after.idle_at(host).len() == 0 by {
            assert(before.idle_at(host).len() == 0);
            if host.index() != token.index() {
                law_pop_leaves_other_hosts_alone(before, token, now, searched, None, host);
            } else {
                law_pop_adds_no_idle_connection(before, token, now, searched, None);
                assert(after.idle_at(host) == searched.idle_at(token));
                assert(before.idle_at(token).len() == 0);
            }
        }
    }
}

} // verus!
