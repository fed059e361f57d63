//! A pool of connections.
//!
//! The pool keeps connections that are not in use, so that the next request to the
//! same host can have one of them, and it lets several checkouts share the work of
//! one connection attempt. It is written for HTTP: it keeps the protocol that is
//! spoken apart from the transport underneath, and it knows that some connections
//! can be shared and others cannot.

use std::collections::{HashMap, HashSet, VecDeque};

use tokio::sync::oneshot::{Receiver, Sender};
use vstd::prelude::*;
use vstd::std_specs::cmp::*;

use crate::counter::{self, Counter};
use crate::time::{Clock, Duration, Instant};

pub mod checkout;
pub mod idle;
pub mod key;
pub mod laws;
pub mod mock;
pub mod service;
pub mod waiter;
pub mod weakopt;

use self::checkout::{Checkout, CheckoutId, InnerCheckoutConnecting, Waiting};
use self::idle::{Idle, IdleConnections};
use self::key::{Token, TokenMap};
use self::waiter::Waiter;

verus! {

broadcast use vstd::std_specs::hash::group_hash_axioms;

/// A connection that can be pooled.
///
/// A connection reports whether it is open and whether it can be shared. Both
/// answers may change from one call to the next, because the other side may close
/// it at any time; the relations below say which answers a call may give.
pub trait PoolableConnection: Sized {
    /// Whether a call of [`is_open`](Self::is_open) may answer `open`.
    spec fn reports_open(&self, open: bool) -> bool;

    /// Whether a call of [`can_share`](Self::can_share) may answer `share`.
    spec fn reports_share(&self, share: bool) -> bool;

    /// Whether a call of [`reuse`](Self::reuse) on `before` may leave `after` and
    /// return `copy`.
    spec fn reuses(before: Self, after: Self, copy: Option<Self>) -> bool;

    /// Returns `true` if the connection is open.
    fn is_open(&self) -> (open: bool)
        ensures
            self.reports_open(open),
    ;

    /// Returns `true` if the connection can be shared / multiplexed.
    ///
    /// If this returns `true`, then [`reuse`](Self::reuse) will be called to get a
    /// new connection to return to the pool.
    fn can_share(&self) -> (share: bool)
        ensures
            self.reports_share(share),
    ;

    /// Returns a new connection to return to the pool, which will multiplex
    /// against this one if possible.
    fn reuse(&mut self) -> (copy: Option<Self>)
        ensures
            Self::reuses(*old(self), *final(self), copy),
    ;
}

/// A stream that can produce connections which might be poolable.
///
/// The pool asks before the handshake whether the stream has negotiated a protocol
/// that can be multiplexed. The check is optimistic, and is made again on the
/// connection once the handshake is complete.
pub trait PoolableStream: Sized {
    /// Whether a call of [`can_share`](Self::can_share) may answer `share`.
    spec fn stream_reports_share(&self, share: bool) -> bool;

    /// Returns `true` if the transport can be re-used, usually because it has used
    /// ALPN to negotiate a protocol that can be multiplexed.
    fn can_share(&self) -> (share: bool)
        ensures
            self.stream_reports_share(share),
    ;
}

/// Configuration for a connection pool.
#[derive(Debug, Clone, Copy, PartialEq, Eq, Structural)]
pub struct Config {
    /// The maximum idle duration of a connection.
    pub idle_timeout: Option<Duration>,
    /// The maximum number of idle connections per host.
    pub max_idle_per_host: usize,
    /// Should in-progress connections continue after they get pre-empted by a new
    /// connection?
    pub continue_after_preemption: bool,
}

impl Default for Config {
    fn default() -> (config: Self)
        ensures
            config.idle_timeout matches Some(span) && span@ == 90 * 1_000_000_000,
            config.max_idle_per_host == 32,
            config.continue_after_preemption,
    {
        Config {
            idle_timeout: Some(Duration::from_secs(90)),
            max_idle_per_host: 32,
            continue_after_preemption: true,
        }
    }
}

/// The link from a connection or a checkout back to the pool it came from.
#[derive(Debug, Clone, Copy, PartialEq, Eq, Structural)]
pub enum PoolRef {
    /// There is no pool.
    Detached,
    /// There is a pool, which may have been dropped since.
    Attached,
}

impl PoolRef {
    /// The link that leads nowhere.
    pub fn none() -> (link: Self)
        ensures
            link == PoolRef::Detached,
    {
        PoolRef::Detached
    }

    /// Whether the link leads nowhere.
    pub fn is_none(&self) -> (none: bool)
        ensures
            none == (self == PoolRef::Detached),
    {
        matches!(self, PoolRef::Detached)
    }
}

/// A connection which is managed by a pool.
#[derive(Debug)]
pub struct Pooled<C> {
    /// The connection, until it is taken out.
    pub connection: Option<C>,
    /// Whether another copy of this connection stays in the pool.
    pub is_reused: bool,
    /// The host that the connection leads to.
    pub token: Token,
    /// The pool that the connection goes back to.
    pub pool: PoolRef,
}

impl<C> Pooled<C> {
    /// Takes the connection out.
    pub fn take(self) -> (connection: Option<C>)
        ensures
            connection == self.connection,
    {
        self.connection
    }
}

/// The item that a waiter gets where a copy of the connection stays in the pool.
pub open spec fn shared<C>(copy: C, token: Token, pool: PoolRef) -> Pooled<C> {
    Pooled { connection: Some(copy), is_reused: true, token, pool }
}

/// The item that a waiter gets where it becomes the only user of the connection.
pub open spec fn owned<C>(connection: C, token: Token, pool: PoolRef) -> Pooled<C> {
    Pooled { connection: Some(connection), is_reused: false, token, pool }
}

/// The waiter was sent a copy of the connection, and listened or did not.
pub open spec fn sent_copy<C: PoolableConnection, W: Waiter<Pooled<C>>>(
    waiter: W,
    token: Token,
    pool: PoolRef,
    before: C,
    after: C,
) -> bool {
    exists|copy: C, answer: Result<(), Pooled<C>>|
        #![trigger C::reuses(before, after, Some(copy)), waiter.answers(shared(copy, token, pool), answer)]
        C::reuses(before, after, Some(copy)) && waiter.answers(shared(copy, token, pool), answer)
}

/// The waiter was sent the connection itself, which cannot be copied; `taken` says
/// whether it listened.
pub open spec fn sent_whole<C: PoolableConnection, W: Waiter<Pooled<C>>>(
    waiter: W,
    token: Token,
    pool: PoolRef,
    before: C,
    after: C,
    taken: bool,
) -> bool {
    exists|answer: Result<(), Pooled<C>>|
        {
            &&& C::reuses(before, after, None)
            &&& #[trigger] waiter.answers(owned(after, token, pool), answer)
            &&& taken == (answer is Ok)
        }
}

/// How a walk along the waiters, in the order in which they came, may end.
///
/// Waiters that nobody listens at are dropped. A connection that can be copied is
/// sent to each of the others, one copy each. One that cannot be copied goes to the
/// first that takes it. `left` are the waiters that were not reached, `kept` is the
/// connection where nobody took it whole.
pub open spec fn walked<C: PoolableConnection, W: Waiter<Pooled<C>>>(
    waiters: Seq<W>,
    token: Token,
    pool: PoolRef,
    connection: C,
    left: Seq<W>,
    kept: Option<C>,
) -> bool
    decreases waiters.len(),
{
    if waiters.len() == 0 {
        left == waiters && kept == Some(connection)
    } else {
        let waiter = waiters[0];
        let rest = waiters.skip(1);
        ||| waiter.reports_closed(true) && walked(rest, token, pool, connection, left, kept)
        ||| waiter.reports_closed(false) && exists|after: C|
            #[trigger] sent_copy(waiter, token, pool, connection, after) && walked(
                rest,
                token,
                pool,
                after,
                left,
                kept,
            )
        ||| waiter.reports_closed(false) && left == rest && kept is None && exists|after: C|
            #[trigger] sent_whole(waiter, token, pool, connection, after, true)
        ||| waiter.reports_closed(false) && exists|after: C|
            #[trigger] sent_whole(waiter, token, pool, connection, after, false) && walked(
                rest,
                token,
                pool,
                after,
                left,
                kept,
            )
    }
}

/// The state of a pool.
#[derive(Debug)]
pub struct PoolInner<C, W> {
    config: Config,
    clock: Clock,
    connecting: HashSet<usize>,
    waiting: HashMap<usize, VecDeque<W>>,
    idle: HashMap<usize, IdleConnections<C>>,
}

impl<C, W> PoolInner<C, W> {
    /// The configuration.
    pub closed spec fn config(self) -> Config {
        self.config
    }

    /// The clock by which connections expire.
    pub closed spec fn clock(self) -> Clock {
        self.clock
    }

    /// The hosts to which a connection is being made that others wait for.
    pub closed spec fn connecting(self) -> Set<usize> {
        self.connecting@
    }

    /// For each host, who waits for a connection, first come first.
    pub closed spec fn waiting(self) -> Map<usize, Seq<W>> {
        self.waiting@.map_values(|queue: VecDeque<W>| queue@)
    }

    /// For each host, the idle connections, oldest first.
    pub closed spec fn idle(self) -> Map<usize, Seq<Idle<C>>> {
        self.idle@.map_values(|list: IdleConnections<C>| list@)
    }

    /// Who waits for a connection to this host.
    pub open spec fn waiters(self, token: Token) -> Seq<W> {
        if self.waiting().contains_key(token.index()) {
            self.waiting()[token.index()]
        } else {
            Seq::empty()
        }
    }

    /// The idle connections to this host.
    pub open spec fn idle_at(self, token: Token) -> Seq<Idle<C>> {
        if self.idle().contains_key(token.index()) {
            self.idle()[token.index()]
        } else {
            Seq::empty()
        }
    }

    /// Whether no host has more idle connections than the configuration allows.
    pub open spec fn within_limit(self) -> bool {
        forall|token: Token| #[trigger]
            self.idle_at(token).len() <= self.config().max_idle_per_host
    }

    /// A pool without connections, whose clock starts.
    pub fn new(config: Config) -> (pool: Self)
        ensures
            pool.config() == config,
            pool.clock().started(),
            pool.connecting() == Set::<usize>::empty(),
            pool.waiting() == Map::<usize, Seq<W>>::empty(),
            pool.idle() == Map::<usize, Seq<Idle<C>>>::empty(),
            pool.within_limit(),
    {
        let pool = PoolInner {
            config,
            clock: Clock::new(),
            connecting: HashSet::new(),
            waiting: HashMap::new(),
            idle: HashMap::new(),
        };
        assert(pool.waiting() =~= Map::empty());
        assert(pool.idle() =~= Map::empty());
        pool
    }

    /// The configuration.
    pub fn configuration(&self) -> (config: Config)
        ensures
            config == self.config(),
    {
        self.config
    }

    /// How many wait for a connection to this host.
    pub fn count_waiting(&self, token: Token) -> (count: usize)
        ensures
            count == self.waiters(token).len(),
    {
        match self.waiting.get(&token.number()) {
            Some(waiters) => waiters.len(),
            None => 0,
        }
    }

    /// How many connections to this host are idle.
    pub fn count_idle(&self, token: Token) -> (count: usize)
        ensures
            count == self.idle_at(token).len(),
    {
        match self.idle.get(&token.number()) {
            Some(list) => list.len(),
            None => 0,
        }
    }

    /// Gives up the connection attempt that other checkouts may be waiting for.
    pub fn cancel_connection(&mut self, token: Token)
        ensures
            final(self).connecting() == old(self).connecting().remove(token.index()),
            final(self).config() == old(self).config(),
            final(self).clock() == old(self).clock(),
            final(self).waiting() == old(self).waiting(),
            final(self).idle() == old(self).idle(),
    {
        self.connecting.remove(&token.number());
        assert(self.connecting() =~= old(self).connecting().remove(token.index()));
    }

    /// Marks a connection as connected, but not done with the handshake.
    ///
    /// New connection attempts will wait for this connection to complete the
    /// handshake and re-use it if possible.
    pub fn connected_in_handshake(&mut self, token: Token)
        ensures
            final(self).connecting() == old(self).connecting().insert(token.index()),
            final(self).config() == old(self).config(),
            final(self).clock() == old(self).clock(),
            final(self).waiting() == old(self).waiting(),
            final(self).idle() == old(self).idle(),
    {
        self.connecting.insert(token.number());
    }
}

impl<C: PoolableConnection, W: Waiter<Pooled<C>>> PoolInner<C, W> {
    /// What putting `connection` into the pool at `now` makes of the state
    /// `before`: the host is no longer being connected to, the waiters are walked,
    /// and what nobody took becomes idle, unless as many connections to the host as
    /// the configuration allows are idle already: it is then dropped.
    pub open spec fn pushed_at(
        before: Self,
        token: Token,
        connection: C,
        pool: PoolRef,
        now: Instant,
        after: Self,
    ) -> bool {
        &&& after.config() == before.config()
        &&& after.clock() == before.clock()
        &&& after.connecting() == before.connecting().remove(token.index())
        &&& exists|left: Seq<W>, kept: Option<C>|
            {
                &&& #[trigger] walked(before.waiters(token), token, pool, connection, left, kept)
                &&& after.waiting() == if before.waiting().contains_key(token.index()) {
                    before.waiting().insert(token.index(), left)
                } else {
                    before.waiting()
                }
                &&& after.idle() == Self::idle_with(before, token, now, kept)
            }
    }

    /// What the pool holds idle once `kept`, which nobody took, has been put there at
    /// `now`, where there is room for it.
    pub open spec fn idle_with(before: Self, token: Token, now: Instant, kept: Option<C>) -> Map<
        usize,
        Seq<Idle<C>>,
    > {
        match kept {
            Some(rest) if before.idle_at(token).len() < before.config().max_idle_per_host => {
                before.idle().insert(
                    token.index(),
                    before.idle_at(token).push(Idle { at: now, inner: rest }),
                )
            },
            _ => before.idle(),
        }
    }

    /// What taking a connection out at `now` makes of the state `before`: the idle
    /// connections to the host are searched, and the list is dropped once it is
    /// empty, unless the connection found can be shared.
    pub open spec fn popped_at(
        before: Self,
        token: Token,
        now: Instant,
        after: Self,
        found: Option<C>,
    ) -> bool {
        &&& after.config() == before.config()
        &&& after.clock() == before.clock()
        &&& after.connecting() == before.connecting()
        &&& after.waiting() == before.waiting()
        &&& if before.idle().contains_key(token.index()) {
            exists|list: Seq<Idle<C>>|
                {
                    &&& #[trigger] idle::searched(
                        before.idle_at(token),
                        idle::expiry(before.config().idle_timeout, now),
                        list,
                        found,
                    )
                    &&& Self::idle_list_left(before, token, list, found, after)
                }
        } else {
            found is None && after.idle() == before.idle()
        }
    }

    /// What becomes of the list of idle connections after a search.
    pub open spec fn idle_list_left(
        before: Self,
        token: Token,
        list: Seq<Idle<C>>,
        found: Option<C>,
        after: Self,
    ) -> bool {
        let kept = after.idle() == before.idle().insert(token.index(), list);
        let dropped = after.idle() == before.idle().remove(token.index());
        if list.len() > 0 {
            kept
        } else {
            match found {
                Some(connection) => {
                    ||| connection.reports_share(true) && kept
                    ||| connection.reports_share(false) && dropped
                },
                None => dropped,
            }
        }
    }

    /// Puts a connection into the pool at `now`.
    ///
    /// Those who wait for a connection to this host come first. Without a waiter
    /// that takes it, or where copies of it can be made, it becomes idle, where the
    /// configuration leaves room for it.
    pub fn push_at(&mut self, token: Token, connection: C, pool: PoolRef, now: Instant)
        ensures
            Self::pushed_at(*old(self), token, connection, pool, now, *final(self)),
    {
        let ghost before = *self;
        let mut current = connection;
        let number: usize = token.number();
        self.connecting.remove(&number);
        assert(self.connecting() =~= before.connecting().remove(token.index()));

        if let Some(mut waiters) = self.waiting.remove(&number) {
            let ghost queue = waiters@;
            assert(before.waiters(token) == queue);
            loop
                invariant
                    forall|left: Seq<W>, kept: Option<C>| #[trigger]
                        walked(waiters@, token, pool, current, left, kept) ==> walked(
                            queue,
                            token,
                            pool,
                            connection,
                            left,
                            kept,
                        ),
                    number == token.index(),
                    before.waiting@.contains_key(number),
                    before.waiters(token) == queue,
                    before.waiting@.remove(number) == self.waiting@,
                    before.idle() == self.idle(),
                    before.config() == self.config(),
                    before.clock() == self.clock(),
                    before.connecting().remove(token.index()) == self.connecting(),
                    before == *old(self),
                ensures
                    waiters@.len() == 0,
                decreases waiters@.len(),
            {
                let ghost ahead = waiters@;
                let ghost held = current;
                let waiter = match waiters.pop_front() {
                    Some(waiter) => waiter,
                    None => break,
                };
                assert(waiters@ =~= ahead.skip(1));

                if waiter.is_closed() {
                    assert forall|left: Seq<W>, kept: Option<C>| #[trigger]
                        walked(waiters@, token, pool, current, left, kept) implies walked(
                        queue,
                        token,
                        pool,
                        connection,
                        left,
                        kept,
                    ) by {
                        assert(walked(ahead, token, pool, held, left, kept));
                    }
                    continue;
                }

                if let Some(copy) = current.reuse() {
                    let pooled = Pooled { connection: Some(copy), is_reused: true, token, pool };
                    assert(pooled == shared(copy, token, pool));
                    let answer = waiter.send(pooled);
                    assert(sent_copy(waiter, token, pool, held, current));
                    assert forall|left: Seq<W>, kept: Option<C>| #[trigger]
                        walked(waiters@, token, pool, current, left, kept) implies walked(
                        queue,
                        token,
                        pool,
                        connection,
                        left,
                        kept,
                    ) by {
                        assert(walked(ahead, token, pool, held, left, kept));
                    }
                    if answer.is_err() {
                        continue;
                    }
                } else {
                    let ghost whole = current;
                    let pooled = Pooled { connection: Some(current), is_reused: false, token, pool };
                    match waiter.send(pooled) {
                        Ok(_) => {
                            let ghost left = waiters@;
                            self.waiting.insert(number, waiters);
                            proof {
                                assert(sent_whole(waiter, token, pool, held, whole, true));
                                assert(walked(ahead, token, pool, held, left, None));
                                assert(self.waiting() =~= before.waiting().insert(number, left));
                            }
                            return;
                        },
                        Err(back) => {
                            current = back.take().unwrap();
                            assert(sent_whole(waiter, token, pool, held, whole, false));
                            assert forall|left: Seq<W>, kept: Option<C>| #[trigger]
                                walked(waiters@, token, pool, current, left, kept) implies walked(
                                queue,
                                token,
                                pool,
                                connection,
                                left,
                                kept,
                            ) by {
                                assert(walked(ahead, token, pool, held, left, kept));
                            }
                        },
                    }
                }
            }
            let ghost left = waiters@;
            self.waiting.insert(number, waiters);
            proof {
                assert(walked(left, token, pool, current, left, Some(current)));
                assert(self.waiting() =~= before.waiting().insert(number, left));
            }
        } else {
            proof {
                assert(self.waiting@ =~= before.waiting@);
                let none = before.waiters(token);
                assert(walked(none, token, pool, connection, none, Some(connection)));
            }
        }

        if self.count_idle(token) >= self.config.max_idle_per_host {
            return;
        }
        let mut list = match self.idle.remove(&number) {
            Some(list) => list,
            None => IdleConnections::default(),
        };
        list.push(current, now);
        let ghost entries = list@;
        self.idle.insert(number, list);
        assert(self.idle() =~= before.idle().insert(number, entries));
    }

    /// Puts a connection into the pool now, by the pool's clock.
    pub fn push(&mut self, token: Token, connection: C, pool: PoolRef)
        ensures
            exists|now: Instant|
                old(self).clock().shows(now) && #[trigger] Self::pushed_at(
                    *old(self),
                    token,
                    connection,
                    pool,
                    now,
                    *final(self),
                ),
    {
        let now = self.clock.now();
        self.push_at(token, connection, pool, now);
    }

    /// Takes a connection to this host out of the pool at `now`.
    pub fn pop_at(&mut self, token: Token, now: Instant) -> (found: Option<C>)
        ensures
            Self::popped_at(*old(self), token, now, *final(self), found),
    {
        let ghost before = *self;
        let number: usize = token.number();
        match self.idle.remove(&number) {
            Some(mut list) => {
                assert(list@ == before.idle_at(token));
                let found = list.pop(self.config.idle_timeout, now);
                let ghost entries = list@;
                let keep = if list.is_empty() {
                    match &found {
                        Some(connection) => connection.can_share(),
                        None => false,
                    }
                } else {
                    true
                };
                if keep {
                    self.idle.insert(number, list);
                    assert(self.idle() =~= before.idle().insert(number, entries));
                } else {
                    assert(self.idle() =~= before.idle().remove(number));
                }
                assert(Self::idle_list_left(before, token, entries, found, *self));
                found
            },
            None => {
                assert(self.idle() =~= before.idle());
                None
            },
        }
    }

    /// Takes a connection to this host out of the pool now, by the pool's clock.
    pub fn pop(&mut self, token: Token) -> (found: Option<C>)
        ensures
            exists|now: Instant|
                old(self).clock().shows(now) && #[trigger] Self::popped_at(
                    *old(self),
                    token,
                    now,
                    *final(self),
                    found,
                ),
    {
        let now = self.clock.now();
        self.pop_at(token, now)
    }

    /// What registering a new connection at `now` makes of the state `before`. A
    /// connection that can be copied leaves a copy in the pool; any other comes back
    /// to the pool after its use.
    pub open spec fn registered_at(
        before: Self,
        token: Token,
        connection: C,
        now: Instant,
        after: Self,
        pooled: Pooled<C>,
    ) -> bool {
        exists|held: C, copy: Option<C>|
            {
                &&& #[trigger] C::reuses(connection, held, copy)
                &&& match copy {
                    Some(copy) => {
                        &&& Self::pushed_at(before, token, copy, PoolRef::Attached, now, after)
                        &&& pooled == shared(held, token, PoolRef::Detached)
                    },
                    None => {
                        &&& after == before
                        &&& pooled == owned(held, token, PoolRef::Attached)
                    },
                }
            }
    }

    /// Registers a new connection with the pool at `now`.
    pub fn register_connected_at(&mut self, token: Token, connection: C, now: Instant) -> (pooled:
        Pooled<C>)
        ensures
            Self::registered_at(*old(self), token, connection, now, *final(self), pooled),
    {
        let mut held = connection;
        let reused = held.reuse();
        assert(C::reuses(connection, held, reused));
        match reused {
            Some(copy) => {
                self.push_at(token, copy, PoolRef::Attached, now);
                Pooled {
                    connection: Some(held),
                    is_reused: true,
                    token,
                    pool: PoolRef::none(),
                }
            },
            None => Pooled {
                connection: Some(held),
                is_reused: false,
                token,
                pool: PoolRef::Attached,
            },
        }
    }

    /// Registers a new connection with the pool now, by the pool's clock.
    pub fn register_connected(&mut self, token: Token, connection: C) -> (pooled: Pooled<C>)
        ensures
            exists|now: Instant|
                old(self).clock().shows(now) && #[trigger] Self::registered_at(
                    *old(self),
                    token,
                    connection,
                    now,
                    *final(self),
                    pooled,
                ),
    {
        let now = self.clock.now();
        self.register_connected_at(token, connection, now)
    }

    /// What a checkout at `now` makes of the state `before`, once no idle connection
    /// was found in it: the checkout joins those who wait, and makes an attempt of
    /// its own unless one is under way that it can share.
    pub open spec fn queued<N>(
        before: Self,
        token: Token,
        multiplex: bool,
        connector: N,
        sender: W,
        receiver: Receiver<Pooled<C>>,
        after: Self,
        checkout: Checkout<C, N>,
    ) -> bool {
        &&& after.config() == before.config()
        &&& after.clock() == before.clock()
        &&& after.idle() == before.idle()
        &&& after.waiting() == before.waiting().insert(
            token.index(),
            before.waiters(token).push(sender),
        )
        &&& checkout.connection is None
        &&& if before.connecting().contains(token.index()) {
            &&& after.connecting() == before.connecting()
            &&& checkout.waiter == Waiting::Connecting(receiver)
            &&& checkout.inner == InnerCheckoutConnecting::<N>::Waiting
        } else {
            &&& after.connecting() == if multiplex {
                before.connecting().insert(token.index())
            } else {
                before.connecting()
            }
            &&& checkout.waiter == Waiting::Idle(receiver)
            &&& checkout.inner == if before.config().continue_after_preemption {
                InnerCheckoutConnecting::ConnectingWithDelayDrop(Some(connector))
            } else {
                InnerCheckoutConnecting::Connecting(connector)
            }
        }
    }

    /// What a checkout at `now` makes of the state `before`.
    pub open spec fn checked_out_at<N>(
        before: Self,
        token: Token,
        multiplex: bool,
        connector: N,
        sender: W,
        receiver: Receiver<Pooled<C>>,
        now: Instant,
        after: Self,
        checkout: Checkout<C, N>,
    ) -> bool {
        &&& checkout.token == token
        &&& checkout.pool == PoolRef::Attached
        &&& match checkout.connection {
            Some(connection) => {
                &&& Self::popped_at(before, token, now, after, Some(connection))
                &&& checkout.waiter == Waiting::Idle(receiver)
                &&& checkout.inner == InnerCheckoutConnecting::<N>::Connected
            },
            None => exists|searched: Self|
                {
                    &&& #[trigger] Self::popped_at(before, token, now, searched, None)
                    &&& Self::queued(
                        searched,
                        token,
                        multiplex,
                        connector,
                        sender,
                        receiver,
                        after,
                        checkout,
                    )
                },
        }
    }

    /// Creates a checkout for a connection to the given host at `now`.
    ///
    /// 1. A connection that is in the pool is had at once.
    /// 2. Where a connection is being made that can be shared, the checkout waits
    ///    for it.
    /// 3. Otherwise the checkout connects with `connector`; where a connection comes
    ///    back to the pool in the meantime, the checkout gets that one.
    ///
    /// `sender` and `receiver` are the two ends of the channel on which the checkout
    /// waits.
    pub fn checkout_at<N>(
        &mut self,
        token: Token,
        multiplex: bool,
        connector: N,
        sender: W,
        receiver: Receiver<Pooled<C>>,
        id: CheckoutId,
        now: Instant,
    ) -> (checkout: Checkout<C, N>)
        ensures
            Self::checked_out_at(
                *old(self),
                token,
                multiplex,
                connector,
                sender,
                receiver,
                now,
                *final(self),
                checkout,
            ),
            checkout.id == id,
            checkout.live(),
    {
        let found = self.pop_at(token, now);
        if found.is_some() {
            return Checkout::new(token, PoolRef::Attached, receiver, None, found, &self.config, id);
        }
        let ghost searched = *self;
        let number: usize = token.number();
        let mut waiters = match self.waiting.remove(&number) {
            Some(waiters) => waiters,
            None => VecDeque::new(),
        };
        assert(waiters@ == searched.waiters(token));
        waiters.push_back(sender);
        let ghost queue = waiters@;
        self.waiting.insert(number, waiters);
        assert(self.waiting() =~= searched.waiting().insert(number, queue));

        let mut connect = Some(connector);
        if self.connecting.contains(&number) {
            connect = None;
        } else if multiplex {
            self.connecting.insert(number);
        }
        Checkout::new(token, PoolRef::Attached, receiver, connect, None, &self.config, id)
    }
}

/// The connection of a checkout that has no pool, or whose pool is gone: nothing
/// remains in a pool, and nothing goes back to one.
pub fn unregistered<C>(token: Token, connection: C) -> (pooled: Pooled<C>)
    ensures
        pooled == owned(connection, token, PoolRef::Detached),
{
    Pooled { connection: Some(connection), is_reused: false, token, pool: PoolRef::none() }
}

impl<C: PoolableConnection> Pooled<C> {
    /// Gives up the use of the connection. `Some` is what goes back to the pool: the
    /// connection, where it is open, is no copy, and came from a pool.
    pub fn release(self) -> (returned: Option<C>)
        ensures
            match self.connection {
                Some(connection) => match returned {
                    Some(back) => {
                        &&& back == connection
                        &&& connection.reports_open(true)
                        &&& !self.is_reused
                        &&& self.pool == PoolRef::Attached
                    },
                    None => {
                        ||| connection.reports_open(false)
                        ||| self.is_reused
                        ||| self.pool == PoolRef::Detached
                    },
                },
                None => returned is None,
            },
    {
        match self.connection {
            Some(connection) => if connection.is_open() && !self.is_reused && !self.pool.is_none() {
                Some(connection)
            } else {
                None
            },
            None => None,
        }
    }
}

/// Calls [`tokio::sync::oneshot::channel`], which makes the two ends of a new
/// channel. They tell nothing of themselves; that they belong together is what
/// [`paired`] says.
#[verifier::external_body]
fn oneshot_channel<T>() -> (Sender<T>, Receiver<T>) {
    tokio::sync::oneshot::channel()
}

/// Whether these are the two ends of one channel: a call that makes a channel may
/// give both.
pub closed spec fn paired<T>(sender: Sender<T>, receiver: Receiver<T>) -> bool {
    call_ensures(oneshot_channel::<T>, (), (sender, receiver))
}

/// Makes a channel.
pub(crate) fn channel<T>() -> (ends: (Sender<T>, Receiver<T>))
    ensures
        paired(ends.0, ends.1),
{
    oneshot_channel()
}

/// What a checkout makes of the state `before`, at a time that the pool's clock shows
/// and on a channel of its own: the checkout waits at one end of it, and connections
/// are sent to the other.
pub open spec fn checked_out<C: PoolableConnection, N>(
    before: PoolInner<C, Sender<Pooled<C>>>,
    token: Token,
    multiplex: bool,
    connector: N,
    after: PoolInner<C, Sender<Pooled<C>>>,
    checkout: Checkout<C, N>,
) -> bool {
    exists|sender: Sender<Pooled<C>>, receiver: Receiver<Pooled<C>>, now: Instant|
        {
            &&& paired(sender, receiver)
            &&& before.clock().shows(now)
            &&& #[trigger] PoolInner::checked_out_at(
                before,
                token,
                multiplex,
                connector,
                sender,
                receiver,
                now,
                after,
                checkout,
            )
        }
}

/// A pool of connections to remote hosts, each named by a key.
#[derive(Debug)]
#[verifier::reject_recursive_types(C)]
pub struct Pool<C, K> {
    /// The state of the pool.
    pub inner: PoolInner<C, Sender<Pooled<C>>>,
    /// The tokens of the hosts.
    pub keys: TokenMap<K>,
    /// Numbers for checkouts.
    pub ids: Counter,
}

impl<C, K> Pool<C, K> {
    /// A pool without connections.
    pub fn new(config: Config) -> (pool: Self)
        ensures
            pool.inner.config() == config,
            pool.inner.clock().started(),
            pool.inner.connecting() == Set::<usize>::empty(),
            pool.inner.waiting() == Map::<usize, Seq<Sender<Pooled<C>>>>::empty(),
            pool.inner.idle() == Map::<usize, Seq<Idle<C>>>::empty(),
            pool.keys.valid(),
            pool.keys.upcoming() == 1,
            pool.keys.entries() == Seq::<(K, Token)>::empty(),
            pool.ids.upcoming() == 1,
    {
        Pool { inner: PoolInner::new(config), keys: TokenMap::default(), ids: Counter::new() }
    }
}

impl<C, K> Default for Pool<C, K> {
    fn default() -> (pool: Self)
        ensures
            pool.inner.config().idle_timeout matches Some(span) && span@ == 90 * 1_000_000_000,
            pool.inner.config().max_idle_per_host == 32,
            pool.inner.config().continue_after_preemption,
            pool.inner.clock().started(),
            pool.inner.connecting() == Set::<usize>::empty(),
            pool.inner.waiting() == Map::<usize, Seq<Sender<Pooled<C>>>>::empty(),
            pool.inner.idle() == Map::<usize, Seq<Idle<C>>>::empty(),
            pool.keys.valid(),
            pool.keys.upcoming() == 1,
            pool.keys.entries() == Seq::<(K, Token)>::empty(),
            pool.ids.upcoming() == 1,
    {
        Pool::new(Config::default())
    }
}

impl<C: PoolableConnection, K: PartialEq> Pool<C, K> {
    /// Creates a checkout for a connection to the host with the given key now, by the
    /// pool's clock, on a new channel.
    pub fn checkout<N>(&mut self, key: K, multiplex: bool, connector: N) -> (checkout: Checkout<C, N>)
        requires
            old(self).keys.valid(),
        ensures
            final(self).keys.valid(),
            K::obeys_eq_spec() ==> TokenMap::inserted(
                old(self).keys,
                key,
                final(self).keys,
                checkout.token,
            ),
            checked_out(
                old(self).inner,
                checkout.token,
                multiplex,
                connector,
                final(self).inner,
                checkout,
            ),
            checkout.id.0 == old(self).ids.upcoming(),
            final(self).ids.upcoming() == counter::after(checkout.id.0),
            checkout.live(),
    {
        let (sender, receiver) = channel();
        let token = self.keys.insert(key);
        let id = CheckoutId::new(&mut self.ids);
        let now = self.inner.clock.now();
        self.inner.checkout_at(token, multiplex, connector, sender, receiver, id, now)
    }
}

} // verus!
