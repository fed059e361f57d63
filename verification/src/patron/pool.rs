//! A pool whose checkouts connect and shake hands in two steps.
//!
//! Once a transport is connected that can be shared, others wait for its handshake in
//! place of connecting on their own. A connection is sent to those who wait without
//! asking whether they got it.

use std::collections::{HashMap, HashSet, VecDeque};

use tokio::sync::oneshot::{Receiver, Sender};
use vstd::prelude::*;
use vstd::std_specs::cmp::*;

use crate::client::pool::idle::{self, Idle, IdleConnections};
use crate::client::pool::key::{self, Token, TokenMap};
use crate::client::pool::waiter::Waiter;
use crate::client::pool::{self, PoolRef, PoolableConnection, Pooled};
use crate::poll::Poll;
use crate::time::{Clock, Duration, Instant};
use crate::uri::{self, Authority, Scheme, Uri};
use crate::text;

verus! {

broadcast use vstd::std_specs::hash::group_hash_axioms;

/// What identifies the host that a connection leads to.
#[derive(Debug)]
pub struct Key(pub Scheme, pub Authority);

impl Key {
    /// The key for a URI, which has to name a scheme and an authority.
    pub fn from_uri(uri: Uri) -> (key: Self)
        requires
            uri.scheme is Some,
            uri.authority is Some,
        ensures
            key.0 == uri.scheme->0,
            key.1 == uri.authority->0,
    {
        Key(uri.scheme.unwrap(), uri.authority.unwrap())
    }

    /// The key for a scheme and an authority.
    pub fn from_parts(value: (Scheme, Authority)) -> (key: Self)
        ensures
            key.0 == value.0,
            key.1 == value.1,
    {
        Key(value.0, value.1)
    }

    /// The key as text.
    pub fn to_string(&self) -> (shown: String)
        ensures
            shown@ == self.0@ + "://"@ + self.1@.text,
    {
        let mut shown = text::join(self.0.as_str(), "://");
        shown.append(self.1.as_str());
        shown
    }

    /// The key as text for a developer.
    pub fn debug_text(&self) -> (shown: String)
        ensures
            shown@ == "Key(\""@ + self.0@ + "\", "@ + self.1@.text + ")"@,
    {
        let mut shown = text::join("Key(\"", self.0.as_str());
        shown.append("\", ");
        shown.append(self.1.as_str());
        shown.append(")");
        shown
    }
}

impl Clone for Key {
    fn clone(&self) -> (copy: Self)
        ensures
            copy.0@ == self.0@,
            copy.1@ == self.1@,
    {
        Key(self.0.clone(), self.1.clone())
    }
}

impl PartialEq for Key {
    fn eq(&self, other: &Self) -> (equal: bool) {
        self.0 == other.0 && self.1 == other.1
    }
}

impl Eq for Key {

}

impl PartialEqSpecImpl for Key {
    open spec fn obeys_eq_spec() -> bool {
        true
    }

    open spec fn eq_spec(&self, other: &Self) -> bool {
        uri::same_scheme(self.0@, other.0@) && text::lowered(self.1@.text) == text::lowered(
            other.1@.text,
        )
    }
}

/// Configuration for a pool.
#[derive(Debug, Clone, Copy, PartialEq, Eq, Structural)]
pub struct Config {
    /// The maximum idle duration of a connection.
    pub idle_timeout: Option<Duration>,
    /// How many idle connections a host should have. The pool does not read it: it keeps
    /// every connection that it is given.
    pub max_idle_per_host: usize,
}

impl Default for Config {
    fn default() -> (config: Self)
        ensures
            config == (Config {
                idle_timeout: Some(Duration { nanos: 90_000_000_000 }),
                max_idle_per_host: 32,
            }),
    {
        Config { idle_timeout: Some(Duration::from_secs(90)), max_idle_per_host: 32 }
    }
}

/// A transport whose connections may be shared.
pub trait PoolableTransport: Sized {
    /// Whether a call of [`can_share`](Self::can_share) may answer `share`.
    spec fn transport_reports_share(&self, share: bool) -> bool;

    /// Returns `true` if the transport can be re-used, usually because it has used ALPN
    /// to negotiate a protocol that can be multiplexed.
    fn can_share(&self) -> (share: bool)
        ensures
            self.transport_reports_share(share),
    ;
}

impl PoolableTransport for crate::client::pool::mock::MockTransport {
    open spec fn transport_reports_share(&self, share: bool) -> bool {
        share == (self.mode() == crate::client::pool::mock::TransportMode::Reusable)
    }

    fn can_share(&self) -> (share: bool) {
        crate::client::pool::PoolableStream::can_share(self)
    }
}

/// Why a checkout got no connection.
#[derive(Debug)]
pub enum Error<E> {
    /// The transport could not be connected.
    Connecting(E),
    /// The handshake failed.
    Handshaking(E),
    /// There is nothing to connect with.
    Unavailable,
}

/// How a walk along the waiters, in the order in which they came, may end.
///
/// Waiters that nobody listens at are dropped. A connection that can be copied is sent
/// to each of the others, one copy each. One that cannot be copied goes to the first of
/// them. `left` are the waiters that were not reached, `kept` is the connection where it
/// was not sent whole.
pub open spec fn delivered<C: PoolableConnection, W: Waiter<Pooled<C>>>(
    waiters: Seq<W>,
    token: Token,
    link: PoolRef,
    connection: C,
    left: Seq<W>,
    kept: Option<C>,
) -> bool
    decreases waiters.len(),
{
    if waiters.len() == 0 {
        left == waiters && kept == Some(connection)
    } else {
        let waiter = waiters[0];
        let rest = waiters.skip(1);
        ||| waiter.reports_closed(true) && delivered(rest, token, link, connection, left, kept)
        ||| waiter.reports_closed(false) && exists|after: C|
            #[trigger] pool::sent_copy(waiter, token, link, connection, after) && delivered(
                rest,
                token,
                link,
                after,
                left,
                kept,
            )
        ||| waiter.reports_closed(false) && left == rest && kept is None && exists|
            after: C,
            taken: bool,
        |
            #[trigger] pool::sent_whole(waiter, token, link, connection, after, taken)
    }
}

/// The state of a pool.
#[derive(Debug)]
pub struct PoolInner<C, W> {
    config: Config,
    clock: Clock,
    connecting: HashSet<usize>,
    waiting: HashMap<usize, VecDeque<W>>,
    idle: HashMap<usize, IdleConnections<C>>,
}

impl<C, W> PoolInner<C, W> {
    /// The configuration.
    pub closed spec fn config(self) -> Config {
        self.config
    }

    /// The clock by which connections expire.
    pub closed spec fn clock(self) -> Clock {
        self.clock
    }

    /// The hosts to which a connection is being made that others wait for.
    pub closed spec fn connecting(self) -> Set<usize> {
        self.connecting@
    }

    /// For each host, who waits for a connection, first come first.
    pub closed spec fn waiting(self) -> Map<usize, Seq<W>> {
        self.waiting@.map_values(|queue: VecDeque<W>| queue@)
    }

    /// For each host, the idle connections, oldest first.
    pub closed spec fn idle(self) -> Map<usize, Seq<Idle<C>>> {
        self.idle@.map_values(|list: IdleConnections<C>| list@)
    }

    /// Who waits for a connection to this host.
    pub open spec fn waiters(self, token: Token) -> Seq<W> {
        if self.waiting().contains_key(token.index()) {
            self.waiting()[token.index()]
        } else {
            Seq::empty()
        }
    }

    /// The idle connections to this host.
    pub open spec fn idle_at(self, token: Token) -> Seq<Idle<C>> {
        if self.idle().contains_key(token.index()) {
            self.idle()[token.index()]
        } else {
            Seq::empty()
        }
    }

    /// A pool without connections, whose clock starts.
    pub fn new(config: Config) -> (made: Self)
        ensures
            made.config() == config,
            made.clock().started(),
            made.connecting() == Set::<usize>::empty(),
            made.waiting() == Map::<usize, Seq<W>>::empty(),
            made.idle() == Map::<usize, Seq<Idle<C>>>::empty(),
    {
        let made = PoolInner {
            config,
            clock: Clock::new(),
            connecting: HashSet::new(),
            waiting: HashMap::new(),
            idle: HashMap::new(),
        };
        assert(made.waiting() =~= Map::empty());
        assert(made.idle() =~= Map::empty());
        made
    }

    /// Gives up the connection attempt that others may be waiting for.
    pub fn cancel_connection(&mut self, token: Token)
        ensures
            final(self).connecting() == old(self).connecting().remove(token.index()),
            final(self).config() == old(self).config(),
            final(self).clock() == old(self).clock(),
            final(self).waiting() == old(self).waiting(),
            final(self).idle() == old(self).idle(),
    {
        self.connecting.remove(&token.number());
        assert(self.connecting() =~= old(self).connecting().remove(token.index()));
    }

    /// Marks a connection as connected, but not done with the handshake: new attempts
    /// wait for it.
    pub fn connected_in_handshake(&mut self, token: Token)
        ensures
            final(self).connecting() == old(self).connecting().insert(token.index()),
            final(self).config() == old(self).config(),
            final(self).clock() == old(self).clock(),
            final(self).waiting() == old(self).waiting(),
            final(self).idle() == old(self).idle(),
    {
        self.connecting.insert(token.number());
    }
}

impl<C: PoolableConnection, W: Waiter<Pooled<C>>> PoolInner<C, W> {
    /// What putting `connection` into the pool at `now` makes of the state `before`: what
    /// was not sent to others becomes idle.
    pub open spec fn pushed_at(
        before: Self,
        token: Token,
        connection: C,
        link: PoolRef,
        now: Instant,
        after: Self,
    ) -> bool {
        &&& after.config() == before.config()
        &&& after.clock() == before.clock()
        &&& after.connecting() == before.connecting().remove(token.index())
        &&& exists|left: Seq<W>, kept: Option<C>|
            {
                &&& #[trigger] delivered(before.waiters(token), token, link, connection, left, kept)
                &&& after.waiting() == if before.waiting().contains_key(token.index()) {
                    before.waiting().insert(token.index(), left)
                } else {
                    before.waiting()
                }
                &&& after.idle() == match kept {
                    Some(rest) => before.idle().insert(
                        token.index(),
                        before.idle_at(token).push(Idle { at: now, inner: rest }),
                    ),
                    None => before.idle(),
                }
            }
    }

    /// What taking a connection out at `now` makes of the state `before`: the idle
    /// connections to the host are searched, and a list that the search has emptied is
    /// dropped, unless the connection found can be shared.
    pub open spec fn popped_at(
        before: Self,
        token: Token,
        now: Instant,
        after: Self,
        found: Option<C>,
    ) -> bool {
        &&& after.config() == before.config()
        &&& after.clock() == before.clock()
        &&& after.connecting() == before.connecting()
        &&& after.waiting() == before.waiting()
        &&& if before.idle_at(token).len() > 0 {
            exists|list: Seq<Idle<C>>|
                {
                    &&& #[trigger] idle::searched(
                        before.idle_at(token),
                        idle::expiry(before.config().idle_timeout, now),
                        list,
                        found,
                    )
                    &&& Self::list_left(before, token, list, found, after)
                }
        } else {
            found is None && after.idle() == before.idle()
        }
    }

    /// What becomes of the list of idle connections after a search.
    pub open spec fn list_left(
        before: Self,
        token: Token,
        list: Seq<Idle<C>>,
        found: Option<C>,
        after: Self,
    ) -> bool {
        let kept = after.idle() == before.idle().insert(token.index(), list);
        let dropped = after.idle() == before.idle().remove(token.index());
        if list.len() > 0 {
            kept
        } else {
            match found {
                Some(connection) => {
                    ||| connection.reports_share(true) && kept
                    ||| connection.reports_share(false) && dropped
                },
                None => dropped,
            }
        }
    }

    /// Puts a connection into the pool at `now`.
    pub fn push_at(&mut self, token: Token, connection: C, link: PoolRef, now: Instant)
        ensures
            Self::pushed_at(*old(self), token, connection, link, now, *final(self)),
    {
        let ghost before = *self;
        let mut current = connection;
        let number: usize = token.number();
        self.connecting.remove(&number);
        assert(self.connecting() =~= before.connecting().remove(token.index()));

        if let Some(mut waiters) = self.waiting.remove(&number) {
            let ghost queue = waiters@;
            assert(before.waiters(token) == queue);
            loop
                invariant
                    forall|left: Seq<W>, kept: Option<C>| #[trigger]
                        delivered(waiters@, token, link, current, left, kept) ==> delivered(
                            queue,
                            token,
                            link,
                            connection,
                            left,
                            kept,
                        ),
                    number == token.index(),
                    before.waiting@.contains_key(number),
                    before.waiters(token) == queue,
                    before.waiting@.remove(number) == self.waiting@,
                    before.idle() == self.idle(),
                    before.config() == self.config(),
                    before.clock() == self.clock(),
                    before.connecting().remove(token.index()) == self.connecting(),
                    before == *old(self),
                ensures
                    waiters@.len() == 0,
                decreases waiters@.len(),
            {
                let ghost ahead = waiters@;
                let ghost held = current;
                let waiter = match waiters.pop_front() {
                    Some(waiter) => waiter,
                    None => break,
                };
                assert(waiters@ =~= ahead.skip(1));

                if waiter.is_closed() {
                    assert forall|left: Seq<W>, kept: Option<C>| #[trigger]
                        delivered(waiters@, token, link, current, left, kept) implies delivered(
                        queue,
                        token,
                        link,
                        connection,
                        left,
                        kept,
                    ) by {
                        assert(delivered(ahead, token, link, held, left, kept));
                    }
                    continue;
                }

                if let Some(copy) = current.reuse() {
                    let pooled = Pooled { connection: Some(copy), is_reused: true, token, pool: link };
                    assert(pooled == pool::shared(copy, token, link));
                    let _answer = waiter.send(pooled);
                    assert(pool::sent_copy(waiter, token, link, held, current));
                    assert forall|left: Seq<W>, kept: Option<C>| #[trigger]
                        delivered(waiters@, token, link, current, left, kept) implies delivered(
                        queue,
                        token,
                        link,
                        connection,
                        left,
                        kept,
                    ) by {
                        assert(delivered(ahead, token, link, held, left, kept));
                    }
                } else {
                    let ghost whole = current;
                    let pooled = Pooled {
                        connection: Some(current),
                        is_reused: false,
                        token,
                        pool: link,
                    };
                    let answer = waiter.send(pooled);
                    let ghost left = waiters@;
                    self.waiting.insert(number, waiters);
                    proof {
                        assert(pool::sent_whole(waiter, token, link, held, whole, answer is Ok));
                        assert(delivered(ahead, token, link, held, left, None));
                        assert(self.waiting() =~= before.waiting().insert(number, left));
                    }
                    return;
                }
            }
            let ghost left = waiters@;
            self.waiting.insert(number, waiters);
            proof {
                assert(delivered(left, token, link, current, left, Some(current)));
                assert(self.waiting() =~= before.waiting().insert(number, left));
            }
        } else {
            proof {
                assert(self.waiting@ =~= before.waiting@);
                let none = before.waiters(token);
                assert(delivered(none, token, link, connection, none, Some(connection)));
            }
        }

        let mut list = match self.idle.remove(&number) {
            Some(list) => list,
            None => IdleConnections::default(),
        };
        list.push(current, now);
        let ghost entries = list@;
        self.idle.insert(number, list);
        assert(self.idle() =~= before.idle().insert(number, entries));
    }

    /// Puts a connection into the pool now, by the pool's clock.
    pub fn push(&mut self, token: Token, connection: C, link: PoolRef)
        ensures
            exists|now: Instant|
                old(self).clock().shows(now) && #[trigger] Self::pushed_at(
                    *old(self),
                    token,
                    connection,
                    link,
                    now,
                    *final(self),
                ),
    {
        let now = self.clock.now();
        self.push_at(token, connection, link, now);
    }

    /// Takes a connection to this host out of the pool at `now`.
    pub fn pop_at(&mut self, token: Token, now: Instant) -> (found: Option<C>)
        ensures
            Self::popped_at(*old(self), token, now, *final(self), found),
    {
        let ghost before = *self;
        let number: usize = token.number();
        match self.idle.remove(&number) {
            Some(mut list) => {
                assert(list@ == before.idle_at(token));
                if list.is_empty() {
                    self.idle.insert(number, list);
                    assert(self.idle() =~= before.idle());
                    return None;
                }
                let found = list.pop(self.config.idle_timeout, now);
                let ghost entries = list@;
                let keep = if list.is_empty() {
                    match &found {
                        Some(connection) => connection.can_share(),
                        None => false,
                    }
                } else {
                    true
                };
                if keep {
                    self.idle.insert(number, list);
                    assert(self.idle() =~= before.idle().insert(number, entries));
                } else {
                    assert(self.idle() =~= before.idle().remove(number));
                }
                assert(Self::list_left(before, token, entries, found, *self));
                found
            },
            None => {
                assert(self.idle() =~= before.idle());
                None
            },
        }
    }

    /// Takes a connection to this host out of the pool now, by the pool's clock.
    pub fn pop(&mut self, token: Token) -> (found: Option<C>)
        ensures
            exists|now: Instant|
                old(self).clock().shows(now) && #[trigger] Self::popped_at(
                    *old(self),
                    token,
                    now,
                    *final(self),
                    found,
                ),
    {
        let now = self.clock.now();
        self.pop_at(token, now)
    }

    /// What registering a new connection at `now` makes of the state `before`.
    pub open spec fn registered_at(
        before: Self,
        token: Token,
        connection: C,
        now: Instant,
        after: Self,
        pooled: Pooled<C>,
    ) -> bool {
        exists|held: C, copy: Option<C>|
            {
                &&& #[trigger] C::reuses(connection, held, copy)
                &&& match copy {
                    Some(copy) => {
                        &&& Self::pushed_at(before, token, copy, PoolRef::Attached, now, after)
                        &&& pooled == pool::shared(held, token, PoolRef::Detached)
                    },
                    None => {
                        &&& after == before
                        &&& pooled == pool::owned(held, token, PoolRef::Attached)
                    },
                }
            }
    }

    /// Registers a new connection with the pool at `now`. One that can be copied leaves
    /// a copy in the pool; any other comes back to the pool after its use.
    pub fn connected_at(&mut self, token: Token, connection: C, now: Instant) -> (pooled: Pooled<C>)
        ensures
            Self::registered_at(*old(self), token, connection, now, *final(self), pooled),
    {
        let mut held = connection;
        let reused = held.reuse();
        assert(C::reuses(connection, held, reused));
        match reused {
            Some(copy) => {
                self.push_at(token, copy, PoolRef::Attached, now);
                Pooled { connection: Some(held), is_reused: true, token, pool: PoolRef::none() }
            },
            None => Pooled {
                connection: Some(held),
                is_reused: false,
                token,
                pool: PoolRef::Attached,
            },
        }
    }

    /// Registers a new connection with the pool now, by the pool's clock.
    pub fn connected(&mut self, token: Token, connection: C) -> (pooled: Pooled<C>)
        ensures
            exists|now: Instant|
                old(self).clock().shows(now) && #[trigger] Self::registered_at(
                    *old(self),
                    token,
                    connection,
                    now,
                    *final(self),
                    pooled,
                ),
    {
        let now = self.clock.now();
        self.connected_at(token, connection, now)
    }

    /// What a checkout at `now` makes of the state `before`.
    pub open spec fn checked_out_at<N, H, F, R>(
        before: Self,
        token: Token,
        multiplex: bool,
        connect: N,
        handshake: H,
        sender: W,
        receiver: R,
        now: Instant,
        after: Self,
        checkout: Checkout<C, N, H, F, R>,
    ) -> bool {
        &&& checkout.token == token
        &&& checkout.link == PoolRef::Attached
        &&& match checkout.connection {
            Some(connection) => {
                &&& Self::popped_at(before, token, now, after, Some(connection))
                &&& checkout.waiter == Waiting::Idle(receiver)
                &&& checkout.inner == InnerCheckoutConnecting::<N, H, F>::Connected
            },
            None => exists|searched: Self|
                {
                    &&& #[trigger] Self::popped_at(before, token, now, searched, None)
                    &&& after.config() == searched.config()
                    &&& after.clock() == searched.clock()
                    &&& after.idle() == searched.idle()
                    &&& after.waiting() == searched.waiting().insert(
                        token.index(),
                        searched.waiters(token).push(sender),
                    )
                    &&& if searched.connecting().contains(token.index()) {
                        &&& after.connecting() == searched.connecting()
                        &&& checkout.waiter == Waiting::Connecting(receiver)
                        &&& checkout.inner == InnerCheckoutConnecting::<N, H, F>::Waiting
                    } else {
                        &&& after.connecting() == if multiplex {
                            searched.connecting().insert(token.index())
                        } else {
                            searched.connecting()
                        }
                        &&& checkout.waiter == Waiting::Idle(receiver)
                        &&& checkout.inner == (InnerCheckoutConnecting::<N, H, F>::Connecting {
                            connect,
                            handshake,
                        })
                    }
                },
        }
    }

    /// Creates a checkout for a connection to the given host at `now`. `sender` and
    /// `receiver` are the two ends of the channel on which it waits.
    pub fn checkout_at<N, H, F, R>(
        &mut self,
        token: Token,
        multiplex: bool,
        connect: N,
        handshake: H,
        sender: W,
        receiver: R,
        now: Instant,
    ) -> (checkout: Checkout<C, N, H, F, R>)
        ensures
            Self::checked_out_at(
                *old(self),
                token,
                multiplex,
                connect,
                handshake,
                sender,
                receiver,
                now,
                *final(self),
                checkout,
            ),
    {
        let found = self.pop_at(token, now);
        if found.is_some() {
            return Checkout::new(token, receiver, None, found);
        }
        let ghost searched = *self;
        let number: usize = token.number();
        let mut waiters = match self.waiting.remove(&number) {
            Some(waiters) => waiters,
            None => VecDeque::new(),
        };
        assert(waiters@ == searched.waiters(token));
        waiters.push_back(sender);
        let ghost queue = waiters@;
        self.waiting.insert(number, waiters);
        assert(self.waiting() =~= searched.waiting().insert(number, queue));

        let mut connector = Some((connect, handshake));
        if self.connecting.contains(&number) {
            connector = None;
        } else if multiplex {
            self.connecting.insert(number);
        }
        Checkout::new(token, receiver, connector, None)
    }
}

/// A pool of connections to remote hosts, each named by a key.
#[derive(Debug)]
#[verifier::reject_recursive_types(C)]
pub struct Pool<C> {
    /// The state of the pool.
    pub inner: PoolInner<C, Sender<Pooled<C>>>,
    /// The tokens of the hosts.
    pub keys: TokenMap<Key>,
}

impl<C> Pool<C> {
    /// A pool without connections.
    pub fn new(config: Config) -> (made: Self)
        ensures
            made.inner.config() == config,
            made.inner.clock().started(),
            made.inner.connecting() == Set::<usize>::empty(),
            made.inner.waiting() == Map::<usize, Seq<Sender<Pooled<C>>>>::empty(),
            made.inner.idle() == Map::<usize, Seq<Idle<C>>>::empty(),
            made.keys.valid(),
            made.keys.upcoming() == 1,
            made.keys.entries() == Seq::<(Key, Token)>::empty(),
    {
        Pool { inner: PoolInner::new(config), keys: TokenMap::default() }
    }
}

impl<C: PoolableConnection> Pool<C> {
    /// Creates a checkout for a connection to the host with the given key now, by the
    /// pool's clock: it waits at one end of a channel of its own, and connections are
    /// sent to the other.
    pub fn checkout<N, H, F>(&mut self, key: Key, multiplex: bool, connect: N, handshake: H) -> (checkout:
        Checkout<C, N, H, F, Receiver<Pooled<C>>>)
        requires
            old(self).keys.valid(),
        ensures
            final(self).keys.valid(),
            TokenMap::inserted(old(self).keys, key, final(self).keys, checkout.token),
            exists|sender: Sender<Pooled<C>>, receiver: Receiver<Pooled<C>>, now: Instant|
                {
                    &&& pool::paired(sender, receiver)
                    &&& old(self).inner.clock().shows(now)
                    &&& #[trigger] PoolInner::checked_out_at(
                        old(self).inner,
                        checkout.token,
                        multiplex,
                        connect,
                        handshake,
                        sender,
                        receiver,
                        now,
                        final(self).inner,
                        checkout,
                    )
                },
            checkout.live(),
    {
        let (sender, receiver) = pool::channel();
        let token = self.keys.insert(key);
        let now = self.inner.clock.now();
        self.inner.checkout_at(token, multiplex, connect, handshake, sender, receiver, now)
    }
}

/// The channel on which a checkout waits for a connection of others.
#[derive(Debug)]
pub enum Waiting<R> {
    /// The checkout makes an attempt of its own, and takes what comes first.
    Idle(R),
    /// Somebody else makes the attempt.
    Connecting(R),
}

/// How far a checkout has come with its own attempt: `N` connects the transport, `H`
/// starts the handshake, and `F` is the handshake.
#[derive(Debug)]
pub enum InnerCheckoutConnecting<N, H, F> {
    /// Another checkout makes the attempt, or the handshake is being started.
    Waiting,
    /// There is a connection already.
    Connected,
    /// The transport is being connected.
    Connecting {
        /// What connects it.
        connect: N,
        /// What starts the handshake.
        handshake: H,
    },
    /// The handshake is under way.
    Handshaking(F),
}

/// What to do next for a checkout.
#[derive(Debug)]
pub enum CheckoutStep<C, T, H, E> {
    /// Nothing, until the channel or the attempt moves on.
    Pending,
    /// Poll the connection of the transport, then see [`Checkout::connected`].
    PollConnect,
    /// Poll the handshake, then see [`Checkout::handshaken`].
    PollHandshake,
    /// Start the handshake on the transport, then see [`Checkout::handshaking`]. Where
    /// `shared`, tell the pool first that the host is connected.
    Handshake {
        /// The transport.
        transport: T,
        /// What starts the handshake.
        handshake: H,
        /// Whether others can share the connection.
        shared: bool,
    },
    /// Register the connection with the pool, where there still is one, and be done.
    Register(C),
    /// The checkout is done.
    Done(Result<Pooled<C>, Error<E>>),
}

/// A request for a connection. `R` is the channel on which it waits.
#[derive(Debug)]
pub struct Checkout<C, N, H, F, R> {
    /// The host.
    pub token: Token,
    /// The link to the pool.
    pub link: PoolRef,
    /// The channel.
    pub waiter: Waiting<R>,
    /// How far the checkout's own attempt has come.
    pub inner: InnerCheckoutConnecting<N, H, F>,
    /// A connection from the pool.
    pub connection: Option<C>,
}

impl<C, N, H, F, R> Checkout<C, N, H, F, R> {
    /// A checkout that has a connection, makes one, or waits for that of another.
    pub fn new(token: Token, waiter: R, connect: Option<(N, H)>, connection: Option<C>) -> (checkout:
        Self)
        ensures
            checkout.token == token,
            checkout.link == PoolRef::Attached,
            checkout.connection == connection,
            checkout.waiter == (if connection is Some || connect is Some {
                Waiting::Idle(waiter)
            } else {
                Waiting::Connecting(waiter)
            }),
            checkout.inner == (if connection is Some {
                InnerCheckoutConnecting::<N, H, F>::Connected
            } else {
                match connect {
                    Some((connect, handshake)) => InnerCheckoutConnecting::Connecting {
                        connect,
                        handshake,
                    },
                    None => InnerCheckoutConnecting::Waiting,
                }
            }),
    {
        let link = PoolRef::Attached;
        if connection.is_some() {
            Checkout {
                token,
                link,
                waiter: Waiting::Idle(waiter),
                inner: InnerCheckoutConnecting::Connected,
                connection,
            }
        } else if let Some((connect, handshake)) = connect {
            Checkout {
                token,
                link,
                waiter: Waiting::Idle(waiter),
                inner: InnerCheckoutConnecting::Connecting { connect, handshake },
                connection,
            }
        } else {
            Checkout {
                token,
                link,
                waiter: Waiting::Connecting(waiter),
                inner: InnerCheckoutConnecting::Waiting,
                connection,
            }
        }
    }

    /// Whether the checkout has not handed out the connection that it had from the pool.
    pub open spec fn live(self) -> bool {
        self.inner is Connected ==> self.connection is Some
    }

    /// What the checkout asks for, given the state of its channel.
    pub open spec fn next_step<T, E>(self, received: Poll<Option<Pooled<C>>>) -> CheckoutStep<
        C,
        T,
        H,
        E,
    > {
        match received {
            Poll::Ready(Some(pooled)) => CheckoutStep::Done(Ok(pooled)),
            _ => if received is Pending && self.waiter is Connecting {
                CheckoutStep::Pending
            } else {
                match self.inner {
                    InnerCheckoutConnecting::Waiting => CheckoutStep::Pending,
                    InnerCheckoutConnecting::Connected => CheckoutStep::Register(
                        self.connection->0,
                    ),
                    InnerCheckoutConnecting::Connecting { .. } => CheckoutStep::PollConnect,
                    InnerCheckoutConnecting::Handshaking(_) => CheckoutStep::PollHandshake,
                }
            },
        }
    }

    /// Takes the state of the channel: a connection, `None` where nobody will send one,
    /// or nothing yet.
    pub fn poll<T, E>(&mut self, received: Poll<Option<Pooled<C>>>) -> (step: CheckoutStep<
        C,
        T,
        H,
        E,
    >)
        requires
            old(self).live(),
        ensures
            step == old(self).next_step::<T, E>(received),
            final(self).token == old(self).token,
            final(self).link == old(self).link,
            final(self).waiter == old(self).waiter,
            final(self).inner == old(self).inner,
            final(self).connection == if step is Register {
                None
            } else {
                old(self).connection
            },
    {
        let waits = match &self.waiter {
            Waiting::Idle(_) => false,
            Waiting::Connecting(_) => true,
        };
        match received {
            Poll::Ready(Some(pooled)) => {
                return CheckoutStep::Done(Ok(pooled));
            },
            Poll::Pending => {
                if waits {
                    return CheckoutStep::Pending;
                }
            },
            Poll::Ready(None) => {},
        }
        match &self.inner {
            InnerCheckoutConnecting::Waiting => CheckoutStep::Pending,
            InnerCheckoutConnecting::Connected => {
                let mut taken: Option<C> = None;
                std::mem::swap(&mut taken, &mut self.connection);
                CheckoutStep::Register(taken.unwrap())
            },
            InnerCheckoutConnecting::Connecting { .. } => CheckoutStep::PollConnect,
            InnerCheckoutConnecting::Handshaking(_) => CheckoutStep::PollHandshake,
        }
    }

    /// Takes what came of connecting the transport.
    pub fn connected<T: PoolableTransport, E>(&mut self, outcome: Poll<Result<T, E>>) -> (step:
        CheckoutStep<C, T, H, E>)
        requires
            old(self).inner is Connecting,
        ensures
            match outcome {
                Poll::Pending => step is Pending && *final(self) == *old(self),
                Poll::Ready(Err(error)) => {
                    &&& step == CheckoutStep::<C, T, H, E>::Done(Err(Error::Connecting(error)))
                    &&& *final(self) == *old(self)
                },
                Poll::Ready(Ok(transport)) => {
                    &&& step matches CheckoutStep::Handshake {
                        transport: ready,
                        handshake,
                        shared,
                    }
                    &&& ready == transport
                    &&& handshake == old(self).inner->handshake
                    &&& transport.transport_reports_share(shared)
                    &&& *final(self) == (Checkout {
                        inner: InnerCheckoutConnecting::<N, H, F>::Waiting,
                        ..*old(self)
                    })
                },
            },
    {
        match outcome {
            Poll::Pending => CheckoutStep::Pending,
            Poll::Ready(Err(error)) => CheckoutStep::Done(Err(Error::Connecting(error))),
            Poll::Ready(Ok(transport)) => {
                let shared = transport.can_share();
                let mut inner = InnerCheckoutConnecting::Waiting;
                std::mem::swap(&mut inner, &mut self.inner);
                match inner {
                    InnerCheckoutConnecting::Connecting { handshake, .. } => {
                        CheckoutStep::Handshake { transport, handshake, shared }
                    },
                    _ => CheckoutStep::Pending,
                }
            },
        }
    }

    /// The handshake has been started.
    pub fn handshaking(&mut self, future: F)
        ensures
            *final(self) == (Checkout {
                inner: InnerCheckoutConnecting::<N, H, F>::Handshaking(future),
                ..*old(self)
            }),
    {
        self.inner = InnerCheckoutConnecting::Handshaking(future);
    }

    /// Takes what came of the handshake.
    pub fn handshaken<T, E>(&mut self, outcome: Poll<Result<C, E>>) -> (step: CheckoutStep<
        C,
        T,
        H,
        E,
    >)
        requires
            old(self).inner is Handshaking,
        ensures
            *final(self) == *old(self),
            step == (match outcome {
                Poll::Pending => CheckoutStep::<C, T, H, E>::Pending,
                Poll::Ready(Err(error)) => CheckoutStep::Done(Err(Error::Handshaking(error))),
                Poll::Ready(Ok(connection)) => CheckoutStep::Register(connection),
            }),
    {
        match outcome {
            Poll::Pending => CheckoutStep::Pending,
            Poll::Ready(Err(error)) => CheckoutStep::Done(Err(Error::Handshaking(error))),
            Poll::Ready(Ok(connection)) => CheckoutStep::Register(connection),
        }
    }
}

/// A connection that is put into the pool is kept there, or somebody who listens is
/// sent it.
pub proof fn law_connection_is_kept_or_sent<C: PoolableConnection, W: Waiter<Pooled<C>>>(
    waiters: Seq<W>,
    token: Token,
    link: PoolRef,
    connection: C,
    left: Seq<W>,
    kept: Option<C>,
)
    requires
        delivered(waiters, token, link, connection, left, kept),
    ensures
        kept is Some ==> left.len() == 0,
        kept is None ==> waiters.len() > 0 && exists|i: int|
            0 <= i < waiters.len() && #[trigger] waiters[i].reports_closed(false) && left
                == waiters.skip(i + 1),
    decreases waiters.len(),
{
    if waiters.len() > 0 {
        let waiter = waiters[0];
        let rest = waiters.skip(1);
        if kept is None {
            if left == rest && waiter.reports_closed(false) {
                assert(waiters[0].reports_closed(false) && left == waiters.skip(0int + 1));
            } else {
                if waiter.reports_closed(true) && delivered(
                    rest,
                    token,
                    link,
                    connection,
                    left,
                    kept,
                ) {
                    law_connection_is_kept_or_sent(rest, token, link, connection, left, kept);
                } else {
                    let after = choose|after: C|
                        #[trigger] pool::sent_copy(waiter, token, link, connection, after)
                            && delivered(rest, token, link, after, left, kept);
                    law_connection_is_kept_or_sent(rest, token, link, after, left, kept);
                }
                let i = choose|i: int|
                    0 <= i < rest.len() && #[trigger] rest[i].reports_closed(false) && left
                        == rest.skip(i + 1);
                assert(waiters[i + 1] == rest[i]);
                assert(rest.skip(i + 1) =~= waiters.skip(i + 1 + 1));
                assert(waiters[i + 1].reports_closed(false));
            }
        } else {
            if waiter.reports_closed(true) && delivered(
                rest,
                token,
                link,
                connection,
                left,
                kept,
            ) {
                law_connection_is_kept_or_sent(rest, token, link, connection, left, kept);
            } else {
                let after = choose|after: C|
                    #[trigger] pool::sent_copy(waiter, token, link, connection, after)
                        && delivered(rest, token, link, after, left, kept);
                law_connection_is_kept_or_sent(rest, token, link, after, left, kept);
            }
        }
    }
}

/// A connection that the pool hands out is open, was put there for the host, and has not been
/// there for longer than the configured timeout; a timeout of zero, or none, is no limit. It
/// leaves the pool with all that were put there after it.
pub proof fn law_handed_out_connection_is_fresh<C: PoolableConnection, W: Waiter<Pooled<C>>>(
    before: PoolInner<C, W>,
    token: Token,
    now: Instant,
    after: PoolInner<C, W>,
    connection: C,
)
    requires
        exists|pool: &mut PoolInner<C, W>|
            *pool == before && *final(pool) == after && #[trigger] call_ensures(
                PoolInner::<C, W>::pop_at,
                (pool, token, now),
                Some(connection),
            ),
    ensures
        connection.reports_open(true),
        exists|i: int|
            {
                &&& 0 <= i < before.idle_at(token).len()
                &&& (#[trigger] before.idle_at(token)[i]).inner == connection
                &&& before.config().idle_timeout matches Some(limit) ==> limit@ == 0
                    || before.idle_at(token)[i].at@ + limit@ >= now@
                &&& after.idle_at(token) == before.idle_at(token).take(i)
                &&& forall|j: int|
                    i < j < before.idle_at(token).len() ==> (#[trigger] before.idle_at(
                        token,
                    )[j]).inner.reports_open(false)
            },
{
    let entries = before.idle_at(token);
    let expiry = idle::expiry(before.config().idle_timeout, now);
    let list = choose|list: Seq<Idle<C>>|
        {
            &&& #[trigger] idle::searched(entries, expiry, list, Some(connection))
            &&& PoolInner::list_left(before, token, list, Some(connection), after)
        };
    let k = choose|k: int| #[trigger]
        idle::search_ended_at(entries, expiry, list, Some(connection), k);
    assert(entries[k].inner == connection);
    assert(after.idle_at(token) =~= entries.take(k));
}

/// The connection that was put into the pool last is the one that is taken out, where it
/// lasts and does not report closed. A host without idle connections has none to take out,
/// and nothing but the idle connections to the host changes.
pub proof fn law_newest_connection_is_taken_first<C: PoolableConnection, W: Waiter<Pooled<C>>>(
    before: PoolInner<C, W>,
    token: Token,
    now: Instant,
    after: PoolInner<C, W>,
    found: Option<C>,
    other: Token,
)
    requires
        exists|pool: &mut PoolInner<C, W>|
            *pool == before && *final(pool) == after && #[trigger] call_ensures(
                PoolInner::<C, W>::pop_at,
                (pool, token, now),
                found,
            ),
    ensures
        before.idle_at(token).len() == 0 ==> found is None,
        before.idle_at(token).len() > 0 ==> {
            let last = before.idle_at(token).last();
            let lasts = match before.config().idle_timeout {
                Some(limit) => limit@ == 0 || last.at@ + limit@ >= now@,
                None => true,
            };
            &&& lasts && !last.inner.reports_open(false) ==> {
                &&& found == Some(last.inner)
                &&& after.idle_at(token) == before.idle_at(token).drop_last()
            }
            &&& !lasts ==> found is None
        },
        found is None ==> after.idle_at(token).len() == 0,
        after.waiting() == before.waiting(),
        after.connecting() == before.connecting(),
        after.config() == before.config(),
        other.index() != token.index() ==> after.idle_at(other) == before.idle_at(other),
{
    let entries = before.idle_at(token);
    if entries.len() > 0 {
        let expiry = idle::expiry(before.config().idle_timeout, now);
        let list = choose|list: Seq<Idle<C>>|
            {
                &&& #[trigger] idle::searched(entries, expiry, list, found)
                &&& PoolInner::list_left(before, token, list, found, after)
            };
        let k = choose|k: int| #[trigger] idle::search_ended_at(entries, expiry, list, found, k);
        assert(idle::search_ended_at(entries, expiry, list, found, k));
        let last = entries.len() - 1;
        if k < last {
            assert(idle::passed_over(entries[last], expiry));
        } else {
            assert(entries.take(last) =~= entries.drop_last());
        }
    }
}

/// A connection for which nobody waits becomes idle, with the time at which it was put into
/// the pool, and the host is no longer being connected to.
pub proof fn law_unwanted_connection_becomes_idle<C: PoolableConnection, W: Waiter<Pooled<C>>>(
    before: PoolInner<C, W>,
    token: Token,
    connection: C,
    link: PoolRef,
    now: Instant,
    after: PoolInner<C, W>,
)
    requires
        exists|pool: &mut PoolInner<C, W>|
            *pool == before && *final(pool) == after && #[trigger] call_ensures(
                PoolInner::<C, W>::push_at,
                (pool, token, connection, link, now),
                (),
            ),
        before.waiters(token).len() == 0,
    ensures
        after.idle_at(token) == before.idle_at(token).push(Idle { at: now, inner: connection }),
        !after.connecting().contains(token.index()),
        after.waiters(token).len() == 0,
        after.config() == before.config(),
{
}

/// A connection that cannot be copied goes to the first who waits and listens, and to nobody
/// else, and goes back to the pool after its use. The others go on waiting, in their order,
/// and nothing becomes idle.
pub proof fn law_first_in_line_gets_the_connection<C: PoolableConnection, W: Waiter<Pooled<C>>>(
    before: PoolInner<C, W>,
    token: Token,
    connection: C,
    link: PoolRef,
    now: Instant,
    after: PoolInner<C, W>,
)
    requires
        exists|pool: &mut PoolInner<C, W>|
            *pool == before && *final(pool) == after && #[trigger] call_ensures(
                PoolInner::<C, W>::push_at,
                (pool, token, connection, link, now),
                (),
            ),
        before.waiters(token).len() > 0,
        !before.waiters(token)[0].reports_closed(true),
        forall|held: C, next: C, copy: Option<C>| #[trigger]
            C::reuses(held, next, copy) ==> copy is None,
    ensures
        after.waiters(token) == before.waiters(token).skip(1),
        after.idle_at(token) == before.idle_at(token),
        !after.connecting().contains(token.index()),
        exists|held: C, answer: Result<(), Pooled<C>>|
            {
                &&& C::reuses(connection, held, None)
                &&& #[trigger] before.waiters(token)[0].answers(
                    Pooled { connection: Some(held), is_reused: false, token, pool: link },
                    answer,
                )
            },
{
    let waiters = before.waiters(token);
    let waiter = waiters[0];
    let (left, kept) = choose|left: Seq<W>, kept: Option<C>|
        {
            &&& #[trigger] delivered(waiters, token, link, connection, left, kept)
            &&& after.waiting() == if before.waiting().contains_key(token.index()) {
                before.waiting().insert(token.index(), left)
            } else {
                before.waiting()
            }
            &&& after.idle() == match kept {
                Some(rest) => before.idle().insert(
                    token.index(),
                    before.idle_at(token).push(Idle { at: now, inner: rest }),
                ),
                None => before.idle(),
            }
        };
    assert(delivered(waiters, token, link, connection, left, kept));
    assert(left == waiters.skip(1) && kept is None);
    let (held, taken) = choose|held: C, taken: bool| #[trigger]
        pool::sent_whole(waiter, token, link, connection, held, taken);
    let answer = choose|answer: Result<(), Pooled<C>>|
        {
            &&& C::reuses(connection, held, None)
            &&& #[trigger] waiter.answers(pool::owned(held, token, link), answer)
        };
    assert(pool::owned(held, token, link) == Pooled {
        connection: Some(held),
        is_reused: false,
        token,
        pool: link,
    });
    assert(waiter.answers(
        Pooled { connection: Some(held), is_reused: false, token, pool: link },
        answer,
    ));
}

proof fn lemma_copies_are_sent<C: PoolableConnection, W: Waiter<Pooled<C>>>(
    waiters: Seq<W>,
    token: Token,
    link: PoolRef,
    connection: C,
    left: Seq<W>,
    kept: Option<C>,
)
    requires
        delivered(waiters, token, link, connection, left, kept),
        forall|held: C, next: C, copy: Option<C>| #[trigger]
            C::reuses(held, next, copy) ==> copy is Some,
    ensures
        kept is Some && left.len() == 0,
        forall|i: int|
            0 <= i < waiters.len() ==> #[trigger] waiters[i].reports_closed(true) || exists|
                item: Pooled<C>,
                answer: Result<(), Pooled<C>>,
            | #[trigger]
                waiters[i].answers(item, answer) && item.connection is Some && item.is_reused
                    && item.token == token && item.pool == link,
    decreases waiters.len(),
{
    if waiters.len() > 0 {
        let waiter = waiters[0];
        let rest = waiters.skip(1);
        if waiter.reports_closed(true) && delivered(rest, token, link, connection, left, kept) {
            lemma_copies_are_sent(rest, token, link, connection, left, kept);
        } else {
            let after = choose|after: C|
                #[trigger] pool::sent_copy(waiter, token, link, connection, after) && delivered(
                    rest,
                    token,
                    link,
                    after,
                    left,
                    kept,
                );
            assert(pool::sent_copy(waiter, token, link, connection, after));
            lemma_copies_are_sent(rest, token, link, after, left, kept);
            let (copy, answer) = choose|copy: C, answer: Result<(), Pooled<C>>|
                #![trigger C::reuses(connection, after, Some(copy)), waiter.answers(
                    pool::shared(copy, token, link),
                    answer,
                )]
                C::reuses(connection, after, Some(copy)) && waiter.answers(
                    pool::shared(copy, token, link),
                    answer,
                );
            assert(waiters[0].answers(pool::shared(copy, token, link), answer));
        }
        assert forall|i: int| 0 <= i < waiters.len() implies #[trigger] waiters[i].reports_closed(
            true,
        ) || exists|item: Pooled<C>, answer: Result<(), Pooled<C>>| #[trigger]
            waiters[i].answers(item, answer) && item.connection is Some && item.is_reused
                && item.token == token && item.pool == link by {
            if i > 0 {
                assert(waiters[i] == rest[i - 1]);
                assert(rest[i - 1].reports_closed(true) || exists|
                    item: Pooled<C>,
                    answer: Result<(), Pooled<C>>,
                | #[trigger]
                    rest[i - 1].answers(item, answer) && item.connection is Some && item.is_reused
                        && item.token == token && item.pool == link);
            }
        }
    }
}

/// A connection that can be copied is sent to all who wait, one copy each, but for those who
/// do not listen any more, and then becomes idle itself: nobody is left waiting.
pub proof fn law_copies_reach_everyone<C: PoolableConnection, W: Waiter<Pooled<C>>>(
    before: PoolInner<C, W>,
    token: Token,
    connection: C,
    link: PoolRef,
    now: Instant,
    after: PoolInner<C, W>,
)
    requires
        exists|pool: &mut PoolInner<C, W>|
            *pool == before && *final(pool) == after && #[trigger] call_ensures(
                PoolInner::<C, W>::push_at,
                (pool, token, connection, link, now),
                (),
            ),
        forall|held: C, next: C, copy: Option<C>| #[trigger]
            C::reuses(held, next, copy) ==> copy is Some,
    ensures
        after.waiters(token).len() == 0,
        after.idle_at(token).len() == before.idle_at(token).len() + 1,
        after.idle_at(token).drop_last() == before.idle_at(token),
        after.idle_at(token).last().at == now,
        forall|i: int|
            0 <= i < before.waiters(token).len() ==> #[trigger] before.waiters(
                token,
            )[i].reports_closed(true) || exists|item: Pooled<C>, answer: Result<(), Pooled<C>>|
             #[trigger]
                before.waiters(token)[i].answers(item, answer) && item.connection is Some
                    && item.is_reused && item.token == token && item.pool == link,
{
    let waiters = before.waiters(token);
    let (left, kept) = choose|left: Seq<W>, kept: Option<C>|
        {
            &&& #[trigger] delivered(waiters, token, link, connection, left, kept)
            &&& after.waiting() == if before.waiting().contains_key(token.index()) {
                before.waiting().insert(token.index(), left)
            } else {
                before.waiting()
            }
            &&& after.idle() == match kept {
                Some(rest) => before.idle().insert(
                    token.index(),
                    before.idle_at(token).push(Idle { at: now, inner: rest }),
                ),
                None => before.idle(),
            }
        };
    assert(delivered(waiters, token, link, connection, left, kept));
    lemma_copies_are_sent(waiters, token, link, connection, left, kept);
    assert(after.idle_at(token).drop_last() =~= before.idle_at(token));
}

/// A new connection of which no copy can be made is handed out whole: it goes back to the
/// pool after its use, and the pool does not change until then. One of which a copy was made
/// is handed out as a copy among others, which does not go back, and frees the host for
/// other attempts.
pub proof fn law_new_connection_is_handed_out<C: PoolableConnection, W: Waiter<Pooled<C>>>(
    before: PoolInner<C, W>,
    token: Token,
    connection: C,
    now: Instant,
    after: PoolInner<C, W>,
    pooled: Pooled<C>,
)
    requires
        exists|pool: &mut PoolInner<C, W>|
            *pool == before && *final(pool) == after && #[trigger] call_ensures(
                PoolInner::<C, W>::connected_at,
                (pool, token, connection, now),
                pooled,
            ),
    ensures
        pooled.token == token,
        pooled.connection is Some,
        pooled.is_reused <==> pooled.pool == PoolRef::Detached,
        exists|copy: Option<C>|
            {
                &&& #[trigger] C::reuses(connection, pooled.connection->0, copy)
                &&& copy is Some <==> pooled.is_reused
            },
        !pooled.is_reused ==> after == before,
        pooled.is_reused ==> !after.connecting().contains(token.index()),
{
    let (held, copy) = choose|held: C, copy: Option<C>|
        {
            &&& #[trigger] C::reuses(connection, held, copy)
            &&& match copy {
                Some(copy) => {
                    &&& PoolInner::pushed_at(before, token, copy, PoolRef::Attached, now, after)
                    &&& pooled == pool::shared(held, token, PoolRef::Detached)
                },
                None => {
                    &&& after == before
                    &&& pooled == pool::owned(held, token, PoolRef::Attached)
                },
            }
        };
    assert(C::reuses(connection, pooled.connection->0, copy));
}

/// A checkout joins the end of the line of those who wait for the host, where it finds no
/// idle connection. It connects with what it was given, unless an attempt is under way that
/// it can share; and its attempt can be shared by others if and only if it said so.
pub proof fn law_checkout_waits_in_line<C: PoolableConnection, W: Waiter<Pooled<C>>, N, H, F, R>(
    before: PoolInner<C, W>,
    token: Token,
    multiplex: bool,
    connect: N,
    handshake: H,
    sender: W,
    receiver: R,
    now: Instant,
    after: PoolInner<C, W>,
    checkout: Checkout<C, N, H, F, R>,
    other: Token,
)
    requires
        exists|pool: &mut PoolInner<C, W>|
            *pool == before && *final(pool) == after && #[trigger] call_ensures(
                PoolInner::<C, W>::checkout_at::<N, H, F, R>,
                (pool, token, multiplex, connect, handshake, sender, receiver, now),
                checkout,
            ),
        before.idle_at(token).len() == 0,
    ensures
        checkout.token == token,
        checkout.link == PoolRef::Attached,
        checkout.connection is None,
        after.waiters(token) == before.waiters(token).push(sender),
        before.connecting().contains(token.index()) ==> {
            &&& checkout.inner is Waiting
            &&& checkout.waiter == Waiting::Connecting(receiver)
        },
        !before.connecting().contains(token.index()) ==> {
            &&& checkout.inner == (InnerCheckoutConnecting::<N, H, F>::Connecting {
                connect,
                handshake,
            })
            &&& checkout.waiter == Waiting::Idle(receiver)
        },
        after.connecting().contains(token.index()) <==> before.connecting().contains(token.index())
            || multiplex,
        other.index() != token.index() ==> {
            &&& after.waiters(other) == before.waiters(other)
            &&& after.idle_at(other) == before.idle_at(other)
            &&& after.connecting().contains(other.index()) == before.connecting().contains(
                other.index(),
            )
        },
{
    if checkout.connection is None {
        let searched = choose|searched: PoolInner<C, W>|
            {
                &&& #[trigger] PoolInner::popped_at(before, token, now, searched, None)
                &&& after.config() == searched.config()
                &&& after.clock() == searched.clock()
                &&& after.idle() == searched.idle()
                &&& after.waiting() == searched.waiting().insert(
                    token.index(),
                    searched.waiters(token).push(sender),
                )
                &&& if searched.connecting().contains(token.index()) {
                    &&& after.connecting() == searched.connecting()
                    &&& checkout.waiter == Waiting::Connecting(receiver)
                    &&& checkout.inner == InnerCheckoutConnecting::<N, H, F>::Waiting
                } else {
                    &&& after.connecting() == if multiplex {
                        searched.connecting().insert(token.index())
                    } else {
                        searched.connecting()
                    }
                    &&& checkout.waiter == Waiting::Idle(receiver)
                    &&& checkout.inner == (InnerCheckoutConnecting::<N, H, F>::Connecting {
                        connect,
                        handshake,
                    })
                }
            };
        assert(PoolInner::popped_at(before, token, now, searched, None));
        assert(searched.waiters(token) == before.waiters(token));
    }
}

/// A checkout that finds an idle connection that is open, and has not been there for too
/// long, takes that: it makes no attempt and joins no line.
pub proof fn law_checkout_reuses_the_idle_connection<
    C: PoolableConnection,
    W: Waiter<Pooled<C>>,
    N,
    H,
    F,
    R,
>(
    before: PoolInner<C, W>,
    token: Token,
    multiplex: bool,
    connect: N,
    handshake: H,
    sender: W,
    receiver: R,
    now: Instant,
    after: PoolInner<C, W>,
    checkout: Checkout<C, N, H, F, R>,
)
    requires
        exists|pool: &mut PoolInner<C, W>|
            *pool == before && *final(pool) == after && #[trigger] call_ensures(
                PoolInner::<C, W>::checkout_at::<N, H, F, R>,
                (pool, token, multiplex, connect, handshake, sender, receiver, now),
                checkout,
            ),
        before.idle_at(token).len() > 0,
        !before.idle_at(token).last().inner.reports_open(false),
        before.config().idle_timeout matches Some(limit) ==> limit@ == 0 || before.idle_at(
            token,
        ).last().at@ + limit@ >= now@,
    ensures
        checkout.connection == Some(before.idle_at(token).last().inner),
        checkout.inner is Connected,
        checkout.token == token,
        checkout.link == PoolRef::Attached,
        after.idle_at(token) == before.idle_at(token).drop_last(),
        after.waiting() == before.waiting(),
        after.connecting() == before.connecting(),
{
    let entries = before.idle_at(token);
    let expiry = idle::expiry(before.config().idle_timeout, now);
    let end = if checkout.connection is Some {
        after
    } else {
        choose|searched: PoolInner<C, W>| #[trigger]
            PoolInner::popped_at(before, token, now, searched, None)
    };
    let found = checkout.connection;
    assert(PoolInner::popped_at(before, token, now, end, found));
    let list = choose|list: Seq<Idle<C>>|
        {
            &&& #[trigger] idle::searched(entries, expiry, list, found)
            &&& PoolInner::list_left(before, token, list, found, end)
        };
    let k = choose|k: int| #[trigger] idle::search_ended_at(entries, expiry, list, found, k);
    assert(idle::search_ended_at(entries, expiry, list, found, k));
    let last = entries.len() - 1;
    if k < last {
        assert(idle::passed_over(entries[last], expiry));
    } else {
        assert(entries.take(last) =~= entries.drop_last());
    }
}

/// A host is being connected to, for others to wait for, from when the pool is told of it
/// until the attempt is given up; neither touches other hosts, nor who waits or what is
/// idle.
pub proof fn law_attempt_is_known_until_it_is_given_up<C, W>(
    before: PoolInner<C, W>,
    token: Token,
    told: PoolInner<C, W>,
    after: PoolInner<C, W>,
    other: Token,
)
    requires
        exists|pool: &mut PoolInner<C, W>|
            *pool == before && *final(pool) == told && #[trigger] call_ensures(
                PoolInner::<C, W>::connected_in_handshake,
                (pool, token),
                (),
            ),
        exists|pool: &mut PoolInner<C, W>|
            *pool == told && *final(pool) == after && #[trigger] call_ensures(
                PoolInner::<C, W>::cancel_connection,
                (pool, token),
                (),
            ),
    ensures
        told.connecting().contains(token.index()),
        !after.connecting().contains(token.index()),
        other.index() != token.index() ==> {
            &&& told.connecting().contains(other.index()) == before.connecting().contains(
                other.index(),
            )
            &&& after.connecting().contains(other.index()) == before.connecting().contains(
                other.index(),
            )
        },
        after.idle_at(other) == before.idle_at(other),
        after.waiters(other) == before.waiters(other),
        told.config() == before.config() && after.config() == before.config(),
        told.clock() == before.clock() && after.clock() == before.clock(),
{
}

/// A checkout yields a connection that is delivered to it, whatever its own attempt is
/// doing. Otherwise one that waits for another's attempt goes on waiting while something may
/// come, one with a connection from the pool registers it, and one with an attempt of its own
/// drives that on.
pub proof fn law_delivered_connection_wins<C, N, H, F, R, T, E>(
    before: Checkout<C, N, H, F, R>,
    received: Poll<Option<Pooled<C>>>,
    step: CheckoutStep<C, T, H, E>,
    after: Checkout<C, N, H, F, R>,
)
    requires
        before.inner is Connected ==> before.connection is Some,
        exists|m: &mut Checkout<C, N, H, F, R>|
            *m == before && *final(m) == after && #[trigger] call_ensures(
                Checkout::<C, N, H, F, R>::poll::<T, E>,
                (m, received),
                step,
            ),
    ensures
        received matches Poll::Ready(Some(pooled)) ==> step == CheckoutStep::<C, T, H, E>::Done(
            Ok(pooled),
        ),
        received is Pending && before.waiter is Connecting ==> step is Pending,
        received == Poll::<Option<Pooled<C>>>::Ready(None) || (received is Pending
            && before.waiter is Idle) ==> {
            &&& before.inner is Waiting ==> step is Pending
            &&& before.inner is Connected ==> step == CheckoutStep::<C, T, H, E>::Register(
                before.connection->0,
            )
            &&& before.inner is Connecting ==> step is PollConnect
            &&& before.inner is Handshaking ==> step is PollHandshake
        },
        after.token == before.token,
        after.inner == before.inner,
        after.waiter == before.waiter,
        !(step is Register) ==> after == before,
{
}

/// The attempt of a checkout connects first, and shakes hands on what is connected then, with
/// what it was given for that; what comes of the handshake is registered. An error ends the
/// checkout, and names the part that failed.
pub proof fn law_attempt_connects_and_shakes_hands<C, N, H, F, R, T: PoolableTransport, E>(
    before: Checkout<C, N, H, F, R>,
    connect: N,
    handshake: H,
    connected: Poll<Result<T, E>>,
    first: CheckoutStep<C, T, H, E>,
    between: Checkout<C, N, H, F, R>,
    future: F,
    started: Checkout<C, N, H, F, R>,
    shaken: Poll<Result<C, E>>,
    second: CheckoutStep<C, T, H, E>,
    last: Checkout<C, N, H, F, R>,
)
    requires
        before.inner == (InnerCheckoutConnecting::<N, H, F>::Connecting { connect, handshake }),
        exists|m: &mut Checkout<C, N, H, F, R>|
            *m == before && *final(m) == between && #[trigger] call_ensures(
                Checkout::<C, N, H, F, R>::connected::<T, E>,
                (m, connected),
                first,
            ),
        exists|m: &mut Checkout<C, N, H, F, R>|
            *m == between && *final(m) == started && #[trigger] call_ensures(
                Checkout::<C, N, H, F, R>::handshaking,
                (m, future),
                (),
            ),
        exists|m: &mut Checkout<C, N, H, F, R>|
            *m == started && *final(m) == last && #[trigger] call_ensures(
                Checkout::<C, N, H, F, R>::handshaken::<T, E>,
                (m, shaken),
                second,
            ),
    ensures
        connected is Pending ==> first is Pending && between == before,
        connected matches Poll::Ready(Err(error)) ==> first == CheckoutStep::<C, T, H, E>::Done(
            Err(Error::Connecting(error)),
        ),
        connected matches Poll::Ready(Ok(transport)) ==> {
            &&& first matches CheckoutStep::Handshake { transport: used, handshake: with, shared }
            &&& used == transport
            &&& with == handshake
            &&& transport.transport_reports_share(shared)
        },
        started.inner == InnerCheckoutConnecting::<N, H, F>::Handshaking(future),
        started.token == before.token && started.connection == before.connection
            && started.waiter == before.waiter && started.link == before.link,
        shaken is Pending ==> second is Pending,
        shaken matches Poll::Ready(Err(error)) ==> second == CheckoutStep::<C, T, H, E>::Done(
            Err(Error::Handshaking(error)),
        ),
        shaken matches Poll::Ready(Ok(connection)) ==> second == CheckoutStep::<
            C,
            T,
            H,
            E,
        >::Register(connection),
        last == started,
{
}

/// The key of a request is its scheme and its authority, in text as well; two keys are the
/// same exactly when both are.
pub proof fn law_key_is_scheme_and_authority(
    uri: Uri,
    key: Key,
    pair: (Scheme, Authority),
    other: Key,
    equal: bool,
    same_scheme: bool,
    same_authority: bool,
    shown: String,
    debug: String,
    copy: Key,
)
    requires
        uri.scheme is Some,
        uri.authority is Some,
        call_ensures(Key::from_uri, (uri,), key),
        call_ensures(Key::from_parts, (pair,), other),
        call_ensures(Key::eq, (&key, &other), equal),
        call_ensures(Scheme::eq, (&uri.scheme->0, &pair.0), same_scheme),
        call_ensures(Authority::eq, (&uri.authority->0, &pair.1), same_authority),
        call_ensures(Key::to_string, (&key,), shown),
        call_ensures(Key::debug_text, (&key,), debug),
        call_ensures(Key::clone, (&key,), copy),
    ensures
        equal <==> same_scheme && same_authority,
        shown@ == uri.scheme->0@ + seq![':', '/', '/'] + uri.authority->0@.text,
        debug@ == "Key(\""@ + uri.scheme->0@ + "\", "@ + uri.authority->0@.text + ")"@,
        copy.0@ == uri.scheme->0@,
        copy.1@ == uri.authority->0@,
{
    reveal_strlit("://");
    assert("://"@ =~= seq![':', '/', '/']);
}

/// The first two checkouts of a pool go by one token where their keys are the same, and by
/// tokens of their own where they are not.
pub proof fn law_hosts_are_checked_out_apart<C: PoolableConnection, N, H, F>(
    before: Pool<C>,
    first: Key,
    second: Key,
    multiplex: bool,
    connect: N,
    handshake: H,
    one: Checkout<C, N, H, F, Receiver<Pooled<C>>>,
    between: Pool<C>,
    other: Checkout<C, N, H, F, Receiver<Pooled<C>>>,
    after: Pool<C>,
    equal: bool,
)
    requires
        before.keys.valid(),
        before.keys.entries().len() == 0,
        call_ensures(Key::eq, (&first, &second), equal),
        call_ensures(Key::eq, (&second, &first), equal),
        exists|m: &mut Pool<C>|
            *m == before && *final(m) == between && #[trigger] call_ensures(
                Pool::<C>::checkout::<N, H, F>,
                (m, first, multiplex, connect, handshake),
                one,
            ),
        exists|m: &mut Pool<C>|
            *m == between && *final(m) == after && #[trigger] call_ensures(
                Pool::<C>::checkout::<N, H, F>,
                (m, second, multiplex, connect, handshake),
                other,
            ),
    ensures
        equal ==> one.token == other.token,
        !equal ==> one.token != other.token,
{
    reveal_with_fuel(key::lookup, 3);
}

/// The time for which a connection may be idle is a minute and a half, unless it is set.
pub proof fn law_connections_are_idle_for_a_while(config: Config)
    requires
        call_ensures(Config::default, (), config),
    ensures
        config.idle_timeout matches Some(limit) && limit.nanos == 90 * 1_000_000_000,
        config.max_idle_per_host == 32,
{
}

/// A connection that is put into the pool by its clock is idle from the moment that the clock
/// showed; where nothing limits how long connections are idle, and it does not report closed,
/// it is the one that is taken out.
pub proof fn law_clock_times_the_pool<C: PoolableConnection, W: Waiter<Pooled<C>>>(
    before: PoolInner<C, W>,
    token: Token,
    connection: C,
    link: PoolRef,
    between: PoolInner<C, W>,
    found: Option<C>,
    after: PoolInner<C, W>,
)
    requires
        exists|pool: &mut PoolInner<C, W>|
            *pool == before && *final(pool) == between && #[trigger] call_ensures(
                PoolInner::<C, W>::push,
                (pool, token, connection, link),
                (),
            ),
        before.waiters(token).len() == 0,
        before.config().idle_timeout is None || before.config().idle_timeout->0.nanos == 0,
        exists|pool: &mut PoolInner<C, W>|
            *pool == between && *final(pool) == after && #[trigger] call_ensures(
                PoolInner::<C, W>::pop,
                (pool, token),
                found,
            ),
    ensures
        between.idle_at(token).len() == before.idle_at(token).len() + 1,
        between.idle_at(token).last().inner == connection,
        before.clock().shows(between.idle_at(token).last().at),
        found matches Some(found) ==> found.reports_open(true),
        !connection.reports_open(false) ==> found == Some(connection) && after.idle_at(token)
            == before.idle_at(token),
{
    let now = choose|now: Instant|
        between.clock().shows(now) && #[trigger] PoolInner::popped_at(
            between,
            token,
            now,
            after,
            found,
        );
    let entries = between.idle_at(token);
    let expiry = idle::expiry(between.config().idle_timeout, now);
    let list = choose|list: Seq<Idle<C>>|
        {
            &&& #[trigger] idle::searched(entries, expiry, list, found)
            &&& PoolInner::list_left(between, token, list, found, after)
        };
    let k = choose|k: int| #[trigger] idle::search_ended_at(entries, expiry, list, found, k);
    assert(idle::search_ended_at(entries, expiry, list, found, k));
    let last = entries.len() - 1;
    if k < last {
        assert(idle::passed_over(entries[last], expiry));
    } else {
        assert(entries.take(last) =~= before.idle_at(token));
    }
}

/// A new connection that is registered by the clock of the pool is handed out for the host
/// that it was registered for, whole where no copy can be made of it, and as a copy among
/// others where one was.
pub proof fn law_registered_connection_is_handed_out<C: PoolableConnection, W: Waiter<Pooled<C>>>(
    before: PoolInner<C, W>,
    token: Token,
    connection: C,
    after: PoolInner<C, W>,
    pooled: Pooled<C>,
)
    requires
        exists|pool: &mut PoolInner<C, W>|
            *pool == before && *final(pool) == after && #[trigger] call_ensures(
                PoolInner::<C, W>::connected,
                (pool, token, connection),
                pooled,
            ),
    ensures
        pooled.token == token,
        pooled.connection is Some,
        pooled.is_reused <==> pooled.pool == PoolRef::Detached,
        exists|copy: Option<C>|
            {
                &&& #[trigger] C::reuses(connection, pooled.connection->0, copy)
                &&& copy is Some <==> pooled.is_reused
            },
        !pooled.is_reused ==> after == before,
{
    let now = choose|now: Instant|
        before.clock().shows(now) && #[trigger] PoolInner::registered_at(
            before,
            token,
            connection,
            now,
            after,
            pooled,
        );
    let (held, copy) = choose|held: C, copy: Option<C>|
        {
            &&& #[trigger] C::reuses(connection, held, copy)
            &&& match copy {
                Some(copy) => {
                    &&& PoolInner::pushed_at(before, token, copy, PoolRef::Attached, now, after)
                    &&& pooled == pool::shared(held, token, PoolRef::Detached)
                },
                None => {
                    &&& after == before
                    &&& pooled == pool::owned(held, token, PoolRef::Attached)
                },
            }
        };
    assert(C::reuses(connection, pooled.connection->0, copy));
}

/// A checkout that is made around a connection has it, one that is made around an attempt
/// makes it, and any other waits for the attempt of another.
pub proof fn law_checkout_has_a_connection_or_an_attempt<C, N, H, F, R>(
    token: Token,
    receiver: R,
    connect: Option<(N, H)>,
    connection: Option<C>,
    checkout: Checkout<C, N, H, F, R>,
    config: Config,
    made: PoolInner<C, F>,
    whole: Pool<C>,
)
    requires
        call_ensures(
            Checkout::<C, N, H, F, R>::new,
            (token, receiver, connect, connection),
            checkout,
        ),
        call_ensures(PoolInner::<C, F>::new, (config,), made),
        call_ensures(Pool::<C>::new, (config,), whole),
    ensures
        checkout.token == token,
        checkout.connection == connection,
        connection is Some ==> checkout.inner is Connected && checkout.waiter == Waiting::Idle(
            receiver,
        ),
        connection is None ==> (connect matches Some((connects, shakes)) ==> checkout.waiter
            == Waiting::Idle(receiver) && checkout.inner == (InnerCheckoutConnecting::<
            N,
            H,
            F,
        >::Connecting { connect: connects, handshake: shakes })),
        connection is None && connect is None ==> checkout.inner is Waiting && checkout.waiter
            == Waiting::Connecting(receiver),
        made.config() == config && made.idle_at(token).len() == 0 && made.waiters(token).len() == 0
            && !made.connecting().contains(token.index()),
        whole.inner.config() == config && whole.inner.idle_at(token).len() == 0,
{
}

} // verus!
