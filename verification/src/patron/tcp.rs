//! Connecting over TCP, with addresses to fall back on.
//!
//! The addresses of the preferred version are tried one after the other. After a delay
//! those of the other version are tried beside them, and what connects first is used.

use vstd::prelude::*;

use crate::client::conn::dns::{self, IpVersion, SocketAddrs};
pub use crate::client::conn::tcp::get_host_and_port;
use crate::client::conn::tcp::{self, TcpConnectionConfig};
use crate::client::conn::transport::tcp::TcpConnectionError;
use crate::net::SocketAddr;
use crate::time::Duration;

verus! {

/// Addresses that are tried in sequence.
#[derive(Debug)]
pub struct TcpConnectingSet {
    addrs: SocketAddrs,
    timeout: Option<Duration>,
}

/// Addresses that are tried after a delay.
#[derive(Debug)]
pub struct TcpFallback {
    /// The addresses.
    pub connect: TcpConnectingSet,
    /// The delay.
    pub delay: Duration,
}

/// The addresses to try first, and those to fall back on.
#[derive(Debug)]
pub struct TcpConnecting {
    /// The addresses to try first.
    pub prefered: TcpConnectingSet,
    /// The addresses to fall back on.
    pub fallback: Option<TcpFallback>,
}

/// The time for each of several attempts, where they have a time together. Without an
/// attempt there is none.
pub open spec fn share_of(timeout: Option<Duration>, count: nat) -> Option<nat> {
    match timeout {
        Some(span) => if count == 0 {
            None
        } else {
            Some(span@ / count)
        },
        None => None,
    }
}

impl TcpConnectingSet {
    /// The addresses.
    pub closed spec fn spec_addrs(self) -> Seq<SocketAddr> {
        self.addrs@
    }

    /// The time for each of them.
    pub closed spec fn spec_timeout(self) -> Option<Duration> {
        self.timeout
    }

    /// Whether the set is made of these addresses, and each has its share of the time.
    pub open spec fn tries(self, addrs: Seq<SocketAddr>, timeout: Option<Duration>) -> bool {
        &&& self.spec_addrs() == addrs
        &&& match share_of(timeout, addrs.len()) {
            Some(share) => self.spec_timeout() matches Some(span) && span@ == share,
            None => self.spec_timeout() is None,
        }
    }

    /// Addresses to try in sequence, which have a time together.
    pub fn new(addrs: SocketAddrs, timeout: Option<Duration>) -> (set: Self)
        requires
            addrs@.len() <= u32::MAX,
        ensures
            set.tries(addrs@, timeout),
    {
        let part = match timeout {
            Some(span) => span.checked_div(addrs.len() as u32),
            None => None,
        };
        TcpConnectingSet { addrs, timeout: part }
    }

    /// The time for each attempt.
    pub fn timeout(&self) -> (timeout: Option<Duration>)
        ensures
            timeout == self.spec_timeout(),
    {
        self.timeout
    }

    /// Starts to try the addresses.
    pub fn connect(&self) -> (attempts: SetAttempts<'_>)
        ensures
            attempts.set() == *self,
            attempts.tried() == 0,
            attempts.last_error() is None,
    {
        SetAttempts { set: self, tried: 0, last_error: None }
    }
}

/// Attempts to reach the addresses of a set, one after the other.
#[derive(Debug)]
pub struct SetAttempts<'a> {
    set: &'a TcpConnectingSet,
    tried: usize,
    last_error: Option<TcpConnectionError>,
}

/// What came of an attempt.
#[derive(Debug)]
pub enum AttemptEvent<S> {
    /// The socket could not be set up.
    NotStarted(TcpConnectionError),
    /// The address was reached.
    Connected(S),
    /// The address was not reached.
    Failed(TcpConnectionError),
}

/// What to do next.
#[derive(Debug)]
pub enum AttemptStep<S> {
    /// Try the next address.
    Next,
    /// Be done.
    Done(Result<S, TcpConnectionError>),
}

impl<'a> SetAttempts<'a> {
    /// The set.
    pub closed spec fn set(self) -> TcpConnectingSet {
        *self.set
    }

    /// How many addresses have been tried.
    pub closed spec fn tried(self) -> nat {
        self.tried as nat
    }

    /// How the last attempt failed.
    pub closed spec fn last_error(self) -> Option<TcpConnectionError> {
        self.last_error
    }

    /// The address to try now.
    pub fn address(&self) -> (address: Option<SocketAddr>)
        ensures
            address == (if self.tried() < self.set().spec_addrs().len() {
                Some(self.set().spec_addrs()[self.tried() as int])
            } else {
                None
            }),
    {
        self.set.addrs.get(self.tried)
    }

    /// Takes what came of trying the address. A socket that cannot be set up ends the
    /// attempts; an address that is not reached is passed over.
    pub fn advance<S>(&mut self, event: AttemptEvent<S>) -> (step: AttemptStep<S>)
        requires
            old(self).tried() < old(self).set().spec_addrs().len(),
        ensures
            final(self).set() == old(self).set(),
            match event {
                AttemptEvent::NotStarted(error) => {
                    &&& step == AttemptStep::<S>::Done(Err(error))
                    &&& *final(self) == *old(self)
                },
                AttemptEvent::Connected(stream) => {
                    &&& step == AttemptStep::<S>::Done(Ok(stream))
                    &&& *final(self) == *old(self)
                },
                AttemptEvent::Failed(error) => {
                    &&& step == AttemptStep::<S>::Next
                    &&& final(self).tried() == old(self).tried() + 1
                    &&& final(self).last_error() == Some(error)
                },
            },
    {
        match event {
            AttemptEvent::NotStarted(error) => AttemptStep::Done(Err(error)),
            AttemptEvent::Connected(stream) => AttemptStep::Done(Ok(stream)),
            AttemptEvent::Failed(error) => {
                self.last_error = Some(error);
                if self.tried < self.set.addrs.len() {
                    self.tried = self.tried + 1;
                }
                AttemptStep::Next
            },
        }
    }

    /// What to report where no address was reached: how the last attempt failed.
    pub fn exhausted(self) -> (error: TcpConnectionError)
        ensures
            match self.last_error() {
                Some(last) => error == last,
                None => tcp::is_plain_error(error, "no addresses to connect to"@),
            },
    {
        match self.last_error {
            Some(error) => error,
            None => TcpConnectionError::new("no addresses to connect to".to_owned()),
        }
    }
}

/// Sorts addresses into those to try first and those to fall back on.
pub fn connecting(config: &TcpConnectionConfig, addrs: SocketAddrs) -> (plan: TcpConnecting)
    requires
        addrs@.len() <= u32::MAX,
    ensures
        match config.happy_eyeballs_timeout {
            Some(delay) => {
                let parts = dns::split(
                    addrs@,
                    dns::preferred_version(config.local_address_ipv4, config.local_address_ipv6),
                );
                &&& plan.prefered.tries(parts.0, config.connect_timeout)
                &&& if parts.1.len() == 0 {
                    plan.fallback is None
                } else {
                    &&& plan.fallback matches Some(fallback)
                    &&& fallback.connect.tries(parts.1, config.connect_timeout)
                    &&& fallback.delay == delay
                }
            },
            None => {
                &&& plan.prefered.tries(addrs@, config.connect_timeout)
                &&& plan.fallback is None
            },
        },
{
    match config.happy_eyeballs_timeout {
        Some(delay) => {
            let prefer = IpVersion::from_binding(
                config.local_address_ipv4,
                config.local_address_ipv6,
            );
            proof {
                dns::law_split_keeps_addresses(addrs@, prefer);
            }
            let (prefered, fallback) = addrs.split_prefered(prefer);
            let prefered = TcpConnectingSet::new(prefered, config.connect_timeout);
            if fallback.is_empty() {
                return TcpConnecting { prefered, fallback: None };
            }
            let connect = TcpConnectingSet::new(fallback, config.connect_timeout);
            TcpConnecting { prefered, fallback: Some(TcpFallback { connect, delay }) }
        },
        None => TcpConnecting {
            prefered: TcpConnectingSet::new(addrs, config.connect_timeout),
            fallback: None,
        },
    }
}

/// The race between the addresses to try first and those to fall back on.
#[derive(Debug)]
pub struct TcpRace {
    primary_error: Option<TcpConnectionError>,
    fallback_left: bool,
}

/// What came of one side of a race.
#[derive(Debug)]
pub enum RaceEvent<S> {
    /// The addresses to try first.
    Primary(Result<S, TcpConnectionError>),
    /// The addresses to fall back on.
    Fallback(Result<S, TcpConnectionError>),
}

/// What to do about a race.
#[derive(Debug)]
pub enum RaceStep<S> {
    /// Wait for the side that is left.
    Wait,
    /// Be done.
    Done(Result<S, TcpConnectionError>),
}

impl TcpRace {
    /// How the addresses to try first failed, once they have.
    pub closed spec fn primary_error(self) -> Option<TcpConnectionError> {
        self.primary_error
    }

    /// Whether there are addresses to fall back on that have not failed.
    pub closed spec fn fallback_left(self) -> bool {
        self.fallback_left
    }

    /// Starts a race.
    pub fn new(plan: &TcpConnecting) -> (race: Self)
        ensures
            race.primary_error() is None,
            race.fallback_left() == plan.fallback is Some,
    {
        TcpRace { primary_error: None, fallback_left: plan.fallback.is_some() }
    }

    /// Takes what came of one side. The first connection is used. Where both sides have
    /// failed, or there was only one, the error of the addresses to try first is
    /// reported.
    pub fn advance<S>(self, event: RaceEvent<S>) -> (next: (Option<Self>, RaceStep<S>))
        requires
            event is Primary ==> self.primary_error() is None,
            event is Fallback ==> self.fallback_left(),
        ensures
            match event {
                RaceEvent::Primary(Ok(stream)) => next.1 == RaceStep::<S>::Done(Ok(stream)),
                RaceEvent::Fallback(Ok(stream)) => next.1 == RaceStep::<S>::Done(Ok(stream)),
                RaceEvent::Primary(Err(error)) => if self.fallback_left() {
                    &&& next.1 is Wait
                    &&& next.0 matches Some(race)
                    &&& race.primary_error() == Some(error)
                    &&& race.fallback_left()
                } else {
                    next.1 == RaceStep::<S>::Done(Err(error))
                },
                RaceEvent::Fallback(Err(_)) => match self.primary_error() {
                    Some(error) => next.1 == RaceStep::<S>::Done(Err(error)),
                    None => {
                        &&& next.1 is Wait
                        &&& next.0 matches Some(race)
                        &&& race.primary_error() is None
                        &&& !race.fallback_left()
                    },
                },
            },
    {
        match event {
            RaceEvent::Primary(Ok(stream)) => (None, RaceStep::Done(Ok(stream))),
            RaceEvent::Fallback(Ok(stream)) => (None, RaceStep::Done(Ok(stream))),
            RaceEvent::Primary(Err(error)) => {
                if self.fallback_left {
                    (
                        Some(TcpRace { primary_error: Some(error), fallback_left: true }),
                        RaceStep::Wait,
                    )
                } else {
                    (None, RaceStep::Done(Err(error)))
                }
            },
            RaceEvent::Fallback(Err(_)) => match self.primary_error {
                Some(error) => (None, RaceStep::Done(Err(error))),
                None => (
                    Some(TcpRace { primary_error: None, fallback_left: false }),
                    RaceStep::Wait,
                ),
            },
        }
    }
}

/// The times for the attempts of a set add up to no more than the set has together.
pub proof fn law_attempts_share_the_time(timeout: Duration, count: nat)
    requires
        count > 0,
    ensures
        share_of(Some(timeout), count)->0 * count <= timeout@,
{
    vstd::arithmetic::div_mod::lemma_fundamental_div_mod(timeout@ as int, count as int);
    vstd::arithmetic::mul::lemma_mul_is_commutative(count as int, timeout@ as int / count as int);
}

/// Without a preferred version all addresses are tried first, in the order of the
/// resolver, and there is nothing to fall back on; nor is there where attempts do not run
/// side by side. With one, its addresses are tried first, and those of the other, where
/// there are any, after the delay.
pub proof fn law_fallback_is_the_other_version(
    config: TcpConnectionConfig,
    addrs: SocketAddrs,
    plan: TcpConnecting,
)
    requires
        addrs@.len() <= u32::MAX,
        call_ensures(connecting, (&config, addrs), plan),
    ensures
        config.happy_eyeballs_timeout is None ==> plan.prefered.spec_addrs() == addrs@
            && plan.fallback is None,
        config.local_address_ipv4 is Some == config.local_address_ipv6 is Some
            ==> plan.prefered.spec_addrs() == addrs@ && plan.fallback is None,
        config.happy_eyeballs_timeout is Some && config.local_address_ipv4 is Some
            && config.local_address_ipv6 is None ==> {
            &&& plan.prefered.spec_addrs() == addrs@.filter(|addr: SocketAddr| addr is V4)
            &&& match plan.fallback {
                Some(fallback) => fallback.connect.spec_addrs() == addrs@.filter(
                    |addr: SocketAddr| addr is V6,
                ) && Some(fallback.delay) == config.happy_eyeballs_timeout,
                None => addrs@.filter(|addr: SocketAddr| addr is V6).len() == 0,
            }
        },
        config.happy_eyeballs_timeout is Some && config.local_address_ipv4 is None
            && config.local_address_ipv6 is Some ==> {
            &&& plan.prefered.spec_addrs() == addrs@.filter(|addr: SocketAddr| addr is V6)
            &&& match plan.fallback {
                Some(fallback) => fallback.connect.spec_addrs() == addrs@.filter(
                    |addr: SocketAddr| addr is V4,
                ) && Some(fallback.delay) == config.happy_eyeballs_timeout,
                None => addrs@.filter(|addr: SocketAddr| addr is V4).len() == 0,
            }
        },
{
    assert(dns::has_version(IpVersion::V4) =~= (|addr: SocketAddr| addr is V4));
    assert(dns::has_version(IpVersion::V6) =~= (|addr: SocketAddr| addr is V6));
}

/// The attempts of a set have the time that it was given together, each an equal part;
/// they have no limit where it was given none.
pub proof fn law_set_divides_its_time(
    addrs: SocketAddrs,
    timeout: Option<Duration>,
    set: TcpConnectingSet,
)
    requires
        addrs@.len() <= u32::MAX,
        call_ensures(TcpConnectingSet::new, (addrs, timeout), set),
    ensures
        set.spec_addrs() == addrs@,
        timeout is None ==> set.spec_timeout() is None,
        timeout is Some && addrs@.len() > 0 ==> {
            &&& set.spec_timeout() is Some
            &&& set.spec_timeout()->0@ * addrs@.len() <= timeout->0@
            &&& timeout->0@ < (set.spec_timeout()->0@ + 1) * addrs@.len()
        },
{
    if timeout is Some && addrs@.len() > 0 {
        let time = timeout->0@ as int;
        let count = addrs@.len() as int;
        vstd::arithmetic::div_mod::lemma_fundamental_div_mod(time, count);
        vstd::arithmetic::mul::lemma_mul_is_commutative(count, time / count);
        vstd::arithmetic::mul::lemma_mul_is_distributive_add_other_way(count, time / count, 1);
    }
}

/// The addresses of a set are tried one after the other: one that is reached ends the
/// attempts, one that is not is passed over, and how the last failed is reported once all
/// have failed. A socket that cannot be set up ends them at once.
pub proof fn law_unreached_address_is_passed_over<'a, S>(
    before: SetAttempts<'a>,
    address: Option<SocketAddr>,
    event: AttemptEvent<S>,
    step: AttemptStep<S>,
    after: SetAttempts<'a>,
    next: Option<SocketAddr>,
    error: TcpConnectionError,
)
    requires
        before.tried() < before.set().spec_addrs().len(),
        call_ensures(SetAttempts::<'a>::address, (&before,), address),
        exists|attempts: &mut SetAttempts<'a>|
            *attempts == before && *final(attempts) == after && #[trigger] call_ensures(
                SetAttempts::<'a>::advance::<S>,
                (attempts, event),
                step,
            ),
        call_ensures(SetAttempts::<'a>::address, (&after,), next),
        call_ensures(SetAttempts::<'a>::exhausted, (after,), error),
    ensures
        address == Some(before.set().spec_addrs()[before.tried() as int]),
        event matches AttemptEvent::Connected(stream) ==> step == AttemptStep::<S>::Done(
            Ok(stream),
        ),
        event matches AttemptEvent::NotStarted(why) ==> step == AttemptStep::<S>::Done(Err(why)),
        event matches AttemptEvent::Failed(why) ==> {
            &&& step is Next
            &&& error == why
            &&& before.tried() + 1 < before.set().spec_addrs().len() ==> next == Some(
                before.set().spec_addrs()[before.tried() as int + 1],
            )
            &&& before.tried() + 1 == before.set().spec_addrs().len() ==> next is None
        },
        after.set() == before.set(),
{
}

/// The first side of a race that connects wins. A race is lost only once there is no side
/// left, and then the error of the addresses that were tried first is reported, whichever
/// side failed last.
pub proof fn law_first_connection_wins<S>(
    plan: TcpConnecting,
    race: TcpRace,
    stream: S,
    primary: TcpConnectionError,
    fallback: TcpConnectionError,
    won: (Option<TcpRace>, RaceStep<S>),
    lost_first: (Option<TcpRace>, RaceStep<S>),
    lost_last: (Option<TcpRace>, RaceStep<S>),
)
    requires
        call_ensures(TcpRace::new, (&plan,), race),
        call_ensures(TcpRace::advance::<S>, (race, RaceEvent::Primary(Ok(stream))), won),
        call_ensures(TcpRace::advance::<S>, (race, RaceEvent::Primary(Err(primary))), lost_first),
        plan.fallback is Some && lost_first.0 is Some ==> call_ensures(
            TcpRace::advance::<S>,
            (lost_first.0->0, RaceEvent::Fallback(Err(fallback))),
            lost_last,
        ),
    ensures
        won.1 == RaceStep::<S>::Done(Ok(stream)),
        plan.fallback is None ==> lost_first.1 == RaceStep::<S>::Done(Err(primary)),
        plan.fallback is Some ==> {
            &&& lost_first.1 is Wait
            &&& lost_first.0 is Some
            &&& lost_last.1 == RaceStep::<S>::Done(Err(primary))
        },
{
}

/// The side to fall back on wins where it connects first, and where it fails first the
/// race goes on with the other, whose outcome then decides.
pub proof fn law_fallback_may_win_or_fail<S>(
    plan: TcpConnecting,
    race: TcpRace,
    stream: S,
    fallback: TcpConnectionError,
    outcome: Result<S, TcpConnectionError>,
    won: (Option<TcpRace>, RaceStep<S>),
    failed: (Option<TcpRace>, RaceStep<S>),
    decided: (Option<TcpRace>, RaceStep<S>),
)
    requires
        plan.fallback is Some,
        call_ensures(TcpRace::new, (&plan,), race),
        call_ensures(TcpRace::advance::<S>, (race, RaceEvent::Fallback(Ok(stream))), won),
        call_ensures(TcpRace::advance::<S>, (race, RaceEvent::Fallback(Err(fallback))), failed),
        failed.0 is Some ==> call_ensures(
            TcpRace::advance::<S>,
            (failed.0->0, RaceEvent::Primary(outcome)),
            decided,
        ),
    ensures
        won.1 == RaceStep::<S>::Done(Ok(stream)),
        failed.1 is Wait,
        failed.0 is Some,
        decided.1 == RaceStep::<S>::Done(outcome),
{
}

/// The attempts of a set begin with its first address, each has the time that the set gives
/// it, and a set without addresses has nothing to try.
pub proof fn law_attempts_begin_with_the_first<'a>(
    addrs: SocketAddrs,
    timeout: Option<Duration>,
    set: TcpConnectingSet,
    time: Option<Duration>,
    attempts: SetAttempts<'a>,
    first: Option<SocketAddr>,
    error: TcpConnectionError,
)
    requires
        addrs@.len() <= u32::MAX,
        call_ensures(TcpConnectingSet::new, (addrs, timeout), set),
        call_ensures(TcpConnectingSet::timeout, (&set,), time),
        call_ensures(TcpConnectingSet::connect, (&set,), attempts),
        call_ensures(SetAttempts::<'a>::address, (&attempts,), first),
        call_ensures(SetAttempts::<'a>::exhausted, (attempts,), error),
    ensures
        addrs@.len() > 0 ==> first == Some(addrs@[0]),
        addrs@.len() == 0 ==> first is None,
        timeout is None ==> time is None,
        timeout is Some && addrs@.len() == 1 ==> time is Some && time->0.nanos == timeout->0.nanos,
{
    if timeout is Some && addrs@.len() == 1 {
        assert(timeout->0@ / 1 == timeout->0@);
    }
}

} // verus!
