//! Time as plain numbers of nanoseconds.

use vstd::prelude::*;

verus! {

/// A span of time.
#[derive(Debug, Clone, Copy, PartialEq, Eq, Structural)]
pub struct Duration {
    /// How many nanoseconds the span lasts.
    pub nanos: u128,
}

impl View for Duration {
    type V = nat;

    open spec fn view(&self) -> nat {
        self.nanos as nat
    }
}

impl Duration {
    /// A span of whole seconds.
    pub fn from_secs(secs: u64) -> (span: Self)
        ensures
            span@ == secs as nat * 1_000_000_000,
    {
        Duration { nanos: secs as u128 * 1_000_000_000 }
    }

    /// A span of whole milliseconds.
    pub fn from_millis(millis: u64) -> (span: Self)
        ensures
            span@ == millis as nat * 1_000_000,
    {
        Duration { nanos: millis as u128 * 1_000_000 }
    }

    /// Whether the span is empty.
    pub fn is_zero(&self) -> (zero: bool)
        ensures
            zero == (self@ == 0),
    {
        self.nanos == 0
    }

    /// The span in whole milliseconds, rounded down.
    pub fn as_millis(&self) -> (millis: u128)
        ensures
            millis as nat == self@ / 1_000_000,
    {
        self.nanos / 1_000_000
    }

    /// The span cut into `parts` equal parts, rounded down; `None` for no parts.
    pub fn checked_div(&self, parts: u32) -> (part: Option<Self>)
        ensures
            parts == 0 ==> part is None,
            parts > 0 ==> part is Some && part->0@ == self@ / (parts as nat),
    {
        if parts == 0 {
            None
        } else {
            Some(Duration { nanos: self.nanos / (parts as u128) })
        }
    }
}

/// A point in time, counted from the moment that a [`Clock`] was started.
#[derive(Debug, Clone, Copy, PartialEq, Eq, Structural)]
pub struct Instant {
    /// How many nanoseconds have passed since the clock was started.
    pub nanos: u128,
}

impl View for Instant {
    type V = nat;

    open spec fn view(&self) -> nat {
        self.nanos as nat
    }
}

impl Instant {
    /// The point in time that lies `span` before this one; `None` where the clock
    /// had not been started by then.
    pub fn checked_sub(&self, span: Duration) -> (earlier: Option<Self>)
        ensures
            earlier is None <==> self@ < span@,
            earlier matches Some(point) ==> point@ == self@ - span@,
    {
        if self.nanos < span.nanos {
            None
        } else {
            Some(Instant { nanos: self.nanos - span.nanos })
        }
    }
}

/// The monotonic clock of the standard library.
#[verifier::external_type_specification]
#[verifier::external_body]
pub struct ExInstant(std::time::Instant);

/// Reads [`std::time::Instant::now`]. What it returns depends on the moment of
/// the call, so nothing is claimed of it.
#[verifier::external_body]
fn monotonic_now() -> std::time::Instant {
    std::time::Instant::now()
}

/// Reads [`std::time::Instant::elapsed`] as a number of nanoseconds. What it
/// returns depends on the moment of the call, so nothing is claimed of it.
#[verifier::external_body]
fn nanos_since(origin: &std::time::Instant) -> u128 {
    origin.elapsed().as_nanos()
}

/// A clock that counts from the moment it was started.
#[derive(Debug, Clone, Copy)]
pub struct Clock {
    origin: std::time::Instant,
}

impl Clock {
    /// Whether the clock was started at a moment that the monotonic clock may have
    /// shown.
    pub closed spec fn started(self) -> bool {
        call_ensures(monotonic_now, (), self.origin)
    }

    /// Whether a reading may give `now`: so much time may have passed since the clock
    /// was started.
    pub closed spec fn shows(self, now: Instant) -> bool {
        call_ensures(nanos_since, (&self.origin,), now.nanos)
    }

    /// Starts a clock.
    pub fn new() -> (clock: Self)
        ensures
            clock.started(),
    {
        Clock { origin: monotonic_now() }
    }

    /// Reads the clock. Two readings may differ in any way that time allows.
    pub fn now(&self) -> (now: Instant)
        ensures
            self.shows(now),
    {
        Instant { nanos: nanos_since(&self.origin) }
    }
}

/// A span is as long however it is counted: a thousand milliseconds are a second, and a span
/// of so many milliseconds has so many. Only the span of nothing is empty.
pub proof fn law_seconds_are_milliseconds(
    secs: u64,
    millis: u64,
    first: Duration,
    second: Duration,
    counted: u128,
    zero: bool,
)
    requires
        millis == secs * 1000,
        call_ensures(Duration::from_secs, (secs,), first),
        call_ensures(Duration::from_millis, (millis,), second),
        call_ensures(Duration::as_millis, (&second,), counted),
        call_ensures(Duration::is_zero, (&second,), zero),
    ensures
        first == second,
        counted == millis,
        zero <==> millis == 0,
        first.nanos == secs * 1_000_000_000,
{
    assert(first.nanos == second.nanos);
}

/// Counting a span in milliseconds leaves out less than one.
pub proof fn law_milliseconds_round_down(span: Duration, millis: u128)
    requires
        call_ensures(Duration::as_millis, (&span,), millis),
    ensures
        millis * 1_000_000 <= span.nanos < (millis + 1) * 1_000_000,
{
}

/// The parts of a span together are no longer than the span, and one nanosecond more for
/// each would be too long. No span has no parts.
pub proof fn law_parts_fill_the_span(span: Duration, parts: u32, part: Option<Duration>)
    requires
        call_ensures(Duration::checked_div, (&span, parts), part),
    ensures
        part is None <==> parts == 0,
        part matches Some(part) ==> parts * part.nanos <= span.nanos < parts * (part.nanos + 1),
{
    if parts > 0 {
        let total = span.nanos as int;
        let count = parts as int;
        vstd::arithmetic::div_mod::lemma_fundamental_div_mod(total, count);
        vstd::arithmetic::div_mod::lemma_mod_bound(total, count);
        let each = total / count;
        assert(count * (each + 1) == count * each + count) by (nonlinear_arith);
    }
}

/// The span behind an earlier point leads back to the later one. There is no such point
/// where the span is longer than the time that has passed.
pub proof fn law_earlier_point_lies_a_span_before(
    point: Instant,
    span: Duration,
    earlier: Option<Instant>,
)
    requires
        call_ensures(Instant::checked_sub, (&point, span), earlier),
    ensures
        earlier is None <==> point.nanos < span.nanos,
        earlier matches Some(earlier) ==> earlier.nanos + span.nanos == point.nanos,
{
}

} // verus!
