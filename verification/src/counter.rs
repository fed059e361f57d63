//! Counters that hand out identifiers.

use vstd::prelude::*;

verus! {

/// The 16-bit identifier that follows `ident`: 0 follows the largest.
pub open spec fn after16(ident: u16) -> u16 {
    if ident == u16::MAX {
        0
    } else {
        (ident + 1) as u16
    }
}

/// The identifier that follows `ident`: 0 follows the largest.
pub open spec fn after(ident: usize) -> usize {
    if ident == usize::MAX {
        0
    } else {
        (ident + 1) as usize
    }
}

/// The 16-bit identifier that is handed out so many steps after `ident`.
pub open spec fn later16(ident: u16, steps: nat) -> u16
    decreases steps,
{
    if steps == 0 {
        ident
    } else {
        after16(later16(ident, (steps - 1) as nat))
    }
}

/// The identifier that is handed out so many steps after `ident`.
pub open spec fn later(ident: usize, steps: nat) -> usize
    decreases steps,
{
    if steps == 0 {
        ident
    } else {
        after(later(ident, (steps - 1) as nat))
    }
}

proof fn lemma_later16_in_one_round(ident: u16, steps: nat)
    requires
        steps <= u16::MAX,
    ensures
        later16(ident, steps) as int == if ident + steps <= u16::MAX {
            ident + steps
        } else {
            ident + steps - u16::MAX - 1
        },
    decreases steps,
{
    if steps > 0 {
        lemma_later16_in_one_round(ident, (steps - 1) as nat);
    }
}

proof fn lemma_later16_adds_up(ident: u16, first: nat, second: nat)
    ensures
        later16(ident, first + second) == later16(later16(ident, first), second),
    decreases second,
{
    if second > 0 {
        lemma_later16_adds_up(ident, first, (second - 1) as nat);
    }
}

proof fn lemma_later_in_one_round(ident: usize, steps: nat)
    requires
        steps <= usize::MAX,
    ensures
        later(ident, steps) as int == if ident + steps <= usize::MAX {
            ident + steps
        } else {
            ident + steps - usize::MAX - 1
        },
    decreases steps,
{
    if steps > 0 {
        lemma_later_in_one_round(ident, (steps - 1) as nat);
    }
}

proof fn lemma_later_adds_up(ident: usize, first: nat, second: nat)
    ensures
        later(ident, first + second) == later(later(ident, first), second),
    decreases second,
{
    if second > 0 {
        lemma_later_adds_up(ident, first, (second - 1) as nat);
    }
}

/// Two 16-bit identifiers of one counter differ, unless all others have been handed out
/// between them.
pub proof fn law_identifiers16_are_unique(ident: u16, first: nat, second: nat)
    requires
        first < second,
        second - first <= u16::MAX,
    ensures
        later16(ident, first) != later16(ident, second),
{
    let distance = (second - first) as nat;
    lemma_later16_adds_up(ident, first, distance);
    lemma_later16_in_one_round(later16(ident, first), distance);
}

/// Two identifiers of one counter differ, unless all others have been handed out between
/// them.
pub proof fn law_identifiers_are_unique(ident: usize, first: nat, second: nat)
    requires
        first < second,
        second - first <= usize::MAX,
    ensures
        later(ident, first) != later(ident, second),
{
    let distance = (second - first) as nat;
    lemma_later_adds_up(ident, first, distance);
    lemma_later_in_one_round(later(ident, first), distance);
}

/// Hands out 16-bit identifiers, starting over once all have been used.
#[derive(Debug)]
pub struct Counter16 {
    next: u16,
}

impl Counter16 {
    /// The identifier that is handed out next.
    pub closed spec fn upcoming(self) -> u16 {
        self.next
    }

    /// A counter that starts at 1.
    pub fn new() -> (counter: Self)
        ensures
            counter.upcoming() == 1,
    {
        Counter16 { next: 1 }
    }

    /// Hands out an identifier.
    pub fn take(&mut self) -> (ident: u16)
        ensures
            ident == old(self).upcoming(),
            final(self).upcoming() == after16(ident),
    {
        let ident: u16 = self.next;
        self.next = ident.wrapping_add(1);
        ident
    }
}

/// Hands out identifiers as wide as a pointer, starting over once all have been used.
#[derive(Debug)]
pub struct Counter {
    next: usize,
}

impl Counter {
    /// The identifier that is handed out next.
    pub closed spec fn upcoming(self) -> usize {
        self.next
    }

    /// A counter that starts at 1.
    pub fn new() -> (counter: Self)
        ensures
            counter.upcoming() == 1,
    {
        Counter { next: 1 }
    }

    /// Hands out an identifier.
    pub fn take(&mut self) -> (ident: usize)
        ensures
            ident == old(self).upcoming(),
            final(self).upcoming() == after(ident),
    {
        let ident: usize = self.next;
        self.next = ident.wrapping_add(1);
        ident
    }
}

/// A counter hands out 1 first, and each time one more than the time before, until it starts
/// over at 0.
pub proof fn law_counter_counts(
    made: Counter,
    first: usize,
    used: Counter,
    before: Counter,
    one: usize,
    between: Counter,
    next: usize,
    after: Counter,
)
    requires
        call_ensures(Counter::new, (), made),
        exists|m: &mut Counter|
            *m == made && *final(m) == used && #[trigger] call_ensures(Counter::take, (m,), first),
        exists|m: &mut Counter|
            *m == before && *final(m) == between && #[trigger] call_ensures(
                Counter::take,
                (m,),
                one,
            ),
        exists|m: &mut Counter|
            *m == between && *final(m) == after && #[trigger] call_ensures(
                Counter::take,
                (m,),
                next,
            ),
    ensures
        first == 1,
        next != one,
        one < usize::MAX ==> next == one + 1,
        one == usize::MAX ==> next == 0,
{
}

/// A 16-bit counter hands out 1 first, and each time one more than the time before, until it
/// starts over at 0.
pub proof fn law_counter16_counts(
    made: Counter16,
    first: u16,
    used: Counter16,
    before: Counter16,
    one: u16,
    between: Counter16,
    next: u16,
    after: Counter16,
)
    requires
        call_ensures(Counter16::new, (), made),
        exists|m: &mut Counter16|
            *m == made && *final(m) == used && #[trigger] call_ensures(
                Counter16::take,
                (m,),
                first,
            ),
        exists|m: &mut Counter16|
            *m == before && *final(m) == between && #[trigger] call_ensures(
                Counter16::take,
                (m,),
                one,
            ),
        exists|m: &mut Counter16|
            *m == between && *final(m) == after && #[trigger] call_ensures(
                Counter16::take,
                (m,),
                next,
            ),
    ensures
        first == 1,
        next != one,
        one < u16::MAX ==> next == one + 1,
        one == u16::MAX ==> next == 0,
{
}

} // verus!
