//! Connections that wait in the pool for their next use.

use vstd::prelude::*;

use crate::client::pool::PoolableConnection;
use crate::time::{Duration, Instant};

verus! {

/// A connection in the pool, with the time at which it was put there.
#[derive(Debug)]
pub struct Idle<T> {
    /// When the connection became idle.
    pub at: Instant,
    /// The connection.
    pub inner: T,
}

impl<T> Idle<T> {
    /// An entry for a connection that became idle at `at`.
    pub fn new(inner: T, at: Instant) -> (idle: Self)
        ensures
            idle.inner == inner,
            idle.at == at,
    {
        Idle { at, inner }
    }
}

/// The point in time before which an idle connection counts as expired: `timeout`
/// before `now`, where a timeout is set, is not empty, and the clock reaches back
/// that far.
pub open spec fn expiry(timeout: Option<Duration>, now: Instant) -> Option<nat> {
    match timeout {
        Some(span) if span@ > 0 && span@ <= now@ => Some((now@ - span@) as nat),
        _ => None,
    }
}

/// Whether an entry has been idle for longer than the pool allows.
pub open spec fn expired<T>(entry: Idle<T>, expiry: Option<nat>) -> bool {
    expiry matches Some(cutoff) && entry.at@ < cutoff
}

/// Whether an entry was looked at and passed over: still fresh, but reported closed.
pub open spec fn passed_over<T: PoolableConnection>(entry: Idle<T>, expiry: Option<nat>) -> bool {
    !expired(entry, expiry) && entry.inner.reports_open(false)
}

/// How a search of the idle entries from the newest to the oldest may end.
///
/// `Some(connection)`: entry `k` was fresh and reported open, all newer ones were
/// passed over, and the older ones remain. `None`: either every entry was passed
/// over, or the search met an expired entry, behind which all are older still;
/// nothing remains.
pub open spec fn searched<T: PoolableConnection>(
    before: Seq<Idle<T>>,
    expiry: Option<nat>,
    after: Seq<Idle<T>>,
    found: Option<T>,
) -> bool {
    exists|k: int|
        #![trigger search_ended_at(before, expiry, after, found, k)]
        search_ended_at(before, expiry, after, found, k)
}

/// The search ended at entry `k`, or ran off the end where `k` is -1.
pub open spec fn search_ended_at<T: PoolableConnection>(
    before: Seq<Idle<T>>,
    expiry: Option<nat>,
    after: Seq<Idle<T>>,
    found: Option<T>,
    k: int,
) -> bool {
    &&& -1 <= k < before.len()
    &&& forall|j: int| k < j < before.len() ==> passed_over(#[trigger] before[j], expiry)
    &&& match found {
        Some(connection) => {
            &&& 0 <= k
            &&& connection == before[k].inner
            &&& connection.reports_open(true)
            &&& !expired(before[k], expiry)
            &&& after == before.take(k)
        },
        None => {
            &&& k == -1 || expired(before[k], expiry)
            &&& after == Seq::<Idle<T>>::empty()
        },
    }
}

/// The idle connections to one host, oldest first.
#[derive(Debug)]
pub struct IdleConnections<T> {
    inner: Vec<Idle<T>>,
}

impl<T> View for IdleConnections<T> {
    type V = Seq<Idle<T>>;

    closed spec fn view(&self) -> Seq<Idle<T>> {
        self.inner@
    }
}

impl<T> Default for IdleConnections<T> {
    fn default() -> (list: Self)
        ensures
            list@ == Seq::<Idle<T>>::empty(),
    {
        IdleConnections { inner: Vec::new() }
    }
}

impl<T> IdleConnections<T> {
    /// Adds a connection that became idle at `at`.
    pub fn push(&mut self, inner: T, at: Instant)
        ensures
            final(self)@ == old(self)@.push(Idle { at, inner }),
    {
        self.inner.push(Idle::new(inner, at));
    }

    /// Takes out the newest connection that is open and not expired, dropping the
    /// closed ones on the way. Meeting an expired entry empties the list.
    pub fn pop(&mut self, idle_timeout: Option<Duration>, now: Instant) -> (found: Option<T>) where
        T: PoolableConnection,

        ensures
            searched(old(self)@, expiry(idle_timeout, now), final(self)@, found),
    {
        let mut empty = false;
        let mut idle_entry: Option<T> = None;
        let ghost before = self@;
        let ghost cutoff = expiry(idle_timeout, now);
        let ghost mut end: int = before.len() - 1;

        if !self.is_empty() {
            let limit: Option<Instant> = match idle_timeout {
                Some(timeout) => if timeout.is_zero() {
                    None
                } else {
                    now.checked_sub(timeout)
                },
                None => None,
            };

            loop
                invariant_except_break
                    !empty,
                    idle_entry is None,
                    self.inner@ == before.take(end + 1),
                    -1 <= end < before.len(),
                    match limit {
                        Some(point) => cutoff == Some(point@),
                        None => cutoff is None,
                    },
                    forall|j: int| end < j < before.len() ==> passed_over(#[trigger] before[j], cutoff),
                ensures
                    -1 <= end < before.len(),
                    forall|j: int| end < j < before.len() ==> passed_over(#[trigger] before[j], cutoff),
                    idle_entry matches Some(connection) ==> {
                        &&& 0 <= end
                        &&& !empty
                        &&& connection == before[end].inner
                        &&& connection.reports_open(true)
                        &&& !expired(before[end], cutoff)
                        &&& self.inner@ == before.take(end)
                    },
                    idle_entry is None ==> {
                        ||| end == -1 && self.inner@.len() == 0
                        ||| empty && 0 <= end && expired(before[end], cutoff)
                    },
                decreases self.inner@.len(),
            {
                let entry = match self.inner.pop() {
                    Some(entry) => entry,
                    None => break,
                };
                let late = match limit {
                    Some(point) => entry.at.nanos < point.nanos,
                    None => false,
                };
                if late {
                    empty = true;
                    break;
                }
                if entry.inner.is_open() {
                    idle_entry = Some(entry.inner);
                    break;
                }
                proof {
                    end = end - 1;
                    assert(self.inner@ =~= before.take(end + 1));
                }
            }
            empty = empty || self.is_empty();
        } else {
            proof {
                end = -1;
            }
        }

        if empty {
            self.clear();
        }
        proof {
            if idle_entry is Some {
                assert(self@ =~= before.take(end));
            } else {
                assert(self@ =~= Seq::empty());
            }
            assert(search_ended_at(before, cutoff, self@, idle_entry, end));
        }
        idle_entry
    }

    /// How many connections are idle.
    pub fn len(&self) -> (len: usize)
        ensures
            len == self@.len(),
    {
        self.inner.len()
    }

    /// Whether no connection is idle.
    pub fn is_empty(&self) -> (empty: bool)
        ensures
            empty == (self@.len() == 0),
    {
        self.inner.len() == 0
    }

    /// Drops all connections.
    pub fn clear(&mut self)
        ensures
            final(self)@ == Seq::<Idle<T>>::empty(),
    {
        self.inner.clear();
    }
}

/// What was added last is taken out first, where it is open and has not been idle for longer
/// than the limit; a limit of zero, or none, is no limit. What was added before it stays.
pub proof fn law_last_in_is_first_out<T: PoolableConnection>(
    before: IdleConnections<T>,
    connection: T,
    at: Instant,
    between: IdleConnections<T>,
    limit: Option<Duration>,
    now: Instant,
    found: Option<T>,
    after: IdleConnections<T>,
)
    requires
        exists|m: &mut IdleConnections<T>|
            *m == before && *final(m) == between && #[trigger] call_ensures(
                IdleConnections::<T>::push,
                (m, connection, at),
                (),
            ),
        exists|m: &mut IdleConnections<T>|
            *m == between && *final(m) == after && #[trigger] call_ensures(
                IdleConnections::<T>::pop,
                (m, limit, now),
                found,
            ),
    ensures
        between@ == before@.push(Idle { at, inner: connection }),
        found matches Some(found) ==> found.reports_open(true),
        (limit is None || limit->0.nanos == 0 || at.nanos + limit->0.nanos >= now.nanos)
            && !connection.reports_open(false) ==> found == Some(connection) && after@ == before@,
        limit is Some && limit->0.nanos > 0 && at.nanos + limit->0.nanos < now.nanos ==> found is None
            && after@.len() == 0,
        found is None ==> after@.len() == 0,
{
    let entries = between@;
    let cutoff = expiry(limit, now);
    let k = choose|k: int| #[trigger] search_ended_at(entries, cutoff, after@, found, k);
    assert(search_ended_at(entries, cutoff, after@, found, k));
    let last = entries.len() - 1;
    if k < last {
        assert(passed_over(entries[last], cutoff));
    } else {
        assert(entries.take(last) =~= before@);
    }
}

/// A list counts what was added to it and not taken out; a new one and one that was cleared
/// hold nothing, and give nothing out.
pub proof fn law_list_counts_its_connections<T: PoolableConnection>(
    made: IdleConnections<T>,
    limit: Option<Duration>,
    now: Instant,
    none: Option<T>,
    drained: IdleConnections<T>,
    before: IdleConnections<T>,
    counted: usize,
    empty: bool,
    connection: T,
    at: Instant,
    after: IdleConnections<T>,
    recounted: usize,
    cleared: IdleConnections<T>,
    left: usize,
)
    requires
        call_ensures(IdleConnections::<T>::default, (), made),
        exists|m: &mut IdleConnections<T>|
            *m == made && *final(m) == drained && #[trigger] call_ensures(
                IdleConnections::<T>::pop,
                (m, limit, now),
                none,
            ),
        call_ensures(IdleConnections::<T>::len, (&before,), counted),
        call_ensures(IdleConnections::<T>::is_empty, (&before,), empty),
        exists|m: &mut IdleConnections<T>|
            *m == before && *final(m) == after && #[trigger] call_ensures(
                IdleConnections::<T>::push,
                (m, connection, at),
                (),
            ),
        call_ensures(IdleConnections::<T>::len, (&after,), recounted),
        exists|m: &mut IdleConnections<T>|
            *m == after && *final(m) == cleared && #[trigger] call_ensures(
                IdleConnections::<T>::clear,
                (m,),
                (),
            ),
        call_ensures(IdleConnections::<T>::len, (&cleared,), left),
    ensures
        none is None,
        recounted == counted + 1,
        empty <==> counted == 0,
        left == 0,
{
}

} // verus!
