//! A stream that gives back what was read from it.

use vstd::prelude::*;

use bytes::Bytes;

verus! {

/// Takes the first bytes of a chunk (`bytes::Bytes` as a slice).
#[verifier::external_body]
fn bytes_first(bytes: &Bytes, count: usize) -> (first: Vec<u8>)
    requires
        count <= crate::body::chunk(*bytes).len(),
    ensures
        first@ == crate::body::chunk(*bytes).take(count as int),
{
    bytes[..count].to_vec()
}

/// Calls `Buf::advance` of `bytes::Bytes`, which leaves the first bytes out. It
/// panics where the chunk has fewer.
#[verifier::external_body]
fn bytes_advance(bytes: &mut Bytes, count: usize)
    requires
        count <= crate::body::chunk(*old(bytes)).len(),
    ensures
        crate::body::chunk(*final(bytes)) == crate::body::chunk(*old(bytes)).skip(count as int),
{
    bytes::Buf::advance(bytes, count)
}

/// A stream in front of which some bytes have been put back.
#[derive(Debug)]
pub struct Rewind<R> {
    inner: R,
    prefix: Option<Bytes>,
}

/// The smaller of two lengths.
pub open spec fn at_most(length: nat, room: nat) -> nat {
    if length <= room {
        length
    } else {
        room
    }
}

impl<R> Rewind<R> {
    /// The stream itself.
    pub closed spec fn spec_inner(self) -> R {
        self.inner
    }

    /// The bytes that are read before the stream is.
    pub closed spec fn pending(self) -> Seq<u8> {
        match self.prefix {
            Some(prefix) => crate::body::chunk(prefix),
            None => Seq::empty(),
        }
    }

    /// Puts bytes in front of a stream.
    pub fn new(inner: R, prefix: Bytes) -> (rewind: Self)
        ensures
            rewind.spec_inner() == inner,
            rewind.pending() == crate::body::chunk(prefix),
    {
        Rewind { inner, prefix: Some(prefix) }
    }

    /// The stream itself, to read from where [`Self::poll_read`] says so, and to
    /// write to.
    pub fn inner_mut(&mut self) -> (inner: &mut R)
        ensures
            *inner == old(self).spec_inner(),
            final(self).spec_inner() == *final(inner),
            final(self).pending() == old(self).pending(),
    {
        &mut self.inner
    }

    /// Reads into a buffer with room for `room` bytes: the bytes that were put back
    /// come first, as many as fit. `None` says to read from the stream itself.
    pub fn poll_read(&mut self, room: usize) -> (read: Option<Vec<u8>>)
        ensures
            final(self).spec_inner() == old(self).spec_inner(),
            ({
                let pending = old(self).pending();
                let count = at_most(pending.len(), room as nat) as int;
                match read {
                    Some(bytes) => {
                        &&& pending.len() > 0
                        &&& bytes@ == pending.take(count)
                        &&& final(self).pending() == pending.skip(count)
                    },
                    None => pending.len() == 0 && final(self).pending() == pending,
                }
            }),
    {
        let mut taken: Option<Bytes> = None;
        std::mem::swap(&mut taken, &mut self.prefix);
        if let Some(mut prefix) = taken {
            let length: usize = crate::body::bytes_len(&prefix);
            if length > 0 {
                let count: usize = if length <= room { length } else { room };
                let bytes = bytes_first(&prefix, count);
                bytes_advance(&mut prefix, count);
                if count < length {
                    self.prefix = Some(prefix);
                } else {
                    assert(self.pending() =~= old(self).pending().skip(count as int));
                }
                return Some(bytes);
            }
            assert(self.pending() =~= old(self).pending());
        }
        None
    }
}

/// What reads into buffers of the given sizes give, while bytes that were put back
/// are left.
pub open spec fn given_back(pending: Seq<u8>, rooms: Seq<nat>) -> Seq<u8>
    decreases rooms.len(),
{
    if rooms.len() == 0 {
        Seq::empty()
    } else {
        let count = at_most(pending.len(), rooms[0]) as int;
        pending.take(count) + given_back(pending.skip(count), rooms.skip(1))
    }
}

/// The room in all buffers together.
pub open spec fn total(rooms: Seq<nat>) -> nat
    decreases rooms.len(),
{
    if rooms.len() == 0 {
        0
    } else {
        rooms[0] + total(rooms.skip(1))
    }
}

/// The bytes that were put back come out once each and in order, however large the
/// buffers are.
pub proof fn law_bytes_come_back_in_order(pending: Seq<u8>, rooms: Seq<nat>)
    ensures
        given_back(pending, rooms) == pending.take(at_most(pending.len(), total(rooms)) as int),
    decreases rooms.len(),
{
    if rooms.len() == 0 {
        assert(given_back(pending, rooms) =~= pending.take(0));
    } else {
        let count = at_most(pending.len(), rooms[0]) as int;
        let left = pending.skip(count);
        law_bytes_come_back_in_order(left, rooms.skip(1));
        let more = at_most(left.len(), total(rooms.skip(1))) as int;
        assert(at_most(pending.len(), total(rooms)) == count + more);
        assert(pending.take(count) + left.take(more) =~= pending.take(count + more));
    }
}

/// A read takes the bytes that were put back before it touches the stream: what it gives
/// and what is left are together what was there, nothing is given that does not fit, and
/// as much as fits is given. Only where nothing is left is the stream read.
pub proof fn law_read_gives_the_first_bytes<R>(
    before: Rewind<R>,
    room: usize,
    read: Option<Vec<u8>>,
    after: Rewind<R>,
)
    requires
        exists|rewind: &mut Rewind<R>|
            *rewind == before && *final(rewind) == after && #[trigger] call_ensures(
                Rewind::<R>::poll_read,
                (rewind, room),
                read,
            ),
    ensures
        read is None <==> before.pending().len() == 0,
        read matches Some(bytes) ==> {
            &&& bytes@ + after.pending() == before.pending()
            &&& bytes@.len() <= room
            &&& after.pending().len() > 0 ==> bytes@.len() == room
        },
        read is None ==> after.pending() == before.pending(),
        after.spec_inner() == before.spec_inner(),
{
    if read is Some {
        assert(read->0@ + after.pending() =~= before.pending());
    }
}

/// Two reads in a row give the bytes that were put back in their order, and none twice.
pub proof fn law_reads_go_on_where_they_stopped<R>(
    inner: R,
    prefix: Bytes,
    start: Rewind<R>,
    room: usize,
    first: Option<Vec<u8>>,
    between: Rewind<R>,
    next_room: usize,
    second: Option<Vec<u8>>,
    after: Rewind<R>,
)
    requires
        call_ensures(Rewind::<R>::new, (inner, prefix), start),
        exists|rewind: &mut Rewind<R>|
            *rewind == start && *final(rewind) == between && #[trigger] call_ensures(
                Rewind::<R>::poll_read,
                (rewind, room),
                first,
            ),
        exists|rewind: &mut Rewind<R>|
            *rewind == between && *final(rewind) == after && #[trigger] call_ensures(
                Rewind::<R>::poll_read,
                (rewind, next_room),
                second,
            ),
        first is Some,
        second is Some,
    ensures
        first->0@ + second->0@ + after.pending() == crate::body::chunk(prefix),
        after.spec_inner() == inner,
{
    law_read_gives_the_first_bytes(start, room, first, between);
    law_read_gives_the_first_bytes(between, next_room, second, after);
    assert(first->0@ + second->0@ + after.pending() =~= first->0@ + (second->0@
        + after.pending()));
}

/// A stream with bytes in front of it is the stream that it was made of, and what is done to
/// that leaves the bytes.
pub proof fn law_stream_behind_the_bytes_is_kept<R>(
    inner: R,
    prefix: Bytes,
    made: Rewind<R>,
    before: R,
    other: R,
    changed: Rewind<R>,
)
    requires
        call_ensures(Rewind::<R>::new, (inner, prefix), made),
        exists|m: &mut Rewind<R>, place: &mut R|
            *m == made && *final(m) == changed && *place == before && *final(place) == other
                && #[trigger] call_ensures(Rewind::<R>::inner_mut, (m,), place),
    ensures
        before == inner,
        changed.spec_inner() == other,
        changed.pending() == crate::body::chunk(prefix),
{
}

} // verus!
