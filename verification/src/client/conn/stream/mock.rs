//! Mock stream connection for testing.
//!
//! Mock streams have no internal functionality, but can be used to test places where a
//! connection is none-the-less required.

use std::sync::atomic::{AtomicBool, Ordering};
use std::sync::Arc;

use vstd::prelude::*;

use crate::client::pool::{PoolableConnection, PoolableStream};
use crate::counter::{self, Counter16};
use crate::info::{ConnectionInfo, HasConnectionInfo, TlsConnectionInfo};
use crate::text;

verus! {

/// A unique identifier for a stream.
#[derive(Debug, Clone, Copy, PartialEq, Eq, Structural)]
pub struct StreamID(u16);

impl StreamID {
    /// The number of the stream.
    pub closed spec fn number(self) -> u16 {
        self.0
    }

    /// Create a new stream identifier, unique until the counter starts over.
    pub fn new(ids: &mut Counter16) -> (id: Self)
        ensures
            id.number() == old(ids).upcoming(),
            final(ids).upcoming() == counter::after16(id.number()),
    {
        StreamID(ids.take())
    }

    /// The identifier as text.
    pub fn to_string(&self) -> (shown: String)
        ensures
            shown@ == "stream-"@ + text::digits(self.number() as nat),
    {
        text::join("stream-", text::decimal(self.0 as u128).as_str())
    }
}

/// Calls the `Clone` of [`std::sync::Arc`], which makes another handle on the same
/// flag.
#[verifier::external_body]
pub(crate) fn share_flag(flag: &Arc<AtomicBool>) -> (other: Arc<AtomicBool>)
    ensures
        other == *flag,
{
    flag.clone()
}

/// Whether reading a flag may give `value`. Whoever shares the flag may set it between
/// two readings.
pub open spec fn reads(flag: Arc<AtomicBool>, value: bool) -> bool {
    call_ensures(AtomicBool::load, (&*flag, Ordering::SeqCst), value)
}

/// Whether a flag was made with `value`.
pub open spec fn starts(flag: Arc<AtomicBool>, value: bool) -> bool {
    call_ensures(AtomicBool::new, (value,), *flag)
}

/// Whether a flag was set to `value`, for all who share it.
pub open spec fn sets(flag: Arc<AtomicBool>, value: bool) -> bool {
    call_ensures(AtomicBool::store, (&*flag, value, Ordering::SeqCst), ())
}

/// A mock stream connection for testing.
#[derive(Debug)]
pub struct MockStream {
    open: Arc<AtomicBool>,
    reuse: bool,
    ident: StreamID,
}

impl MockStream {
    /// The flag that says whether the stream is open, which all copies share.
    pub closed spec fn flag(self) -> Arc<AtomicBool> {
        self.open
    }

    /// Whether the stream can be reused.
    pub closed spec fn reusable_stream(self) -> bool {
        self.reuse
    }

    /// The identifier of the stream.
    pub closed spec fn ident(self) -> StreamID {
        self.ident
    }

    /// Get a unique ID for this connection stream.
    ///
    /// This is useful for testing that a stream which is re-used is indeed the same
    /// stream.
    pub fn id(&self) -> (id: StreamID)
        ensures
            id == self.ident(),
    {
        self.ident
    }

    /// Create a new mock stream connection, which is open.
    pub fn new(reuse: bool, ids: &mut Counter16) -> (stream: Self)
        ensures
            starts(stream.flag(), true),
            stream.reusable_stream() == reuse,
            stream.ident().number() == old(ids).upcoming(),
            final(ids).upcoming() == counter::after16(old(ids).upcoming()),
    {
        MockStream { open: Arc::new(AtomicBool::new(true)), reuse, ident: StreamID::new(ids) }
    }

    /// Create a new single-use mock stream connection.
    pub fn single(ids: &mut Counter16) -> (stream: Self)
        ensures
            starts(stream.flag(), true),
            !stream.reusable_stream(),
            stream.ident().number() == old(ids).upcoming(),
            final(ids).upcoming() == counter::after16(old(ids).upcoming()),
    {
        MockStream::new(false, ids)
    }

    /// Create a new reusable mock stream connection.
    pub fn reusable(ids: &mut Counter16) -> (stream: Self)
        ensures
            starts(stream.flag(), true),
            stream.reusable_stream(),
            stream.ident().number() == old(ids).upcoming(),
            final(ids).upcoming() == counter::after16(old(ids).upcoming()),
    {
        MockStream::new(true, ids)
    }

    /// Whether the connection is open. Any copy of the stream may close it.
    pub fn is_open(&self) -> (open: bool)
        ensures
            reads(self.flag(), open),
    {
        self.open.load(Ordering::SeqCst)
    }

    /// Close the connection, for all copies of the stream. The flag that they share is
    /// set; nothing sets it back.
    pub fn close(&self)
        ensures
            sets(self.flag(), false),
    {
        self.open.store(false, Ordering::SeqCst);
    }
}

impl Clone for MockStream {
    fn clone(&self) -> (copy: Self)
        ensures
            copy == *self,
    {
        MockStream { open: share_flag(&self.open), reuse: self.reuse, ident: self.ident }
    }
}

impl PoolableStream for MockStream {
    open spec fn stream_reports_share(&self, share: bool) -> bool {
        share == self.reusable_stream()
    }

    fn can_share(&self) -> (share: bool) {
        self.reuse
    }
}

/// A mock connection for testing.
#[derive(Debug)]
pub struct MockConnection {
    stream: MockStream,
}

impl MockConnection {
    /// The stream underneath.
    pub closed spec fn stream(self) -> MockStream {
        self.stream
    }

    /// Create a new mock connection.
    pub fn new(stream: MockStream) -> (connection: Self)
        ensures
            connection.stream() == stream,
    {
        MockConnection { stream }
    }

    /// Close the connection, and with it all copies of its stream.
    pub fn close(&self)
        ensures
            sets(self.stream().flag(), false),
    {
        self.stream.close();
    }

    /// Get the unique ID for this connection stream.
    pub fn id(&self) -> (id: StreamID)
        ensures
            id == self.stream().ident(),
    {
        self.stream.id()
    }

    /// Create a new single-use mock connection.
    pub fn single(ids: &mut Counter16) -> (connection: Self)
        ensures
            starts(connection.stream().flag(), true),
            !connection.stream().reusable_stream(),
            connection.stream().ident().number() == old(ids).upcoming(),
            final(ids).upcoming() == counter::after16(old(ids).upcoming()),
    {
        MockConnection::new(MockStream::single(ids))
    }

    /// Create a new reusable mock connection.
    pub fn reusable(ids: &mut Counter16) -> (connection: Self)
        ensures
            starts(connection.stream().flag(), true),
            connection.stream().reusable_stream(),
            connection.stream().ident().number() == old(ids).upcoming(),
            final(ids).upcoming() == counter::after16(old(ids).upcoming()),
    {
        MockConnection::new(MockStream::reusable(ids))
    }
}

impl PoolableConnection for MockConnection {
    open spec fn reports_open(&self, open: bool) -> bool {
        reads(self.stream().flag(), open)
    }

    open spec fn reports_share(&self, share: bool) -> bool {
        share == self.stream().reusable_stream()
    }

    open spec fn reuses(before: Self, after: Self, copy: Option<Self>) -> bool {
        after == before && copy == if before.stream().reusable_stream() {
            Some(before)
        } else {
            None
        }
    }

    fn is_open(&self) -> (open: bool) {
        self.stream.is_open()
    }

    fn can_share(&self) -> (share: bool) {
        self.stream.reuse
    }

    fn reuse(&mut self) -> (copy: Option<Self>) {
        if self.stream.reuse {
            Some(MockConnection::new(self.stream.clone()))
        } else {
            None
        }
    }
}

/// A connection on a stream, the stream itself, and every copy of either are open and
/// closed together: they are one stream with one flag, which starts the same for all of
/// them, which closing any of them sets, and which asking any of them reads.
pub proof fn law_copies_close_together(
    stream: MockStream,
    copy: MockStream,
    connection: MockConnection,
    reused: MockConnection,
    open: bool,
)
    requires
        call_ensures(MockStream::clone, (&stream,), copy),
        call_ensures(MockConnection::new, (stream,), connection),
        stream.reusable_stream() ==> MockConnection::reuses(connection, connection, Some(reused)),
        !stream.reusable_stream() ==> reused == connection,
    ensures
        copy.ident() == stream.ident(),
        connection.stream().ident() == stream.ident(),
        connection.reports_share(copy.reusable_stream()),
        starts(connection.stream().flag(), open) <==> starts(copy.flag(), open),
        starts(reused.stream().flag(), open) <==> starts(copy.flag(), open),
        sets(connection.stream().flag(), false) <==> sets(copy.flag(), false),
        sets(reused.stream().flag(), false) <==> sets(copy.flag(), false),
        connection.reports_open(open) <==> reads(copy.flag(), open),
        reused.reports_open(open) <==> reads(copy.flag(), open),
{
}

/// A mock address for testing.
#[derive(Debug, Clone, Copy, PartialEq, Eq, Structural)]
pub struct MockAddress;

impl Default for MockAddress {
    fn default() -> (address: Self)
        ensures
            address == MockAddress,
    {
        MockAddress
    }
}

impl MockAddress {
    /// The address as text.
    pub fn to_string(&self) -> (shown: String)
        ensures
            shown@ == "mock://"@,
    {
        "mock://".to_owned()
    }
}

impl HasConnectionInfo for MockStream {
    type Addr = MockAddress;

    open spec fn ends(&self) -> ConnectionInfo<MockAddress> {
        ConnectionInfo { local_addr: MockAddress, remote_addr: MockAddress }
    }

    fn info(&self) -> (info: ConnectionInfo<MockAddress>) {
        ConnectionInfo::new(MockAddress, MockAddress)
    }
}

/// Wraps a stream with TLS for testing, with a no-op handshake.
#[derive(Debug)]
pub struct MockTls<IO> {
    inner: IO,
    info: TlsConnectionInfo,
}

impl<IO> MockTls<IO> {
    /// The stream and its info.
    pub closed spec fn parts(self) -> (IO, TlsConnectionInfo) {
        (self.inner, self.info)
    }

    /// Create a new mock TLS stream.
    pub fn new(inner: IO, info: TlsConnectionInfo) -> (stream: Self)
        ensures
            stream.parts() == (inner, info),
    {
        MockTls { inner, info }
    }

    /// The stream inside.
    pub fn inner(&self) -> (inner: &IO)
        ensures
            inner == self.parts().0,
    {
        &self.inner
    }

    /// What was settled in the handshake.
    pub fn tls_info(&self) -> (info: Option<&TlsConnectionInfo>)
        ensures
            info == Some(&self.parts().1),
    {
        Some(&self.info)
    }
}

/// A stream is open when it is made, can be shared exactly when it was made so, and has the
/// next number; asking it reads the flag that closing it sets, and the connection on it is
/// asked, shared and closed as the stream is.
pub proof fn law_stream_is_as_it_was_made(
    reuse: bool,
    ids: Counter16,
    stream: MockStream,
    used: Counter16,
    share: bool,
    open: bool,
    id: StreamID,
    connection: MockConnection,
    connection_share: bool,
    connection_open: bool,
    connection_id: StreamID,
    copy: Option<MockConnection>,
    after: MockConnection,
)
    requires
        exists|m: &mut Counter16|
            *m == ids && *final(m) == used && #[trigger] call_ensures(
                MockStream::new,
                (reuse, m),
                stream,
            ),
        call_ensures(MockStream::can_share, (&stream,), share),
        call_ensures(MockStream::is_open, (&stream,), open),
        call_ensures(MockStream::id, (&stream,), id),
        call_ensures(MockStream::close, (&stream,), ()),
        call_ensures(MockConnection::new, (stream,), connection),
        call_ensures(MockConnection::can_share, (&connection,), connection_share),
        call_ensures(MockConnection::is_open, (&connection,), connection_open),
        call_ensures(MockConnection::id, (&connection,), connection_id),
        exists|m: &mut MockConnection|
            *m == connection && *final(m) == after && #[trigger] call_ensures(
                MockConnection::reuse,
                (m,),
                copy,
            ),
        call_ensures(MockConnection::close, (&connection,), ()),
    ensures
        call_ensures(AtomicBool::new, (true,), *stream.flag()),
        share == reuse,
        call_ensures(AtomicBool::load, (&*stream.flag(), Ordering::SeqCst), open),
        call_ensures(AtomicBool::store, (&*stream.flag(), false, Ordering::SeqCst), ()),
        connection_share == reuse,
        call_ensures(AtomicBool::load, (&*stream.flag(), Ordering::SeqCst), connection_open),
        connection_id == id,
        reuse ==> copy == Some(connection),
        !reuse ==> copy is None,
        after == connection,
{
    assert(starts(stream.flag(), true));
    assert(reads(stream.flag(), open));
    assert(sets(stream.flag(), false));
    assert(reads(stream.flag(), connection_open));
}

/// Streams are numbered one after the other, and named by their numbers.
pub proof fn law_streams_are_numbered(
    ids: Counter16,
    first: StreamID,
    between: Counter16,
    second: StreamID,
    after: Counter16,
    shown: String,
    number: String,
    address: String,
)
    requires
        exists|m: &mut Counter16|
            *m == ids && *final(m) == between && #[trigger] call_ensures(StreamID::new, (m,), first),
        exists|m: &mut Counter16|
            *m == between && *final(m) == after && #[trigger] call_ensures(
                StreamID::new,
                (m,),
                second,
            ),
        call_ensures(StreamID::to_string, (&first,), shown),
        call_ensures(text::decimal, (first.number() as u128,), number),
        call_ensures(MockAddress::to_string, (&MockAddress,), address),
    ensures
        second.number() != first.number(),
        first.number() < u16::MAX ==> second.number() == first.number() + 1,
        shown@ == "stream-"@ + number@,
        address@ == "mock://"@,
{
}

/// An encrypted stream has the stream inside, and what was settled in its handshake.
pub proof fn law_encrypted_stream_has_its_parts<IO>(
    inner: IO,
    info: TlsConnectionInfo,
    stream: MockTls<IO>,
    found: &IO,
    told: Option<&TlsConnectionInfo>,
)
    requires
        call_ensures(MockTls::<IO>::new, (inner, info), stream),
        call_ensures(MockTls::<IO>::inner, (&stream,), found),
        call_ensures(MockTls::<IO>::tls_info, (&stream,), told),
    ensures
        *found == inner,
        told == Some(&info),
{
}

/// A stream or a connection that is made for one use or for more is so, is open, and has the
/// next number; both ends of a stream are the mock address.
pub proof fn law_stream_is_made_as_named(
    ids: Counter16,
    one: MockStream,
    second_ids: Counter16,
    many: MockStream,
    third_ids: Counter16,
    alone: MockConnection,
    fourth_ids: Counter16,
    together: MockConnection,
    last_ids: Counter16,
    one_share: bool,
    many_share: bool,
    alone_share: bool,
    together_share: bool,
)
    requires
        exists|m: &mut Counter16|
            *m == ids && *final(m) == second_ids && #[trigger] call_ensures(
                MockStream::single,
                (m,),
                one,
            ),
        exists|m: &mut Counter16|
            *m == second_ids && *final(m) == third_ids && #[trigger] call_ensures(
                MockStream::reusable,
                (m,),
                many,
            ),
        exists|m: &mut Counter16|
            *m == third_ids && *final(m) == fourth_ids && #[trigger] call_ensures(
                MockConnection::single,
                (m,),
                alone,
            ),
        exists|m: &mut Counter16|
            *m == fourth_ids && *final(m) == last_ids && #[trigger] call_ensures(
                MockConnection::reusable,
                (m,),
                together,
            ),
        call_ensures(MockStream::can_share, (&one,), one_share),
        call_ensures(MockStream::can_share, (&many,), many_share),
        call_ensures(MockConnection::can_share, (&alone,), alone_share),
        call_ensures(MockConnection::can_share, (&together,), together_share),
    ensures
        !one_share && many_share && !alone_share && together_share,
        call_ensures(AtomicBool::new, (true,), *one.flag()),
        call_ensures(AtomicBool::new, (true,), *many.flag()),
        call_ensures(AtomicBool::new, (true,), *alone.stream().flag()),
        call_ensures(AtomicBool::new, (true,), *together.stream().flag()),
        many.ident().number() != one.ident().number(),
        together.stream().ident().number() != alone.stream().ident().number(),
{
    assert(starts(one.flag(), true));
    assert(starts(many.flag(), true));
    assert(starts(alone.stream().flag(), true));
    assert(starts(together.stream().flag(), true));
}

} // verus!
