//! Mock protocol implementation for testing purposes.

use vstd::prelude::*;

use crate::client::conn::stream::mock::{self, MockStream, StreamID};
use crate::client::pool::{PoolableConnection, PoolableStream};
use crate::counter::{self, Counter16};

verus! {

/// A minimal protocol sender for testing purposes.
#[derive(Debug)]
pub struct MockSender {
    id: StreamID,
    stream: MockStream,
}

impl MockSender {
    /// The identifier of the sender.
    pub closed spec fn ident(self) -> StreamID {
        self.id
    }

    /// The stream underneath.
    pub closed spec fn stream(self) -> MockStream {
        self.stream
    }

    /// The unique identifier for the stream.
    pub fn id(&self) -> (id: StreamID)
        ensures
            id == self.ident(),
    {
        self.id
    }

    /// Close the connection and stream, for all copies of the sender.
    pub fn close(&self)
        ensures
            mock::sets(self.stream().flag(), false),
    {
        self.stream.close();
    }

    /// Create a single-use mock sender.
    pub fn single(ids: &mut Counter16) -> (sender: Self)
        ensures
            mock::starts(sender.stream().flag(), true),
            !sender.stream().reusable_stream(),
            sender.ident().number() == old(ids).upcoming(),
            sender.stream().ident().number() == counter::after16(sender.ident().number()),
            final(ids).upcoming() == counter::after16(sender.stream().ident().number()),
    {
        let id = StreamID::new(ids);
        MockSender { id, stream: MockStream::single(ids) }
    }

    /// Create a new reusable mock sender.
    pub fn reusable(ids: &mut Counter16) -> (sender: Self)
        ensures
            mock::starts(sender.stream().flag(), true),
            sender.stream().reusable_stream(),
            sender.ident().number() == old(ids).upcoming(),
            sender.stream().ident().number() == counter::after16(sender.ident().number()),
            final(ids).upcoming() == counter::after16(sender.stream().ident().number()),
    {
        let id = StreamID::new(ids);
        MockSender { id, stream: MockStream::reusable(ids) }
    }

    /// Create a new mock sender.
    pub fn new(ids: &mut Counter16) -> (sender: Self)
        ensures
            mock::starts(sender.stream().flag(), true),
            sender.stream().reusable_stream(),
            sender.ident().number() == old(ids).upcoming(),
            sender.stream().ident().number() == counter::after16(sender.ident().number()),
            final(ids).upcoming() == counter::after16(sender.stream().ident().number()),
    {
        MockSender::reusable(ids)
    }

    /// Answers a request with its own body.
    pub fn send_request<B>(&mut self, body: B) -> (response: B)
        ensures
            response == body,
            *final(self) == *old(self),
    {
        body
    }
}

impl Clone for MockSender {
    fn clone(&self) -> (copy: Self)
        ensures
            copy == *self,
    {
        MockSender { id: self.id, stream: self.stream.clone() }
    }
}

impl PoolableConnection for MockSender {
    open spec fn reports_open(&self, open: bool) -> bool {
        mock::reads(self.stream().flag(), open)
    }

    open spec fn reports_share(&self, share: bool) -> bool {
        share == self.stream().reusable_stream()
    }

    open spec fn reuses(before: Self, after: Self, copy: Option<Self>) -> bool {
        after == before && copy == Some(before)
    }

    fn is_open(&self) -> (open: bool) {
        self.stream.is_open()
    }

    fn can_share(&self) -> (share: bool) {
        self.stream.can_share()
    }

    fn reuse(&mut self) -> (copy: Option<Self>) {
        Some(self.clone())
    }
}

/// A sender and its copies are open and closed together: closing any of them sets the
/// flag that asking any of them reads.
pub proof fn law_copies_close_together(sender: MockSender, copy: MockSender, open: bool)
    requires
        call_ensures(MockSender::clone, (&sender,), copy) || MockSender::reuses(
            sender,
            sender,
            Some(copy),
        ),
    ensures
        copy.ident() == sender.ident(),
        copy.reports_share(sender.stream().reusable_stream()),
        mock::sets(copy.stream().flag(), false) <==> mock::sets(sender.stream().flag(), false),
        copy.reports_open(open) <==> mock::reads(sender.stream().flag(), open),
{
}

/// Error type for the mock protocol.
#[derive(Debug, Clone, Copy, PartialEq, Eq, Structural)]
pub struct MockProtocolError;

impl MockProtocolError {
    /// The error as text.
    pub fn to_string(&self) -> (shown: String)
        ensures
            shown@ == "mock protocol error"@,
    {
        "mock protocol error".to_owned()
    }
}

/// A simple protocol for returning empty responses.
#[derive(Debug, Clone, Copy, PartialEq, Eq, Structural)]
pub struct MockProtocol;

impl Default for MockProtocol {
    fn default() -> (protocol: Self)
        ensures
            protocol == MockProtocol,
    {
        MockProtocol
    }
}

impl MockProtocol {
    /// Starts the protocol on a stream, which always succeeds.
    pub fn call(&mut self, stream: MockStream, ids: &mut Counter16) -> (sender: MockSender)
        ensures
            sender.stream() == stream,
            sender.ident().number() == old(ids).upcoming(),
            final(ids).upcoming() == counter::after16(sender.ident().number()),
            *final(self) == *old(self),
    {
        MockSender { id: StreamID::new(ids), stream }
    }
}

/// A sender answers with the body of the request, is shared exactly when its stream can be
/// reused, is open while its stream is, and leaves a copy of itself.
pub proof fn law_sender_answers_with_the_body<B>(
    stream: MockStream,
    protocol: MockProtocol,
    protocol_after: MockProtocol,
    ids: Counter16,
    used: Counter16,
    sender: MockSender,
    body: B,
    response: B,
    sent: MockSender,
    share: bool,
    stream_share: bool,
    open: bool,
    copy: Option<MockSender>,
    after: MockSender,
)
    requires
        exists|m: &mut MockProtocol, n: &mut Counter16|
            *m == protocol && *final(m) == protocol_after && *n == ids && *final(n) == used
                && #[trigger] call_ensures(MockProtocol::call, (m, stream, n), sender),
        exists|m: &mut MockSender|
            *m == sender && *final(m) == sent && #[trigger] call_ensures(
                MockSender::send_request::<B>,
                (m, body),
                response,
            ),
        call_ensures(MockSender::can_share, (&sender,), share),
        call_ensures(MockStream::can_share, (&stream,), stream_share),
        call_ensures(MockSender::is_open, (&sender,), open),
        exists|m: &mut MockSender|
            *m == sender && *final(m) == after && #[trigger] call_ensures(
                MockSender::reuse,
                (m,),
                copy,
            ),
        call_ensures(MockSender::close, (&sender,), ()),
    ensures
        response == body,
        sent == sender,
        share == stream_share,
        mock::reads(stream.flag(), open),
        mock::sets(stream.flag(), false),
        copy == Some(sender),
        after == sender,
{
}

/// A sender is made for one use or for more, on a stream of its own that is open, and the two
/// have numbers of their own.
pub proof fn law_sender_is_as_it_was_made(
    ids: Counter16,
    one: MockSender,
    used_one: Counter16,
    many: MockSender,
    used_many: Counter16,
    plain: MockSender,
    used_plain: Counter16,
    id: StreamID,
    one_share: bool,
    many_share: bool,
    plain_share: bool,
    shown: String,
)
    requires
        exists|m: &mut Counter16|
            *m == ids && *final(m) == used_one && #[trigger] call_ensures(
                MockSender::single,
                (m,),
                one,
            ),
        exists|m: &mut Counter16|
            *m == used_one && *final(m) == used_many && #[trigger] call_ensures(
                MockSender::reusable,
                (m,),
                many,
            ),
        exists|m: &mut Counter16|
            *m == used_many && *final(m) == used_plain && #[trigger] call_ensures(
                MockSender::new,
                (m,),
                plain,
            ),
        call_ensures(MockSender::id, (&one,), id),
        call_ensures(MockSender::can_share, (&one,), one_share),
        call_ensures(MockSender::can_share, (&many,), many_share),
        call_ensures(MockSender::can_share, (&plain,), plain_share),
        call_ensures(MockProtocolError::to_string, (&MockProtocolError,), shown),
    ensures
        !one_share,
        many_share,
        plain_share,
        mock::starts(one.stream().flag(), true),
        mock::starts(many.stream().flag(), true),
        mock::starts(plain.stream().flag(), true),
        id == one.ident(),
        one.ident().number() != one.stream().ident().number(),
        many.ident().number() != one.ident().number(),
        shown@ == "mock protocol error"@,
{
}

} // verus!
