//! Connections that go nowhere, to try a pool with.

use std::sync::atomic::{AtomicBool, Ordering};
use std::sync::Arc;

use vstd::prelude::*;

use crate::client::conn::stream::mock::{self, share_flag};
use crate::client::pool::{PoolableConnection, PoolableStream};
use crate::counter::{self, Counter16};
use crate::text;

verus! {

/// A number for a connection, unique until the counter starts over.
#[derive(Debug, Clone, Copy, PartialEq, Eq, Structural)]
pub struct ConnectionId(u16);

impl ConnectionId {
    /// The number itself.
    pub closed spec fn number(self) -> u16 {
        self.0
    }

    /// The next number.
    pub fn new(ids: &mut Counter16) -> (id: Self)
        ensures
            id.number() == old(ids).upcoming(),
            final(ids).upcoming() == counter::after16(id.number()),
    {
        ConnectionId(ids.take())
    }

    /// The number as text.
    pub fn to_string(&self) -> (shown: String)
        ensures
            shown@ == "conn-"@ + text::digits(self.number() as nat),
    {
        text::join("conn-", text::decimal(self.0 as u128).as_str())
    }
}

/// The error of a mock connection.
#[derive(Debug, Clone, Copy, PartialEq, Eq, Structural)]
pub struct MockConnectionError;

impl MockConnectionError {
    /// The error as text.
    pub fn to_string(&self) -> (shown: String)
        ensures
            shown@ == "connection error"@,
    {
        "connection error".to_owned()
    }
}

/// What connecting with a mock transport gives.
#[derive(Debug, Clone, Copy, PartialEq, Eq, Structural)]
pub enum TransportMode {
    /// A connection for one user at a time.
    SingleUse,
    /// A connection that can be shared.
    Reusable,
    /// An error.
    ConnectionError,
}

/// A transport that connects at once, or fails at once.
#[derive(Debug, Clone, Copy, PartialEq, Eq, Structural)]
pub struct MockTransport {
    mode: TransportMode,
}

impl MockTransport {
    /// What connecting gives.
    pub closed spec fn mode(self) -> TransportMode {
        self.mode
    }

    /// A transport that connects.
    pub fn new(reuse: bool) -> (transport: Self)
        ensures
            transport.mode() == if reuse {
                TransportMode::Reusable
            } else {
                TransportMode::SingleUse
            },
    {
        let mode = if reuse { TransportMode::Reusable } else { TransportMode::SingleUse };
        MockTransport { mode }
    }

    /// A transport whose connections have one user at a time.
    pub fn single() -> (transport: Self)
        ensures
            transport.mode() == TransportMode::SingleUse,
    {
        MockTransport::new(false)
    }

    /// A transport whose connections can be shared.
    pub fn reusable() -> (transport: Self)
        ensures
            transport.mode() == TransportMode::Reusable,
    {
        MockTransport::new(true)
    }

    /// A transport that fails.
    pub fn connection_error() -> (transport: Self)
        ensures
            transport.mode() == TransportMode::ConnectionError,
    {
        MockTransport { mode: TransportMode::ConnectionError }
    }

    /// The connection that the handshake gives.
    pub fn handshake(self, ids: &mut Counter16) -> (connection: MockConnection)
        ensures
            mock::starts(connection.flag(), true),
            connection.reusable_connection() == (self.mode() == TransportMode::Reusable),
            connection.ident().number() == old(ids).upcoming(),
            final(ids).upcoming() == counter::after16(old(ids).upcoming()),
    {
        let reuse = matches!(self.mode, TransportMode::Reusable);
        MockConnection::new(reuse, ids)
    }

    /// Connects.
    pub fn call(&self, ids: &mut Counter16) -> (connected: Result<
        MockConnection,
        MockConnectionError,
    >)
        ensures
            match connected {
                Ok(connection) => {
                    &&& self.mode() != TransportMode::ConnectionError
                    &&& mock::starts(connection.flag(), true)
                    &&& connection.reusable_connection() == (self.mode()
                        == TransportMode::Reusable)
                    &&& connection.ident().number() == old(ids).upcoming()
                    &&& final(ids).upcoming() == counter::after16(old(ids).upcoming())
                },
                Err(_) => {
                    &&& self.mode() == TransportMode::ConnectionError
                    &&& final(ids).upcoming() == old(ids).upcoming()
                },
            },
    {
        match self.mode {
            TransportMode::SingleUse => Ok(MockConnection::new(false, ids)),
            TransportMode::Reusable => Ok(MockConnection::new(true, ids)),
            TransportMode::ConnectionError => Err(MockConnectionError),
        }
    }
}

impl PoolableStream for MockTransport {
    open spec fn stream_reports_share(&self, share: bool) -> bool {
        share == (self.mode() == TransportMode::Reusable)
    }

    fn can_share(&self) -> (share: bool) {
        matches!(self.mode, TransportMode::Reusable)
    }
}

/// A connection that goes nowhere.
#[derive(Debug)]
pub struct MockConnection {
    open: Arc<AtomicBool>,
    reuse: bool,
    ident: ConnectionId,
}

impl MockConnection {
    /// The flag that says whether the connection is open, which all copies share.
    pub closed spec fn flag(self) -> Arc<AtomicBool> {
        self.open
    }

    /// Whether the connection can be shared.
    pub closed spec fn reusable_connection(self) -> bool {
        self.reuse
    }

    /// The number of the connection.
    pub closed spec fn ident(self) -> ConnectionId {
        self.ident
    }

    /// The number of the connection.
    pub fn id(&self) -> (id: ConnectionId)
        ensures
            id == self.ident(),
    {
        self.ident
    }

    /// A connection, which is open.
    pub fn new(reuse: bool, ids: &mut Counter16) -> (connection: Self)
        ensures
            mock::starts(connection.flag(), true),
            connection.reusable_connection() == reuse,
            connection.ident().number() == old(ids).upcoming(),
            final(ids).upcoming() == counter::after16(old(ids).upcoming()),
    {
        MockConnection { open: Arc::new(AtomicBool::new(true)), reuse, ident: ConnectionId::new(ids) }
    }

    /// A connection for one user at a time.
    pub fn single(ids: &mut Counter16) -> (connection: Self)
        ensures
            mock::starts(connection.flag(), true),
            !connection.reusable_connection(),
            connection.ident().number() == old(ids).upcoming(),
            final(ids).upcoming() == counter::after16(old(ids).upcoming()),
    {
        MockConnection::new(false, ids)
    }

    /// A connection that can be shared.
    pub fn reusable(ids: &mut Counter16) -> (connection: Self)
        ensures
            mock::starts(connection.flag(), true),
            connection.reusable_connection(),
            connection.ident().number() == old(ids).upcoming(),
            final(ids).upcoming() == counter::after16(old(ids).upcoming()),
    {
        MockConnection::new(true, ids)
    }

    /// Closes the connection, for all its copies: the flag that they share is set, and
    /// nothing sets it back.
    pub fn close(&self)
        ensures
            mock::sets(self.flag(), false),
    {
        self.open.store(false, Ordering::SeqCst);
    }
}

impl Clone for MockConnection {
    fn clone(&self) -> (copy: Self)
        ensures
            copy == *self,
    {
        MockConnection {
            open: share_flag(&self.open),
            reuse: self.reuse,
            ident: self.ident,
        }
    }
}

impl PoolableConnection for MockConnection {
    open spec fn reports_open(&self, open: bool) -> bool {
        mock::reads(self.flag(), open)
    }

    open spec fn reports_share(&self, share: bool) -> bool {
        share == self.reusable_connection()
    }

    open spec fn reuses(before: Self, after: Self, copy: Option<Self>) -> bool {
        &&& after == before
        &&& match copy {
            Some(copy) => {
                &&& before.reusable_connection()
                &&& before.reports_open(true)
                &&& copy == before
            },
            None => !before.reusable_connection() || before.reports_open(false),
        }
    }

    /// Whether nobody has closed the connection.
    fn is_open(&self) -> (open: bool) {
        self.open.load(Ordering::SeqCst)
    }

    fn can_share(&self) -> (share: bool) {
        self.reuse
    }

    /// A copy, where the connection can be shared and nobody has closed it.
    fn reuse(&mut self) -> (copy: Option<Self>) {
        if self.reuse && self.is_open() {
            Some(MockConnection { open: share_flag(&self.open), reuse: true, ident: self.ident })
        } else {
            None
        }
    }
}

/// A connection and its copies are open and closed together: closing any of them sets
/// the flag that asking any of them reads.
pub proof fn law_copies_close_together(connection: MockConnection, copy: MockConnection, open: bool)
    requires
        MockConnection::reuses(connection, connection, Some(copy)),
    ensures
        copy.ident() == connection.ident(),
        copy.reports_share(true),
        mock::sets(copy.flag(), false) <==> mock::sets(connection.flag(), false),
        copy.reports_open(open) <==> mock::reads(connection.flag(), open),
{
}

/// A transport gives connections as it was made for: for one user, or to be shared, each with
/// a number of its own and open; or it gives an error each time.
pub proof fn law_transport_connects_as_it_was_made(
    reuse: bool,
    transport: MockTransport,
    single: MockTransport,
    reusable: MockTransport,
    failing: MockTransport,
    share: bool,
    ids: Counter16,
    connected: Result<MockConnection, MockConnectionError>,
    after: Counter16,
    failed: Result<MockConnection, MockConnectionError>,
    last: Counter16,
    handshaken: MockConnection,
    used: Counter16,
)
    requires
        call_ensures(MockTransport::new, (reuse,), transport),
        call_ensures(MockTransport::single, (), single),
        call_ensures(MockTransport::reusable, (), reusable),
        call_ensures(MockTransport::connection_error, (), failing),
        call_ensures(MockTransport::can_share, (&transport,), share),
        exists|m: &mut Counter16|
            *m == ids && *final(m) == after && #[trigger] call_ensures(
                MockTransport::call,
                (&transport, m),
                connected,
            ),
        exists|m: &mut Counter16|
            *m == ids && *final(m) == last && #[trigger] call_ensures(
                MockTransport::call,
                (&failing, m),
                failed,
            ),
        exists|m: &mut Counter16|
            *m == ids && *final(m) == used && #[trigger] call_ensures(
                MockTransport::handshake,
                (transport, m),
                handshaken,
            ),
    ensures
        reuse ==> transport == reusable,
        !reuse ==> transport == single,
        share == reuse,
        connected matches Ok(connection) && connection.reports_share(reuse) && call_ensures(
            AtomicBool::new,
            (true,),
            *connection.flag(),
        ),
        failed is Err,
        handshaken.reports_share(reuse),
        call_ensures(AtomicBool::new, (true,), *handshaken.flag()),
{
    assert(connected is Ok);
    let connection = connected->Ok_0;
    assert(mock::starts(connection.flag(), true));
    assert(mock::starts(handshaken.flag(), true));
}

/// A connection is copied where it can be shared and is open, and not where it cannot; asking
/// it reads the flag that closing it sets.
pub proof fn law_open_shared_connection_is_copied(
    reuse: bool,
    ids: Counter16,
    connection: MockConnection,
    used: Counter16,
    share: bool,
    open: bool,
    copy: Option<MockConnection>,
    after: MockConnection,
)
    requires
        exists|m: &mut Counter16|
            *m == ids && *final(m) == used && #[trigger] call_ensures(
                MockConnection::new,
                (reuse, m),
                connection,
            ),
        call_ensures(MockConnection::can_share, (&connection,), share),
        call_ensures(MockConnection::is_open, (&connection,), open),
        exists|m: &mut MockConnection|
            *m == connection && *final(m) == after && #[trigger] call_ensures(
                MockConnection::reuse,
                (m,),
                copy,
            ),
        call_ensures(MockConnection::close, (&connection,), ()),
    ensures
        share == reuse,
        !reuse ==> copy is None,
        copy is Some ==> copy->0 == connection && connection.reports_open(true),
        copy is None && reuse ==> connection.reports_open(false),
        after == connection,
        call_ensures(AtomicBool::load, (&*connection.flag(), Ordering::SeqCst), open),
        call_ensures(AtomicBool::store, (&*connection.flag(), false, Ordering::SeqCst), ()),
{
    assert(mock::reads(connection.flag(), open));
    assert(mock::sets(connection.flag(), false));
}

/// Connections are numbered one after the other, and named by their numbers.
pub proof fn law_connections_are_numbered(
    ids: Counter16,
    first: ConnectionId,
    between: Counter16,
    second: ConnectionId,
    after: Counter16,
    shown: String,
    number: String,
    error: String,
)
    requires
        exists|m: &mut Counter16|
            *m == ids && *final(m) == between && #[trigger] call_ensures(
                ConnectionId::new,
                (m,),
                first,
            ),
        exists|m: &mut Counter16|
            *m == between && *final(m) == after && #[trigger] call_ensures(
                ConnectionId::new,
                (m,),
                second,
            ),
        call_ensures(ConnectionId::to_string, (&first,), shown),
        call_ensures(text::decimal, (first.number() as u128,), number),
        call_ensures(MockConnectionError::to_string, (&MockConnectionError,), error),
    ensures
        second.number() != first.number(),
        first.number() < u16::MAX ==> second.number() == first.number() + 1,
        shown@ == "conn-"@ + number@,
        error@ == "connection error"@,
{
}

/// A connection that is made for one user or to be shared is so, is open, and is copied
/// whole.
pub proof fn law_connection_is_made_as_named(
    ids: Counter16,
    one: MockConnection,
    between: Counter16,
    many: MockConnection,
    after: Counter16,
    id: ConnectionId,
    copy: MockConnection,
    one_share: bool,
    many_share: bool,
)
    requires
        exists|m: &mut Counter16|
            *m == ids && *final(m) == between && #[trigger] call_ensures(
                MockConnection::single,
                (m,),
                one,
            ),
        exists|m: &mut Counter16|
            *m == between && *final(m) == after && #[trigger] call_ensures(
                MockConnection::reusable,
                (m,),
                many,
            ),
        call_ensures(MockConnection::id, (&one,), id),
        call_ensures(MockConnection::clone, (&one,), copy),
        call_ensures(MockConnection::can_share, (&one,), one_share),
        call_ensures(MockConnection::can_share, (&many,), many_share),
    ensures
        !one_share,
        many_share,
        copy == one,
        id == one.ident(),
        many.ident().number() != one.ident().number(),
        call_ensures(AtomicBool::new, (true,), *one.flag()),
        call_ensures(AtomicBool::new, (true,), *many.flag()),
{
    assert(mock::starts(one.flag(), true));
    assert(mock::starts(many.flag(), true));
}

} // verus!
