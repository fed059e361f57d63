//! A transport full of empty implementations, suitable for testing behavior of
//! transport-dependent code.

use tokio::sync::oneshot::Receiver;
use vstd::prelude::*;

use crate::client::conn::connector::{Connector, ConnectorState};
use crate::client::conn::protocol::mock::MockProtocol;
use crate::client::conn::protocol::HttpProtocol;
use crate::client::conn::stream::mock::{self, MockStream};
use crate::counter::{self, Counter16};
use crate::uri::Uri;

verus! {

/// An error that can occur when creating a mock transport.
#[derive(Debug, Clone, Copy, PartialEq, Eq, Structural)]
pub struct MockConnectionError;

impl MockConnectionError {
    /// The error as text.
    pub fn to_string(&self) -> (shown: String)
        ensures
            shown@ == "connection error"@,
    {
        "connection error".to_owned()
    }
}

/// What a mock transport does when it is asked to connect.
#[derive(Debug)]
pub enum TransportMode {
    /// It makes a stream that can be used once.
    SingleUse,
    /// It makes a stream that can be reused.
    Reusable,
    /// It fails.
    ConnectionError,
    /// It waits for a stream from elsewhere, once.
    Channel(Option<Receiver<MockStream>>),
}

/// A mock transport that can be used to test connection behavior.
#[derive(Debug)]
pub struct MockTransport {
    mode: TransportMode,
}

impl Clone for MockTransport {
    fn clone(&self) -> (copy: Self)
        ensures
            copy.mode() == if self.mode() is Channel {
                TransportMode::ConnectionError
            } else {
                self.mode()
            },
    {
        MockTransport {
            mode: match &self.mode {
                TransportMode::Channel(_) => TransportMode::ConnectionError,
                TransportMode::SingleUse => TransportMode::SingleUse,
                TransportMode::Reusable => TransportMode::Reusable,
                TransportMode::ConnectionError => TransportMode::ConnectionError,
            },
        }
    }
}

/// A mock transport that is connecting.
#[derive(Debug)]
pub enum MockConnecting {
    /// It is done already.
    Ready(Result<MockStream, MockConnectionError>),
    /// It waits for a stream from elsewhere.
    Wait(Receiver<MockStream>),
}

impl MockTransport {
    /// What the transport does when it is asked to connect.
    pub closed spec fn mode(self) -> TransportMode {
        self.mode
    }

    /// Create a new transport with the specified reuse mode.
    pub fn new(reuse: bool) -> (transport: Self)
        ensures
            transport.mode() == if reuse {
                TransportMode::Reusable
            } else {
                TransportMode::SingleUse
            },
    {
        let mode = if reuse {
            TransportMode::Reusable
        } else {
            TransportMode::SingleUse
        };
        MockTransport { mode }
    }

    /// Transport which can be used only once
    pub fn single() -> (transport: Self)
        ensures
            transport.mode() == TransportMode::SingleUse,
    {
        MockTransport::new(false)
    }

    /// Transport which can be reused
    pub fn reusable() -> (transport: Self)
        ensures
            transport.mode() == TransportMode::Reusable,
    {
        MockTransport::new(true)
    }

    /// Transport which returns an error during connection attempts
    pub fn error() -> (transport: Self)
        ensures
            transport.mode() == TransportMode::ConnectionError,
    {
        MockTransport { mode: TransportMode::ConnectionError }
    }

    /// Transport which returns a stream from a oneshot channel
    pub fn channel(rx: Receiver<MockStream>) -> (transport: Self)
        ensures
            transport.mode() == TransportMode::Channel(Some(rx)),
    {
        MockTransport { mode: TransportMode::Channel(Some(rx)) }
    }

    /// Create a new connector for the transport.
    pub fn connector(self, uri: Uri, version: HttpProtocol) -> (connector: Connector<
        Uri,
        Self,
        MockProtocol,
        MockStream,
    >)
        ensures
            connector == (Connector {
                state: ConnectorState::<Uri, Self, MockProtocol, MockStream>::PollReadyTransport {
                    address: uri,
                    transport: self,
                    protocol: MockProtocol,
                },
                version: Some(version),
                shareable: false,
            }),
            connector.valid(),
    {
        Connector::new(self, MockProtocol::default(), uri, version)
    }

    /// Connects.
    pub fn call(&mut self, ids: &mut Counter16) -> (connecting: MockConnecting)
        ensures
            match old(self).mode() {
                TransportMode::SingleUse => connecting matches MockConnecting::Ready(Ok(stream))
                    && mock::starts(stream.flag(), true) && !stream.reusable_stream() && stream.ident().number() == old(ids).upcoming()
                    && final(ids).upcoming() == counter::after16(old(ids).upcoming()),
                TransportMode::Reusable => connecting matches MockConnecting::Ready(Ok(stream))
                    && mock::starts(stream.flag(), true) && stream.reusable_stream() && stream.ident().number() == old(ids).upcoming()
                    && final(ids).upcoming() == counter::after16(old(ids).upcoming()),
                TransportMode::ConnectionError => connecting == MockConnecting::Ready(
                    Err(MockConnectionError),
                ) && *final(ids) == *old(ids),
                TransportMode::Channel(Some(rx)) => connecting == MockConnecting::Wait(rx)
                    && *final(ids) == *old(ids),
                TransportMode::Channel(None) => connecting == MockConnecting::Ready(
                    Err(MockConnectionError),
                ) && *final(ids) == *old(ids),
            },
            final(self).mode() == if old(self).mode() is Channel {
                TransportMode::Channel(None)
            } else {
                old(self).mode()
            },
    {
        let reuse = match &mut self.mode {
            TransportMode::SingleUse => false,
            TransportMode::Reusable => true,
            TransportMode::ConnectionError => {
                return MockConnecting::Ready(Err(MockConnectionError));
            },
            TransportMode::Channel(rx) => {
                return match rx.take() {
                    Some(rx) => MockConnecting::Wait(rx),
                    None => MockConnecting::Ready(Err(MockConnectionError)),
                };
            },
        };
        MockConnecting::Ready(Ok(MockStream::new(reuse, ids)))
    }
}

/// A transport connects as it was made to: to a stream for one use or for more, not at all,
/// or to the one that comes from elsewhere, and to that only once. A copy of the last kind
/// connects to nothing.
pub proof fn law_transport_connects_as_it_was_made(
    reuse: bool,
    made: MockTransport,
    single: MockTransport,
    reusable: MockTransport,
    failing: MockTransport,
    rx: Receiver<MockStream>,
    channel: MockTransport,
    copy: MockTransport,
    ids: Counter16,
    first: MockConnecting,
    made_after: MockTransport,
    used: Counter16,
    second: MockConnecting,
    failing_after: MockTransport,
    third: MockConnecting,
    channel_after: MockTransport,
    fourth: MockConnecting,
    channel_last: MockTransport,
    fifth: MockConnecting,
    copy_after: MockTransport,
)
    requires
        call_ensures(MockTransport::new, (reuse,), made),
        call_ensures(MockTransport::single, (), single),
        call_ensures(MockTransport::reusable, (), reusable),
        call_ensures(MockTransport::error, (), failing),
        call_ensures(MockTransport::channel, (rx,), channel),
        call_ensures(MockTransport::clone, (&channel,), copy),
        exists|m: &mut MockTransport, n: &mut Counter16|
            *m == made && *final(m) == made_after && *n == ids && *final(n) == used
                && #[trigger] call_ensures(MockTransport::call, (m, n), first),
        exists|m: &mut MockTransport, n: &mut Counter16|
            *m == failing && *final(m) == failing_after && #[trigger] call_ensures(
                MockTransport::call,
                (m, n),
                second,
            ),
        exists|m: &mut MockTransport, n: &mut Counter16|
            *m == channel && *final(m) == channel_after && #[trigger] call_ensures(
                MockTransport::call,
                (m, n),
                third,
            ),
        exists|m: &mut MockTransport, n: &mut Counter16|
            *m == channel_after && *final(m) == channel_last && #[trigger] call_ensures(
                MockTransport::call,
                (m, n),
                fourth,
            ),
        exists|m: &mut MockTransport, n: &mut Counter16|
            *m == copy && *final(m) == copy_after && #[trigger] call_ensures(
                MockTransport::call,
                (m, n),
                fifth,
            ),
    ensures
        reuse ==> made.mode() == reusable.mode(),
        !reuse ==> made.mode() == single.mode(),
        first matches MockConnecting::Ready(Ok(stream)) && stream.reusable_stream() == reuse
            && mock::starts(stream.flag(), true),
        made_after.mode() == made.mode(),
        second == MockConnecting::Ready(Err(MockConnectionError)),
        third == MockConnecting::Wait(rx),
        fourth == MockConnecting::Ready(Err(MockConnectionError)),
        fifth == MockConnecting::Ready(Err(MockConnectionError)),
{
}

/// A connector for a mock transport starts by making the transport ready for the target, and
/// speaks the version that was asked for.
pub proof fn law_connector_starts_with_the_transport(
    transport: MockTransport,
    uri: Uri,
    version: HttpProtocol,
    connector: Connector<Uri, MockTransport, MockProtocol, MockStream>,
    shown: String,
)
    requires
        call_ensures(MockTransport::connector, (transport, uri, version), connector),
        call_ensures(MockConnectionError::to_string, (&MockConnectionError,), shown),
    ensures
        connector.version == Some(version),
        !connector.shareable,
        connector.state matches ConnectorState::PollReadyTransport {
            address,
            transport: used,
            protocol,
        } && address == uri && used == transport,
        shown@ == "connection error"@,
{
}

} // verus!
