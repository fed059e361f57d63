//! Connectors couple a transport with a protocol to create a connection.
//!
//! In a high-level client, the connector is integrated with the connection pool, to
//! facilitate connection re-use and pre-emption. A connector can also be used
//! without a pool, when a new connection should be created every time.

use vstd::prelude::*;

use crate::client::conn::protocol::HttpProtocol;
use crate::client::error::{Cause, ConnectionError, Error as ClientError};
use crate::client::pool::PoolableStream;
use crate::poll::Poll;

verus! {

/// Error that can occur during the connection process.
#[derive(Debug, PartialEq, Eq)]
pub enum Error<T, P> {
    /// Error occurred during the connection
    Connecting(T),
    /// Error occurred during the handshake
    Handshaking(P),
    /// Connection can't even be attempted
    Unavailable,
}

impl<T, P> Error<T, P> {
    /// The error as text, without its cause.
    pub fn to_string(&self) -> (shown: String)
        ensures
            shown@ == match self {
                Error::Connecting(_) => "creating connection"@,
                Error::Handshaking(_) => "handshaking connection"@,
                Error::Unavailable => "connection closed"@,
            },
    {
        match self {
            Error::Connecting(_) => "creating connection".to_owned(),
            Error::Handshaking(_) => "handshaking connection".to_owned(),
            Error::Unavailable => "connection closed".to_owned(),
        }
    }
}

impl<E> Error<E, E> {
    /// The failure that this error reports.
    pub open spec fn as_failure(self) -> ConnectionError<E> {
        match self {
            Error::Connecting(cause) => ConnectionError::Connecting(cause),
            Error::Handshaking(cause) => ConnectionError::Handshaking(cause),
            Error::Unavailable => ConnectionError::Unavailable,
        }
    }
}

/// How far a connector has come.
#[derive(Debug, PartialEq, Eq)]
pub enum ConnectorState<A, T, P, S> {
    /// The transport is asked whether it is ready.
    PollReadyTransport {
        /// Where to connect to.
        address: A,
        /// The transport.
        transport: T,
        /// The protocol, for later.
        protocol: P,
    },
    /// The transport is connecting.
    Connect {
        /// The protocol, for later.
        protocol: P,
    },
    /// The protocol is asked whether it is ready.
    PollReadyHandshake {
        /// The protocol.
        protocol: P,
        /// The stream that the transport made.
        stream: S,
    },
    /// The protocol is shaking hands.
    Handshake,
}

impl<A, T, P, S> ConnectorState<A, T, P, S> {
    /// The name of the state.
    pub fn name(&self) -> (name: &'static str)
        ensures
            name@ == match self {
                ConnectorState::PollReadyTransport { .. } => "PollReadyTransport"@,
                ConnectorState::Connect { .. } => "Connect"@,
                ConnectorState::PollReadyHandshake { .. } => "PollReadyHandshake"@,
                ConnectorState::Handshake => "Handshake"@,
            },
    {
        match self {
            ConnectorState::PollReadyTransport { .. } => "PollReadyTransport",
            ConnectorState::Connect { .. } => "Connect",
            ConnectorState::PollReadyHandshake { .. } => "PollReadyHandshake",
            ConnectorState::Handshake => "Handshake",
        }
    }
}

/// A connector combines what is required to connect to a transport and then complete
/// the transport's associated startup handshake.
///
/// `A` is the address, `T` the transport, `P` the protocol, and `S` the stream that
/// the transport makes. The operations themselves run elsewhere; the connector takes
/// in what comes of them, and says what to do next.
#[derive(Debug, PartialEq, Eq)]
pub struct Connector<A, T, P, S> {
    /// How far the connector has come.
    pub state: ConnectorState<A, T, P, S>,
    /// The version to speak, until the handshake has started.
    pub version: Option<HttpProtocol>,
    /// Whether others can share the connection even before the handshake is complete.
    /// It is not known until there is a stream.
    pub shareable: bool,
}

/// What came of the operation that a connector waits for.
#[derive(Debug, PartialEq, Eq)]
pub enum ConnectorEvent<S, C, TE, PE> {
    /// Whether the transport is ready.
    TransportReady(Poll<Result<(), TE>>),
    /// What came of connecting.
    Connected(Poll<Result<S, TE>>),
    /// Whether the protocol is ready.
    ProtocolReady(Poll<Result<(), PE>>),
    /// What came of the handshake.
    Handshaken(Poll<Result<C, PE>>),
}

/// What to do next.
#[derive(Debug, PartialEq, Eq)]
pub enum ConnectorStep<A, T, P, S, C, TE, PE> {
    /// Nothing until the operation that is under way has moved on.
    Pending(Connector<A, T, P, S>),
    /// Connect `transport` to `address`.
    Connect {
        /// The connector from here on.
        connector: Connector<A, T, P, S>,
        /// The transport to connect.
        transport: T,
        /// Where to connect it to.
        address: A,
    },
    /// Ask the protocol whether it is ready.
    PollProtocol(Connector<A, T, P, S>),
    /// Start the handshake of `protocol` on `stream`.
    Handshake {
        /// The connector from here on.
        connector: Connector<A, T, P, S>,
        /// The protocol to start.
        protocol: P,
        /// The stream to start it on.
        stream: S,
        /// The version to speak.
        version: HttpProtocol,
        /// Whether others are to be told that the connection can be shared.
        notify: bool,
    },
    /// The connector is done.
    Done(Result<C, Error<TE, PE>>),
}

impl<A, T, P, S> Connector<A, T, P, S> {
    /// Whether the connector knows the version that it needs for the handshake.
    pub open spec fn valid(self) -> bool {
        self.state !is Handshake ==> self.version is Some
    }

    /// Whether `event` is about the operation that the connector waits for.
    pub open spec fn expects<C, TE, PE>(self, event: ConnectorEvent<S, C, TE, PE>) -> bool {
        match self.state {
            ConnectorState::PollReadyTransport { .. } => event is TransportReady,
            ConnectorState::Connect { .. } => event is Connected,
            ConnectorState::PollReadyHandshake { .. } => event is ProtocolReady,
            ConnectorState::Handshake => event is Handshaken,
        }
    }

    /// What to do next after `event`. `share` is whether the stream, where the event
    /// brings one, can be shared.
    pub open spec fn next<C, TE, PE>(
        self,
        event: ConnectorEvent<S, C, TE, PE>,
        share: bool,
    ) -> ConnectorStep<A, T, P, S, C, TE, PE> {
        match (self.state, event) {
            (
                ConnectorState::PollReadyTransport { address, transport, protocol },
                ConnectorEvent::TransportReady(Poll::Ready(ready)),
            ) => match ready {
                Ok(_) => ConnectorStep::Connect {
                    connector: Connector { state: ConnectorState::Connect { protocol }, ..self },
                    transport,
                    address,
                },
                Err(error) => ConnectorStep::Done(Err(Error::Connecting(error))),
            },
            (
                ConnectorState::Connect { protocol },
                ConnectorEvent::Connected(Poll::Ready(connected)),
            ) => match connected {
                Ok(stream) => ConnectorStep::PollProtocol(
                    Connector {
                        state: ConnectorState::PollReadyHandshake { protocol, stream },
                        shareable: share,
                        ..self
                    },
                ),
                Err(error) => ConnectorStep::Done(Err(Error::Connecting(error))),
            },
            (
                ConnectorState::PollReadyHandshake { protocol, stream },
                ConnectorEvent::ProtocolReady(Poll::Ready(ready)),
            ) => match ready {
                Ok(_) => ConnectorStep::Handshake {
                    connector: Connector {
                        state: ConnectorState::Handshake,
                        version: None,
                        ..self
                    },
                    protocol,
                    stream,
                    version: self.version->0,
                    notify: self.shareable,
                },
                Err(error) => ConnectorStep::Done(Err(Error::Handshaking(error))),
            },
            (ConnectorState::Handshake, ConnectorEvent::Handshaken(Poll::Ready(done))) => match done {
                Ok(connection) => ConnectorStep::Done(Ok(connection)),
                Err(error) => ConnectorStep::Done(Err(Error::Handshaking(error))),
            },
            _ => ConnectorStep::Pending(self),
        }
    }

    /// Create a new connection from a transport connector and a protocol.
    pub fn new(transport: T, protocol: P, address: A, version: HttpProtocol) -> (connector: Self)
        ensures
            connector == (Connector {
                state: ConnectorState::<A, T, P, S>::PollReadyTransport {
                    address,
                    transport,
                    protocol,
                },
                version: Some(version),
                shareable: false,
            }),
            connector.valid(),
    {
        Connector {
            state: ConnectorState::PollReadyTransport { address, transport, protocol },
            version: Some(version),
            shareable: false,
        }
    }

    /// Takes in what came of the operation that the connector waits for, and says what
    /// to do next. `share` is whether the stream, where the event brings one, can be
    /// shared; where there is no pool, and so nobody to tell, it is `false`.
    pub fn advance_with<C, TE, PE>(
        self,
        event: ConnectorEvent<S, C, TE, PE>,
        share: bool,
    ) -> (step: ConnectorStep<A, T, P, S, C, TE, PE>)
        requires
            self.valid(),
            self.expects(event),
        ensures
            step == self.next(event, share),
            match step {
                ConnectorStep::Pending(connector) => connector.valid(),
                ConnectorStep::Connect { connector, .. } => connector.valid(),
                ConnectorStep::PollProtocol(connector) => connector.valid(),
                ConnectorStep::Handshake { connector, .. } => connector.valid(),
                ConnectorStep::Done(_) => true,
            },
    {
        let shareable = self.shareable;
        let version = self.version;
        match (self.state, event) {
            (
                ConnectorState::PollReadyTransport { address, transport, protocol },
                ConnectorEvent::TransportReady(ready),
            ) => match ready {
                Poll::Ready(Ok(_)) => ConnectorStep::Connect {
                    connector: Connector {
                        state: ConnectorState::Connect { protocol },
                        version,
                        shareable,
                    },
                    transport,
                    address,
                },
                Poll::Ready(Err(error)) => ConnectorStep::Done(Err(Error::Connecting(error))),
                Poll::Pending => ConnectorStep::Pending(
                    Connector {
                        state: ConnectorState::PollReadyTransport { address, transport, protocol },
                        version,
                        shareable,
                    },
                ),
            },
            (ConnectorState::Connect { protocol }, ConnectorEvent::Connected(connected)) => {
                match connected {
                    Poll::Ready(Ok(stream)) => ConnectorStep::PollProtocol(
                        Connector {
                            state: ConnectorState::PollReadyHandshake { protocol, stream },
                            version,
                            shareable: share,
                        },
                    ),
                    Poll::Ready(Err(error)) => ConnectorStep::Done(Err(Error::Connecting(error))),
                    Poll::Pending => ConnectorStep::Pending(
                        Connector {
                            state: ConnectorState::Connect { protocol },
                            version,
                            shareable,
                        },
                    ),
                }
            },
            (
                ConnectorState::PollReadyHandshake { protocol, stream },
                ConnectorEvent::ProtocolReady(ready),
            ) => match ready {
                Poll::Ready(Ok(_)) => ConnectorStep::Handshake {
                    connector: Connector {
                        state: ConnectorState::Handshake,
                        version: None,
                        shareable,
                    },
                    protocol,
                    stream,
                    version: version.unwrap(),
                    notify: shareable,
                },
                Poll::Ready(Err(error)) => ConnectorStep::Done(Err(Error::Handshaking(error))),
                Poll::Pending => ConnectorStep::Pending(
                    Connector {
                        state: ConnectorState::PollReadyHandshake { protocol, stream },
                        version,
                        shareable,
                    },
                ),
            },
            (ConnectorState::Handshake, ConnectorEvent::Handshaken(done)) => match done {
                Poll::Ready(Ok(connection)) => ConnectorStep::Done(Ok(connection)),
                Poll::Ready(Err(error)) => ConnectorStep::Done(Err(Error::Handshaking(error))),
                Poll::Pending => ConnectorStep::Pending(
                    Connector { state: ConnectorState::Handshake, version, shareable },
                ),
            },
            (state, _) => ConnectorStep::Pending(Connector { state, version, shareable }),
        }
    }

    /// How many stages lie behind the connector.
    pub open spec fn stage(self) -> nat {
        match self.state {
            ConnectorState::PollReadyTransport { .. } => 0,
            ConnectorState::Connect { .. } => 1,
            ConnectorState::PollReadyHandshake { .. } => 2,
            ConnectorState::Handshake => 3,
        }
    }
}

/// Whether `share` is what the stream that `event` brings, where it brings one, says of
/// being shared.
pub open spec fn asked<S: PoolableStream, C, TE, PE>(
    event: ConnectorEvent<S, C, TE, PE>,
    share: bool,
) -> bool {
    match event {
        ConnectorEvent::Connected(Poll::Ready(Ok(stream))) => stream.stream_reports_share(share),
        _ => true,
    }
}

impl<A, T, P, S: PoolableStream> Connector<A, T, P, S> {
    /// Takes in what came of the operation that the connector waits for, and says what
    /// to do next. A stream is asked, before the handshake, whether it can be shared.
    pub fn advance<C, TE, PE>(self, event: ConnectorEvent<S, C, TE, PE>) -> (step: ConnectorStep<
        A,
        T,
        P,
        S,
        C,
        TE,
        PE,
    >)
        requires
            self.valid(),
            self.expects(event),
        ensures
            exists|share: bool| #[trigger] asked(event, share) && step == self.next(event, share),
            event matches ConnectorEvent::Connected(Poll::Ready(Ok(stream))) ==> (step matches
                ConnectorStep::PollProtocol(next) && stream.stream_reports_share(next.shareable)),
            match step {
                ConnectorStep::Pending(connector) => connector.valid(),
                ConnectorStep::Connect { connector, .. } => connector.valid(),
                ConnectorStep::PollProtocol(connector) => connector.valid(),
                ConnectorStep::Handshake { connector, .. } => connector.valid(),
                ConnectorStep::Done(_) => true,
            },
    {
        let share = match &event {
            ConnectorEvent::Connected(Poll::Ready(Ok(stream))) => stream.can_share(),
            _ => false,
        };
        assert(asked(event, share));
        self.advance_with(event, share)
    }
}

/// A connector goes through its stages in order: an event either changes nothing, or
/// takes it to the very next stage, or ends it. It succeeds only after the last
/// stage. Failures of the transport are reported by the first two stages, those of the
/// protocol by the last two, and it is never unavailable.
pub proof fn law_connector_goes_forward<A, T, P, S, C, TE, PE>(
    connector: Connector<A, T, P, S>,
    event: ConnectorEvent<S, C, TE, PE>,
    share: bool,
)
    requires
        connector.valid(),
        connector.expects(event),
    ensures
        match connector.next(event, share) {
            ConnectorStep::Pending(next) => next == connector,
            ConnectorStep::Connect { connector: next, .. } => next.stage() == connector.stage() + 1,
            ConnectorStep::PollProtocol(next) => next.stage() == connector.stage() + 1,
            ConnectorStep::Handshake { connector: next, .. } => next.stage() == connector.stage()
                + 1,
            ConnectorStep::Done(Ok(_)) => connector.stage() == 3,
            ConnectorStep::Done(Err(Error::Connecting(_))) => connector.stage() <= 1,
            ConnectorStep::Done(Err(Error::Handshaking(_))) => connector.stage() >= 2,
            ConnectorStep::Done(Err(Error::Unavailable)) => false,
        },
{
}

/// Where every operation succeeds, the transport is connected to the address that the
/// connector was made with, the protocol that it was made with is started on the
/// stream that came of it, in the version asked for, and the connection that comes of
/// that is the result. Others are told of the stream, when the handshake starts, if and
/// only if it said that it can be shared.
pub proof fn law_connector_succeeds<A, T, P, S, C, TE, PE>(
    transport: T,
    protocol: P,
    address: A,
    version: HttpProtocol,
    stream: S,
    connection: C,
    share: bool,
    other: bool,
)
    ensures
        ({
            let start = Connector {
                state: ConnectorState::<A, T, P, S>::PollReadyTransport {
                    address,
                    transport,
                    protocol,
                },
                version: Some(version),
                shareable: false,
            };
            &&& start.next(
                ConnectorEvent::<S, C, TE, PE>::TransportReady(Poll::Ready(Ok(()))),
                other,
            ) matches ConnectorStep::Connect { connector: second, transport: used, address: target }
            &&& used == transport
            &&& target == address
            &&& second.next(
                ConnectorEvent::<S, C, TE, PE>::Connected(Poll::Ready(Ok(stream))),
                share,
            ) matches ConnectorStep::PollProtocol(third)
            &&& third.next(
                ConnectorEvent::<S, C, TE, PE>::ProtocolReady(Poll::Ready(Ok(()))),
                other,
            ) matches ConnectorStep::Handshake {
                connector: fourth,
                protocol: started,
                stream: on,
                version: spoken,
                notify,
            }
            &&& started == protocol
            &&& on == stream
            &&& spoken == version
            &&& notify == share
            &&& fourth.next(
                ConnectorEvent::<S, C, TE, PE>::Handshaken(Poll::Ready(Ok(connection))),
                other,
            ) == ConnectorStep::<A, T, P, S, C, TE, PE>::Done(Ok(connection))
        }),
{
}

/// A connector takes in what came of the operation that it waits for, whatever it is.
pub proof fn law_connector_waits_for_one_thing<A, T, P, S, C, TE, PE>(
    connector: Connector<A, T, P, S>,
    ready: Poll<Result<(), TE>>,
    connected: Poll<Result<S, TE>>,
    protocol_ready: Poll<Result<(), PE>>,
    handshaken: Poll<Result<C, PE>>,
)
    ensures
        connector.state is PollReadyTransport ==> connector.expects(
            ConnectorEvent::<S, C, TE, PE>::TransportReady(ready),
        ),
        connector.state is Connect ==> connector.expects(
            ConnectorEvent::<S, C, TE, PE>::Connected(connected),
        ),
        connector.state is PollReadyHandshake ==> connector.expects(
            ConnectorEvent::<S, C, TE, PE>::ProtocolReady(protocol_ready),
        ),
        connector.state is Handshake ==> connector.expects(
            ConnectorEvent::<S, C, TE, PE>::Handshaken(handshaken),
        ),
        connector.version is Some ==> connector.valid(),
        connector.state is Handshake ==> connector.valid(),
{
}

/// What is ready never leaves a connector waiting. Each failure ends it, with the error
/// that the operation reported: the transport's as one of connecting, the protocol's as
/// one of the handshake. Each success leads to the next operation, on what the connector
/// was made with and what the operations before it gave. A connector waits, unchanged,
/// exactly while its operation is pending.
pub proof fn law_ready_moves_the_connector_on<A, T, P, S, C, TE, PE>(
    connector: Connector<A, T, P, S>,
    event: ConnectorEvent<S, C, TE, PE>,
    share: bool,
    step: ConnectorStep<A, T, P, S, C, TE, PE>,
)
    requires
        connector.valid(),
        connector.expects(event),
        call_ensures(
            Connector::<A, T, P, S>::advance_with::<C, TE, PE>,
            (connector, event, share),
            step,
        ),
    ensures
        event matches ConnectorEvent::TransportReady(Poll::Ready(Err(error))) ==> step
            == ConnectorStep::<A, T, P, S, C, TE, PE>::Done(Err(Error::Connecting(error))),
        event matches ConnectorEvent::Connected(Poll::Ready(Err(error))) ==> step
            == ConnectorStep::<A, T, P, S, C, TE, PE>::Done(Err(Error::Connecting(error))),
        event matches ConnectorEvent::ProtocolReady(Poll::Ready(Err(error))) ==> step
            == ConnectorStep::<A, T, P, S, C, TE, PE>::Done(Err(Error::Handshaking(error))),
        event matches ConnectorEvent::Handshaken(Poll::Ready(Err(error))) ==> step
            == ConnectorStep::<A, T, P, S, C, TE, PE>::Done(Err(Error::Handshaking(error))),
        event matches ConnectorEvent::Handshaken(Poll::Ready(Ok(connection))) ==> step
            == ConnectorStep::<A, T, P, S, C, TE, PE>::Done(Ok(connection)),
        event matches ConnectorEvent::TransportReady(Poll::Ready(Ok(_))) ==> {
            &&& connector.state matches ConnectorState::PollReadyTransport {
                address,
                transport,
                protocol,
            }
            &&& step matches ConnectorStep::Connect {
                connector: next,
                transport: used,
                address: target,
            }
            &&& used == transport
            &&& target == address
            &&& next.state == (ConnectorState::<A, T, P, S>::Connect { protocol })
            &&& next.version == connector.version
        },
        event matches ConnectorEvent::Connected(Poll::Ready(Ok(stream))) ==> {
            &&& connector.state matches ConnectorState::Connect { protocol }
            &&& step matches ConnectorStep::PollProtocol(next)
            &&& next.state == (ConnectorState::<A, T, P, S>::PollReadyHandshake { protocol, stream })
            &&& next.version == connector.version
            &&& next.shareable == share
        },
        event matches ConnectorEvent::ProtocolReady(Poll::Ready(Ok(_))) ==> {
            &&& connector.state matches ConnectorState::PollReadyHandshake { protocol, stream }
            &&& step matches ConnectorStep::Handshake {
                connector: next,
                protocol: started,
                stream: on,
                version,
                notify,
            }
            &&& next.state is Handshake
            &&& started == protocol
            &&& on == stream
            &&& connector.version == Some(version)
            &&& notify == connector.shareable
        },
        step matches ConnectorStep::Pending(next) ==> next == connector,
        step is Pending <==> match event {
            ConnectorEvent::TransportReady(outcome) => outcome is Pending,
            ConnectorEvent::Connected(outcome) => outcome is Pending,
            ConnectorEvent::ProtocolReady(outcome) => outcome is Pending,
            ConnectorEvent::Handshaken(outcome) => outcome is Pending,
        },
{
}

/// A connector that a pool drives goes on as any other, with what its stream says of
/// being shared.
pub proof fn law_asking_changes_nothing_else<A, T, P, S: PoolableStream, C, TE, PE>(
    connector: Connector<A, T, P, S>,
    event: ConnectorEvent<S, C, TE, PE>,
    step: ConnectorStep<A, T, P, S, C, TE, PE>,
    share: bool,
    other: ConnectorStep<A, T, P, S, C, TE, PE>,
)
    requires
        connector.valid(),
        connector.expects(event),
        call_ensures(Connector::<A, T, P, S>::advance::<C, TE, PE>, (connector, event), step),
        call_ensures(
            Connector::<A, T, P, S>::advance_with::<C, TE, PE>,
            (connector, event, share),
            other,
        ),
    ensures
        event !is Connected ==> step == other,
        event matches ConnectorEvent::Connected(outcome) ==> {
            &&& outcome is Pending ==> step == other
            &&& outcome matches Poll::Ready(Err(_)) ==> step == other
            &&& outcome matches Poll::Ready(Ok(stream)) ==> {
                &&& step matches ConnectorStep::PollProtocol(next)
                &&& stream.stream_reports_share(next.shareable)
                &&& share == next.shareable ==> step == other
            }
        },
{
}

/// A connector starts with what it is made from: where every operation succeeds, the
/// transport is connected to the address, and the protocol is started on the stream that
/// comes of it, in the version that was asked for.
pub proof fn law_version_asked_for_is_spoken<A, T, P, S, C, TE, PE>(
    transport: T,
    protocol: P,
    address: A,
    version: HttpProtocol,
    start: Connector<A, T, P, S>,
    first: ConnectorStep<A, T, P, S, C, TE, PE>,
    stream: S,
    share: bool,
    second: ConnectorStep<A, T, P, S, C, TE, PE>,
    third: ConnectorStep<A, T, P, S, C, TE, PE>,
)
    requires
        call_ensures(
            Connector::<A, T, P, S>::new,
            (transport, protocol, address, version),
            start,
        ),
        call_ensures(
            Connector::<A, T, P, S>::advance_with::<C, TE, PE>,
            (start, ConnectorEvent::TransportReady(Poll::Ready(Ok(()))), false),
            first,
        ),
        call_ensures(
            Connector::<A, T, P, S>::advance_with::<C, TE, PE>,
            (first->Connect_connector, ConnectorEvent::Connected(Poll::Ready(Ok(stream))), share),
            second,
        ),
        call_ensures(
            Connector::<A, T, P, S>::advance_with::<C, TE, PE>,
            (second->PollProtocol_0, ConnectorEvent::ProtocolReady(Poll::Ready(Ok(()))), false),
            third,
        ),
    ensures
        start.version == Some(version),
        first matches ConnectorStep::Connect { transport: used, address: target, .. } && used
            == transport && target == address,
        second is PollProtocol,
        third matches ConnectorStep::Handshake {
            protocol: started,
            stream: on,
            version: spoken,
            notify,
            ..
        } && started == protocol && on == stream && spoken == version && notify == share,
{
}

/// A layer which provides a connection for a request. No pooling is done.
#[derive(Debug)]
pub struct ConnectorLayer<T, P> {
    transport: T,
    protocol: P,
}

impl<T, P> ConnectorLayer<T, P> {
    /// The transport and the protocol.
    pub closed spec fn parts(self) -> (T, P) {
        (self.transport, self.protocol)
    }

    /// Create a new `ConnectorLayer` wrapping the given transport and protocol.
    pub fn new(transport: T, protocol: P) -> (layer: Self)
        ensures
            layer.parts() == (transport, protocol),
    {
        ConnectorLayer { transport, protocol }
    }

    /// Puts the layer around a service.
    pub fn layer<S>(&self, inner: S) -> (service: ConnectorService<S, T, P>) where
        T: Clone,
        P: Clone,

        ensures
            service.parts().0 == inner,
            cloned(self.parts().0, service.parts().1),
            cloned(self.parts().1, service.parts().2),
    {
        ConnectorService::new(inner, self.transport.clone(), self.protocol.clone())
    }
}

impl<T: Clone, P: Clone> Clone for ConnectorLayer<T, P> {
    fn clone(&self) -> (copy: Self)
        ensures
            cloned(self.parts().0, copy.parts().0),
            cloned(self.parts().1, copy.parts().1),
    {
        ConnectorLayer { transport: self.transport.clone(), protocol: self.protocol.clone() }
    }
}

/// A service that opens a connection with a given transport and protocol.
#[derive(Debug)]
pub struct ConnectorService<S, T, P> {
    inner: S,
    transport: T,
    protocol: P,
}

impl<S, T, P> ConnectorService<S, T, P> {
    /// The service, the transport and the protocol.
    pub closed spec fn parts(self) -> (S, T, P) {
        (self.inner, self.transport, self.protocol)
    }

    /// Create a new `ConnectorService` wrapping the given service, transport, and
    /// protocol.
    pub fn new(inner: S, transport: T, protocol: P) -> (service: Self)
        ensures
            service.parts() == (inner, transport, protocol),
    {
        ConnectorService { inner, transport, protocol }
    }

    /// Begins a request: a connector to `address`, and the service that the connection
    /// is for.
    pub fn call<A, Q, IO, X>(&self, address: A, version: HttpProtocol, request: Q) -> (future:
        ResponseFuture<Connector<A, T, P, IO>, Q, S, X>) where S: Clone, T: Clone, P: Clone
        ensures
            future.inner matches ResponseFutureState::Connect { connector, request: sent, service }
                && sent == request && cloned(self.parts().0, service) && connector.version == Some(
                version,
            ) && !connector.shareable && connector.valid() && (connector.state matches
                ConnectorState::PollReadyTransport { address: target, transport, protocol }
                && target == address && cloned(self.parts().1, transport) && cloned(
                self.parts().2,
                protocol,
            )),
    {
        let connector = Connector::new(
            self.transport.clone(),
            self.protocol.clone(),
            address,
            version,
        );
        ResponseFuture::new(connector, request, self.inner.clone())
    }
}

impl<S: Clone, T: Clone, P: Clone> Clone for ConnectorService<S, T, P> {
    fn clone(&self) -> (copy: Self)
        ensures
            cloned(self.parts().0, copy.parts().0),
            cloned(self.parts().1, copy.parts().1),
            cloned(self.parts().2, copy.parts().2),
    {
        ConnectorService {
            inner: self.inner.clone(),
            transport: self.transport.clone(),
            protocol: self.protocol.clone(),
        }
    }
}

/// How far a request has come: `N` makes the connection, `Q` is the request, `S` the
/// service that executes it, and `X` what can go wrong before there is a connection to
/// make.
#[derive(Debug, PartialEq, Eq)]
pub enum ResponseFutureState<N, Q, S, X> {
    /// The connection is being made.
    Connect {
        /// What makes the connection.
        connector: N,
        /// The request to send on it.
        request: Q,
        /// The service that sends it.
        service: S,
    },
    /// There is no connection to make.
    ConnectionError(X),
    /// The request is under way.
    Request,
}

/// A request that becomes a response.
#[derive(Debug, PartialEq, Eq)]
pub struct ResponseFuture<N, Q, S, X> {
    /// How far the request has come.
    pub inner: ResponseFutureState<N, Q, S, X>,
}

/// What came of the operation that a request waits for.
#[derive(Debug, PartialEq, Eq)]
pub enum ResponseEvent<C, R, X> {
    /// What came of making the connection.
    Connection(Poll<Result<C, Error<X, X>>>),
    /// What came of the request.
    Response(Poll<Result<R, ClientError<X>>>),
}

/// What to do next for a request.
#[derive(Debug, PartialEq, Eq)]
pub enum ResponseStep<N, Q, S, C, R, X> {
    /// Nothing until the operation that is under way has moved on.
    Pending(ResponseFuture<N, Q, S, X>),
    /// Have `service` execute `request` on `connection`.
    Execute {
        /// The request from here on.
        future: ResponseFuture<N, Q, S, X>,
        /// The service.
        service: S,
        /// The connection.
        connection: C,
        /// The request.
        request: Q,
    },
    /// The request is done.
    Done(Result<R, ClientError<X>>),
}

impl<N, Q, S, X> ResponseFuture<N, Q, S, X> {
    /// A request for which a connection is made.
    pub fn new(connector: N, request: Q, service: S) -> (future: Self)
        ensures
            future.inner == (ResponseFutureState::<N, Q, S, X>::Connect {
                connector,
                request,
                service,
            }),
    {
        ResponseFuture { inner: ResponseFutureState::Connect { connector, request, service } }
    }

    /// A request for which no connection can be made.
    pub fn error(error: X) -> (future: Self)
        ensures
            future.inner == ResponseFutureState::<N, Q, S, X>::ConnectionError(error),
    {
        ResponseFuture { inner: ResponseFutureState::ConnectionError(error) }
    }

    /// Whether `event` is about the operation that the request waits for. One that
    /// cannot get a connection waits for nothing.
    pub open spec fn expects<C, R>(self, event: ResponseEvent<C, R, X>) -> bool {
        match self.inner {
            ResponseFutureState::Connect { .. } => event is Connection,
            ResponseFutureState::ConnectionError(_) => true,
            ResponseFutureState::Request => event is Response,
        }
    }

    /// Whether `step` is what to do next after `event`.
    pub open spec fn goes_to<C, R>(
        self,
        event: ResponseEvent<C, R, X>,
        step: ResponseStep<N, Q, S, C, R, X>,
    ) -> bool {
        match (self.inner, event) {
            (ResponseFutureState::ConnectionError(error), _) => step == ResponseStep::<
                N,
                Q,
                S,
                C,
                R,
                X,
            >::Done(Err(ClientError::Connection(Cause::Error(error)))),
            (
                ResponseFutureState::Connect { request, service, .. },
                ResponseEvent::Connection(Poll::Ready(connected)),
            ) => match connected {
                Ok(connection) => step == (ResponseStep::<N, Q, S, C, R, X>::Execute {
                    future: ResponseFuture { inner: ResponseFutureState::Request },
                    service,
                    connection,
                    request,
                }),
                Err(failure) => step matches ResponseStep::Done(Err(shown))
                    && crate::client::error::is_error_for(shown, failure.as_failure()),
            },
            (ResponseFutureState::Request, ResponseEvent::Response(Poll::Ready(done))) => step
                == ResponseStep::<N, Q, S, C, R, X>::Done(done),
            _ => step == ResponseStep::<N, Q, S, C, R, X>::Pending(self),
        }
    }

    /// Takes in what came of the operation that the request waits for, and says what to
    /// do next.
    pub fn advance<C, R>(self, event: ResponseEvent<C, R, X>) -> (step: ResponseStep<
        N,
        Q,
        S,
        C,
        R,
        X,
    >)
        requires
            self.expects(event),
        ensures
            self.goes_to(event, step),
    {
        match (self.inner, event) {
            (ResponseFutureState::ConnectionError(error), _) => ResponseStep::Done(
                Err(ClientError::Connection(Cause::Error(error))),
            ),
            (
                ResponseFutureState::Connect { connector, request, service },
                ResponseEvent::Connection(connected),
            ) => match connected {
                Poll::Ready(Ok(connection)) => ResponseStep::Execute {
                    future: ResponseFuture { inner: ResponseFutureState::Request },
                    service,
                    connection,
                    request,
                },
                Poll::Ready(Err(failure)) => ResponseStep::Done(
                    Err(ClientError::from_connector(failure)),
                ),
                Poll::Pending => ResponseStep::Pending(
                    ResponseFuture {
                        inner: ResponseFutureState::Connect { connector, request, service },
                    },
                ),
            },
            (ResponseFutureState::Request, ResponseEvent::Response(done)) => match done {
                Poll::Ready(Ok(response)) => ResponseStep::Done(Ok(response)),
                Poll::Ready(Err(error)) => ResponseStep::Done(Err(error)),
                Poll::Pending => ResponseStep::Pending(
                    ResponseFuture { inner: ResponseFutureState::Request },
                ),
            },
            (inner, _) => ResponseStep::Pending(ResponseFuture { inner }),
        }
    }
}

/// A request goes on as soon as what it waits for is there. Once there is a connection,
/// the service executes the request on it. A connection that could not be made ends the
/// request with an error that says at which part: where the transport failed it is one
/// of the transport, and where the handshake failed one of the protocol. What comes of
/// executing it is the result. It waits, unchanged, exactly while its operation is
/// pending.
pub proof fn law_request_goes_forward<N, Q, S, C, R, X>(
    future: ResponseFuture<N, Q, S, X>,
    event: ResponseEvent<C, R, X>,
    step: ResponseStep<N, Q, S, C, R, X>,
)
    requires
        future.expects(event),
        call_ensures(ResponseFuture::<N, Q, S, X>::advance::<C, R>, (future, event), step),
    ensures
        future.inner matches ResponseFutureState::ConnectionError(error) ==> step
            == ResponseStep::<N, Q, S, C, R, X>::Done(
            Err(ClientError::Connection(Cause::Error(error))),
        ),
        future.inner matches ResponseFutureState::Connect { request, service, .. } ==> match event {
            ResponseEvent::Connection(Poll::Ready(Ok(connection))) => {
                &&& step matches ResponseStep::Execute {
                    future: next,
                    service: used,
                    connection: on,
                    request: sent,
                }
                &&& next.inner is Request
                &&& used == service
                &&& on == connection
                &&& sent == request
            },
            ResponseEvent::Connection(Poll::Ready(Err(Error::Connecting(cause)))) => step
                == ResponseStep::<N, Q, S, C, R, X>::Done(
                Err(ClientError::Transport(Cause::Error(cause))),
            ),
            ResponseEvent::Connection(Poll::Ready(Err(Error::Handshaking(cause)))) => step
                == ResponseStep::<N, Q, S, C, R, X>::Done(
                Err(ClientError::Protocol(Cause::Error(cause))),
            ),
            ResponseEvent::Connection(Poll::Ready(Err(Error::Unavailable))) => step matches
                ResponseStep::Done(Err(ClientError::Connection(Cause::Message(_)))),
            ResponseEvent::Connection(Poll::Pending) => step == ResponseStep::<
                N,
                Q,
                S,
                C,
                R,
                X,
            >::Pending(future),
            ResponseEvent::Response(_) => false,
        },
        future.inner is Request ==> match event {
            ResponseEvent::Response(Poll::Ready(done)) => step == ResponseStep::<
                N,
                Q,
                S,
                C,
                R,
                X,
            >::Done(done),
            ResponseEvent::Response(Poll::Pending) => step == ResponseStep::<
                N,
                Q,
                S,
                C,
                R,
                X,
            >::Pending(future),
            ResponseEvent::Connection(_) => false,
        },
{
}

/// A service without a pool makes a connection of its own for each request: to the
/// address of the request, in its version, and for the service inside.
pub proof fn law_each_request_has_a_connector<S: Clone, T: Clone, P: Clone, A, Q, IO, X>(
    service: ConnectorService<S, T, P>,
    address: A,
    version: HttpProtocol,
    request: Q,
    future: ResponseFuture<Connector<A, T, P, IO>, Q, S, X>,
)
    requires
        call_ensures(
            ConnectorService::<S, T, P>::call::<A, Q, IO, X>,
            (&service, address, version, request),
            future,
        ),
    ensures
        future.inner matches ResponseFutureState::Connect { connector, request: sent, service: used }
            && sent == request && cloned(service.parts().0, used) && connector.version == Some(
            version,
        ) && (connector.state matches ConnectorState::PollReadyTransport {
            address: target,
            transport,
            protocol,
        } && target == address && cloned(service.parts().1, transport) && cloned(
            service.parts().2,
            protocol,
        )),
{
}

/// A layer puts clones of its transport and its protocol around a service, and each request
/// to that starts a connector with clones of the same, for the address and in the version
/// that it asks for, beside a clone of the service.
pub proof fn law_layer_gives_its_transport<T: Clone, P: Clone, S: Clone, A, Q, IO, X>(
    transport: T,
    protocol: P,
    layer: ConnectorLayer<T, P>,
    inner: S,
    layered: ConnectorService<S, T, P>,
    service: ConnectorService<S, T, P>,
    address: A,
    version: HttpProtocol,
    request: Q,
    future: ResponseFuture<Connector<A, T, P, IO>, Q, S, X>,
)
    requires
        call_ensures(ConnectorLayer::<T, P>::new, (transport, protocol), layer),
        call_ensures(ConnectorLayer::<T, P>::layer::<S>, (&layer, inner), layered),
        call_ensures(ConnectorService::<S, T, P>::new, (inner, transport, protocol), service),
        call_ensures(
            ConnectorService::<S, T, P>::call::<A, Q, IO, X>,
            (&service, address, version, request),
            future,
        ),
    ensures
        layered.parts().0 == inner,
        cloned(transport, layered.parts().1),
        cloned(protocol, layered.parts().2),
        future.inner matches ResponseFutureState::Connect { connector, request: sent, service: used }
            && sent == request && cloned(inner, used) && connector.version == Some(version) && (
        connector.state matches ConnectorState::PollReadyTransport {
            address: target,
            transport: connecting,
            protocol: speaking,
        } && target == address && cloned(transport, connecting) && cloned(protocol, speaking)),
{
}

/// A request waits for its connection, or fails with the error it was made with.
pub proof fn law_request_begins_with_its_connection<N, Q, S, X>(
    connector: N,
    request: Q,
    service: S,
    connecting: ResponseFuture<N, Q, S, X>,
    error: X,
    failing: ResponseFuture<N, Q, S, X>,
)
    requires
        call_ensures(
            ResponseFuture::<N, Q, S, X>::new,
            (connector, request, service),
            connecting,
        ),
        call_ensures(ResponseFuture::<N, Q, S, X>::error, (error,), failing),
    ensures
        connecting.inner == (ResponseFutureState::<N, Q, S, X>::Connect {
            connector,
            request,
            service,
        }),
        failing.inner == ResponseFutureState::<N, Q, S, X>::ConnectionError(error),
{
}

/// The name of a state says which it is.
pub proof fn law_states_are_named<A, T, P, S>(
    state: ConnectorState<A, T, P, S>,
    name: &'static str,
)
    requires
        call_ensures(ConnectorState::<A, T, P, S>::name, (&state,), name),
    ensures
        state is PollReadyTransport ==> name@ == "PollReadyTransport"@,
        state is Connect ==> name@ == "Connect"@,
        state is PollReadyHandshake ==> name@ == "PollReadyHandshake"@,
        state is Handshake ==> name@ == "Handshake"@,
{
}

/// Copies of a layer and of a service have clones of the parts.
pub proof fn law_copied_layer_gives_the_same<S: Clone, T: Clone, P: Clone>(
    layer: ConnectorLayer<T, P>,
    layer_copy: ConnectorLayer<T, P>,
    service: ConnectorService<S, T, P>,
    service_copy: ConnectorService<S, T, P>,
)
    requires
        call_ensures(ConnectorLayer::<T, P>::clone, (&layer,), layer_copy),
        call_ensures(ConnectorService::<S, T, P>::clone, (&service,), service_copy),
    ensures
        cloned(layer.parts().0, layer_copy.parts().0),
        cloned(layer.parts().1, layer_copy.parts().1),
        cloned(service.parts().0, service_copy.parts().0),
        cloned(service.parts().1, service_copy.parts().1),
        cloned(service.parts().2, service_copy.parts().2),
{
}

/// A stream that comes of connecting is asked whether it can be shared, and others are told
/// of it, when the handshake starts, if and only if it said so.
pub proof fn law_stream_is_asked_before_the_handshake<A, T, P, S: PoolableStream, C, TE, PE>(
    before: Connector<A, T, P, S>,
    version: HttpProtocol,
    stream: S,
    first: ConnectorStep<A, T, P, S, C, TE, PE>,
    second: ConnectorStep<A, T, P, S, C, TE, PE>,
)
    requires
        before.state is Connect,
        before.version == Some(version),
        !before.shareable,
        call_ensures(
            Connector::<A, T, P, S>::advance::<C, TE, PE>,
            (before, ConnectorEvent::Connected(Poll::Ready(Ok(stream)))),
            first,
        ),
        call_ensures(
            Connector::<A, T, P, S>::advance::<C, TE, PE>,
            (first->PollProtocol_0, ConnectorEvent::ProtocolReady(Poll::Ready(Ok(())))),
            second,
        ),
    ensures
        first matches ConnectorStep::PollProtocol(next) && stream.stream_reports_share(
            next.shareable,
        ),
        second matches ConnectorStep::Handshake { stream: on, version: spoken, notify, .. } && on
            == stream && spoken == version && stream.stream_reports_share(notify),
{
}

/// An error says which part of making a connection failed.
pub proof fn law_error_says_which_part_failed<T, P>(error: Error<T, P>, shown: String)
    requires
        call_ensures(Error::<T, P>::to_string, (&error,), shown),
    ensures
        error is Connecting ==> shown@ == "creating connection"@,
        error is Handshaking ==> shown@ == "handshaking connection"@,
        error is Unavailable ==> shown@ == "connection closed"@,
{
}

} // verus!
