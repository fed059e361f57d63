//! The protocol of a connection, and how it is picked.

use vstd::prelude::*;

use crate::client::conn::connection::ConnectionError;
use crate::client::conn::protocol::Version;
use crate::client::conn::transport::tcp::{ErrorSource, TcpConnectionError};
use crate::info::TlsConnectionInfo;
use crate::io::IoError;

verus! {

/// The HTTP protocol to use for a connection.
#[derive(Debug, Clone, Copy, PartialEq, Eq, Structural)]
pub enum ConnectionProtocol {
    /// Connect using HTTP/1.1
    Http1,
    /// Connect using HTTP/2
    Http2,
}

/// Whether a version of HTTP is spoken by one of the protocols.
pub open spec fn is_supported(version: Version) -> bool {
    version == Version::Http10 || version == Version::Http11 || version == Version::Http2
}

impl ConnectionProtocol {
    /// Does this protocol allow multiplexing?
    pub fn multiplex(&self) -> (multiplex: bool)
        ensures
            multiplex == (self == ConnectionProtocol::Http2),
    {
        matches!(self, ConnectionProtocol::Http2)
    }

    /// The protocol that speaks a version of HTTP.
    pub fn from_version(version: Version) -> (protocol: Self)
        requires
            is_supported(version),
        ensures
            protocol == if version == Version::Http2 {
                ConnectionProtocol::Http2
            } else {
                ConnectionProtocol::Http1
            },
    {
        match version {
            Version::Http2 => ConnectionProtocol::Http2,
            _ => ConnectionProtocol::Http1,
        }
    }
}

/// Settings for HTTP connections. `A` configures HTTP/1.1 and `B` HTTP/2.
#[derive(Debug)]
pub struct Builder<A, B> {
    http1: A,
    http2: B,
    protocol: ConnectionProtocol,
}

/// What a connection that is not encrypted yet fails at before its protocol is picked.
#[derive(Debug, Clone, Copy, PartialEq, Eq, Structural)]
pub enum HandshakeStage {
    /// The handshake of the transport.
    Finish,
    /// Asking the transport about itself.
    Info,
}

impl HandshakeStage {
    /// What to report where this step fails.
    pub fn failed(&self, error: IoError) -> (failed: ConnectionError<TcpConnectionError>)
        ensures
            failed matches ConnectionError::Connecting(inner) && inner.message() == (match self {
                HandshakeStage::Finish => "tls handshake error"@,
                HandshakeStage::Info => "tls info error"@,
            }) && inner.cause() == Some(ErrorSource::Io(error)),
    {
        let message = match self {
            HandshakeStage::Finish => "tls handshake error",
            HandshakeStage::Info => "tls info error",
        };
        ConnectionError::Connecting(TcpConnectionError::msg(message.to_owned(), error))
    }
}

impl<A, B> Builder<A, B> {
    /// How HTTP/1.1 and HTTP/2 are configured.
    pub closed spec fn parts(self) -> (A, B) {
        (self.http1, self.http2)
    }

    /// The protocol that is asked for.
    pub closed spec fn spec_protocol(self) -> ConnectionProtocol {
        self.protocol
    }

    /// Settings that ask for HTTP/1.1.
    pub fn new(http1: A, http2: B) -> (builder: Self)
        ensures
            builder.parts() == (http1, http2),
            builder.spec_protocol() == ConnectionProtocol::Http1,
    {
        Builder { http1, http2, protocol: ConnectionProtocol::Http1 }
    }

    /// Set the default protocol for the connection.
    pub fn set_protocol(&mut self, protocol: ConnectionProtocol) -> (builder: &mut Self)
        ensures
            builder.parts() == old(self).parts(),
            builder.spec_protocol() == protocol,
            *final(self) == *final(builder),
    {
        self.protocol = protocol;
        self
    }

    /// The protocol that is asked for.
    pub fn protocol(&self) -> (protocol: ConnectionProtocol)
        ensures
            protocol == self.spec_protocol(),
    {
        self.protocol
    }

    /// Get the HTTP/1.1 configuration.
    pub fn http1(&mut self) -> (http1: &mut A)
        ensures
            *http1 == old(self).parts().0,
            final(self).parts() == (*final(http1), old(self).parts().1),
            final(self).spec_protocol() == old(self).spec_protocol(),
    {
        &mut self.http1
    }

    /// Get the HTTP/2 configuration.
    pub fn http2(&mut self) -> (http2: &mut B)
        ensures
            *http2 == old(self).parts().1,
            final(self).parts() == (old(self).parts().0, *final(http2)),
            final(self).spec_protocol() == old(self).spec_protocol(),
    {
        &mut self.http2
    }

    /// The handshake for a transport: HTTP/2 where it is asked for or was agreed on when
    /// the transport was encrypted.
    pub fn handshake(&self, tls: &Option<TlsConnectionInfo>) -> (picked: ConnectionProtocol)
        ensures
            picked == if self.spec_protocol() == ConnectionProtocol::Http2
                || crate::client::conn::protocol::auto::agreed(*tls) == Some("h2"@) {
                ConnectionProtocol::Http2
            } else {
                ConnectionProtocol::Http1
            },
    {
        if self.protocol.multiplex() || crate::client::conn::protocol::auto::agreed_on_http2(tls) {
            ConnectionProtocol::Http2
        } else {
            ConnectionProtocol::Http1
        }
    }
}

impl<A: Clone, B: Clone> Clone for Builder<A, B> {
    fn clone(&self) -> (copy: Self)
        ensures
            cloned(self.parts().0, copy.parts().0),
            cloned(self.parts().1, copy.parts().1),
            copy.spec_protocol() == self.spec_protocol(),
    {
        Builder {
            http1: self.http1.clone(),
            http2: self.http2.clone(),
            protocol: self.protocol,
        }
    }
}

/// HTTP/2 is spoken by its own protocol, in which alone requests share a connection, and the
/// versions below it by the other.
pub proof fn law_version_has_its_protocol(
    version: Version,
    protocol: ConnectionProtocol,
    multiplex: bool,
)
    requires
        call_ensures(ConnectionProtocol::from_version, (version,), protocol),
        call_ensures(ConnectionProtocol::multiplex, (&protocol,), multiplex),
    ensures
        protocol == ConnectionProtocol::Http2 <==> version == Version::Http2,
        protocol == ConnectionProtocol::Http1 <==> version != Version::Http2,
        multiplex <==> version == Version::Http2,
{
}

/// HTTP/2 is spoken where it was asked for, or where both sides agreed on it by its name, and
/// HTTP/1.1 everywhere else; it is not asked for unless it was set.
pub proof fn law_http2_is_asked_for_or_agreed_on<A, B>(
    http1: A,
    http2: B,
    made: Builder<A, B>,
    first: ConnectionProtocol,
    protocol: ConnectionProtocol,
    set: Builder<A, B>,
    asked: ConnectionProtocol,
    tls: Option<TlsConnectionInfo>,
    picked: ConnectionProtocol,
    unset: ConnectionProtocol,
)
    requires
        call_ensures(Builder::<A, B>::new, (http1, http2), made),
        call_ensures(Builder::<A, B>::protocol, (&made,), first),
        exists|m: &mut Builder<A, B>, same: &mut Builder<A, B>|
            *m == made && *final(m) == set && *final(same) == *same && #[trigger] call_ensures(
                Builder::<A, B>::set_protocol,
                (m, protocol),
                same,
            ),
        call_ensures(Builder::<A, B>::protocol, (&set,), asked),
        call_ensures(Builder::<A, B>::handshake, (&set, &tls), picked),
        call_ensures(Builder::<A, B>::handshake, (&made, &tls), unset),
    ensures
        first == ConnectionProtocol::Http1,
        asked == protocol,
        picked == ConnectionProtocol::Http2 <==> protocol == ConnectionProtocol::Http2 || (
        tls is Some && tls->0.alpn is Some && tls->0.alpn->0@ == seq!['h', '2']),
        unset == ConnectionProtocol::Http2 <==> tls is Some && tls->0.alpn is Some
            && tls->0.alpn->0@ == seq!['h', '2'],
{
    reveal_strlit("h2");
    assert("h2"@ =~= seq!['h', '2']);
}

/// The two configurations are kept apart, each as it was last set, and setting them asks for
/// no other protocol.
pub proof fn law_configurations_are_kept_apart<A, B>(
    http1: A,
    http2: B,
    made: Builder<A, B>,
    other1: A,
    other2: B,
    between: Builder<A, B>,
    last: Builder<A, B>,
    found1: A,
    found2: B,
    left1: A,
    protocol: ConnectionProtocol,
)
    requires
        call_ensures(Builder::<A, B>::new, (http1, http2), made),
        exists|m: &mut Builder<A, B>, set: &mut A|
            *m == made && *final(m) == between && *set == found1 && *final(set) == other1
                && #[trigger] call_ensures(Builder::<A, B>::http1, (m,), set),
        exists|m: &mut Builder<A, B>, set: &mut B|
            *m == between && *final(m) == last && *set == found2 && *final(set) == other2
                && #[trigger] call_ensures(Builder::<A, B>::http2, (m,), set),
        exists|m: &mut Builder<A, B>, set: &mut A|
            *m == last && *set == left1 && #[trigger] call_ensures(
                Builder::<A, B>::http1,
                (m,),
                set,
            ),
        call_ensures(Builder::<A, B>::protocol, (&last,), protocol),
    ensures
        found1 == http1,
        found2 == http2,
        left1 == other1,
        protocol == ConnectionProtocol::Http1,
{
}

/// A step that fails before the protocol is picked is told as a failure to connect, with the
/// step and the cause.
pub proof fn law_failed_step_is_told(
    stage: HandshakeStage,
    error: IoError,
    failed: ConnectionError<TcpConnectionError>,
)
    requires
        call_ensures(HandshakeStage::failed, (&stage, error), failed),
    ensures
        failed matches ConnectionError::Connecting(inner) && inner.cause() == Some(
            ErrorSource::Io(error),
        ) && (stage == HandshakeStage::Finish ==> inner.message() == "tls handshake error"@) && (
        stage == HandshakeStage::Info ==> inner.message() == "tls info error"@),
{
}

} // verus!
