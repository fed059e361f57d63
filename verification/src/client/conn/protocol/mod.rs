//! Protocols describe how HTTP requests and responses are transmitted over a
//! connection: HTTP/1.1, HTTP/2, or one of the two after negotiation.

use vstd::prelude::*;

pub mod auto;
pub mod http;
pub mod info;
pub mod mock;
pub mod notify;

verus! {

/// The version of HTTP that a request or response is written in.
#[derive(Debug, Clone, Copy, PartialEq, Eq, Structural)]
pub enum Version {
    /// HTTP/0.9
    Http09,
    /// HTTP/1.0
    Http10,
    /// HTTP/1.1
    Http11,
    /// HTTP/2
    Http2,
    /// HTTP/3
    Http3,
}

/// The HTTP protocol that a connection speaks.
#[derive(Debug, Clone, Copy, PartialEq, Eq, Structural)]
pub enum HttpProtocol {
    /// HTTP/1.1
    Http1,
    /// HTTP/2
    Http2,
    /// HTTP/3
    Http3,
}

impl HttpProtocol {
    /// Does this protocol allow multiplexing?
    pub fn multiplex(&self) -> (multiplex: bool)
        ensures
            multiplex == (self == HttpProtocol::Http2),
    {
        matches!(self, HttpProtocol::Http2)
    }

    /// The protocol that speaks a version of HTTP. There is none for HTTP/0.9.
    pub fn from_version(version: Version) -> (protocol: Self)
        requires
            version != Version::Http09,
        ensures
            protocol == (match version {
                Version::Http2 => HttpProtocol::Http2,
                Version::Http3 => HttpProtocol::Http3,
                _ => HttpProtocol::Http1,
            }),
    {
        match version {
            Version::Http2 => HttpProtocol::Http2,
            Version::Http3 => HttpProtocol::Http3,
            _ => HttpProtocol::Http1,
        }
    }
}

/// A version of HTTP is spoken by its own protocol, all below 2 by the first, and requests
/// share a connection in HTTP/2 alone.
pub proof fn law_version_has_its_protocol(
    version: Version,
    protocol: HttpProtocol,
    multiplex: bool,
)
    requires
        call_ensures(HttpProtocol::from_version, (version,), protocol),
        call_ensures(HttpProtocol::multiplex, (&protocol,), multiplex),
    ensures
        protocol == HttpProtocol::Http2 <==> version == Version::Http2,
        protocol == HttpProtocol::Http3 <==> version == Version::Http3,
        protocol == HttpProtocol::Http1 <==> version != Version::Http2 && version
            != Version::Http3,
        multiplex <==> version == Version::Http2,
{
}

} // verus!
