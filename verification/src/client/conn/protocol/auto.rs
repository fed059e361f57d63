//! Auto-switching HTTP/1 and HTTP/2 connections.

use vstd::prelude::*;

use crate::client::conn::connection;
use crate::client::conn::protocol::{HttpProtocol, Version};
use crate::client::pool::PoolableConnection;
use crate::info::TlsConnectionInfo;
use crate::text;

verus! {

/// An HTTP connection which is either HTTP1 or HTTP2
#[derive(Debug)]
#[verifier::reject_recursive_types(B)]
pub struct HttpConnection<B> {
    /// What sends requests.
    pub inner: InnerConnection<B>,
}

/// What sends the requests of a connection.
#[derive(Debug)]
#[verifier::reject_recursive_types(B)]
pub enum InnerConnection<B> {
    /// By HTTP/2.
    H2(hyper::client::conn::http2::SendRequest<B>),
    /// By HTTP/1.
    H1(hyper::client::conn::http1::SendRequest<B>),
}

impl<B> HttpConnection<B> {
    /// The protocol that the connection speaks.
    pub open spec fn protocol(self) -> HttpProtocol {
        match self.inner {
            InnerConnection::H1(_) => HttpProtocol::Http1,
            InnerConnection::H2(_) => HttpProtocol::Http2,
        }
    }

    /// Create a new HTTP/1 connection.
    pub fn h1(conn: hyper::client::conn::http1::SendRequest<B>) -> (connection: Self)
        ensures
            connection.inner == InnerConnection::H1(conn),
    {
        HttpConnection { inner: InnerConnection::H1(conn) }
    }

    /// Create a new HTTP/2 connection.
    pub fn h2(conn: hyper::client::conn::http2::SendRequest<B>) -> (connection: Self)
        ensures
            connection.inner == InnerConnection::H2(conn),
    {
        HttpConnection { inner: InnerConnection::H2(conn) }
    }

    /// Get the HTTP protocol version
    pub fn version(&self) -> (version: HttpProtocol)
        ensures
            version == self.protocol(),
    {
        match &self.inner {
            InnerConnection::H1(_) => HttpProtocol::Http1,
            InnerConnection::H2(_) => HttpProtocol::Http2,
        }
    }

    /// The version that a request is written in before it is sent on this connection.
    pub fn request_version(&self) -> (version: Version)
        ensures
            version == if self.protocol() == HttpProtocol::Http2 {
                Version::Http2
            } else {
                Version::Http11
            },
    {
        match &self.inner {
            InnerConnection::H2(_) => Version::Http2,
            InnerConnection::H1(_) => Version::Http11,
        }
    }

    /// The connection as text, for debugging.
    pub fn debug_text(&self) -> (shown: String)
        ensures
            shown@ == match self.inner {
                InnerConnection::H1(_) => "HttpConnection { version: HTTP/1.1 }"@,
                InnerConnection::H2(_) => "HttpConnection { version: HTTP/2.0 }"@,
            },
    {
        match &self.inner {
            InnerConnection::H1(_) => "HttpConnection { version: HTTP/1.1 }".to_owned(),
            InnerConnection::H2(_) => "HttpConnection { version: HTTP/2.0 }".to_owned(),
        }
    }
}

impl<B> PoolableConnection for HttpConnection<B> {
    open spec fn reports_open(&self, open: bool) -> bool {
        match self.inner {
            InnerConnection::H2(conn) => connection::http2_reports(conn, open),
            InnerConnection::H1(conn) => connection::http1_reports(conn, open),
        }
    }

    open spec fn reports_share(&self, share: bool) -> bool {
        share == (self.protocol() == HttpProtocol::Http2)
    }

    open spec fn reuses(before: Self, after: Self, copy: Option<Self>) -> bool {
        &&& after == before
        &&& match before.inner {
            InnerConnection::H2(conn) => copy matches Some(HttpConnection {
                inner: InnerConnection::H2(other),
            }) && cloned(conn, other),
            InnerConnection::H1(_) => copy is None,
        }
    }

    /// Checks for the connection being open by checking if the underlying connection is
    /// ready to send a new request. If the connection is not ready, it can't be
    /// re-used, so this shortcut isn't harmful.
    fn is_open(&self) -> (open: bool) {
        match &self.inner {
            InnerConnection::H2(conn) => conn.is_ready(),
            InnerConnection::H1(conn) => conn.is_ready(),
        }
    }

    /// HTTP/2 connections can be shared, but HTTP/1 connections cannot.
    fn can_share(&self) -> (share: bool) {
        match &self.inner {
            InnerConnection::H2(_) => true,
            InnerConnection::H1(_) => false,
        }
    }

    /// Reuse the connection if it is an HTTP/2 connection.
    fn reuse(&mut self) -> (copy: Option<Self>) {
        match &self.inner {
            InnerConnection::H2(conn) => Some(
                HttpConnection { inner: InnerConnection::H2(connection::http2_clone(conn)) },
            ),
            InnerConnection::H1(_) => None,
        }
    }
}

/// The protocol that both sides agreed on in a TLS handshake, where there was one.
pub open spec fn agreed(tls: Option<TlsConnectionInfo>) -> Option<Seq<char>> {
    match tls {
        Some(info) => info.agreed(),
        None => None,
    }
}

/// Whether both sides agreed on HTTP/2 in a TLS handshake.
pub fn agreed_on_http2(tls: &Option<TlsConnectionInfo>) -> (http2: bool)
    ensures
        http2 == (agreed(*tls) == Some("h2"@)),
{
    match tls {
        Some(info) => match &info.alpn {
            Some(name) => text::same(name.as_str(), "h2"),
            None => false,
        },
        None => false,
    }
}

/// Picks the handshakes for connections: HTTP/2 where it is asked for or was agreed on
/// in the TLS handshake, HTTP/1 otherwise.
#[derive(Debug, Clone, Copy, PartialEq, Eq, Structural)]
pub struct AlpnHttpConnectionBuilder;

impl AlpnHttpConnectionBuilder {
    /// The handshake for a request that asks for `protocol`, on a transport with the
    /// given TLS info.
    pub fn handshake(&self, protocol: HttpProtocol, tls: &Option<TlsConnectionInfo>) -> (picked:
        HttpProtocol)
        requires
            protocol != HttpProtocol::Http3,
        ensures
            picked == if protocol == HttpProtocol::Http2 || agreed(*tls) == Some("h2"@) {
                HttpProtocol::Http2
            } else {
                HttpProtocol::Http1
            },
    {
        if protocol.multiplex() || agreed_on_http2(tls) {
            HttpProtocol::Http2
        } else {
            HttpProtocol::Http1
        }
    }

    /// The handshake for a transport with the given TLS info, where nothing is asked
    /// for.
    pub fn call(&self, tls: &Option<TlsConnectionInfo>) -> (picked: HttpProtocol)
        ensures
            picked == if agreed(*tls) == Some("h2"@) {
                HttpProtocol::Http2
            } else {
                HttpProtocol::Http1
            },
    {
        self.handshake(HttpProtocol::Http1, tls)
    }
}

/// A connection can be shared exactly when it leaves a copy of itself, and that is
/// when it speaks a protocol that allows multiplexing.
pub proof fn law_shared_exactly_when_multiplexed<B>(
    before: HttpConnection<B>,
    after: HttpConnection<B>,
    copy: Option<HttpConnection<B>>,
    share: bool,
)
    requires
        HttpConnection::reuses(before, after, copy),
        before.reports_share(share),
    ensures
        share == (copy is Some),
        share == (before.protocol() == HttpProtocol::Http2),
        copy is Some ==> copy->0.protocol() == before.protocol(),
{
}

/// HTTP/2 is spoken where it is asked for, and where both sides agreed on it by its name;
/// HTTP/1 is spoken everywhere else.
pub proof fn law_http2_is_asked_for_or_agreed_on(
    protocol: HttpProtocol,
    tls: Option<TlsConnectionInfo>,
    picked: HttpProtocol,
    unasked: HttpProtocol,
    agreed: bool,
)
    requires
        call_ensures(
            AlpnHttpConnectionBuilder::handshake,
            (&AlpnHttpConnectionBuilder, protocol, &tls),
            picked,
        ),
        call_ensures(
            AlpnHttpConnectionBuilder::call,
            (&AlpnHttpConnectionBuilder, &tls),
            unasked,
        ),
        call_ensures(agreed_on_http2, (&tls,), agreed),
    ensures
        agreed <==> tls is Some && tls->0.alpn is Some && tls->0.alpn->0@ == seq!['h', '2'],
        picked == HttpProtocol::Http2 <==> protocol == HttpProtocol::Http2 || agreed,
        picked == HttpProtocol::Http1 <==> protocol != HttpProtocol::Http2 && !agreed,
        unasked == HttpProtocol::Http2 <==> agreed,
        unasked == HttpProtocol::Http1 <==> !agreed,
{
    reveal_strlit("h2");
    assert("h2"@ =~= seq!['h', '2']);
}

/// A connection by HTTP/1 says so, writes requests so, is not shared, and leaves no copy of
/// itself. It is open when its sending half is ready.
pub proof fn law_http1_connection_is_used_alone<B>(
    sender: hyper::client::conn::http1::SendRequest<B>,
    connection: HttpConnection<B>,
    version: HttpProtocol,
    written: Version,
    share: bool,
    open: bool,
    copy: Option<HttpConnection<B>>,
    after: HttpConnection<B>,
    shown: String,
)
    requires
        call_ensures(HttpConnection::<B>::h1, (sender,), connection),
        call_ensures(HttpConnection::<B>::version, (&connection,), version),
        call_ensures(HttpConnection::<B>::request_version, (&connection,), written),
        call_ensures(HttpConnection::<B>::can_share, (&connection,), share),
        call_ensures(HttpConnection::<B>::is_open, (&connection,), open),
        exists|m: &mut HttpConnection<B>|
            *m == connection && *final(m) == after && #[trigger] call_ensures(
                HttpConnection::<B>::reuse,
                (m,),
                copy,
            ),
        call_ensures(HttpConnection::<B>::debug_text, (&connection,), shown),
    ensures
        connection.inner == InnerConnection::H1(sender),
        version == HttpProtocol::Http1,
        written == Version::Http11,
        !share,
        copy is None,
        after == connection,
        call_ensures(
            hyper::client::conn::http1::SendRequest::<B>::is_ready,
            (&sender,),
            open,
        ),
        shown@ == "HttpConnection { version: HTTP/1.1 }"@,
{
}

/// A connection by HTTP/2 says so, writes requests so, is shared, and leaves a copy of
/// itself that does the same. It is open when its sending half is ready.
pub proof fn law_http2_connection_is_shared<B>(
    sender: hyper::client::conn::http2::SendRequest<B>,
    connection: HttpConnection<B>,
    version: HttpProtocol,
    written: Version,
    share: bool,
    open: bool,
    copy: Option<HttpConnection<B>>,
    after: HttpConnection<B>,
    shown: String,
)
    requires
        call_ensures(HttpConnection::<B>::h2, (sender,), connection),
        call_ensures(HttpConnection::<B>::version, (&connection,), version),
        call_ensures(HttpConnection::<B>::request_version, (&connection,), written),
        call_ensures(HttpConnection::<B>::can_share, (&connection,), share),
        call_ensures(HttpConnection::<B>::is_open, (&connection,), open),
        exists|m: &mut HttpConnection<B>|
            *m == connection && *final(m) == after && #[trigger] call_ensures(
                HttpConnection::<B>::reuse,
                (m,),
                copy,
            ),
        call_ensures(HttpConnection::<B>::debug_text, (&connection,), shown),
    ensures
        connection.inner == InnerConnection::H2(sender),
        version == HttpProtocol::Http2,
        written == Version::Http2,
        share,
        copy is Some,
        copy->0.inner matches InnerConnection::H2(other) && cloned(sender, other),
        after == connection,
        call_ensures(
            hyper::client::conn::http2::SendRequest::<B>::is_ready,
            (&sender,),
            open,
        ),
        shown@ == "HttpConnection { version: HTTP/2.0 }"@,
{
}

} // verus!
