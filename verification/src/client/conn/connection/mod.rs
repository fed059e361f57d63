//! Connections are responsible for sending and receiving HTTP requests and responses
//! over an arbitrary two-way stream of bytes.

use vstd::prelude::*;

use crate::client::conn::protocol::Version;
use crate::client::pool::key::UriError;
use crate::client::pool::PoolableConnection;
use crate::text;

pub mod info;
pub mod notify;

verus! {

/// The sending half of an HTTP/1 connection.
#[verifier::external_type_specification]
#[verifier::external_body]
#[verifier::reject_recursive_types(B)]
pub struct ExHttp1SendRequest<B>(hyper::client::conn::http1::SendRequest<B>);

/// The sending half of an HTTP/2 connection.
#[verifier::external_type_specification]
#[verifier::external_body]
#[verifier::reject_recursive_types(B)]
pub struct ExHttp2SendRequest<B>(hyper::client::conn::http2::SendRequest<B>);

/// [`hyper::client::conn::http1::SendRequest::is_ready`]. The answer depends on what the
/// connection has done by the time of the call, so nothing is claimed of it.
pub assume_specification<B>[ hyper::client::conn::http1::SendRequest::<B>::is_ready ](
    sender: &hyper::client::conn::http1::SendRequest<B>,
) -> (ready: bool);

/// [`hyper::client::conn::http2::SendRequest::is_ready`]. The answer depends on what the
/// connection has done by the time of the call, so nothing is claimed of it.
pub assume_specification<B>[ hyper::client::conn::http2::SendRequest::<B>::is_ready ](
    sender: &hyper::client::conn::http2::SendRequest<B>,
) -> (ready: bool);

/// Whether asking the sending half of an HTTP/1 connection if it is ready may give
/// `ready`.
pub open spec fn http1_reports<B>(
    sender: hyper::client::conn::http1::SendRequest<B>,
    ready: bool,
) -> bool {
    call_ensures(hyper::client::conn::http1::SendRequest::<B>::is_ready, (&sender,), ready)
}

/// Whether asking the sending half of an HTTP/2 connection if it is ready may give
/// `ready`.
pub open spec fn http2_reports<B>(
    sender: hyper::client::conn::http2::SendRequest<B>,
    ready: bool,
) -> bool {
    call_ensures(hyper::client::conn::http2::SendRequest::<B>::is_ready, (&sender,), ready)
}

/// Calls the `Clone` of [`hyper::client::conn::http2::SendRequest`], which makes
/// another sender on the same connection: the copy is what that call gives.
#[verifier::external_body]
pub(crate) fn http2_clone<B>(sender: &hyper::client::conn::http2::SendRequest<B>) -> (copy:
    hyper::client::conn::http2::SendRequest<B>)
    ensures
        cloned(*sender, copy),
{
    sender.clone()
}

/// An HTTP/1 connection.
#[derive(Debug)]
#[verifier::reject_recursive_types(B)]
pub struct Http1Connection<B>(pub hyper::client::conn::http1::SendRequest<B>);

impl<B> Http1Connection<B> {
    /// The sending half.
    pub open spec fn sender(self) -> hyper::client::conn::http1::SendRequest<B> {
        self.0
    }

    /// A connection with the given sending half.
    pub fn new(send_request: hyper::client::conn::http1::SendRequest<B>) -> (connection: Self)
        ensures
            connection.sender() == send_request,
    {
        Http1Connection(send_request)
    }

    /// The version that requests on this connection are written in.
    pub fn version(&self) -> (version: Version)
        ensures
            version == Version::Http11,
    {
        Version::Http11
    }
}

impl<B> PoolableConnection for Http1Connection<B> {
    open spec fn reports_open(&self, open: bool) -> bool {
        http1_reports(self.sender(), open)
    }

    open spec fn reports_share(&self, share: bool) -> bool {
        !share
    }

    open spec fn reuses(before: Self, after: Self, copy: Option<Self>) -> bool {
        after == before && copy is None
    }

    fn is_open(&self) -> (open: bool) {
        self.0.is_ready()
    }

    fn can_share(&self) -> (share: bool) {
        false
    }

    fn reuse(&mut self) -> (copy: Option<Self>) {
        None
    }
}

/// An HTTP/2 connection.
#[derive(Debug)]
#[verifier::reject_recursive_types(B)]
pub struct Http2Connection<B>(pub hyper::client::conn::http2::SendRequest<B>);

impl<B> Http2Connection<B> {
    /// The sending half.
    pub open spec fn sender(self) -> hyper::client::conn::http2::SendRequest<B> {
        self.0
    }

    /// A connection with the given sending half.
    pub fn new(send_request: hyper::client::conn::http2::SendRequest<B>) -> (connection: Self)
        ensures
            connection.sender() == send_request,
    {
        Http2Connection(send_request)
    }

    /// The version that requests on this connection are written in.
    pub fn version(&self) -> (version: Version)
        ensures
            version == Version::Http2,
    {
        Version::Http2
    }
}

impl<B> Clone for Http2Connection<B> {
    fn clone(&self) -> (copy: Self)
        ensures
            cloned(self.sender(), copy.sender()),
    {
        Http2Connection(http2_clone(&self.0))
    }
}

impl<B> PoolableConnection for Http2Connection<B> {
    open spec fn reports_open(&self, open: bool) -> bool {
        http2_reports(self.sender(), open)
    }

    open spec fn reports_share(&self, share: bool) -> bool {
        share
    }

    open spec fn reuses(before: Self, after: Self, copy: Option<Self>) -> bool {
        after == before && (copy matches Some(copy) && cloned(before.sender(), copy.sender()))
    }

    fn is_open(&self) -> (open: bool) {
        self.0.is_ready()
    }

    fn can_share(&self) -> (share: bool) {
        true
    }

    fn reuse(&mut self) -> (copy: Option<Self>) {
        Some(Http2Connection(http2_clone(&self.0)))
    }
}

/// Error returned when a connection could not be established, over the errors `E` of
/// the parts that a connection is made of.
#[derive(Debug)]
pub enum ConnectionError<E> {
    /// Error connecting to the remote host via the transport
    Connecting(E),
    /// Error completing the handshake.
    Handshake(E),
    /// Connection was cancelled, probably because another one was established.
    Canceled(E),
    /// Connection was closed.
    Closed(E),
    /// Connection timed out.
    Timeout,
    /// Invalid URI for the connection
    InvalidUri(UriError),
}

impl<E> ConnectionError<E> {
    /// The error as text, given the text of its cause.
    pub fn to_string(&self, cause: &str) -> (shown: String)
        ensures
            shown@ == match self {
                ConnectionError::Connecting(_) => cause@,
                ConnectionError::Handshake(_) => "handshake: "@ + cause@,
                ConnectionError::Canceled(_) => "connection cancelled"@,
                ConnectionError::Closed(_) => "connection closed"@,
                ConnectionError::Timeout => "connection timeout"@,
                ConnectionError::InvalidUri(_) => "invalid URI"@,
            },
    {
        match self {
            ConnectionError::Connecting(_) => cause.to_owned(),
            ConnectionError::Handshake(_) => text::join("handshake: ", cause),
            ConnectionError::Canceled(_) => "connection cancelled".to_owned(),
            ConnectionError::Closed(_) => "connection closed".to_owned(),
            ConnectionError::Timeout => "connection timeout".to_owned(),
            ConnectionError::InvalidUri(_) => "invalid URI".to_owned(),
        }
    }
}

/// A connection by HTTP/1 is used alone and leaves no copy of itself; one by HTTP/2 is
/// shared and leaves a copy on the same sending half. Each is open when its sending half is
/// ready, and writes requests in its own version.
pub proof fn law_connections_are_shared_by_http2_alone<B>(
    first: hyper::client::conn::http1::SendRequest<B>,
    one: Http1Connection<B>,
    one_open: bool,
    one_share: bool,
    one_copy: Option<Http1Connection<B>>,
    one_after: Http1Connection<B>,
    one_version: Version,
    second: hyper::client::conn::http2::SendRequest<B>,
    two: Http2Connection<B>,
    two_open: bool,
    two_share: bool,
    two_copy: Option<Http2Connection<B>>,
    two_after: Http2Connection<B>,
    two_version: Version,
)
    requires
        call_ensures(Http1Connection::<B>::new, (first,), one),
        call_ensures(Http1Connection::<B>::is_open, (&one,), one_open),
        call_ensures(Http1Connection::<B>::can_share, (&one,), one_share),
        exists|m: &mut Http1Connection<B>|
            *m == one && *final(m) == one_after && #[trigger] call_ensures(
                Http1Connection::<B>::reuse,
                (m,),
                one_copy,
            ),
        call_ensures(Http1Connection::<B>::version, (&one,), one_version),
        call_ensures(Http2Connection::<B>::new, (second,), two),
        call_ensures(Http2Connection::<B>::is_open, (&two,), two_open),
        call_ensures(Http2Connection::<B>::can_share, (&two,), two_share),
        exists|m: &mut Http2Connection<B>|
            *m == two && *final(m) == two_after && #[trigger] call_ensures(
                Http2Connection::<B>::reuse,
                (m,),
                two_copy,
            ),
        call_ensures(Http2Connection::<B>::version, (&two,), two_version),
    ensures
        call_ensures(
            hyper::client::conn::http1::SendRequest::<B>::is_ready,
            (&first,),
            one_open,
        ),
        !one_share,
        one_copy is None,
        one_after == one && one.0 == first,
        one_version == Version::Http11,
        call_ensures(
            hyper::client::conn::http2::SendRequest::<B>::is_ready,
            (&second,),
            two_open,
        ),
        two_share,
        two_copy matches Some(copy) && cloned(second, copy.0),
        two_after == two && two.0 == second,
        two_version == Version::Http2,
{
}

/// A connection that could not be made is told with its cause where that says what went
/// wrong, and for what it is otherwise.
pub proof fn law_connection_error_is_told_with_its_cause<E>(
    error: ConnectionError<E>,
    cause: &str,
    shown: String,
)
    requires
        call_ensures(ConnectionError::<E>::to_string, (&error, cause), shown),
    ensures
        error is Connecting ==> shown@ == cause@,
        error is Handshake ==> shown@ == "handshake: "@ + cause@,
        error is Canceled ==> shown@ == "connection cancelled"@,
        error is Closed ==> shown@ == "connection closed"@,
        error is Timeout ==> shown@ == "connection timeout"@,
        error is InvalidUri ==> shown@ == "invalid URI"@,
{
}

} // verus!
