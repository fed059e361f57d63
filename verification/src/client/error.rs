//! What can go wrong with a request.

use vstd::prelude::*;

use crate::client::conn::connector;
use crate::text;

verus! {

/// What lies behind an error: another error, or a plain statement.
#[derive(Debug, PartialEq, Eq)]
pub enum Cause<E> {
    /// Another error.
    Error(E),
    /// A statement.
    Message(String),
}

/// Client error type, over the errors `E` of the parts that a client is made of.
#[derive(Debug, PartialEq, Eq)]
pub enum Error<E> {
    /// Error occured with the underlying connection.
    Connection(Cause<E>),
    /// Error occured with the underlying transport.
    Transport(Cause<E>),
    /// Error occured with the underlying protocol.
    Protocol(Cause<E>),
    /// Error occured with the underlying service
    Service(Cause<E>),
    /// Error occured with the user's request, such as an invalid URI.
    User(Cause<E>),
    /// Invalid HTTP Method for the current action.
    InvalidMethod(String),
    /// Protocol is not supported by this client or transport.
    UnsupportedProtocol,
    /// Request timeout
    RequestTimeout,
}

/// Why no connection could be had.
#[derive(Debug, PartialEq, Eq)]
pub enum ConnectionError<E> {
    /// The name of the host could not be resolved.
    Resolving(E),
    /// The transport could not be connected.
    Connecting(E),
    /// The protocol could not be started on the transport.
    Handshaking(E),
    /// The service behind the connection failed.
    Service(E),
    /// There is nothing to connect with.
    Unavailable,
}

/// The cause with the given text.
pub open spec fn is_message<E>(cause: Cause<E>, text: Seq<char>) -> bool {
    cause matches Cause::Message(message) && message@ == text
}

/// The client error that stands for a failed connection.
pub open spec fn is_error_for<E>(error: Error<E>, failure: ConnectionError<E>) -> bool {
    match failure {
        ConnectionError::Resolving(cause) => error == Error::Transport(Cause::Error(cause)),
        ConnectionError::Connecting(cause) => error == Error::Transport(Cause::Error(cause)),
        ConnectionError::Handshaking(cause) => error == Error::Protocol(Cause::Error(cause)),
        ConnectionError::Service(cause) => error == Error::Connection(Cause::Error(cause)),
        ConnectionError::Unavailable => error matches Error::Connection(cause) && is_message(
            cause,
            "pool closed, no connection can be made"@,
        ),
    }
}

impl<E> Error<E> {
    /// The client error that stands for a failed connection.
    pub fn from_connection(failure: ConnectionError<E>) -> (error: Self)
        ensures
            is_error_for(error, failure),
    {
        match failure {
            ConnectionError::Resolving(cause) => Error::Transport(Cause::Error(cause)),
            ConnectionError::Connecting(cause) => Error::Transport(Cause::Error(cause)),
            ConnectionError::Handshaking(cause) => Error::Protocol(Cause::Error(cause)),
            ConnectionError::Service(cause) => Error::Connection(Cause::Error(cause)),
            ConnectionError::Unavailable => Error::Connection(
                Cause::Message("pool closed, no connection can be made".to_owned()),
            ),
        }
    }

    /// The client error that stands for a connector that failed.
    pub fn from_connector(failure: connector::Error<E, E>) -> (error: Self)
        ensures
            is_error_for(error, failure.as_failure()),
    {
        match failure {
            connector::Error::Connecting(cause) => Error::from_connection(
                ConnectionError::Connecting(cause),
            ),
            connector::Error::Handshaking(cause) => Error::from_connection(
                ConnectionError::Handshaking(cause),
            ),
            connector::Error::Unavailable => Error::from_connection(ConnectionError::Unavailable),
        }
    }

    /// The error as text, given the text of its cause.
    pub fn to_string(&self, cause: &str) -> (shown: String)
        ensures
            shown@ == match self {
                Error::Connection(_) => "connection: "@ + cause@,
                Error::Transport(_) => "transport: "@ + cause@,
                Error::Protocol(_) => "protocol: "@ + cause@,
                Error::Service(_) => "serivce: "@ + cause@,
                Error::User(_) => "user error: "@ + cause@,
                Error::InvalidMethod(method) => "invalid method: "@ + method@,
                Error::UnsupportedProtocol => "unsupported protocol"@,
                Error::RequestTimeout => "request timeout"@,
            },
    {
        match self {
            Error::Connection(_) => text::join("connection: ", cause),
            Error::Transport(_) => text::join("transport: ", cause),
            Error::Protocol(_) => text::join("protocol: ", cause),
            Error::Service(_) => text::join("serivce: ", cause),
            Error::User(_) => text::join("user error: ", cause),
            Error::InvalidMethod(method) => text::join("invalid method: ", method.as_str()),
            Error::UnsupportedProtocol => "unsupported protocol".to_owned(),
            Error::RequestTimeout => "request timeout".to_owned(),
        }
    }
}

/// The error of a request says which part of making its connection failed, and keeps the
/// cause: the transport where a host was not resolved or not connected to, the protocol
/// where the handshake failed, and the connection where the service behind it failed or
/// there was nothing to connect with.
pub proof fn law_error_names_the_part_that_failed<E>(
    cause: E,
    resolving: Error<E>,
    connecting: Error<E>,
    handshaking: Error<E>,
    service: Error<E>,
    unavailable: Error<E>,
)
    requires
        call_ensures(Error::<E>::from_connection, (ConnectionError::Resolving(cause),), resolving),
        call_ensures(Error::<E>::from_connection, (ConnectionError::Connecting(cause),), connecting),
        call_ensures(
            Error::<E>::from_connection,
            (ConnectionError::Handshaking(cause),),
            handshaking,
        ),
        call_ensures(Error::<E>::from_connection, (ConnectionError::Service(cause),), service),
        call_ensures(Error::<E>::from_connection, (ConnectionError::Unavailable,), unavailable),
    ensures
        resolving == Error::Transport(Cause::Error(cause)),
        connecting == Error::Transport(Cause::Error(cause)),
        handshaking == Error::Protocol(Cause::Error(cause)),
        service == Error::Connection(Cause::Error(cause)),
        unavailable matches Error::Connection(Cause::Message(message)) && message@
            == "pool closed, no connection can be made"@,
{
}

/// A connector that failed is reported as the part of it that failed.
pub proof fn law_connector_error_names_the_part_that_failed<E>(
    cause: E,
    connecting: Error<E>,
    handshaking: Error<E>,
    unavailable: Error<E>,
)
    requires
        call_ensures(
            Error::<E>::from_connector,
            (connector::Error::Connecting(cause),),
            connecting,
        ),
        call_ensures(
            Error::<E>::from_connector,
            (connector::Error::Handshaking(cause),),
            handshaking,
        ),
        call_ensures(Error::<E>::from_connector, (connector::Error::Unavailable,), unavailable),
    ensures
        connecting == Error::Transport(Cause::Error(cause)),
        handshaking == Error::Protocol(Cause::Error(cause)),
        unavailable matches Error::Connection(Cause::Message(message)) && message@
            == "pool closed, no connection can be made"@,
{
}

/// An error as text begins with the part that failed, and ends with its cause.
pub proof fn law_error_text_ends_with_its_cause<E>(error: Error<E>, cause: &str, shown: String)
    requires
        call_ensures(Error::<E>::to_string, (&error, cause), shown),
        error is Connection || error is Transport || error is Protocol || error is Service
            || error is User,
    ensures
        shown@.len() >= cause@.len(),
        shown@.skip(shown@.len() - cause@.len()) == cause@,
        error is Connection ==> shown@.take(shown@.len() - cause@.len()) == "connection: "@,
        error is Transport ==> shown@.take(shown@.len() - cause@.len()) == "transport: "@,
        error is Protocol ==> shown@.take(shown@.len() - cause@.len()) == "protocol: "@,
        error is User ==> shown@.take(shown@.len() - cause@.len()) == "user error: "@,
{
    let start = match error {
        Error::Connection(_) => "connection: "@,
        Error::Transport(_) => "transport: "@,
        Error::Protocol(_) => "protocol: "@,
        Error::Service(_) => "serivce: "@,
        _ => "user error: "@,
    };
    assert(shown@ =~= start + cause@);
    assert(shown@.skip(shown@.len() - cause@.len()) =~= cause@);
    assert(shown@.take(shown@.len() - cause@.len()) =~= start);
}

} // verus!
