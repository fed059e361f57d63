//! A client with an explicit protocol, on top of TCP.

use vstd::prelude::*;

pub mod conn;
pub mod pool;
pub mod tcp;

use self::conn::ConnectionProtocol;
use crate::client::builder::TlsChoice;
use crate::client::conn::dns::GaiResolver;
use crate::client::conn::tcp::{TcpConnectionConfig, TcpConnector};
use crate::client::error::Cause;
use crate::text;
use crate::time::Duration;

verus! {

/// Client error type, over the errors `E` of the parts that a client is made of.
#[derive(Debug)]
pub enum Error<E> {
    /// Error occured with the underlying connection.
    Connection(Cause<E>),
    /// Error occured with the underlying transport.
    Transport(Cause<E>),
    /// Error occured with the underlying protocol.
    Protocol(Cause<E>),
    /// Error occured with the user's request, such as an invalid URI.
    User(Cause<E>),
    /// Invalid HTTP Method for the current action.
    InvalidMethod(String),
    /// Protocol is not supported by this client or transport.
    UnsupportedProtocol,
}

impl<E> Error<E> {
    /// The client error that stands for a checkout without a connection.
    pub fn from_pool(failure: pool::Error<E>) -> (error: Self)
        ensures
            match failure {
                pool::Error::Connecting(cause) => error == Error::Connection(Cause::Error(cause)),
                pool::Error::Handshaking(cause) => error == Error::Transport(Cause::Error(cause)),
                pool::Error::Unavailable => error matches Error::Connection(Cause::Message(message))
                    && message@ == "pool closed, no connection can be made"@,
            },
    {
        match failure {
            pool::Error::Connecting(cause) => Error::Connection(Cause::Error(cause)),
            pool::Error::Handshaking(cause) => Error::Transport(Cause::Error(cause)),
            pool::Error::Unavailable => Error::Connection(
                Cause::Message("pool closed, no connection can be made".to_owned()),
            ),
        }
    }

    /// The error as text, given the text of its cause.
    pub fn to_string(&self, cause: &str) -> (shown: String)
        ensures
            shown@ == match self {
                Error::Connection(_) => cause@,
                Error::Transport(_) => "transport: "@ + cause@,
                Error::Protocol(_) => "protocol: "@ + cause@,
                Error::User(_) => "user error: "@ + cause@,
                Error::InvalidMethod(method) => "invalid method: "@ + method@,
                Error::UnsupportedProtocol => "unsupported protocol"@,
            },
    {
        match self {
            Error::Connection(_) => cause.to_owned(),
            Error::Transport(_) => text::join("transport: ", cause),
            Error::Protocol(_) => text::join("protocol: ", cause),
            Error::User(_) => text::join("user error: ", cause),
            Error::InvalidMethod(method) => text::join("invalid method: ", method.as_str()),
            Error::UnsupportedProtocol => "unsupported protocol".to_owned(),
        }
    }
}

/// Builder for clients. `L` configures encryption, `A` HTTP/1.1 and `B` HTTP/2.
#[derive(Debug)]
pub struct Builder<L, A, B> {
    tcp: TcpConnectionConfig,
    tls: Option<TlsChoice<L>>,
    pool: Option<pool::Config>,
    conn: conn::Builder<A, B>,
}

/// What a client is made of.
#[derive(Debug)]
pub struct ClientParts<L, A, B> {
    /// What connects.
    pub transport: TcpConnector<GaiResolver, TlsChoice<L>>,
    /// What is spoken.
    pub protocol: conn::Builder<A, B>,
    /// How the pool is set up, where there is one.
    pub pool: Option<pool::Config>,
}

impl<L, A, B> Builder<L, A, B> {
    /// How connections are made.
    pub closed spec fn spec_tcp(self) -> TcpConnectionConfig {
        self.tcp
    }

    /// How connections are encrypted.
    pub closed spec fn spec_tls(self) -> Option<TlsChoice<L>> {
        self.tls
    }

    /// How the pool is set up.
    pub closed spec fn spec_pool(self) -> Option<pool::Config> {
        self.pool
    }

    /// What is spoken.
    pub closed spec fn spec_conn(self) -> conn::Builder<A, B> {
        self.conn
    }

    /// The settings to begin with: what the platform trusts is trusted, connections are
    /// pooled, and HTTP/1.1 is asked for.
    pub fn new(http1: A, http2: B) -> (builder: Self)
        ensures
            builder.spec_tcp().connect_timeout == Some(Duration { nanos: 10_000_000_000 }),
            builder.spec_tcp().keep_alive_timeout == Some(Duration { nanos: 90_000_000_000 }),
            builder.spec_tcp().happy_eyeballs_timeout == Some(Duration { nanos: 300_000_000 }),
            builder.spec_tcp().local_address_ipv4 is None,
            builder.spec_tcp().local_address_ipv6 is None,
            builder.spec_tcp().nodelay,
            builder.spec_tcp().reuse_address,
            builder.spec_tcp().send_buffer_size is None,
            builder.spec_tcp().recv_buffer_size is None,
            builder.spec_tls() == Some(TlsChoice::<L>::Platform),
            builder.spec_pool() == Some(
                pool::Config {
                    idle_timeout: Some(Duration { nanos: 90_000_000_000 }),
                    max_idle_per_host: 32,
                },
            ),
            builder.spec_conn().parts() == (http1, http2),
            builder.spec_conn().spec_protocol() == ConnectionProtocol::Http1,
    {
        Builder {
            tcp: TcpConnectionConfig::default(),
            tls: Some(TlsChoice::Platform),
            pool: Some(pool::Config::default()),
            conn: conn::Builder::new(http1, http2),
        }
    }

    /// How connections are made.
    pub fn tcp(&mut self) -> (tcp: &mut TcpConnectionConfig)
        ensures
            *tcp == old(self).spec_tcp(),
            final(self).spec_tcp() == *final(tcp),
            final(self).spec_tls() == old(self).spec_tls(),
            final(self).spec_pool() == old(self).spec_pool(),
            final(self).spec_conn() == old(self).spec_conn(),
    {
        &mut self.tcp
    }

    /// Use the provided TLS configuration.
    pub fn with_tls(&mut self, config: L) -> (builder: &mut Self)
        ensures
            builder.spec_tls() == Some(TlsChoice::Config(config)),
            builder.spec_tcp() == old(self).spec_tcp(),
            builder.spec_pool() == old(self).spec_pool(),
            builder.spec_conn() == old(self).spec_conn(),
            *final(self) == *final(builder),
    {
        self.tls = Some(TlsChoice::Config(config));
        self
    }

    /// How the pool is set up.
    pub fn pool(&mut self) -> (pool: &mut Option<pool::Config>)
        ensures
            *pool == old(self).spec_pool(),
            final(self).spec_pool() == *final(pool),
            final(self).spec_tcp() == old(self).spec_tcp(),
            final(self).spec_tls() == old(self).spec_tls(),
            final(self).spec_conn() == old(self).spec_conn(),
    {
        &mut self.pool
    }

    /// What is spoken.
    pub fn conn(&mut self) -> (conn: &mut conn::Builder<A, B>)
        ensures
            *conn == old(self).spec_conn(),
            final(self).spec_conn() == *final(conn),
            final(self).spec_tcp() == old(self).spec_tcp(),
            final(self).spec_tls() == old(self).spec_tls(),
            final(self).spec_pool() == old(self).spec_pool(),
    {
        &mut self.conn
    }

    /// What the client is made of. Without a configuration for encryption it is what the
    /// platform trusts.
    pub fn build(self) -> (client: ClientParts<L, A, B>)
        ensures
            client.transport.settings() == self.spec_tcp(),
            client.transport.parts() == (
                GaiResolver,
                match self.spec_tls() {
                    Some(tls) => tls,
                    None => TlsChoice::Platform,
                },
            ),
            client.protocol == self.spec_conn(),
            client.pool == self.spec_pool(),
    {
        let tls = match self.tls {
            Some(tls) => tls,
            None => TlsChoice::Platform,
        };
        ClientParts {
            transport: TcpConnector::new(self.tcp, tls),
            protocol: self.conn,
            pool: self.pool,
        }
    }
}

/// The error of a request says which part of getting its connection failed, and keeps the
/// cause.
pub proof fn law_pool_error_names_the_part_that_failed<E>(
    cause: E,
    connecting: Error<E>,
    handshaking: Error<E>,
    unavailable: Error<E>,
)
    requires
        call_ensures(Error::<E>::from_pool, (pool::Error::Connecting(cause),), connecting),
        call_ensures(Error::<E>::from_pool, (pool::Error::Handshaking(cause),), handshaking),
        call_ensures(Error::<E>::from_pool, (pool::Error::Unavailable,), unavailable),
    ensures
        connecting == Error::Connection(Cause::Error(cause)),
        handshaking == Error::Transport(Cause::Error(cause)),
        unavailable matches Error::Connection(Cause::Message(message)) && message@
            == "pool closed, no connection can be made"@,
{
}

/// A client is built from what it was set to; without a configuration for encryption it
/// trusts what the platform trusts.
pub proof fn law_client_has_its_settings<L, A, B>(
    builder: Builder<L, A, B>,
    client: ClientParts<L, A, B>,
)
    requires
        call_ensures(Builder::<L, A, B>::build, (builder,), client),
    ensures
        client.transport.settings() == builder.spec_tcp(),
        client.protocol == builder.spec_conn(),
        client.pool == builder.spec_pool(),
        builder.spec_tls() matches Some(tls) ==> client.transport.parts().1 == tls,
        builder.spec_tls() is None ==> client.transport.parts().1 is Platform,
{
}

/// What is changed in a builder is changed alone, from what it was, and reaches the client.
pub proof fn law_settings_reach_the_client<L, A, B>(
    http1: A,
    http2: B,
    made: Builder<L, A, B>,
    old_tcp: TcpConnectionConfig,
    tcp: TcpConnectionConfig,
    one: Builder<L, A, B>,
    old_pool: Option<pool::Config>,
    set_pool: Option<pool::Config>,
    two: Builder<L, A, B>,
    old_conn: conn::Builder<A, B>,
    set_conn: conn::Builder<A, B>,
    three: Builder<L, A, B>,
    config: L,
    four: Builder<L, A, B>,
    client: ClientParts<L, A, B>,
)
    requires
        call_ensures(Builder::<L, A, B>::new, (http1, http2), made),
        exists|m: &mut Builder<L, A, B>, place: &mut TcpConnectionConfig|
            *m == made && *final(m) == one && *place == old_tcp && *final(place) == tcp
                && #[trigger] call_ensures(Builder::<L, A, B>::tcp, (m,), place),
        exists|m: &mut Builder<L, A, B>, place: &mut Option<pool::Config>|
            *m == one && *final(m) == two && *place == old_pool && *final(place) == set_pool
                && #[trigger] call_ensures(Builder::<L, A, B>::pool, (m,), place),
        exists|m: &mut Builder<L, A, B>, place: &mut conn::Builder<A, B>|
            *m == two && *final(m) == three && *place == old_conn && *final(place) == set_conn
                && #[trigger] call_ensures(Builder::<L, A, B>::conn, (m,), place),
        exists|m: &mut Builder<L, A, B>, same: &mut Builder<L, A, B>|
            *m == three && *final(m) == four && *final(same) == *same && #[trigger] call_ensures(
                Builder::<L, A, B>::with_tls,
                (m, config),
                same,
            ),
        call_ensures(Builder::<L, A, B>::build, (four,), client),
    ensures
        old_tcp.connect_timeout is Some && old_tcp.connect_timeout->0.nanos == 10 * 1_000_000_000,
        old_pool is Some && old_pool->0.max_idle_per_host == 32,
        old_conn.parts() == (http1, http2),
        client.transport.settings() == tcp,
        client.pool == set_pool,
        client.protocol == set_conn,
        client.transport.parts().1 == TlsChoice::Config(config),
{
}

/// An error is told with its cause, and with the part that failed.
pub proof fn law_error_is_told_with_its_cause<E>(error: Error<E>, cause: &str, shown: String)
    requires
        call_ensures(Error::<E>::to_string, (&error, cause), shown),
    ensures
        error is Connection ==> shown@ == cause@,
        error is Transport ==> shown@ == "transport: "@ + cause@,
        error is Protocol ==> shown@ == "protocol: "@ + cause@,
        error is User ==> shown@ == "user error: "@ + cause@,
        error matches Error::InvalidMethod(method) ==> shown@ == "invalid method: "@ + method@,
        error is UnsupportedProtocol ==> shown@ == "unsupported protocol"@,
{
}

} // verus!
