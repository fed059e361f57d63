//! Builder for clients.

use vstd::prelude::*;

use crate::client::conn::dns::GaiResolver;
use crate::client::conn::protocol::auto::AlpnHttpConnectionBuilder;
use crate::client::conn::transport::tcp::{self, HostFromUri, TcpTransport, TcpTransportConfig};
use crate::client::pool::Config;
use crate::time::Duration;

verus! {

/// What a client calls itself where it has no other name.
pub const USER_AGENT: &'static str = "hyperdriver/0.1.0";

/// The value of a header (`http::HeaderValue`). Its bytes are named by
/// [`header_content`].
#[verifier::external_type_specification]
#[verifier::external_body]
pub struct ExHeaderValue(http::HeaderValue);

/// The bytes of the value of a header.
pub uninterp spec fn header_content(value: http::HeaderValue) -> Seq<u8>;

/// Whether a text can be the value of a header: it holds no control characters but
/// the tab.
pub open spec fn is_header_text(text: Seq<char>) -> bool {
    forall|i: int|
        0 <= i < text.len() ==> (#[trigger] text[i] == '\t' || ('\u{20}' <= text[i] && text[i]
            != '\u{7f}'))
}

/// Calls `http::HeaderValue::from_str`, which takes the bytes of a text as they are
/// unless one of them is a control character. The bytes of other characters than
/// those of ASCII are none.
#[verifier::external_body]
fn header_value(text: &str) -> (value: Option<http::HeaderValue>)
    ensures
        value is Some == is_header_text(text@),
        value is Some ==> header_content(value->0) == vstd::utf8::encode_utf8(text@),
{
    http::HeaderValue::from_str(text).ok()
}

/// No layer.
#[derive(Debug, Clone, Copy, PartialEq, Eq, Structural)]
pub struct Identity;

/// A layer inside others.
#[derive(Debug)]
pub struct Stack<L, S> {
    /// The layer.
    pub inner: L,
    /// What is around it.
    pub outer: S,
}

/// The way in which redirects are followed where nothing else is asked for.
#[derive(Debug, Clone, Copy, PartialEq, Eq, Structural)]
pub struct Standard;

/// The encryption of a client.
#[derive(Debug)]
pub enum TlsChoice<L> {
    /// What the platform trusts, with HTTP/2 and HTTP/1.1 on offer.
    Platform,
    /// A configuration of its own.
    Config(L),
}

/// The names of the protocols that a client offers when a connection is encrypted, the
/// one that it prefers first.
pub fn alpn_protocols() -> (names: Vec<String>)
    ensures
        names@.len() == 2,
        names@[0]@ == "h2"@,
        names@[1]@ == "http/1.1"@,
{
    let mut names: Vec<String> = Vec::new();
    names.push("h2".to_owned());
    names.push("http/1.1".to_owned());
    names
}

/// A builder for a client.
///
/// `D` resolves names, `T` connects, `P` is spoken, `RP` says which redirects are
/// followed, `S` is what is put around the client, and `L` configures encryption.
#[derive(Debug)]
pub struct Builder<D, T, P, RP, S, L> {
    resolver: D,
    transport: T,
    protocol: P,
    builder: S,
    user_agent: Option<String>,
    redirect: Option<RP>,
    timeout: Option<Duration>,
    tls: Option<TlsChoice<L>>,
    pool: Option<Config>,
}

/// What a [`Builder`] is set to.
pub struct Settings<D, T, P, RP, S, L> {
    /// What resolves names.
    pub resolver: D,
    /// What connects.
    pub transport: T,
    /// What is spoken.
    pub protocol: P,
    /// What is put around the client.
    pub layers: S,
    /// What the client calls itself.
    pub user_agent: Option<Seq<char>>,
    /// Which redirects are followed.
    pub redirect: Option<RP>,
    /// How long a request may take.
    pub timeout: Option<Duration>,
    /// How connections are encrypted.
    pub tls: Option<TlsChoice<L>>,
    /// How the pool is set up.
    pub pool: Option<Config>,
}

impl<D, T, P, RP, S, L> View for Builder<D, T, P, RP, S, L> {
    type V = Settings<D, T, P, RP, S, L>;

    closed spec fn view(&self) -> Settings<D, T, P, RP, S, L> {
        Settings {
            resolver: self.resolver,
            transport: self.transport,
            protocol: self.protocol,
            layers: self.builder,
            user_agent: match self.user_agent {
                Some(name) => Some(name@),
                None => None,
            },
            redirect: self.redirect,
            timeout: self.timeout,
            tls: self.tls,
            pool: self.pool,
        }
    }
}

/// A layer of a client, from the one that a request meets first to the one that sends
/// it.
#[derive(Debug, Clone, Copy, PartialEq, Eq, Structural)]
pub enum ClientLayer {
    /// Gives up after a while.
    Timeout(Duration),
    /// Follows redirects.
    FollowRedirect,
    /// Says who the client is, where the request does not.
    UserAgent,
    /// Makes the response's body one of the client's.
    IncomingResponse,
    /// Gets a connection, from the pool where there is one.
    ConnectionPool(Option<Config>),
    /// Says which host the request is for.
    SetHostHeader,
    /// Checks a request for HTTP/2.
    Http2Checks,
    /// Checks a request for HTTP/1.1.
    Http1Checks,
    /// Sends the request on the connection.
    Execute,
}

/// The layers of a client with the given settings.
pub open spec fn layers_of(
    timeout: Option<Duration>,
    redirects: bool,
    pool: Option<Config>,
) -> Seq<ClientLayer> {
    let limited = match timeout {
        Some(span) => seq![ClientLayer::Timeout(span)],
        None => Seq::empty(),
    };
    let redirected = if redirects {
        seq![ClientLayer::FollowRedirect]
    } else {
        Seq::empty()
    };
    limited + redirected + seq![
        ClientLayer::UserAgent,
        ClientLayer::IncomingResponse,
        ClientLayer::ConnectionPool(pool),
        ClientLayer::SetHostHeader,
        ClientLayer::Http2Checks,
        ClientLayer::Http1Checks,
        ClientLayer::Execute,
    ]
}

/// A client, as its layers and what they are made with.
#[derive(Debug)]
pub struct ClientService<D, T, P, RP, S, L> {
    /// What is put around the client.
    pub outer: S,
    /// The layers, the outermost first.
    pub layers: Vec<ClientLayer>,
    /// What the client calls itself.
    pub user_agent: http::HeaderValue,
    /// Which redirects are followed.
    pub redirect: Option<RP>,
    /// What resolves names. With encryption, the name is kept for the handshake.
    pub resolver: D,
    /// What connects. With encryption, what it connects is encrypted.
    pub transport: T,
    /// What is spoken.
    pub protocol: P,
    /// How connections are encrypted, where they are.
    pub tls: Option<TlsChoice<L>>,
}

impl<L> Builder<(), (), (), Standard, Identity, L> {
    /// Create a new, empty builder
    pub fn new() -> (builder: Self)
        ensures
            builder@ == (Settings::<(), (), (), Standard, Identity, L> {
                resolver: (),
                transport: (),
                protocol: (),
                layers: Identity,
                user_agent: None,
                redirect: None,
                timeout: None,
                tls: None,
                pool: None,
            }),
    {
        Builder {
            resolver: (),
            transport: (),
            protocol: (),
            builder: Identity,
            user_agent: None,
            redirect: None,
            timeout: None,
            tls: None,
            pool: None,
        }
    }
}

impl<L> Default for Builder<
    GaiResolver,
    TcpTransport<GaiResolver, HostFromUri>,
    AlpnHttpConnectionBuilder,
    Standard,
    Identity,
    L,
> {
    /// Requests over TCP, encrypted where they should be, with redirects, a pool, and
    /// half a minute for each.
    fn default() -> (builder: Self)
        ensures
            builder@.resolver == GaiResolver,
            tcp::is_default_config(builder@.transport.settings()),
            builder@.transport.parts() == (GaiResolver, HostFromUri),
            builder@.protocol == AlpnHttpConnectionBuilder,
            builder@.layers == Identity,
            builder@.user_agent is None,
            builder@.redirect == Some(Standard),
            builder@.timeout == Some(Duration { nanos: 30_000_000_000 }),
            builder@.tls == Some(TlsChoice::<L>::Platform),
            builder@.pool matches Some(pool) && is_default_pool(pool),
    {
        Builder {
            resolver: GaiResolver::new(),
            transport: TcpTransport::default(),
            protocol: AlpnHttpConnectionBuilder,
            builder: Identity,
            user_agent: None,
            redirect: Some(Standard),
            timeout: Some(Duration::from_secs(30)),
            tls: Some(TlsChoice::Platform),
            pool: Some(Config::default()),
        }
    }
}

/// The pool of a client that asks for nothing else: idle connections are kept for a
/// minute and a half, 32 of them for each host.
pub open spec fn is_default_pool(config: Config) -> bool {
    &&& config.idle_timeout == Some(Duration { nanos: 90_000_000_000 })
    &&& config.max_idle_per_host == 32
    &&& config.continue_after_preemption
}

impl<D, T, P, RP, S, L> Builder<D, T, P, RP, S, L> {
    /// Use the provided TCP configuration.
    pub fn with_tcp(self, config: TcpTransportConfig) -> (builder: Builder<
        D,
        TcpTransport<GaiResolver, HostFromUri>,
        P,
        RP,
        S,
        L,
    >)
        ensures
            builder@.transport.settings() == config,
            builder@.transport.parts() == (GaiResolver, HostFromUri),
            builder@ == (Settings {
                resolver: self@.resolver,
                transport: builder@.transport,
                protocol: self@.protocol,
                layers: self@.layers,
                user_agent: self@.user_agent,
                redirect: self@.redirect,
                timeout: self@.timeout,
                tls: self@.tls,
                pool: self@.pool,
            }),
    {
        let transport = TcpTransport::<(), ()>::builder().with_config(
            config,
        ).with_gai_resolver().with_host_from_uri().build();
        self.with_transport(transport)
    }

    /// Provide a custom transport
    pub fn with_transport<T2>(self, transport: T2) -> (builder: Builder<D, T2, P, RP, S, L>)
        ensures
            builder@ == (Settings {
                resolver: self@.resolver,
                transport,
                protocol: self@.protocol,
                layers: self@.layers,
                user_agent: self@.user_agent,
                redirect: self@.redirect,
                timeout: self@.timeout,
                tls: self@.tls,
                pool: self@.pool,
            }),
    {
        Builder {
            resolver: self.resolver,
            transport,
            protocol: self.protocol,
            builder: self.builder,
            user_agent: self.user_agent,
            redirect: self.redirect,
            timeout: self.timeout,
            tls: self.tls,
            pool: self.pool,
        }
    }

    /// Get a mutable reference to the transport configuration
    pub fn transport(&mut self) -> (transport: &mut T)
        ensures
            *transport == old(self)@.transport,
            final(self)@ == (Settings { transport: *final(transport), ..old(self)@ }),
    {
        &mut self.transport
    }

    /// Disable TLS
    pub fn without_tls(self) -> (builder: Self)
        ensures
            builder@ == (Settings { tls: None, ..self@ }),
    {
        Builder { tls: None, ..self }
    }

    /// Use the provided TLS configuration.
    pub fn with_tls(self, config: L) -> (builder: Self)
        ensures
            builder@ == (Settings { tls: Some(TlsChoice::Config(config)), ..self@ }),
    {
        Builder { tls: Some(TlsChoice::Config(config)), ..self }
    }

    /// Use the default TLS configuration with native root certificates.
    pub fn with_default_tls(self) -> (builder: Self)
        ensures
            builder@ == (Settings { tls: Some(TlsChoice::Platform), ..self@ }),
    {
        Builder { tls: Some(TlsChoice::Platform), ..self }
    }

    /// TLS configuration.
    pub fn tls(&mut self) -> (tls: &mut Option<TlsChoice<L>>)
        ensures
            *tls == old(self)@.tls,
            final(self)@ == (Settings { tls: *final(tls), ..old(self)@ }),
    {
        &mut self.tls
    }

    /// Connection pool configuration.
    pub fn pool(&mut self) -> (pool: Option<&mut Config>)
        ensures
            match pool {
                Some(pool) => old(self)@.pool == Some(*pool) && final(self)@ == (Settings {
                    pool: Some(*final(pool)),
                    ..old(self)@
                }),
                None => old(self)@.pool is None && final(self)@ == old(self)@,
            },
    {
        match &mut self.pool {
            Some(pool) => Some(pool),
            None => None,
        }
    }

    /// Use the provided connection pool configuration.
    pub fn with_pool(self, pool: Config) -> (builder: Self)
        ensures
            builder@ == (Settings { pool: Some(pool), ..self@ }),
    {
        Builder { pool: Some(pool), ..self }
    }

    /// Configure the default pool settings
    pub fn with_default_pool(self) -> (builder: Self)
        ensures
            builder@.pool matches Some(pool) && is_default_pool(pool),
            builder@ == (Settings { pool: builder@.pool, ..self@ }),
    {
        Builder { pool: Some(Config::default()), ..self }
    }

    /// Disable connection pooling.
    pub fn without_pool(self) -> (builder: Self)
        ensures
            builder@ == (Settings { pool: None, ..self@ }),
    {
        Builder { pool: None, ..self }
    }

    /// Use the auto-HTTP Protocol
    pub fn with_auto_http(self) -> (builder: Builder<D, T, AlpnHttpConnectionBuilder, RP, S, L>)
        ensures
            builder@ == (Settings {
                resolver: self@.resolver,
                transport: self@.transport,
                protocol: AlpnHttpConnectionBuilder,
                layers: self@.layers,
                user_agent: self@.user_agent,
                redirect: self@.redirect,
                timeout: self@.timeout,
                tls: self@.tls,
                pool: self@.pool,
            }),
    {
        self.with_protocol(AlpnHttpConnectionBuilder)
    }

    /// Use the provided HTTP connection configuration.
    pub fn with_protocol<P2>(self, protocol: P2) -> (builder: Builder<D, T, P2, RP, S, L>)
        ensures
            builder@ == (Settings {
                resolver: self@.resolver,
                transport: self@.transport,
                protocol,
                layers: self@.layers,
                user_agent: self@.user_agent,
                redirect: self@.redirect,
                timeout: self@.timeout,
                tls: self@.tls,
                pool: self@.pool,
            }),
    {
        Builder {
            resolver: self.resolver,
            transport: self.transport,
            protocol,
            builder: self.builder,
            user_agent: self.user_agent,
            redirect: self.redirect,
            timeout: self.timeout,
            tls: self.tls,
            pool: self.pool,
        }
    }

    /// HTTP connection configuration.
    pub fn protocol(&mut self) -> (protocol: &mut P)
        ensures
            *protocol == old(self)@.protocol,
            final(self)@ == (Settings { protocol: *final(protocol), ..old(self)@ }),
    {
        &mut self.protocol
    }

    /// Set the User-Agent header.
    pub fn with_user_agent(self, user_agent: String) -> (builder: Self)
        ensures
            builder@ == (Settings { user_agent: Some(user_agent@), ..self@ }),
    {
        Builder { user_agent: Some(user_agent), ..self }
    }

    /// Get the user agent currently configured
    pub fn user_agent(&self) -> (user_agent: Option<&str>)
        ensures
            match self@.user_agent {
                Some(name) => user_agent matches Some(text) && text@ == name,
                None => user_agent is None,
            },
    {
        match &self.user_agent {
            Some(user_agent) => Some(user_agent.as_str()),
            None => None,
        }
    }

    /// Set the redirect policy.
    pub fn with_redirect_policy<RP2>(self, policy: RP2) -> (builder: Builder<D, T, P, RP2, S, L>)
        ensures
            builder@ == (Settings {
                resolver: self@.resolver,
                transport: self@.transport,
                protocol: self@.protocol,
                layers: self@.layers,
                user_agent: self@.user_agent,
                redirect: Some(policy),
                timeout: self@.timeout,
                tls: self@.tls,
                pool: self@.pool,
            }),
    {
        Builder {
            resolver: self.resolver,
            transport: self.transport,
            protocol: self.protocol,
            builder: self.builder,
            user_agent: self.user_agent,
            redirect: Some(policy),
            timeout: self.timeout,
            tls: self.tls,
            pool: self.pool,
        }
    }

    /// Disable redirects.
    pub fn without_redirects(self) -> (builder: Builder<D, T, P, Standard, S, L>)
        ensures
            builder@ == (Settings {
                resolver: self@.resolver,
                transport: self@.transport,
                protocol: self@.protocol,
                layers: self@.layers,
                user_agent: self@.user_agent,
                redirect: None::<Standard>,
                timeout: self@.timeout,
                tls: self@.tls,
                pool: self@.pool,
            }),
    {
        Builder {
            resolver: self.resolver,
            transport: self.transport,
            protocol: self.protocol,
            builder: self.builder,
            user_agent: self.user_agent,
            redirect: None,
            timeout: self.timeout,
            tls: self.tls,
            pool: self.pool,
        }
    }

    /// Set the standard redirect policy.
    pub fn with_standard_redirect_policy(self) -> (builder: Builder<D, T, P, Standard, S, L>)
        ensures
            builder@ == (Settings {
                resolver: self@.resolver,
                transport: self@.transport,
                protocol: self@.protocol,
                layers: self@.layers,
                user_agent: self@.user_agent,
                redirect: Some(Standard),
                timeout: self@.timeout,
                tls: self@.tls,
                pool: self@.pool,
            }),
    {
        self.with_redirect_policy(Standard)
    }

    /// Configured redirect policy.
    pub fn redirect_policy(&mut self) -> (policy: Option<&mut RP>)
        ensures
            match policy {
                Some(policy) => old(self)@.redirect == Some(*policy) && final(self)@ == (Settings {
                    redirect: Some(*final(policy)),
                    ..old(self)@
                }),
                None => old(self)@.redirect is None && final(self)@ == old(self)@,
            },
    {
        match &mut self.redirect {
            Some(policy) => Some(policy),
            None => None,
        }
    }

    /// Set the timeout for requests.
    pub fn with_timeout(self, timeout: Duration) -> (builder: Self)
        ensures
            builder@ == (Settings { timeout: Some(timeout), ..self@ }),
    {
        Builder { timeout: Some(timeout), ..self }
    }

    /// Get the timeout for requests.
    pub fn timeout(&self) -> (timeout: Option<Duration>)
        ensures
            timeout == self@.timeout,
    {
        self.timeout
    }

    /// Disable request timeouts.
    pub fn without_timeout(self) -> (builder: Self)
        ensures
            builder@ == (Settings { timeout: None, ..self@ }),
    {
        Builder { timeout: None, ..self }
    }

    /// Set the timeout for requests with an Option.
    pub fn with_optional_timeout(self, timeout: Option<Duration>) -> (builder: Self)
        ensures
            builder@ == (Settings { timeout, ..self@ }),
    {
        Builder { timeout, ..self }
    }

    /// Add a layer to the service under construction. It stands inside the layers that
    /// were added before.
    pub fn layer<I>(self, layer: I) -> (builder: Builder<D, T, P, RP, Stack<I, S>, L>)
        ensures
            builder@ == (Settings {
                resolver: self@.resolver,
                transport: self@.transport,
                protocol: self@.protocol,
                layers: Stack { inner: layer, outer: self@.layers },
                user_agent: self@.user_agent,
                redirect: self@.redirect,
                timeout: self@.timeout,
                tls: self@.tls,
                pool: self@.pool,
            }),
    {
        Builder {
            resolver: self.resolver,
            transport: self.transport,
            protocol: self.protocol,
            builder: Stack { inner: layer, outer: self.builder },
            user_agent: self.user_agent,
            redirect: self.redirect,
            timeout: self.timeout,
            tls: self.tls,
            pool: self.pool,
        }
    }

    /// Build a client service with the configured layers. What the client calls itself
    /// has to be a text that a header can hold.
    pub fn build_service(self) -> (service: ClientService<D, T, P, RP, S, L>)
        requires
            self@.user_agent matches Some(name) ==> is_header_text(name),
        ensures
            service.outer == self@.layers,
            service.layers@ == layers_of(
                self@.timeout,
                self@.redirect is Some,
                self@.pool,
            ),
            header_content(service.user_agent) == vstd::utf8::encode_utf8(
                match self@.user_agent {
                    Some(name) => name,
                    None => USER_AGENT@,
                },
            ),
            service.redirect == self@.redirect,
            service.resolver == self@.resolver,
            service.transport == self@.transport,
            service.protocol == self@.protocol,
            service.tls == self@.tls,
    {
        proof {
            reveal_strlit("hyperdriver/0.1.0");
        }
        let user_agent = match &self.user_agent {
            Some(name) => header_value(name.as_str()),
            None => header_value(USER_AGENT),
        };
        let mut layers: Vec<ClientLayer> = Vec::new();
        if let Some(span) = self.timeout {
            layers.push(ClientLayer::Timeout(span));
        }
        if self.redirect.is_some() {
            layers.push(ClientLayer::FollowRedirect);
        }
        layers.push(ClientLayer::UserAgent);
        layers.push(ClientLayer::IncomingResponse);
        layers.push(ClientLayer::ConnectionPool(self.pool));
        layers.push(ClientLayer::SetHostHeader);
        layers.push(ClientLayer::Http2Checks);
        layers.push(ClientLayer::Http1Checks);
        layers.push(ClientLayer::Execute);
        assert(layers@ =~= layers_of(self@.timeout, self@.redirect is Some, self@.pool));
        ClientService {
            outer: self.builder,
            layers,
            user_agent: user_agent.unwrap(),
            redirect: self.redirect,
            resolver: self.resolver,
            transport: self.transport,
            protocol: self.protocol,
            tls: self.tls,
        }
    }
}

/// Time for a request covers its redirects, and each request that follows one says who
/// the client is.
pub proof fn law_timeout_covers_redirects(
    timeout: Option<Duration>,
    redirects: bool,
    pool: Option<Config>,
    limit: int,
    follow: int,
    name: int,
)
    requires
        0 <= limit < layers_of(timeout, redirects, pool).len(),
        0 <= follow < layers_of(timeout, redirects, pool).len(),
        0 <= name < layers_of(timeout, redirects, pool).len(),
        layers_of(timeout, redirects, pool)[limit] is Timeout,
        layers_of(timeout, redirects, pool)[follow] is FollowRedirect,
        layers_of(timeout, redirects, pool)[name] is UserAgent,
    ensures
        limit < follow < name,
{
}

/// Whatever a client is set to, it gets a connection before it sends the request, and
/// checks the request once it knows the connection.
pub proof fn law_connection_comes_before_sending(
    timeout: Option<Duration>,
    redirects: bool,
    pool: Option<Config>,
)
    ensures
        ({
            let layers = layers_of(timeout, redirects, pool);
            &&& layers.len() >= 7
            &&& layers.last() is Execute
            &&& layers[layers.len() - 5] == ClientLayer::ConnectionPool(pool)
            &&& layers[layers.len() - 4] is SetHostHeader
            &&& layers[layers.len() - 3] is Http2Checks
            &&& layers[layers.len() - 2] is Http1Checks
        }),
{
}

/// A client that was built has what it was set to: the transport, the protocol, the
/// resolver, the encryption and the redirects; a limit on time stands around everything,
/// redirects are followed inside it, and a pool is used exactly where one is configured.
pub proof fn law_client_is_built_as_set<D, T, P, RP, S, L>(
    builder: Builder<D, T, P, RP, S, L>,
    service: ClientService<D, T, P, RP, S, L>,
)
    requires
        builder@.user_agent matches Some(name) ==> is_header_text(name),
        call_ensures(Builder::<D, T, P, RP, S, L>::build_service, (builder,), service),
    ensures
        service.transport == builder@.transport,
        service.protocol == builder@.protocol,
        service.resolver == builder@.resolver,
        service.tls == builder@.tls,
        service.redirect == builder@.redirect,
        service.outer == builder@.layers,
        builder@.timeout matches Some(limit) ==> service.layers@[0] == ClientLayer::Timeout(limit),
        builder@.timeout is None ==> forall|i: int|
            0 <= i < service.layers@.len() ==> !(#[trigger] service.layers@[i] is Timeout),
        builder@.redirect is Some <==> exists|i: int|
            0 <= i < service.layers@.len() && #[trigger] service.layers@[i] is FollowRedirect,
        service.layers@.last() is Execute,
        service.layers@[service.layers@.len() - 5] == ClientLayer::ConnectionPool(builder@.pool),
        builder@.user_agent matches Some(name) ==> header_content(service.user_agent)
            == vstd::utf8::encode_utf8(name),
        builder@.user_agent is None ==> header_content(service.user_agent)
            == vstd::utf8::encode_utf8("hyperdriver/0.1.0"@),
{
    let layers = service.layers@;
    let start: int = if builder@.timeout is Some {
        1
    } else {
        0
    };
    if builder@.redirect is Some {
        assert(layers[start] is FollowRedirect);
    }
}

/// The layers of a client stand in the order in which a request meets them: time runs out
/// around redirects, each request that follows one says who the client is, then a
/// connection is got, and only a request that has one is checked and sent on it.
pub proof fn law_layers_stand_in_order<D, T, P, RP, S, L>(
    builder: Builder<D, T, P, RP, S, L>,
    service: ClientService<D, T, P, RP, S, L>,
)
    requires
        builder@.user_agent matches Some(name) ==> is_header_text(name),
        call_ensures(Builder::<D, T, P, RP, S, L>::build_service, (builder,), service),
    ensures
        ({
            let layers = service.layers@;
            let end = layers.len();
            &&& end >= 7
            &&& layers[end - 7] is UserAgent
            &&& layers[end - 6] is IncomingResponse
            &&& layers[end - 5] is ConnectionPool
            &&& layers[end - 4] is SetHostHeader
            &&& layers[end - 3] is Http2Checks
            &&& layers[end - 2] is Http1Checks
            &&& layers[end - 1] is Execute
            &&& builder@.redirect is Some ==> layers[end - 8] is FollowRedirect
            &&& end == 7 + (if builder@.redirect is Some {
                1int
            } else {
                0
            }) + (if builder@.timeout is Some {
                1int
            } else {
                0
            })
        }),
{
}

/// HTTP/2 is offered before HTTP/1.1 where a connection is encrypted, and nothing else is.
pub proof fn law_http2_is_preferred(names: Vec<String>)
    requires
        call_ensures(alpn_protocols, (), names),
    ensures
        names@.len() == 2,
        names@[0]@ == "h2"@,
        names@[1]@ == "http/1.1"@,
{
}

/// The time for requests is what was set last, and setting it changes nothing else.
pub proof fn law_time_is_what_was_set_last<D, T, P, RP, S, L>(
    builder: Builder<D, T, P, RP, S, L>,
    limit: Duration,
    limited: Builder<D, T, P, RP, S, L>,
    shown: Option<Duration>,
    unlimited: Builder<D, T, P, RP, S, L>,
)
    requires
        call_ensures(Builder::<D, T, P, RP, S, L>::with_timeout, (builder, limit), limited),
        call_ensures(Builder::<D, T, P, RP, S, L>::timeout, (&limited,), shown),
        call_ensures(Builder::<D, T, P, RP, S, L>::without_timeout, (limited,), unlimited),
    ensures
        shown == Some(limit),
        unlimited@.timeout is None,
        builder@.timeout is None ==> unlimited@ == builder@,
        limited@.pool == builder@.pool,
        limited@.tls == builder@.tls,
        limited@.transport == builder@.transport,
{
}

/// A client that is built after a setting was made has that setting: the transport, the
/// protocol, the encryption, the pool and the name that were set.
pub proof fn law_settings_reach_the_client<D, T, P, RP, S, L, T2, P2>(
    builder: Builder<D, T, P, RP, S, L>,
    transport: T2,
    one: Builder<D, T2, P, RP, S, L>,
    protocol: P2,
    two: Builder<D, T2, P2, RP, S, L>,
    tls: L,
    three: Builder<D, T2, P2, RP, S, L>,
    pool: Config,
    four: Builder<D, T2, P2, RP, S, L>,
    name: String,
    five: Builder<D, T2, P2, RP, S, L>,
    shown: Option<&str>,
    service: ClientService<D, T2, P2, RP, S, L>,
)
    requires
        call_ensures(
            Builder::<D, T, P, RP, S, L>::with_transport::<T2>,
            (builder, transport),
            one,
        ),
        call_ensures(Builder::<D, T2, P, RP, S, L>::with_protocol::<P2>, (one, protocol), two),
        call_ensures(Builder::<D, T2, P2, RP, S, L>::with_tls, (two, tls), three),
        call_ensures(Builder::<D, T2, P2, RP, S, L>::with_pool, (three, pool), four),
        call_ensures(Builder::<D, T2, P2, RP, S, L>::with_user_agent, (four, name), five),
        call_ensures(Builder::<D, T2, P2, RP, S, L>::user_agent, (&five,), shown),
        is_header_text(name@),
        call_ensures(Builder::<D, T2, P2, RP, S, L>::build_service, (five,), service),
    ensures
        service.transport == transport,
        service.protocol == protocol,
        service.tls == Some(TlsChoice::Config(tls)),
        service.layers@[service.layers@.len() - 5] == ClientLayer::ConnectionPool(Some(pool)),
        shown matches Some(text) && text@ == name@,
        header_content(service.user_agent) == vstd::utf8::encode_utf8(name@),
        service.redirect == builder@.redirect,
        service.resolver == builder@.resolver,
        service.outer == builder@.layers,
{
}

/// What is taken away is not there: encryption, the pool, redirects and the limit on time;
/// and what is put in its place by default is there.
pub proof fn law_settings_are_taken_away<D, T, P, RP, S, L>(
    builder: Builder<D, T, P, RP, S, L>,
    one: Builder<D, T, P, RP, S, L>,
    two: Builder<D, T, P, RP, S, L>,
    three: Builder<D, T, P, Standard, S, L>,
    four: Builder<D, T, P, Standard, S, L>,
    bare: ClientService<D, T, P, Standard, S, L>,
    five: Builder<D, T, P, Standard, S, L>,
    six: Builder<D, T, P, Standard, S, L>,
    seven: Builder<D, T, P, Standard, S, L>,
    whole: ClientService<D, T, P, Standard, S, L>,
)
    requires
        builder@.user_agent is None,
        call_ensures(Builder::<D, T, P, RP, S, L>::without_tls, (builder,), one),
        call_ensures(Builder::<D, T, P, RP, S, L>::without_pool, (one,), two),
        call_ensures(Builder::<D, T, P, RP, S, L>::without_redirects, (two,), three),
        call_ensures(
            Builder::<D, T, P, Standard, S, L>::with_optional_timeout,
            (three, None::<Duration>),
            four,
        ),
        call_ensures(Builder::<D, T, P, Standard, S, L>::build_service, (four,), bare),
        call_ensures(Builder::<D, T, P, Standard, S, L>::with_default_tls, (four,), five),
        call_ensures(Builder::<D, T, P, Standard, S, L>::with_default_pool, (five,), six),
        call_ensures(
            Builder::<D, T, P, Standard, S, L>::with_standard_redirect_policy,
            (six,),
            seven,
        ),
        call_ensures(Builder::<D, T, P, Standard, S, L>::build_service, (seven,), whole),
    ensures
        bare.tls is None,
        bare.redirect is None,
        bare.layers@.len() == 7,
        bare.layers@[2] == ClientLayer::ConnectionPool(None),
        bare.transport == builder@.transport && bare.protocol == builder@.protocol,
        whole.tls == Some(TlsChoice::<L>::Platform),
        whole.redirect == Some(Standard),
        whole.layers@.len() == 8,
        whole.layers@[0] is FollowRedirect,
        whole.layers@[3] matches ClientLayer::ConnectionPool(Some(config))
            && config.max_idle_per_host == 32 && config.continue_after_preemption
            && config.idle_timeout is Some && config.idle_timeout->0.nanos == 90 * 1_000_000_000,
{
}

/// A policy for redirects is the one that was given, and a layer stands inside those that
/// were added before it.
pub proof fn law_layers_and_policies_are_added<D, T, P, RP, S, L, RP2, I>(
    builder: Builder<D, T, P, RP, S, L>,
    policy: RP2,
    one: Builder<D, T, P, RP2, S, L>,
    layer: I,
    two: Builder<D, T, P, RP2, Stack<I, S>, L>,
    three: Builder<D, T, AlpnHttpConnectionBuilder, RP2, Stack<I, S>, L>,
    service: ClientService<D, T, AlpnHttpConnectionBuilder, RP2, Stack<I, S>, L>,
)
    requires
        builder@.user_agent is None,
        call_ensures(
            Builder::<D, T, P, RP, S, L>::with_redirect_policy::<RP2>,
            (builder, policy),
            one,
        ),
        call_ensures(Builder::<D, T, P, RP2, S, L>::layer::<I>, (one, layer), two),
        call_ensures(Builder::<D, T, P, RP2, Stack<I, S>, L>::with_auto_http, (two,), three),
        call_ensures(
            Builder::<D, T, AlpnHttpConnectionBuilder, RP2, Stack<I, S>, L>::build_service,
            (three,),
            service,
        ),
    ensures
        service.redirect == Some(policy),
        service.outer.inner == layer,
        service.outer.outer == builder@.layers,
        service.transport == builder@.transport,
        service.tls == builder@.tls,
{
}

/// What is changed in place is changed alone, from what it was: the transport, the protocol
/// and the encryption.
pub proof fn law_settings_are_changed_in_place<D, T, P, RP, S, L>(
    builder: Builder<D, T, P, RP, S, L>,
    old_transport: T,
    transport: T,
    one: Builder<D, T, P, RP, S, L>,
    old_protocol: P,
    protocol: P,
    two: Builder<D, T, P, RP, S, L>,
    old_tls: Option<TlsChoice<L>>,
    tls: Option<TlsChoice<L>>,
    three: Builder<D, T, P, RP, S, L>,
    service: ClientService<D, T, P, RP, S, L>,
)
    requires
        builder@.user_agent is None,
        exists|m: &mut Builder<D, T, P, RP, S, L>, place: &mut T|
            *m == builder && *final(m) == one && *place == old_transport && *final(place)
                == transport && #[trigger] call_ensures(
                Builder::<D, T, P, RP, S, L>::transport,
                (m,),
                place,
            ),
        exists|m: &mut Builder<D, T, P, RP, S, L>, place: &mut P|
            *m == one && *final(m) == two && *place == old_protocol && *final(place) == protocol
                && #[trigger] call_ensures(Builder::<D, T, P, RP, S, L>::protocol, (m,), place),
        exists|m: &mut Builder<D, T, P, RP, S, L>, place: &mut Option<TlsChoice<L>>|
            *m == two && *final(m) == three && *place == old_tls && *final(place) == tls
                && #[trigger] call_ensures(Builder::<D, T, P, RP, S, L>::tls, (m,), place),
        call_ensures(Builder::<D, T, P, RP, S, L>::build_service, (three,), service),
    ensures
        old_transport == builder@.transport,
        old_protocol == builder@.protocol,
        old_tls == builder@.tls,
        service.transport == transport,
        service.protocol == protocol,
        service.tls == tls,
        service.redirect == builder@.redirect,
        service.layers@[service.layers@.len() - 5] == ClientLayer::ConnectionPool(builder@.pool),
{
}

/// The pool and the policy for redirects can be changed in place where there are any, and
/// then from what they were.
pub proof fn law_pool_is_changed_in_place<D, T, P, RP, S, L>(
    builder: Builder<D, T, P, RP, S, L>,
    found: Option<&mut Config>,
    one: Builder<D, T, P, RP, S, L>,
    policy: Option<&mut RP>,
    two: Builder<D, T, P, RP, S, L>,
)
    requires
        exists|m: &mut Builder<D, T, P, RP, S, L>|
            *m == builder && *final(m) == one && #[trigger] call_ensures(
                Builder::<D, T, P, RP, S, L>::pool,
                (m,),
                found,
            ),
        exists|m: &mut Builder<D, T, P, RP, S, L>|
            *m == one && *final(m) == two && #[trigger] call_ensures(
                Builder::<D, T, P, RP, S, L>::redirect_policy,
                (m,),
                policy,
            ),
    ensures
        found is Some <==> builder@.pool is Some,
        found is Some ==> *found->0 == builder@.pool->0,
        policy is Some <==> builder@.redirect is Some,
        policy is Some ==> *policy->0 == builder@.redirect->0,
        two@.transport == builder@.transport && two@.tls == builder@.tls,
{
}

/// A builder to begin with has everything that a client over TCP needs: encryption that the
/// platform trusts, redirects, a pool, half a minute for each request, and a protocol that is
/// agreed on. A new one has nothing.
pub proof fn law_builder_begins_with_tcp<L>(
    builder: Builder<
        GaiResolver,
        TcpTransport<GaiResolver, HostFromUri>,
        AlpnHttpConnectionBuilder,
        Standard,
        Identity,
        L,
    >,
    config: &TcpTransportConfig,
    empty: Builder<(), (), (), Standard, Identity, L>,
)
    requires
        call_ensures(
            Builder::<
                GaiResolver,
                TcpTransport<GaiResolver, HostFromUri>,
                AlpnHttpConnectionBuilder,
                Standard,
                Identity,
                L,
            >::default,
            (),
            builder,
        ),
        call_ensures(
            TcpTransport::<GaiResolver, HostFromUri>::config,
            (&builder@.transport,),
            config,
        ),
        call_ensures(Builder::<(), (), (), Standard, Identity, L>::new, (), empty),
    ensures
        builder@.tls == Some(TlsChoice::<L>::Platform),
        builder@.redirect == Some(Standard),
        builder@.timeout matches Some(limit) && limit.nanos == 30 * 1_000_000_000,
        builder@.pool matches Some(pool) && pool.max_idle_per_host == 32,
        builder@.user_agent is None,
        config.connect_timeout matches Some(limit) && limit.nanos == 10 * 1_000_000_000,
        config.happy_eyeballs_concurrency == Some(2usize),
        config.nodelay && config.reuse_address,
        empty@.tls is None && empty@.redirect is None && empty@.timeout is None
            && empty@.pool is None && empty@.user_agent is None,
{
}

/// A configuration for TCP reaches the transport of the client, and leaves the other
/// settings.
pub proof fn law_tcp_configuration_reaches_the_transport<D, T, P, RP, S, L>(
    builder: Builder<D, T, P, RP, S, L>,
    config: TcpTransportConfig,
    set: Builder<D, TcpTransport<GaiResolver, HostFromUri>, P, RP, S, L>,
    found: &TcpTransportConfig,
)
    requires
        call_ensures(Builder::<D, T, P, RP, S, L>::with_tcp, (builder, config), set),
        call_ensures(
            TcpTransport::<GaiResolver, HostFromUri>::config,
            (&set@.transport,),
            found,
        ),
    ensures
        *found == config,
        set@.protocol == builder@.protocol,
        set@.tls == builder@.tls,
        set@.pool == builder@.pool,
        set@.timeout == builder@.timeout,
        set@.redirect == builder@.redirect,
        set@.user_agent == builder@.user_agent,
{
}

} // verus!
