//! TCP transport implementation for client connections.
//!
//! The functions here decide how a connection is made: which addresses are tried in
//! which order and how far apart, with which socket options, and what an error says.
//! The sockets themselves are opened elsewhere.

use vstd::prelude::*;

use crate::client::conn::dns::{self, GaiResolver, IpVersion, IpVersionExt, Missing, SocketAddrs};
use crate::io::{ErrorKind, IoError};
use crate::net::{IpAddr, Ipv4Addr, Ipv6Addr, SocketAddr};
use crate::text;
use crate::time::Duration;
use crate::uri::Uri;

verus! {

/// Error type for invalid URIs during connection.
#[derive(Debug, Clone, Copy, PartialEq, Eq, Structural)]
pub struct InvalidUri;

impl InvalidUri {
    /// The error as text.
    pub fn to_string(&self) -> (shown: String)
        ensures
            shown@ == "invalid URI"@,
    {
        "invalid URI".to_owned()
    }
}

/// What lies behind a TCP error.
#[derive(Debug)]
pub enum ErrorSource {
    /// The URI is invalid.
    Uri(InvalidUri),
    /// The operating system refused something.
    Io(IoError),
    /// An attempt to connect failed.
    Attempt(Box<TcpConnectionError>),
    /// Anything else, as text.
    Other(String),
}

impl ErrorSource {
    /// What it says.
    pub open spec fn said(self) -> Seq<char>
        decreases self,
    {
        match self {
            ErrorSource::Uri(_) => "invalid URI"@,
            ErrorSource::Io(error) => error.message@,
            ErrorSource::Attempt(error) => error.said(),
            ErrorSource::Other(message) => message@,
        }
    }

    /// What it says.
    pub fn to_string(&self) -> (shown: String)
        ensures
            shown@ == self.said(),
        decreases self,
    {
        match self {
            ErrorSource::Uri(error) => error.to_string(),
            ErrorSource::Io(error) => error.message.clone(),
            ErrorSource::Attempt(error) => error.to_string(),
            ErrorSource::Other(message) => message.clone(),
        }
    }
}

/// Error type for TCP connections.
#[derive(Debug)]
pub struct TcpConnectionError {
    message: String,
    source: Option<ErrorSource>,
}

impl TcpConnectionError {
    /// What failed.
    pub closed spec fn message(self) -> Seq<char> {
        self.message@
    }

    /// Why it failed.
    pub closed spec fn cause(self) -> Option<ErrorSource> {
        self.source
    }

    /// The error as it is shown.
    pub open spec fn said(self) -> Seq<char>
        decreases self,
    {
        match self.cause() {
            Some(source) => self.message() + ": "@ + source.said(),
            None => self.message(),
        }
    }

    /// An error without a cause.
    pub fn new(message: String) -> (error: Self)
        ensures
            error.message() == message@,
            error.cause() is None,
    {
        TcpConnectionError { message, source: None }
    }

    /// An error in the URI.
    pub fn uri(message: String) -> (error: Self)
        ensures
            error.message() == message@,
            error.cause() == Some(ErrorSource::Uri(InvalidUri)),
    {
        TcpConnectionError { message, source: Some(ErrorSource::Uri(InvalidUri)) }
    }

    /// An error of the operating system.
    pub fn msg(message: String, error: IoError) -> (failed: Self)
        ensures
            failed.message() == message@,
            failed.cause() == Some(ErrorSource::Io(error)),
    {
        TcpConnectionError { message, source: Some(ErrorSource::Io(error)) }
    }

    /// An error with any cause.
    pub fn build(message: String, error: ErrorSource) -> (failed: Self)
        ensures
            failed.message() == message@,
            failed.cause() == Some(error),
    {
        TcpConnectionError { message, source: Some(error) }
    }

    /// The error of a connection attempt whose task did not run to its end.
    pub fn from_join(error: dns::JoinError) -> (failed: Self)
        ensures
            failed.message() == "tcp connection panic"@,
            failed.cause() == Some(ErrorSource::Other(error.message)),
    {
        TcpConnectionError::build(
            "tcp connection panic".to_owned(),
            ErrorSource::Other(error.message),
        )
    }

    /// The error as text.
    pub fn to_string(&self) -> (shown: String)
        ensures
            shown@ == self.said(),
        decreases self,
    {
        match &self.source {
            Some(source) => {
                let mut shown = text::join(self.message.as_str(), ": ");
                shown.append(source.to_string().as_str());
                shown
            },
            None => self.message.clone(),
        }
    }

    /// The error as one of the operating system: the one behind it where there is one,
    /// and otherwise this error as a whole.
    pub fn into_io(self) -> (error: IoError)
        ensures
            match self.cause() {
                Some(ErrorSource::Io(original)) => error.kind == original.kind && error.message@
                    == original.message@,
                _ => error.kind == ErrorKind::Other && error.message@ == self.said(),
            },
    {
        match &self.source {
            Some(ErrorSource::Io(original)) => IoError::new(
                original.kind,
                original.message.clone(),
            ),
            _ => IoError::new(ErrorKind::Other, self.to_string()),
        }
    }
}

/// Configuration for TCP connections.
#[derive(Debug, Clone, Copy, PartialEq, Eq, Structural)]
pub struct TcpTransportConfig {
    /// The timeout for connecting to a remote address.
    pub connect_timeout: Option<Duration>,
    /// The timeout for keep-alive connections.
    pub keep_alive_timeout: Option<Duration>,
    /// The timeout for happy eyeballs algorithm.
    pub happy_eyeballs_timeout: Option<Duration>,
    /// The number of concurrent connection atttempts to make.
    pub happy_eyeballs_concurrency: Option<usize>,
    /// The local IPv4 address to bind to.
    pub local_address_ipv4: Option<Ipv4Addr>,
    /// The local IPv6 address to bind to.
    pub local_address_ipv6: Option<Ipv6Addr>,
    /// Whether to disable Nagle's algorithm.
    pub nodelay: bool,
    /// Whether to reuse the local address.
    pub reuse_address: bool,
    /// The size of the send buffer.
    pub send_buffer_size: Option<usize>,
    /// The size of the receive buffer.
    pub recv_buffer_size: Option<usize>,
}

/// Whether a duration is set to so many seconds.
pub open spec fn is_secs(span: Option<Duration>, secs: nat) -> bool {
    span matches Some(span) && span@ == secs * 1_000_000_000
}

/// Whether a configuration is the one to begin with.
pub open spec fn is_default_config(config: TcpTransportConfig) -> bool {
    &&& is_secs(config.connect_timeout, 10)
    &&& is_secs(config.keep_alive_timeout, 90)
    &&& is_secs(config.happy_eyeballs_timeout, 30)
    &&& config.happy_eyeballs_concurrency == Some(2usize)
    &&& config.local_address_ipv4 is None
    &&& config.local_address_ipv6 is None
    &&& config.nodelay
    &&& config.reuse_address
    &&& config.send_buffer_size is None
    &&& config.recv_buffer_size is None
}

impl Default for TcpTransportConfig {
    fn default() -> (config: Self)
        ensures
            is_default_config(config),
    {
        TcpTransportConfig {
            connect_timeout: Some(Duration::from_secs(10)),
            keep_alive_timeout: Some(Duration::from_secs(90)),
            happy_eyeballs_timeout: Some(Duration::from_secs(30)),
            happy_eyeballs_concurrency: Some(2),
            local_address_ipv4: None,
            local_address_ipv6: None,
            nodelay: true,
            reuse_address: true,
            send_buffer_size: None,
            recv_buffer_size: None,
        }
    }
}

impl TcpTransportConfig {
    /// A transport with this configuration, which asks the operating system for
    /// addresses and takes hosts from URIs.
    pub fn build(self) -> (transport: TcpTransport<GaiResolver, HostFromUri>)
        ensures
            transport.settings() == self,
            transport.parts() == (GaiResolver, HostFromUri),
    {
        TcpTransport::<(), ()>::builder().with_config(
            self,
        ).with_gai_resolver().with_host_from_uri().build()
    }
}

/// Whether an error is about a URI, and says the given text.
pub open spec fn is_uri_error(error: TcpConnectionError, message: Seq<char>) -> bool {
    error.message() == message && error.cause() == Some(ErrorSource::Uri(InvalidUri))
}

/// Trait for producing the host and port from a request.
pub trait GetHostAndPort {
    /// Whether asking for the host and port of `uri` may give `outcome`.
    spec fn targets(&self, uri: Uri, outcome: Result<(String, u16), TcpConnectionError>) -> bool;

    /// Parse information from the request to identify the host and URI. Most often,
    /// [`HostFromUri`] is the right default.
    fn get_host_and_port(&self, uri: &Uri) -> (outcome: Result<(String, u16), TcpConnectionError>)
        ensures
            self.targets(*uri, outcome),
    ;
}

/// Get the host and port by parsing them from the URI, and using the scheme to infer the
/// port if not present.
#[derive(Debug, Clone, Copy, PartialEq, Eq, Structural)]
pub struct HostFromUri;

impl Default for HostFromUri {
    fn default() -> (way: Self)
        ensures
            way == HostFromUri,
    {
        HostFromUri
    }
}

/// What the host and port of a URI are, or which of them is missing.
pub open spec fn host_from_uri(uri: Uri, outcome: Result<(String, u16), TcpConnectionError>) -> bool {
    match outcome {
        Ok((host, port)) => uri@.authority is Some && host@ == dns::bare(uri@.authority->0.host)
            && dns::port_of(uri@) == Some(port),
        Err(error) => if uri@.authority is None {
            is_uri_error(error, "missing host"@)
        } else {
            dns::port_of(uri@) is None && is_uri_error(error, "missing port"@)
        },
    }
}

impl GetHostAndPort for HostFromUri {
    open spec fn targets(&self, uri: Uri, outcome: Result<(String, u16), TcpConnectionError>) -> bool {
        host_from_uri(uri, outcome)
    }

    fn get_host_and_port(&self, uri: &Uri) -> (outcome: Result<
        (String, u16),
        TcpConnectionError,
    >) {
        get_host_and_port(uri)
    }
}

/// Finds the host and the port to connect to.
pub fn get_host_and_port(uri: &Uri) -> (outcome: Result<(String, u16), TcpConnectionError>)
    ensures
        host_from_uri(*uri, outcome),
{
    match dns::host_and_port(uri) {
        Ok(target) => Ok(target),
        Err(Missing::Host) => Err(TcpConnectionError::uri("missing host".to_owned())),
        Err(Missing::Port) => Err(TcpConnectionError::uri("missing port".to_owned())),
    }
}

/// Finds the host and the port to connect to in a URI that is given as text. `None`
/// means that the text is no URI.
pub fn get_host_and_port_of_text(text: &str) -> (outcome: Option<
    Result<(String, u16), TcpConnectionError>,
>)
    ensures
        match crate::uri::parsed_uri(text@) {
            Ok(parts) => outcome matches Some(outcome) && match outcome {
                Ok((host, port)) => parts.authority is Some && host@ == dns::bare(
                    parts.authority->0.host,
                ) && dns::port_of(parts) == Some(port),
                Err(error) => if parts.authority is None {
                    is_uri_error(error, "missing host"@)
                } else {
                    dns::port_of(parts) is None && is_uri_error(error, "missing port"@)
                },
            },
            Err(_) => outcome is None,
        },
{
    match Uri::parse(text) {
        Ok(uri) => Some(get_host_and_port(&uri)),
        Err(_) => None,
    }
}

/// A TCP connector for client connections, with a resolver and a way to find the host.
#[derive(Debug)]
pub struct TcpTransport<R, H> {
    config: TcpTransportConfig,
    resolver: R,
    gethost: H,
}

/// Builder for a TCP connector.
#[derive(Debug)]
pub struct TcpTransportBuilder<R, H> {
    config: TcpTransportConfig,
    resolver: R,
    gethost: H,
}

impl<R, H> TcpTransportBuilder<R, H> {
    /// The configuration.
    pub closed spec fn settings(self) -> TcpTransportConfig {
        self.config
    }

    /// The resolver, and the way to find the host.
    pub closed spec fn parts(self) -> (R, H) {
        (self.resolver, self.gethost)
    }

    /// Access the TCP connection configuration
    pub fn config(&mut self) -> (config: &mut TcpTransportConfig)
        ensures
            *config == old(self).settings(),
            final(self).settings() == *final(config),
            final(self).parts() == old(self).parts(),
    {
        &mut self.config
    }

    /// Set the TCP connection configuration
    pub fn with_config(self, config: TcpTransportConfig) -> (builder: Self)
        ensures
            builder.settings() == config,
            builder.parts() == self.parts(),
    {
        TcpTransportBuilder { config, resolver: self.resolver, gethost: self.gethost }
    }

    /// Set the resolver for the TCP connector
    pub fn with_resolver<R2>(self, resolver: R2) -> (builder: TcpTransportBuilder<R2, H>)
        ensures
            builder.settings() == self.settings(),
            builder.parts() == (resolver, self.parts().1),
    {
        TcpTransportBuilder { config: self.config, resolver, gethost: self.gethost }
    }

    /// Use the default GAI resolver for the TCP connector
    pub fn with_gai_resolver(self) -> (builder: TcpTransportBuilder<GaiResolver, H>)
        ensures
            builder.settings() == self.settings(),
            builder.parts() == (GaiResolver, self.parts().1),
    {
        TcpTransportBuilder {
            config: self.config,
            resolver: GaiResolver::new(),
            gethost: self.gethost,
        }
    }

    /// Access the resolver for the TCP connector
    pub fn resolver(&mut self) -> (resolver: &R)
        ensures
            *resolver == old(self).parts().0,
            *final(self) == *old(self),
    {
        &self.resolver
    }

    /// Parse the host and port from the Uri in the request data
    pub fn with_host_from_uri(self) -> (builder: TcpTransportBuilder<R, HostFromUri>)
        ensures
            builder.settings() == self.settings(),
            builder.parts() == (self.parts().0, HostFromUri),
    {
        TcpTransportBuilder {
            config: self.config,
            resolver: self.resolver,
            gethost: HostFromUri::default(),
        }
    }

    /// Set a way to get the host from request data.
    pub fn with_host_from<H2>(self, get_host: H2) -> (builder: TcpTransportBuilder<R, H2>)
        ensures
            builder.settings() == self.settings(),
            builder.parts() == (self.parts().0, get_host),
    {
        TcpTransportBuilder { config: self.config, resolver: self.resolver, gethost: get_host }
    }

    /// Build a TCP connector with a resolver
    pub fn build(self) -> (transport: TcpTransport<R, H>)
        ensures
            transport.settings() == self.settings(),
            transport.parts() == self.parts(),
    {
        TcpTransport { config: self.config, resolver: self.resolver, gethost: self.gethost }
    }
}

impl Default for TcpTransport<GaiResolver, HostFromUri> {
    fn default() -> (transport: Self)
        ensures
            is_default_config(transport.settings()),
            transport.parts() == (GaiResolver, HostFromUri),
    {
        TcpTransport::<(), ()>::builder().with_gai_resolver().with_host_from_uri().build()
    }
}

impl<R, H> TcpTransport<R, H> {
    /// The configuration.
    pub closed spec fn settings(self) -> TcpTransportConfig {
        self.config
    }

    /// The resolver, and the way to find the host.
    pub closed spec fn parts(self) -> (R, H) {
        (self.resolver, self.gethost)
    }

    /// Create a new TCP connector builder with the default configuration.
    pub fn builder() -> (builder: TcpTransportBuilder<(), ()>)
        ensures
            is_default_config(builder.settings()),
            builder.parts() == ((), ()),
    {
        TcpTransportBuilder { config: TcpTransportConfig::default(), resolver: (), gethost: () }
    }

    /// Get the configuration for the TCP connector.
    pub fn config(&self) -> (config: &TcpTransportConfig)
        ensures
            *config == self.settings(),
    {
        &self.config
    }

    /// What to resolve for a request to `uri`.
    pub fn call(&self, uri: &Uri) -> (outcome: Result<(String, u16), TcpConnectionError>) where
        H: GetHostAndPort,

        ensures
            self.parts().1.targets(*uri, outcome),
    {
        self.gethost.get_host_and_port(uri)
    }

    /// Plans the attempts for addresses that were resolved for a port.
    pub fn connect(&self, addrs: SocketAddrs, port: u16) -> (plan: TcpConnecting)
        ensures
            plan.addrs() == attempt_order(
                addrs@.map_values(|addr: SocketAddr| addr.at_port(port)),
                self.settings(),
            ),
            plan.settings() == self.settings(),
    {
        let mut addrs = addrs;
        addrs.set_port(port);
        self.connecting(addrs)
    }

    /// Plans the attempts for a set of addresses.
    pub fn connecting(&self, addrs: SocketAddrs) -> (plan: TcpConnecting)
        ensures
            plan.addrs() == attempt_order(addrs@, self.settings()),
            plan.settings() == self.settings(),
    {
        connect_to_addrs(&self.config, addrs)
    }

    /// The resolver, to poll it for readiness.
    pub fn resolver_mut(&mut self) -> (resolver: &mut R)
        ensures
            *resolver == old(self).parts().0,
            final(self).parts() == (*final(resolver), old(self).parts().1),
            final(self).settings() == old(self).settings(),
    {
        &mut self.resolver
    }

    /// Takes out the resolver that a host is resolved with, which is the one that has
    /// been polled for readiness, and leaves a clone of it. It comes with the time that
    /// resolving may take.
    pub fn resolve(&mut self) -> (resolving: (R, Option<Duration>)) where R: Clone
        ensures
            resolving == (old(self).parts().0, old(self).settings().connect_timeout),
            cloned(old(self).parts().0, final(self).parts().0),
            final(self).parts().1 == old(self).parts().1,
            final(self).settings() == old(self).settings(),
    {
        let mut resolver = self.resolver.clone();
        std::mem::swap(&mut resolver, &mut self.resolver);
        (resolver, self.config.connect_timeout)
    }
}

impl<R: Clone, H: Clone> Clone for TcpTransport<R, H> {
    fn clone(&self) -> (copy: Self)
        ensures
            copy.settings() == self.settings(),
            cloned(self.parts().0, copy.parts().0),
            cloned(self.parts().1, copy.parts().1),
    {
        TcpTransport {
            config: self.config,
            resolver: self.resolver.clone(),
            gethost: self.gethost.clone(),
        }
    }
}

/// The order in which addresses are tried: where attempts run side by side, those of
/// the preferred version come first.
pub open spec fn attempt_order(addrs: Seq<SocketAddr>, config: TcpTransportConfig) -> Seq<SocketAddr> {
    if config.happy_eyeballs_timeout is Some {
        let parts = dns::split(
            addrs,
            dns::preferred_version(config.local_address_ipv4, config.local_address_ipv6),
        );
        parts.0 + parts.1
    } else {
        addrs
    }
}

/// Plans the attempts for a set of addresses with a given config.
pub fn connect_to_addrs(config: &TcpTransportConfig, addrs: SocketAddrs) -> (plan: TcpConnecting)
    ensures
        plan.addrs() == attempt_order(addrs@, *config),
        plan.settings() == *config,
{
    let mut addrs = addrs;
    if config.happy_eyeballs_timeout.is_some() {
        addrs.sort_preferred(
            IpVersion::from_binding(config.local_address_ipv4, config.local_address_ipv6),
        );
    }
    TcpConnecting::new(addrs, *config)
}

/// The attempts to reach one host.
#[derive(Debug)]
pub struct TcpConnecting {
    addresses: SocketAddrs,
    config: TcpTransportConfig,
}

/// How long to wait between two attempts: the time for all of them, divided by their
/// number.
pub open spec fn attempt_delay(config: TcpTransportConfig, count: nat) -> Option<nat> {
    match config.happy_eyeballs_timeout {
        Some(span) => if count == 0 {
            Some(span@)
        } else {
            Some(span@ / count)
        },
        None => None,
    }
}

/// How attempts to connect are started and ended.
#[derive(Debug, Clone, Copy, PartialEq, Eq, Structural)]
pub struct AttemptSchedule {
    /// How long to wait before the next attempt is started beside the others.
    pub delay: Option<Duration>,
    /// How long all attempts may take together.
    pub timeout: Option<Duration>,
    /// How many attempts are started at once.
    pub concurrency: Option<usize>,
}

impl TcpConnecting {
    /// The addresses that are left to try.
    pub closed spec fn addrs(self) -> Seq<SocketAddr> {
        self.addresses@
    }

    /// The configuration.
    pub closed spec fn settings(self) -> TcpTransportConfig {
        self.config
    }

    /// Create a new set of attempts.
    pub fn new(addresses: SocketAddrs, config: TcpTransportConfig) -> (plan: Self)
        ensures
            plan.addrs() == addresses@,
            plan.settings() == config,
    {
        TcpConnecting { addresses, config }
    }

    /// How the attempts are started and ended.
    pub fn schedule(&self) -> (schedule: AttemptSchedule)
        requires
            self.addrs().len() <= u32::MAX,
        ensures
            match attempt_delay(self.settings(), self.addrs().len()) {
                Some(delay) => schedule.delay matches Some(span) && span@ == delay,
                None => schedule.delay is None,
            },
            schedule.timeout == self.settings().happy_eyeballs_timeout,
            schedule.concurrency == self.settings().happy_eyeballs_concurrency,
    {
        let delay = if self.addresses.is_empty() {
            self.config.happy_eyeballs_timeout
        } else {
            match self.config.happy_eyeballs_timeout {
                Some(span) => span.checked_div(self.addresses.len() as u32),
                None => None,
            }
        };
        AttemptSchedule {
            delay,
            timeout: self.config.happy_eyeballs_timeout,
            concurrency: self.config.happy_eyeballs_concurrency,
        }
    }

    /// The next attempt to start, with what it needs to know about its socket.
    pub fn next_attempt(&mut self) -> (attempt: Option<(SocketAddr, SocketPlan)>)
        ensures
            final(self).settings() == old(self).settings(),
            match attempt {
                Some((addr, plan)) => {
                    &&& old(self).addrs().len() > 0
                    &&& addr == old(self).addrs()[0]
                    &&& plan == planned(
                        addr,
                        old(self).settings().connect_timeout,
                        old(self).settings(),
                    )
                    &&& final(self).addrs() == old(self).addrs().skip(1)
                },
                None => old(self).addrs().len() == 0 && final(self).addrs() == old(self).addrs(),
            },
    {
        match self.addresses.pop() {
            Some(addr) => Some((addr, connect(&addr, self.config.connect_timeout, &self.config))),
            None => None,
        }
    }
}

/// How a set of attempts failed.
#[derive(Debug)]
pub enum HappyEyeballsError {
    /// The attempts took too long together.
    Timeout(Duration),
    /// There was nothing to try.
    NoProgress,
    /// The attempts failed, the last of them with this error.
    Error(TcpConnectionError),
}

/// What to report where all attempts failed.
pub fn attempts_failed(error: HappyEyeballsError) -> (failed: TcpConnectionError)
    ensures
        match error {
            HappyEyeballsError::Error(error) => failed == error,
            HappyEyeballsError::Timeout(elapsed) => failed.cause() is None && failed.message()
                == "Connection attempts timed out after "@ + text::digits(elapsed@ / 1_000_000)
                + "ms"@,
            HappyEyeballsError::NoProgress => failed.cause() is None && failed.message()
                == "Exhausted connection candidates"@,
        },
{
    match error {
        HappyEyeballsError::Error(error) => error,
        HappyEyeballsError::Timeout(elapsed) => {
            let mut message = text::join(
                "Connection attempts timed out after ",
                text::decimal(elapsed.as_millis()).as_str(),
            );
            message.append("ms");
            TcpConnectionError::new(message)
        },
        HappyEyeballsError::NoProgress => TcpConnectionError::new(
            "Exhausted connection candidates".to_owned(),
        ),
    }
}

/// How a socket is set up before it connects.
#[derive(Debug, Clone, Copy, PartialEq, Eq, Structural)]
pub struct SocketPlan {
    /// How long connecting may take.
    pub connect_timeout: Option<Duration>,
    /// The version of the Internet protocol.
    pub domain: IpVersion,
    /// How long the connection may be idle before it is probed.
    pub keep_alive: Option<Duration>,
    /// The local address to bind to.
    pub bind: Option<SocketAddr>,
    /// Whether to disable Nagle's algorithm.
    pub nodelay: bool,
    /// Whether the local address may be in use already.
    pub reuse_address: bool,
    /// The size of the send buffer.
    pub send_buffer_size: Option<u32>,
    /// The size of the receive buffer.
    pub recv_buffer_size: Option<u32>,
}

/// The largest size that a socket takes which is not larger than `size`.
pub open spec fn clamped(size: Option<usize>) -> Option<u32> {
    match size {
        Some(size) => if size <= u32::MAX {
            Some(size as u32)
        } else {
            Some(u32::MAX)
        },
        None => None,
    }
}

/// The local address to bind to for a connection to `dst`: the one of the same version,
/// at any port.
pub open spec fn local_address(dst: SocketAddr, v4: Option<Ipv4Addr>, v6: Option<Ipv6Addr>) -> Option<
    SocketAddr,
> {
    match (dst, v4, v6) {
        (SocketAddr::V4(_), Some(ip), _) => Some(SocketAddr::of(IpAddr::V4(ip), 0)),
        (SocketAddr::V6(_), _, Some(ip)) => Some(SocketAddr::of(IpAddr::V6(ip), 0)),
        _ => None,
    }
}

/// How the socket for a connection to `addr` is set up.
pub open spec fn planned(
    addr: SocketAddr,
    connect_timeout: Option<Duration>,
    config: TcpTransportConfig,
) -> SocketPlan {
    SocketPlan {
        connect_timeout,
        domain: addr.ip_version(),
        keep_alive: config.keep_alive_timeout,
        bind: local_address(addr, config.local_address_ipv4, config.local_address_ipv6),
        nodelay: config.nodelay,
        reuse_address: config.reuse_address,
        send_buffer_size: clamped(config.send_buffer_size),
        recv_buffer_size: clamped(config.recv_buffer_size),
    }
}

fn clamp(size: Option<usize>) -> (clamp: Option<u32>)
    ensures
        clamp == clamped(size),
{
    match size {
        Some(size) => if size <= u32::MAX as usize {
            Some(size as u32)
        } else {
            Some(u32::MAX)
        },
        None => None,
    }
}

/// Picks the local address to bind to for a connection to `dst_addr`.
pub fn bind_local_address(
    dst_addr: &SocketAddr,
    local_addr_ipv4: &Option<Ipv4Addr>,
    local_addr_ipv6: &Option<Ipv6Addr>,
) -> (local: Option<SocketAddr>)
    ensures
        local == local_address(*dst_addr, *local_addr_ipv4, *local_addr_ipv6),
{
    match (dst_addr, local_addr_ipv4, local_addr_ipv6) {
        (SocketAddr::V4(_), Some(ip), _) => Some(SocketAddr::new(IpAddr::V4(*ip), 0)),
        (SocketAddr::V6(_), _, Some(ip)) => Some(SocketAddr::new(IpAddr::V6(*ip), 0)),
        _ => None,
    }
}

/// Plans the socket for a connection to `addr`.
pub fn connect(
    addr: &SocketAddr,
    connect_timeout: Option<Duration>,
    config: &TcpTransportConfig,
) -> (plan: SocketPlan)
    ensures
        plan == planned(*addr, connect_timeout, *config),
{
    SocketPlan {
        connect_timeout,
        domain: addr.version(),
        keep_alive: config.keep_alive_timeout,
        bind: bind_local_address(addr, &config.local_address_ipv4, &config.local_address_ipv6),
        nodelay: config.nodelay,
        reuse_address: config.reuse_address,
        send_buffer_size: clamp(config.send_buffer_size),
        recv_buffer_size: clamp(config.recv_buffer_size),
    }
}

/// A step in making a connection that can fail.
#[derive(Debug, Clone, Copy, PartialEq, Eq, Structural)]
pub enum SocketStep {
    /// The resolver is asked whether it is ready.
    PollReady,
    /// The name is resolved.
    Resolve,
    /// The socket is opened.
    Open,
    /// The socket is made non-blocking.
    SetNonblocking,
    /// The socket is bound to a local address.
    Bind,
    /// The socket is connected.
    Connect,
}

impl SocketStep {
    /// How a failure of this step is reported.
    pub open spec fn complaint(self) -> Seq<char> {
        match self {
            SocketStep::PollReady => "dns poll_ready"@,
            SocketStep::Resolve => "dns resolve error"@,
            SocketStep::Open => "tcp open error"@,
            SocketStep::SetNonblocking => "tcp set_nonblocking error"@,
            SocketStep::Bind => "tcp bind local address"@,
            SocketStep::Connect => "tcp connect error"@,
        }
    }

    /// What to report where this step fails.
    pub fn failed(&self, error: IoError) -> (failed: TcpConnectionError)
        ensures
            failed.message() == self.complaint(),
            failed.cause() == Some(ErrorSource::Io(error)),
    {
        let message = match self {
            SocketStep::PollReady => "dns poll_ready",
            SocketStep::Resolve => "dns resolve error",
            SocketStep::Open => "tcp open error",
            SocketStep::SetNonblocking => "tcp set_nonblocking error",
            SocketStep::Bind => "tcp bind local address",
            SocketStep::Connect => "tcp connect error",
        };
        TcpConnectionError::msg(message.to_owned(), error)
    }
}

/// What came of connecting a socket.
#[derive(Debug)]
pub enum ConnectOutcome<S> {
    /// The socket is connected.
    Connected(S),
    /// The operating system refused.
    Refused(IoError),
    /// It took too long, as this text says.
    TimedOut(String),
}

/// What to report once a socket has been connected, or has not.
pub fn connected<S>(outcome: ConnectOutcome<S>) -> (result: Result<S, TcpConnectionError>)
    ensures
        match outcome {
            ConnectOutcome::Connected(stream) => result == Ok::<S, TcpConnectionError>(stream),
            ConnectOutcome::Refused(error) => result matches Err(failed) && failed.message()
                == "tcp connect error"@ && failed.cause() == Some(ErrorSource::Io(error)),
            ConnectOutcome::TimedOut(message) => result matches Err(failed) && failed.message()
                == "tcp connect error"@ && failed.cause() == Some(
                ErrorSource::Io(IoError { kind: ErrorKind::TimedOut, message }),
            ),
        },
{
    match outcome {
        ConnectOutcome::Connected(stream) => Ok(stream),
        ConnectOutcome::Refused(error) => Err(SocketStep::Connect.failed(error)),
        ConnectOutcome::TimedOut(message) => Err(
            SocketStep::Connect.failed(IoError::new(ErrorKind::TimedOut, message)),
        ),
    }
}

/// Whether an error says that an attempt failed, whose own error says that the operating
/// system refused.
pub open spec fn is_attempt_error(failed: TcpConnectionError, error: IoError) -> bool {
    &&& failed.message() == "tcp connect error"@
    &&& failed.cause() matches Some(ErrorSource::Attempt(attempt))
    &&& attempt.message() == "tcp connect error"@
    &&& attempt.cause() == Some(ErrorSource::Io(error))
}

/// A simple TCP transport that uses a single connection attempt.
#[derive(Debug)]
pub struct SimpleTcpTransport<R> {
    config: TcpTransportConfig,
    resolver: R,
}

impl<R> SimpleTcpTransport<R> {
    /// The configuration and the resolver.
    pub closed spec fn parts(self) -> (TcpTransportConfig, R) {
        (self.config, self.resolver)
    }

    /// Create a new simple TCP transport with the given configuration and resolver.
    pub fn new(config: TcpTransportConfig, resolver: R) -> (transport: Self)
        ensures
            transport.parts() == (config, resolver),
    {
        SimpleTcpTransport { config, resolver }
    }

    /// Change the resolver for the transport.
    pub fn with_resolver<R2>(self, resolver: R2) -> (transport: SimpleTcpTransport<R2>)
        ensures
            transport.parts() == (self.parts().0, resolver),
    {
        SimpleTcpTransport { config: self.config, resolver }
    }

    /// The resolver, to poll it for readiness.
    pub fn resolver_mut(&mut self) -> (resolver: &mut R)
        ensures
            *resolver == old(self).parts().1,
            final(self).parts() == (old(self).parts().0, *final(resolver)),
    {
        &mut self.resolver
    }

    /// Takes out the resolver that a host is resolved with, which is the one that has
    /// been polled for readiness, and leaves a clone of it. It comes with the time that
    /// resolving may take.
    pub fn resolve(&mut self) -> (resolving: (R, Option<Duration>)) where R: Clone
        ensures
            resolving == (old(self).parts().1, old(self).parts().0.connect_timeout),
            cloned(old(self).parts().1, final(self).parts().1),
            final(self).parts().0 == old(self).parts().0,
    {
        let mut resolver = self.resolver.clone();
        std::mem::swap(&mut resolver, &mut self.resolver);
        (resolver, self.config.connect_timeout)
    }

    /// What to resolve for a request to `uri`: its host, and the port to connect to.
    pub fn call(&self, uri: &Uri) -> (outcome: Result<(String, u16), TcpConnectionError>)
        ensures
            host_from_uri(*uri, outcome),
    {
        get_host_and_port(uri)
    }

    /// What to report once the only attempt has connected a socket, or has not: the error
    /// of the attempt is the cause of another.
    pub fn connected<S>(&self, outcome: ConnectOutcome<S>) -> (result: Result<S, TcpConnectionError>)
        ensures
            match outcome {
                ConnectOutcome::Connected(stream) => result == Ok::<S, TcpConnectionError>(stream),
                ConnectOutcome::Refused(error) => result matches Err(failed)
                    && is_attempt_error(failed, error),
                ConnectOutcome::TimedOut(message) => result matches Err(failed)
                    && is_attempt_error(
                    failed,
                    IoError { kind: ErrorKind::TimedOut, message },
                ),
            },
    {
        match connected(outcome) {
            Ok(stream) => Ok(stream),
            Err(error) => Err(
                TcpConnectionError::build(
                    "tcp connect error".to_owned(),
                    ErrorSource::Attempt(Box::new(error)),
                ),
            ),
        }
    }

    /// The only attempt to make for an address that was resolved for a port.
    pub fn connect(&self, ip: IpAddr, port: u16) -> (attempt: (SocketAddr, SocketPlan))
        ensures
            attempt.0 == SocketAddr::of(ip, port),
            attempt.1 == planned(
                attempt.0,
                self.parts().0.connect_timeout,
                self.parts().0,
            ),
    {
        let addr = SocketAddr::new(ip, port);
        (addr, connect(&addr, self.config.connect_timeout, &self.config))
    }
}

impl<R: Clone> Clone for SimpleTcpTransport<R> {
    fn clone(&self) -> (copy: Self)
        ensures
            copy.parts().0 == self.parts().0,
            cloned(self.parts().1, copy.parts().1),
    {
        SimpleTcpTransport { config: self.config, resolver: self.resolver.clone() }
    }
}

/// All attempts together never take longer to be started than the time that they have:
/// the delays between them add up to at most that time.
pub proof fn law_attempts_start_in_time(config: TcpTransportConfig, count: nat)
    requires
        count > 0,
        config.happy_eyeballs_timeout is Some,
    ensures
        attempt_delay(config, count) is Some,
        attempt_delay(config, count)->0 * count <= config.happy_eyeballs_timeout->0@,
{
    let total = config.happy_eyeballs_timeout->0@;
    vstd::arithmetic::div_mod::lemma_fundamental_div_mod(total as int, count as int);
    vstd::arithmetic::mul::lemma_mul_is_commutative(count as int, total as int / count as int);
}

/// An attempt is made for each address, and for no other.
pub proof fn law_every_address_is_tried(addrs: Seq<SocketAddr>, config: TcpTransportConfig)
    ensures
        attempt_order(addrs, config).len() == addrs.len(),
        forall|addr: SocketAddr|
            addrs.contains(addr) <==> #[trigger] attempt_order(addrs, config).contains(addr),
{
    let prefer = dns::preferred_version(config.local_address_ipv4, config.local_address_ipv6);
    dns::law_split_keeps_addresses(addrs, prefer);
    let parts = dns::split(addrs, prefer);
    if config.happy_eyeballs_timeout is Some {
        assert forall|addr: SocketAddr| addrs.contains(addr) <==> #[trigger] attempt_order(
            addrs,
            config,
        ).contains(addr) by {
            let whole = parts.0 + parts.1;
            if parts.0.contains(addr) {
                let i = parts.0.index_of(addr);
                assert(whole[i] == addr);
            }
            if parts.1.contains(addr) {
                let i = parts.1.index_of(addr);
                assert(whole[parts.0.len() + i] == addr);
            }
            if whole.contains(addr) {
                let i = whole.index_of(addr);
                if i < parts.0.len() {
                    assert(parts.0[i] == addr);
                } else {
                    assert(parts.1[i - parts.0.len()] == addr);
                }
            }
        }
    }
}

/// Addresses are tried in the order in which the resolver gave them, unless attempts run
/// side by side and there is a local address to bind to for one version only: the
/// addresses of that version come first then, and each version keeps its order.
pub proof fn law_addresses_are_tried_in_order<R, H>(
    transport: TcpTransport<R, H>,
    addrs: SocketAddrs,
    plan: TcpConnecting,
)
    requires
        call_ensures(TcpTransport::<R, H>::connecting, (&transport, addrs), plan),
    ensures
        plan.settings() == transport.settings(),
        transport.settings().happy_eyeballs_timeout is None ==> plan.addrs() == addrs@,
        transport.settings().local_address_ipv4 is Some
            == transport.settings().local_address_ipv6 is Some ==> plan.addrs() == addrs@,
        transport.settings().happy_eyeballs_timeout is Some
            && transport.settings().local_address_ipv4 is Some
            && transport.settings().local_address_ipv6 is None ==> plan.addrs() == addrs@.filter(
            |addr: SocketAddr| addr is V4,
        ) + addrs@.filter(|addr: SocketAddr| addr is V6),
        transport.settings().happy_eyeballs_timeout is Some
            && transport.settings().local_address_ipv4 is None
            && transport.settings().local_address_ipv6 is Some ==> plan.addrs() == addrs@.filter(
            |addr: SocketAddr| addr is V6,
        ) + addrs@.filter(|addr: SocketAddr| addr is V4),
{
    assert(dns::has_version(IpVersion::V4) =~= (|addr: SocketAddr| addr is V4));
    assert(dns::has_version(IpVersion::V6) =~= (|addr: SocketAddr| addr is V6));
    assert(addrs@ + Seq::<SocketAddr>::empty() =~= addrs@);
}

/// Addresses that were resolved are tried at the port that the request names, and are
/// otherwise those that were resolved.
pub proof fn law_addresses_are_tried_at_the_port<R, H>(
    transport: TcpTransport<R, H>,
    addrs: SocketAddrs,
    port: u16,
    plan: TcpConnecting,
)
    requires
        call_ensures(TcpTransport::<R, H>::connect, (&transport, addrs, port), plan),
        transport.settings().local_address_ipv4 is Some
            == transport.settings().local_address_ipv6 is Some,
    ensures
        plan.addrs().len() == addrs@.len(),
        forall|i: int|
            0 <= i < addrs@.len() ==> match #[trigger] addrs@[i] {
                SocketAddr::V4(addr) => plan.addrs()[i] matches SocketAddr::V4(tried) && tried.ip
                    == addr.ip && tried.port == port,
                SocketAddr::V6(addr) => plan.addrs()[i] matches SocketAddr::V6(tried) && tried.ip
                    == addr.ip && tried.port == port && tried.scope_id == addr.scope_id,
            },
{
    let set = addrs@.map_values(|addr: SocketAddr| addr.at_port(port));
    assert(set + Seq::<SocketAddr>::empty() =~= set);
    assert(plan.addrs() =~= set);
}

/// Attempts are made for the addresses one after the other, each once, and end when there
/// is none left.
pub proof fn law_attempts_take_the_next_address(
    before: TcpConnecting,
    attempt: Option<(SocketAddr, SocketPlan)>,
    after: TcpConnecting,
)
    requires
        exists|plan: &mut TcpConnecting|
            *plan == before && *final(plan) == after && #[trigger] call_ensures(
                TcpConnecting::next_attempt,
                (plan,),
                attempt,
            ),
    ensures
        attempt is None <==> before.addrs().len() == 0,
        attempt matches Some((addr, socket)) ==> {
            &&& before.addrs() == seq![addr] + after.addrs()
            &&& socket.connect_timeout == before.settings().connect_timeout
            &&& socket.domain == IpVersion::V4 <==> addr is V4
        },
        after.settings() == before.settings(),
{
    if attempt is Some {
        assert(before.addrs() =~= seq![(attempt->0).0] + after.addrs());
    }
}

/// A socket is of the version of the address that it connects to, is bound to the local
/// address of that version where one is configured, at any port, and is set up as the
/// configuration says; a buffer is made as large as it says, or as large as can be.
pub proof fn law_socket_follows_the_configuration(
    addr: SocketAddr,
    connect_timeout: Option<Duration>,
    config: TcpTransportConfig,
    plan: SocketPlan,
)
    requires
        call_ensures(connect, (&addr, connect_timeout, &config), plan),
    ensures
        plan.connect_timeout == connect_timeout,
        plan.keep_alive == config.keep_alive_timeout,
        plan.nodelay == config.nodelay,
        plan.reuse_address == config.reuse_address,
        addr is V4 <==> plan.domain == IpVersion::V4,
        addr is V4 ==> match config.local_address_ipv4 {
            Some(ip) => plan.bind matches Some(SocketAddr::V4(local)) && local.ip == ip
                && local.port == 0,
            None => plan.bind is None,
        },
        addr is V6 ==> match config.local_address_ipv6 {
            Some(ip) => plan.bind matches Some(SocketAddr::V6(local)) && local.ip == ip
                && local.port == 0,
            None => plan.bind is None,
        },
        plan.send_buffer_size is Some <==> config.send_buffer_size is Some,
        config.send_buffer_size matches Some(size) ==> plan.send_buffer_size->0 <= size && (size
            <= u32::MAX ==> plan.send_buffer_size->0 == size) && (size > u32::MAX
            ==> plan.send_buffer_size->0 == u32::MAX),
        plan.recv_buffer_size is Some <==> config.recv_buffer_size is Some,
        config.recv_buffer_size matches Some(size) ==> plan.recv_buffer_size->0 <= size && (size
            <= u32::MAX ==> plan.recv_buffer_size->0 == size) && (size > u32::MAX
            ==> plan.recv_buffer_size->0 == u32::MAX),
{
}

/// A local address is bound to only for a connection to an address of its version, and at
/// any port.
pub proof fn law_local_address_has_the_same_version(
    dst: SocketAddr,
    v4: Option<Ipv4Addr>,
    v6: Option<Ipv6Addr>,
    local: Option<SocketAddr>,
)
    requires
        call_ensures(bind_local_address, (&dst, &v4, &v6), local),
    ensures
        dst is V4 ==> (local is Some <==> v4 is Some),
        dst is V6 ==> (local is Some <==> v6 is Some),
        local matches Some(SocketAddr::V4(addr)) ==> dst is V4 && Some(addr.ip) == v4 && addr.port
            == 0,
        local matches Some(SocketAddr::V6(addr)) ==> dst is V6 && Some(addr.ip) == v6 && addr.port
            == 0,
{
}

/// A socket that has connected is the result, and one that has not is an error which says
/// so and keeps the reason.
pub proof fn law_connected_socket_is_the_result<S>(
    outcome: ConnectOutcome<S>,
    result: Result<S, TcpConnectionError>,
)
    requires
        call_ensures(connected::<S>, (outcome,), result),
    ensures
        outcome matches ConnectOutcome::Connected(stream) ==> result == Ok::<S, TcpConnectionError>(
            stream,
        ),
        outcome matches ConnectOutcome::Refused(error) ==> result is Err && result->Err_0.cause()
            == Some(ErrorSource::Io(error)) && result->Err_0.message() == "tcp connect error"@,
        outcome matches ConnectOutcome::TimedOut(message) ==> result is Err && (
        result->Err_0.cause() matches Some(ErrorSource::Io(error)) && error.kind
            == ErrorKind::TimedOut && error.message == message),
{
}

/// The schedule of attempts takes its limits from the configuration, and the delays
/// between the attempts together fit into the time for all of them.
pub proof fn law_schedule_fits_into_the_time(plan: TcpConnecting, schedule: AttemptSchedule)
    requires
        plan.addrs().len() <= u32::MAX,
        call_ensures(TcpConnecting::schedule, (&plan,), schedule),
    ensures
        schedule.timeout == plan.settings().happy_eyeballs_timeout,
        schedule.concurrency == plan.settings().happy_eyeballs_concurrency,
        schedule.delay is Some <==> plan.settings().happy_eyeballs_timeout is Some,
        plan.settings().happy_eyeballs_timeout matches Some(time) ==> {
            &&& schedule.delay->0@ * plan.addrs().len() <= time@
            &&& plan.addrs().len() > 0 ==> time@ < (schedule.delay->0@ + 1) * plan.addrs().len()
            &&& plan.addrs().len() == 0 ==> schedule.delay->0@ == time@
        },
{
    if plan.settings().happy_eyeballs_timeout is Some && plan.addrs().len() > 0 {
        let time = plan.settings().happy_eyeballs_timeout->0@ as int;
        let count = plan.addrs().len() as int;
        vstd::arithmetic::div_mod::lemma_fundamental_div_mod(time, count);
        vstd::arithmetic::mul::lemma_mul_is_commutative(count, time / count);
        vstd::arithmetic::mul::lemma_mul_is_distributive_add_other_way(count, time / count, 1);
    }
}

/// A request without a host or a port that can be told is refused, and says which is
/// missing; any other is sent to what its URI names.
pub proof fn law_target_comes_from_the_uri<R>(
    transport: TcpTransport<R, HostFromUri>,
    uri: Uri,
    outcome: Result<(String, u16), TcpConnectionError>,
    found: Result<(String, u16), Missing>,
)
    requires
        call_ensures(TcpTransport::<R, HostFromUri>::call, (&transport, &uri), outcome),
        call_ensures(dns::host_and_port, (&uri,), found),
    ensures
        found matches Ok(target) ==> outcome is Ok && outcome->Ok_0.0@ == target.0@
            && outcome->Ok_0.1 == target.1,
        found == Err::<(String, u16), Missing>(Missing::Host) ==> outcome is Err
            && outcome->Err_0.message() == "missing host"@,
        found == Err::<(String, u16), Missing>(Missing::Port) ==> outcome is Err
            && outcome->Err_0.message() == "missing port"@,
{
}

/// The error of a step says which step failed, and keeps the reason; as one of the
/// operating system it is that reason.
pub proof fn law_step_error_keeps_the_reason(
    step: SocketStep,
    error: IoError,
    failed: TcpConnectionError,
    back: IoError,
)
    requires
        call_ensures(SocketStep::failed, (&step, error), failed),
        call_ensures(TcpConnectionError::into_io, (failed,), back),
    ensures
        failed.cause() == Some(ErrorSource::Io(error)),
        back.kind == error.kind,
        back.message@ == error.message@,
        step == SocketStep::Resolve ==> failed.message() == "dns resolve error"@,
        step == SocketStep::Bind ==> failed.message() == "tcp bind local address"@,
        step == SocketStep::Connect ==> failed.message() == "tcp connect error"@,
{
}

/// An error as text says what failed, and then why.
pub proof fn law_error_text_says_what_and_why(error: TcpConnectionError, shown: String)
    requires
        call_ensures(TcpConnectionError::to_string, (&error,), shown),
    ensures
        error.cause() is None ==> shown@ == error.message(),
        error.cause() matches Some(ErrorSource::Io(why)) ==> shown@ == error.message() + ": "@
            + why.message@,
        error.cause() matches Some(ErrorSource::Other(why)) ==> shown@ == error.message() + ": "@
            + why@,
        error.cause() matches Some(ErrorSource::Uri(_)) ==> shown@ == error.message()
            + ": invalid URI"@,
{
    reveal_strlit(": ");
    reveal_strlit("invalid URI");
    reveal_strlit(": invalid URI");
    if let Some(ErrorSource::Uri(_)) = error.cause() {
        assert(shown@ =~= error.message() + ": invalid URI"@);
    }
}

/// Where all attempts failed, the last error is reported as it is.
pub proof fn law_last_error_is_reported(
    last: TcpConnectionError,
    failed: TcpConnectionError,
    exhausted: TcpConnectionError,
)
    requires
        call_ensures(attempts_failed, (HappyEyeballsError::Error(last),), failed),
        call_ensures(attempts_failed, (HappyEyeballsError::NoProgress,), exhausted),
    ensures
        failed == last,
        exhausted.message() == "Exhausted connection candidates"@,
{
}

/// A transport is built with the configuration, the resolver and the way to find the host
/// that were set; what is not set is left at what it begins with.
pub proof fn law_transport_is_built_as_set<R, H>(
    begun: TcpTransportBuilder<(), ()>,
    config: TcpTransportConfig,
    configured: TcpTransportBuilder<(), ()>,
    resolver: R,
    resolving: TcpTransportBuilder<R, ()>,
    get_host: H,
    whole: TcpTransportBuilder<R, H>,
    transport: TcpTransport<R, H>,
    found: &TcpTransportConfig,
    ready: R,
    other: R,
    changed: TcpTransport<R, H>,
)
    requires
        call_ensures(TcpTransport::<(), ()>::builder, (), begun),
        call_ensures(TcpTransportBuilder::<(), ()>::with_config, (begun, config), configured),
        call_ensures(
            TcpTransportBuilder::<(), ()>::with_resolver::<R>,
            (configured, resolver),
            resolving,
        ),
        call_ensures(
            TcpTransportBuilder::<R, ()>::with_host_from::<H>,
            (resolving, get_host),
            whole,
        ),
        call_ensures(TcpTransportBuilder::<R, H>::build, (whole,), transport),
        call_ensures(TcpTransport::<R, H>::config, (&transport,), found),
        exists|m: &mut TcpTransport<R, H>, place: &mut R|
            *m == transport && *final(m) == changed && *place == ready && *final(place) == other
                && #[trigger] call_ensures(TcpTransport::<R, H>::resolver_mut, (m,), place),
    ensures
        *found == config,
        ready == resolver,
        transport.parts() == (resolver, get_host),
        changed.parts() == (other, get_host),
        changed.settings() == config,
{
}

/// A configuration can be changed in place before a transport is built, and the resolver of
/// the operating system and the hosts of URIs can be asked for.
pub proof fn law_builder_is_changed_in_place(
    begun: TcpTransportBuilder<(), ()>,
    first: TcpTransportConfig,
    config: TcpTransportConfig,
    set: TcpTransportBuilder<(), ()>,
    resolving: TcpTransportBuilder<GaiResolver, ()>,
    whole: TcpTransportBuilder<GaiResolver, HostFromUri>,
    resolver: &GaiResolver,
    same: TcpTransportBuilder<GaiResolver, HostFromUri>,
    transport: TcpTransport<GaiResolver, HostFromUri>,
    found: &TcpTransportConfig,
    short: TcpTransport<GaiResolver, HostFromUri>,
    plain: TcpTransport<GaiResolver, HostFromUri>,
    begin: TcpTransportConfig,
)
    requires
        call_ensures(TcpTransport::<(), ()>::builder, (), begun),
        exists|m: &mut TcpTransportBuilder<(), ()>, place: &mut TcpTransportConfig|
            *m == begun && *final(m) == set && *place == first && *final(place) == config
                && #[trigger] call_ensures(TcpTransportBuilder::<(), ()>::config, (m,), place),
        call_ensures(TcpTransportBuilder::<(), ()>::with_gai_resolver, (set,), resolving),
        call_ensures(TcpTransportBuilder::<GaiResolver, ()>::with_host_from_uri, (resolving,), whole),
        exists|m: &mut TcpTransportBuilder<GaiResolver, HostFromUri>|
            *m == whole && *final(m) == same && #[trigger] call_ensures(
                TcpTransportBuilder::<GaiResolver, HostFromUri>::resolver,
                (m,),
                resolver,
            ),
        call_ensures(TcpTransportBuilder::<GaiResolver, HostFromUri>::build, (same,), transport),
        call_ensures(TcpTransport::<GaiResolver, HostFromUri>::config, (&transport,), found),
        call_ensures(TcpTransportConfig::build, (config,), short),
        call_ensures(TcpTransport::<GaiResolver, HostFromUri>::default, (), plain),
        call_ensures(TcpTransportConfig::default, (), begin),
    ensures
        *found == config,
        short.settings() == config,
        first.connect_timeout is Some && first.connect_timeout->0.nanos == 10 * 1_000_000_000,
        begin.connect_timeout is Some && begin.connect_timeout->0.nanos == 10 * 1_000_000_000,
        begin.keep_alive_timeout is Some && begin.keep_alive_timeout->0.nanos == 90 * 1_000_000_000,
        begin.happy_eyeballs_timeout is Some && begin.happy_eyeballs_timeout->0.nanos == 30
            * 1_000_000_000,
        begin.happy_eyeballs_concurrency == Some(2usize),
        begin.nodelay && begin.reuse_address,
        begin.local_address_ipv4 is None && begin.local_address_ipv6 is None,
        begin.send_buffer_size is None && begin.recv_buffer_size is None,
        plain.settings().connect_timeout is Some && plain.settings().connect_timeout->0.nanos == 10
            * 1_000_000_000,
{
}

/// A host is resolved with the resolver that has been made ready, for as long as connecting
/// may take, and a clone of the resolver takes its place.
pub proof fn law_ready_resolver_is_used<R: Clone, H>(
    before: TcpTransport<R, H>,
    resolving: (R, Option<Duration>),
    after: TcpTransport<R, H>,
    config: TcpTransportConfig,
    resolver: R,
    simple: SimpleTcpTransport<R>,
    simple_resolving: (R, Option<Duration>),
    simple_after: SimpleTcpTransport<R>,
)
    requires
        exists|m: &mut TcpTransport<R, H>|
            *m == before && *final(m) == after && #[trigger] call_ensures(
                TcpTransport::<R, H>::resolve,
                (m,),
                resolving,
            ),
        call_ensures(SimpleTcpTransport::<R>::new, (config, resolver), simple),
        exists|m: &mut SimpleTcpTransport<R>|
            *m == simple && *final(m) == simple_after && #[trigger] call_ensures(
                SimpleTcpTransport::<R>::resolve,
                (m,),
                simple_resolving,
            ),
    ensures
        resolving == (before.parts().0, before.settings().connect_timeout),
        cloned(before.parts().0, after.parts().0),
        after.parts().1 == before.parts().1,
        after.settings() == before.settings(),
        simple_resolving == (resolver, config.connect_timeout),
        cloned(resolver, simple_after.parts().1),
        simple_after.parts().0 == config,
{
}

/// The attempts that are planned for addresses are those that the transport of the same
/// configuration plans.
pub proof fn law_plan_goes_by_the_configuration<R, H>(
    transport: TcpTransport<R, H>,
    addrs: SocketAddrs,
    config: TcpTransportConfig,
    first: TcpConnecting,
    second: TcpConnecting,
    third: TcpConnecting,
)
    requires
        transport.settings() == config,
        call_ensures(TcpTransport::<R, H>::connecting, (&transport, addrs), first),
        call_ensures(connect_to_addrs, (&config, addrs), second),
        call_ensures(TcpConnecting::new, (addrs, config), third),
    ensures
        first.addrs() == second.addrs(),
        first.settings() == config && second.settings() == config && third.settings() == config,
        third.addrs() == addrs@,
        config.happy_eyeballs_timeout is None ==> second.addrs() == addrs@,
        config.local_address_ipv4 is None && config.local_address_ipv6 is None ==> second.addrs()
            == addrs@,
{
    assert(addrs@ + Seq::<SocketAddr>::empty() =~= addrs@);
}

/// A transport with a single attempt makes it to the address that was resolved, at the port
/// that was asked for, with a socket of that address's version that is set up as configured.
pub proof fn law_single_attempt_goes_to_the_address<R>(
    config: TcpTransportConfig,
    resolver: R,
    transport: SimpleTcpTransport<R>,
    ip: IpAddr,
    port: u16,
    attempt: (SocketAddr, SocketPlan),
    socket: SocketPlan,
)
    requires
        call_ensures(SimpleTcpTransport::<R>::new, (config, resolver), transport),
        call_ensures(SimpleTcpTransport::<R>::connect, (&transport, ip, port), attempt),
        call_ensures(connect, (&attempt.0, config.connect_timeout, &config), socket),
    ensures
        ip matches IpAddr::V4(ip) ==> (attempt.0 matches SocketAddr::V4(addr) && addr.ip == ip
            && addr.port == port),
        ip matches IpAddr::V6(ip) ==> (attempt.0 matches SocketAddr::V6(addr) && addr.ip == ip
            && addr.port == port && addr.flowinfo == 0 && addr.scope_id == 0),
        attempt.1 == socket,
        attempt.1.connect_timeout == config.connect_timeout,
        attempt.1.domain == IpVersion::V4 <==> ip is V4,
        attempt.1.nodelay == config.nodelay,
{
}

/// A transport with a single attempt gives the socket that it connected; an attempt that
/// failed is the cause of the error that is given, and what the operating system said is the
/// cause of that.
pub proof fn law_single_attempt_is_the_result<R, S>(
    transport: SimpleTcpTransport<R>,
    outcome: ConnectOutcome<S>,
    result: Result<S, TcpConnectionError>,
)
    requires
        call_ensures(SimpleTcpTransport::<R>::connected::<S>, (&transport, outcome), result),
    ensures
        outcome matches ConnectOutcome::Connected(stream) ==> result == Ok::<
            S,
            TcpConnectionError,
        >(stream),
        outcome matches ConnectOutcome::Refused(error) ==> {
            &&& result matches Err(failed)
            &&& failed.message() == "tcp connect error"@
            &&& failed.cause() matches Some(ErrorSource::Attempt(attempt))
            &&& attempt.message() == "tcp connect error"@
            &&& attempt.cause() == Some(ErrorSource::Io(error))
        },
        outcome matches ConnectOutcome::TimedOut(message) ==> {
            &&& result matches Err(failed)
            &&& failed.cause() matches Some(ErrorSource::Attempt(attempt))
            &&& attempt.cause() matches Some(ErrorSource::Io(error))
            &&& error.kind == ErrorKind::TimedOut
            &&& error.message == message
        },
{
}

/// A transport with a single attempt finds the host and the port as every other does, and
/// changing its resolver leaves its configuration.
pub proof fn law_single_attempt_is_configured<R, R2>(
    config: TcpTransportConfig,
    resolver: R,
    transport: SimpleTcpTransport<R>,
    uri: Uri,
    target: Result<(String, u16), TcpConnectionError>,
    plain: Result<(String, u16), TcpConnectionError>,
    by_uri: Result<(String, u16), TcpConnectionError>,
    other: R2,
    changed: SimpleTcpTransport<R2>,
    found: R2,
)
    requires
        call_ensures(SimpleTcpTransport::<R>::new, (config, resolver), transport),
        call_ensures(SimpleTcpTransport::<R>::call, (&transport, &uri), target),
        call_ensures(get_host_and_port, (&uri,), plain),
        call_ensures(HostFromUri::get_host_and_port, (&HostFromUri, &uri), by_uri),
        call_ensures(SimpleTcpTransport::<R>::with_resolver::<R2>, (transport, other), changed),
        exists|m: &mut SimpleTcpTransport<R2>, place: &mut R2|
            *m == changed && *place == found && #[trigger] call_ensures(
                SimpleTcpTransport::<R2>::resolver_mut,
                (m,),
                place,
            ),
    ensures
        target is Ok <==> plain is Ok,
        target is Ok ==> target->Ok_0.0@ == plain->Ok_0.0@ && target->Ok_0.1 == plain->Ok_0.1,
        by_uri is Ok <==> plain is Ok,
        by_uri is Ok ==> by_uri->Ok_0.0@ == plain->Ok_0.0@ && by_uri->Ok_0.1 == plain->Ok_0.1,
        uri.authority is None ==> plain is Err && plain->Err_0.message() == "missing host"@,
        uri.authority is Some && plain is Err ==> plain->Err_0.message() == "missing port"@,
        plain is Err ==> plain->Err_0.cause() == Some(ErrorSource::Uri(InvalidUri)),
        changed.parts() == (config, other),
        found == other,
{
}

/// A target that is given as text is the target of the URI that stands in it.
pub proof fn law_target_of_text_is_that_of_its_uri(
    text: &str,
    read: Result<Uri, crate::uri::InvalidUri>,
    outcome: Option<Result<(String, u16), TcpConnectionError>>,
    of_uri: Result<(String, u16), TcpConnectionError>,
)
    requires
        call_ensures(Uri::parse, (text,), read),
        call_ensures(get_host_and_port_of_text, (text,), outcome),
        read is Ok ==> call_ensures(get_host_and_port, (&read->Ok_0,), of_uri),
    ensures
        outcome is None <==> read is Err,
        read is Ok ==> (outcome->0 is Ok <==> of_uri is Ok),
        read is Ok && of_uri is Ok ==> outcome->0->Ok_0.0@ == of_uri->Ok_0.0@
            && outcome->0->Ok_0.1 == of_uri->Ok_0.1,
{
}

/// An error keeps what failed and why.
pub proof fn law_error_keeps_what_and_why(
    message: String,
    error: IoError,
    source: ErrorSource,
    join: dns::JoinError,
    bare: TcpConnectionError,
    uri: TcpConnectionError,
    refused: TcpConnectionError,
    built: TcpConnectionError,
    joined: TcpConnectionError,
    shown: String,
    reason: String,
    invalid: String,
)
    requires
        call_ensures(TcpConnectionError::new, (message,), bare),
        call_ensures(TcpConnectionError::uri, (message,), uri),
        call_ensures(TcpConnectionError::msg, (message, error), refused),
        call_ensures(TcpConnectionError::build, (message, source), built),
        call_ensures(TcpConnectionError::from_join, (join,), joined),
        call_ensures(TcpConnectionError::to_string, (&built,), shown),
        call_ensures(ErrorSource::to_string, (&source,), reason),
        call_ensures(InvalidUri::to_string, (&InvalidUri,), invalid),
    ensures
        bare.message() == message@ && bare.cause() is None,
        uri.message() == message@ && uri.cause() == Some(ErrorSource::Uri(InvalidUri)),
        refused.message() == message@ && refused.cause() == Some(ErrorSource::Io(error)),
        built.message() == message@ && built.cause() == Some(source),
        joined.message() == "tcp connection panic"@ && joined.cause() == Some(
            ErrorSource::Other(join.message),
        ),
        shown@ == message@ + ": "@ + reason@,
        source matches ErrorSource::Io(error) ==> reason@ == error.message@,
        source matches ErrorSource::Other(text) ==> reason@ == text@,
        source is Uri ==> reason@ == invalid@,
        invalid@ == "invalid URI"@,
{
    reveal_with_fuel(ErrorSource::said, 2);
    reveal_with_fuel(TcpConnectionError::said, 2);
}

/// A copy of a transport connects as the transport does: with the same configuration, and
/// clones of what resolves names and finds hosts.
pub proof fn law_copied_transport_is_configured_alike<R: Clone, H: Clone>(
    transport: TcpTransport<R, H>,
    copy: TcpTransport<R, H>,
    before: &TcpTransportConfig,
    after: &TcpTransportConfig,
    simple: SimpleTcpTransport<R>,
    simple_copy: SimpleTcpTransport<R>,
)
    requires
        call_ensures(TcpTransport::<R, H>::clone, (&transport,), copy),
        call_ensures(TcpTransport::<R, H>::config, (&transport,), before),
        call_ensures(TcpTransport::<R, H>::config, (&copy,), after),
        call_ensures(SimpleTcpTransport::<R>::clone, (&simple,), simple_copy),
    ensures
        *after == *before,
        cloned(transport.parts().0, copy.parts().0),
        cloned(transport.parts().1, copy.parts().1),
        simple_copy.parts().0 == simple.parts().0,
        cloned(simple.parts().1, simple_copy.parts().1),
{
}

} // verus!
