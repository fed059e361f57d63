//! A TCP connector that encrypts what asks for it.
//!
//! Where [`transport::tcp`](super::transport::tcp) only connects, this connector also
//! decides whether TLS is spoken on the connection.

use vstd::prelude::*;

use crate::client::conn::dns::{self, GaiResolver, IpVersion, Missing, SocketAddrs};
use crate::client::conn::transport::tcp::{
    self, ErrorSource, SocketPlan, TcpConnectionError, TcpTransportConfig,
};
use crate::io::IoError;
use crate::net::{Ipv4Addr, Ipv6Addr, SocketAddr};
use crate::text;
use crate::time::Duration;
use crate::uri::{Uri, UriParts};

verus! {

/// Configuration for TCP connections.
#[derive(Debug, Clone, Copy, PartialEq, Eq, Structural)]
pub struct TcpConnectionConfig {
    /// The timeout for connecting to a remote address.
    pub connect_timeout: Option<Duration>,
    /// The timeout for keep-alive connections.
    pub keep_alive_timeout: Option<Duration>,
    /// The timeout for happy eyeballs algorithm.
    pub happy_eyeballs_timeout: Option<Duration>,
    /// The local IPv4 address to bind to.
    pub local_address_ipv4: Option<Ipv4Addr>,
    /// The local IPv6 address to bind to.
    pub local_address_ipv6: Option<Ipv6Addr>,
    /// Whether to disable Nagle's algorithm.
    pub nodelay: bool,
    /// Whether to reuse the local address.
    pub reuse_address: bool,
    /// The size of the send buffer.
    pub send_buffer_size: Option<usize>,
    /// The size of the receive buffer.
    pub recv_buffer_size: Option<usize>,
}

impl Default for TcpConnectionConfig {
    fn default() -> (config: Self)
        ensures
            config == (TcpConnectionConfig {
                connect_timeout: Some(Duration { nanos: 10_000_000_000 }),
                keep_alive_timeout: Some(Duration { nanos: 90_000_000_000 }),
                happy_eyeballs_timeout: Some(Duration { nanos: 300_000_000 }),
                local_address_ipv4: None,
                local_address_ipv6: None,
                nodelay: true,
                reuse_address: true,
                send_buffer_size: None,
                recv_buffer_size: None,
            }),
    {
        TcpConnectionConfig {
            connect_timeout: Some(Duration::from_secs(10)),
            keep_alive_timeout: Some(Duration::from_secs(90)),
            happy_eyeballs_timeout: Some(Duration::from_millis(300)),
            local_address_ipv4: None,
            local_address_ipv6: None,
            nodelay: true,
            reuse_address: true,
            send_buffer_size: None,
            recv_buffer_size: None,
        }
    }
}

impl TcpConnectionConfig {
    /// The same settings for a transport, which here starts one attempt at a time.
    pub open spec fn as_transport(self) -> TcpTransportConfig {
        TcpTransportConfig {
            connect_timeout: self.connect_timeout,
            keep_alive_timeout: self.keep_alive_timeout,
            happy_eyeballs_timeout: self.happy_eyeballs_timeout,
            happy_eyeballs_concurrency: None,
            local_address_ipv4: self.local_address_ipv4,
            local_address_ipv6: self.local_address_ipv6,
            nodelay: self.nodelay,
            reuse_address: self.reuse_address,
            send_buffer_size: self.send_buffer_size,
            recv_buffer_size: self.recv_buffer_size,
        }
    }

    /// The same settings for a transport.
    pub fn transport_config(&self) -> (config: TcpTransportConfig)
        ensures
            config == self.as_transport(),
    {
        TcpTransportConfig {
            connect_timeout: self.connect_timeout,
            keep_alive_timeout: self.keep_alive_timeout,
            happy_eyeballs_timeout: self.happy_eyeballs_timeout,
            happy_eyeballs_concurrency: None,
            local_address_ipv4: self.local_address_ipv4,
            local_address_ipv6: self.local_address_ipv6,
            nodelay: self.nodelay,
            reuse_address: self.reuse_address,
            send_buffer_size: self.send_buffer_size,
            recv_buffer_size: self.recv_buffer_size,
        }
    }
}

/// Whether an error says the given text, and nothing more.
pub open spec fn is_plain_error(error: TcpConnectionError, message: Seq<char>) -> bool {
    error.message() == message && error.cause() is None
}

/// Finds the host and the port to connect to.
pub fn get_host_and_port(uri: &Uri) -> (outcome: Result<(String, u16), TcpConnectionError>)
    ensures
        match outcome {
            Ok((host, port)) => uri@.authority is Some && host@ == dns::bare(
                uri@.authority->0.host,
            ) && dns::port_of(uri@) == Some(port),
            Err(error) => if uri@.authority is None {
                is_plain_error(error, "missing host"@)
            } else {
                dns::port_of(uri@) is None && is_plain_error(error, "missing port"@)
            },
        },
{
    match dns::host_and_port(uri) {
        Ok(target) => Ok(target),
        Err(Missing::Host) => Err(TcpConnectionError::new("missing host".to_owned())),
        Err(Missing::Port) => Err(TcpConnectionError::new("missing port".to_owned())),
    }
}

/// Whether a target names a host and a port.
pub open spec fn has_target(uri: UriParts) -> bool {
    uri.authority is Some && dns::port_of(uri) is Some
}

/// A step of the connector that can fail.
#[derive(Debug, Clone, Copy, PartialEq, Eq, Structural)]
pub enum ConnectorStage {
    /// The resolver is asked whether it is ready.
    PollReady,
    /// The name is resolved.
    Resolve,
    /// The TLS handshake.
    TlsHandshake,
    /// Asking the encrypted connection about itself.
    TlsInfo,
    /// The handshake of a connection that is not encrypted, which is none.
    TcpHandshake,
    /// Asking the connection about itself.
    TcpInfo,
}

impl ConnectorStage {
    /// How a failure is reported.
    pub open spec fn complaint(self) -> Seq<char> {
        match self {
            ConnectorStage::PollReady => "dns poll_ready"@,
            ConnectorStage::Resolve => "dns resolution"@,
            ConnectorStage::TlsHandshake => "TLS handshake"@,
            ConnectorStage::TlsInfo => "TLS connection info"@,
            ConnectorStage::TcpHandshake => "TCP handshake (noop)"@,
            ConnectorStage::TcpInfo => "TCP connection info"@,
        }
    }

    /// What to report where this step fails.
    pub fn failed(&self, error: IoError) -> (failed: TcpConnectionError)
        ensures
            failed.message() == self.complaint(),
            failed.cause() == Some(ErrorSource::Io(error)),
    {
        let message = match self {
            ConnectorStage::PollReady => "dns poll_ready",
            ConnectorStage::Resolve => "dns resolution",
            ConnectorStage::TlsHandshake => "TLS handshake",
            ConnectorStage::TlsInfo => "TLS connection info",
            ConnectorStage::TcpHandshake => "TCP handshake (noop)",
            ConnectorStage::TcpInfo => "TCP connection info",
        };
        TcpConnectionError::msg(message.to_owned(), error)
    }
}

/// What to connect to, and how.
#[derive(Debug)]
pub struct ConnectTarget {
    /// The host to resolve. It is also the name that the host has to prove, where the
    /// connection is encrypted.
    pub host: String,
    /// The port.
    pub port: u16,
    /// Whether the connection is encrypted.
    pub tls: bool,
}

/// A TCP connector for client connections.
#[derive(Debug)]
pub struct TcpConnector<R, L> {
    config: TcpConnectionConfig,
    resolver: R,
    tls: L,
}

impl<L> TcpConnector<GaiResolver, L> {
    /// Create a new `TcpConnector` with the given configuration.
    pub fn new(config: TcpConnectionConfig, tls: L) -> (connector: Self)
        ensures
            connector.settings() == config,
            connector.parts() == (GaiResolver, tls),
    {
        TcpConnector { config, resolver: GaiResolver::new(), tls }
    }
}

impl<R, L> TcpConnector<R, L> {
    /// The configuration.
    pub closed spec fn settings(self) -> TcpConnectionConfig {
        self.config
    }

    /// What resolves names, and how connections are encrypted.
    pub closed spec fn parts(self) -> (R, L) {
        (self.resolver, self.tls)
    }

    /// The configuration.
    pub fn config(&self) -> (config: &TcpConnectionConfig)
        ensures
            *config == self.settings(),
    {
        &self.config
    }

    /// What resolves names.
    pub fn resolver(&self) -> (resolver: &R)
        ensures
            *resolver == self.parts().0,
    {
        &self.resolver
    }

    /// How connections are encrypted.
    pub fn tls(&self) -> (tls: &L)
        ensures
            *tls == self.parts().1,
    {
        &self.tls
    }

    /// What to connect to for a URI. The URI has to name a host and a port, or a scheme
    /// whose port is known.
    pub fn call(&self, uri: &Uri) -> (target: ConnectTarget)
        requires
            has_target(uri@),
        ensures
            target.host@ == dns::bare(uri@.authority->0.host),
            Some(target.port) == dns::port_of(uri@),
            target.tls == (uri@.scheme == Some("https"@)),
    {
        let tls = match uri.scheme_str() {
            Some(scheme) => text::same(scheme, "https"),
            None => false,
        };
        match get_host_and_port(uri) {
            Ok((host, port)) => ConnectTarget { host, port, tls },
            // A URI with a target has both.
            Err(_) => ConnectTarget { host: String::new(), port: 0, tls },
        }
    }

    /// The attempts for addresses that were resolved for a port.
    pub fn connect(&self, addrs: SocketAddrs, port: u16) -> (plan: TcpConnecting)
        ensures
            plan.addrs() == tcp::attempt_order(
                addrs@.map_values(|addr: SocketAddr| addr.at_port(port)),
                self.settings().as_transport(),
            ),
            plan.settings() == self.settings(),
            plan.started() == 0,
    {
        let mut addrs = addrs;
        addrs.set_port(port);
        self.connecting(addrs)
    }

    /// The attempts for a set of addresses.
    pub fn connecting(&self, addrs: SocketAddrs) -> (plan: TcpConnecting)
        ensures
            plan.addrs() == tcp::attempt_order(addrs@, self.settings().as_transport()),
            plan.settings() == self.settings(),
            plan.started() == 0,
    {
        let mut addrs = addrs;
        if self.config.happy_eyeballs_timeout.is_some() {
            addrs.sort_preferred(
                IpVersion::from_binding(
                    self.config.local_address_ipv4,
                    self.config.local_address_ipv6,
                ),
            );
        }
        TcpConnecting::new(addrs, self.config)
    }
}

impl<R: Clone, L: Clone> Clone for TcpConnector<R, L> {
    fn clone(&self) -> (copy: Self)
        ensures
            copy.settings() == self.settings(),
            cloned(self.parts().0, copy.parts().0),
            cloned(self.parts().1, copy.parts().1),
    {
        TcpConnector {
            config: self.config,
            resolver: self.resolver.clone(),
            tls: self.tls.clone(),
        }
    }
}

/// Why an attempt failed.
#[derive(Debug)]
pub enum AttemptError {
    /// It could not connect.
    Connection(TcpConnectionError),
    /// It did not run to its end, as this text says.
    Panic(String),
}

impl AttemptError {
    /// What to report.
    pub fn report(self) -> (error: TcpConnectionError)
        ensures
            match self {
                AttemptError::Connection(failed) => error == failed,
                AttemptError::Panic(text) => error.message() == "panic"@ && error.cause() == Some(
                    ErrorSource::Other(text),
                ),
            },
    {
        match self {
            AttemptError::Connection(error) => error,
            AttemptError::Panic(text) => TcpConnectionError::build(
                "panic".to_owned(),
                ErrorSource::Other(text),
            ),
        }
    }
}

/// What to do about the attempts to reach a host.
#[derive(Debug, PartialEq, Eq)]
pub enum ConnectingStep {
    /// Start an attempt for this address.
    Start(SocketAddr, SocketPlan),
    /// Wait until one of the attempts ends, or for as long as
    /// [`TcpConnecting::delay`] says, then see [`raced`].
    Race,
    /// Wait until the attempts end, then see [`finalized`].
    Finish,
}

/// The attempts to reach a host, which run side by side.
#[derive(Debug)]
pub struct TcpConnecting {
    addresses: SocketAddrs,
    config: TcpConnectionConfig,
    started: usize,
    raced: bool,
}

impl TcpConnecting {
    /// The addresses that are left to try.
    pub closed spec fn addrs(self) -> Seq<SocketAddr> {
        self.addresses@
    }

    /// The configuration.
    pub closed spec fn settings(self) -> TcpConnectionConfig {
        self.config
    }

    /// How many attempts have been started.
    pub closed spec fn started(self) -> nat {
        self.started as nat
    }

    /// Whether the attempts that run have been waited for since the last one started.
    pub closed spec fn waited(self) -> bool {
        self.raced
    }

    /// Attempts of which none has started.
    pub fn new(addresses: SocketAddrs, config: TcpConnectionConfig) -> (plan: Self)
        ensures
            plan.addrs() == addresses@,
            plan.settings() == config,
            plan.started() == 0,
            !plan.waited(),
    {
        TcpConnecting { addresses, config, started: 0, raced: false }
    }

    /// How long to wait before another attempt is started: a part of the time that all
    /// have together, one for each address and one more.
    pub fn delay(&self) -> (delay: Option<Duration>)
        requires
            self.addrs().len() < u32::MAX,
        ensures
            match self.settings().happy_eyeballs_timeout {
                Some(span) => delay matches Some(part) && part@ == span@ / (self.addrs().len() + 1),
                None => delay is None,
            },
    {
        match self.config.happy_eyeballs_timeout {
            Some(span) => span.checked_div(self.addresses.len() as u32 + 1),
            None => None,
        }
    }

    /// What to do next. From the second attempt on, those that run are waited for before
    /// another is started.
    pub fn next(&mut self) -> (step: ConnectingStep)
        requires
            old(self).started() + old(self).addrs().len() <= usize::MAX,
        ensures
            final(self).settings() == old(self).settings(),
            if old(self).started() >= 2 && !old(self).waited() {
                &&& step == ConnectingStep::Race
                &&& final(self).addrs() == old(self).addrs()
                &&& final(self).started() == old(self).started()
                &&& final(self).waited()
            } else if old(self).addrs().len() > 0 {
                &&& step == ConnectingStep::Start(
                    old(self).addrs()[0],
                    tcp::planned(
                        old(self).addrs()[0],
                        old(self).settings().connect_timeout,
                        old(self).settings().as_transport(),
                    ),
                )
                &&& final(self).addrs() == old(self).addrs().skip(1)
                &&& final(self).started() == old(self).started() + 1
                &&& !final(self).waited()
            } else {
                &&& step == ConnectingStep::Finish
                &&& final(self).addrs() == old(self).addrs()
                &&& final(self).started() == old(self).started()
                &&& final(self).waited() == old(self).waited()
            },
    {
        if self.started >= 2 && !self.raced {
            self.raced = true;
            return ConnectingStep::Race;
        }
        match self.addresses.pop() {
            Some(address) => {
                self.started = self.started + 1;
                self.raced = false;
                let config = self.config.transport_config();
                ConnectingStep::Start(
                    address,
                    tcp::connect(&address, self.config.connect_timeout, &config),
                )
            },
            None => ConnectingStep::Finish,
        }
    }
}

/// What came of waiting for the attempts that run: the first that ended decides. `None`
/// says that none has ended, and that the next may start.
pub fn raced<S>(outcome: Option<Result<S, AttemptError>>) -> (result: Option<
    Result<S, TcpConnectionError>,
>)
    ensures
        match outcome {
            None => result is None,
            Some(Ok(stream)) => result == Some(Ok::<S, TcpConnectionError>(stream)),
            Some(Err(AttemptError::Connection(error))) => result == Some(
                Err::<S, TcpConnectionError>(error),
            ),
            Some(Err(AttemptError::Panic(text))) => result matches Some(Err(error))
                && error.message() == "panic"@ && error.cause() == Some(ErrorSource::Other(text)),
        },
{
    match outcome {
        None => None,
        Some(outcome) => Some(finalized(outcome)),
    }
}

/// What came of the attempts.
pub fn finalized<S>(outcome: Result<S, AttemptError>) -> (result: Result<S, TcpConnectionError>)
    ensures
        match outcome {
            Ok(stream) => result == Ok::<S, TcpConnectionError>(stream),
            Err(AttemptError::Connection(error)) => result == Err::<S, TcpConnectionError>(error),
            Err(AttemptError::Panic(text)) => result matches Err(error) && error.message()
                == "panic"@ && error.cause() == Some(ErrorSource::Other(text)),
        },
{
    match outcome {
        Ok(stream) => Ok(stream),
        Err(error) => Err(error.report()),
    }
}

/// A host is reached by attempts for its addresses one after the other, each once: what is
/// started is the first of those that are left. As long as no more than one attempt runs,
/// another is started at once; from the second on, those that run are waited for before
/// each of the next; and only when all have been started is their end waited for.
pub proof fn law_attempts_are_started_in_turn(
    before: TcpConnecting,
    step: ConnectingStep,
    after: TcpConnecting,
)
    requires
        before.started() + before.addrs().len() <= usize::MAX,
        exists|plan: &mut TcpConnecting|
            *plan == before && *final(plan) == after && #[trigger] call_ensures(
                TcpConnecting::next,
                (plan,),
                step,
            ),
    ensures
        step matches ConnectingStep::Start(addr, socket) ==> {
            &&& before.addrs() == seq![addr] + after.addrs()
            &&& after.started() == before.started() + 1
            &&& before.started() < 2 || before.waited()
            &&& !after.waited()
            &&& socket.connect_timeout == before.settings().connect_timeout
            &&& socket.nodelay == before.settings().nodelay
        },
        step is Race <==> before.started() >= 2 && !before.waited(),
        step is Race ==> after.waited() && after.addrs() == before.addrs() && after.started()
            == before.started(),
        step is Finish <==> before.addrs().len() == 0 && (before.started() < 2 || before.waited()),
        after.settings() == before.settings(),
{
    if step is Start {
        assert(before.addrs() =~= seq![before.addrs()[0]] + after.addrs());
    }
}

/// The first attempt that ends decides: its stream is the result, or its error.
pub proof fn law_first_attempt_to_end_decides<S>(
    stream: S,
    error: TcpConnectionError,
    won: Option<Result<S, TcpConnectionError>>,
    lost: Option<Result<S, TcpConnectionError>>,
    neither: Option<Result<S, TcpConnectionError>>,
    ended: Result<S, TcpConnectionError>,
)
    requires
        call_ensures(raced::<S>, (Some(Ok(stream)),), won),
        call_ensures(raced::<S>, (Some(Err(AttemptError::Connection(error))),), lost),
        call_ensures(raced::<S>, (None,), neither),
        call_ensures(finalized::<S>, (Err(AttemptError::Connection(error)),), ended),
    ensures
        won == Some(Ok::<S, TcpConnectionError>(stream)),
        lost == Some(Err::<S, TcpConnectionError>(error)),
        neither is None,
        ended == Err::<S, TcpConnectionError>(error),
{
}

/// A connection is encrypted exactly for `https`, and leads to the host and the port that
/// the URI names.
pub proof fn law_connection_is_encrypted_for_https<R, L>(
    connector: TcpConnector<R, L>,
    uri: Uri,
    target: ConnectTarget,
    found: Result<(String, u16), Missing>,
)
    requires
        has_target(uri@),
        call_ensures(TcpConnector::<R, L>::call, (&connector, &uri), target),
        call_ensures(dns::host_and_port, (&uri,), found),
    ensures
        target.tls <==> uri@.scheme == Some("https"@),
        found is Ok && found->Ok_0.0@ == target.host@ && found->Ok_0.1 == target.port,
{
}

/// A connector tries the addresses in the order in which they were resolved, at the port
/// of the request, where no version is preferred; where one is, its addresses come first.
pub proof fn law_resolved_order_is_kept<R, L>(
    connector: TcpConnector<R, L>,
    addrs: SocketAddrs,
    plan: TcpConnecting,
)
    requires
        call_ensures(TcpConnector::<R, L>::connecting, (&connector, addrs), plan),
    ensures
        plan.started() == 0,
        plan.settings() == connector.settings(),
        connector.settings().happy_eyeballs_timeout is None ==> plan.addrs() == addrs@,
        connector.settings().local_address_ipv4 is Some
            == connector.settings().local_address_ipv6 is Some ==> plan.addrs() == addrs@,
        connector.settings().happy_eyeballs_timeout is Some
            && connector.settings().local_address_ipv4 is Some
            && connector.settings().local_address_ipv6 is None ==> plan.addrs() == addrs@.filter(
            |addr: SocketAddr| addr is V4,
        ) + addrs@.filter(|addr: SocketAddr| addr is V6),
        connector.settings().happy_eyeballs_timeout is Some
            && connector.settings().local_address_ipv4 is None
            && connector.settings().local_address_ipv6 is Some ==> plan.addrs() == addrs@.filter(
            |addr: SocketAddr| addr is V6,
        ) + addrs@.filter(|addr: SocketAddr| addr is V4),
{
    assert(dns::has_version(IpVersion::V4) =~= (|addr: SocketAddr| addr is V4));
    assert(dns::has_version(IpVersion::V6) =~= (|addr: SocketAddr| addr is V6));
    assert(addrs@ + Seq::<SocketAddr>::empty() =~= addrs@);
}

/// A part of the time for all attempts lies between two of them: one for each address,
/// and one more.
pub proof fn law_delays_fit_into_the_time(plan: TcpConnecting, delay: Option<Duration>)
    requires
        plan.addrs().len() < u32::MAX,
        call_ensures(TcpConnecting::delay, (&plan,), delay),
    ensures
        delay is Some <==> plan.settings().happy_eyeballs_timeout is Some,
        plan.settings().happy_eyeballs_timeout matches Some(time) ==> {
            &&& delay->0@ * (plan.addrs().len() + 1) <= time@
            &&& time@ < (delay->0@ + 1) * (plan.addrs().len() + 1)
        },
{
    if plan.settings().happy_eyeballs_timeout is Some {
        let time = plan.settings().happy_eyeballs_timeout->0@ as int;
        let count = plan.addrs().len() + 1;
        vstd::arithmetic::div_mod::lemma_fundamental_div_mod(time, count as int);
        vstd::arithmetic::mul::lemma_mul_is_commutative(count as int, time / count as int);
        vstd::arithmetic::mul::lemma_mul_is_distributive_add_other_way(
            count as int,
            time / count as int,
            1,
        );
    }
}

/// The settings of a connector mean the same for a transport.
pub proof fn law_settings_carry_over(config: TcpConnectionConfig, same: TcpTransportConfig)
    requires
        call_ensures(TcpConnectionConfig::transport_config, (&config,), same),
    ensures
        same.connect_timeout == config.connect_timeout,
        same.keep_alive_timeout == config.keep_alive_timeout,
        same.happy_eyeballs_timeout == config.happy_eyeballs_timeout,
        same.local_address_ipv4 == config.local_address_ipv4,
        same.local_address_ipv6 == config.local_address_ipv6,
        same.nodelay == config.nodelay,
        same.reuse_address == config.reuse_address,
        same.send_buffer_size == config.send_buffer_size,
        same.recv_buffer_size == config.recv_buffer_size,
{
}

/// A connector has what it was made with, and asks the operating system for addresses; what
/// it begins with gives up after ten seconds, and starts attempts within three tenths of one.
pub proof fn law_connector_has_its_settings<L>(
    config: TcpConnectionConfig,
    tls: L,
    connector: TcpConnector<GaiResolver, L>,
    found: &TcpConnectionConfig,
    encryption: &L,
    resolver: &GaiResolver,
    begin: TcpConnectionConfig,
)
    requires
        call_ensures(TcpConnector::<GaiResolver, L>::new, (config, tls), connector),
        call_ensures(TcpConnector::<GaiResolver, L>::config, (&connector,), found),
        call_ensures(TcpConnector::<GaiResolver, L>::tls, (&connector,), encryption),
        call_ensures(TcpConnector::<GaiResolver, L>::resolver, (&connector,), resolver),
        call_ensures(TcpConnectionConfig::default, (), begin),
    ensures
        *found == config,
        *encryption == tls,
        begin.connect_timeout is Some && begin.connect_timeout->0.nanos == 10 * 1_000_000_000,
        begin.keep_alive_timeout is Some && begin.keep_alive_timeout->0.nanos == 90 * 1_000_000_000,
        begin.happy_eyeballs_timeout is Some && begin.happy_eyeballs_timeout->0.nanos == 300
            * 1_000_000,
        begin.nodelay && begin.reuse_address,
        begin.local_address_ipv4 is None && begin.local_address_ipv6 is None,
        begin.send_buffer_size is None && begin.recv_buffer_size is None,
{
}

/// What is missing from a target is told, and nothing more; what is there is what is found.
pub proof fn law_missing_part_is_told(
    uri: Uri,
    found: Result<(String, u16), Missing>,
    outcome: Result<(String, u16), TcpConnectionError>,
)
    requires
        call_ensures(dns::host_and_port, (&uri,), found),
        call_ensures(get_host_and_port, (&uri,), outcome),
    ensures
        found is Ok <==> outcome is Ok,
        found is Ok ==> found->Ok_0.0@ == outcome->Ok_0.0@ && found->Ok_0.1 == outcome->Ok_0.1,
        outcome is Err ==> outcome->Err_0.cause() is None,
        found == Err::<(String, u16), Missing>(Missing::Host) ==> outcome->Err_0.message()
            == "missing host"@,
        found == Err::<(String, u16), Missing>(Missing::Port) ==> outcome->Err_0.message()
            == "missing port"@,
{
}

/// A step that fails is told with its name and its cause, and an attempt with its own error,
/// or with what its task said where that did not run to its end.
pub proof fn law_failed_step_is_told(
    stage: ConnectorStage,
    error: IoError,
    failed: TcpConnectionError,
    attempt: AttemptError,
    reported: TcpConnectionError,
)
    requires
        call_ensures(ConnectorStage::failed, (&stage, error), failed),
        call_ensures(AttemptError::report, (attempt,), reported),
    ensures
        failed.cause() == Some(ErrorSource::Io(error)),
        stage == ConnectorStage::PollReady ==> failed.message() == "dns poll_ready"@,
        stage == ConnectorStage::Resolve ==> failed.message() == "dns resolution"@,
        stage == ConnectorStage::TlsHandshake ==> failed.message() == "TLS handshake"@,
        stage == ConnectorStage::TlsInfo ==> failed.message() == "TLS connection info"@,
        stage == ConnectorStage::TcpHandshake ==> failed.message() == "TCP handshake (noop)"@,
        stage == ConnectorStage::TcpInfo ==> failed.message() == "TCP connection info"@,
        attempt matches AttemptError::Connection(error) ==> reported == error,
        attempt matches AttemptError::Panic(text) ==> reported.message() == "panic"@
            && reported.cause() == Some(ErrorSource::Other(text)),
{
}

/// The attempts for addresses that were resolved are made at the port that was asked for, to
/// each address in its turn, as by the transport of the same settings.
pub proof fn law_attempts_are_made_at_the_port<R, L>(
    connector: TcpConnector<R, L>,
    addrs: SocketAddrs,
    port: u16,
    plan: TcpConnecting,
    config: TcpTransportConfig,
    transport_plan: tcp::TcpConnecting,
    ported: SocketAddrs,
)
    requires
        call_ensures(TcpConnector::<R, L>::connect, (&connector, addrs, port), plan),
        call_ensures(
            TcpConnectionConfig::transport_config,
            (&connector.settings(),),
            config,
        ),
        exists|m: &mut SocketAddrs|
            *m == addrs && *final(m) == ported && #[trigger] call_ensures(
                SocketAddrs::set_port,
                (m, port),
                (),
            ),
        call_ensures(tcp::connect_to_addrs, (&config, ported), transport_plan),
    ensures
        plan.addrs() == transport_plan.addrs(),
        plan.started() == 0,
        plan.settings() == connector.settings(),
        connector.settings().happy_eyeballs_timeout is None ==> {
            &&& plan.addrs().len() == addrs@.len()
            &&& forall|i: int|
                0 <= i < addrs@.len() ==> {
                    &&& addrs@[i] matches SocketAddr::V4(given) ==> (#[trigger] plan.addrs()[i] matches
                        SocketAddr::V4(made) && made.ip == given.ip && made.port == port)
                    &&& addrs@[i] matches SocketAddr::V6(given) ==> (plan.addrs()[i] matches
                        SocketAddr::V6(made) && made.ip == given.ip && made.port == port)
                }
        },
{
}

/// A copy of a connector connects as the connector does.
pub proof fn law_copied_connector_is_configured_alike<R: Clone, L: Clone>(
    connector: TcpConnector<R, L>,
    copy: TcpConnector<R, L>,
    before: &TcpConnectionConfig,
    after: &TcpConnectionConfig,
    resolver: &R,
    copied_resolver: &R,
    tls: &L,
    copied_tls: &L,
)
    requires
        call_ensures(TcpConnector::<R, L>::clone, (&connector,), copy),
        call_ensures(TcpConnector::<R, L>::config, (&connector,), before),
        call_ensures(TcpConnector::<R, L>::config, (&copy,), after),
        call_ensures(TcpConnector::<R, L>::resolver, (&connector,), resolver),
        call_ensures(TcpConnector::<R, L>::resolver, (&copy,), copied_resolver),
        call_ensures(TcpConnector::<R, L>::tls, (&connector,), tls),
        call_ensures(TcpConnector::<R, L>::tls, (&copy,), copied_tls),
    ensures
        *after == *before,
        cloned(*resolver, *copied_resolver),
        cloned(*tls, *copied_tls),
{
}

/// A plan begins with all of its addresses, in their order, and none of them started.
pub proof fn law_plan_begins_with_all_addresses(
    addrs: SocketAddrs,
    config: TcpConnectionConfig,
    plan: TcpConnecting,
    delay: Option<Duration>,
)
    requires
        call_ensures(TcpConnecting::new, (addrs, config), plan),
        call_ensures(TcpConnecting::delay, (&plan,), delay),
    ensures
        plan.addrs() == addrs@,
        plan.settings() == config,
        plan.started() == 0,
        !plan.waited(),
        config.happy_eyeballs_timeout is None ==> delay is None,
        config.happy_eyeballs_timeout is Some && addrs@.len() == 0 ==> delay is Some
            && delay->0.nanos == config.happy_eyeballs_timeout->0.nanos,
{
    if config.happy_eyeballs_timeout is Some && addrs@.len() == 0 {
        assert(config.happy_eyeballs_timeout->0@ / 1 == config.happy_eyeballs_timeout->0@);
    }
}

} // verus!
