//! Connecting: hosts and ports, addresses, attempts, encryption, connectors.

use hyperdriver::client::conn::connection::info::WithInfo;
use hyperdriver::client::conn::connection::notify::{
    announcement, WatchError, WatchedConnection, Watcher,
};
use hyperdriver::client::conn::connection::ConnectionError;
use hyperdriver::client::conn::connector::{
    Connector, ConnectorEvent, ConnectorLayer, ConnectorService, ConnectorState, ConnectorStep,
    Error, ResponseEvent, ResponseFuture, ResponseStep,
};
use hyperdriver::client::conn::dns::{
    self, FirstAddrExt, FirstAddrFuture, GaiFuture, GaiResolver, IpVersion, IpVersionExt,
    JoinError, SocketAddrs,
};
use hyperdriver::client::conn::protocol::http::HttpConnectionBuilder;
use hyperdriver::client::conn::protocol::info::{ProtocolInfoExt, ProtocolWithInfoFuture};
use hyperdriver::client::conn::protocol::mock::{MockProtocol, MockProtocolError, MockSender};
use hyperdriver::client::conn::protocol::notify::{ProtocolNotifyExt, ProtocolWithNotifyFuture};
use hyperdriver::client::conn::protocol::{HttpProtocol, Version};
use hyperdriver::client::conn::stream::mock::{MockAddress, MockConnection, MockStream, MockTls};
use hyperdriver::client::conn::tcp::{
    self as plain, AttemptError, ConnectingStep, ConnectorStage, TcpConnectionConfig, TcpConnector,
};
use hyperdriver::client::conn::tls::{
    get_host, get_tls_domain, AutoTlsTransport, BraidPlan, HttpTlsTransport,
};
use hyperdriver::client::conn::transport::duplex::DuplexTransport;
use hyperdriver::client::conn::transport::mock::{
    MockConnecting, MockConnectionError, MockTransport,
};
use hyperdriver::client::conn::transport::stream::{ConnectFuture, IntoStream};
use hyperdriver::client::conn::transport::tcp::{
    self, attempts_failed, bind_local_address, connected, ConnectOutcome, ErrorSource,
    GetHostAndPort, HappyEyeballsError, HostFromUri, SimpleTcpTransport, SocketStep,
    TcpConnectionError, TcpTransport, TcpTransportConfig,
};
use hyperdriver::client::conn::transport::tls::{
    TlsConnectionError, TlsConnectionFuture, TlsEvent, TlsState, TlsStep, TlsTransportWrapper,
};
use hyperdriver::client::conn::transport::unix::{UnixConnectionError, UnixExtensionTransport};
use hyperdriver::client::error::{Cause, Error as ClientError};
use hyperdriver::client::pool::{PoolableConnection, PoolableStream};
use hyperdriver::counter::Counter16;
use hyperdriver::info::{ConnectionInfo, HasConnectionInfo, TlsConnectionInfo};
use hyperdriver::io::{ErrorKind, IoError};
use hyperdriver::net::{IpAddr, Ipv4Addr, Ipv6Addr, SocketAddr};
use hyperdriver::patron;
use hyperdriver::poll::Poll;
use hyperdriver::time::Duration;
use hyperdriver::uri::Uri;

fn uri(text: &str) -> Uri {
    Uri::parse(text).unwrap()
}

fn v4(bits: u32, port: u16) -> SocketAddr {
    SocketAddr::new(IpAddr::V4(Ipv4Addr { bits }), port)
}

fn v6(bits: u128, port: u16) -> SocketAddr {
    SocketAddr::new(IpAddr::V6(Ipv6Addr { bits }), port)
}

fn refused() -> IoError {
    IoError::new(ErrorKind::Other, "refused".to_owned())
}

#[test]
fn tcp_test_get_host_and_port() {
    let found = tcp::get_host_and_port(&uri("http://example.com")).unwrap();
    assert_eq!(found, ("example.com".to_owned(), 80));
    let found = tcp::get_host_and_port(&uri("http://example.com:8080")).unwrap();
    assert_eq!(found, ("example.com".to_owned(), 8080));
    let found = tcp::get_host_and_port(&uri("https://example.com")).unwrap();
    assert_eq!(found, ("example.com".to_owned(), 443));
    let found = tcp::get_host_and_port(&uri("https://example.com:8443")).unwrap();
    assert_eq!(found, ("example.com".to_owned(), 8443));
    assert!(tcp::get_host_and_port(&uri("grpc://example.com")).is_err());
    assert!(tcp::get_host_and_port(&uri("grpc://[::1]")).is_err());
}

#[test]
fn test_get_host_and_port() {
    let found = plain::get_host_and_port(&uri("http://example.com")).unwrap();
    assert_eq!(found, ("example.com".to_owned(), 80));
    let found = plain::get_host_and_port(&uri("http://example.com:8080")).unwrap();
    assert_eq!(found, ("example.com".to_owned(), 8080));
    let found = plain::get_host_and_port(&uri("https://example.com")).unwrap();
    assert_eq!(found, ("example.com".to_owned(), 443));
    let found = plain::get_host_and_port(&uri("https://example.com:8443")).unwrap();
    assert_eq!(found, ("example.com".to_owned(), 8443));
    assert!(plain::get_host_and_port(&uri("grpc://example.com")).is_err());
    assert!(plain::get_host_and_port(&uri("grpc://[::1]")).is_err());
}

#[test]
fn patron_test_get_host_and_port() {
    let found = patron::tcp::get_host_and_port(&uri("http://example.com")).unwrap();
    assert_eq!(found, ("example.com".to_owned(), 80));
    let found = patron::tcp::get_host_and_port(&uri("http://example.com:8080")).unwrap();
    assert_eq!(found, ("example.com".to_owned(), 8080));
    let found = patron::tcp::get_host_and_port(&uri("https://example.com")).unwrap();
    assert_eq!(found, ("example.com".to_owned(), 443));
    let found = patron::tcp::get_host_and_port(&uri("https://example.com:8443")).unwrap();
    assert_eq!(found, ("example.com".to_owned(), 8443));
    assert!(patron::tcp::get_host_and_port(&uri("grpc://example.com")).is_err());
    assert!(patron::tcp::get_host_and_port(&uri("grpc://[::1]")).is_err());
}

#[test]
fn missing_hosts_and_ports_are_told() {
    let error = tcp::get_host_and_port(&uri("grpc://example.com")).unwrap_err();
    assert_eq!(error.to_string(), "missing port: invalid URI");
    let error = tcp::get_host_and_port(&uri("/path")).unwrap_err();
    assert_eq!(error.to_string(), "missing host: invalid URI");
    let error = plain::get_host_and_port(&uri("grpc://example.com")).unwrap_err();
    assert_eq!(error.to_string(), "missing port");
    let error = plain::get_host_and_port(&uri("/path")).unwrap_err();
    assert_eq!(error.to_string(), "missing host");
    let error = dns::get_host_and_port(&uri("/path")).unwrap_err();
    assert_eq!(error.message, "missing host in URI");
    assert_eq!(error.kind, ErrorKind::InvalidData);
    let error = dns::get_host_and_port(&uri("grpc://example.com")).unwrap_err();
    assert_eq!(error.message, "missing port in URI for non-http(s) scheme");
    assert!(HostFromUri::default().get_host_and_port(&uri("/path")).is_err());
}

#[test]
fn hosts_lose_their_brackets() {
    let found = tcp::get_host_and_port(&uri("http://[::1]:8080")).unwrap();
    assert_eq!(found, ("::1".to_owned(), 8080));
    let found = tcp::get_host_and_port_of_text("http://[::1]").unwrap().unwrap();
    assert_eq!(found, ("::1".to_owned(), 80));
    assert!(tcp::get_host_and_port_of_text("http://a b").is_none());
}

#[test]
fn verify_stream() {
    let mut ids = Counter16::new();
    let conn = MockStream::new(false, &mut ids);
    assert!(!conn.can_share());

    let conn = MockStream::new(false, &mut ids);
    conn.close();
    assert_eq!(conn.info().remote_addr(), &MockAddress);

    let dbg = format!("{:?}", conn);
    assert!(dbg.starts_with("MockStream { "));
}

#[test]
fn streams_are_numbered_and_closed_together() {
    let mut ids = Counter16::new();
    let first = MockStream::reusable(&mut ids);
    let second = MockStream::single(&mut ids);
    assert_eq!(first.id().to_string(), "stream-1");
    assert_eq!(second.id().to_string(), "stream-2");
    let copy = first.clone();
    assert_eq!(copy.id(), first.id());
    assert!(copy.is_open());
    first.close();
    assert!(!copy.is_open());
    assert!(second.is_open());
    assert_eq!(MockAddress::default().to_string(), "mock://");
}

#[test]
fn mock_connections_share_their_stream() {
    let mut ids = Counter16::new();
    let mut shared = MockConnection::reusable(&mut ids);
    let copy = shared.reuse().unwrap();
    assert_eq!(copy.id(), shared.id());
    copy.close();
    assert!(!shared.is_open());
    let mut owned = MockConnection::single(&mut ids);
    assert!(owned.is_open());
    assert!(!owned.can_share());
    assert!(owned.reuse().is_none());

    let stream = MockStream::reusable(&mut ids);
    let later = stream.clone();
    let connection = MockConnection::new(stream.clone());
    assert_eq!(connection.id(), stream.id());
    assert!(connection.is_open() && connection.can_share());
    later.close();
    assert!(!connection.is_open());
    assert!(!stream.is_open());
    later.close();
    assert!(!stream.clone().is_open());
    assert!(owned.is_open());
    assert_eq!(connection.id(), stream.id());
}

#[test]
fn mock_senders_close_together() {
    let mut ids = Counter16::new();
    let mut sender = MockSender::new(&mut ids);
    let other = MockSender::single(&mut ids);
    assert!(sender.is_open() && sender.can_share());
    assert!(other.is_open() && !other.can_share());
    let copy = sender.reuse().unwrap();
    let clone = sender.clone();
    assert_eq!(copy.id(), sender.id());
    clone.close();
    assert!(!sender.is_open() && !copy.is_open());
    assert_eq!(copy.id(), sender.id());
    assert!(other.is_open());
    assert!(MockSender::reusable(&mut ids).is_open());
}

#[test]
fn addresses_are_split_by_version() {
    let list = vec![v4(1, 1), v6(2, 2), v4(3, 3), v6(4, 4)];
    let (first, second) =
        SocketAddrs::from_vec(list.clone()).split_prefered(Some(IpVersion::V6));
    assert_eq!((first.get(0), first.get(1)), (Some(v6(2, 2)), Some(v6(4, 4))));
    assert_eq!((second.get(0), second.get(1)), (Some(v4(1, 1)), Some(v4(3, 3))));
    assert_eq!(first.len() + second.len(), 4);
    let mut sorted = SocketAddrs::from_vec(list);
    sorted.sort_preferred(Some(IpVersion::V4));
    assert_eq!(sorted.pop(), Some(v4(1, 1)));
    assert_eq!(sorted.pop(), Some(v4(3, 3)));
    assert_eq!(sorted.pop(), Some(v6(2, 2)));
    assert_eq!(sorted.pop(), Some(v6(4, 4)));
    assert_eq!(sorted.pop(), None);
}

#[test]
fn addresses_take_a_port() {
    let mut addrs = SocketAddrs::new();
    addrs.push(v4(1, 1));
    addrs.push(v6(2, 2));
    addrs.set_port(80);
    assert_eq!(addrs.get(0), Some(v4(1, 80)));
    assert_eq!(addrs.get(1), Some(v6(2, 80)));
    assert_eq!(addrs.get(2), None);
    assert!(!addrs.is_empty());
    assert_eq!(v4(1, 1).version(), IpVersion::V4);
    assert_eq!(v6(1, 1).ip().version(), IpVersion::V6);
    assert!(IpVersion::V4.is_v4());
    assert!(IpVersion::V6.is_v6());
}

#[test]
fn binding_decides_the_version() {
    let a = Some(Ipv4Addr { bits: 1 });
    let b = Some(Ipv6Addr { bits: 1 });
    assert_eq!(IpVersion::from_binding(a, None), Some(IpVersion::V4));
    assert_eq!(IpVersion::from_binding(None, b), Some(IpVersion::V6));
    assert_eq!(IpVersion::from_binding(None, None), None);
    assert_eq!(bind_local_address(&v4(9, 9), &a, &b), Some(v4(1, 0)));
    assert_eq!(bind_local_address(&v6(9, 9), &a, &b), Some(v6(1, 0)));
    assert_eq!(bind_local_address(&v6(9, 9), &a, &None), None);
}

#[test]
fn names_are_resolved() {
    match GaiResolver::new().call(&uri("http://[::1]")) {
        GaiFuture::Resolve { host, port } => assert_eq!((host.as_str(), port), ("::1", 80)),
        GaiFuture::Error(_) => panic!("there is a host"),
    }
    let failed = GaiResolver::new().call(&uri("/")).poll(Poll::Pending);
    assert!(matches!(failed, Poll::Ready(Err(_))));
    let waiting = GaiResolver::new().call(&uri("http://a")).poll(Poll::Pending);
    assert!(matches!(waiting, Poll::Pending));
    let cancelled = JoinError { cancelled: true, message: "gone".to_owned() };
    match GaiResolver::new().call(&uri("http://a")).poll(Poll::Ready(Err(cancelled))) {
        Poll::Ready(Err(error)) => assert_eq!(error.kind, ErrorKind::Interrupted),
        _ => panic!("the task was cancelled"),
    }
}

#[test]
fn first_address_counts() {
    let first = FirstAddrFuture::new(());
    let addrs = SocketAddrs::from_vec(vec![v4(7, 1), v4(8, 1)]);
    match first.poll(Poll::Ready(Ok(addrs))) {
        Poll::Ready(Ok(ip)) => assert_eq!(ip, IpAddr::V4(Ipv4Addr { bits: 7 })),
        _ => panic!("there is an address"),
    }
    match first.poll(Poll::Ready(Ok(SocketAddrs::new()))) {
        Poll::Ready(Err(error)) => {
            assert_eq!(error.kind, ErrorKind::AddrNotAvailable);
            assert_eq!(error.message, "no address found");
        }
        _ => panic!("there is no address"),
    }
    let mut resolver = GaiResolver::new().first_addr();
    assert_eq!(*resolver.inner(), GaiResolver);
    assert_eq!(*resolver.clone().inner(), GaiResolver);
}

#[test]
fn attempts_are_planned() {
    let transport = TcpTransport::<(), ()>::builder()
        .with_config(TcpTransportConfig {
            local_address_ipv6: Some(Ipv6Addr { bits: 5 }),
            send_buffer_size: Some(4096),
            ..TcpTransportConfig::default()
        })
        .with_gai_resolver()
        .with_host_from_uri()
        .build();
    let mut plan = transport.connect(SocketAddrs::from_vec(vec![v4(1, 0), v6(2, 0)]), 443);
    let schedule = plan.schedule();
    assert_eq!(schedule.delay, Some(Duration::from_secs(15)));
    assert_eq!(schedule.timeout, Some(Duration::from_secs(30)));
    assert_eq!(schedule.concurrency, Some(2));
    let (first, socket) = plan.next_attempt().unwrap();
    assert_eq!(first, v6(2, 443));
    assert_eq!(socket.connect_timeout, Some(Duration::from_secs(10)));
    assert_eq!(socket.keep_alive, Some(Duration::from_secs(90)));
    assert_eq!(socket.bind, Some(v6(5, 0)));
    assert_eq!(socket.send_buffer_size, Some(4096));
    assert!(socket.reuse_address && socket.nodelay);
    let (second, socket) = plan.next_attempt().unwrap();
    assert_eq!(second, v4(1, 443));
    assert_eq!(socket.bind, None);
    assert!(plan.next_attempt().is_none());
}

#[test]
fn buffers_have_a_largest_size() {
    let config = TcpTransportConfig {
        recv_buffer_size: Some(usize::MAX),
        ..TcpTransportConfig::default()
    };
    let plan = tcp::connect(&v4(1, 1), None, &config);
    assert_eq!(plan.recv_buffer_size, Some(u32::MAX));
    assert_eq!(plan.send_buffer_size, None);
    assert_eq!(plan.connect_timeout, None);
}

#[test]
fn failed_attempts_are_told() {
    let error = attempts_failed(HappyEyeballsError::Timeout(Duration::from_millis(1500)));
    assert_eq!(error.to_string(), "Connection attempts timed out after 1500ms");
    let error = attempts_failed(HappyEyeballsError::NoProgress);
    assert_eq!(error.to_string(), "Exhausted connection candidates");
    let error = attempts_failed(HappyEyeballsError::Error(SocketStep::Open.failed(refused())));
    assert_eq!(error.to_string(), "tcp open error: refused");
    assert_eq!(SocketStep::Bind.failed(refused()).to_string(), "tcp bind local address: refused");
    let error = SocketStep::SetNonblocking.failed(refused());
    assert_eq!(error.to_string(), "tcp set_nonblocking error: refused");
    assert_eq!(SocketStep::PollReady.failed(refused()).to_string(), "dns poll_ready: refused");
    assert_eq!(SocketStep::Resolve.failed(refused()).to_string(), "dns resolve error: refused");
    assert_eq!(connected(ConnectOutcome::Connected(3)).unwrap(), 3);
    let error = connected::<u8>(ConnectOutcome::Refused(refused())).unwrap_err();
    assert_eq!(error.to_string(), "tcp connect error: refused");
    let error = connected::<u8>(ConnectOutcome::TimedOut("late".to_owned())).unwrap_err();
    let error = error.into_io();
    assert_eq!(error.kind, ErrorKind::TimedOut);
    assert_eq!(error.message, "late");
    let error = TcpConnectionError::new("alone".to_owned()).into_io();
    assert_eq!(error.kind, ErrorKind::Other);
    let gone = JoinError { cancelled: false, message: "gone".to_owned() };
    assert_eq!(TcpConnectionError::from_join(gone).to_string(), "tcp connection panic: gone");
}

#[test]
fn simple_transport_makes_one_attempt() {
    let transport = SimpleTcpTransport::new(TcpTransportConfig::default(), GaiResolver::new());
    let (addr, plan) = transport.connect(IpAddr::V4(Ipv4Addr { bits: 1 }), 80);
    assert_eq!(addr, v4(1, 80));
    assert_eq!(plan.domain, IpVersion::V4);
    let target = transport.call(&uri("https://example.com")).unwrap();
    assert_eq!(target, ("example.com".to_owned(), 443));
    assert!(transport.call(&uri("/path")).is_err());
    assert_eq!(transport.connected(ConnectOutcome::Connected(3)).unwrap(), 3);
    let outcome: ConnectOutcome<()> = ConnectOutcome::Refused(refused());
    let error = transport.connected(outcome).unwrap_err();
    assert_eq!(error.to_string(), "tcp connect error: tcp connect error: refused");
    let error = error.into_io();
    assert_eq!(error.kind, ErrorKind::Other);
    assert_eq!(error.message, "tcp connect error: tcp connect error: refused");
    let outcome: ConnectOutcome<()> = ConnectOutcome::TimedOut("late".to_owned());
    let error = transport.connected(outcome).unwrap_err();
    assert_eq!(error.to_string(), "tcp connect error: tcp connect error: late");
}

#[test]
fn connector_decides_about_encryption() {
    let connector = TcpConnector::new(TcpConnectionConfig::default(), "tls");
    let target = connector.call(&uri("https://example.com"));
    assert_eq!((target.host.as_str(), target.port, target.tls), ("example.com", 443, true));
    let target = connector.call(&uri("http://example.com"));
    assert!(!target.tls);
    assert_eq!(*connector.tls(), "tls");
    assert_eq!(*connector.resolver(), GaiResolver);
    let config = *connector.config();
    assert_eq!(config.connect_timeout, Some(Duration::from_secs(10)));
    assert_eq!(config.keep_alive_timeout, Some(Duration::from_secs(90)));
    assert_eq!(config.happy_eyeballs_timeout, Some(Duration::from_millis(300)));
    assert!(config.nodelay && config.reuse_address);
    assert_eq!(ConnectorStage::Resolve.failed(refused()).to_string(), "dns resolution: refused");
    assert_eq!(ConnectorStage::TlsHandshake.failed(refused()).to_string(), "TLS handshake: refused");
    let error = ConnectorStage::TlsInfo.failed(refused());
    assert_eq!(error.to_string(), "TLS connection info: refused");
    let error = ConnectorStage::TcpHandshake.failed(refused());
    assert_eq!(error.to_string(), "TCP handshake (noop): refused");
    let error = ConnectorStage::TcpInfo.failed(refused());
    assert_eq!(error.to_string(), "TCP connection info: refused");
    assert_eq!(ConnectorStage::PollReady.failed(refused()).to_string(), "dns poll_ready: refused");
}

#[test]
fn connector_races_its_attempts() {
    let connector = TcpConnector::new(TcpConnectionConfig::default(), ());
    let addrs = SocketAddrs::from_vec(vec![v4(1, 0), v4(2, 0), v4(3, 0)]);
    let mut plan = connector.connect(addrs, 80);
    assert_eq!(plan.delay(), Some(Duration::from_millis(75)));
    assert!(matches!(plan.next(), ConnectingStep::Start(addr, _) if addr == v4(1, 80)));
    assert!(matches!(plan.next(), ConnectingStep::Start(addr, _) if addr == v4(2, 80)));
    assert!(matches!(plan.next(), ConnectingStep::Race));
    assert!(matches!(plan.next(), ConnectingStep::Start(addr, _) if addr == v4(3, 80)));
    assert!(matches!(plan.next(), ConnectingStep::Race));
    assert!(matches!(plan.next(), ConnectingStep::Finish));
    assert!(plain::raced::<u8>(None).is_none());
    assert_eq!(plain::raced(Some(Ok(1))).unwrap().unwrap(), 1);
    let failed = AttemptError::Connection(TcpConnectionError::new("no".to_owned()));
    assert_eq!(plain::finalized::<u8>(Err(failed)).unwrap_err().to_string(), "no");
    let failed = AttemptError::Panic("gone".to_owned());
    assert_eq!(plain::raced::<u8>(Some(Err(failed))).unwrap().unwrap_err().to_string(), "panic: gone");
    let error = TcpConnectionError::build("a".to_owned(), ErrorSource::Other("b".to_owned()));
    assert_eq!(error.to_string(), "a: b");
}

#[test]
fn fallback_addresses_are_kept_apart() {
    let config = TcpConnectionConfig::default();
    let addrs = SocketAddrs::from_vec(vec![v6(1, 1), v4(2, 2), v6(3, 3)]);
    let plan = patron::tcp::connecting(
        &TcpConnectionConfig { local_address_ipv4: Some(Ipv4Addr { bits: 9 }), ..config },
        addrs,
    );
    assert_eq!(plan.prefered.timeout(), Some(Duration::from_secs(10)));
    assert_eq!(plan.prefered.connect().address(), Some(v4(2, 2)));
    let fallback = plan.fallback.as_ref().unwrap();
    assert_eq!(fallback.delay, Duration::from_millis(300));
    assert_eq!(fallback.connect.timeout(), Some(Duration::from_secs(5)));
    let without = TcpConnectionConfig { happy_eyeballs_timeout: None, ..config };
    let plan = patron::tcp::connecting(&without, SocketAddrs::from_vec(vec![v6(1, 1), v4(2, 2)]));
    assert!(plan.fallback.is_none());
    assert_eq!(plan.prefered.timeout(), Some(Duration::from_secs(5)));
    let nothing = patron::tcp::connecting(&config, SocketAddrs::new());
    assert_eq!(nothing.prefered.timeout(), None);
    let error = nothing.prefered.connect().exhausted();
    assert_eq!(error.to_string(), "no addresses to connect to");
}

#[test]
fn addresses_are_tried_one_after_the_other() {
    let addrs = SocketAddrs::from_vec(vec![v4(1, 1), v4(2, 2)]);
    let set = patron::tcp::TcpConnectingSet::new(addrs, None);
    let mut attempts = set.connect();
    assert_eq!(attempts.address(), Some(v4(1, 1)));
    let no = TcpConnectionError::new("first".to_owned());
    let step = attempts.advance::<u8>(patron::tcp::AttemptEvent::Failed(no));
    assert!(matches!(step, patron::tcp::AttemptStep::Next));
    assert_eq!(attempts.address(), Some(v4(2, 2)));
    let step = attempts.advance(patron::tcp::AttemptEvent::Connected(7));
    assert!(matches!(step, patron::tcp::AttemptStep::Done(Ok(7))));
    let no = TcpConnectionError::new("socket".to_owned());
    let step = attempts.advance::<u8>(patron::tcp::AttemptEvent::NotStarted(no));
    assert!(matches!(step, patron::tcp::AttemptStep::Done(Err(_))));
    let no = TcpConnectionError::new("second".to_owned());
    attempts.advance::<u8>(patron::tcp::AttemptEvent::Failed(no));
    assert_eq!(attempts.address(), None);
    assert_eq!(attempts.exhausted().to_string(), "second");
}

#[test]
fn both_sides_of_a_race_may_fail() {
    let config =
        TcpConnectionConfig { local_address_ipv4: Some(Ipv4Addr { bits: 9 }), ..Default::default() };
    let plan =
        patron::tcp::connecting(&config, SocketAddrs::from_vec(vec![v6(1, 1), v4(2, 2)]));
    let error = |text: &str| TcpConnectionError::new(text.to_owned());
    let race = patron::tcp::TcpRace::new(&plan);
    let (race, step) = race.advance::<u8>(patron::tcp::RaceEvent::Primary(Err(error("primary"))));
    assert!(matches!(step, patron::tcp::RaceStep::Wait));
    let (_, step) =
        race.unwrap().advance::<u8>(patron::tcp::RaceEvent::Fallback(Err(error("fallback"))));
    match step {
        patron::tcp::RaceStep::Done(Err(error)) => assert_eq!(error.to_string(), "primary"),
        _ => panic!("both have failed"),
    }
    let race = patron::tcp::TcpRace::new(&plan);
    let (race, step) = race.advance::<u8>(patron::tcp::RaceEvent::Fallback(Err(error("fallback"))));
    assert!(matches!(step, patron::tcp::RaceStep::Wait));
    let (_, step) = race.unwrap().advance(patron::tcp::RaceEvent::Primary(Ok(3)));
    assert!(matches!(step, patron::tcp::RaceStep::Done(Ok(3))));
    let alone = patron::tcp::connecting(&config, SocketAddrs::from_vec(vec![v4(2, 2)]));
    let (_, step) = patron::tcp::TcpRace::new(&alone)
        .advance::<u8>(patron::tcp::RaceEvent::Primary(Err(error("primary"))));
    assert!(matches!(step, patron::tcp::RaceStep::Done(Err(_))));
}

/// Takes a connector through all its stages. Says whether others were to be told.
fn connect_on(stream: MockStream) -> bool {
    let id = stream.id();
    let connector: Connector<&str, &str, &str, MockStream> =
        Connector::new("transport", "protocol", "address", HttpProtocol::Http1);
    assert_eq!(connector.state.name(), "PollReadyTransport");
    assert!(!connector.shareable);
    let waiting = connector.advance::<&str, &str, &str>(ConnectorEvent::TransportReady(Poll::Pending));
    let connector = match waiting {
        ConnectorStep::Pending(connector) => connector,
        _ => panic!("the transport is not ready"),
    };
    let connector = match connector
        .advance::<&str, &str, &str>(ConnectorEvent::TransportReady(Poll::Ready(Ok(()))))
    {
        ConnectorStep::Connect { connector, transport, address } => {
            assert_eq!((transport, address), ("transport", "address"));
            connector
        }
        _ => panic!("the transport is ready"),
    };
    let connector = match connector
        .advance::<&str, &str, &str>(ConnectorEvent::Connected(Poll::Ready(Ok(stream))))
    {
        ConnectorStep::PollProtocol(connector) => connector,
        _ => panic!("the transport is connected"),
    };
    let shareable = connector.shareable;
    let (connector, told) = match connector
        .advance::<&str, &str, &str>(ConnectorEvent::ProtocolReady(Poll::Ready(Ok(()))))
    {
        ConnectorStep::Handshake { connector, protocol, stream, version, notify } => {
            assert_eq!((protocol, stream.id(), notify), ("protocol", id, shareable));
            assert_eq!(version, HttpProtocol::Http1);
            (connector, notify)
        }
        _ => panic!("the protocol is ready"),
    };
    assert!(matches!(connector.state, ConnectorState::Handshake));
    match connector.advance::<&str, &str, &str>(ConnectorEvent::Handshaken(Poll::Ready(Ok("done")))) {
        ConnectorStep::Done(Ok(connection)) => assert_eq!(connection, "done"),
        _ => panic!("the handshake is done"),
    }
    told
}

#[test]
fn connector_goes_through_its_stages() {
    let mut ids = Counter16::new();
    assert!(!connect_on(MockStream::single(&mut ids)));
}

#[test]
fn connector_asks_the_stream_before_the_handshake() {
    let mut ids = Counter16::new();
    assert!(connect_on(MockStream::reusable(&mut ids)));
}

#[test]
fn connector_reports_where_it_failed() {
    let connector: Connector<(), (), (), ()> = Connector::new((), (), (), HttpProtocol::Http2);
    let event = ConnectorEvent::TransportReady(Poll::Ready(Err(1)));
    let step = connector.advance_with::<(), u8, u8>(event, false);
    assert!(matches!(step, ConnectorStep::Done(Err(Error::Connecting(1)))));
    let connector: Connector<(), (), (), ()> = Connector {
        state: ConnectorState::Connect { protocol: () },
        version: Some(HttpProtocol::Http2),
        shareable: false,
    };
    let event = ConnectorEvent::Connected(Poll::Ready(Err(2)));
    let step = connector.advance_with::<(), u8, u8>(event, true);
    assert!(matches!(step, ConnectorStep::Done(Err(Error::Connecting(2)))));
    let connector: Connector<(), (), (), ()> = Connector {
        state: ConnectorState::PollReadyHandshake { protocol: (), stream: () },
        version: Some(HttpProtocol::Http2),
        shareable: true,
    };
    let event = ConnectorEvent::ProtocolReady(Poll::Ready(Err(3)));
    let step = connector.advance_with::<(), u8, u8>(event, false);
    assert!(matches!(step, ConnectorStep::Done(Err(Error::Handshaking(3)))));
    let connector: Connector<(), (), (), ()> =
        Connector { state: ConnectorState::Handshake, version: None, shareable: false };
    let event = ConnectorEvent::Handshaken(Poll::Ready(Err(4)));
    let step = connector.advance_with::<(), u8, u8>(event, false);
    assert!(matches!(step, ConnectorStep::Done(Err(Error::Handshaking(4)))));
}

#[test]
fn requests_go_through_the_connector_service() {
    let layer = ConnectorLayer::new("transport", "protocol");
    let service = layer.clone().layer("service");
    let service: ConnectorService<&str, &str, &str> = service.clone();
    let future: ResponseFuture<Connector<&str, &str, &str, ()>, &str, &str, &str> =
        service.call("address", HttpProtocol::Http1, "request");
    match future.advance::<&str, &str>(ResponseEvent::Connection(Poll::Ready(Ok("connection")))) {
        ResponseStep::Execute { future, service, connection, request } => {
            assert_eq!((service, connection, request), ("service", "connection", "request"));
            let done = future
                .advance::<&str, &str>(ResponseEvent::Response(Poll::Ready(Ok("response"))));
            assert!(matches!(done, ResponseStep::Done(Ok("response"))));
        }
        _ => panic!("there is a connection"),
    }
    let future: ResponseFuture<(), (), (), &str> = ResponseFuture::error("no key");
    let done = future.advance::<(), ()>(ResponseEvent::Connection(Poll::Pending));
    match done {
        ResponseStep::Done(Err(ClientError::Connection(Cause::Error(error)))) => {
            assert_eq!(error, "no key")
        }
        _ => panic!("there is no connection"),
    }
    let future: ResponseFuture<(), (), (), &str> = ResponseFuture::new((), (), ());
    let failed = Error::Handshaking("bad");
    match future.advance::<(), ()>(ResponseEvent::Connection(Poll::Ready(Err(failed)))) {
        ResponseStep::Done(Err(ClientError::Protocol(Cause::Error(error)))) => {
            assert_eq!(error, "bad")
        }
        _ => panic!("the handshake failed"),
    }
}

fn negotiated(alpn: Option<&str>) -> Option<TlsConnectionInfo> {
    let mut info = TlsConnectionInfo::new();
    info.alpn = alpn.map(|name| name.to_owned());
    Some(info)
}

#[test]
fn handshakes_follow_the_agreement() {
    let builder = HttpConnectionBuilder::new("one", "two");
    let mut builder = builder.clone();
    assert_eq!((*builder.http1(), *builder.http2()), ("one", "two"));
    assert_eq!(builder.handshake(HttpProtocol::Http2, &None), HttpProtocol::Http2);
    assert_eq!(builder.handshake(HttpProtocol::Http1, &None), HttpProtocol::Http1);
    assert_eq!(builder.handshake(HttpProtocol::Http1, &negotiated(Some("h2"))), HttpProtocol::Http2);
    let spoken = builder.handshake(HttpProtocol::Http1, &negotiated(Some("http/1.1")));
    assert_eq!(spoken, HttpProtocol::Http1);
    let alpn = hyperdriver::client::conn::protocol::auto::AlpnHttpConnectionBuilder;
    assert_eq!(alpn.call(&negotiated(Some("h2"))), HttpProtocol::Http2);
    assert_eq!(alpn.call(&negotiated(None)), HttpProtocol::Http1);
    assert!(hyperdriver::client::conn::protocol::auto::agreed_on_http2(&negotiated(Some("h2"))));
    assert!(!hyperdriver::client::conn::protocol::auto::agreed_on_http2(&None));
    assert_eq!(alpn.handshake(HttpProtocol::Http2, &negotiated(None)), HttpProtocol::Http2);
    assert!(HttpProtocol::Http2.multiplex());
    assert!(!HttpProtocol::Http1.multiplex());
    assert_eq!(HttpProtocol::from_version(Version::Http10), HttpProtocol::Http1);
    assert_eq!(HttpProtocol::from_version(Version::Http2), HttpProtocol::Http2);
}

#[test]
fn hosts_come_from_headers() {
    let target = uri("https://example.com");
    let header = Some(b"other.example".to_vec());
    assert_eq!(get_host(&target, &header), Some("other.example".to_owned()));
    assert_eq!(get_host(&target, &None), Some("example.com".to_owned()));
    let unreadable = Some(vec![0xffu8]);
    assert_eq!(get_host(&target, &unreadable), Some("example.com".to_owned()));
    assert_eq!(get_host(&uri("/"), &None), None);
    assert_eq!(get_tls_domain(&target, &None), Some("example.com".to_owned()));
    assert_eq!(get_tls_domain(&uri("http://example.com"), &None), None);
    assert_eq!(get_tls_domain(&uri("wss://example.com"), &None), Some("example.com".to_owned()));
}

#[test]
fn encryption_is_optional() {
    let with = AutoTlsTransport::new("transport").with_tls("config");
    match with.call(&uri("https://example.com"), &None) {
        BraidPlan::Tls(domain) => assert_eq!(domain, "example.com"),
        BraidPlan::Plain => panic!("the target is encrypted"),
    }
    assert!(matches!(with.call(&uri("http://example.com"), &None), BraidPlan::Plain));
    assert_eq!(with.tls_config(), Some(&"config"));
    assert_eq!(*with.inner(), "transport");
    assert_eq!(with.into_parts(), ("transport", Some("config")));
    let without: AutoTlsTransport<&str, &str> = AutoTlsTransport::new("transport");
    assert!(matches!(without.call(&uri("https://example.com"), &None), BraidPlan::Plain));
    assert_eq!(without.with_optional_tls(None).into_inner(), "transport");
}

#[test]
fn wrapped_transports_are_encrypted() {
    let wrapped = TlsTransportWrapper::new("transport", "config");
    assert_eq!((*wrapped.transport(), *wrapped.config()), ("transport", "config"));
    let future: TlsConnectionFuture<&str, &str, &str, &str> =
        wrapped.call(&uri("https://example.com"));
    let encrypting = match future.poll(TlsEvent::Connected(Poll::Ready(Ok("stream")))) {
        TlsStep::Encrypt { stream, config, domain, .. } => {
            assert_eq!((stream, config, domain.as_str()), ("stream", "config", "example.com"));
            TlsConnectionFuture::<&str, &str, &str, &str>::handshaking("encrypted")
        }
        _ => panic!("the transport is connected"),
    };
    assert!(matches!(encrypting.state, TlsState::Handshake { .. }));
    match encrypting.poll(TlsEvent::<&str, &str, &str>::Handshaken(Poll::Ready(Ok(())))) {
        TlsStep::Done(Ok(stream)) => assert_eq!(stream, "encrypted"),
        _ => panic!("the handshake is done"),
    }
    let nameless: TlsConnectionFuture<&str, &str, &str, &str> = wrapped.call(&uri("/"));
    let step = nameless.poll(TlsEvent::Connected::<&str, &str, &str>(Poll::Pending));
    assert!(matches!(step, TlsStep::Done(Err(TlsConnectionError::NoDomain))));
    assert_eq!(wrapped.into_parts(), ("transport", "config"));
}

#[test]
fn small_transports_hand_over() {
    let duplex = DuplexTransport::new(1024, "client");
    assert_eq!(duplex.call(), ("client", 1024));
    let mut unix = UnixExtensionTransport::new("inner");
    assert_eq!(unix.call(Some("address")).unwrap(), ("inner", "address"));
    assert!(matches!(unix.call::<&str>(None), Err(UnixConnectionError::NoAddress)));
    let mut stream = IntoStream::new("transport");
    assert_eq!(*stream.transport_mut(), "transport");
    let converted: Poll<Result<String, ()>> = ConnectFuture::new(()).poll(Poll::Ready(Ok("io")));
    assert!(matches!(converted, Poll::Ready(Ok(text)) if text == "io"));
}

/// Something that is polled for readiness, which clones are not.
#[derive(Debug, PartialEq, Eq)]
struct Polled {
    ready: bool,
}

impl Clone for Polled {
    fn clone(&self) -> Self {
        Polled { ready: false }
    }
}

#[test]
fn what_was_ready_is_handed_out() {
    let mut unix = UnixExtensionTransport::new(Polled { ready: false });
    unix.transport_mut().ready = true;
    let (used, address) = unix.call(Some("address")).unwrap();
    assert!(used.ready);
    assert_eq!(address, "address");
    assert!(!unix.transport_mut().ready);
    unix.transport_mut().ready = true;
    assert_eq!(unix.call::<&str>(None), Err(UnixConnectionError::NoAddress));
    assert!(!unix.transport_mut().ready);

    let mut simple =
        SimpleTcpTransport::new(TcpTransportConfig::default(), Polled { ready: false });
    simple.resolver_mut().ready = true;
    let (used, limit) = simple.resolve();
    assert!(used.ready);
    assert_eq!(limit, Some(Duration::from_secs(10)));
    assert!(!simple.resolver_mut().ready);

    let mut transport = TcpTransport::<(), ()>::builder()
        .with_resolver(Polled { ready: true })
        .with_host_from_uri()
        .build();
    assert!(transport.resolver_mut().ready);
    let (used, limit) = transport.resolve();
    assert!(used.ready);
    assert_eq!(limit, Some(Duration::from_secs(10)));
    assert!(!transport.resolver_mut().ready);
    assert!(transport.call(&uri("http://example.com")).is_ok());
}

#[test]
fn transports_can_be_copied() {
    assert_eq!(DuplexTransport::new(1024, "client").clone().call(), ("client", 1024));
    let mut unix = UnixExtensionTransport::new("inner").clone();
    assert_eq!(unix.call(Some(1)), Ok(("inner", 1)));
    assert_eq!(*UnixExtensionTransport::from("inner").transport_mut(), "inner");
    assert_eq!(*IntoStream::new("transport").clone().transport_mut(), "transport");
    let wrapped = TlsTransportWrapper::new("transport", "config").clone();
    assert_eq!(wrapped.into_parts(), ("transport", "config"));
    let encrypted = HttpTlsTransport::new("transport", "config").clone();
    let domain = encrypted.call(&uri("https://example.com"), &None);
    assert_eq!(domain, Some("example.com".to_owned()));
    let bare: AutoTlsTransport<&str, &str> = AutoTlsTransport::new("transport");
    assert_eq!(bare.clone().into_parts(), ("transport", None));
    assert_eq!(bare.with_tls("config").clone().into_parts(), ("transport", Some("config")));

    let mut transport = TcpTransportConfig { nodelay: false, ..Default::default() }.build().clone();
    assert!(!transport.config().nodelay);
    assert_eq!(*transport.resolver_mut(), GaiResolver);
    let simple = SimpleTcpTransport::new(TcpTransportConfig::default(), "resolver");
    assert_eq!(simple.clone().resolve(), ("resolver", Some(Duration::from_secs(10))));
    let connector = TcpConnector::new(TcpConnectionConfig::default(), "tls").clone();
    assert_eq!((*connector.resolver(), *connector.tls()), (GaiResolver, "tls"));
    assert_eq!(connector.config().connect_timeout, Some(Duration::from_secs(10)));

    let addrs = SocketAddrs::from_vec(vec![v4(1, 80), v4(2, 80)]);
    let mut copy = addrs.clone();
    assert_eq!(copy.pop(), Some(v4(1, 80)));
    assert_eq!((copy.len(), addrs.len()), (1, 2));
    let mut builder = patron::conn::Builder::new("http1", "http2");
    builder.set_protocol(patron::conn::ConnectionProtocol::Http2);
    let mut copy = builder.clone();
    assert_eq!(copy.protocol(), patron::conn::ConnectionProtocol::Http2);
    assert_eq!((*copy.http1(), *copy.http2()), ("http1", "http2"));
}

#[test]
fn connections_can_be_copied() {
    let mut ids = Counter16::new();
    let info = ConnectionInfo::new("here", "there");
    let wrapped = WithInfo::new(MockStream::reusable(&mut ids), info);
    let copy = wrapped.clone();
    assert_eq!(copy.connection().id(), wrapped.connection().id());
    assert_eq!(*copy.info().remote_addr(), "there");

    let mut watched = WatchedConnection::new(MockStream::reusable(&mut ids));
    let watcher = watched.watch();
    let other = watcher.clone();
    let mut copy = watched.clone();
    assert_eq!(copy.connection_mut().id(), watched.connection_mut().id());
    assert!(!other.is_ready());
    copy.poll_ready::<()>(Poll::Ready(Ok(())));
    assert!(watcher.is_ready() && other.is_ready());
    assert!(watched.watch().is_ready());
}

#[test]
fn mock_transports_do_as_told() {
    let mut ids = Counter16::new();
    assert!(matches!(
        MockTransport::error().call(&mut ids),
        MockConnecting::Ready(Err(MockConnectionError))
    ));
    assert_eq!(MockConnectionError.to_string(), "connection error");
    assert_eq!(MockProtocolError.to_string(), "mock protocol error");
    let (_sender, receiver) = tokio::sync::oneshot::channel();
    let mut channel = MockTransport::channel(receiver);
    assert!(matches!(channel.call(&mut ids), MockConnecting::Wait(_)));
    assert!(matches!(channel.call(&mut ids), MockConnecting::Ready(Err(_))));
    let mut sender = MockSender::new(&mut ids);
    assert_eq!(sender.send_request("body"), "body");
    let single = MockProtocol::default().call(MockStream::single(&mut ids), &mut ids);
    assert!(single.is_open());
    assert!(!single.can_share());
}

#[test]
fn info_travels_with_a_connection() {
    let mut ids = Counter16::new();
    let info = ConnectionInfo::new("here", "there");
    let mut wrapped = WithInfo::new(MockSender::reusable(&mut ids), info.clone());
    assert_eq!(*wrapped.info().remote_addr(), "there");
    assert!(wrapped.can_share());
    let copy = wrapped.reuse().unwrap();
    assert_eq!(*copy.info().local_addr(), "here");
    let mut sending = wrapped.send_with(());
    match sending.poll::<&str, ()>(Poll::Ready(Ok("response"))) {
        Poll::Ready(Ok((response, sent))) => {
            assert_eq!(response, "response");
            assert_eq!(*sent.remote_addr(), "there");
        }
        _ => panic!("there is a response"),
    }
    let mut making = ProtocolWithInfoFuture::new((), info);
    match making.poll::<u8, ()>(Poll::Ready(Ok(1))) {
        Poll::Ready(Ok(made)) => assert_eq!(*made.info().remote_addr(), "there"),
        _ => panic!("there is a connection"),
    }
    assert_eq!("protocol".with_info().clone().into_inner(), "protocol");
}

#[test]
fn watched_connections_tell_when_they_are_ready() {
    let mut ids = Counter16::new();
    let mut watched = WatchedConnection::new(MockSender::reusable(&mut ids));
    let watcher = watched.watch();
    assert!(!watcher.is_ready());
    watched.poll_ready::<()>(Poll::Ready(Ok(())));
    assert!(watcher.is_ready());
    watched.poll_ready::<()>(Poll::Pending);
    assert!(watcher.is_ready());
    assert!(watched.connection_mut().is_open());
    let mut sending = watched.send_with("future");
    assert!(!watcher.is_ready());
    match sending.poll::<&str, ()>(Poll::Ready(Ok("response"))) {
        Poll::Ready(Ok((response, _watcher))) => assert_eq!(response, "response"),
        _ => panic!("there is a response"),
    }
    let mut copy = watched.reuse().unwrap();
    copy.poll_ready::<()>(Poll::Ready(Ok(())));
    assert!(watcher.is_ready());
    let failed = watched.poll_ready(Poll::Ready(Err("closed")));
    assert!(matches!(failed, Poll::Ready(Err("closed"))));
    assert_eq!(announcement::<()>(&Poll::Ready(Ok(()))), Some(true));
    assert_eq!(Watcher::ready(true), Ok(()));
    assert_eq!(Watcher::ready(false), Err(WatchError));
    let making = ProtocolWithNotifyFuture::new(());
    assert!(matches!(making.poll::<u8, ()>(Poll::Pending), Poll::Pending));
    match making.poll::<u8, ()>(Poll::Ready(Ok(7))) {
        Poll::Ready(Ok(made)) => assert!(!made.watch().is_ready()),
        _ => panic!("the connection is made"),
    }
    assert_eq!("protocol".with_notify().clone().into_inner(), "protocol");
}

#[test]
fn connection_errors_are_told() {
    assert_eq!(ConnectionError::Connecting(()).to_string("cause"), "cause");
    assert_eq!(ConnectionError::Handshake(()).to_string("cause"), "handshake: cause");
    assert_eq!(ConnectionError::Canceled(()).to_string("cause"), "connection cancelled");
    assert_eq!(ConnectionError::Closed(()).to_string("cause"), "connection closed");
    assert_eq!(ConnectionError::<()>::Timeout.to_string("cause"), "connection timeout");
    let mut mock = MockTls::new("io", TlsConnectionInfo::new());
    assert_eq!(*mock.inner(), "io");
    assert!(mock.tls_info().is_some());
    mock = MockTls::new("other", TlsConnectionInfo::new());
    assert_eq!(*mock.inner(), "other");
}

#[test]
fn test_tcp_invalid_uri() {
    let transport = TcpTransport::<(), ()>::builder()
        .with_config(TcpTransportConfig::default())
        .with_resolver(())
        .with_host_from_uri()
        .build();
    assert!(transport.call(&uri("/path/")).is_err());
}

#[test]
fn test_transport_no_candidates() {
    let transport = TcpTransportConfig::default().build();
    let (_, port) = transport.call(&uri("http://example.com")).unwrap();
    let mut plan = transport.connect(SocketAddrs::default(), port);
    assert!(plan.next_attempt().is_none());
    let error = tcp::attempts_failed(tcp::HappyEyeballsError::NoProgress);
    assert!(!error.to_string().contains("timed out"));
}

#[test]
fn test_transport_error() {
    let failed = IoError::new(ErrorKind::AddrNotAvailable, "no address found".to_owned());
    let error = tcp::SocketStep::Resolve.failed(failed);
    assert!(error.to_string().contains("no address found"));
}
