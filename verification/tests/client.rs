//! Clients and how they are built.

use hyperdriver::bridge::rt::{TokioCurrentThreadExecutor, TokioExecutor};
use hyperdriver::bridge::service::TowerHyperService;
use hyperdriver::client::builder::{
    alpn_protocols, Builder, ClientLayer, Identity, Stack, Standard, TlsChoice,
};
use hyperdriver::client::conn::connector::{ConnectorState, ResponseFutureState};
use hyperdriver::client::conn::dns::GaiResolver;
use hyperdriver::client::conn::protocol::auto::AlpnHttpConnectionBuilder;
use hyperdriver::client::conn::protocol::mock::MockSender;
use hyperdriver::client::conn::protocol::{HttpProtocol, Version};
use hyperdriver::client::conn::transport::tcp::{HostFromUri, TcpTransport, TcpTransportConfig};
use hyperdriver::client::error::{Cause, ConnectionError, Error};
use hyperdriver::client::pool::checkout::InnerCheckoutConnecting;
use hyperdriver::client::pool::key::{UriError, UriKey};
use hyperdriver::client::pool::mock::{
    ConnectionId, MockConnection, MockConnectionError, MockTransport,
};
use hyperdriver::client::pool::service::{ConnectionPoolLayer, ConnectionPoolService};
use hyperdriver::client::pool::weakopt::WeakOpt;
use hyperdriver::client::pool::{Config, PoolRef, PoolableConnection, PoolableStream};
use hyperdriver::client::Client;
use hyperdriver::counter::Counter16;
use hyperdriver::info::TlsConnectionInfo;
use hyperdriver::io::{ErrorKind, IoError};
use hyperdriver::patron;
use hyperdriver::patron::conn::{ConnectionProtocol, HandshakeStage};
use hyperdriver::poll::Poll;
use hyperdriver::time::Duration;
use hyperdriver::uri::Uri;
use std::sync::{Arc, Weak};

fn uri(text: &str) -> Uri {
    Uri::parse(text).unwrap()
}

type DefaultBuilder = Builder<
    GaiResolver,
    TcpTransport<GaiResolver, HostFromUri>,
    AlpnHttpConnectionBuilder,
    Standard,
    Identity,
    &'static str,
>;

#[test]
fn build_default_compiles() {
    let service = DefaultBuilder::default().build_service();
    assert_eq!(service.user_agent, "hyperdriver/0.1.0");
    assert_eq!(service.layers[0], ClientLayer::Timeout(Duration::from_secs(30)));
    assert_eq!(service.layers[1], ClientLayer::FollowRedirect);
    assert_eq!(service.layers[2], ClientLayer::UserAgent);
    assert_eq!(service.layers[4], ClientLayer::ConnectionPool(Some(Config::default())));
    assert_eq!(service.layers[8], ClientLayer::Execute);
    assert_eq!(service.layers.len(), 9);
    assert!(matches!(service.tls, Some(TlsChoice::Platform)));
    assert_eq!(service.resolver, GaiResolver);
    assert_eq!(service.protocol, AlpnHttpConnectionBuilder);
}

#[test]
fn builder_settings_are_independent() {
    let mut builder = Builder::<(), (), (), Standard, Identity, &str>::new();
    assert_eq!(builder.timeout(), None);
    assert_eq!(builder.user_agent(), None);
    assert!(builder.pool().is_none());
    assert!(builder.redirect_policy().is_none());
    assert!(builder.tls().is_none());
    let mut builder = builder
        .with_user_agent("agent/1".to_owned())
        .with_timeout(Duration::from_secs(3))
        .with_transport("transport")
        .with_protocol("protocol")
        .with_redirect_policy("policy")
        .with_tls("config")
        .with_default_pool();
    assert_eq!(builder.user_agent(), Some("agent/1"));
    assert_eq!(builder.timeout(), Some(Duration::from_secs(3)));
    assert_eq!(*builder.transport(), "transport");
    assert_eq!(*builder.protocol(), "protocol");
    assert_eq!(builder.redirect_policy().map(|policy| *policy), Some("policy"));
    assert!(matches!(builder.tls(), Some(TlsChoice::Config("config"))));
    builder.pool().unwrap().max_idle_per_host = 4;
    assert_eq!(builder.pool().unwrap().max_idle_per_host, 4);
    let builder = builder.layer("inner").layer("innermost");
    let service = builder.without_tls().without_redirects().without_timeout().build_service();
    let Stack { inner, outer } = service.outer;
    assert_eq!((inner, outer.inner), ("innermost", "inner"));
    assert_eq!(service.layers[0], ClientLayer::UserAgent);
    assert_eq!(service.user_agent, "agent/1");
    assert!(service.tls.is_none());
    assert!(service.redirect.is_none());
}

#[test]
fn builder_has_shortcuts() {
    let config = TcpTransportConfig { nodelay: false, ..TcpTransportConfig::default() };
    let mut builder = Builder::<(), (), (), Standard, Identity, &str>::new()
        .with_tcp(config)
        .with_auto_http()
        .with_standard_redirect_policy()
        .with_default_tls()
        .with_pool(Config { max_idle_per_host: 1, ..Config::default() })
        .without_pool()
        .with_optional_timeout(Some(Duration::from_secs(9)));
    assert_eq!(*builder.transport().config(), config);
    assert!(builder.pool().is_none());
    let service = builder.build_service();
    assert_eq!(service.layers[0], ClientLayer::Timeout(Duration::from_secs(9)));
    assert_eq!(service.redirect, Some(Standard));
    assert_eq!(service.layers[4], ClientLayer::ConnectionPool(None));
    assert_eq!(alpn_protocols(), vec!["h2".to_owned(), "http/1.1".to_owned()]);
}

#[test]
fn names_of_clients_may_hold_any_letters() {
    let builder = Builder::<(), (), (), Standard, Identity, &str>::new()
        .with_user_agent("caf\u{e9}\t1".to_owned());
    let service = builder.build_service();
    assert_eq!(service.user_agent.as_bytes(), "caf\u{e9}\t1".as_bytes());
}

#[test]
fn clients_send_with_the_service_that_was_asked() {
    let mut client = Client::new_from_service("service");
    assert_eq!(*client.service_mut(), "service");
    assert_eq!(client.request(), "service");
    let request = client.get::<()>(uri("http://example.com/a"));
    assert_eq!(request.method, "GET");
    assert_eq!(request.uri.to_string(), "http://example.com/a");
    assert!(request.body.is_end_stream());
    assert_eq!(request.body.size_hint().exact(), Some(0));
    assert_eq!(request.body.kind(), "Empty");
    assert_eq!(client.clone().into_inner(), "service");
    assert_eq!(Client::<()>::builder::<()>().timeout(), None);
    let mut builder = Client::<()>::build_tcp_http::<()>();
    assert_eq!(builder.timeout(), Some(Duration::from_secs(30)));
    let settings = builder.transport().config();
    assert!(settings.nodelay);
    assert_eq!(settings.connect_timeout, Some(Duration::from_secs(10)));
}

#[test]
fn client_errors_are_told() {
    let error: Error<&str> = Error::from_connection(ConnectionError::Resolving("dns"));
    assert_eq!(error.to_string("dns"), "transport: dns");
    let error: Error<&str> = Error::from_connection(ConnectionError::Connecting("tcp"));
    assert_eq!(error, Error::Transport(Cause::Error("tcp")));
    let error: Error<&str> = Error::from_connection(ConnectionError::Handshaking("tls"));
    assert_eq!(error.to_string("tls"), "protocol: tls");
    let error: Error<&str> = Error::from_connection(ConnectionError::Service("send"));
    assert_eq!(error.to_string("send"), "connection: send");
    let error: Error<&str> = Error::from_connection(ConnectionError::Unavailable);
    let closed = "pool closed, no connection can be made";
    assert_eq!(error, Error::Connection(Cause::Message(closed.to_owned())));
    assert_eq!(Error::Service(Cause::Error("x")).to_string("x"), "serivce: x");
    assert_eq!(Error::User(Cause::Error("x")).to_string("x"), "user error: x");
    assert_eq!(Error::<()>::InvalidMethod("PUT".to_owned()).to_string(""), "invalid method: PUT");
    assert_eq!(Error::<()>::UnsupportedProtocol.to_string(""), "unsupported protocol");
    assert_eq!(Error::<()>::RequestTimeout.to_string(""), "request timeout");
}

type TestService = ConnectionPoolService<&'static str, &'static str, &'static str, MockSender, UriKey>;

/// An error that keeps the text of another.
#[derive(Debug)]
struct Told(String);

impl From<UriError> for Told {
    fn from(error: UriError) -> Self {
        Told(error.to_string())
    }
}

#[test]
fn requests_check_out_of_the_pool() {
    let mut service: TestService =
        ConnectionPoolService::new_tcp_http("transport", "protocol", "service");
    let checkout = service.connect_to::<()>(uri("http://example.com/a"), HttpProtocol::Http1).unwrap();
    assert_eq!(checkout.pool, PoolRef::Attached);
    match &checkout.inner {
        InnerCheckoutConnecting::ConnectingWithDelayDrop(Some(connector)) => match &connector.state {
            ConnectorState::PollReadyTransport { address, transport, protocol } => {
                assert_eq!(address.to_string(), "http://example.com/a");
                assert_eq!((*transport, *protocol), ("transport", "protocol"));
            }
            _ => panic!("the connector has not started"),
        },
        _ => panic!("the pool was empty"),
    }
    let again = service.connect_to::<()>(uri("http://EXAMPLE.com/b"), HttpProtocol::Http1).unwrap();
    assert_eq!(again.token, checkout.token);
    let other = service.connect_to::<()>(uri("https://example.com/"), HttpProtocol::Http2).unwrap();
    assert_ne!(other.token, checkout.token);
    let shared = service.connect_to::<()>(uri("https://example.com/"), HttpProtocol::Http2).unwrap();
    assert!(matches!(shared.inner, InnerCheckoutConnecting::Waiting));
}

#[test]
fn requests_without_a_pool_are_detached() {
    let service: TestService =
        ConnectionPoolService::new("transport", "protocol", "service", Config::default());
    let mut service = service.without_pool();
    let checkout = service.connect_to::<()>(uri("http://example.com"), HttpProtocol::Http1).unwrap();
    assert_eq!(checkout.pool, PoolRef::Detached);
    assert!(checkout.token.is_zero());
    assert!(matches!(checkout.inner, InnerCheckoutConnecting::Connecting(_)));
    let error = service.connect_to::<()>(uri("/path"), HttpProtocol::Http1).unwrap_err();
    assert_eq!(error.to_string(), "missing scheme in uri: /path");
    let future = service.call::<_, (), Told>(uri("/path"), HttpProtocol::Http1, "request");
    match future.inner {
        ResponseFutureState::ConnectionError(error) => {
            assert_eq!(error.0, "missing scheme in uri: /path")
        }
        _ => panic!("there is no key"),
    }
    let future = service.call::<_, (), Told>(uri("http://a/"), HttpProtocol::Http1, "request");
    match future.inner {
        ResponseFutureState::Connect { request, service, .. } => {
            assert_eq!((request, service), ("request", "service"))
        }
        _ => panic!("there is a key"),
    }
}

#[test]
fn layers_make_pools() {
    let layer = ConnectionPoolLayer::new("transport", "protocol");
    let plain: TestService = layer.clone().layer("service");
    assert!(plain.pool.is_none());
    let small = Config { max_idle_per_host: 1, ..Config::default() };
    let pooled: TestService = layer.clone().with_pool(small).layer("service");
    assert_eq!(pooled.pool.unwrap().inner.configuration(), small);
    let optional: TestService = layer.clone().with_optional_pool(Some(small)).layer("service");
    assert!(optional.pool.is_some());
    let without: TestService = layer.with_pool(small).without_pool().layer("service");
    assert!(without.pool.is_none());
}

#[test]
fn verify_mock() {
    let mut ids = Counter16::new();
    let mut conn = MockConnection::new(false, &mut ids);
    assert!(conn.is_open());
    assert!(!conn.can_share());
    assert!(conn.reuse().is_none());

    let conn = MockConnection::new(false, &mut ids);
    conn.close();
    assert!(!conn.is_open());

    let dbg = format!("{:?}", conn);
    assert!(dbg.starts_with("MockConnection { "));
}

#[test]
fn mocks_are_shared_while_open() {
    let mut ids = Counter16::new();
    let mut conn = MockTransport::reusable().call(&mut ids).unwrap();
    assert_eq!(conn.id().to_string(), "conn-1");
    assert!(conn.is_open());
    let copy = conn.reuse().unwrap();
    assert_eq!(copy.id(), conn.id());
    copy.close();
    assert!(!conn.is_open() && !copy.is_open());
    assert!(conn.reuse().is_none());
    let copied = MockConnection::single(&mut Counter16::new());
    let copy = copied.clone();
    assert_eq!(copy.id(), copied.id());
    copy.close();
    assert!(!copied.is_open());
    assert!(MockConnection::single(&mut Counter16::new()).is_open());
    assert!(MockConnection::reusable(&mut Counter16::new()).is_open());
    assert!(MockTransport::reusable().can_share());
    assert!(!MockTransport::single().can_share());
    assert!(matches!(MockTransport::connection_error().call(&mut ids), Err(MockConnectionError)));
    assert_eq!(MockConnectionError.to_string(), "connection error");
    assert_eq!(MockTransport::single().handshake(&mut ids).id(), ConnectionId::new(&mut {
        let mut same = Counter16::new();
        same.take();
        same
    }));
}

#[test]
fn weak_opt() {
    let arc = Arc::new(());
    let weak = WeakOpt::downgrade(Arc::downgrade(&arc));
    assert!(weak.upgrade(|weak: &Weak<()>| weak.upgrade()).is_some());
    drop(arc);
    assert!(weak.upgrade(|weak: &Weak<()>| weak.upgrade()).is_none());
    assert!(!weak.clone().is_none());
}

#[test]
fn weak_opt_none() {
    let weak = WeakOpt::<Weak<()>>::none();
    assert!(weak.upgrade(|weak: &Weak<()>| weak.upgrade()).is_none());
    assert!(weak.is_none());
}

#[test]
fn weak_opt_debug() {
    let arc = Arc::new(());
    let weak = WeakOpt::downgrade(Arc::downgrade(&arc));
    assert_eq!(weak.debug_text(), "WeakOpt(Some(...))");

    let weak: WeakOpt<Weak<()>> = WeakOpt::none();
    assert_eq!(weak.debug_text(), "WeakOpt(None)");
}

#[test]
fn bridges_pass_requests_on() {
    let service = TowerHyperService::new("service");
    let future = service.clone().call("request");
    assert_eq!((future.service, future.request), ("service", "request"));
    assert_eq!(TokioExecutor::new(), TokioExecutor::default());
    assert_eq!(TokioCurrentThreadExecutor::new(), TokioCurrentThreadExecutor::default());
}

#[test]
fn patron_picks_its_protocol() {
    assert!(ConnectionProtocol::Http2.multiplex());
    assert!(!ConnectionProtocol::Http1.multiplex());
    assert_eq!(ConnectionProtocol::from_version(Version::Http10), ConnectionProtocol::Http1);
    assert_eq!(ConnectionProtocol::from_version(Version::Http2), ConnectionProtocol::Http2);
    let mut builder = patron::conn::Builder::new("one", "two");
    assert_eq!(builder.protocol(), ConnectionProtocol::Http1);
    assert_eq!(builder.handshake(&None), ConnectionProtocol::Http1);
    let mut info = TlsConnectionInfo::new();
    info.alpn = Some("h2".to_owned());
    assert_eq!(builder.handshake(&Some(info)), ConnectionProtocol::Http2);
    assert_eq!(
        builder.set_protocol(ConnectionProtocol::Http2).handshake(&None),
        ConnectionProtocol::Http2
    );
    assert_eq!((*builder.http1(), *builder.http2()), ("one", "two"));
    let refused = || IoError::new(ErrorKind::Other, "refused".to_owned());
    match HandshakeStage::Finish.failed(refused()) {
        hyperdriver::client::conn::connection::ConnectionError::Connecting(error) => {
            assert_eq!(error.to_string(), "tls handshake error: refused")
        }
        _ => panic!("it is about connecting"),
    }
    match HandshakeStage::Info.failed(refused()) {
        hyperdriver::client::conn::connection::ConnectionError::Connecting(error) => {
            assert_eq!(error.to_string(), "tls info error: refused")
        }
        _ => panic!("it is about connecting"),
    }
}

#[test]
fn patron_is_built() {
    let mut builder: patron::Builder<&str, &str, &str> = patron::Builder::new("one", "two");
    builder.tcp().nodelay = false;
    builder.conn().set_protocol(ConnectionProtocol::Http2);
    assert_eq!(builder.pool().unwrap(), patron::pool::Config::default());
    *builder.pool() = None;
    builder.with_tls("config");
    let client = builder.build();
    assert!(!client.transport.config().nodelay);
    assert!(matches!(client.transport.tls(), TlsChoice::Config("config")));
    assert_eq!(client.protocol.protocol(), ConnectionProtocol::Http2);
    assert!(client.pool.is_none());
}

#[test]
fn patron_errors_are_told() {
    let error = patron::Error::from_pool(patron::pool::Error::Connecting("tcp"));
    assert_eq!(error.to_string("tcp"), "tcp");
    let error = patron::Error::from_pool(patron::pool::Error::Handshaking("tls"));
    assert_eq!(error.to_string("tls"), "transport: tls");
    match patron::Error::<()>::from_pool(patron::pool::Error::Unavailable) {
        patron::Error::Connection(Cause::Message(message)) => {
            assert_eq!(message, "pool closed, no connection can be made")
        }
        _ => panic!("the pool is closed"),
    }
    assert_eq!(patron::Error::Protocol(Cause::Error(())).to_string("x"), "protocol: x");
    assert_eq!(patron::Error::User(Cause::Error(())).to_string("x"), "user error: x");
    assert_eq!(patron::Error::<()>::InvalidMethod("PUT".to_owned()).to_string(""), "invalid method: PUT");
    assert_eq!(patron::Error::<()>::UnsupportedProtocol.to_string(""), "unsupported protocol");
}

type PatronPool = patron::pool::PoolInner<
    MockConnection,
    tokio::sync::oneshot::Sender<hyperdriver::client::pool::Pooled<MockConnection>>,
>;
type PatronCheckout = patron::pool::Checkout<
    MockConnection,
    &'static str,
    &'static str,
    &'static str,
    tokio::sync::oneshot::Receiver<hyperdriver::client::pool::Pooled<MockConnection>>,
>;
type PatronStep = patron::pool::CheckoutStep<MockConnection, MockTransport, &'static str, &'static str>;

fn patron_checkout(pool: &mut PatronPool, multiplex: bool) -> PatronCheckout {
    let mut tokens = hyperdriver::client::pool::key::TokenMap::default();
    let token = tokens.insert("host");
    let (sender, receiver) = tokio::sync::oneshot::channel();
    let now = hyperdriver::time::Instant { nanos: 5 };
    pool.checkout_at(token, multiplex, "connect", "handshake", sender, receiver, now)
}

#[test]
fn patron_pools_make_their_channels() {
    let mut ids = Counter16::new();
    let mut pool: patron::pool::Pool<MockConnection> =
        patron::pool::Pool::new(patron::pool::Config::default());
    let key = || patron::pool::Key::from_uri(uri("http://localhost:8080"));
    let first: PatronCheckout = pool.checkout(key(), true, "connect", "handshake");
    let second: PatronCheckout = pool.checkout(key(), true, "connect", "handshake");
    assert_eq!(first.token, second.token);
    assert!(matches!(second.inner, patron::pool::InnerCheckoutConnecting::Waiting));
    let connection = MockConnection::reusable(&mut ids);
    let cid = connection.id();
    let pooled = pool.inner.connected(first.token, connection);
    assert_eq!(pooled.connection.as_ref().unwrap().id(), cid);
    let mut receiver = match second.waiter {
        patron::pool::Waiting::Connecting(receiver) => receiver,
        _ => panic!("the first checkout makes the attempt"),
    };
    assert_eq!(receiver.try_recv().unwrap().connection.unwrap().id(), cid);
    let third: PatronCheckout = pool.checkout(key(), true, "connect", "handshake");
    assert_eq!(third.connection.unwrap().id(), cid);
}

#[test]
fn pool_checkout_simple() {
    let mut ids = Counter16::new();
    let mut pool: PatronPool = patron::pool::PoolInner::new(patron::pool::Config {
        idle_timeout: Some(Duration::from_secs(10)),
        max_idle_per_host: 5,
    });
    let mut checkout = patron_checkout(&mut pool, false);
    let step: PatronStep = checkout.poll(Poll::Pending);
    assert!(matches!(step, patron::pool::CheckoutStep::PollConnect));
    let step: PatronStep = checkout.connected(Poll::Ready(Ok(MockTransport::single())));
    let transport = match step {
        patron::pool::CheckoutStep::Handshake { transport, handshake, shared } => {
            assert_eq!((handshake, shared), ("handshake", false));
            transport
        }
        _ => panic!("the transport is connected"),
    };
    checkout.handshaking("handshake future");
    let step: PatronStep = checkout.poll(Poll::Pending);
    assert!(matches!(step, patron::pool::CheckoutStep::PollHandshake));
    let step: PatronStep = checkout.handshaken(Poll::Ready(Ok(transport.handshake(&mut ids))));
    let connection = match step {
        patron::pool::CheckoutStep::Register(connection) => connection,
        _ => panic!("the handshake is done"),
    };
    let cid = connection.id();
    let now = hyperdriver::time::Instant { nanos: 6 };
    let pooled = pool.connected_at(checkout.token, connection, now);
    assert!(!pooled.is_reused);
    let connection = pooled.release().unwrap();
    drop(checkout);
    let again = patron_checkout(&mut pool, false);
    pool.push_at(again.token, connection, PoolRef::Attached, now);
    let mut tokio_receiver = match again.waiter {
        patron::pool::Waiting::Idle(receiver) => receiver,
        _ => panic!("the checkout makes its own attempt"),
    };
    assert_eq!(tokio_receiver.try_recv().unwrap().connection.unwrap().id(), cid);
}

#[test]
fn pool_checkout_multiplex() {
    let mut ids = Counter16::new();
    let mut pool: PatronPool = patron::pool::PoolInner::new(patron::pool::Config::default());
    let mut checkout = patron_checkout(&mut pool, true);
    let step: PatronStep = checkout.connected(Poll::Ready(Ok(MockTransport::reusable())));
    assert!(matches!(step, patron::pool::CheckoutStep::Handshake { shared: true, .. }));
    pool.connected_in_handshake(checkout.token);
    let now = hyperdriver::time::Instant { nanos: 6 };
    let connection = MockConnection::reusable(&mut ids);
    let cid = connection.id();
    let pooled = pool.connected_at(checkout.token, connection, now);
    assert!(pooled.is_reused);
    let found = patron_checkout(&mut pool, true);
    assert_eq!(found.connection.as_ref().unwrap().id(), cid, "connection should be re-used");
    assert!(matches!(found.inner, patron::pool::InnerCheckoutConnecting::Connected));
}

#[test]
fn pool_checkout_multiplex_contended() {
    let mut ids = Counter16::new();
    let mut pool: PatronPool = patron::pool::PoolInner::new(patron::pool::Config::default());
    let first = patron_checkout(&mut pool, true);
    let mut second = patron_checkout(&mut pool, true);
    let step: PatronStep = second.poll(Poll::Pending);
    assert!(matches!(step, patron::pool::CheckoutStep::Pending));
    let now = hyperdriver::time::Instant { nanos: 6 };
    let connection = MockConnection::reusable(&mut ids);
    let cid = connection.id();
    let pooled = pool.connected_at(first.token, connection, now);
    assert_eq!(pooled.connection.as_ref().unwrap().id(), cid);
    let received = match &mut second.waiter {
        patron::pool::Waiting::Connecting(receiver) => receiver.try_recv().unwrap(),
        _ => panic!("the first checkout makes the attempt"),
    };
    let step: PatronStep = second.poll(Poll::Ready(Some(received)));
    match step {
        patron::pool::CheckoutStep::Done(Ok(pooled)) => {
            assert_eq!(pooled.connection.unwrap().id(), cid, "connection should be re-used")
        }
        _ => panic!("a connection was sent"),
    }
}

#[test]
fn patron_checkouts_fail() {
    let mut pool: PatronPool = patron::pool::PoolInner::new(patron::pool::Config::default());
    let mut checkout = patron_checkout(&mut pool, true);
    let step: PatronStep = checkout.connected(Poll::Ready(Err("refused")));
    match step {
        patron::pool::CheckoutStep::Done(Err(patron::pool::Error::Connecting(error))) => {
            assert_eq!(error, "refused")
        }
        _ => panic!("the transport is not connected"),
    }
    checkout.handshaking("future");
    let step: PatronStep = checkout.handshaken(Poll::Ready(Err("broken")));
    match step {
        patron::pool::CheckoutStep::Done(Err(patron::pool::Error::Handshaking(error))) => {
            assert_eq!(error, "broken")
        }
        _ => panic!("the handshake failed"),
    }
    pool.cancel_connection(checkout.token);
    let next = patron_checkout(&mut pool, false);
    assert!(matches!(next.inner, patron::pool::InnerCheckoutConnecting::Connecting { .. }));
}

#[test]
fn patron_drops_what_has_expired() {
    let mut ids = Counter16::new();
    let mut pool: PatronPool = patron::pool::PoolInner::new(patron::pool::Config {
        idle_timeout: Some(Duration::from_millis(1)),
        max_idle_per_host: 5,
    });
    let mut tokens = hyperdriver::client::pool::key::TokenMap::default();
    let token = tokens.insert("host");
    let at = |nanos: u128| hyperdriver::time::Instant { nanos };
    pool.push_at(token, MockConnection::single(&mut ids), PoolRef::Attached, at(0));
    assert!(pool.pop_at(token, at(2_000_000)).is_none());
    pool.push_at(token, MockConnection::single(&mut ids), PoolRef::Attached, at(0));
    assert!(pool.pop_at(token, at(1_000_000)).is_some());
    pool.push(token, MockConnection::single(&mut ids), PoolRef::Attached);
    assert!(pool.pop(token).is_some());
}
