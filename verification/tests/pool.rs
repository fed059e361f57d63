//! Checkouts from a pool, driven by hand.

use std::future::Future;
use std::pin::Pin;
use std::task::Context;

use hyperdriver::client::conn::connector::{
    Connector, ConnectorEvent, ConnectorState, ConnectorStep,
};
use hyperdriver::client::conn::protocol::mock::{MockProtocol, MockSender};
use hyperdriver::client::conn::protocol::HttpProtocol;
use hyperdriver::client::conn::stream::mock::{MockConnection, MockStream};
use hyperdriver::client::conn::transport::mock::{
    MockConnecting, MockConnectionError, MockTransport,
};
use hyperdriver::client::pool::checkout::{
    Checkout, CheckoutDrop, CheckoutId, CheckoutStep, Error, InnerCheckoutConnecting, Waiting,
};
use hyperdriver::client::pool::key::{Token, TokenMap, UriKey};
use hyperdriver::client::pool::waiter::Waiter;
use hyperdriver::client::pool::{
    unregistered, Config, Pool, PoolInner, PoolRef, PoolableConnection, Pooled,
};
use hyperdriver::counter::{Counter, Counter16};
use hyperdriver::poll::Poll;
use hyperdriver::time::{Duration, Instant};
use hyperdriver::uri::{Authority, Scheme, Uri};

type MockConnector = Connector<Uri, MockTransport, MockProtocol, MockStream>;
type MockEvent =
    ConnectorEvent<MockStream, MockSender, MockConnectionError, MockConnectionError>;
type MockCheckout = Checkout<MockSender, MockConnector>;
type MockPool = Pool<MockSender, UriKey>;
type Outcome = Result<Pooled<MockSender>, Error<MockConnectionError, MockConnectionError>>;

fn config(continue_after_preemption: bool) -> Config {
    Config {
        idle_timeout: Some(Duration::from_secs(10)),
        max_idle_per_host: 5,
        continue_after_preemption,
    }
}

fn example_key() -> UriKey {
    UriKey::from((Scheme::https(), Authority::parse("localhost:8080").unwrap()))
}

fn address() -> Uri {
    Uri::parse("mock://address").unwrap()
}

fn single() -> MockConnector {
    MockTransport::single().connector(address(), HttpProtocol::Http1)
}

fn reusable() -> MockConnector {
    MockTransport::reusable().connector(address(), HttpProtocol::Http1)
}

/// Asks a channel whether something has come.
fn receive<T>(
    receiver: &mut tokio::sync::oneshot::Receiver<T>,
) -> Poll<Result<T, tokio::sync::oneshot::error::RecvError>> {
    let waker = futures_util::task::noop_waker();
    let mut context = Context::from_waker(&waker);
    match Pin::new(receiver).poll(&mut context) {
        std::task::Poll::Ready(outcome) => Poll::Ready(outcome),
        std::task::Poll::Pending => Poll::Pending,
    }
}

/// Takes a connector from its stream to the start of the handshake.
fn handshake(stream: MockStream) -> (MockConnector, MockProtocol, MockStream, bool) {
    let connector: MockConnector = Connector {
        state: ConnectorState::Connect { protocol: MockProtocol::default() },
        version: Some(HttpProtocol::Http1),
        shareable: false,
    };
    let connected: MockEvent = ConnectorEvent::Connected(Poll::Ready(Ok(stream)));
    let connector = match connector.advance(connected) {
        ConnectorStep::PollProtocol(connector) => connector,
        _ => panic!("there is a stream"),
    };
    let ready: MockEvent = ConnectorEvent::ProtocolReady(Poll::Ready(Ok(())));
    match connector.advance(ready) {
        ConnectorStep::Handshake { connector, protocol, stream, notify, .. } => {
            (connector, protocol, stream, notify)
        }
        _ => panic!("the protocol is ready"),
    }
}

#[test]
fn shared_streams_are_waited_for() {
    let mut ids = Counter16::new();
    let mut pool: MockPool = Pool::new(config(false));
    let first = pool.checkout(example_key(), false, reusable());
    let second = pool.checkout(example_key(), false, reusable());
    assert!(matches!(second.inner, InnerCheckoutConnecting::Connecting(_)));

    let (_, _, _, notify) = handshake(MockStream::single(&mut ids));
    assert!(!notify);
    let (_, mut protocol, stream, notify) = handshake(MockStream::reusable(&mut ids));
    assert!(notify);
    pool.inner.connected_in_handshake(first.token);
    let third = pool.checkout(example_key(), false, reusable());
    assert!(matches!(third.inner, InnerCheckoutConnecting::Waiting));
    let mut third = Driven::new(third);
    assert!(third.poll(Some(&mut pool), &mut ids).is_none());

    let made = protocol.call(stream, &mut ids);
    let conn = pool.inner.register_connected(first.token, made);
    let shared = third.poll(Some(&mut pool), &mut ids).unwrap().unwrap();
    assert_eq!(connection(&shared).id(), connection(&conn).id());
    assert!(shared.is_reused);
}

/// A checkout with what its own attempt waits for.
struct Driven {
    checkout: MockCheckout,
    stream: Option<tokio::sync::oneshot::Receiver<MockStream>>,
}

impl Driven {
    fn new(checkout: MockCheckout) -> Self {
        Driven { checkout, stream: None }
    }

    fn attempt(
        &mut self,
        pool: Option<&mut MockPool>,
        ids: &mut Counter16,
    ) -> Poll<Result<MockSender, Error<MockConnectionError, MockConnectionError>>> {
        let connecting = match self.stream.take() {
            Some(receiver) => MockConnecting::Wait(receiver),
            None => {
                let connector = match &mut self.checkout.inner {
                    InnerCheckoutConnecting::Connecting(connector) => connector,
                    InnerCheckoutConnecting::ConnectingWithDelayDrop(Some(connector)) => connector,
                    InnerCheckoutConnecting::ConnectingDelayed(connector) => connector,
                    _ => panic!("no attempt"),
                };
                match &mut connector.state {
                    ConnectorState::PollReadyTransport { transport, .. } => transport.call(ids),
                    _ => panic!("the attempt has started"),
                }
            }
        };
        let stream = match connecting {
            MockConnecting::Ready(Ok(stream)) => stream,
            MockConnecting::Ready(Err(error)) => {
                return Poll::Ready(Err(Error::Connecting(error)));
            }
            MockConnecting::Wait(mut receiver) => match receive(&mut receiver) {
                Poll::Ready(Ok(stream)) => stream,
                Poll::Ready(Err(_)) => {
                    return Poll::Ready(Err(Error::Connecting(MockConnectionError)));
                }
                Poll::Pending => {
                    self.stream = Some(receiver);
                    return Poll::Pending;
                }
            },
        };
        let (connector, mut protocol, stream, notify) = handshake(stream);
        if let (true, Some(pool)) = (notify, pool) {
            pool.inner.connected_in_handshake(self.checkout.token);
        }
        let made = protocol.call(stream, ids);
        match connector.advance(ConnectorEvent::Handshaken(Poll::Ready(Ok(made)))) {
            ConnectorStep::Done(outcome) => Poll::Ready(outcome),
            _ => panic!("the handshake is done"),
        }
    }

    /// Goes on as far as possible.
    fn poll(&mut self, mut pool: Option<&mut MockPool>, ids: &mut Counter16) -> Option<Outcome> {
        let received = match &mut self.checkout.waiter {
            Waiting::Idle(receiver) => receive(receiver),
            Waiting::Connecting(receiver) => receive(receiver),
            Waiting::NoPool => Poll::Pending,
        };
        let mut step = self.checkout.poll(received);
        if let CheckoutStep::PollConnector = step {
            let outcome = self.attempt(pool.as_deref_mut(), ids);
            step = self.checkout.poll_connector(outcome);
        }
        match step {
            CheckoutStep::Pending => None,
            CheckoutStep::PollConnector => panic!("asked twice"),
            CheckoutStep::Done(outcome) => Some(outcome),
            CheckoutStep::Register(connection) => Some(Ok(match pool {
                Some(pool) => pool.inner.register_connected(self.checkout.token, connection),
                None => unregistered(self.checkout.token, connection),
            })),
        }
    }
}

/// Puts a connection back as its owner drops it.
fn give_back(pool: &mut MockPool, pooled: Pooled<MockSender>) {
    let token = pooled.token;
    if let Some(connection) = pooled.release() {
        pool.inner.push(token, connection, PoolRef::Attached);
    }
}

fn connection(pooled: &Pooled<MockSender>) -> &MockSender {
    pooled.connection.as_ref().unwrap()
}

#[test]
fn sensible_config() {
    let config = Config::default();
    let pool: Pool<MockSender, UriKey> = Pool::new(config);
    let kept = pool.inner.configuration();
    assert!(kept.idle_timeout.unwrap().nanos > Duration::from_secs(1).nanos);
    assert!(kept.max_idle_per_host > 0);
    assert!(kept.max_idle_per_host < 2048);
    assert_eq!(kept, config);
    assert_eq!(kept.idle_timeout, Some(Duration::from_secs(90)));
    assert_eq!(kept.max_idle_per_host, 32);
    assert!(kept.continue_after_preemption);
}

#[test]
fn mod_checkout_simple() {
    let mut ids = Counter16::new();
    let mut pool: MockPool = Pool::new(config(false));
    let mut first = Driven::new(pool.checkout(example_key(), false, single()));
    let conn = first.poll(Some(&mut pool), &mut ids).unwrap().unwrap();
    assert!(connection(&conn).is_open());
    let cid = connection(&conn).id();
    give_back(&mut pool, conn);

    let mut second = Driven::new(pool.checkout(example_key(), false, single()));
    let conn = second.poll(Some(&mut pool), &mut ids).unwrap().unwrap();
    assert!(connection(&conn).is_open());
    assert_eq!(connection(&conn).id(), cid, "connection should be re-used");
    connection(&conn).close();
    give_back(&mut pool, conn);

    let mut third = Driven::new(pool.checkout(example_key(), false, single()));
    let c2 = third.poll(Some(&mut pool), &mut ids).unwrap().unwrap();
    assert!(connection(&c2).is_open());
    assert_ne!(connection(&c2).id(), cid, "connection should not be re-used");
}

#[test]
fn mod_checkout_multiplex() {
    let mut ids = Counter16::new();
    let mut pool: MockPool = Pool::new(config(false));
    let mut first = Driven::new(pool.checkout(example_key(), true, reusable()));
    let conn = first.poll(Some(&mut pool), &mut ids).unwrap().unwrap();
    assert!(connection(&conn).is_open());
    let cid = connection(&conn).id();
    give_back(&mut pool, conn);

    let mut second = Driven::new(pool.checkout(example_key(), true, reusable()));
    let conn = second.poll(Some(&mut pool), &mut ids).unwrap().unwrap();
    assert!(connection(&conn).is_open());
    assert_eq!(connection(&conn).id(), cid, "connection should be re-used");
    connection(&conn).close();
    give_back(&mut pool, conn);

    let mut third = Driven::new(pool.checkout(example_key(), true, reusable()));
    let conn = third.poll(Some(&mut pool), &mut ids).unwrap().unwrap();
    assert!(connection(&conn).is_open());
    assert_ne!(connection(&conn).id(), cid, "connection should not be re-used");
}

#[test]
fn mod_checkout_multiplex_contended() {
    let mut ids = Counter16::new();
    let mut pool: MockPool = Pool::new(config(false));
    let (tx, rx) = tokio::sync::oneshot::channel();
    let slow = MockTransport::channel(rx).connector(address(), HttpProtocol::Http1);
    let mut a = Driven::new(pool.checkout(example_key(), true, slow));
    assert!(a.poll(Some(&mut pool), &mut ids).is_none());

    let mut b = Driven::new(pool.checkout(example_key(), true, reusable()));
    assert!(b.poll(Some(&mut pool), &mut ids).is_none());
    assert!(tx.send(MockStream::reusable(&mut ids)).is_ok());
    assert!(b.poll(Some(&mut pool), &mut ids).is_none());

    let conn_a = a.poll(Some(&mut pool), &mut ids).unwrap().unwrap();
    assert!(connection(&conn_a).is_open());
    let conn_b = b.poll(Some(&mut pool), &mut ids).unwrap().unwrap();
    assert!(connection(&conn_b).is_open());
    assert_eq!(
        connection(&conn_b).id(),
        connection(&conn_a).id(),
        "connection should be re-used"
    );
    assert!(conn_b.is_reused);
}

#[test]
fn mod_checkout_idle_returned() {
    let mut ids = Counter16::new();
    let mut pool: MockPool = Pool::new(config(false));
    let conn = MockSender::single(&mut ids);
    let first_id = conn.id();
    let mut checkout = Driven::new(pool.checkout(example_key(), false, single()));
    let token = checkout.checkout.token;
    pool.inner.push(token, conn, PoolRef::Attached);
    let conn = checkout.poll(Some(&mut pool), &mut ids).unwrap().unwrap();
    assert!(connection(&conn).is_open());
    assert_eq!(connection(&conn).id(), first_id, "connection should be re-used");
}

#[test]
fn mod_checkout_idle_connected() {
    let mut ids = Counter16::new();
    let mut pool: MockPool = Pool::new(config(false));
    let conn_first = MockSender::single(&mut ids);
    let first_id = conn_first.id();
    let mut checkout = Driven::new(pool.checkout(example_key(), false, single()));
    let token = checkout.checkout.token;
    assert_eq!(pool.inner.count_waiting(token), 1);
    let conn = checkout.poll(Some(&mut pool), &mut ids).unwrap().unwrap();
    pool.inner.push(token, conn_first, PoolRef::Attached);
    assert!(connection(&conn).is_open());
    assert_ne!(connection(&conn).id(), first_id, "connection should not be re-used");
    // A copy of the new connection is idle too.
    assert_eq!(pool.inner.count_idle(token), 2);
}

#[test]
fn checkout_drop_pool_err() {
    let mut ids = Counter16::new();
    let mut pool: MockPool = Pool::new(config(false));
    let start = Driven::new(pool.checkout(example_key(), true, reusable()));
    let mut checkout = Driven::new(pool.checkout(example_key(), true, reusable()));
    drop(start);
    drop(pool);
    assert!(checkout.poll(None, &mut ids).unwrap().is_err());
}

#[test]
fn mod_checkout_drop_pool() {
    let mut ids = Counter16::new();
    let mut pool: MockPool = Pool::new(config(false));
    let mut checkout = Driven::new(pool.checkout(example_key(), true, reusable()));
    drop(pool);
    let conn = checkout.poll(None, &mut ids).unwrap().unwrap();
    assert!(!conn.is_reused);
    assert_eq!(conn.pool, PoolRef::Detached);
    assert!(conn.release().is_none());
}

#[test]
fn checkout_connection_error() {
    let mut ids = Counter16::new();
    let mut pool: MockPool = Pool::new(config(false));
    let failing = MockTransport::error().connector(address(), HttpProtocol::Http1);
    let mut checkout = Driven::new(pool.checkout(example_key(), true, failing));
    let outcome = checkout.poll(Some(&mut pool), &mut ids).unwrap();
    let error = outcome.unwrap_err();
    assert!(matches!(error, Error::Connecting(MockConnectionError)));
    // The host is free again once the checkout is dropped.
    match checkout.checkout.on_drop() {
        CheckoutDrop::Cancel(token) => pool.inner.cancel_connection(token),
        _ => panic!("the attempt ends with the checkout"),
    }
    let mut next = Driven::new(pool.checkout(example_key(), true, reusable()));
    assert!(next.poll(Some(&mut pool), &mut ids).unwrap().is_ok());
}

#[test]
fn checkout_delayed_drop() {
    let mut ids = Counter16::new();
    let mut pool: MockPool = Pool::new(config(true));
    let mut first = Driven::new(pool.checkout(example_key(), false, single()));
    let conn = first.poll(Some(&mut pool), &mut ids).unwrap().unwrap();
    assert!(connection(&conn).is_open());
    let cid = connection(&conn).id();

    let mut checkout = Driven::new(pool.checkout(example_key(), false, single()));
    let token = checkout.checkout.token;
    give_back(&mut pool, conn);
    let conn = checkout.poll(Some(&mut pool), &mut ids).unwrap().unwrap();
    assert!(connection(&conn).is_open());
    assert_eq!(cid, connection(&conn).id());

    assert_eq!(pool.inner.count_idle(token), 1);
}

#[test]
fn attempt_that_is_not_needed_goes_on() {
    let mut ids = Counter16::new();
    let mut pool: MockPool = Pool::new(config(true));
    let mut checkout = Driven::new(pool.checkout(example_key(), false, single()));
    let token = checkout.checkout.token;
    let returned = MockSender::single(&mut ids);
    let cid = returned.id();
    pool.inner.push(token, returned, PoolRef::Attached);
    let conn = checkout.poll(Some(&mut pool), &mut ids).unwrap().unwrap();
    assert_eq!(connection(&conn).id(), cid);
    let mut rest = match checkout.checkout.on_drop() {
        CheckoutDrop::Continue(rest) => Driven::new(rest),
        _ => panic!("the attempt goes on"),
    };
    drop(checkout);
    let before = pool.inner.count_idle(token);
    let extra = rest.poll(Some(&mut pool), &mut ids).unwrap().unwrap();
    assert_ne!(connection(&extra).id(), cid);
    assert_eq!(pool.inner.count_idle(token), before + 1);
}

#[test]
fn detatched_checkout() {
    let mut ids = Counter16::new();
    let mut numbers = Counter::new();
    let key = UriKey::parse("http://localhost:8080").unwrap();
    let mut tokens: TokenMap<UriKey> = TokenMap::default();
    let token = tokens.insert(key);
    let id = CheckoutId::new(&mut numbers);
    let checkout: MockCheckout = Checkout::detached(token, single(), id);
    assert_eq!(checkout.token, token);
    assert!(checkout.pool.is_none());
    assert!(matches!(checkout.inner, InnerCheckoutConnecting::Connecting(_)));
    let mut checkout = Driven::new(checkout);
    let conn = checkout.poll(None, &mut ids).unwrap().unwrap();
    assert!(!conn.is_reused);
    assert!(matches!(checkout.checkout.on_drop(), CheckoutDrop::Nothing));
}

#[test]
fn verify_checkout_id() {
    let id = CheckoutId(0);
    assert_eq!(id.to_string(), "checkout-0");
    assert_eq!(id, CheckoutId(0));
    assert_eq!(format!("{:?}", id), "CheckoutId(0)");
    assert_eq!(id.clone(), CheckoutId(0));
}

#[test]
fn checkouts_are_numbered() {
    let mut numbers = Counter::new();
    assert_eq!(CheckoutId::new(&mut numbers).to_string(), "checkout-1");
    assert_eq!(CheckoutId::new(&mut numbers).to_string(), "checkout-2");
    let mut pool: MockPool = Pool::new(config(false));
    let first = pool.checkout(example_key(), false, single());
    let second = pool.checkout(example_key(), false, single());
    assert_eq!(first.id, CheckoutId(1));
    assert_eq!(second.id, CheckoutId(2));
    assert_eq!(pool.ids.take(), 3);
}

/// A waiter in memory, for exact control over who listens.
struct Slot {
    closed: bool,
}

impl<C> Waiter<Pooled<C>> for Slot {
    fn reports_closed(&self, closed: bool) -> bool {
        closed == self.closed
    }

    fn answers(self, _item: Pooled<C>, answer: Result<(), Pooled<C>>) -> bool {
        answer.is_err() == self.closed
    }

    fn is_closed(&self) -> bool {
        self.closed
    }

    fn send(self, item: Pooled<C>) -> Result<(), Pooled<C>> {
        if self.closed {
            Err(item)
        } else {
            Ok(())
        }
    }
}

fn token() -> Token {
    let mut tokens: TokenMap<UriKey> = TokenMap::default();
    tokens.insert(example_key())
}

#[test]
fn expired_connections_are_not_handed_out() {
    let mut ids = Counter16::new();
    let mut pool: PoolInner<MockSender, Slot> = PoolInner::new(config(false));
    let host = token();
    pool.push_at(host, MockSender::single(&mut ids), PoolRef::Attached, Instant { nanos: 0 });
    pool.push_at(
        host,
        MockSender::single(&mut ids),
        PoolRef::Attached,
        Instant { nanos: 1_000_000_000 },
    );
    assert_eq!(pool.count_idle(host), 2);
    // Ten seconds after the second came, the second is still fresh.
    let found = pool.pop_at(host, Instant { nanos: 11_000_000_000 });
    assert!(found.is_some());
    assert_eq!(pool.count_idle(host), 1);
    // The first is not.
    assert!(pool.pop_at(host, Instant { nanos: 11_000_000_000 }).is_none());
    assert_eq!(pool.count_idle(host), 0);
}

#[test]
fn newest_connection_is_handed_out_first() {
    let mut ids = Counter16::new();
    let mut pool: PoolInner<MockSender, Slot> = PoolInner::new(config(false));
    let host = token();
    let older = MockSender::single(&mut ids);
    let newer = MockSender::single(&mut ids);
    let newer_id = newer.id();
    pool.push_at(host, older, PoolRef::Attached, Instant { nanos: 1 });
    pool.push_at(host, newer, PoolRef::Attached, Instant { nanos: 2 });
    let found = pool.pop_at(host, Instant { nanos: 3 }).unwrap();
    assert_eq!(found.id(), newer_id);
}

#[test]
fn hosts_do_not_share_connections() {
    let mut ids = Counter16::new();
    let mut tokens: TokenMap<UriKey> = TokenMap::default();
    let first = tokens.insert(UriKey::parse("http://a.example").unwrap());
    let second = tokens.insert(UriKey::parse("http://b.example").unwrap());
    let mut pool: PoolInner<MockSender, Slot> = PoolInner::new(config(false));
    pool.push_at(first, MockSender::single(&mut ids), PoolRef::Attached, Instant { nanos: 1 });
    assert_eq!(pool.count_idle(second), 0);
    assert!(pool.pop_at(second, Instant { nanos: 1 }).is_none());
    assert_eq!(pool.count_idle(first), 1);
}

fn waiting_pool(slots: Vec<Slot>) -> PoolInner<MockConnection, Slot> {
    let mut pool: PoolInner<MockConnection, Slot> = PoolInner::new(config(false));
    let mut number: usize = 1;
    for slot in slots {
        let (_sender, receiver) = tokio::sync::oneshot::channel();
        let _checkout: Checkout<MockConnection, MockConnector> = pool.checkout_at(
            token(),
            false,
            single(),
            slot,
            receiver,
            CheckoutId(number),
            Instant { nanos: 0 },
        );
        number += 1;
    }
    pool
}

#[test]
fn single_use_connection_goes_to_the_first_that_listens() {
    let mut ids = Counter16::new();
    let mut pool = waiting_pool(vec![
        Slot { closed: true },
        Slot { closed: false },
        Slot { closed: false },
    ]);
    assert_eq!(pool.count_waiting(token()), 3);
    pool.push_at(token(), MockConnection::single(&mut ids), PoolRef::Attached, Instant { nanos: 1 });
    assert_eq!(pool.count_waiting(token()), 1);
    assert_eq!(pool.count_idle(token()), 0);
}

#[test]
fn shared_connection_goes_to_everyone_and_stays() {
    let mut ids = Counter16::new();
    let mut pool = waiting_pool(vec![
        Slot { closed: false },
        Slot { closed: true },
        Slot { closed: false },
    ]);
    pool.push_at(token(), MockConnection::reusable(&mut ids), PoolRef::Attached, Instant { nanos: 1 });
    assert_eq!(pool.count_waiting(token()), 0);
    assert_eq!(pool.count_idle(token()), 1);
}

#[test]
fn connection_that_nobody_takes_becomes_idle() {
    let mut ids = Counter16::new();
    let mut pool = waiting_pool(vec![Slot { closed: true }, Slot { closed: true }]);
    pool.push_at(token(), MockConnection::single(&mut ids), PoolRef::Attached, Instant { nanos: 1 });
    assert_eq!(pool.count_waiting(token()), 0);
    assert_eq!(pool.count_idle(token()), 1);
}

#[test]
fn registering_leaves_a_copy_of_what_can_be_shared() {
    let mut ids = Counter16::new();
    let mut pool: PoolInner<MockConnection, Slot> = PoolInner::new(config(false));
    let now = Instant { nanos: 1 };
    let shared = pool.register_connected_at(token(), MockConnection::reusable(&mut ids), now);
    assert!(shared.is_reused);
    assert_eq!(shared.pool, PoolRef::Detached);
    assert_eq!(pool.count_idle(token()), 1);
    assert!(shared.release().is_none());

    let mut pool: PoolInner<MockConnection, Slot> = PoolInner::new(config(false));
    let owned = pool.register_connected_at(token(), MockConnection::single(&mut ids), now);
    assert!(!owned.is_reused);
    assert_eq!(owned.pool, PoolRef::Attached);
    assert_eq!(pool.count_idle(token()), 0);
    assert!(owned.release().is_some());
}

#[test]
fn attempt_in_handshake_makes_others_wait() {
    let mut pool: PoolInner<MockSender, Slot> = PoolInner::new(config(false));
    pool.connected_in_handshake(token());
    let (_sender, receiver) = tokio::sync::oneshot::channel();
    let checkout: MockCheckout = pool.checkout_at(
        token(),
        false,
        single(),
        Slot { closed: false },
        receiver,
        CheckoutId(1),
        Instant { nanos: 0 },
    );
    assert!(matches!(checkout.inner, InnerCheckoutConnecting::Waiting));
    assert!(matches!(checkout.waiter, Waiting::Connecting(_)));
}

#[test]
fn pool_without_room_keeps_nothing() {
    let mut ids = Counter16::new();
    let empty = Config { max_idle_per_host: 0, ..config(false) };
    let mut pool: PoolInner<MockConnection, Slot> = PoolInner::new(empty);
    pool.push(token(), MockConnection::single(&mut ids), PoolRef::Attached);
    assert_eq!(pool.count_idle(token()), 0);
    assert!(pool.pop(token()).is_none());
}

#[test]
fn pushes_fill_the_room_one_by_one() {
    let mut ids = Counter16::new();
    let mut pool: PoolInner<MockConnection, Slot> = PoolInner::new(config(false));
    let host = token();
    for count in 0..5 {
        assert_eq!(pool.count_idle(host), count);
        pool.push_at(
            host,
            MockConnection::single(&mut ids),
            PoolRef::Attached,
            Instant { nanos: 1 },
        );
    }
    assert_eq!(pool.count_idle(host), pool.configuration().max_idle_per_host);
    let extra = MockConnection::single(&mut ids);
    let dropped = extra.id();
    pool.push_at(host, extra, PoolRef::Attached, Instant { nanos: 1 });
    assert_eq!(pool.count_idle(host), 5);
    let shared = MockConnection::reusable(&mut ids);
    let own = pool.register_connected_at(host, shared, Instant { nanos: 1 });
    assert!(own.connection.unwrap().is_open());
    assert_eq!(pool.count_idle(host), 5);
    let found = pool.pop_at(host, Instant { nanos: 2 }).unwrap();
    assert_ne!(found.id(), dropped);
    pool.push_at(host, found, PoolRef::Attached, Instant { nanos: 2 });
    assert!(pool.pop_at(host, Instant { nanos: 2 }).is_some());
    assert_eq!(pool.count_idle(host), 4);
}

#[test]
fn identifiers_are_unique_until_they_start_over() {
    let mut ids = Counter16::new();
    let first = ids.take();
    assert_eq!(first, 1);
    for _ in 0..65_535 {
        assert_ne!(ids.take(), first);
    }
    assert_eq!(ids.take(), first);
    let mut wide = Counter::new();
    assert_eq!((wide.take(), wide.take()), (1, 2));
}
