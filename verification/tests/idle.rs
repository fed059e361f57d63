//! Idle connections.

use hyperdriver::client::conn::stream::mock::MockConnection;
use hyperdriver::client::pool::idle::{Idle, IdleConnections};
use hyperdriver::counter::Counter16;
use hyperdriver::time::{Clock, Duration, Instant};

#[test]
fn verify_idle() {
    let mut ids = Counter16::new();
    let clock = Clock::new();
    let conn = MockConnection::single(&mut ids);
    let idle = Idle::new(conn, clock.now());
    let dbg = format!("{:?}", idle);
    assert!(dbg.starts_with("Idle { at: Instant {"));
}

#[test]
fn verify_idle_connections() {
    let mut ids = Counter16::new();
    let clock = Clock::new();
    let mut idle: IdleConnections<MockConnection> = IdleConnections::default();
    assert_eq!(idle.len(), 0);
    assert!(idle.is_empty());
    assert_eq!(format!("{:?}", idle), "IdleConnections { inner: [] }");

    let conn = MockConnection::single(&mut ids);
    idle.push(conn, clock.now());
    assert_eq!(idle.len(), 1);
    assert!(!idle.is_empty());

    let conn = idle.pop(None, clock.now());
    assert!(conn.is_some());
    assert_eq!(idle.len(), 0);
    assert!(idle.is_empty());
}

fn three(ids: &mut Counter16, clock: &Clock) -> IdleConnections<MockConnection> {
    let mut idle = IdleConnections::default();
    assert_eq!(idle.len(), 0);
    let conn1 = MockConnection::single(ids);
    let conn2 = MockConnection::single(ids);
    let conn3 = MockConnection::single(ids);
    idle.push(conn1, clock.now());
    idle.push(conn2, clock.now());
    idle.push(conn3, clock.now());
    assert_eq!(idle.len(), 3);
    idle
}

#[test]
fn test_idle_connections() {
    let mut ids = Counter16::new();
    let clock = Clock::new();
    let mut idle = three(&mut ids, &clock);
    let conn = idle.pop(None, clock.now());
    assert!(conn.is_some());
    assert_eq!(idle.len(), 2);
    let conn = idle.pop(None, clock.now());
    assert!(conn.is_some());
    assert_eq!(idle.len(), 1);
    let conn = idle.pop(None, clock.now());
    assert!(conn.is_some());
    assert_eq!(idle.len(), 0);
    let conn = idle.pop(None, clock.now());
    assert!(conn.is_none());
    assert_eq!(idle.len(), 0);
}

#[test]
fn test_idle_connections_with_timeout() {
    let mut ids = Counter16::new();
    let clock = Clock::new();
    let mut idle = three(&mut ids, &clock);
    let conn = idle.pop(Some(Duration::from_secs(1)), clock.now());
    assert!(conn.is_some());
    assert_eq!(idle.len(), 2);
    let conn = idle.pop(Some(Duration::from_secs(1)), clock.now());
    assert!(conn.is_some());
    assert_eq!(idle.len(), 1);
    let conn = idle.pop(Some(Duration::from_secs(1)), clock.now());
    assert!(conn.is_some());
    assert_eq!(idle.len(), 0);
    let conn = idle.pop(Some(Duration::from_secs(1)), clock.now());
    assert!(conn.is_none());
    assert_eq!(idle.len(), 0);
}

#[test]
fn test_idle_connections_with_timeout_expired() {
    let mut ids = Counter16::new();
    let mut idle = IdleConnections::default();
    assert_eq!(idle.len(), 0);
    let start = Instant { nanos: 5_000_000 };
    idle.push(MockConnection::single(&mut ids), start);
    idle.push(MockConnection::single(&mut ids), start);
    idle.push(MockConnection::single(&mut ids), start);
    assert_eq!(idle.len(), 3);

    let later = Instant { nanos: 15_000_000 };
    let conn = idle.pop(Some(Duration::from_millis(1)), later);
    assert!(conn.is_none());
    assert_eq!(idle.len(), 0);
}

#[test]
fn closed_connections_are_passed_over() {
    let mut ids = Counter16::new();
    let mut idle = IdleConnections::default();
    let open = MockConnection::single(&mut ids);
    let open_id = open.id();
    let closed = MockConnection::single(&mut ids);
    closed.close();
    idle.push(open, Instant { nanos: 1 });
    idle.push(closed, Instant { nanos: 2 });
    let found = idle.pop(None, Instant { nanos: 3 }).unwrap();
    assert_eq!(found.id(), open_id);
    assert!(idle.is_empty());
}

#[test]
fn no_timeout_and_an_empty_one_keep_connections() {
    let mut ids = Counter16::new();
    let mut idle = IdleConnections::default();
    idle.push(MockConnection::single(&mut ids), Instant { nanos: 0 });
    idle.push(MockConnection::single(&mut ids), Instant { nanos: 0 });
    assert!(idle.pop(Some(Duration::from_secs(0)), Instant { nanos: 1_000_000 }).is_some());
    assert!(idle.pop(None, Instant { nanos: 1_000_000 }).is_some());
}

#[test]
fn clearing_drops_all() {
    let mut ids = Counter16::new();
    let clock = Clock::new();
    let mut idle = three(&mut ids, &clock);
    idle.clear();
    assert!(idle.is_empty());
}
