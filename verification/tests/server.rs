//! Servers, streams that are rewound, PID files and the registry of services.

use bytes::Bytes;
use hyperdriver::io::{ErrorKind, IoError};
use hyperdriver::pidfile::{in_use, pid_file_in_use, stale, PidCheck, PidFile};
use hyperdriver::platter::rewind::Rewind;
use hyperdriver::platter::{ServeStep, Server, ServerError, ServerEvent, Wants};
use hyperdriver::poll::Poll;
use hyperdriver::roomservice::server::{find_service_name, second, GrpcRouter, RouterError};
use hyperdriver::roomservice::{
    Availability, BindError, BindStep, ConnectAttempt, ConnectEvent, ConnectStep, ConnectTarget,
    ConnectionError, InternalBindError, PidLock, RegistryConfig, RegistryTransport, Route,
    ServiceDiscovery, ServiceHandle, ServiceRegistry, GRPC_PROXY_NAME,
};
use hyperdriver::time::Duration;
use hyperdriver::uri::{Authority, Uri};

fn uri(text: &str) -> Uri {
    Uri::parse(text).unwrap()
}

fn error(kind: ErrorKind) -> IoError {
    IoError::new(kind, "told".to_owned())
}

type TestServer = Server<&'static str, &'static str, &'static str, &'static str, &'static str>;
type TestEvent = ServerEvent<&'static str, &'static str, &'static str, &'static str>;

fn spawned(
    step: ServeStep<&'static str, &'static str, &'static str>,
) -> Option<(&'static str, &'static str)> {
    match step {
        ServeStep::Spawn { stream, service } => Some((stream, service)),
        _ => None,
    }
}

#[test]
fn server_makes_a_service_for_each_connection() {
    let mut server: TestServer = Server::new("acceptor", "maker", "auto");
    for round in ["first", "second"] {
        assert_eq!(server.wants(), Wants::Ready);
        let event: TestEvent = ServerEvent::Ready(Poll::Ready(Ok("future")));
        assert!(matches!(server.poll(event), ServeStep::Again));
        assert_eq!(server.wants(), Wants::Service);
        assert_eq!(server.making_mut().map(|future| *future), Some("future"));
        let event: TestEvent = ServerEvent::Service(Poll::Ready(Ok(round)));
        assert!(matches!(server.poll(event), ServeStep::Again));
        assert_eq!(server.wants(), Wants::Connection);
        let event: TestEvent = ServerEvent::Connection(Poll::Ready(Ok("stream")));
        assert_eq!(spawned(server.poll(event)), Some(("stream", round)));
    }
    assert!(server.making_mut().is_none());
    assert_eq!(*server.protocol(), "auto");
    assert_eq!(*server.incoming_mut(), "acceptor");
    assert_eq!(*server.make_service_mut(), "maker");
}

#[test]
fn server_waits_and_stops() {
    let mut server: TestServer = Server::new("acceptor", "maker", "auto");
    let event: TestEvent = ServerEvent::Ready(Poll::Pending);
    assert!(matches!(server.poll(event), ServeStep::Wait));
    let event: TestEvent = ServerEvent::Ready(Poll::Ready(Err("broken")));
    match server.poll(event) {
        ServeStep::Stopped(error) => assert_eq!(error.to_string("broken"), "make service: broken"),
        _ => panic!("services cannot be made"),
    }
    assert_eq!(server.wants(), Wants::Ready);
    let event: TestEvent = ServerEvent::Ready(Poll::Ready(Ok("future")));
    server.poll(event);
    let event: TestEvent = ServerEvent::Service(Poll::Ready(Err("broken")));
    assert!(matches!(server.poll(event), ServeStep::Stopped(ServerError::MakeService("broken"))));
    assert_eq!(server.wants(), Wants::Service);
    let event: TestEvent = ServerEvent::Service(Poll::Ready(Ok("service")));
    server.poll(event);
    let event: TestEvent = ServerEvent::Connection(Poll::Ready(Err(error(ErrorKind::Other))));
    match server.poll(event) {
        ServeStep::Stopped(error) => assert_eq!(error.to_string(""), "told"),
        _ => panic!("no connection can be accepted"),
    }
    assert_eq!(server.wants(), Wants::Connection);
    let other = server.with_protocol("http2");
    assert_eq!(other.wants(), Wants::Ready);
    assert_eq!(*other.protocol(), "http2");
}

#[test]
fn rewound_bytes_come_first() {
    let mut stream = Rewind::new("inner", Bytes::from("abcdefg"));
    assert_eq!(stream.poll_read(3), Some(b"abc".to_vec()));
    assert_eq!(stream.poll_read(0), Some(Vec::new()));
    assert_eq!(stream.poll_read(2), Some(b"de".to_vec()));
    assert_eq!(stream.poll_read(100), Some(b"fg".to_vec()));
    assert_eq!(stream.poll_read(100), None);
    assert_eq!(*stream.inner_mut(), "inner");
    let mut empty = Rewind::new((), Bytes::new());
    assert_eq!(empty.poll_read(1), None);
}

/// A file in memory, and the processes that run.
struct Machine {
    file: Option<String>,
    running: Vec<i32>,
}

impl Machine {
    fn used(&mut self) -> Result<bool, IoError> {
        let read = match &self.file {
            Some(text) => Ok(text.clone()),
            None => Err(error(ErrorKind::NotFound)),
        };
        match pid_file_in_use(read) {
            PidCheck::Known(used) => used,
            PidCheck::Ask(pid) => {
                let returned = if self.running.contains(&pid) { 0 } else { -1 };
                let used = in_use(returned, error(ErrorKind::Other));
                if stale(&used) {
                    self.file = None;
                }
                used
            }
        }
    }

    fn lock(&mut self, path: &str, pid: i32) -> Result<PidFile, IoError> {
        if self.file.is_some() {
            PidFile::replaces(path, self.used())?;
            self.file = None;
        }
        self.file = Some(PidFile::content(pid)?);
        PidFile::new(path.to_owned(), Ok(()))
    }
}

#[test]
fn test_pid_file() {
    let mut machine = Machine { file: None, running: vec![71] };
    let pid_file = machine.lock("pidfile-test.pid", 71).unwrap();
    assert_eq!(pid_file.path(), "pidfile-test.pid");
    assert_eq!(machine.file, Some("71".to_owned()));
    assert!(PidFile::is_locked(machine.used()).unwrap());
    drop(pid_file);
    machine.file = None;
    assert!(!PidFile::is_locked(machine.used()).unwrap());
}

#[test]
fn test_invalid_file() {
    let mut machine = Machine { file: Some("not a pid".to_owned()), running: vec![71] };
    assert!(
        !PidFile::is_locked(machine.used()).unwrap(),
        "Invalid file should not be locked."
    );
    assert!(machine.file.is_some(), "Invalid file should exist after checking for locks.");
    let pid_file = machine.lock("/tmp/pidfile-test.pid", 71).unwrap();
    assert!(
        PidFile::is_locked(machine.used()).unwrap(),
        "PID file should be locked after creation."
    );
    drop(pid_file);
    machine.file = None;
    assert!(
        !PidFile::is_locked(machine.used()).unwrap(),
        "PID file should not be locked after drop."
    );
}

#[test]
fn pid_files_are_not_taken_over() {
    let mut machine = Machine { file: Some(" 5\n".to_owned()), running: vec![5, 71] };
    let refused = machine.lock("a.pid", 71).unwrap_err();
    assert_eq!(refused.kind, ErrorKind::AddrInUse);
    assert_eq!(refused.message, "PID File a.pid is already in use");
    machine.running = vec![71];
    assert!(machine.lock("a.pid", 71).is_ok());
    let negative = PidFile::content(0).unwrap_err();
    assert_eq!((negative.kind, negative.message.as_str()), (ErrorKind::Other, "negative PID"));
}

#[test]
fn stale_pid_files_are_removed() {
    let mut machine = Machine { file: Some("5".to_owned()), running: vec![5] };
    assert!(machine.used().unwrap());
    assert!(machine.file.is_some());
    machine.running = Vec::new();
    assert!(!machine.used().unwrap());
    assert!(machine.file.is_none());
    assert!(!stale(&Err(error(ErrorKind::Other))));
}

#[test]
fn pid_files_are_read_closely() {
    match pid_file_in_use(Ok("12x".to_owned())) {
        PidCheck::Known(Err(error)) => {
            assert_eq!(error.kind, ErrorKind::InvalidData);
            assert_eq!(error.message, "expected a PID");
        }
        _ => panic!("there is no number"),
    }
    assert!(matches!(pid_file_in_use(Ok("\t-3 ".to_owned())), PidCheck::Ask(-3)));
    let denied = pid_file_in_use(Err(error(ErrorKind::Other)));
    assert!(matches!(denied, PidCheck::Known(Err(_))));
    assert!(in_use(0, error(ErrorKind::Other)).unwrap());
    assert!(!in_use(-1, error(ErrorKind::Other)).unwrap());
    assert!(!in_use(3, error(ErrorKind::NotFound)).unwrap());
    assert!(in_use(3, error(ErrorKind::Other)).is_err());
    assert!(PidFile::is_locked(Err(error(ErrorKind::Other))).is_err());
    assert!(PidFile::replaces("a", Err(error(ErrorKind::Other))).is_err());
    assert!(PidFile::new("a".to_owned(), Err(error(ErrorKind::Other))).is_err());
}

type TestRegistry = ServiceRegistry<&'static str, &'static str>;

fn pair() -> (&'static str, &'static str) {
    ("connector", "acceptor")
}

fn registry() -> TestRegistry {
    ServiceRegistry::new("proxy connector", "proxy acceptor")
}

#[test]
fn services_are_bound_once() {
    let mut registry = registry();
    assert_eq!(registry.is_available("a", pair), Availability::Known(false));
    assert!(matches!(registry.bind("a", pair), BindStep::Done(Ok("acceptor"))));
    assert_eq!(registry.is_available("a", pair), Availability::Known(true));
    match registry.bind("a", pair) {
        BindStep::Done(Err(inner)) => {
            let error = BindError::new("a".to_owned(), inner);
            assert_eq!(error.to_string(), "Service a is already bound");
            assert!(error.source().is_none());
        }
        _ => panic!("the service is bound"),
    }
    assert_eq!(registry.is_available("b", pair), Availability::Known(false));
}

#[test]
fn registry_has_defaults() {
    let mut registry = registry();
    assert!(matches!(registry.config().service_discovery, ServiceDiscovery::InProcess));
    assert_eq!(registry.config().connect_timeout, None);
    assert_eq!(registry.config().buffer_size, 1_048_576);
    assert_eq!(registry.config().proxy_timeout, Duration::from_secs(30));
    assert_eq!(registry.config().proxy_limit, 32);
    registry.set_connect_timeout(Duration::from_secs(1));
    registry.set_buffer_size(7);
    assert_eq!(registry.config().connect_timeout, Some(Duration::from_secs(1)));
    match registry.connect("a", pair) {
        (ConnectTarget::Duplex { connector, buffer_size }, attempt) => {
            assert_eq!((*connector, buffer_size), ("connector", 7));
            assert_eq!(attempt.limit(), Some(Duration::from_secs(1)));
        }
        _ => panic!("the service is in this process"),
    }
    match registry.connect_proxy() {
        (ConnectTarget::Duplex { connector, .. }, _) => assert_eq!(*connector, "proxy connector"),
        _ => panic!("the proxy is in this process"),
    }
    assert_eq!(GRPC_PROXY_NAME, "grpc-proxy");
}

#[test]
fn services_behind_sockets_are_guarded() {
    let config = RegistryConfig {
        service_discovery: ServiceDiscovery::Unix { path: "/run/services".to_owned() },
        ..RegistryConfig::default()
    };
    let copy = config.clone();
    assert_eq!(copy.buffer_size, config.buffer_size);
    assert_eq!(copy.connect_timeout, config.connect_timeout);
    let mut registry: TestRegistry = ServiceRegistry::new_with_config(copy, "c", "a");
    match registry.is_available("auth.v1", pair) {
        Availability::Inspect(path) => assert_eq!(path, "/run/services/auth.pid"),
        Availability::Known(_) => panic!("the file has to be looked at"),
    }
    assert!(PidLock::inspected(Ok(true)));
    assert!(!PidLock::inspected(Ok(false)));
    assert!(!PidLock::inspected(Err(error(ErrorKind::Other))));
    match registry.bind("auth.v1", pair) {
        BindStep::Lock(path) => assert_eq!(path, "/run/services/auth.pid"),
        _ => panic!("the file has to be locked"),
    }
    let handle = registry.service("auth.v1", pair);
    match handle.locked(Err(error(ErrorKind::AddrInUse))) {
        BindStep::Done(Err(inner)) => {
            let error = BindError::new("auth.v1".to_owned(), inner);
            assert_eq!(
                error.to_string(),
                "Service auth.v1: Unable to lock PID file at /run/services/auth.pid: told"
            );
            assert!(error.source().is_some());
        }
        _ => panic!("the file is locked"),
    }
    let file = PidFile::new("/run/services/auth.pid".to_owned(), Ok(())).unwrap();
    match handle.locked(Ok(file)) {
        BindStep::Remove(path) => assert_eq!(path, "/run/services/auth.svc"),
        _ => panic!("an old socket has to be removed"),
    }
    let removed: Result<(), IoError> = Err(error(ErrorKind::NotFound));
    assert!(matches!(handle.removed(removed), BindStep::Listen(_)));
    match handle.removed(Err(error(ErrorKind::Other))) {
        BindStep::Done(Err(inner)) => assert_eq!(
            BindError::new("auth.v1".to_owned(), inner).to_string(),
            "Service auth.v1: Unable to reset socket at /run/services/auth.svc: told"
        ),
        _ => panic!("the socket is still there"),
    }
    assert_eq!(handle.bound(Ok("listener")).unwrap(), "listener");
    let taken = handle.bound(Err(error(ErrorKind::AddrInUse)));
    assert!(matches!(taken, Err(InternalBindError::AlreadyBound)));
    let failed = handle.bound(Err(error(ErrorKind::Other)));
    assert!(matches!(failed, Err(InternalBindError::SocketResetError(_, _))));
    assert_eq!(registry.is_available("auth.v1", pair), Availability::Known(true));
    assert!(matches!(
        registry.bind("auth.v1", pair),
        BindStep::Done(Err(InternalBindError::AlreadyBound))
    ));
    match registry.connect("auth.v1", pair) {
        (ConnectTarget::Unix { path }, _) => assert_eq!(path, "/run/services/auth.svc"),
        _ => panic!("the service is behind a socket"),
    }
}

#[test]
fn sockets_stand_in_their_directory() {
    let found = |directory: &str, service: &str| {
        let config = RegistryConfig {
            service_discovery: ServiceDiscovery::Unix { path: directory.to_owned() },
            ..RegistryConfig::default()
        };
        let mut registry: TestRegistry = ServiceRegistry::new_with_config(config, "c", "a");
        match registry.connect(service, pair) {
            (ConnectTarget::Unix { path }, _) => path.to_owned(),
            _ => panic!("the service is behind a socket"),
        }
    };
    assert_eq!(found("/run", "auth"), "/run/auth.svc");
    assert_eq!(found("/run/", "auth"), "/run/auth.svc");
    assert_eq!(found("", "auth"), "auth.svc");
    assert_eq!(found("/run", "/tmp/auth"), "/tmp/auth.svc");
    assert_eq!(found("/run/a.b", "auth"), "/run/a.b/auth.svc");
    assert_ne!(found("/run", "auth"), found("/run", "mail"));
    assert_eq!(found("/run", "auth.v2"), "/run/auth.svc");
}

#[test]
fn known_services_keep_their_handles() {
    let mut registry = registry();
    assert!(matches!(registry.service("a", pair), ServiceHandle::Duplex { .. }));
    let unix = ServiceDiscovery::Unix { path: "/run".to_owned() };
    registry.set_discovery(unix.clone());
    assert!(matches!(registry.service("a", pair), ServiceHandle::Duplex { .. }));
    assert!(matches!(registry.service("b", pair), ServiceHandle::Unix { .. }));
}

#[test]
fn attempts_end_in_time_or_not_at_all() {
    let mut config = RegistryConfig::default();
    let mut patient = ConnectAttempt::new(&config, "a".to_owned());
    assert_eq!(patient.limit(), Some(Duration::from_secs(30)));
    assert!(matches!(patient.advance::<u8>(ConnectEvent::Elapsed), ConnectStep::Wait));
    assert_eq!(patient.limit(), None);
    assert!(matches!(patient.advance(ConnectEvent::Connected(1)), ConnectStep::Done(Ok(1))));
    config.connect_timeout = Some(Duration::from_secs(2));
    let mut hasty = ConnectAttempt::new(&config, "a".to_owned());
    match hasty.advance::<u8>(ConnectEvent::Elapsed) {
        ConnectStep::Done(Err(error)) => assert_eq!(error.to_string(), "Connection to a timed out"),
        _ => panic!("the time is over"),
    }
    match hasty.advance::<u8>(ConnectEvent::Failed(error(ErrorKind::Other))) {
        ConnectStep::Done(Err(error)) => assert_eq!(error.to_string(), "Service a is not available"),
        _ => panic!("there is no connection"),
    }
    let error = ConnectionError::InvalidName("?".to_owned());
    assert_eq!(error.to_string(), "Invalid name: ?");
}

#[test]
fn targets_are_routed() {
    let mut transport = RegistryTransport::new(registry());
    assert_eq!(transport.registry().config().proxy_limit, 32);
    transport.registry_mut().set_buffer_size(1);
    match transport.call(uri("svc://auth/path")) {
        Route::Service(name) => assert_eq!(name, "auth"),
        _ => panic!("the host names a service"),
    }
    assert!(matches!(transport.call(uri("grpc://anything/a.B/C")), Route::Proxy));
    match transport.call(uri("http://example.com/")) {
        Route::Refused(error) => {
            assert_eq!(error.to_string(), "Invalid URI: http://example.com/")
        }
        _ => panic!("there is no such service"),
    }
    assert!(matches!(transport.call(uri("/path")), Route::Refused(_)));
}

#[test]
fn router_finds_services() {
    let router = GrpcRouter::new();
    let target = uri("http://proxy/greet.Greeter/Hello?x=1");
    assert_eq!(find_service_name(&target), Some("greet.Greeter".to_owned()));
    let service = router.service::<()>(&target).unwrap();
    assert_eq!(service, "greet.Greeter");
    let name = Authority::parse("greeter").unwrap();
    let upstream = router.upstream::<()>(target, service, Some(name)).unwrap();
    assert_eq!(upstream.to_string(), "svc://greeter/greet.Greeter/Hello?x=1");
    let transport = RegistryTransport::new(registry());
    assert!(matches!(transport.call(upstream), Route::Service(name) if name == "greeter"));

    let target = uri("http://proxy/greet.Greeter/Hello");
    let named = router.upstream_by_name::<()>(target.clone(), "a".to_owned(), Some("greeter:1"));
    assert_eq!(named.unwrap().unwrap().to_string(), "svc://greeter:1/greet.Greeter/Hello");
    assert!(router.upstream_by_name::<()>(target.clone(), "a".to_owned(), Some("a b")).is_none());
    let unknown = router.upstream_by_name::<()>(target, "a".to_owned(), None).unwrap();
    assert_eq!(unknown.unwrap_err().to_string(""), "service 'a' not found");
    for path in ["//a///b", "/./a", "/a/", "/a", "/a/../b"] {
        let target = uri(&format!("http://proxy{}", path));
        assert_eq!(find_service_name(&target), Some("a".to_owned()));
    }
    assert_eq!(find_service_name(&uri("http://proxy/../a")), Some("..".to_owned()));
    assert_eq!(find_service_name(&uri("http://proxy/.")), None);
    let nameless = router.service::<()>(&uri("http://proxy/")).unwrap_err();
    assert_eq!(nameless.to_string(""), "invalid uri");
    let unknown = router.upstream::<()>(uri("http://proxy/a/b"), "a".to_owned(), None);
    assert_eq!(unknown.unwrap_err().to_string(""), "service 'a' not found");
    assert_eq!(RouterError::Client(()).to_string("refused"), "client: refused");
    assert_eq!(second(&vec!["/".to_owned()]), None);
    assert_eq!(second(&vec!["/".to_owned(), "b".to_owned()]), Some("b".to_owned()));
}
