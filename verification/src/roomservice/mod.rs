//! A registry of services by name.
//!
//! A service is reached inside the process, over a pair of connector and acceptor,
//! or through a unix socket that is guarded by a PID file. A name is bound once: the
//! one who binds it accepts its connections.

use vstd::prelude::*;

use crate::io::{ErrorKind, IoError};
use crate::pidfile::PidFile;
use crate::text;
use crate::time::Duration;
use crate::uri::{self, Uri};

pub mod server;

verus! {

/// The name of the service that passes gRPC requests on.
pub const GRPC_PROXY_NAME: &'static str = "grpc-proxy";

/// A concurrent map (`dashmap::DashMap`). What it holds is named by [`numbers`].
#[verifier::external_type_specification]
#[verifier::external_body]
#[verifier::reject_recursive_types(K)]
#[verifier::reject_recursive_types(V)]
#[verifier::reject_recursive_types(S)]
pub struct ExDashMap<K, V, S>(dashmap::DashMap<K, V, S>);

/// The number that a map holds for each name.
pub uninterp spec fn numbers(map: dashmap::DashMap<String, usize>) -> Map<Seq<char>, usize>;

/// Calls `DashMap::new`: the map is empty.
#[verifier::external_body]
fn map_new() -> (made: dashmap::DashMap<String, usize>)
    ensures
        numbers(made).dom() == Set::<Seq<char>>::empty(),
{
    dashmap::DashMap::new()
}

/// Calls `DashMap::get`: the number that is held for a name, if there is one.
#[verifier::external_body]
fn map_get(map: &dashmap::DashMap<String, usize>, name: &str) -> (number: Option<usize>)
    ensures
        number == (if numbers(*map).dom().contains(name@) {
            Some(numbers(*map)[name@])
        } else {
            None
        }),
{
    map.get(name).map(|entry| *entry.value())
}

/// Calls `DashMap::insert`: the number is held for the name from now on, and the
/// other names keep theirs.
#[verifier::external_body]
fn map_insert(map: &mut dashmap::DashMap<String, usize>, name: String, number: usize)
    ensures
        numbers(*final(map)) == numbers(*old(map)).insert(name@, number),
{
    map.insert(name, number);
}

/// The path of a file in a directory, on unix: a name that is a whole path itself takes
/// the place of the directory, and any other comes behind it, after one separator.
pub open spec fn joined_path(directory: Seq<char>, name: Seq<char>) -> Seq<char> {
    if name.len() > 0 && name[0] == '/' {
        name
    } else if directory.len() > 0 && directory.last() != '/' {
        directory + seq!['/'] + name
    } else {
        directory + name
    }
}

/// Whether a unix path ends in the name of a file without an extension: no dot stands
/// behind its last separator, and something does.
pub open spec fn ends_plainly(path: Seq<char>) -> bool {
    &&& path.len() > 0
    &&& path.last() != '/'
    &&& forall|i: int|
        0 <= i < path.len() && #[trigger] path[i] == '.' ==> exists|j: int|
            i < j < path.len() && #[trigger] path[j] == '/'
}

/// A path that ends otherwise, with another extension
/// (`camino::Utf8Path::with_extension`).
pub uninterp spec fn changed_extension(path: Seq<char>, extension: Seq<char>) -> Seq<char>;

/// A path with another extension: one that has none gets it behind a dot.
pub open spec fn extended_path(path: Seq<char>, extension: Seq<char>) -> Seq<char> {
    if ends_plainly(path) && extension.len() > 0 {
        path + seq!['.'] + extension
    } else {
        changed_extension(path, extension)
    }
}

/// Calls `camino::Utf8Path::join`. On unix, whose sockets services have, a name that
/// begins with a separator replaces the directory, and any other is put behind it, after
/// a separator unless the directory is empty or ends in one.
#[verifier::external_body]
fn join_path(directory: &str, name: &str) -> (path: String)
    ensures
        path@ == joined_path(directory@, name@),
{
    camino::Utf8Path::new(directory).join(name).into_string()
}

/// Calls `camino::Utf8Path::with_extension`. Where the name of the file has no extension,
/// it gets one behind a dot; what becomes of other paths is named [`changed_extension`].
/// It may panic where the extension holds a separator.
#[verifier::external_body]
fn extend_path(path: &str, extension: &str) -> (extended: String)
    requires
        forall|i: int|
            0 <= i < extension@.len() ==> #[trigger] extension@[i] != '/' && extension@[i] != '\\',
    ensures
        extended@ == (if ends_plainly(path@) && extension@.len() > 0 {
            path@ + seq!['.'] + extension@
        } else {
            changed_extension(path@, extension@)
        }),
{
    camino::Utf8Path::new(path).with_extension(extension).into_string()
}

/// An error occured while connecting to a service.
#[derive(Debug)]
pub enum ConnectionError {
    /// The service name was not a valid authority.
    InvalidName(String),
    /// The service is not available. It may have been previously closed.
    ServiceClosed(String),
    /// Connection to the service timed out.
    ConnectionTimeout(String),
    /// The service URI is not a valid URI.
    InvalidUri(Uri),
}

impl ConnectionError {
    /// The error as a text.
    pub fn to_string(&self) -> (shown: String)
        ensures
            shown@ == match self {
                ConnectionError::InvalidName(name) => "Invalid name: "@ + name@,
                ConnectionError::ServiceClosed(name) => "Service "@ + name@
                    + " is not available"@,
                ConnectionError::ConnectionTimeout(name) => "Connection to "@ + name@
                    + " timed out"@,
                ConnectionError::InvalidUri(uri) => "Invalid URI: "@ + uri::written(uri@),
            },
    {
        match self {
            ConnectionError::InvalidName(name) => text::join("Invalid name: ", name.as_str()),
            ConnectionError::ServiceClosed(name) => {
                let start = text::join("Service ", name.as_str());
                text::join(start.as_str(), " is not available")
            },
            ConnectionError::ConnectionTimeout(name) => {
                let start = text::join("Connection to ", name.as_str());
                text::join(start.as_str(), " timed out")
            },
            ConnectionError::InvalidUri(uri) => text::join(
                "Invalid URI: ",
                uri.to_string().as_str(),
            ),
        }
    }
}

/// Why a name could not be bound.
#[derive(Debug)]
pub enum InternalBindError {
    /// Somebody has bound it.
    AlreadyBound,
    /// The socket with this path could not be set up.
    SocketResetError(String, IoError),
    /// The PID file with this path could not be locked.
    PidLockError(String, IoError),
}

/// An error occured binding this service to the specified name.
#[derive(Debug)]
pub struct BindError {
    service: String,
    inner: InternalBindError,
}

impl BindError {
    /// The name that was to be bound.
    pub closed spec fn spec_service(self) -> Seq<char> {
        self.service@
    }

    /// Why it was not.
    pub closed spec fn spec_inner(self) -> InternalBindError {
        self.inner
    }

    /// The name could not be bound for this reason.
    pub fn new(service: String, inner: InternalBindError) -> (error: Self)
        ensures
            error.spec_service() == service@,
            error.spec_inner() == inner,
    {
        BindError { service, inner }
    }

    /// The error that caused this one, where there is one.
    pub fn source(&self) -> (source: Option<&IoError>)
        ensures
            match self.spec_inner() {
                InternalBindError::AlreadyBound => source is None,
                InternalBindError::SocketResetError(_, error) => source == Some(&error),
                InternalBindError::PidLockError(_, error) => source == Some(&error),
            },
    {
        match &self.inner {
            InternalBindError::AlreadyBound => None,
            InternalBindError::SocketResetError(_, error) => Some(error),
            InternalBindError::PidLockError(_, error) => Some(error),
        }
    }

    /// The error as a text.
    pub fn to_string(&self) -> (shown: String)
        ensures
            shown@ == match self.spec_inner() {
                InternalBindError::AlreadyBound => "Service "@ + self.spec_service()
                    + " is already bound"@,
                InternalBindError::SocketResetError(path, error) => "Service "@
                    + self.spec_service() + ": Unable to reset socket at "@ + path@ + ": "@
                    + error.message@,
                InternalBindError::PidLockError(path, error) => "Service "@ + self.spec_service()
                    + ": Unable to lock PID file at "@ + path@ + ": "@ + error.message@,
            },
    {
        let start = text::join("Service ", self.service.as_str());
        match &self.inner {
            InternalBindError::AlreadyBound => text::join(start.as_str(), " is already bound"),
            InternalBindError::SocketResetError(path, error) => {
                let told = text::join(start.as_str(), ": Unable to reset socket at ");
                let placed = text::join(told.as_str(), path.as_str());
                let ended = text::join(placed.as_str(), ": ");
                text::join(ended.as_str(), error.message.as_str())
            },
            InternalBindError::PidLockError(path, error) => {
                let told = text::join(start.as_str(), ": Unable to lock PID file at ");
                let placed = text::join(told.as_str(), path.as_str());
                let ended = text::join(placed.as_str(), ": ");
                text::join(ended.as_str(), error.message.as_str())
            },
        }
    }
}

/// Service discovery mechanism for services registered.
#[derive(Debug)]
pub enum ServiceDiscovery {
    /// Discover services in the same process, using an in-memory store and transport.
    InProcess,
    /// Discover services by looking for a well-known unix socket.
    Unix {
        /// Path to the directory containing the unix sockets.
        path: String,
    },
}

impl Default for ServiceDiscovery {
    fn default() -> (discovery: Self)
        ensures
            discovery == ServiceDiscovery::InProcess,
    {
        ServiceDiscovery::InProcess
    }
}

impl Clone for ServiceDiscovery {
    fn clone(&self) -> (copy: Self)
        ensures
            match *self {
                ServiceDiscovery::InProcess => copy is InProcess,
                ServiceDiscovery::Unix { path } => copy matches ServiceDiscovery::Unix { path: same }
                    && same@ == path@,
            },
    {
        match self {
            ServiceDiscovery::InProcess => ServiceDiscovery::InProcess,
            ServiceDiscovery::Unix { path } => ServiceDiscovery::Unix { path: path.clone() },
        }
    }
}

/// Configuration for the service registry.
#[derive(Debug)]
pub struct RegistryConfig {
    /// Service discovery mechanism.
    pub service_discovery: ServiceDiscovery,
    /// Connection timeout when finding a service.
    pub connect_timeout: Option<Duration>,
    /// Buffer size for in-memory transports.
    pub buffer_size: usize,
    /// Proxy service timeout
    pub proxy_timeout: Duration,
    /// Proxy concurrency limit
    pub proxy_limit: usize,
}

impl Clone for RegistryConfig {
    fn clone(&self) -> (copy: Self)
        ensures
            cloned(self.service_discovery, copy.service_discovery),
            copy.connect_timeout == self.connect_timeout,
            copy.buffer_size == self.buffer_size,
            copy.proxy_timeout == self.proxy_timeout,
            copy.proxy_limit == self.proxy_limit,
    {
        RegistryConfig {
            service_discovery: self.service_discovery.clone(),
            connect_timeout: self.connect_timeout,
            buffer_size: self.buffer_size,
            proxy_timeout: self.proxy_timeout,
            proxy_limit: self.proxy_limit,
        }
    }
}

impl Default for RegistryConfig {
    fn default() -> (config: Self)
        ensures
            config.service_discovery == ServiceDiscovery::InProcess,
            config.connect_timeout is None,
            config.buffer_size == 1024 * 1024,
            config.proxy_timeout == (Duration { nanos: 30_000_000_000 }),
            config.proxy_limit == 32,
    {
        RegistryConfig {
            service_discovery: ServiceDiscovery::InProcess,
            connect_timeout: None,
            buffer_size: 1024 * 1024,
            proxy_timeout: Duration::from_secs(30),
            proxy_limit: 32,
        }
    }
}

/// The PID file of a service: where it is, or the file itself once it is ours.
#[derive(Debug)]
pub enum PidLock {
    /// Where the file is.
    Path(String),
    /// The file, locked by this process.
    Lock(PidFile),
}

/// Whether a service can be reached.
#[derive(Debug, PartialEq, Eq)]
pub enum Availability {
    /// It is known.
    Known(bool),
    /// See whether the PID file with this path is a lock, then ask
    /// [`PidLock::inspected`].
    Inspect(String),
}

impl PidLock {
    /// Whether the service behind the file can be reached.
    pub fn is_available(&self) -> (available: Availability)
        ensures
            match *self {
                PidLock::Lock(_) => available == Availability::Known(true),
                PidLock::Path(path) => available matches Availability::Inspect(asked) && asked@
                    == path@,
            },
    {
        match self {
            PidLock::Path(path) => Availability::Inspect(path.clone()),
            PidLock::Lock(_) => Availability::Known(true),
        }
    }

    /// Whether a service can be reached whose PID file was looked at. A file that
    /// could not be read locks nothing.
    pub fn inspected(locked: Result<bool, IoError>) -> (available: bool)
        ensures
            available == (locked == Ok::<bool, IoError>(true)),
    {
        match locked {
            Ok(locked) => locked,
            Err(_) => false,
        }
    }
}

/// Handle to a service for creating new connections.
#[derive(Debug)]
pub enum ServiceHandle<A, C> {
    /// The service is in this process.
    Duplex {
        /// What accepts connections, until somebody binds the service.
        acceptor: Option<A>,
        /// What connects to the acceptor.
        connector: C,
    },
    /// The service is behind a unix socket.
    Unix {
        /// The path of the socket.
        path: String,
        /// What guards it.
        pidfile: PidLock,
    },
}

/// What to connect to.
#[derive(Debug)]
pub enum ConnectTarget<'a, C> {
    /// The acceptor in this process, over buffers of the given size.
    Duplex {
        /// What connects to it.
        connector: &'a C,
        /// The size of the buffers.
        buffer_size: usize,
    },
    /// The unix socket with this path.
    Unix {
        /// The path.
        path: &'a str,
    },
}

/// What to do next to bind a name.
#[derive(Debug)]
pub enum BindStep<A> {
    /// The name is bound, or is not.
    Done(Result<A, InternalBindError>),
    /// Lock the PID file with this path, then see [`ServiceHandle::locked`].
    Lock(String),
    /// Remove the socket with this path, then see [`ServiceHandle::removed`].
    Remove(String),
    /// Listen on a socket with this path, then see [`ServiceHandle::bound`].
    Listen(String),
}

impl<A, C> ServiceHandle<A, C> {
    /// Whether the service can be reached, as far as the handle shows it.
    pub open spec fn shows(self, available: Availability) -> bool {
        match self {
            ServiceHandle::Duplex { acceptor, .. } => available == Availability::Known(
                acceptor is None,
            ),
            ServiceHandle::Unix { pidfile: PidLock::Lock(_), .. } => available
                == Availability::Known(true),
            ServiceHandle::Unix { pidfile: PidLock::Path(path), .. } => available
                matches Availability::Inspect(asked) && asked@ == path@,
        }
    }

    /// What starting to bind a service does to its handle, and what it says to do.
    pub open spec fn starts_binding(before: Self, after: Self, step: BindStep<A>) -> bool {
        match before {
            ServiceHandle::Duplex { acceptor, connector } => {
                &&& after == (ServiceHandle::<A, C>::Duplex { acceptor: None, connector })
                &&& match acceptor {
                    Some(acceptor) => step == BindStep::Done(Ok::<A, InternalBindError>(acceptor)),
                    None => step == BindStep::Done(
                        Err::<A, InternalBindError>(InternalBindError::AlreadyBound),
                    ),
                }
            },
            ServiceHandle::Unix { pidfile: PidLock::Path(path), .. } => {
                &&& after == before
                &&& step matches BindStep::Lock(asked) && asked@ == path@
            },
            ServiceHandle::Unix { pidfile: PidLock::Lock(_), .. } => {
                &&& after == before
                &&& step == BindStep::Done(
                    Err::<A, InternalBindError>(InternalBindError::AlreadyBound),
                )
            },
        }
    }

    /// What the outcome of locking its PID file does to the handle of a service behind
    /// a socket, and what it says to do.
    pub open spec fn goes_on_binding(
        before: Self,
        after: Self,
        lock: Result<PidFile, IoError>,
        step: BindStep<A>,
    ) -> bool {
        match lock {
            Ok(file) => {
                &&& after == (ServiceHandle::<A, C>::Unix {
                    path: before->path,
                    pidfile: PidLock::Lock(file),
                })
                &&& step matches BindStep::Remove(asked) && asked@ == before->path@
            },
            Err(error) => {
                &&& after == before
                &&& step matches BindStep::Done(Err(InternalBindError::PidLockError(path, same)))
                    && path@ == before->pidfile->Path_0@ && same == error
            },
        }
    }

    /// A handle for a service in this process.
    pub fn duplex(connector: C, acceptor: A) -> (handle: Self)
        ensures
            handle == (ServiceHandle::Duplex { acceptor: Some(acceptor), connector }),
    {
        ServiceHandle::Duplex { acceptor: Some(acceptor), connector }
    }

    /// A handle for a service behind a socket in a directory.
    pub fn unix(directory: &str, service: &str) -> (handle: Self)
        ensures
            handle matches ServiceHandle::Unix { path, pidfile: PidLock::Path(guard) } && path@
                == extended_path(joined_path(directory@, service@), "svc"@) && guard@
                == extended_path(joined_path(directory@, service@), "pid"@),
    {
        proof {
            reveal_strlit("svc");
            reveal_strlit("pid");
        }
        let base = join_path(directory, service);
        ServiceHandle::Unix {
            path: extend_path(base.as_str(), "svc"),
            pidfile: PidLock::Path(extend_path(base.as_str(), "pid")),
        }
    }

    /// Whether the service can be reached: one in this process from when it is
    /// bound, one behind a socket while its PID file is locked.
    pub fn is_available(&self) -> (available: Availability)
        ensures
            self.shows(available),
    {
        match self {
            ServiceHandle::Duplex { acceptor, .. } => Availability::Known(acceptor.is_none()),
            ServiceHandle::Unix { pidfile, .. } => pidfile.is_available(),
        }
    }

    /// What to connect to.
    pub fn connect(&self, config: &RegistryConfig) -> (target: ConnectTarget<'_, C>)
        ensures
            targets(*self, *config, target),
    {
        match self {
            ServiceHandle::Duplex { connector, .. } => ConnectTarget::Duplex {
                connector,
                buffer_size: config.buffer_size,
            },
            ServiceHandle::Unix { path, .. } => ConnectTarget::Unix { path: path.as_str() },
        }
    }

    /// Starts to bind the service. One in this process gives its acceptor away, once.
    /// One behind a socket that this process has not locked is to be locked.
    pub fn acceptor(&mut self) -> (step: BindStep<A>)
        ensures
            ServiceHandle::starts_binding(*old(self), *final(self), step),
    {
        match self {
            ServiceHandle::Duplex { acceptor, .. } => {
                let taken = acceptor.take();
                match taken {
                    Some(acceptor) => BindStep::Done(Ok(acceptor)),
                    None => BindStep::Done(Err(InternalBindError::AlreadyBound)),
                }
            },
            ServiceHandle::Unix { pidfile, .. } => match pidfile {
                PidLock::Path(path) => BindStep::Lock(path.clone()),
                PidLock::Lock(_) => BindStep::Done(Err(InternalBindError::AlreadyBound)),
            },
        }
    }

    /// Goes on to bind a service behind a socket, once locking its PID file has been
    /// tried. The lock is kept whatever comes of the rest.
    pub fn locked(&mut self, lock: Result<PidFile, IoError>) -> (step: BindStep<A>)
        requires
            old(self) matches ServiceHandle::Unix { pidfile: PidLock::Path(_), .. },
        ensures
            ServiceHandle::goes_on_binding(*old(self), *final(self), lock, step),
    {
        match self {
            ServiceHandle::Unix { path, pidfile } => match lock {
                Ok(file) => {
                    let socket = path.clone();
                    *pidfile = PidLock::Lock(file);
                    BindStep::Remove(socket)
                },
                Err(error) => match pidfile {
                    PidLock::Path(guard) => BindStep::Done(
                        Err(InternalBindError::PidLockError(guard.clone(), error)),
                    ),
                    PidLock::Lock(_) => BindStep::Done(Err(InternalBindError::AlreadyBound)),
                },
            },
            ServiceHandle::Duplex { .. } => BindStep::Done(Err(InternalBindError::AlreadyBound)),
        }
    }

    /// Goes on once removing a socket that may be left over has been tried. That
    /// there was none is fine.
    pub fn removed(&self, outcome: Result<(), IoError>) -> (step: BindStep<A>)
        requires
            self is Unix,
        ensures
            match outcome {
                Err(error) => if error.kind == ErrorKind::NotFound {
                    step matches BindStep::Listen(asked) && asked@ == self->path@
                } else {
                    step matches BindStep::Done(
                        Err(InternalBindError::SocketResetError(path, same)),
                    ) && path@ == self->path@ && same == error
                },
                Ok(_) => step matches BindStep::Listen(asked) && asked@ == self->path@,
            },
    {
        match self {
            ServiceHandle::Unix { path, .. } => {
                if let Err(error) = outcome {
                    match error.kind {
                        ErrorKind::NotFound => {},
                        _ => {
                            return BindStep::Done(
                                Err(InternalBindError::SocketResetError(path.clone(), error)),
                            );
                        },
                    }
                }
                BindStep::Listen(path.clone())
            },
            ServiceHandle::Duplex { .. } => BindStep::Done(Err(InternalBindError::AlreadyBound)),
        }
    }

    /// The outcome of binding, once listening on the socket has been tried.
    pub fn bound(&self, outcome: Result<A, IoError>) -> (bound: Result<A, InternalBindError>)
        requires
            self is Unix,
        ensures
            match outcome {
                Ok(acceptor) => bound == Ok::<A, InternalBindError>(acceptor),
                Err(error) => if error.kind == ErrorKind::AddrInUse {
                    bound == Err::<A, InternalBindError>(InternalBindError::AlreadyBound)
                } else {
                    bound matches Err(InternalBindError::SocketResetError(path, same)) && path@
                        == self->path@ && same == error
                },
            },
    {
        match outcome {
            Ok(acceptor) => Ok(acceptor),
            Err(error) => match error.kind {
                ErrorKind::AddrInUse => Err(InternalBindError::AlreadyBound),
                _ => match self {
                    ServiceHandle::Unix { path, .. } => Err(
                        InternalBindError::SocketResetError(path.clone(), error),
                    ),
                    ServiceHandle::Duplex { .. } => Err(InternalBindError::AlreadyBound),
                },
            },
        }
    }
}

/// An attempt to connect to a service.
#[derive(Debug)]
pub struct ConnectAttempt {
    name: String,
    timeout: Option<Duration>,
    warned: bool,
}

/// What came of waiting for a connection.
#[derive(Debug)]
pub enum ConnectEvent<S> {
    /// The connection.
    Connected(S),
    /// There is none.
    Failed(IoError),
    /// The time that was given is over.
    Elapsed,
}

/// What to do about a connection.
#[derive(Debug)]
pub enum ConnectStep<S> {
    /// Wait for it, as long as [`ConnectAttempt::limit`] says.
    Wait,
    /// Nothing.
    Done(Result<S, ConnectionError>),
}

impl ConnectAttempt {
    /// The name of the service.
    pub closed spec fn spec_name(self) -> Seq<char> {
        self.name@
    }

    /// How long the attempt may take, where that is limited.
    pub closed spec fn spec_timeout(self) -> Option<Duration> {
        self.timeout
    }

    /// Whether the attempt has taken so long that somebody has been told.
    pub closed spec fn warned(self) -> bool {
        self.warned
    }

    /// Starts an attempt.
    pub fn new(config: &RegistryConfig, name: String) -> (attempt: Self)
        ensures
            attempt.spec_name() == name@,
            attempt.spec_timeout() == config.connect_timeout,
            !attempt.warned(),
    {
        ConnectAttempt { name, timeout: config.connect_timeout, warned: false }
    }

    /// How long to wait. Without a limit there is half a minute before somebody is
    /// told, and no end after that.
    pub fn limit(&self) -> (limit: Option<Duration>)
        ensures
            limit == (match self.spec_timeout() {
                Some(timeout) => Some(timeout),
                None => if self.warned() {
                    None
                } else {
                    Some(Duration { nanos: 30_000_000_000 })
                },
            }),
    {
        match self.timeout {
            Some(timeout) => Some(timeout),
            None => if self.warned { None } else { Some(Duration::from_secs(30)) },
        }
    }

    /// Takes what came of waiting. Where there is a limit, its end ends the attempt.
    pub fn advance<S>(&mut self, event: ConnectEvent<S>) -> (step: ConnectStep<S>)
        ensures
            final(self).spec_name() == old(self).spec_name(),
            final(self).spec_timeout() == old(self).spec_timeout(),
            final(self).warned() == (old(self).warned() || (event is Elapsed && old(
                self,
            ).spec_timeout() is None)),
            match event {
                ConnectEvent::Connected(stream) => step == ConnectStep::Done(
                    Ok::<S, ConnectionError>(stream),
                ),
                ConnectEvent::Failed(_) => step matches ConnectStep::Done(
                    Err(ConnectionError::ServiceClosed(name)),
                ) && name@ == old(self).spec_name(),
                ConnectEvent::Elapsed => match old(self).spec_timeout() {
                    Some(_) => step matches ConnectStep::Done(
                        Err(ConnectionError::ConnectionTimeout(name)),
                    ) && name@ == old(self).spec_name(),
                    None => step is Wait,
                },
            },
    {
        match event {
            ConnectEvent::Connected(stream) => ConnectStep::Done(Ok(stream)),
            ConnectEvent::Failed(_) => ConnectStep::Done(
                Err(ConnectionError::ServiceClosed(self.name.clone())),
            ),
            ConnectEvent::Elapsed => {
                if self.timeout.is_some() {
                    ConnectStep::Done(Err(ConnectionError::ConnectionTimeout(self.name.clone())))
                } else {
                    self.warned = true;
                    ConnectStep::Wait
                }
            },
        }
    }
}

/// The set of services.
#[verifier::reject_recursive_types(A)]
#[verifier::reject_recursive_types(C)]
pub struct InnerRegistry<A, C> {
    services: dashmap::DashMap<String, usize>,
    handles: Vec<ServiceHandle<A, C>>,
    proxy: ServiceHandle<A, C>,
}

/// Whether a handle is one that a registry makes for a service it does not know.
pub open spec fn fresh<A, C, F: FnOnce() -> (C, A)>(
    config: RegistryConfig,
    service: Seq<char>,
    make: F,
    handle: ServiceHandle<A, C>,
) -> bool {
    match config.service_discovery {
        ServiceDiscovery::InProcess => {
            &&& handle matches ServiceHandle::Duplex { acceptor: Some(acceptor), connector }
            &&& make.ensures((), (connector, acceptor))
        },
        ServiceDiscovery::Unix { path: directory } => {
            &&& handle matches ServiceHandle::Unix { path, pidfile: PidLock::Path(guard) }
            &&& path@ == extended_path(joined_path(directory@, service), "svc"@)
            &&& guard@ == extended_path(joined_path(directory@, service), "pid"@)
        },
    }
}

impl<A, C> InnerRegistry<A, C> {
    /// Whether every name has a handle of its own.
    pub closed spec fn valid(self) -> bool {
        &&& forall|name: Seq<char>|
            #![trigger numbers(self.services)[name]]
            numbers(self.services).dom().contains(name) ==> numbers(self.services)[name]
                < self.handles@.len()
        &&& forall|first: Seq<char>, second: Seq<char>|
            #![trigger numbers(self.services)[first], numbers(self.services)[second]]
            numbers(self.services).dom().contains(first) && numbers(self.services).dom().contains(
                second,
            ) && numbers(self.services)[first] == numbers(self.services)[second] ==> first
                == second
    }

    /// The handle of a service, where the registry knows it.
    pub closed spec fn handle(self, service: Seq<char>) -> Option<ServiceHandle<A, C>> {
        if numbers(self.services).dom().contains(service) {
            Some(self.handles@[numbers(self.services)[service] as int])
        } else {
            None
        }
    }

    /// The handle of the service that passes gRPC requests on.
    pub closed spec fn spec_proxy(self) -> ServiceHandle<A, C> {
        self.proxy
    }

    /// A registry that knows no service but the one that passes gRPC requests on.
    pub fn new(connector: C, acceptor: A) -> (registry: Self)
        ensures
            registry.valid(),
            forall|service: Seq<char>| #[trigger] registry.handle(service) is None,
            registry.spec_proxy() == (ServiceHandle::Duplex {
                acceptor: Some(acceptor),
                connector,
            }),
    {
        InnerRegistry {
            services: map_new(),
            handles: Vec::new(),
            proxy: ServiceHandle::duplex(connector, acceptor),
        }
    }

    /// The service that passes gRPC requests on.
    pub fn proxy(&self) -> (proxy: &ServiceHandle<A, C>)
        ensures
            *proxy == self.spec_proxy(),
    {
        &self.proxy
    }

    /// The handle of a service. A service that is not known yet gets one, in the way
    /// that the configuration names; `make` makes the two ends of a service in this
    /// process.
    pub fn get_mut<F>(&mut self, config: &RegistryConfig, service: &str, make: F) -> (handle:
        &mut ServiceHandle<A, C>) where F: FnOnce() -> (C, A)
        requires
            old(self).valid(),
            make.requires(()),
        ensures
            final(self).valid(),
            match old(self).handle(service@) {
                Some(known) => *handle == known,
                None => fresh(*config, service@, make, *handle),
            },
            final(self).handle(service@) == Some(*final(handle)),
            final(self).spec_proxy() == old(self).spec_proxy(),
            forall|name: Seq<char>|
                name != service@ ==> #[trigger] final(self).handle(name) == old(self).handle(name),
    {
        let known = map_get(&self.services, service);
        let number: usize = match known {
            Some(number) => number,
            None => {
                let number: usize = self.handles.len();
                let handle = match &config.service_discovery {
                    ServiceDiscovery::InProcess => {
                        let (connector, acceptor) = make();
                        ServiceHandle::duplex(connector, acceptor)
                    },
                    ServiceDiscovery::Unix { path } => ServiceHandle::unix(path.as_str(), service),
                };
                self.handles.push(handle);
                map_insert(&mut self.services, service.to_owned(), number);
                number
            },
        };
        &mut self.handles[number]
    }

    /// The handle of a service, to look at. A service that is not known yet gets one.
    pub fn get<F>(&mut self, config: &RegistryConfig, service: &str, make: F) -> (handle:
        &ServiceHandle<A, C>) where F: FnOnce() -> (C, A)
        requires
            old(self).valid(),
            make.requires(()),
        ensures
            final(self).valid(),
            match old(self).handle(service@) {
                Some(known) => *handle == known,
                None => fresh(*config, service@, make, *handle),
            },
            final(self).handle(service@) == Some(*handle),
            final(self).spec_proxy() == old(self).spec_proxy(),
            forall|name: Seq<char>|
                name != service@ ==> #[trigger] final(self).handle(name) == old(self).handle(name),
    {
        self.get_mut(config, service, make)
    }
}

/// A service in this process is bound once: who comes second is refused.
pub proof fn law_service_is_bound_once<A, C>(
    first: ServiceHandle<A, C>,
    second: ServiceHandle<A, C>,
    third: ServiceHandle<A, C>,
    step: BindStep<A>,
    again: BindStep<A>,
)
    requires
        first is Duplex,
        ServiceHandle::starts_binding(first, second, step),
        ServiceHandle::starts_binding(second, third, again),
    ensures
        first->acceptor is Some ==> step == BindStep::Done(
            Ok::<A, InternalBindError>(first->acceptor->0),
        ),
        again == BindStep::Done(Err::<A, InternalBindError>(InternalBindError::AlreadyBound)),
        third == second,
{
}

/// A service in this process can be reached from when it is bound, and not before.
pub proof fn law_bound_service_is_available<A, C>(
    before: ServiceHandle<A, C>,
    after: ServiceHandle<A, C>,
    step: BindStep<A>,
    shown_before: Availability,
    shown_after: Availability,
)
    requires
        before is Duplex,
        ServiceHandle::starts_binding(before, after, step),
        before.shows(shown_before),
        after.shows(shown_after),
    ensures
        shown_before == Availability::Known(!(step matches BindStep::Done(Ok(_)))),
        shown_after == Availability::Known(true),
{
}

/// Once this process has locked the PID file of a service, the service can be
/// reached, and nobody in this process binds it again.
pub proof fn law_locked_service_is_bound_once<A, C>(
    before: ServiceHandle<A, C>,
    after: ServiceHandle<A, C>,
    last: ServiceHandle<A, C>,
    file: PidFile,
    step: BindStep<A>,
    again: BindStep<A>,
    shown: Availability,
)
    requires
        before is Unix,
        ServiceHandle::goes_on_binding(before, after, Ok(file), step),
        after.shows(shown),
        ServiceHandle::starts_binding(after, last, again),
    ensures
        shown == Availability::Known(true),
        again == BindStep::Done(Err::<A, InternalBindError>(InternalBindError::AlreadyBound)),
        last == after,
{
}

/// Maintains the set of available services, and the connection configurations for
/// those services.
#[verifier::reject_recursive_types(A)]
#[verifier::reject_recursive_types(C)]
pub struct ServiceRegistry<A, C> {
    inner: InnerRegistry<A, C>,
    config: RegistryConfig,
}

impl<A, C> ServiceRegistry<A, C> {
    /// Whether every name has a handle of its own.
    pub closed spec fn valid(self) -> bool {
        self.inner.valid()
    }

    /// The handle of a service, where the registry knows it.
    pub closed spec fn handle(self, service: Seq<char>) -> Option<ServiceHandle<A, C>> {
        self.inner.handle(service)
    }

    /// The handle of the service that passes gRPC requests on.
    pub closed spec fn spec_proxy(self) -> ServiceHandle<A, C> {
        self.inner.spec_proxy()
    }

    /// The configuration.
    pub closed spec fn spec_config(self) -> RegistryConfig {
        self.config
    }

    /// Create a new registry with default configuration. The two ends are those of
    /// the service that passes gRPC requests on.
    pub fn new(connector: C, acceptor: A) -> (registry: Self)
        ensures
            registry.valid(),
            forall|service: Seq<char>| #[trigger] registry.handle(service) is None,
            registry.spec_proxy() == (ServiceHandle::Duplex {
                acceptor: Some(acceptor),
                connector,
            }),
            registry.spec_config().service_discovery == ServiceDiscovery::InProcess,
            registry.spec_config().connect_timeout is None,
            registry.spec_config().buffer_size == 1024 * 1024,
            registry.spec_config().proxy_timeout == (Duration { nanos: 30_000_000_000 }),
            registry.spec_config().proxy_limit == 32,
    {
        let registry = ServiceRegistry {
            inner: InnerRegistry::new(connector, acceptor),
            config: RegistryConfig::default(),
        };
        proof {
            registry.knows_nothing();
        }
        registry
    }

    proof fn knows_nothing(self)
        requires
            forall|service: Seq<char>| #[trigger] self.inner.handle(service) is None,
        ensures
            forall|service: Seq<char>| #[trigger] self.handle(service) is None,
    {
        assert forall|service: Seq<char>| #[trigger] self.handle(service) is None by {
            assert(self.inner.handle(service) is None);
        }
    }

    /// Create a new registry with the specified configuration.
    pub fn new_with_config(config: RegistryConfig, connector: C, acceptor: A) -> (registry: Self)
        ensures
            registry.valid(),
            forall|service: Seq<char>| #[trigger] registry.handle(service) is None,
            registry.spec_proxy() == (ServiceHandle::Duplex {
                acceptor: Some(acceptor),
                connector,
            }),
            registry.spec_config() == config,
    {
        let registry = ServiceRegistry { inner: InnerRegistry::new(connector, acceptor), config };
        proof {
            registry.knows_nothing();
        }
        registry
    }

    /// The configuration.
    pub fn config(&self) -> (config: &RegistryConfig)
        ensures
            *config == self.spec_config(),
    {
        &self.config
    }

    /// Set the service discovery mechanism. Services that are known stay as they are.
    pub fn set_discovery(&mut self, discovery: ServiceDiscovery)
        ensures
            final(self).spec_config() == (RegistryConfig {
                service_discovery: discovery,
                ..old(self).spec_config()
            }),
            final(self).valid() == old(self).valid(),
            final(self).spec_proxy() == old(self).spec_proxy(),
            forall|name: Seq<char>| #[trigger] final(self).handle(name) == old(self).handle(name),
    {
        self.config.service_discovery = discovery;
    }

    /// Set the connection timeout for finding a service.
    pub fn set_connect_timeout(&mut self, timeout: Duration)
        ensures
            final(self).spec_config() == (RegistryConfig {
                connect_timeout: Some(timeout),
                ..old(self).spec_config()
            }),
            final(self).valid() == old(self).valid(),
            final(self).spec_proxy() == old(self).spec_proxy(),
            forall|name: Seq<char>| #[trigger] final(self).handle(name) == old(self).handle(name),
    {
        self.config.connect_timeout = Some(timeout);
    }

    /// Set the buffer size for in-memory transports.
    pub fn set_buffer_size(&mut self, size: usize)
        ensures
            final(self).spec_config() == (RegistryConfig {
                buffer_size: size,
                ..old(self).spec_config()
            }),
            final(self).valid() == old(self).valid(),
            final(self).spec_proxy() == old(self).spec_proxy(),
            forall|name: Seq<char>| #[trigger] final(self).handle(name) == old(self).handle(name),
    {
        self.config.buffer_size = size;
    }

    /// The handle of a service. A service that is not known yet gets one.
    pub fn service<F>(&mut self, service: &str, make: F) -> (handle: &mut ServiceHandle<
        A,
        C,
    >) where F: FnOnce() -> (C, A)
        requires
            old(self).valid(),
            make.requires(()),
        ensures
            final(self).valid(),
            match old(self).handle(service@) {
                Some(known) => *handle == known,
                None => fresh(old(self).spec_config(), service@, make, *handle),
            },
            final(self).handle(service@) == Some(*final(handle)),
            final(self).spec_proxy() == old(self).spec_proxy(),
            final(self).spec_config() == old(self).spec_config(),
            forall|name: Seq<char>|
                name != service@ ==> #[trigger] final(self).handle(name) == old(self).handle(name),
    {
        self.inner.get_mut(&self.config, service, make)
    }

    /// Check if a service is available, by name.
    pub fn is_available<F>(&mut self, service: &str, make: F) -> (available:
        Availability) where F: FnOnce() -> (C, A)
        requires
            old(self).valid(),
            make.requires(()),
        ensures
            final(self).valid(),
            match old(self).handle(service@) {
                Some(known) => final(self).handle(service@) == Some(known),
                None => final(self).handle(service@) matches Some(handle) && fresh(
                    old(self).spec_config(),
                    service@,
                    make,
                    handle,
                ),
            },
            final(self).handle(service@)->0.shows(available),
            final(self).spec_proxy() == old(self).spec_proxy(),
            final(self).spec_config() == old(self).spec_config(),
            forall|name: Seq<char>|
                name != service@ ==> #[trigger] final(self).handle(name) == old(self).handle(name),
    {
        let handle = self.inner.get(&self.config, service, make);
        handle.is_available()
    }

    /// Starts to bind a service to a name. A service behind a socket goes on with its
    /// handle, see [`ServiceHandle::locked`].
    pub fn bind<F>(&mut self, service: &str, make: F) -> (step: BindStep<A>) where
        F: FnOnce() -> (C, A),

        requires
            old(self).valid(),
            make.requires(()),
        ensures
            final(self).valid(),
            final(self).handle(service@) is Some,
            exists|handle: ServiceHandle<A, C>| #[trigger]
                ServiceHandle::starts_binding(
                    handle,
                    final(self).handle(service@)->0,
                    step,
                ) && match old(self).handle(service@) {
                    Some(known) => handle == known,
                    None => fresh(old(self).spec_config(), service@, make, handle),
                },
            final(self).spec_proxy() == old(self).spec_proxy(),
            final(self).spec_config() == old(self).spec_config(),
            forall|name: Seq<char>|
                name != service@ ==> #[trigger] final(self).handle(name) == old(self).handle(name),
    {
        let handle = self.inner.get_mut(&self.config, service, make);
        let ghost before = *handle;
        let step = handle.acceptor();
        assert(ServiceHandle::starts_binding(before, self.handle(service@)->0, step));
        step
    }

    /// What to connect to for a service, and the attempt to do so.
    pub fn connect<F>(&mut self, service: &str, make: F) -> (found: (
        ConnectTarget<'_, C>,
        ConnectAttempt,
    )) where F: FnOnce() -> (C, A)
        requires
            old(self).valid(),
            make.requires(()),
        ensures
            final(self).valid(),
            match old(self).handle(service@) {
                Some(known) => final(self).handle(service@) == Some(known),
                None => final(self).handle(service@) matches Some(handle) && fresh(
                    old(self).spec_config(),
                    service@,
                    make,
                    handle,
                ),
            },
            targets(final(self).handle(service@)->0, old(self).spec_config(), found.0),
            found.1.spec_name() == service@,
            found.1.spec_timeout() == old(self).spec_config().connect_timeout,
            !found.1.warned(),
            final(self).spec_proxy() == old(self).spec_proxy(),
            final(self).spec_config() == old(self).spec_config(),
            forall|name: Seq<char>|
                name != service@ ==> #[trigger] final(self).handle(name) == old(self).handle(name),
    {
        let attempt = ConnectAttempt::new(&self.config, service.to_owned());
        let handle = self.inner.get(&self.config, service, make);
        (handle.connect(&self.config), attempt)
    }

    /// What to connect to for the service that passes gRPC requests on, and the
    /// attempt to do so.
    pub fn connect_proxy(&self) -> (found: (ConnectTarget<'_, C>, ConnectAttempt))
        ensures
            targets(self.spec_proxy(), self.spec_config(), found.0),
            found.1.spec_name() == GRPC_PROXY_NAME@,
            found.1.spec_timeout() == self.spec_config().connect_timeout,
            !found.1.warned(),
    {
        let attempt = ConnectAttempt::new(&self.config, GRPC_PROXY_NAME.to_owned());
        (self.inner.proxy().connect(&self.config), attempt)
    }
}

/// Whether a target is the one that a handle names.
pub open spec fn targets<A, C>(
    handle: ServiceHandle<A, C>,
    config: RegistryConfig,
    target: ConnectTarget<'_, C>,
) -> bool {
    match handle {
        ServiceHandle::Duplex { connector, .. } => target matches ConnectTarget::Duplex {
            connector: used,
            buffer_size,
        } && *used == connector && buffer_size == config.buffer_size,
        ServiceHandle::Unix { path, .. } => target matches ConnectTarget::Unix { path: used }
            && used@ == path@,
    }
}

/// The service that a target names: the host, for the scheme `svc`.
pub open spec fn service_of(target: uri::UriParts) -> Option<Seq<char>> {
    if target.scheme == Some("svc"@) {
        Some(
            match target.authority {
                Some(authority) => authority.host,
                None => ""@,
            },
        )
    } else {
        None
    }
}

/// Where a request goes.
#[derive(Debug)]
pub enum Route {
    /// To the service with this name.
    Service(String),
    /// To the service that passes gRPC requests on.
    Proxy,
    /// Nowhere.
    Refused(ConnectionError),
}

/// A connection transport which uses a service registry.
#[verifier::reject_recursive_types(A)]
#[verifier::reject_recursive_types(C)]
pub struct RegistryTransport<A, C> {
    registry: ServiceRegistry<A, C>,
}

impl<A, C> RegistryTransport<A, C> {
    /// The registry.
    pub closed spec fn spec_registry(self) -> ServiceRegistry<A, C> {
        self.registry
    }

    /// A transport to the services of a registry.
    pub fn new(registry: ServiceRegistry<A, C>) -> (transport: Self)
        ensures
            transport.spec_registry() == registry,
    {
        RegistryTransport { registry }
    }

    /// The inner service registry
    pub fn registry(&self) -> (registry: &ServiceRegistry<A, C>)
        ensures
            *registry == self.spec_registry(),
    {
        &self.registry
    }

    /// The inner service registry
    pub fn registry_mut(&mut self) -> (registry: &mut ServiceRegistry<A, C>)
        ensures
            *registry == old(self).spec_registry(),
            final(self).spec_registry() == *final(registry),
    {
        &mut self.registry
    }

    /// Where a request goes: to the service that its host names, for the scheme
    /// `svc`; to the service that passes requests on, for `grpc`.
    pub fn call(&self, request: Uri) -> (route: Route)
        ensures
            match service_of(request@) {
                Some(service) => route matches Route::Service(name) && name@ == service,
                None => if request@.scheme == Some("grpc"@) {
                    route is Proxy
                } else {
                    route == Route::Refused(ConnectionError::InvalidUri(request))
                },
            },
    {
        proof {
            reveal_strlit("svc");
            reveal_strlit("grpc");
            assert("svc"@.len() != "grpc"@.len());
        }
        let (service, proxy) = match request.scheme_str() {
            Some(scheme) => (text::same(scheme, "svc"), text::same(scheme, "grpc")),
            None => (false, false),
        };
        if service {
            Route::Service(
                match request.host() {
                    Some(host) => host.to_owned(),
                    None => "".to_owned(),
                },
            )
        } else if proxy {
            Route::Proxy
        } else {
            Route::Refused(ConnectionError::InvalidUri(request))
        }
    }
}

/// Whether a text can be the name of a file without an extension.
pub open spec fn is_plain_name(name: Seq<char>) -> bool {
    &&& name.len() > 0
    &&& forall|i: int| 0 <= i < name.len() ==> #[trigger] name[i] != '/' && name[i] != '.'
}

proof fn lemma_plain_name_ends_plainly(directory: Seq<char>, name: Seq<char>)
    requires
        is_plain_name(name),
    ensures
        ends_plainly(joined_path(directory, name)),
        joined_path(directory, name).len() > name.len() || directory.len() == 0,
        joined_path(directory, name).skip(joined_path(directory, name).len() - name.len()) == name,
{
    let path = joined_path(directory, name);
    let start = path.len() - name.len();
    assert(name[0] != '/');
    assert(path.last() == name.last());
    assert(name[name.len() - 1] != '/');
    assert forall|i: int| 0 <= i < path.len() && #[trigger] path[i] == '.' implies exists|j: int|
        i < j < path.len() && #[trigger] path[j] == '/' by {
        if i >= start {
            assert(path[i] == name[i - start]);
        } else {
            assert(path[start - 1] == '/');
        }
    }
    assert(path.skip(start) =~= name);
}

/// Services whose names have no dot and no separator do not share their files: in one
/// directory each has a socket and a PID file of its own.
pub proof fn law_plain_services_have_their_own_files(
    directory: Seq<char>,
    first: Seq<char>,
    second: Seq<char>,
)
    requires
        is_plain_name(first),
        is_plain_name(second),
        first != second,
    ensures
        extended_path(joined_path(directory, first), "svc"@) != extended_path(
            joined_path(directory, second),
            "svc"@,
        ),
        extended_path(joined_path(directory, first), "pid"@) != extended_path(
            joined_path(directory, second),
            "pid"@,
        ),
        extended_path(joined_path(directory, first), "svc"@) != extended_path(
            joined_path(directory, second),
            "pid"@,
        ),
        extended_path(joined_path(directory, first), "svc"@) != extended_path(
            joined_path(directory, first),
            "pid"@,
        ),
{
    reveal_strlit("svc");
    reveal_strlit("pid");
    lemma_plain_name_ends_plainly(directory, first);
    lemma_plain_name_ends_plainly(directory, second);
    let one = joined_path(directory, first);
    let other = joined_path(directory, second);
    let one_file = one + seq!['.'] + "svc"@;
    let other_file = other + seq!['.'] + "svc"@;
    let one_guard = one + seq!['.'] + "pid"@;
    let other_guard = other + seq!['.'] + "pid"@;
    assert(one_file.last() == 'c');
    assert(one_guard.last() == 'd');
    assert(other_guard.last() == 'd');
    assert(first[0] != '/' && second[0] != '/');
    if one == other {
        assert(first.len() == second.len());
        assert(false);
    }
    if one_file == other_file {
        assert(one =~= one_file.take(one_file.len() - 4));
        assert(other =~= other_file.take(other_file.len() - 4));
    }
    if one_guard == other_guard {
        assert(one =~= one_guard.take(one_guard.len() - 4));
        assert(other =~= other_guard.take(other_guard.len() - 4));
    }
}

/// A service in this process gives its acceptor to the first who binds it, and to nobody
/// else. It keeps its connector, and can be reached from then on, and not before.
pub proof fn law_first_to_bind_gets_the_acceptor<A, C>(
    connector: C,
    acceptor: A,
    made: ServiceHandle<A, C>,
    first: BindStep<A>,
    taken: ServiceHandle<A, C>,
    second: BindStep<A>,
    left: ServiceHandle<A, C>,
    before: Availability,
    after: Availability,
)
    requires
        call_ensures(ServiceHandle::<A, C>::duplex, (connector, acceptor), made),
        call_ensures(ServiceHandle::<A, C>::is_available, (&made,), before),
        exists|handle: &mut ServiceHandle<A, C>|
            *handle == made && *final(handle) == taken && #[trigger] call_ensures(
                ServiceHandle::<A, C>::acceptor,
                (handle,),
                first,
            ),
        call_ensures(ServiceHandle::<A, C>::is_available, (&taken,), after),
        exists|handle: &mut ServiceHandle<A, C>|
            *handle == taken && *final(handle) == left && #[trigger] call_ensures(
                ServiceHandle::<A, C>::acceptor,
                (handle,),
                second,
            ),
    ensures
        first == BindStep::Done(Ok::<A, InternalBindError>(acceptor)),
        second == BindStep::Done(Err::<A, InternalBindError>(InternalBindError::AlreadyBound)),
        taken == (ServiceHandle::<A, C>::Duplex { acceptor: None, connector }),
        left == taken,
        before == Availability::Known(false),
        after == Availability::Known(true),
{
}

/// Binding a service behind a socket locks its PID file, removes what is left at the
/// socket's path, and listens there, in this order. The lock stays whatever comes of the
/// rest: a second one who binds the service is refused at once.
pub proof fn law_socket_is_bound_in_order<A, C>(
    socket: String,
    guard: String,
    file: PidFile,
    first: BindStep<A>,
    asked: ServiceHandle<A, C>,
    second: BindStep<A>,
    locked: ServiceHandle<A, C>,
    absent: IoError,
    third: BindStep<A>,
    listener: A,
    bound: Result<A, InternalBindError>,
    again: BindStep<A>,
    last: ServiceHandle<A, C>,
)
    requires
        exists|handle: &mut ServiceHandle<A, C>|
            *handle == (ServiceHandle::<A, C>::Unix {
                path: socket,
                pidfile: PidLock::Path(guard),
            }) && *final(handle) == asked && #[trigger] call_ensures(
                ServiceHandle::<A, C>::acceptor,
                (handle,),
                first,
            ),
        exists|handle: &mut ServiceHandle<A, C>|
            *handle == asked && *final(handle) == locked && #[trigger] call_ensures(
                ServiceHandle::<A, C>::locked,
                (handle, Ok::<PidFile, IoError>(file)),
                second,
            ),
        absent.kind == ErrorKind::NotFound,
        call_ensures(ServiceHandle::<A, C>::removed, (&locked, Ok::<(), IoError>(())), third)
            || call_ensures(
            ServiceHandle::<A, C>::removed,
            (&locked, Err::<(), IoError>(absent)),
            third,
        ),
        call_ensures(
            ServiceHandle::<A, C>::bound,
            (&locked, Ok::<A, IoError>(listener)),
            bound,
        ),
        exists|handle: &mut ServiceHandle<A, C>|
            *handle == locked && *final(handle) == last && #[trigger] call_ensures(
                ServiceHandle::<A, C>::acceptor,
                (handle,),
                again,
            ),
    ensures
        first matches BindStep::Lock(path) && path@ == guard@,
        second matches BindStep::Remove(path) && path@ == socket@,
        third matches BindStep::Listen(path) && path@ == socket@,
        bound == Ok::<A, InternalBindError>(listener),
        locked == (ServiceHandle::<A, C>::Unix { path: socket, pidfile: PidLock::Lock(file) }),
        again == BindStep::Done(Err::<A, InternalBindError>(InternalBindError::AlreadyBound)),
        last == locked,
{
}

/// What goes wrong while a socket is set up is told with the path that it went wrong at,
/// and a PID file that could not be locked leaves the service as it was. An address that is
/// in use means that the service is bound already.
pub proof fn law_failed_binding_names_the_path<A, C>(
    socket: String,
    pidfile: PidLock,
    guard: String,
    error: IoError,
    refused: BindStep<A>,
    kept: ServiceHandle<A, C>,
    stuck: BindStep<A>,
    unheard: Result<A, InternalBindError>,
)
    requires
        exists|handle: &mut ServiceHandle<A, C>|
            *handle == (ServiceHandle::<A, C>::Unix {
                path: socket,
                pidfile: PidLock::Path(guard),
            }) && *final(handle) == kept && #[trigger] call_ensures(
                ServiceHandle::<A, C>::locked,
                (handle, Err::<PidFile, IoError>(error)),
                refused,
            ),
        call_ensures(
            ServiceHandle::<A, C>::removed,
            (&ServiceHandle::<A, C>::Unix { path: socket, pidfile }, Err::<(), IoError>(error)),
            stuck,
        ),
        call_ensures(
            ServiceHandle::<A, C>::bound,
            (&ServiceHandle::<A, C>::Unix { path: socket, pidfile }, Err::<A, IoError>(error)),
            unheard,
        ),
    ensures
        refused matches BindStep::Done(Err(InternalBindError::PidLockError(path, cause)))
            && path@ == guard@ && cause == error,
        kept == (ServiceHandle::<A, C>::Unix { path: socket, pidfile: PidLock::Path(guard) }),
        error.kind != ErrorKind::NotFound ==> (stuck matches BindStep::Done(
            Err(InternalBindError::SocketResetError(path, cause)),
        ) && path@ == socket@ && cause == error),
        error.kind == ErrorKind::AddrInUse ==> unheard == Err::<A, InternalBindError>(
            InternalBindError::AlreadyBound,
        ),
        error.kind != ErrorKind::AddrInUse ==> (unheard matches Err(
            InternalBindError::SocketResetError(path, cause),
        ) && path@ == socket@ && cause == error),
{
}

/// A service behind a socket can be reached while its PID file is locked: by this process,
/// or by what is found in the file. A file that cannot be read locks nothing.
pub proof fn law_lock_decides_the_availability<A, C>(
    socket: String,
    pidfile: PidLock,
    seen: Result<bool, IoError>,
    shown: Availability,
    inspected: bool,
)
    requires
        call_ensures(
            ServiceHandle::<A, C>::is_available,
            (&ServiceHandle::<A, C>::Unix { path: socket, pidfile },),
            shown,
        ),
        call_ensures(PidLock::inspected, (seen,), inspected),
    ensures
        pidfile is Lock ==> shown == Availability::Known(true),
        pidfile matches PidLock::Path(guard) ==> (shown matches Availability::Inspect(path)
            && path@ == guard@),
        inspected ==> seen is Ok && seen->Ok_0,
        seen is Ok && seen->Ok_0 ==> inspected,
{
}

/// A service is reached where its handle says: over its own connector and buffers of the
/// size that is configured, or at the path of its socket, bound or not.
pub proof fn law_handle_says_where_to_connect<A, C>(
    config: RegistryConfig,
    acceptor: Option<A>,
    connector: C,
    inside: ConnectTarget<'_, C>,
    socket: String,
    pidfile: PidLock,
    outside: ConnectTarget<'_, C>,
)
    requires
        call_ensures(
            ServiceHandle::<A, C>::connect,
            (&ServiceHandle::<A, C>::Duplex { acceptor, connector }, &config),
            inside,
        ),
        call_ensures(
            ServiceHandle::<A, C>::connect,
            (&ServiceHandle::<A, C>::Unix { path: socket, pidfile }, &config),
            outside,
        ),
    ensures
        inside matches ConnectTarget::Duplex { connector: used, buffer_size } && *used == connector
            && buffer_size == config.buffer_size,
        outside matches ConnectTarget::Unix { path } && path@ == socket@,
{
}

/// A service whose name has no dot and no separator has its socket and its PID file in the
/// directory, under its name, told apart by what stands behind the dot.
pub proof fn law_service_files_lie_in_the_directory<A, C>(
    directory: &str,
    service: &str,
    handle: ServiceHandle<A, C>,
)
    requires
        directory@.len() > 0,
        directory@.last() != '/',
        service@.len() > 0,
        forall|i: int|
            0 <= i < service@.len() ==> #[trigger] service@[i] != '/' && service@[i] != '.',
        call_ensures(ServiceHandle::<A, C>::unix, (directory, service), handle),
    ensures
        handle matches ServiceHandle::Unix { path, pidfile: PidLock::Path(guard) } && path@
            == directory@ + seq!['/'] + service@ + seq!['.', 's', 'v', 'c'] && guard@ == directory@
            + seq!['/'] + service@ + seq!['.', 'p', 'i', 'd'],
{
    reveal_strlit("svc");
    reveal_strlit("pid");
    lemma_plain_name_ends_plainly(directory@, service@);
    assert(service@[0] != '/');
    let path = joined_path(directory@, service@);
    assert(path + seq!['.'] + "svc"@ =~= path + seq!['.', 's', 'v', 'c']);
    assert(path + seq!['.'] + "pid"@ =~= path + seq!['.', 'p', 'i', 'd']);
}

/// An attempt to connect ends with the connection that comes of it. One that fails says
/// that its service is closed; one whose time is over says so, where its time is limited,
/// and is waited for otherwise.
pub proof fn law_attempt_tells_of_its_service<S>(
    config: RegistryConfig,
    name: String,
    attempt: ConnectAttempt,
    event: ConnectEvent<S>,
    step: ConnectStep<S>,
    after: ConnectAttempt,
)
    requires
        call_ensures(ConnectAttempt::new, (&config, name), attempt),
        exists|m: &mut ConnectAttempt|
            *m == attempt && *final(m) == after && #[trigger] call_ensures(
                ConnectAttempt::advance::<S>,
                (m, event),
                step,
            ),
    ensures
        event matches ConnectEvent::Connected(stream) ==> step == ConnectStep::Done(
            Ok::<S, ConnectionError>(stream),
        ),
        event is Failed ==> (step matches ConnectStep::Done(
            Err(ConnectionError::ServiceClosed(told)),
        ) && told@ == name@),
        event is Elapsed && config.connect_timeout is Some ==> (step matches ConnectStep::Done(
            Err(ConnectionError::ConnectionTimeout(told)),
        ) && told@ == name@),
        event is Elapsed && config.connect_timeout is None ==> step is Wait,
{
}

/// An attempt waits as long as it was given, and no longer. One that was given no time is
/// asked about once, after half a minute, and is then waited for without an end; whatever
/// comes of it later still tells of its service.
pub proof fn law_attempt_without_a_limit_goes_on<S>(
    config: RegistryConfig,
    name: String,
    attempt: ConnectAttempt,
    limit: Option<Duration>,
    elapsed: ConnectStep<S>,
    after: ConnectAttempt,
    later_limit: Option<Duration>,
    event: ConnectEvent<S>,
    later: ConnectStep<S>,
    last: ConnectAttempt,
)
    requires
        call_ensures(ConnectAttempt::new, (&config, name), attempt),
        call_ensures(ConnectAttempt::limit, (&attempt,), limit),
        exists|m: &mut ConnectAttempt|
            *m == attempt && *final(m) == after && #[trigger] call_ensures(
                ConnectAttempt::advance::<S>,
                (m, ConnectEvent::<S>::Elapsed),
                elapsed,
            ),
        call_ensures(ConnectAttempt::limit, (&after,), later_limit),
        exists|m: &mut ConnectAttempt|
            *m == after && *final(m) == last && #[trigger] call_ensures(
                ConnectAttempt::advance::<S>,
                (m, event),
                later,
            ),
    ensures
        config.connect_timeout is Some ==> limit == config.connect_timeout,
        config.connect_timeout is None ==> {
            &&& limit matches Some(wait) && wait.nanos == 30 * 1_000_000_000
            &&& later_limit is None
            &&& event matches ConnectEvent::Connected(stream) ==> later == ConnectStep::Done(
                Ok::<S, ConnectionError>(stream),
            )
            &&& event is Failed ==> (later matches ConnectStep::Done(
                Err(ConnectionError::ServiceClosed(told)),
            ) && told@ == name@)
        },
{
}

/// A registry makes a service when its name first comes up, and keeps it: who binds a name
/// gets the acceptor that was made for it, who binds it again is refused, and connections
/// to it go to the connector that was made beside that acceptor.
pub proof fn law_registry_keeps_its_services<A, C, F: FnOnce() -> (C, A)>(
    config: RegistryConfig,
    proxy: (C, A),
    registry: ServiceRegistry<A, C>,
    service: &str,
    make: F,
    first: BindStep<A>,
    second: ServiceRegistry<A, C>,
    again: BindStep<A>,
    third: ServiceRegistry<A, C>,
    shown: Availability,
    fourth: ServiceRegistry<A, C>,
    found: (ConnectTarget<'_, C>, ConnectAttempt),
    last: ServiceRegistry<A, C>,
    failed: ConnectStep<C>,
    attempt: ConnectAttempt,
    error: IoError,
)
    requires
        config.service_discovery == ServiceDiscovery::InProcess,
        call_ensures(
            ServiceRegistry::<A, C>::new_with_config,
            (config, proxy.0, proxy.1),
            registry,
        ),
        exists|m: &mut ServiceRegistry<A, C>|
            *m == registry && *final(m) == second && #[trigger] call_ensures(
                ServiceRegistry::<A, C>::bind::<F>,
                (m, service, make),
                first,
            ),
        exists|m: &mut ServiceRegistry<A, C>|
            *m == second && *final(m) == third && #[trigger] call_ensures(
                ServiceRegistry::<A, C>::bind::<F>,
                (m, service, make),
                again,
            ),
        exists|m: &mut ServiceRegistry<A, C>|
            *m == third && *final(m) == fourth && #[trigger] call_ensures(
                ServiceRegistry::<A, C>::is_available::<F>,
                (m, service, make),
                shown,
            ),
        exists|m: &mut ServiceRegistry<A, C>|
            *m == fourth && *final(m) == last && #[trigger] call_ensures(
                ServiceRegistry::<A, C>::connect::<F>,
                (m, service, make),
                found,
            ),
        exists|m: &mut ConnectAttempt|
            *m == found.1 && *final(m) == attempt && #[trigger] call_ensures(
                ConnectAttempt::advance::<C>,
                (m, ConnectEvent::<C>::Failed(error)),
                failed,
            ),
    ensures
        first matches BindStep::Done(Ok(acceptor)) && found.0 matches ConnectTarget::Duplex {
            connector,
            buffer_size,
        } && make.ensures((), (*connector, acceptor)) && buffer_size == config.buffer_size,
        again == BindStep::Done(Err::<A, InternalBindError>(InternalBindError::AlreadyBound)),
        shown == Availability::Known(true),
        failed matches ConnectStep::Done(Err(ConnectionError::ServiceClosed(told))) && told@
            == service@,
{
}

/// Services are apart: what is done under one name changes nothing under another, nor for
/// the service that passes gRPC requests on, which keeps the connector it was made with.
pub proof fn law_services_are_apart<A, C, F: FnOnce() -> (C, A)>(
    config: RegistryConfig,
    proxy: (C, A),
    registry: ServiceRegistry<A, C>,
    one: &str,
    other: &str,
    make: F,
    first: BindStep<A>,
    second: ServiceRegistry<A, C>,
    bound: BindStep<A>,
    third: ServiceRegistry<A, C>,
    passed_on: (ConnectTarget<'_, C>, ConnectAttempt),
)
    requires
        config.service_discovery == ServiceDiscovery::InProcess,
        one@ != other@,
        call_ensures(
            ServiceRegistry::<A, C>::new_with_config,
            (config, proxy.0, proxy.1),
            registry,
        ),
        exists|m: &mut ServiceRegistry<A, C>|
            *m == registry && *final(m) == second && #[trigger] call_ensures(
                ServiceRegistry::<A, C>::bind::<F>,
                (m, one, make),
                first,
            ),
        exists|m: &mut ServiceRegistry<A, C>|
            *m == second && *final(m) == third && #[trigger] call_ensures(
                ServiceRegistry::<A, C>::bind::<F>,
                (m, other, make),
                bound,
            ),
        call_ensures(ServiceRegistry::<A, C>::connect_proxy, (&third,), passed_on),
    ensures
        first matches BindStep::Done(Ok(_)),
        bound matches BindStep::Done(Ok(_)),
        passed_on.0 matches ConnectTarget::Duplex { connector, buffer_size } && *connector
            == proxy.0 && buffer_size == config.buffer_size,
{
}

/// A registry has the settings that it was made with, but for what was set later; setting
/// one leaves the others.
pub proof fn law_registry_has_its_settings<A, C>(
    config: RegistryConfig,
    proxy: (C, A),
    made: ServiceRegistry<A, C>,
    first: &RegistryConfig,
    discovery: ServiceDiscovery,
    second: ServiceRegistry<A, C>,
    timeout: Duration,
    third: ServiceRegistry<A, C>,
    size: usize,
    fourth: ServiceRegistry<A, C>,
    last: &RegistryConfig,
)
    requires
        call_ensures(ServiceRegistry::<A, C>::new_with_config, (config, proxy.0, proxy.1), made),
        call_ensures(ServiceRegistry::<A, C>::config, (&made,), first),
        exists|m: &mut ServiceRegistry<A, C>|
            *m == made && *final(m) == second && #[trigger] call_ensures(
                ServiceRegistry::<A, C>::set_discovery,
                (m, discovery),
                (),
            ),
        exists|m: &mut ServiceRegistry<A, C>|
            *m == second && *final(m) == third && #[trigger] call_ensures(
                ServiceRegistry::<A, C>::set_connect_timeout,
                (m, timeout),
                (),
            ),
        exists|m: &mut ServiceRegistry<A, C>|
            *m == third && *final(m) == fourth && #[trigger] call_ensures(
                ServiceRegistry::<A, C>::set_buffer_size,
                (m, size),
                (),
            ),
        call_ensures(ServiceRegistry::<A, C>::config, (&fourth,), last),
    ensures
        *first == config,
        last.service_discovery == discovery,
        last.connect_timeout == Some(timeout),
        last.buffer_size == size,
        last.proxy_timeout == config.proxy_timeout,
        last.proxy_limit == config.proxy_limit,
        fourth.spec_proxy() == made.spec_proxy(),
        fourth.valid() == made.valid(),
        forall|name: Seq<char>| #[trigger] fourth.handle(name) == made.handle(name),
{
    assert forall|name: Seq<char>| #[trigger] fourth.handle(name) == made.handle(name) by {
        assert(third.handle(name) == second.handle(name));
        assert(second.handle(name) == made.handle(name));
    }
}

/// A request for the scheme `svc` goes to the service that its host names, one for `grpc` to
/// the service that passes such requests on, and every other is refused as it came.
pub proof fn law_scheme_and_host_choose_the_route<A, C>(
    transport: RegistryTransport<A, C>,
    request: Uri,
    route: Route,
)
    requires
        call_ensures(RegistryTransport::<A, C>::call, (&transport, request), route),
    ensures
        route is Service ==> request.scheme is Some && request.scheme->0@ == seq!['s', 'v', 'c'],
        request.scheme is Some && request.scheme->0@ == seq!['s', 'v', 'c'] ==> {
            &&& route matches Route::Service(name)
            &&& request.authority is Some ==> name@ == request.authority->0@.host
            &&& request.authority is None ==> name@ == Seq::<char>::empty()
        },
        route is Proxy <==> request.scheme is Some && request.scheme->0@ == seq![
            'g',
            'r',
            'p',
            'c',
        ],
        route matches Route::Refused(error) ==> error == ConnectionError::InvalidUri(request),
{
    reveal_strlit("svc");
    reveal_strlit("grpc");
    reveal_strlit("");
    assert("svc"@ =~= seq!['s', 'v', 'c']);
    assert("grpc"@ =~= seq!['g', 'r', 'p', 'c']);
    assert(""@ =~= Seq::<char>::empty());
    assert(seq!['s', 'v', 'c'].len() != seq!['g', 'r', 'p', 'c'].len());
}

/// An error is told with the name of the service it is about, and with its cause where it
/// has one.
pub proof fn law_binding_error_tells_service_and_cause(
    service: String,
    inner: InternalBindError,
    error: BindError,
    shown: String,
    source: Option<&IoError>,
)
    requires
        call_ensures(BindError::new, (service, inner), error),
        call_ensures(BindError::to_string, (&error,), shown),
        call_ensures(BindError::source, (&error,), source),
    ensures
        inner is AlreadyBound ==> source is None && shown@ == "Service "@ + service@
            + " is already bound"@,
        inner matches InternalBindError::SocketResetError(path, cause) ==> source == Some(&cause)
            && shown@ == "Service "@ + service@ + ": Unable to reset socket at "@ + path@ + ": "@
            + cause.message@,
        inner matches InternalBindError::PidLockError(path, cause) ==> source == Some(&cause)
            && shown@ == "Service "@ + service@ + ": Unable to lock PID file at "@ + path@ + ": "@
            + cause.message@,
{
}

/// A connection that was not made is told with the service or the target it was for.
pub proof fn law_connection_error_tells_its_target(error: ConnectionError, shown: String)
    requires
        call_ensures(ConnectionError::to_string, (&error,), shown),
    ensures
        error matches ConnectionError::InvalidName(name) ==> shown@ == "Invalid name: "@ + name@,
        error matches ConnectionError::ServiceClosed(name) ==> shown@ == "Service "@ + name@
            + " is not available"@,
        error matches ConnectionError::ConnectionTimeout(name) ==> shown@ == "Connection to "@
            + name@ + " timed out"@,
        error matches ConnectionError::InvalidUri(target) ==> forall|text: String| #[trigger]
            call_ensures(Uri::to_string, (&target,), text) ==> shown@ == "Invalid URI: "@ + text@,
{
}

/// A registry begins with services in this process, over buffers of a mebibyte, without a
/// limit on the time to connect, and with half a minute and 32 requests at once for the
/// service that passes gRPC requests on.
pub proof fn law_registry_begins_in_the_process<A, C>(
    config: RegistryConfig,
    discovery: ServiceDiscovery,
    proxy: (C, A),
    registry: ServiceRegistry<A, C>,
    found: &RegistryConfig,
    copy: RegistryConfig,
)
    requires
        call_ensures(RegistryConfig::default, (), config),
        call_ensures(ServiceDiscovery::default, (), discovery),
        call_ensures(ServiceRegistry::<A, C>::new, (proxy.0, proxy.1), registry),
        call_ensures(ServiceRegistry::<A, C>::config, (&registry,), found),
        call_ensures(RegistryConfig::clone, (&config,), copy),
    ensures
        discovery is InProcess,
        config.service_discovery is InProcess && found.service_discovery is InProcess,
        config.connect_timeout is None && found.connect_timeout is None,
        config.buffer_size == 1_048_576 && found.buffer_size == 1_048_576,
        config.proxy_timeout.nanos == 30 * 1_000_000_000 && found.proxy_timeout.nanos == 30
            * 1_000_000_000,
        config.proxy_limit == 32 && found.proxy_limit == 32,
        copy.connect_timeout == config.connect_timeout && copy.buffer_size == config.buffer_size
            && copy.proxy_timeout == config.proxy_timeout && copy.proxy_limit == config.proxy_limit,
        cloned(config.service_discovery, copy.service_discovery),
        registry.valid(),
        registry.spec_proxy() == (ServiceHandle::<A, C>::Duplex {
            acceptor: Some(proxy.1),
            connector: proxy.0,
        }),
        forall|name: Seq<char>| #[trigger] registry.handle(name) is None,
{
}

/// A way to discover services is copied with its directory.
pub proof fn law_discovery_is_copied(discovery: ServiceDiscovery, copy: ServiceDiscovery)
    requires
        call_ensures(ServiceDiscovery::clone, (&discovery,), copy),
    ensures
        discovery is InProcess <==> copy is InProcess,
        discovery matches ServiceDiscovery::Unix { path } ==> (copy matches ServiceDiscovery::Unix {
            path: same,
        } && same@ == path@),
{
}

/// A registry that looks for sockets makes a service when its name first comes up, with its
/// files in the directory, and finds it again under the name: with what was done to it, and
/// apart from all others.
pub proof fn law_found_service_is_kept<A, C, F: FnOnce() -> (C, A)>(
    config: RegistryConfig,
    directory: String,
    proxy: (C, A),
    registry: InnerRegistry<A, C>,
    service: &str,
    make: F,
    made: ServiceHandle<A, C>,
    changed: ServiceHandle<A, C>,
    between: InnerRegistry<A, C>,
    found: &ServiceHandle<A, C>,
    after: InnerRegistry<A, C>,
    passing: &ServiceHandle<A, C>,
)
    requires
        config.service_discovery == (ServiceDiscovery::Unix { path: directory }),
        directory@.len() > 0,
        directory@.last() != '/',
        service@.len() > 0,
        forall|i: int|
            0 <= i < service@.len() ==> #[trigger] service@[i] != '/' && service@[i] != '.',
        call_ensures(InnerRegistry::<A, C>::new, (proxy.0, proxy.1), registry),
        exists|m: &mut InnerRegistry<A, C>, handle: &mut ServiceHandle<A, C>|
            *m == registry && *final(m) == between && *handle == made && *final(handle) == changed
                && #[trigger] call_ensures(
                InnerRegistry::<A, C>::get_mut::<F>,
                (m, &config, service, make),
                handle,
            ),
        exists|m: &mut InnerRegistry<A, C>|
            *m == between && *final(m) == after && #[trigger] call_ensures(
                InnerRegistry::<A, C>::get::<F>,
                (m, &config, service, make),
                found,
            ),
        call_ensures(InnerRegistry::<A, C>::proxy, (&after,), passing),
    ensures
        made matches ServiceHandle::Unix { path, pidfile: PidLock::Path(guard) } && path@
            == directory@ + seq!['/'] + service@ + seq!['.', 's', 'v', 'c'] && guard@ == directory@
            + seq!['/'] + service@ + seq!['.', 'p', 'i', 'd'],
        *found == changed,
        after.valid(),
        after.handle(service@) == Some(changed),
        forall|name: Seq<char>| name != service@ ==> #[trigger] after.handle(name) is None,
        *passing == (ServiceHandle::<A, C>::Duplex { acceptor: Some(proxy.1), connector: proxy.0 }),
{
    assert forall|name: Seq<char>| name != service@ implies #[trigger] after.handle(name) is None by {
        assert(between.handle(name) == registry.handle(name));
    }
    reveal_strlit("svc");
    reveal_strlit("pid");
    lemma_plain_name_ends_plainly(directory@, service@);
    assert(service@[0] != '/');
    let path = joined_path(directory@, service@);
    assert(path + seq!['.'] + "svc"@ =~= path + seq!['.', 's', 'v', 'c']);
    assert(path + seq!['.'] + "pid"@ =~= path + seq!['.', 'p', 'i', 'd']);
}

/// A service that a registry hands out is the one under its name: what is done to it is found
/// there by who asks next, and nothing else changes.
pub proof fn law_handed_out_service_is_the_one_kept<A, C, F: FnOnce() -> (C, A)>(
    before: ServiceRegistry<A, C>,
    service: &str,
    make: F,
    made: ServiceHandle<A, C>,
    changed: ServiceHandle<A, C>,
    between: ServiceRegistry<A, C>,
    again: ServiceHandle<A, C>,
    last: ServiceHandle<A, C>,
    after: ServiceRegistry<A, C>,
)
    requires
        exists|m: &mut ServiceRegistry<A, C>, handle: &mut ServiceHandle<A, C>|
            *m == before && *final(m) == between && *handle == made && *final(handle) == changed
                && #[trigger] call_ensures(
                ServiceRegistry::<A, C>::service::<F>,
                (m, service, make),
                handle,
            ),
        exists|m: &mut ServiceRegistry<A, C>, handle: &mut ServiceHandle<A, C>|
            *m == between && *final(m) == after && *handle == again && *final(handle) == last
                && #[trigger] call_ensures(
                ServiceRegistry::<A, C>::service::<F>,
                (m, service, make),
                handle,
            ),
    ensures
        again == changed,
        before.handle(service@) matches Some(known) ==> made == known,
        after.handle(service@) == Some(last),
        after.valid(),
        after.spec_proxy() == before.spec_proxy(),
        after.spec_config() == before.spec_config(),
        forall|name: Seq<char>|
            name != service@ ==> #[trigger] after.handle(name) == before.handle(name),
{
    assert forall|name: Seq<char>| name != service@ implies #[trigger] after.handle(name)
        == before.handle(name) by {
        assert(between.handle(name) == before.handle(name));
    }
}

/// A transport has the registry that it was made with, and takes what is put in its place.
pub proof fn law_transport_has_its_registry<A, C>(
    registry: ServiceRegistry<A, C>,
    transport: RegistryTransport<A, C>,
    found: &ServiceRegistry<A, C>,
    before: ServiceRegistry<A, C>,
    other: ServiceRegistry<A, C>,
    changed: RegistryTransport<A, C>,
    last: &ServiceRegistry<A, C>,
)
    requires
        call_ensures(RegistryTransport::<A, C>::new, (registry,), transport),
        call_ensures(RegistryTransport::<A, C>::registry, (&transport,), found),
        exists|m: &mut RegistryTransport<A, C>, place: &mut ServiceRegistry<A, C>|
            *m == transport && *final(m) == changed && *place == before && *final(place) == other
                && #[trigger] call_ensures(RegistryTransport::<A, C>::registry_mut, (m,), place),
        call_ensures(RegistryTransport::<A, C>::registry, (&changed,), last),
    ensures
        *found == registry,
        before == registry,
        *last == other,
{
}

/// Asking whether a service can be reached, and connecting to it, leave every service, the
/// settings, and the service that passes gRPC requests on; an attempt to reach that one tells
/// of it by its name, and has the time that is configured.
pub proof fn law_asking_leaves_the_services<A, C, F: FnOnce() -> (C, A)>(
    before: ServiceRegistry<A, C>,
    service: &str,
    known: ServiceHandle<A, C>,
    make: F,
    shown: Availability,
    asked: ServiceRegistry<A, C>,
    found: (ConnectTarget<'_, C>, ConnectAttempt),
    after: ServiceRegistry<A, C>,
    passing: (ConnectTarget<'_, C>, ConnectAttempt),
    limit: Option<Duration>,
    error: IoError,
    failed: ConnectStep<C>,
    attempt: ConnectAttempt,
)
    requires
        before.handle(service@) == Some(known),
        exists|m: &mut ServiceRegistry<A, C>|
            *m == before && *final(m) == asked && #[trigger] call_ensures(
                ServiceRegistry::<A, C>::is_available::<F>,
                (m, service, make),
                shown,
            ),
        exists|m: &mut ServiceRegistry<A, C>|
            *m == asked && *final(m) == after && #[trigger] call_ensures(
                ServiceRegistry::<A, C>::connect::<F>,
                (m, service, make),
                found,
            ),
        call_ensures(ServiceRegistry::<A, C>::connect_proxy, (&after,), passing),
        call_ensures(ConnectAttempt::limit, (&passing.1,), limit),
        exists|m: &mut ConnectAttempt|
            *m == passing.1 && *final(m) == attempt && #[trigger] call_ensures(
                ConnectAttempt::advance::<C>,
                (m, ConnectEvent::<C>::Failed(error)),
                failed,
            ),
    ensures
        forall|name: Seq<char>| #[trigger] after.handle(name) == before.handle(name),
        after.spec_config() == before.spec_config(),
        after.spec_proxy() == before.spec_proxy(),
        after.valid(),
        known matches ServiceHandle::Duplex { acceptor, connector } ==> {
            &&& shown == Availability::Known(acceptor is None)
            &&& found.0 matches ConnectTarget::Duplex { connector: used, .. }
            &&& *used == connector
        },
        known matches ServiceHandle::Unix { path, .. } ==> (found.0 matches ConnectTarget::Unix {
            path: used,
        } && used@ == path@),
        before.spec_config().connect_timeout is Some ==> limit
            == before.spec_config().connect_timeout,
        failed matches ConnectStep::Done(Err(ConnectionError::ServiceClosed(told))) && told@
            == "grpc-proxy"@,
{
    assert forall|name: Seq<char>| #[trigger] after.handle(name) == before.handle(name) by {
        if name != service@ {
            assert(asked.handle(name) == before.handle(name));
        }
    }
}

} // verus!
