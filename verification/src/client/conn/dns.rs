//! DNS resolution utilities.

use vstd::prelude::*;

use crate::io::{self, ErrorKind, IoError};
use crate::net::{IpAddr, Ipv4Addr, Ipv6Addr, SocketAddr};
use crate::poll::Poll;
use crate::text;
use crate::uri::{Uri, UriParts};

verus! {

/// The two versions of the Internet protocol.
#[derive(Debug, Clone, Copy, PartialEq, Eq, Structural)]
pub enum IpVersion {
    /// IPv4
    V4,
    /// IPv6
    V6,
}

impl IpVersion {
    /// The version to prefer, given the local addresses to bind to: the one that there
    /// is an address for, where there is an address for one only.
    pub fn from_binding(
        ip_v4_address: Option<Ipv4Addr>,
        ip_v6_address: Option<Ipv6Addr>,
    ) -> (prefer: Option<Self>)
        ensures
            prefer == preferred_version(ip_v4_address, ip_v6_address),
    {
        match (ip_v4_address, ip_v6_address) {
            (Some(_), Some(_)) => None,
            (Some(_), None) => Some(IpVersion::V4),
            (None, Some(_)) => Some(IpVersion::V6),
            (None, None) => None,
        }
    }

    /// Whether this is IPv4.
    pub fn is_v4(&self) -> (is: bool)
        ensures
            is == (self == IpVersion::V4),
    {
        matches!(self, IpVersion::V4)
    }

    /// Whether this is IPv6.
    pub fn is_v6(&self) -> (is: bool)
        ensures
            is == (self == IpVersion::V6),
    {
        matches!(self, IpVersion::V6)
    }
}

/// The version to prefer, given the local addresses to bind to.
pub open spec fn preferred_version(v4: Option<Ipv4Addr>, v6: Option<Ipv6Addr>) -> Option<IpVersion> {
    if v4 is Some && v6 is None {
        Some(IpVersion::V4)
    } else if v4 is None && v6 is Some {
        Some(IpVersion::V6)
    } else {
        None
    }
}

/// Something that belongs to one of the two versions of the Internet protocol.
pub trait IpVersionExt {
    /// The version.
    spec fn ip_version(&self) -> IpVersion;

    /// The version.
    fn version(&self) -> (version: IpVersion)
        ensures
            version == self.ip_version(),
    ;
}

impl IpVersionExt for SocketAddr {
    open spec fn ip_version(&self) -> IpVersion {
        if self is V4 {
            IpVersion::V4
        } else {
            IpVersion::V6
        }
    }

    fn version(&self) -> (version: IpVersion) {
        match self {
            SocketAddr::V4(_) => IpVersion::V4,
            SocketAddr::V6(_) => IpVersion::V6,
        }
    }
}

impl IpVersionExt for IpAddr {
    open spec fn ip_version(&self) -> IpVersion {
        if self is V4 {
            IpVersion::V4
        } else {
            IpVersion::V6
        }
    }

    fn version(&self) -> (version: IpVersion) {
        match self {
            IpAddr::V4(_) => IpVersion::V4,
            IpAddr::V6(_) => IpVersion::V6,
        }
    }
}

/// Whether an address has a version.
pub open spec fn has_version(version: IpVersion) -> spec_fn(SocketAddr) -> bool {
    |addr: SocketAddr| addr.ip_version() == version
}

/// The addresses of one version, in their order.
pub open spec fn of_version(addrs: Seq<SocketAddr>, version: IpVersion) -> Seq<SocketAddr> {
    addrs.filter(has_version(version))
}

/// The other version.
pub open spec fn other_version(version: IpVersion) -> IpVersion {
    match version {
        IpVersion::V4 => IpVersion::V6,
        IpVersion::V6 => IpVersion::V4,
    }
}

/// The addresses to try first, and those to fall back on.
pub open spec fn split(addrs: Seq<SocketAddr>, prefer: Option<IpVersion>) -> (
    Seq<SocketAddr>,
    Seq<SocketAddr>,
) {
    match prefer {
        Some(version) => (of_version(addrs, version), of_version(addrs, other_version(version))),
        None => (addrs, Seq::empty()),
    }
}

/// A set of addresses for one host.
#[derive(Debug)]
pub struct SocketAddrs(Vec<SocketAddr>);

impl View for SocketAddrs {
    type V = Seq<SocketAddr>;

    closed spec fn view(&self) -> Seq<SocketAddr> {
        self.0@
    }
}

impl Clone for SocketAddrs {
    fn clone(&self) -> (copy: Self)
        ensures
            copy@ == self@,
    {
        let list = self.0.clone();
        assert(list@ =~= self.0@);
        SocketAddrs(list)
    }
}

impl Default for SocketAddrs {
    fn default() -> (addrs: Self)
        ensures
            addrs@ == Seq::<SocketAddr>::empty(),
    {
        SocketAddrs(Vec::new())
    }
}

impl SocketAddrs {
    /// No addresses.
    pub fn new() -> (addrs: Self)
        ensures
            addrs@ == Seq::<SocketAddr>::empty(),
    {
        SocketAddrs(Vec::new())
    }

    /// The given addresses, in their order.
    pub fn from_vec(list: Vec<SocketAddr>) -> (addrs: Self)
        ensures
            addrs@ == list@,
    {
        SocketAddrs(list)
    }

    /// Adds an address.
    pub fn push(&mut self, addr: SocketAddr)
        ensures
            final(self)@ == old(self)@.push(addr),
    {
        self.0.push(addr);
    }

    /// How many addresses there are.
    pub fn len(&self) -> (len: usize)
        ensures
            len == self@.len(),
    {
        self.0.len()
    }

    /// Whether there are no addresses.
    pub fn is_empty(&self) -> (empty: bool)
        ensures
            empty == (self@.len() == 0),
    {
        self.0.len() == 0
    }

    /// The address at the given place.
    pub fn get(&self, index: usize) -> (addr: Option<SocketAddr>)
        ensures
            addr == if index < self@.len() {
                Some(self@[index as int])
            } else {
                None
            },
    {
        if index < self.0.len() {
            Some(self.0[index])
        } else {
            None
        }
    }

    /// Takes out the address to try next, which is the first.
    pub fn pop(&mut self) -> (addr: Option<SocketAddr>)
        ensures
            match addr {
                Some(addr) => old(self)@.len() > 0 && addr == old(self)@[0] && final(self)@
                    == old(self)@.skip(1),
                None => old(self)@.len() == 0 && final(self)@ == old(self)@,
            },
    {
        if self.0.len() == 0 {
            None
        } else {
            let addr = self.0.remove(0);
            assert(self.0@ =~= old(self)@.skip(1));
            Some(addr)
        }
    }

    /// Sets the port of all addresses.
    pub fn set_port(&mut self, port: u16)
        ensures
            final(self)@ == old(self)@.map_values(|addr: SocketAddr| addr.at_port(port)),
    {
        let ghost before = self@;
        let mut i: usize = 0;
        while i < self.0.len()
            invariant
                i <= self.0@.len(),
                self.0@.len() == before.len(),
                before == old(self)@,
                forall|j: int| 0 <= j < i ==> #[trigger] self.0@[j] == before[j].at_port(port),
                forall|j: int| i <= j < before.len() ==> #[trigger] self.0@[j] == before[j],
            decreases self.0@.len() - i,
        {
            let addr = self.0[i].with_port(port);
            self.0.set(i, addr);
            i = i + 1;
        }
        assert(self@ =~= before.map_values(|addr: SocketAddr| addr.at_port(port)));
    }

    /// Splits the addresses into those of the preferred version and the rest, each in
    /// their order. Without a preference nothing is left for the rest.
    pub fn split_prefered(self, prefer: Option<IpVersion>) -> (parts: (Self, Self))
        ensures
            (parts.0@, parts.1@) == split(self@, prefer),
    {
        if let Some(version) = prefer {
            let mut v4 = SocketAddrs::new();
            let mut v6 = SocketAddrs::new();
            let ghost addrs = self@;
            let mut i: usize = 0;
            proof {
                reveal(Seq::filter);
                assert(addrs.take(0) =~= Seq::empty());
            }
            while i < self.0.len()
                invariant
                    addrs == self.0@,
                    i <= addrs.len(),
                    v4@ == of_version(addrs.take(i as int), IpVersion::V4),
                    v6@ == of_version(addrs.take(i as int), IpVersion::V6),
                decreases addrs.len() - i,
            {
                let addr = self.0[i];
                proof {
                    lemma_of_version_grows(addrs, i as int, IpVersion::V4);
                    lemma_of_version_grows(addrs, i as int, IpVersion::V6);
                }
                match addr {
                    SocketAddr::V4(_) => v4.push(addr),
                    SocketAddr::V6(_) => v6.push(addr),
                }
                i = i + 1;
            }
            assert(addrs.take(i as int) =~= addrs);
            match version {
                IpVersion::V4 => (v4, v6),
                IpVersion::V6 => (v6, v4),
            }
        } else {
            (self, SocketAddrs::new())
        }
    }

    /// Puts the addresses of the preferred version first, each version in its order.
    pub fn sort_preferred(&mut self, prefer: Option<IpVersion>)
        ensures
            final(self)@ == split(old(self)@, prefer).0 + split(old(self)@, prefer).1,
    {
        let mut addrs = SocketAddrs::new();
        std::mem::swap(self, &mut addrs);
        let (mut first, mut rest) = addrs.split_prefered(prefer);
        first.0.append(&mut rest.0);
        *self = first;
    }
}

proof fn lemma_of_version_grows(addrs: Seq<SocketAddr>, i: int, version: IpVersion)
    requires
        0 <= i < addrs.len(),
    ensures
        of_version(addrs.take(i + 1), version) == if addrs[i].ip_version() == version {
            of_version(addrs.take(i), version).push(addrs[i])
        } else {
            of_version(addrs.take(i), version)
        },
{
    reveal(Seq::filter);
    assert(addrs.take(i + 1).drop_last() =~= addrs.take(i));
    assert(addrs.take(i + 1).last() == addrs[i]);
}

/// Splitting loses no address and invents none: an address is in one of the two parts
/// exactly when it was among those given, and the parts together are as long as the
/// whole.
pub proof fn law_split_keeps_addresses(addrs: Seq<SocketAddr>, prefer: Option<IpVersion>)
    ensures
        split(addrs, prefer).0.len() + split(addrs, prefer).1.len() == addrs.len(),
        forall|addr: SocketAddr|
            addrs.contains(addr) <==> #[trigger] split(addrs, prefer).0.contains(addr) || split(
                addrs,
                prefer,
            ).1.contains(addr),
{
    if let Some(version) = prefer {
        lemma_versions_cover(addrs, version);
    } else {
        assert forall|addr: SocketAddr| addrs.contains(addr) <==> #[trigger] split(
            addrs,
            prefer,
        ).0.contains(addr) || split(addrs, prefer).1.contains(addr) by {
            assert(!Seq::<SocketAddr>::empty().contains(addr));
        }
    }
}

/// Without a preferred version, splitting leaves the addresses as they are: all of them
/// are in the first part, in the order in which they were given. With one, the first
/// part has the addresses of that version and the second those of the other, each in the
/// order in which they were given.
pub proof fn law_split_keeps_the_order(
    addrs: SocketAddrs,
    prefer: Option<IpVersion>,
    parts: (SocketAddrs, SocketAddrs),
)
    requires
        call_ensures(SocketAddrs::split_prefered, (addrs, prefer), parts),
    ensures
        prefer is None ==> parts.0@ == addrs@ && parts.1@.len() == 0,
        prefer == Some(IpVersion::V4) ==> {
            &&& parts.0@ == addrs@.filter(|addr: SocketAddr| addr is V4)
            &&& parts.1@ == addrs@.filter(|addr: SocketAddr| addr is V6)
        },
        prefer == Some(IpVersion::V6) ==> {
            &&& parts.0@ == addrs@.filter(|addr: SocketAddr| addr is V6)
            &&& parts.1@ == addrs@.filter(|addr: SocketAddr| addr is V4)
        },
{
    assert(has_version(IpVersion::V4) =~= (|addr: SocketAddr| addr is V4));
    assert(has_version(IpVersion::V6) =~= (|addr: SocketAddr| addr is V6));
}

/// The part that is tried first has only addresses of the preferred version, and the one
/// to fall back on has none.
pub proof fn law_preferred_addresses_come_first(
    addrs: SocketAddrs,
    version: IpVersion,
    parts: (SocketAddrs, SocketAddrs),
)
    requires
        call_ensures(SocketAddrs::split_prefered, (addrs, Some(version)), parts),
    ensures
        forall|i: int|
            0 <= i < parts.0@.len() ==> (#[trigger] parts.0@[i] is V4 <==> version is V4),
        forall|i: int|
            0 <= i < parts.1@.len() ==> (#[trigger] parts.1@[i] is V4 <==> version is V6),
        parts.0@.len() + parts.1@.len() == addrs@.len(),
{
    broadcast use vstd::seq_lib::group_filter_ensures;

    law_split_keeps_addresses(addrs@, Some(version));
    let first = has_version(version);
    let second = has_version(other_version(version));
    assert forall|i: int| 0 <= i < parts.0@.len() implies (#[trigger] parts.0@[i] is V4
        <==> version is V4) by {
        assert(parts.0@.contains(parts.0@[i]));
        addrs@.lemma_filter_contains_rev(first, parts.0@[i]);
        assert(first(parts.0@[i]));
    }
    assert forall|i: int| 0 <= i < parts.1@.len() implies (#[trigger] parts.1@[i] is V4
        <==> version is V6) by {
        assert(parts.1@.contains(parts.1@[i]));
        addrs@.lemma_filter_contains_rev(second, parts.1@[i]);
        assert(second(parts.1@[i]));
    }
}

/// A version is preferred exactly where there is a local address of that version to bind
/// to, and none of the other.
pub proof fn law_binding_decides_the_version(
    v4: Option<Ipv4Addr>,
    v6: Option<Ipv6Addr>,
    prefer: Option<IpVersion>,
)
    requires
        call_ensures(IpVersion::from_binding, (v4, v6), prefer),
    ensures
        prefer == Some(IpVersion::V4) <==> v4 is Some && v6 is None,
        prefer == Some(IpVersion::V6) <==> v4 is None && v6 is Some,
        prefer is None <==> v4 is Some == v6 is Some,
{
}

proof fn lemma_versions_cover(addrs: Seq<SocketAddr>, version: IpVersion)
    ensures
        of_version(addrs, version).len() + of_version(addrs, other_version(version)).len()
            == addrs.len(),
        forall|addr: SocketAddr|
            addrs.contains(addr) <==> #[trigger] of_version(addrs, version).contains(addr)
                || of_version(addrs, other_version(version)).contains(addr),
{
    lemma_version_counts(addrs, version);
    let first = has_version(version);
    let second = has_version(other_version(version));
    assert forall|addr: SocketAddr| addrs.contains(addr) <==> #[trigger] of_version(
        addrs,
        version,
    ).contains(addr) || of_version(addrs, other_version(version)).contains(addr) by {
        if addrs.contains(addr) {
            let i = addrs.index_of(addr);
            if first(addr) {
                addrs.lemma_filter_contains(first, i);
            } else {
                addrs.lemma_filter_contains(second, i);
            }
        }
        if addrs.filter(first).contains(addr) {
            addrs.lemma_filter_contains_rev(first, addr);
        }
        if addrs.filter(second).contains(addr) {
            addrs.lemma_filter_contains_rev(second, addr);
        }
    }
}

proof fn lemma_version_counts(addrs: Seq<SocketAddr>, version: IpVersion)
    ensures
        of_version(addrs, version).len() + of_version(addrs, other_version(version)).len()
            == addrs.len(),
    decreases addrs.len(),
{
    reveal(Seq::filter);
    if addrs.len() > 0 {
        lemma_version_counts(addrs.drop_last(), version);
    }
}

/// The port that a scheme stands for.
pub open spec fn default_port(scheme: Option<Seq<char>>) -> Option<u16> {
    if scheme == Some("http"@) {
        Some(80)
    } else if scheme == Some("https"@) {
        Some(443)
    } else {
        None
    }
}

/// The port to connect to: the one that is written, or the one that the scheme stands
/// for.
pub open spec fn port_of(uri: UriParts) -> Option<u16> {
    match uri.authority {
        Some(authority) => match authority.port {
            Some(port) => Some(port),
            None => default_port(uri.scheme),
        },
        None => None,
    }
}

/// A host without the brackets that an IPv6 address is written in.
pub open spec fn bare(host: Seq<char>) -> Seq<char> {
    text::without_trailing(text::without_leading(host, '['), ']')
}

/// What a URI lacks to be connected to.
#[derive(Debug, Clone, Copy, PartialEq, Eq, Structural)]
pub enum Missing {
    /// There is no host.
    Host,
    /// There is no port, and the scheme stands for none.
    Port,
}

/// Finds the host and the port to connect to.
pub fn host_and_port(uri: &Uri) -> (outcome: Result<(String, u16), Missing>)
    ensures
        match outcome {
            Ok((host, port)) => uri@.authority is Some && host@ == bare(uri@.authority->0.host)
                && port_of(uri@) == Some(port),
            Err(Missing::Host) => uri@.authority is None,
            Err(Missing::Port) => uri@.authority is Some && port_of(uri@) is None,
        },
{
    let host = match uri.host() {
        Some(host) => host,
        None => {
            return Err(Missing::Host);
        },
    };
    let host = text::trim_end(text::trim_start(host, '['), ']').to_owned();
    let port: u16 = match uri.port_u16() {
        Some(port) => port,
        None => match uri.scheme_str() {
            Some(scheme) => if text::same(scheme, "http") {
                80
            } else if text::same(scheme, "https") {
                443
            } else {
                return Err(Missing::Port);
            },
            None => {
                return Err(Missing::Port);
            },
        },
    };
    proof {
        reveal_strlit("http");
        reveal_strlit("https");
    }
    Ok((host, port))
}

/// Finds the host and the port to resolve.
pub fn get_host_and_port(uri: &Uri) -> (outcome: Result<(String, u16), IoError>)
    ensures
        match outcome {
            Ok((host, port)) => uri@.authority is Some && host@ == bare(uri@.authority->0.host)
                && port_of(uri@) == Some(port),
            Err(error) => if uri@.authority is None {
                io::says(error, ErrorKind::InvalidData, "missing host in URI"@)
            } else {
                port_of(uri@) is None && io::says(
                    error,
                    ErrorKind::InvalidData,
                    "missing port in URI for non-http(s) scheme"@,
                )
            },
        },
{
    match host_and_port(uri) {
        Ok(target) => Ok(target),
        Err(Missing::Host) => Err(
            IoError::new(ErrorKind::InvalidData, "missing host in URI".to_owned()),
        ),
        Err(Missing::Port) => Err(
            IoError::new(
                ErrorKind::InvalidData,
                "missing port in URI for non-http(s) scheme".to_owned(),
            ),
        ),
    }
}

/// Why a task did not run to its end.
#[derive(Debug)]
pub struct JoinError {
    /// Whether the task was cancelled; otherwise it panicked.
    pub cancelled: bool,
    /// What the error says.
    pub message: String,
}

/// A resolver that asks the operating system.
#[derive(Debug, Clone, Copy, PartialEq, Eq, Structural)]
pub struct GaiResolver;

impl GaiResolver {
    /// Create a new `GaiResolver`.
    pub fn new() -> (resolver: Self)
        ensures
            resolver == GaiResolver,
    {
        GaiResolver
    }

    /// Begins to resolve the host of a URI. Where there is nothing to resolve, the error
    /// is kept for when the result is asked for.
    pub fn call(&self, uri: &Uri) -> (future: GaiFuture)
        ensures
            match future {
                GaiFuture::Resolve { host, port } => uri@.authority is Some && host@ == bare(
                    uri@.authority->0.host,
                ) && port_of(uri@) == Some(port),
                GaiFuture::Error(error) => port_of(uri@) is None && error.kind
                    == ErrorKind::InvalidData && error.message@ == if uri@.authority is None {
                    "missing host in URI"@
                } else {
                    "missing port in URI for non-http(s) scheme"@
                },
            },
    {
        match get_host_and_port(uri) {
            Ok((host, port)) => GaiFuture::Resolve { host, port },
            Err(error) => GaiFuture::Error(error),
        }
    }
}

/// A name that is being resolved.
#[derive(Debug)]
pub enum GaiFuture {
    /// A host and a port for the operating system to resolve.
    Resolve {
        /// The host.
        host: String,
        /// The port.
        port: u16,
    },
    /// There is nothing to resolve.
    Error(IoError),
}

/// What to make of a task that resolves a name. One that was cancelled counts as
/// interrupted.
pub fn joined<A>(outcome: Poll<Result<Result<A, IoError>, JoinError>>) -> (next: Poll<
    Result<A, IoError>,
>)
    ensures
        match outcome {
            Poll::Pending => next is Pending,
            Poll::Ready(Ok(result)) => next == Poll::Ready(result),
            Poll::Ready(Err(failed)) => next matches Poll::Ready(Err(error)) && error.message
                == failed.message && error.kind == if failed.cancelled {
                ErrorKind::Interrupted
            } else {
                ErrorKind::Other
            },
        },
{
    match outcome {
        Poll::Pending => Poll::Pending,
        Poll::Ready(Ok(result)) => Poll::Ready(result),
        Poll::Ready(Err(failed)) => if failed.cancelled {
            Poll::Ready(Err(IoError::new(ErrorKind::Interrupted, failed.message)))
        } else {
            Poll::Ready(Err(IoError::new(ErrorKind::Other, failed.message)))
        },
    }
}

impl GaiFuture {
    /// Takes in what came of the task that resolves the name. Where there was nothing to
    /// resolve, the task does not matter.
    pub fn poll(self, outcome: Poll<Result<Result<SocketAddrs, IoError>, JoinError>>) -> (next: Poll<
        Result<SocketAddrs, IoError>,
    >)
        ensures
            match self {
                GaiFuture::Error(error) => next == Poll::Ready(Err::<SocketAddrs, IoError>(error)),
                GaiFuture::Resolve { .. } => match outcome {
                    Poll::Pending => next is Pending,
                    Poll::Ready(Ok(result)) => next == Poll::Ready(result),
                    Poll::Ready(Err(failed)) => next matches Poll::Ready(Err(error))
                        && error.message == failed.message && error.kind == if failed.cancelled {
                        ErrorKind::Interrupted
                    } else {
                        ErrorKind::Other
                    },
                },
            },
    {
        match self {
            GaiFuture::Error(error) => Poll::Ready(Err(error)),
            GaiFuture::Resolve { .. } => joined(outcome),
        }
    }
}

/// Converts a standard resolver (which can return multiple addresses) into a resolver
/// that only returns the first address as an IP address.
#[derive(Debug)]
pub struct FirstAddrResolver<R> {
    inner: R,
}

impl<R> FirstAddrResolver<R> {
    /// The resolver inside.
    pub closed spec fn resolver(self) -> R {
        self.inner
    }

    /// Create a new `FirstAddrResolver`.
    pub fn new(inner: R) -> (resolver: Self)
        ensures
            resolver.resolver() == inner,
    {
        FirstAddrResolver { inner }
    }

    /// The resolver inside.
    pub fn inner(&mut self) -> (inner: &mut R)
        ensures
            *inner == old(self).resolver(),
            final(self).resolver() == *final(inner),
    {
        &mut self.inner
    }
}

impl<R: Clone> Clone for FirstAddrResolver<R> {
    fn clone(&self) -> (copy: Self)
        ensures
            cloned(self.resolver(), copy.resolver()),
    {
        FirstAddrResolver { inner: self.inner.clone() }
    }
}

/// A name that is being resolved to one address.
#[derive(Debug)]
pub struct FirstAddrFuture<F> {
    inner: F,
}

impl<F> FirstAddrFuture<F> {
    /// What resolves the name.
    pub closed spec fn future(self) -> F {
        self.inner
    }

    /// Wraps what resolves the name.
    pub fn new(inner: F) -> (future: Self)
        ensures
            future.future() == inner,
    {
        FirstAddrFuture { inner }
    }

    /// Takes in what came of resolving: of several addresses the first counts.
    pub fn poll(&self, outcome: Poll<Result<SocketAddrs, IoError>>) -> (next: Poll<
        Result<IpAddr, IoError>,
    >)
        ensures
            match outcome {
                Poll::Pending => next is Pending,
                Poll::Ready(Err(error)) => next == Poll::Ready(Err::<IpAddr, IoError>(error)),
                Poll::Ready(Ok(addrs)) => if addrs@.len() > 0 {
                    next == Poll::Ready(Ok::<IpAddr, IoError>(addrs@[0].address()))
                } else {
                    next matches Poll::Ready(Err(error)) && io::says(
                        error,
                        ErrorKind::AddrNotAvailable,
                        "no address found"@,
                    )
                },
            },
    {
        match outcome {
            Poll::Pending => Poll::Pending,
            Poll::Ready(Err(error)) => Poll::Ready(Err(error)),
            Poll::Ready(Ok(addrs)) => match addrs.get(0) {
                Some(addr) => Poll::Ready(Ok(addr.ip())),
                None => Poll::Ready(
                    Err(IoError::new(ErrorKind::AddrNotAvailable, "no address found".to_owned())),
                ),
            },
        }
    }
}

/// Something that can be made into a [`FirstAddrResolver`].
pub trait FirstAddrExt: Sized {
    /// Convert this resolver into a `FirstAddrResolver`.
    fn first_addr(self) -> (resolver: FirstAddrResolver<Self>)
        ensures
            resolver.resolver() == self,
    ;
}

impl<R> FirstAddrExt for R {
    fn first_addr(self) -> (resolver: FirstAddrResolver<Self>) {
        FirstAddrResolver::new(self)
    }
}

/// Where a request is sent: to the port that its URI names, or else to port 80 for `http`
/// and 443 for `https`. Without a host there is nowhere to send it, and without a port
/// there is not either, for any other scheme.
pub proof fn law_port_comes_from_the_uri(uri: Uri, outcome: Result<(String, u16), Missing>)
    requires
        call_ensures(host_and_port, (&uri,), outcome),
    ensures
        uri@.authority is None <==> outcome == Err::<(String, u16), Missing>(Missing::Host),
        uri@.authority matches Some(authority) ==> {
            &&& authority.port matches Some(port) ==> outcome is Ok && outcome->Ok_0.1 == port
            &&& authority.port is None ==> {
                &&& uri@.scheme == Some("http"@) ==> outcome is Ok && outcome->Ok_0.1 == 80
                &&& uri@.scheme == Some("https"@) ==> outcome is Ok && outcome->Ok_0.1 == 443
                &&& uri@.scheme != Some("http"@) && uri@.scheme != Some("https"@) ==> outcome
                    == Err::<(String, u16), Missing>(Missing::Port)
            }
        },
{
    reveal_strlit("http");
    reveal_strlit("https");
    assert("http"@.len() != "https"@.len());
}

/// The host that is connected to is the one of the URI. An address in brackets loses
/// them, and any other host stays as it is.
pub proof fn law_host_comes_from_the_uri(
    uri: Uri,
    target: (String, u16),
    inner: Seq<char>,
)
    requires
        call_ensures(host_and_port, (&uri,), Ok(target)),
        inner.len() > 0,
        inner[0] != '[',
        inner.last() != ']',
        uri@.authority is Some,
    ensures
        uri@.authority->0.host == inner ==> target.0@ == inner,
        uri@.authority->0.host == seq!['['] + inner + seq![']'] ==> target.0@ == inner,
{
    let host = uri@.authority->0.host;
    if host == seq!['['] + inner + seq![']'] {
        let rest = inner + seq![']'];
        assert(host.skip(1) =~= rest);
        assert(rest[0] == inner[0]);
        assert(text::without_leading(host, '[') == text::without_leading(rest, '['));
        assert(text::without_leading(rest, '[') == rest);
        assert(rest.last() == ']');
        assert(rest.drop_last() =~= inner);
        assert(text::without_trailing(rest, ']') == text::without_trailing(inner, ']'));
    }
}

/// What is resolved, and what a resolver reports where there is nothing to resolve, agree
/// with what the URI names: a host and a port are asked for exactly where it has both.
pub proof fn law_resolver_asks_for_the_host(
    resolver: GaiResolver,
    uri: Uri,
    future: GaiFuture,
    outcome: Result<(String, u16), Missing>,
)
    requires
        call_ensures(GaiResolver::call, (&resolver, &uri), future),
        call_ensures(host_and_port, (&uri,), outcome),
    ensures
        outcome matches Ok(target) ==> (future matches GaiFuture::Resolve { host, port } && host@
            == target.0@ && port == target.1),
        outcome is Err ==> (future matches GaiFuture::Error(error) && error.kind
            == ErrorKind::InvalidData),
{
}

/// Setting the port changes nothing else of an address, and leaves their order.
pub proof fn law_only_the_port_is_set(before: SocketAddrs, port: u16, after: SocketAddrs)
    requires
        exists|addrs: &mut SocketAddrs|
            *addrs == before && *final(addrs) == after && #[trigger] call_ensures(
                SocketAddrs::set_port,
                (addrs, port),
                (),
            ),
    ensures
        after@.len() == before@.len(),
        forall|i: int|
            0 <= i < before@.len() ==> match #[trigger] before@[i] {
                SocketAddr::V4(addr) => after@[i] matches SocketAddr::V4(set) && set.ip == addr.ip
                    && set.port == port,
                SocketAddr::V6(addr) => after@[i] matches SocketAddr::V6(set) && set.ip == addr.ip
                    && set.port == port && set.flowinfo == addr.flowinfo && set.scope_id
                    == addr.scope_id,
            },
{
}

/// Sorting puts all addresses of the preferred version before all others, and leaves the
/// order of the addresses of each version; without a preference it changes nothing.
pub proof fn law_sorting_puts_the_preferred_first(
    before: SocketAddrs,
    prefer: Option<IpVersion>,
    after: SocketAddrs,
)
    requires
        exists|addrs: &mut SocketAddrs|
            *addrs == before && *final(addrs) == after && #[trigger] call_ensures(
                SocketAddrs::sort_preferred,
                (addrs, prefer),
                (),
            ),
    ensures
        prefer is None ==> after@ == before@,
        prefer == Some(IpVersion::V4) ==> after@ == before@.filter(|addr: SocketAddr| addr is V4)
            + before@.filter(|addr: SocketAddr| addr is V6),
        prefer == Some(IpVersion::V6) ==> after@ == before@.filter(|addr: SocketAddr| addr is V6)
            + before@.filter(|addr: SocketAddr| addr is V4),
{
    assert(has_version(IpVersion::V4) =~= (|addr: SocketAddr| addr is V4));
    assert(has_version(IpVersion::V6) =~= (|addr: SocketAddr| addr is V6));
    if prefer is None {
        assert(before@ + Seq::<SocketAddr>::empty() =~= before@);
    }
}

/// Addresses are taken in the order in which they were put in, and each once.
pub proof fn law_addresses_are_taken_in_order(
    before: SocketAddrs,
    taken: Option<SocketAddr>,
    after: SocketAddrs,
)
    requires
        exists|addrs: &mut SocketAddrs|
            *addrs == before && *final(addrs) == after && #[trigger] call_ensures(
                SocketAddrs::pop,
                (addrs,),
                taken,
            ),
    ensures
        taken is None <==> before@.len() == 0,
        taken matches Some(addr) ==> before@ == seq![addr] + after@,
        taken is None ==> after@ == before@,
{
    if taken is Some {
        assert(before@ =~= seq![taken->0] + after@);
    }
}

/// Of the addresses that a host resolves to, the first is used; where there is none, that
/// is an error, and a failure to resolve is passed on as it is.
pub proof fn law_first_address_is_used<F>(
    future: FirstAddrFuture<F>,
    outcome: Poll<Result<SocketAddrs, IoError>>,
    next: Poll<Result<IpAddr, IoError>>,
)
    requires
        call_ensures(FirstAddrFuture::<F>::poll, (&future, outcome), next),
    ensures
        outcome matches Poll::Ready(Ok(addrs)) ==> {
            &&& addrs@.len() > 0 ==> (next matches Poll::Ready(Ok(ip)) && match addrs@[0] {
                SocketAddr::V4(addr) => ip == IpAddr::V4(addr.ip),
                SocketAddr::V6(addr) => ip == IpAddr::V6(addr.ip),
            })
            &&& addrs@.len() == 0 ==> (next matches Poll::Ready(Err(error)) && error.kind
                == ErrorKind::AddrNotAvailable)
        },
        outcome matches Poll::Ready(Err(error)) ==> next == Poll::Ready(
            Err::<IpAddr, IoError>(error),
        ),
        outcome is Pending <==> next is Pending,
{
}

/// What the task that resolves a name gives is the result; a task that did not run to its
/// end is an error, which says whether it was cancelled.
pub proof fn law_resolved_addresses_are_the_result(
    future: GaiFuture,
    outcome: Poll<Result<Result<SocketAddrs, IoError>, JoinError>>,
    next: Poll<Result<SocketAddrs, IoError>>,
)
    requires
        call_ensures(GaiFuture::poll, (future, outcome), next),
    ensures
        future matches GaiFuture::Error(error) ==> next == Poll::Ready(
            Err::<SocketAddrs, IoError>(error),
        ),
        future is Resolve ==> {
            &&& outcome matches Poll::Ready(Ok(result)) ==> next == Poll::Ready(result)
            &&& outcome matches Poll::Ready(Err(failed)) ==> {
                &&& next matches Poll::Ready(Err(error))
                &&& error.kind == ErrorKind::Interrupted <==> failed.cancelled
                &&& error.message == failed.message
            }
            &&& outcome is Pending <==> next is Pending
        },
{
}

/// Addresses keep the order in which they were given or added, each is found at its place,
/// and they are counted.
pub proof fn law_addresses_keep_their_places(
    list: Vec<SocketAddr>,
    made: SocketAddrs,
    addr: SocketAddr,
    longer: SocketAddrs,
    copy: SocketAddrs,
    index: usize,
    found: Option<SocketAddr>,
    count: usize,
    empty: bool,
    none: SocketAddrs,
    nothing: usize,
)
    requires
        call_ensures(SocketAddrs::from_vec, (list,), made),
        exists|m: &mut SocketAddrs|
            *m == made && *final(m) == longer && #[trigger] call_ensures(
                SocketAddrs::push,
                (m, addr),
                (),
            ),
        call_ensures(SocketAddrs::clone, (&longer,), copy),
        call_ensures(SocketAddrs::get, (&copy, index), found),
        call_ensures(SocketAddrs::len, (&copy,), count),
        call_ensures(SocketAddrs::is_empty, (&made,), empty),
        call_ensures(SocketAddrs::new, (), none) || call_ensures(SocketAddrs::default, (), none),
        call_ensures(SocketAddrs::len, (&none,), nothing),
    ensures
        count == list@.len() + 1,
        index < list@.len() ==> found == Some(list@[index as int]),
        index == list@.len() ==> found == Some(addr),
        index > list@.len() ==> found is None,
        empty <==> list@.len() == 0,
        nothing == 0,
{
}

/// An address is of the version that it is written in.
pub proof fn law_address_has_its_version(
    addr: SocketAddr,
    ip: IpAddr,
    first: IpVersion,
    second: IpVersion,
    v4: bool,
    v6: bool,
)
    requires
        call_ensures(SocketAddr::version, (&addr,), first),
        call_ensures(IpAddr::version, (&ip,), second),
        call_ensures(IpVersion::is_v4, (&first,), v4),
        call_ensures(IpVersion::is_v6, (&first,), v6),
    ensures
        first == IpVersion::V4 <==> addr is V4,
        first == IpVersion::V6 <==> addr is V6,
        second == IpVersion::V4 <==> ip is V4,
        v4 <==> addr is V4,
        v6 <==> addr is V6,
{
}

/// What is missing from a target to be resolved is told as bad data, and what is there is
/// what is found.
pub proof fn law_missing_part_is_told(
    uri: Uri,
    found: Result<(String, u16), Missing>,
    outcome: Result<(String, u16), IoError>,
)
    requires
        call_ensures(host_and_port, (&uri,), found),
        call_ensures(get_host_and_port, (&uri,), outcome),
    ensures
        found is Ok <==> outcome is Ok,
        found is Ok ==> found->Ok_0.0@ == outcome->Ok_0.0@ && found->Ok_0.1 == outcome->Ok_0.1,
        outcome is Err ==> outcome->Err_0.kind == ErrorKind::InvalidData,
        found == Err::<(String, u16), Missing>(Missing::Host) ==> outcome->Err_0.message@
            == "missing host in URI"@,
        found == Err::<(String, u16), Missing>(Missing::Port) ==> outcome->Err_0.message@
            == "missing port in URI for non-http(s) scheme"@,
{
}

/// A task that resolves a name is waited for, and its result is the result; one that did not
/// run to its end is an error, which is an interruption where the task was cancelled.
pub proof fn law_task_that_ends_is_the_result<A>(
    outcome: Poll<Result<Result<A, IoError>, JoinError>>,
    next: Poll<Result<A, IoError>>,
)
    requires
        call_ensures(joined::<A>, (outcome,), next),
    ensures
        outcome is Pending <==> next is Pending,
        outcome matches Poll::Ready(Ok(result)) ==> next == Poll::Ready(result),
        outcome matches Poll::Ready(Err(failed)) ==> {
            &&& next matches Poll::Ready(Err(error))
            &&& error.message == failed.message
            &&& error.kind == ErrorKind::Interrupted <==> failed.cancelled
            &&& error.kind == ErrorKind::Other <==> !failed.cancelled
        },
{
}

/// A resolver that gives one address is the resolver inside, and takes what is put in its
/// place.
pub proof fn law_inner_resolver_is_kept<R>(
    inner: R,
    resolver: FirstAddrResolver<R>,
    before: R,
    other: R,
    changed: FirstAddrResolver<R>,
    last: R,
)
    requires
        call_ensures(FirstAddrResolver::<R>::new, (inner,), resolver),
        exists|m: &mut FirstAddrResolver<R>, place: &mut R|
            *m == resolver && *final(m) == changed && *place == before && *final(place) == other
                && #[trigger] call_ensures(FirstAddrResolver::<R>::inner, (m,), place),
        exists|m: &mut FirstAddrResolver<R>, place: &mut R|
            *m == changed && *place == last && #[trigger] call_ensures(
                FirstAddrResolver::<R>::inner,
                (m,),
                place,
            ),
    ensures
        before == inner,
        last == other,
{
}

} // verus!
