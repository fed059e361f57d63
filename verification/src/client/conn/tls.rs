//! Transports that encrypt where the scheme asks for it.

use vstd::prelude::*;

use crate::client::conn::transport::tls::TlsTransportWrapper;
use crate::text;
use crate::uri::{self, Scheme, Uri, UriParts};

verus! {

/// Whether a byte can stand in a header that is read as text: a printable ASCII
/// character, a space or a tab.
pub open spec fn visible(byte: u8) -> bool {
    32 <= byte < 127 || byte == 9
}

/// Bytes read as text, one character each.
pub open spec fn as_text(bytes: Seq<u8>) -> Seq<char> {
    bytes.map_values(|byte: u8| byte as char)
}

/// Reads the bytes of a header with [`http::HeaderValue::from_bytes`] and its `to_str`,
/// which gives the text exactly when all bytes are visible ASCII.
#[verifier::external_body]
fn header_text(bytes: &Vec<u8>) -> (text: Option<String>)
    ensures
        match text {
            Some(text) => (forall|i: int| 0 <= i < bytes@.len() ==> visible(#[trigger] bytes@[i]))
                && text@ == as_text(bytes@),
            None => !forall|i: int| 0 <= i < bytes@.len() ==> visible(#[trigger] bytes@[i]),
        },
{
    let value = http::HeaderValue::from_bytes(bytes).ok()?;
    value.to_str().ok().map(|text| text.to_owned())
}

/// The host that a request is for: what its `Host` header says, where it can be read,
/// and otherwise the host of its URI.
pub open spec fn host_of(uri: UriParts, header: Option<Seq<u8>>) -> Option<Seq<char>> {
    match header {
        Some(bytes) if forall|i: int| 0 <= i < bytes.len() ==> visible(#[trigger] bytes[i]) => Some(
            as_text(bytes),
        ),
        _ => match uri.authority {
            Some(authority) => Some(authority.host),
            None => None,
        },
    }
}

/// The bytes of a header, where there is one.
pub open spec fn header_bytes(header: Option<Vec<u8>>) -> Option<Seq<u8>> {
    match header {
        Some(bytes) => Some(bytes@),
        None => None,
    }
}

/// Finds the host that a request is for.
pub fn get_host(uri: &Uri, header: &Option<Vec<u8>>) -> (host: Option<String>)
    ensures
        match host_of(uri@, header_bytes(*header)) {
            Some(name) => host matches Some(host) && host@ == name,
            None => host is None,
        },
{
    if let Some(bytes) = header {
        if let Some(text) = header_text(bytes) {
            return Some(text);
        }
    }
    match uri.host() {
        Some(host) => Some(host.to_owned()),
        None => None,
    }
}

/// Whether a scheme asks for encryption.
pub open spec fn encrypted(scheme: Option<Seq<char>>) -> bool {
    scheme == Some("https"@) || scheme == Some("wss"@)
}

/// Whom to expect on the other side of an encrypted connection, where the scheme asks
/// for one.
pub fn get_tls_domain(uri: &Uri, header: &Option<Vec<u8>>) -> (domain: Option<String>)
    ensures
        if encrypted(uri@.scheme) {
            match host_of(uri@, header_bytes(*header)) {
                Some(name) => domain matches Some(domain) && domain@ == name,
                None => domain is None,
            }
        } else {
            domain is None
        },
{
    match &uri.scheme {
        Some(scheme) => if *scheme == Scheme::https() {
            get_host(uri, header)
        } else if text::same(scheme.as_str(), "wss") {
            get_host(uri, header)
        } else {
            None
        },
        None => None,
    }
}

/// A transport which requires TLS over the connection regardless of the protocol
/// settings.
#[derive(Debug)]
pub struct HttpTlsTransport<T, K> {
    transport: TlsTransportWrapper<T, K>,
}

impl<T, K> HttpTlsTransport<T, K> {
    /// The transport and the configuration.
    pub closed spec fn parts(self) -> (T, K) {
        self.transport.parts()
    }

    /// A transport that applies TLS with HTTP semantics for identifying the target
    /// hostname
    pub fn new(transport: T, config: K) -> (wrapped: Self)
        ensures
            wrapped.parts() == (transport, config),
    {
        HttpTlsTransport { transport: TlsTransportWrapper::new(transport, config) }
    }

    /// Whom to expect on the other side for a request, where that is known.
    pub fn call(&self, uri: &Uri, header: &Option<Vec<u8>>) -> (domain: Option<String>)
        ensures
            if encrypted(uri@.scheme) {
                match host_of(uri@, header_bytes(*header)) {
                    Some(name) => domain matches Some(domain) && domain@ == name,
                    None => domain is None,
                }
            } else {
                domain is None
            },
    {
        get_tls_domain(uri, header)
    }
}

impl<T: Clone, K: Clone> Clone for HttpTlsTransport<T, K> {
    fn clone(&self) -> (copy: Self)
        ensures
            cloned(self.parts().0, copy.parts().0),
            cloned(self.parts().1, copy.parts().1),
    {
        HttpTlsTransport { transport: self.transport.clone() }
    }
}

/// A transport, with or without TLS.
#[derive(Debug)]
enum InnerBraid<T, K> {
    Plain(T),
    Tls(TlsTransportWrapper<T, K>),
}

/// A transport that can be used to connect to a remote server, with optional TLS
/// support: a transport `T` with a configuration `K`.
#[derive(Debug)]
pub struct AutoTlsTransport<T, K> {
    braid: InnerBraid<T, K>,
}

impl<T: Clone, K: Clone> Clone for AutoTlsTransport<T, K> {
    fn clone(&self) -> (copy: Self)
        ensures
            cloned(self.parts().0, copy.parts().0),
            match self.parts().1 {
                Some(config) => copy.parts().1 matches Some(same) && cloned(config, same),
                None => copy.parts().1 is None,
            },
    {
        let braid = match &self.braid {
            InnerBraid::Plain(transport) => InnerBraid::Plain(transport.clone()),
            InnerBraid::Tls(transport) => InnerBraid::Tls(transport.clone()),
        };
        AutoTlsTransport { braid }
    }
}

/// How to connect for a request.
#[derive(Debug)]
pub enum BraidPlan {
    /// Without encryption.
    Plain,
    /// With encryption, and this host on the other side.
    Tls(String),
}

impl<T, K> AutoTlsTransport<T, K> {
    /// The transport, and the configuration where TLS is enabled.
    pub closed spec fn parts(self) -> (T, Option<K>) {
        match self.braid {
            InnerBraid::Plain(inner) => (inner, None),
            InnerBraid::Tls(wrapped) => (wrapped.parts().0, Some(wrapped.parts().1)),
        }
    }

    /// A transport that can be used to connect to a remote server, without TLS.
    pub fn new(transport: T) -> (auto_tls: Self)
        ensures
            auto_tls.parts() == (transport, None::<K>),
    {
        AutoTlsTransport { braid: InnerBraid::Plain(transport) }
    }

    /// Enable TLS on the transport with the given config.
    pub fn with_tls(self, config: K) -> (auto_tls: Self)
        ensures
            auto_tls.parts() == (self.parts().0, Some(config)),
    {
        let inner = match self.braid {
            InnerBraid::Plain(inner) => inner,
            InnerBraid::Tls(transport) => transport.into_parts().0,
        };
        AutoTlsTransport { braid: InnerBraid::Tls(TlsTransportWrapper::new(inner, config)) }
    }

    /// Optionally enable TLS on the transport with the given config.
    pub fn with_optional_tls(self, config: Option<K>) -> (auto_tls: Self)
        ensures
            auto_tls.parts() == (
                self.parts().0,
                if config is Some {
                    config
                } else {
                    self.parts().1
                },
            ),
    {
        match config {
            Some(config) => self.with_tls(config),
            None => self,
        }
    }

    /// Unwrap the inner transport.
    pub fn into_inner(self) -> (inner: T)
        ensures
            inner == self.parts().0,
    {
        match self.braid {
            InnerBraid::Plain(inner) => inner,
            InnerBraid::Tls(transport) => transport.into_parts().0,
        }
    }

    /// Unwrap the inner transport and the TLS config.
    pub fn into_parts(self) -> (parts: (T, Option<K>))
        ensures
            parts == self.parts(),
    {
        match self.braid {
            InnerBraid::Plain(inner) => (inner, None),
            InnerBraid::Tls(transport) => {
                let (inner, config) = transport.into_parts();
                (inner, Some(config))
            },
        }
    }

    /// Get the TLS config.
    pub fn tls_config(&self) -> (config: Option<&K>)
        ensures
            match config {
                Some(config) => self.parts().1 == Some(*config),
                None => self.parts().1 is None,
            },
    {
        match &self.braid {
            InnerBraid::Plain(_) => None,
            InnerBraid::Tls(transport) => Some(transport.config()),
        }
    }

    /// Get a reference to the inner transport.
    pub fn inner(&self) -> (inner: &T)
        ensures
            inner == self.parts().0,
    {
        match &self.braid {
            InnerBraid::Plain(inner) => inner,
            InnerBraid::Tls(transport) => transport.transport(),
        }
    }

    /// Get a mutable reference to the inner transport.
    pub fn inner_mut(&mut self) -> (inner: &mut T)
        ensures
            *inner == old(self).parts().0,
            final(self).parts() == (*final(inner), old(self).parts().1),
    {
        match &mut self.braid {
            InnerBraid::Plain(inner) => inner,
            InnerBraid::Tls(transport) => transport.transport_mut(),
        }
    }

    /// How to connect for a request: with TLS where it is enabled, the scheme asks for
    /// it, and it is known whom to expect.
    pub fn call(&self, uri: &Uri, header: &Option<Vec<u8>>) -> (plan: BraidPlan)
        ensures
            match host_of(uri@, header_bytes(*header)) {
                Some(name) if self.parts().1 is Some && encrypted(uri@.scheme) => plan matches
                    BraidPlan::Tls(domain) && domain@ == name,
                _ => plan is Plain,
            },
    {
        let domain = get_tls_domain(uri, header);
        match (&self.braid, domain) {
            (InnerBraid::Plain(_), _) => BraidPlan::Plain,
            (InnerBraid::Tls(_), Some(domain)) => BraidPlan::Tls(domain),
            (InnerBraid::Tls(_), None) => BraidPlan::Plain,
        }
    }
}

/// The host of a request is what its `Host` header says, where every byte of that is printed
/// ASCII, a space or a tab; otherwise it is the host of its URI, and there is none where that
/// has no authority.
pub proof fn law_header_names_the_host(
    uri: Uri,
    bytes: Vec<u8>,
    told: Option<String>,
    untold: Option<String>,
)
    requires
        call_ensures(get_host, (&uri, &Some(bytes)), told),
        call_ensures(get_host, (&uri, &None::<Vec<u8>>), untold),
    ensures
        (forall|i: int|
            0 <= i < bytes@.len() ==> (32 <= #[trigger] bytes@[i] <= 126 || bytes@[i] == 9))
            ==> (told matches Some(host) && host@.len() == bytes@.len() && forall|i: int|
            0 <= i < bytes@.len() ==> #[trigger] host@[i] as int == bytes@[i] as int),
        (exists|i: int|
            0 <= i < bytes@.len() && !(32 <= #[trigger] bytes@[i] <= 126 || bytes@[i] == 9)) ==> {
            &&& told is Some <==> uri.authority is Some
            &&& told matches Some(host) ==> host@ == uri.authority->0@.host
        },
        untold is Some <==> uri.authority is Some,
        untold matches Some(host) ==> host@ == uri.authority->0@.host,
{
    if forall|i: int|
        0 <= i < bytes@.len() ==> (32 <= #[trigger] bytes@[i] <= 126 || bytes@[i] == 9) {
        assert(forall|i: int| 0 <= i < bytes@.len() ==> visible(#[trigger] bytes@[i]));
        assert(told->0@ == as_text(bytes@));
        assert forall|i: int| 0 <= i < bytes@.len() implies #[trigger] told->0@[i] as int
            == bytes@[i] as int by {
            assert(told->0@[i] == bytes@[i] as char);
        }
    } else {
        let i = choose|i: int|
            0 <= i < bytes@.len() && !(32 <= #[trigger] bytes@[i] <= 126 || bytes@[i] == 9);
        assert(!visible(bytes@[i]));
    }
}

/// Who is expected on the other side is the host of the request, and that is asked for by the
/// schemes `https` and `wss` alone.
pub proof fn law_schemes_ask_for_encryption<T, K>(
    uri: Uri,
    header: Option<Vec<u8>>,
    host: Option<String>,
    domain: Option<String>,
    transport: HttpTlsTransport<T, K>,
    called: Option<String>,
)
    requires
        call_ensures(get_host, (&uri, &header), host),
        call_ensures(get_tls_domain, (&uri, &header), domain),
        call_ensures(HttpTlsTransport::<T, K>::call, (&transport, &uri, &header), called),
    ensures
        domain is Some <==> host is Some && uri.scheme is Some && (uri.scheme->0@ == seq![
            'h',
            't',
            't',
            'p',
            's',
        ] || uri.scheme->0@ == seq!['w', 's', 's']),
        domain is Some ==> domain->0@ == host->0@,
        called is Some <==> domain is Some,
        called is Some ==> called->0@ == host->0@,
{
    reveal_strlit("https");
    reveal_strlit("wss");
    assert("https"@ =~= seq!['h', 't', 't', 'p', 's']);
    assert("wss"@ =~= seq!['w', 's', 's']);
}

/// A transport encrypts where it was given a configuration, and then for requests that ask
/// for it and whose host is known; it never encrypts without one.
pub proof fn law_configuration_enables_encryption<T, K>(
    inner: T,
    config: K,
    plain: AutoTlsTransport<T, K>,
    encrypting: AutoTlsTransport<T, K>,
    uri: Uri,
    header: Option<Vec<u8>>,
    domain: Option<String>,
    without: BraidPlan,
    with: BraidPlan,
)
    requires
        call_ensures(AutoTlsTransport::<T, K>::new, (inner,), plain),
        call_ensures(AutoTlsTransport::<T, K>::with_tls, (plain, config), encrypting),
        call_ensures(get_tls_domain, (&uri, &header), domain),
        call_ensures(AutoTlsTransport::<T, K>::call, (&plain, &uri, &header), without),
        call_ensures(AutoTlsTransport::<T, K>::call, (&encrypting, &uri, &header), with),
    ensures
        without is Plain,
        domain is None ==> with is Plain,
        domain is Some ==> (with matches BraidPlan::Tls(expected) && expected@ == domain->0@),
{
}

/// A transport keeps what it was made of: the transport inside through all changes of its
/// configuration, and the configuration that was set last, where one was.
pub proof fn law_transport_keeps_its_parts<T, K>(
    inner: T,
    first: K,
    second: Option<K>,
    plain: AutoTlsTransport<T, K>,
    configured: AutoTlsTransport<T, K>,
    last: AutoTlsTransport<T, K>,
    unset: Option<&K>,
    set: Option<&K>,
    found: &T,
    parts: (T, Option<K>),
    taken: T,
    before: T,
    other: T,
    changed: AutoTlsTransport<T, K>,
    left: (T, Option<K>),
)
    requires
        call_ensures(AutoTlsTransport::<T, K>::new, (inner,), plain),
        call_ensures(AutoTlsTransport::<T, K>::tls_config, (&plain,), unset),
        call_ensures(AutoTlsTransport::<T, K>::with_tls, (plain, first), configured),
        call_ensures(AutoTlsTransport::<T, K>::with_optional_tls, (configured, second), last),
        call_ensures(AutoTlsTransport::<T, K>::tls_config, (&last,), set),
        call_ensures(AutoTlsTransport::<T, K>::inner, (&last,), found),
        call_ensures(AutoTlsTransport::<T, K>::into_parts, (last,), parts),
        call_ensures(AutoTlsTransport::<T, K>::into_inner, (last,), taken),
        exists|m: &mut AutoTlsTransport<T, K>, place: &mut T|
            *m == last && *final(m) == changed && *place == before && *final(place) == other
                && #[trigger] call_ensures(AutoTlsTransport::<T, K>::inner_mut, (m,), place),
        call_ensures(AutoTlsTransport::<T, K>::into_parts, (changed,), left),
    ensures
        unset is None,
        set is Some,
        second is Some ==> *set->0 == second->0,
        second is None ==> *set->0 == first,
        *found == inner,
        taken == inner,
        before == inner,
        parts == (inner, Some(*set->0)),
        left == (other, Some(*set->0)),
{
}

/// A copy of a transport encrypts as the transport does: it has a clone of the transport
/// inside, and a clone of the configuration exactly where there is one.
pub proof fn law_copied_transport_encrypts_too<T: Clone, K: Clone>(
    transport: AutoTlsTransport<T, K>,
    parts: (T, Option<K>),
    copy: AutoTlsTransport<T, K>,
    copied: (T, Option<K>),
    inner: T,
    config: K,
    always: HttpTlsTransport<T, K>,
    other: HttpTlsTransport<T, K>,
)
    requires
        call_ensures(AutoTlsTransport::<T, K>::into_parts, (transport,), parts),
        call_ensures(AutoTlsTransport::<T, K>::clone, (&transport,), copy),
        call_ensures(AutoTlsTransport::<T, K>::into_parts, (copy,), copied),
        call_ensures(HttpTlsTransport::<T, K>::new, (inner, config), always),
        call_ensures(HttpTlsTransport::<T, K>::clone, (&always,), other),
    ensures
        cloned(parts.0, copied.0),
        parts.1 is Some <==> copied.1 is Some,
        parts.1 is Some ==> cloned(parts.1->0, copied.1->0),
        always.parts() == (inner, config),
        cloned(inner, other.parts().0),
        cloned(config, other.parts().1),
{
}

} // verus!
