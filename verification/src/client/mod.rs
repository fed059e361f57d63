//! The client side: connections, transports, and the pool that shares them.
//!
//! A [`Client`] is built with a [`Builder`](builder::Builder). Underneath stands a
//! service that takes its connections from a [pool], and underneath that what
//! [connects](conn).

use vstd::prelude::*;

pub mod builder;
pub mod conn;
pub mod error;
pub mod pool;

use self::builder::{Builder, Identity, Settings, Standard, TlsChoice};
use self::conn::dns::GaiResolver;
use self::conn::protocol::auto::AlpnHttpConnectionBuilder;
use self::conn::transport::tcp::{self, HostFromUri, TcpTransport};
use self::pool::key::{UriError, UriKey};
use crate::body::Body;
use crate::text;
use crate::time::Duration;
use crate::uri::{self, Uri};

verus! {

/// Why there is no key for a URI.
#[derive(Debug)]
pub struct KeyError {
    message: String,
}

impl KeyError {
    /// What the error says.
    pub closed spec fn says(self) -> Seq<char> {
        self.message@
    }

    /// An error that says `message`.
    pub fn new(message: String) -> (error: Self)
        ensures
            error.says() == message@,
    {
        KeyError { message }
    }

    /// The error as text.
    pub fn to_string(&self) -> (shown: String)
        ensures
            shown@ == self.says(),
    {
        self.message.clone()
    }
}

/// The error that says why a URI has no key.
pub open spec fn key_message(error: UriError) -> Seq<char> {
    match error {
        UriError::InvalidUri(error) => error.message@,
        UriError::MissingScheme(target) => "Missing scheme in URI: "@ + uri::written(target@),
    }
}

fn key_error(error: UriError) -> (shown: KeyError)
    ensures
        shown.says() == key_message(error),
{
    match error {
        UriError::InvalidUri(error) => KeyError::new(error.message),
        UriError::MissingScheme(target) => KeyError::new(
            text::join("Missing scheme in URI: ", target.to_string().as_str()),
        ),
    }
}

/// The key under which a client pools the connections for a URI: its scheme and its
/// authority.
pub fn key_for(target: Uri) -> (key: Result<UriKey, KeyError>)
    ensures
        match target@.scheme {
            Some(scheme) => key matches Ok(key) && key.parts() == (scheme, target@.authority),
            None => key matches Err(error) && error.says() == "Missing scheme in URI: "@
                + uri::written(target@),
        },
{
    match UriKey::try_from(target) {
        Ok(key) => Ok(key),
        Err(error) => Err(key_error(error)),
    }
}

/// Reads a URI and makes the key under which a client pools the connections for it.
pub fn parse_key(target: &str) -> (key: Result<UriKey, KeyError>)
    ensures
        match uri::parsed_uri(target@) {
            Ok(parts) => match parts.scheme {
                Some(scheme) => key matches Ok(key) && key.parts() == (scheme, parts.authority),
                None => key matches Err(error) && error.says() == "Missing scheme in URI: "@
                    + uri::written(parts),
            },
            Err(message) => key matches Err(error) && error.says() == message,
        },
{
    match UriKey::parse(target) {
        Ok(key) => Ok(key),
        Err(error) => Err(key_error(error)),
    }
}

/// A request.
#[verifier::reject_recursive_types(E)]
pub struct Request<E> {
    /// The method.
    pub method: &'static str,
    /// The target.
    pub uri: Uri,
    /// The body.
    pub body: Body<E>,
}

/// A high-level HTTP client around a service.
#[derive(Debug)]
pub struct Client<S> {
    service: S,
}

impl<S> Client<S> {
    /// The service.
    pub closed spec fn spec_service(self) -> S {
        self.service
    }

    /// Create a new client from a raw service.
    ///
    /// It is much easier to use the builder interface to create a client.
    pub fn new_from_service(service: S) -> (client: Self)
        ensures
            client.spec_service() == service,
    {
        Client { service }
    }

    /// Unwrap the inner service from the client.
    pub fn into_inner(self) -> (service: S)
        ensures
            service == self.spec_service(),
    {
        self.service
    }

    /// The service to poll for readiness.
    pub fn service_mut(&mut self) -> (service: &mut S)
        ensures
            *service == old(self).spec_service(),
            final(self).spec_service() == *final(service),
    {
        &mut self.service
    }

    /// Takes out the service that a request is sent with, which is the one that has
    /// been polled for readiness, and leaves a clone of it.
    pub fn request(&mut self) -> (service: S) where S: Clone
        ensures
            service == old(self).spec_service(),
            cloned(old(self).spec_service(), final(self).spec_service()),
    {
        let mut service = self.service.clone();
        std::mem::swap(&mut service, &mut self.service);
        service
    }

    /// A GET request to the given URI. It has no body.
    pub fn get<E>(&self, uri: Uri) -> (request: Request<E>)
        ensures
            request.method@ == "GET"@,
            request.uri == uri,
            request.body.is_empty_kind(),
            request.body.bytes() == Some(Seq::<u8>::empty()),
    {
        Request { method: "GET", uri, body: Body::empty() }
    }

    /// Create a new, empty builder for clients.
    pub fn builder<L>() -> (builder: Builder<(), (), (), Standard, Identity, L>)
        ensures
            builder@ == (Settings::<(), (), (), Standard, Identity, L> {
                resolver: (),
                transport: (),
                protocol: (),
                layers: Identity,
                user_agent: None,
                redirect: None,
                timeout: None,
                tls: None,
                pool: None,
            }),
    {
        Builder::new()
    }

    /// Create a new client builder with default settings applied.
    pub fn build_tcp_http<L>() -> (builder: Builder<
        GaiResolver,
        TcpTransport<GaiResolver, HostFromUri>,
        AlpnHttpConnectionBuilder,
        Standard,
        Identity,
        L,
    >)
        ensures
            builder@.resolver == GaiResolver,
            tcp::is_default_config(builder@.transport.settings()),
            builder@.transport.parts() == (GaiResolver, HostFromUri),
            builder@.protocol == AlpnHttpConnectionBuilder,
            builder@.layers == Identity,
            builder@.redirect == Some(Standard),
            builder@.timeout == Some(Duration { nanos: 30_000_000_000 }),
            builder@.tls == Some(TlsChoice::<L>::Platform),
            builder@.pool matches Some(pool) && builder::is_default_pool(pool),
            builder@.user_agent is None,
    {
        Builder::default()
    }
}

impl<S: Clone> Clone for Client<S> {
    fn clone(&self) -> (copy: Self)
        ensures
            cloned(self.spec_service(), copy.spec_service()),
    {
        Client { service: self.service.clone() }
    }
}

/// The key under which connections for a URI are pooled has its scheme and its authority;
/// a URI without a scheme has no key, and the error says so and shows it.
pub proof fn law_client_key_is_scheme_and_authority(target: Uri, key: Result<UriKey, KeyError>)
    requires
        call_ensures(key_for, (target,), key),
    ensures
        key is Ok <==> target@.scheme is Some,
        key matches Ok(key) ==> {
            &&& target@.scheme == Some(key.0@)
            &&& key.1 is Some <==> target@.authority is Some
            &&& key.1 matches Some(authority) ==> target@.authority == Some(authority@)
        },
        key matches Err(error) ==> error.says() == "Missing scheme in URI: "@ + uri::written(
            target@,
        ),
{
}

/// A request is sent with the service that has been polled for readiness, and the next one
/// with a clone of it.
pub proof fn law_ready_service_sends_the_request<S: Clone>(
    before: Client<S>,
    service: S,
    after: Client<S>,
)
    requires
        exists|client: &mut Client<S>|
            *client == before && *final(client) == after && #[trigger] call_ensures(
                Client::<S>::request,
                (client,),
                service,
            ),
    ensures
        service == before.spec_service(),
        cloned(service, after.spec_service()),
{
}

/// A GET request goes to the URI that it is made for, and has no body.
pub proof fn law_get_goes_to_its_uri<S, E>(client: Client<S>, uri: Uri, request: Request<E>)
    requires
        call_ensures(Client::<S>::get::<E>, (&client, uri), request),
    ensures
        request.method@ == "GET"@,
        request.uri == uri,
        request.body.bytes() == Some(Seq::<u8>::empty()),
{
}

/// A client keeps the service that it was made from, and takes what is put in its place.
pub proof fn law_client_keeps_its_service<S>(
    service: S,
    client: Client<S>,
    inner: S,
    before: S,
    other: S,
    changed: Client<S>,
    last: S,
)
    requires
        call_ensures(Client::<S>::new_from_service, (service,), client),
        call_ensures(Client::<S>::into_inner, (client,), inner),
        exists|m: &mut Client<S>, place: &mut S|
            *m == client && *final(m) == changed && *place == before && *final(place) == other
                && #[trigger] call_ensures(Client::<S>::service_mut, (m,), place),
        call_ensures(Client::<S>::into_inner, (changed,), last),
    ensures
        inner == service,
        before == service,
        last == other,
{
}

/// A text is read as the URI that stands in it, and has the key of that URI; a text that is
/// none has no key, and the error says why.
pub proof fn law_text_has_the_key_of_its_uri(
    text: &str,
    read: Result<Uri, uri::InvalidUri>,
    key: Result<UriKey, KeyError>,
    of_uri: Result<UriKey, KeyError>,
    shown: String,
)
    requires
        call_ensures(Uri::parse, (text,), read),
        call_ensures(parse_key, (text,), key),
        read is Ok ==> call_ensures(key_for, (read->Ok_0,), of_uri),
        key is Err ==> call_ensures(KeyError::to_string, (&key->Err_0,), shown),
    ensures
        read is Ok ==> (key is Ok <==> of_uri is Ok),
        read is Ok && key is Ok ==> key->Ok_0.0@ == of_uri->Ok_0.0@ && (key->Ok_0.1 is Some
            <==> of_uri->Ok_0.1 is Some) && (key->Ok_0.1 is Some ==> key->Ok_0.1->0@
            == of_uri->Ok_0.1->0@),
        read is Err ==> key is Err && shown@ == read->Err_0.message@,
        read is Ok && key is Err ==> read->Ok_0.scheme is None,
{
    if read is Ok && key is Ok {
        assert(key->Ok_0.parts() == of_uri->Ok_0.parts());
    }
}

/// A client over TCP begins with encryption, redirects, a pool and half a minute for each
/// request; an empty one begins with nothing.
pub proof fn law_builders_begin_as_named<S, L>(
    empty: Builder<(), (), (), Standard, Identity, L>,
    tcp: Builder<
        GaiResolver,
        TcpTransport<GaiResolver, HostFromUri>,
        AlpnHttpConnectionBuilder,
        Standard,
        Identity,
        L,
    >,
)
    requires
        call_ensures(Client::<S>::builder::<L>, (), empty),
        call_ensures(Client::<S>::build_tcp_http::<L>, (), tcp),
    ensures
        empty@.tls is None && empty@.pool is None && empty@.timeout is None
            && empty@.redirect is None && empty@.user_agent is None,
        tcp@.tls == Some(TlsChoice::<L>::Platform),
        tcp@.redirect == Some(Standard),
        tcp@.timeout matches Some(limit) && limit.nanos == 30 * 1_000_000_000,
        tcp@.pool matches Some(pool) && pool.max_idle_per_host == 32
            && pool.continue_after_preemption,
        tcp@.user_agent is None,
{
}

/// A copy of a client has a clone of its service.
pub proof fn law_copied_client_has_the_same_service<S: Clone>(
    client: Client<S>,
    service: S,
    copy: Client<S>,
    copied: S,
)
    requires
        call_ensures(Client::<S>::into_inner, (client,), service),
        call_ensures(Client::<S>::clone, (&client,), copy),
        call_ensures(Client::<S>::into_inner, (copy,), copied),
    ensures
        cloned(service, copied),
{
}

} // verus!
