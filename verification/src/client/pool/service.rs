//! A service that takes its connections from a pool.

use tokio::sync::oneshot::{Receiver, Sender};
use vstd::prelude::*;
use vstd::std_specs::cmp::*;
use vstd::std_specs::convert::*;

use crate::client::conn::connector::{
    Connector, ConnectorEvent, ConnectorState, ConnectorStep, ResponseFuture, ResponseFutureState,
};
use crate::client::conn::protocol::HttpProtocol;
use crate::client::pool::checkout::{Checkout, CheckoutId, InnerCheckoutConnecting, Waiting};
use crate::client::pool::key::{self, Key, Token, TokenMap, UriError, UriKey};
use crate::client::pool::{self, Config, Pool, PoolInner, PoolRef, PoolableConnection, Pooled};
use crate::counter::{self, Counter};
use crate::poll::Poll;
use crate::text;
use crate::time::{Duration, Instant};
use crate::uri::Uri;

verus! {

/// Makes services that take their connections from a pool.
#[derive(Debug)]
pub struct ConnectionPoolLayer<T, P> {
    transport: T,
    protocol: P,
    pool: Option<Config>,
}

impl<T, P> ConnectionPoolLayer<T, P> {
    /// The transport and the protocol of the connections.
    pub closed spec fn parts(self) -> (T, P) {
        (self.transport, self.protocol)
    }

    /// The configuration of the pool, where there is one.
    pub closed spec fn spec_pool(self) -> Option<Config> {
        self.pool
    }

    /// A layer without a pool.
    pub fn new(transport: T, protocol: P) -> (layer: Self)
        ensures
            layer.parts() == (transport, protocol),
            layer.spec_pool() is None,
    {
        ConnectionPoolLayer { transport, protocol, pool: None }
    }

    /// Set the connection pool configuration.
    pub fn with_pool(self, pool: Config) -> (layer: Self)
        ensures
            layer.parts() == self.parts(),
            layer.spec_pool() == Some(pool),
    {
        ConnectionPoolLayer { pool: Some(pool), ..self }
    }

    /// Set the connection pool configuration to an optional value.
    pub fn with_optional_pool(self, pool: Option<Config>) -> (layer: Self)
        ensures
            layer.parts() == self.parts(),
            layer.spec_pool() == pool,
    {
        ConnectionPoolLayer { pool, ..self }
    }

    /// Disable connection pooling.
    pub fn without_pool(self) -> (layer: Self)
        ensures
            layer.parts() == self.parts(),
            layer.spec_pool() is None,
    {
        ConnectionPoolLayer { pool: None, ..self }
    }

    /// A service around `service`, with a pool of its own where the layer has a
    /// configuration for one.
    pub fn layer<S, C, K>(&self, service: S) -> (layered: ConnectionPoolService<T, P, S, C, K>) where
        T: Clone,
        P: Clone,

        ensures
            cloned(self.parts().0, layered.transport),
            cloned(self.parts().1, layered.protocol),
            layered.service == service,
            layered.starts_with(self.spec_pool()),
    {
        ConnectionPoolService {
            transport: self.transport.clone(),
            protocol: self.protocol.clone(),
            service,
            pool: match self.pool {
                Some(config) => Some(Pool::new(config)),
                None => None,
            },
            ids: Counter::new(),
        }
    }
}

impl<T: Clone, P: Clone> Clone for ConnectionPoolLayer<T, P> {
    fn clone(&self) -> (copy: Self)
        ensures
            cloned(self.parts().0, copy.parts().0),
            cloned(self.parts().1, copy.parts().1),
            copy.spec_pool() == self.spec_pool(),
    {
        ConnectionPoolLayer {
            transport: self.transport.clone(),
            protocol: self.protocol.clone(),
            pool: self.pool,
        }
    }
}

/// A service which gets a connection from a possible connection pool and passes it to
/// an inner service to execute a request on it.
///
/// The service owns its pool, so it has no copies: those who are to share the pool
/// share the service.
#[derive(Debug)]
#[verifier::reject_recursive_types(C)]
pub struct ConnectionPoolService<T, P, S, C, K> {
    /// What connects.
    pub transport: T,
    /// What is spoken on a connection.
    pub protocol: P,
    /// What executes requests.
    pub service: S,
    /// The pool, where there is one.
    pub pool: Option<Pool<C, K>>,
    /// Numbers for checkouts without a pool.
    pub ids: Counter,
}

/// Whether a protocol lets several requests share a connection.
pub open spec fn multiplexes(version: HttpProtocol) -> bool {
    version == HttpProtocol::Http2
}

/// A connector to `uri` with clones of the given transport and protocol.
pub open spec fn connects_to<T: Clone, P: Clone, IO>(
    transport: T,
    protocol: P,
    uri: Uri,
    version: HttpProtocol,
    connector: Connector<Uri, T, P, IO>,
) -> bool {
    &&& connector.version == Some(version)
    &&& !connector.shareable
    &&& connector.state matches ConnectorState::PollReadyTransport {
        address,
        transport: connecting,
        protocol: speaking,
    }
    &&& address == uri
    &&& cloned(transport, connecting)
    &&& cloned(protocol, speaking)
}

impl<T, P, S, C, K> ConnectionPoolService<T, P, S, C, K> {
    /// Whether the pool, where there is one, is in order.
    pub open spec fn valid(self) -> bool {
        self.pool matches Some(pool) ==> pool.keys.valid()
    }

    /// Whether the service has a new pool with the given configuration, or none.
    pub open spec fn starts_with(self, config: Option<Config>) -> bool {
        &&& self.valid()
        &&& self.ids.upcoming() == 1
        &&& match config {
            Some(config) => {
                &&& self.pool matches Some(pool)
                &&& pool.inner.config() == config
                &&& pool.inner.clock().started()
                &&& pool.inner.connecting() == Set::<usize>::empty()
                &&& pool.inner.waiting().dom() == Set::<usize>::empty()
                &&& pool.inner.idle().dom() == Set::<usize>::empty()
                &&& pool.keys.entries() == Seq::<(K, Token)>::empty()
                &&& pool.ids.upcoming() == 1
            },
            None => self.pool is None,
        }
    }

    /// A service with a pool.
    pub fn new(transport: T, protocol: P, service: S, pool: Config) -> (made: Self)
        ensures
            made.transport == transport,
            made.protocol == protocol,
            made.service == service,
            made.starts_with(Some(pool)),
    {
        ConnectionPoolService {
            transport,
            protocol,
            service,
            pool: Some(Pool::new(pool)),
            ids: Counter::new(),
        }
    }

    /// The same service without a pool.
    pub fn without_pool(self) -> (made: Self)
        ensures
            made == (ConnectionPoolService { pool: None, ..self }),
    {
        ConnectionPoolService { pool: None, ..self }
    }

    /// A service for requests over TCP: idle connections are kept for a minute and a
    /// half, 32 of them for each host.
    pub fn new_tcp_http(transport: T, protocol: P, service: S) -> (made: Self)
        ensures
            made.transport == transport,
            made.protocol == protocol,
            made.service == service,
            made.starts_with(
                Some(
                    Config {
                        idle_timeout: Some(Duration { nanos: 90_000_000_000 }),
                        max_idle_per_host: 32,
                        continue_after_preemption: true,
                    },
                ),
            ),
    {
        ConnectionPoolService::new(
            transport,
            protocol,
            service,
            Config {
                idle_timeout: Some(Duration::from_secs(90)),
                max_idle_per_host: 32,
                continue_after_preemption: true,
            },
        )
    }
}

impl<
    T: Clone,
    P: Clone,
    S: Clone,
    C: PoolableConnection,
    K: Key,
> ConnectionPoolService<T, P, S, C, K> {
    /// Whether `checkout` is what a service in the state `before` gives for a request to
    /// `uri`: one from the pool under the key of the URI, or one without a pool.
    pub open spec fn checks_out<IO>(
        before: Self,
        uri: Uri,
        version: HttpProtocol,
        after: Self,
        checkout: Checkout<C, Connector<Uri, T, P, IO>>,
    ) -> bool {
        &&& after.transport == before.transport
        &&& after.protocol == before.protocol
        &&& after.service == before.service
        &&& match before.pool {
            Some(pool) => {
                &&& after.pool matches Some(left)
                &&& after.ids == before.ids
                &&& K::obeys_eq_spec() ==> exists|key: K|
                    {
                        &&& K::keys(uri, Ok(key))
                        &&& #[trigger] TokenMap::inserted(pool.keys, key, left.keys, checkout.token)
                    }
                &&& left.ids.upcoming() == counter::after(checkout.id.0)
                &&& checkout.id.0 == pool.ids.upcoming()
                &&& exists|connector: Connector<Uri, T, P, IO>|
                    {
                        &&& connects_to(
                            before.transport,
                            before.protocol,
                            uri,
                            version,
                            connector,
                        )
                        &&& #[trigger] pool::checked_out(
                            pool.inner,
                            checkout.token,
                            multiplexes(version),
                            connector,
                            left.inner,
                            checkout,
                        )
                    }
            },
            None => {
                &&& after.pool is None
                &&& after.ids.upcoming() == counter::after(before.ids.upcoming())
                &&& checkout.token.index() == 0
                &&& checkout.pool == PoolRef::Detached
                &&& checkout.waiter == Waiting::<C>::NoPool
                &&& checkout.connection is None
                &&& checkout.id.0 == before.ids.upcoming()
                &&& checkout.inner matches InnerCheckoutConnecting::Connecting(connector)
                    && connects_to(before.transport, before.protocol, uri, version, connector)
            },
        }
    }

    /// A checkout for a connection to `uri`. A URI that makes no key is an error, and
    /// changes nothing.
    pub fn connect_to<IO>(&mut self, uri: Uri, version: HttpProtocol) -> (checkout: Result<
        Checkout<C, Connector<Uri, T, P, IO>>,
        UriError,
    >)
        requires
            old(self).valid(),
        ensures
            final(self).valid(),
            match checkout {
                Ok(checkout) => {
                    &&& exists|key: K| K::keys(uri, Ok(key))
                    &&& Self::checks_out(*old(self), uri, version, *final(self), checkout)
                },
                Err(error) => K::keys(uri, Err(error)) && *final(self) == *old(self),
            },
    {
        let key = match K::build_key(&uri) {
            Ok(key) => key,
            Err(error) => {
                return Err(error);
            },
        };
        assert(K::keys(uri, Ok(key)));
        let connector = Connector::new(
            self.transport.clone(),
            self.protocol.clone(),
            uri,
            version,
        );
        assert(connects_to(self.transport, self.protocol, uri, version, connector));
        let ghost before = *self;
        match &mut self.pool {
            Some(pool) => {
                let ghost keys = pool.keys;
                let ghost inner = pool.inner;
                let multiplex = version.multiplex();
                let checkout = pool.checkout(key, multiplex, connector);
                assert(before.pool->0.keys == keys && before.pool->0.inner == inner);
                assert(multiplex == multiplexes(version));
                assert(pool::checked_out(
                    inner,
                    checkout.token,
                    multiplexes(version),
                    connector,
                    self.pool->0.inner,
                    checkout,
                ));
                Ok(checkout)
            },
            None => {
                let id = CheckoutId::new(&mut self.ids);
                Ok(Checkout::detached(Token::zero(), connector, id))
            },
        }
    }

    /// Begins a request: it waits for its checkout, or fails where there is none.
    pub fn call<Q, IO, X>(&mut self, uri: Uri, version: HttpProtocol, request: Q) -> (future:
        ResponseFuture<Checkout<C, Connector<Uri, T, P, IO>>, Q, S, X>) where X: From<UriError>
        requires
            old(self).valid(),
        ensures
            final(self).valid(),
            match future.inner {
                ResponseFutureState::Connect { connector, request: sent, service } => {
                    &&& exists|key: K| K::keys(uri, Ok(key))
                    &&& sent == request
                    &&& cloned(old(self).service, service)
                    &&& Self::checks_out(*old(self), uri, version, *final(self), connector)
                },
                ResponseFutureState::ConnectionError(error) => {
                    &&& *final(self) == *old(self)
                    &&& exists|cause: UriError|
                        {
                            &&& #[trigger] K::keys(uri, Err(cause))
                            &&& X::obeys_from_spec() ==> error == X::from_spec(cause)
                        }
                },
                ResponseFutureState::Request => false,
            },
    {
        let service = self.service.clone();
        match self.connect_to(uri, version) {
            Ok(checkout) => ResponseFuture::new(checkout, request, service),
            Err(error) => ResponseFuture::error(X::from(error)),
        }
    }
}

/// A request is sent in the version that it asks for. Where its checkout makes an
/// attempt of its own, which it does where nothing is idle and nothing under way, or
/// where there is no pool, the attempt connects a clone of the transport to the URI of
/// the request and speaks a clone of the protocol. Driven to the handshake, it starts
/// the protocol in the version that was asked for, on the stream that the transport
/// made.
pub proof fn law_request_is_sent_in_its_version<
    T: Clone,
    P: Clone,
    S: Clone,
    C: PoolableConnection,
    K: Key,
    IO,
    CE,
    TE,
    PE,
>(
    before: ConnectionPoolService<T, P, S, C, K>,
    uri: Uri,
    version: HttpProtocol,
    after: ConnectionPoolService<T, P, S, C, K>,
    checkout: Checkout<C, Connector<Uri, T, P, IO>>,
    connector: Connector<Uri, T, P, IO>,
    first: ConnectorStep<Uri, T, P, IO, CE, TE, PE>,
    stream: IO,
    share: bool,
    second: ConnectorStep<Uri, T, P, IO, CE, TE, PE>,
    third: ConnectorStep<Uri, T, P, IO, CE, TE, PE>,
)
    requires
        before.valid(),
        exists|service: &mut ConnectionPoolService<T, P, S, C, K>|
            *service == before && *final(service) == after && #[trigger] call_ensures(
                ConnectionPoolService::<T, P, S, C, K>::connect_to::<IO>,
                (service, uri, version),
                Ok(checkout),
            ),
        checkout.inner == InnerCheckoutConnecting::Connecting(connector) || checkout.inner
            == InnerCheckoutConnecting::ConnectingWithDelayDrop(Some(connector)),
        call_ensures(
            Connector::<Uri, T, P, IO>::advance_with::<CE, TE, PE>,
            (connector, ConnectorEvent::TransportReady(Poll::Ready(Ok(()))), false),
            first,
        ),
        call_ensures(
            Connector::<Uri, T, P, IO>::advance_with::<CE, TE, PE>,
            (first->Connect_connector, ConnectorEvent::Connected(Poll::Ready(Ok(stream))), share),
            second,
        ),
        call_ensures(
            Connector::<Uri, T, P, IO>::advance_with::<CE, TE, PE>,
            (second->PollProtocol_0, ConnectorEvent::ProtocolReady(Poll::Ready(Ok(()))), false),
            third,
        ),
    ensures
        connector.version == Some(version),
        first matches ConnectorStep::Connect { transport, address, .. } && cloned(
            before.transport,
            transport,
        ) && address == uri,
        second is PollProtocol,
        third matches ConnectorStep::Handshake { protocol, stream: on, version: spoken, notify, .. }
            && cloned(before.protocol, protocol) && on == stream && spoken == version && notify
            == share,
{
    let made = choose|made: Connector<Uri, T, P, IO>|
        before.pool is Some ==> {
            &&& connects_to(before.transport, before.protocol, uri, version, made)
            &&& #[trigger] pool::checked_out(
                before.pool->0.inner,
                checkout.token,
                multiplexes(version),
                made,
                after.pool->0.inner,
                checkout,
            )
        };
    if before.pool is Some {
        assert(pool::checked_out(
            before.pool->0.inner,
            checkout.token,
            multiplexes(version),
            made,
            after.pool->0.inner,
            checkout,
        ));
        assert(made == connector);
    }
}

/// Where the pool of a service has no idle connection to the host and none under way, or
/// where there is no pool, a request makes an attempt of its own, and others can share it
/// if and only if the request asks for HTTP/2. Where a connection is under way that can be
/// shared, and none is idle, the request waits for that.
pub proof fn law_request_connects_or_waits<
    T: Clone,
    P: Clone,
    S: Clone,
    C: PoolableConnection,
    K: Key,
    IO,
>(
    before: ConnectionPoolService<T, P, S, C, K>,
    uri: Uri,
    version: HttpProtocol,
    after: ConnectionPoolService<T, P, S, C, K>,
    checkout: Checkout<C, Connector<Uri, T, P, IO>>,
)
    requires
        before.valid(),
        exists|service: &mut ConnectionPoolService<T, P, S, C, K>|
            *service == before && *final(service) == after && #[trigger] call_ensures(
                ConnectionPoolService::<T, P, S, C, K>::connect_to::<IO>,
                (service, uri, version),
                Ok(checkout),
            ),
        before.pool matches Some(pool) ==> pool.inner.idle_at(checkout.token).len() == 0,
    ensures
        checkout.connection is None,
        before.pool is None ==> (checkout.inner is Connecting && checkout.pool
            == PoolRef::Detached && after.pool is None),
        before.pool matches Some(pool) ==> {
            let shared = pool.inner.connecting().contains(checkout.token.index());
            let shares = after.pool->0.inner.connecting().contains(checkout.token.index());
            &&& after.pool is Some
            &&& checkout.pool == PoolRef::Attached
            &&& shared ==> checkout.inner is Waiting
            &&& !shared ==> {
                &&& checkout.inner is Connecting || (checkout.inner is ConnectingWithDelayDrop
                    && checkout.inner->ConnectingWithDelayDrop_0 is Some)
                &&& shares <==> version == HttpProtocol::Http2
            }
        },
{
    if before.pool is Some {
        let pool = before.pool->0;
        let left = after.pool->0;
        let made = choose|made: Connector<Uri, T, P, IO>|
            {
                &&& connects_to(before.transport, before.protocol, uri, version, made)
                &&& #[trigger] pool::checked_out(
                    pool.inner,
                    checkout.token,
                    multiplexes(version),
                    made,
                    left.inner,
                    checkout,
                )
            };
        let (sender, receiver, now) = choose|
            sender: Sender<Pooled<C>>,
            receiver: Receiver<Pooled<C>>,
            now: Instant,
        |
            #[trigger] PoolInner::checked_out_at(
                pool.inner,
                checkout.token,
                multiplexes(version),
                made,
                sender,
                receiver,
                now,
                left.inner,
                checkout,
            );
        if checkout.connection is Some {
            pool::laws::law_pop_adds_no_idle_connection(
                pool.inner,
                checkout.token,
                now,
                left.inner,
                checkout.connection,
            );
        }
    }
}

/// A URI that makes no key gets no checkout, and changes nothing; any other gets one, and
/// the service keeps its transport, its protocol and what executes requests.
pub proof fn law_key_decides_whether_there_is_a_checkout<
    T: Clone,
    P: Clone,
    S: Clone,
    C: PoolableConnection,
    IO,
>(
    before: ConnectionPoolService<T, P, S, C, UriKey>,
    uri: Uri,
    version: HttpProtocol,
    after: ConnectionPoolService<T, P, S, C, UriKey>,
    outcome: Result<Checkout<C, Connector<Uri, T, P, IO>>, UriError>,
)
    requires
        before.valid(),
        exists|service: &mut ConnectionPoolService<T, P, S, C, UriKey>|
            *service == before && *final(service) == after && #[trigger] call_ensures(
                ConnectionPoolService::<T, P, S, C, UriKey>::connect_to::<IO>,
                (service, uri, version),
                outcome,
            ),
    ensures
        outcome is Ok <==> uri@.scheme is Some,
        outcome matches Err(error) ==> after == before && error is MissingScheme,
        after.transport == before.transport,
        after.protocol == before.protocol,
        after.service == before.service,
        after.pool is Some == before.pool is Some,
        after.valid(),
{
}

/// Two requests to one host on different ports are checked out under different tokens, so
/// neither gets a connection that was made for the other.
pub proof fn law_ports_are_checked_out_apart<
    T: Clone,
    P: Clone,
    S: Clone,
    C: PoolableConnection,
    IO,
>(
    before: ConnectionPoolService<T, P, S, C, UriKey>,
    uri: Uri,
    version: HttpProtocol,
    between: ConnectionPoolService<T, P, S, C, UriKey>,
    first: Checkout<C, Connector<Uri, T, P, IO>>,
    other_uri: Uri,
    other_version: HttpProtocol,
    after: ConnectionPoolService<T, P, S, C, UriKey>,
    second: Checkout<C, Connector<Uri, T, P, IO>>,
    host: Seq<char>,
    same_host: Seq<char>,
    port: u16,
    other_port: u16,
)
    requires
        before.valid(),
        before.pool is Some,
        before.pool->0.keys.entries().len() == 0,
        before.pool->0.keys.upcoming() == 1,
        exists|service: &mut ConnectionPoolService<T, P, S, C, UriKey>|
            *service == before && *final(service) == between && #[trigger] call_ensures(
                ConnectionPoolService::<T, P, S, C, UriKey>::connect_to::<IO>,
                (service, uri, version),
                Ok(first),
            ),
        exists|service: &mut ConnectionPoolService<T, P, S, C, UriKey>|
            *service == between && *final(service) == after && #[trigger] call_ensures(
                ConnectionPoolService::<T, P, S, C, UriKey>::connect_to::<IO>,
                (service, other_uri, other_version),
                Ok(second),
            ),
        uri@.authority is Some,
        other_uri@.authority is Some,
        uri@.authority->0.text == host + seq![':'] + text::digits(port as nat),
        other_uri@.authority->0.text == same_host + seq![':'] + text::digits(other_port as nat),
        host.len() == same_host.len(),
        port != other_port,
    ensures
        first.token != second.token,
{
    let one = choose|key: UriKey|
        {
            &&& UriKey::keys(uri, Ok(key))
            &&& #[trigger] TokenMap::inserted(
                before.pool->0.keys,
                key,
                between.pool->0.keys,
                first.token,
            )
        };
    let two = choose|key: UriKey|
        {
            &&& UriKey::keys(other_uri, Ok(key))
            &&& #[trigger] TokenMap::inserted(
                between.pool->0.keys,
                key,
                after.pool->0.keys,
                second.token,
            )
        };
    reveal_with_fuel(key::lookup, 3);
    assert(between.pool->0.keys.entries() =~= seq![(one, first.token)]);
    assert(between.pool->0.keys.entries().skip(1) =~= Seq::empty());
    key::lemma_ports_differ(one, two, host, same_host, port, other_port);
}

/// A layer gives a service clones of its transport and its protocol, the service that it is
/// laid around, and a pool with the configuration that was set last, or none where it was
/// taken away.
pub proof fn law_layer_gives_what_was_set<T: Clone, P: Clone, S, C, K>(
    transport: T,
    protocol: P,
    config: Config,
    optional: Option<Config>,
    made: ConnectionPoolLayer<T, P>,
    pooled: ConnectionPoolLayer<T, P>,
    chosen: ConnectionPoolLayer<T, P>,
    bare: ConnectionPoolLayer<T, P>,
    service: S,
    first: ConnectionPoolService<T, P, S, C, K>,
    second: ConnectionPoolService<T, P, S, C, K>,
    third: ConnectionPoolService<T, P, S, C, K>,
    fourth: ConnectionPoolService<T, P, S, C, K>,
)
    requires
        call_ensures(ConnectionPoolLayer::<T, P>::new, (transport, protocol), made),
        call_ensures(ConnectionPoolLayer::<T, P>::with_pool, (made, config), pooled),
        call_ensures(ConnectionPoolLayer::<T, P>::with_optional_pool, (pooled, optional), chosen),
        call_ensures(ConnectionPoolLayer::<T, P>::without_pool, (pooled,), bare),
        call_ensures(ConnectionPoolLayer::<T, P>::layer::<S, C, K>, (&made, service), first),
        call_ensures(ConnectionPoolLayer::<T, P>::layer::<S, C, K>, (&pooled, service), second),
        call_ensures(ConnectionPoolLayer::<T, P>::layer::<S, C, K>, (&chosen, service), third),
        call_ensures(ConnectionPoolLayer::<T, P>::layer::<S, C, K>, (&bare, service), fourth),
    ensures
        first.pool is None,
        second.pool is Some && second.pool->0.inner.config() == config,
        third.pool is Some <==> optional is Some,
        third.pool is Some ==> third.pool->0.inner.config() == optional->0,
        fourth.pool is None,
        cloned(transport, third.transport) && cloned(protocol, third.protocol),
        cloned(transport, fourth.transport) && cloned(protocol, fourth.protocol),
        second.service == service,
        cloned(transport, second.transport),
        cloned(protocol, second.protocol),
        forall|token: Token| #[trigger] second.pool->0.inner.idle_at(token).len() == 0,
{
}

/// A service is made of what it is given, with a pool of its own; for TCP that keeps idle
/// connections for a minute and a half, 32 to a host. Taking the pool away leaves the rest.
pub proof fn law_service_has_its_pool<T, P, S, C, K>(
    transport: T,
    protocol: P,
    service: S,
    config: Config,
    made: ConnectionPoolService<T, P, S, C, K>,
    tcp: ConnectionPoolService<T, P, S, C, K>,
    bare: ConnectionPoolService<T, P, S, C, K>,
)
    requires
        call_ensures(
            ConnectionPoolService::<T, P, S, C, K>::new,
            (transport, protocol, service, config),
            made,
        ),
        call_ensures(
            ConnectionPoolService::<T, P, S, C, K>::new_tcp_http,
            (transport, protocol, service),
            tcp,
        ),
        call_ensures(ConnectionPoolService::<T, P, S, C, K>::without_pool, (made,), bare),
    ensures
        made.transport == transport && made.protocol == protocol && made.service == service,
        made.pool is Some && made.pool->0.inner.config() == config,
        tcp.transport == transport && tcp.protocol == protocol && tcp.service == service,
        tcp.pool is Some,
        tcp.pool->0.inner.config().idle_timeout matches Some(limit) && limit.nanos == 90
            * 1_000_000_000,
        tcp.pool->0.inner.config().max_idle_per_host == 32,
        tcp.pool->0.inner.config().continue_after_preemption,
        bare.pool is None,
        bare.transport == transport && bare.protocol == protocol && bare.service == service,
{
}

/// A request that is called waits, with a clone of the service, for a checkout of its own.
/// Where that makes an attempt, which it does without a pool, or where nothing is idle and
/// nothing under way, the attempt is to the URI of the request, in the version of the
/// request. A URI without a scheme is an error, and changes nothing.
pub proof fn law_called_request_waits_for_its_checkout<
    T: Clone,
    P: Clone,
    S: Clone,
    C: PoolableConnection,
    Q,
    IO,
    X: From<UriError>,
>(
    before: ConnectionPoolService<T, P, S, C, UriKey>,
    uri: Uri,
    version: HttpProtocol,
    request: Q,
    future: ResponseFuture<Checkout<C, Connector<Uri, T, P, IO>>, Q, S, X>,
    after: ConnectionPoolService<T, P, S, C, UriKey>,
)
    requires
        before.valid(),
        exists|m: &mut ConnectionPoolService<T, P, S, C, UriKey>|
            *m == before && *final(m) == after && #[trigger] call_ensures(
                ConnectionPoolService::<T, P, S, C, UriKey>::call::<Q, IO, X>,
                (m, uri, version, request),
                future,
            ),
    ensures
        uri.scheme is None ==> future.inner is ConnectionError && after == before,
        uri.scheme is Some ==> {
            &&& future.inner matches ResponseFutureState::Connect {
                connector: checkout,
                request: sent,
                service,
            }
            &&& sent == request
            &&& cloned(before.service, service)
            &&& before.pool is None ==> (checkout.inner matches InnerCheckoutConnecting::Connecting(
                connector,
            ) && connector.version == Some(version) && (connector.state matches
                ConnectorState::PollReadyTransport { address, .. } && address == uri))
            &&& before.pool matches Some(pool) ==> (pool.inner.idle_at(checkout.token).len() == 0
                && !pool.inner.connecting().contains(checkout.token.index()) ==> {
                let made = match checkout.inner {
                    InnerCheckoutConnecting::Connecting(connector) => Some(connector),
                    InnerCheckoutConnecting::ConnectingWithDelayDrop(connector) => connector,
                    _ => None,
                };
                &&& made matches Some(connector)
                &&& connector.version == Some(version)
                &&& connector.state matches ConnectorState::PollReadyTransport { address, .. }
                &&& address == uri
            })
        },
{
    if uri.scheme is Some && before.pool is Some {
        let checkout = future.inner->connector;
        let pool = before.pool->0;
        let left = after.pool->0;
        let made = choose|made: Connector<Uri, T, P, IO>|
            {
                &&& connects_to(before.transport, before.protocol, uri, version, made)
                &&& #[trigger] pool::checked_out(
                    pool.inner,
                    checkout.token,
                    multiplexes(version),
                    made,
                    left.inner,
                    checkout,
                )
            };
        let (sender, receiver, now) = choose|
            sender: Sender<Pooled<C>>,
            receiver: Receiver<Pooled<C>>,
            now: Instant,
        |
            #[trigger] PoolInner::checked_out_at(
                pool.inner,
                checkout.token,
                multiplexes(version),
                made,
                sender,
                receiver,
                now,
                left.inner,
                checkout,
            );
        if checkout.connection is Some && pool.inner.idle_at(checkout.token).len() == 0 {
            pool::laws::law_pop_adds_no_idle_connection(
                pool.inner,
                checkout.token,
                now,
                left.inner,
                checkout.connection,
            );
        }
    }
}

/// A copy of a layer gives what the layer gives: clones of its transport and its protocol,
/// and a pool of the same configuration.
pub proof fn law_copied_layer_gives_the_same<T: Clone, P: Clone>(
    layer: ConnectionPoolLayer<T, P>,
    copy: ConnectionPoolLayer<T, P>,
)
    requires
        call_ensures(ConnectionPoolLayer::<T, P>::clone, (&layer,), copy),
    ensures
        cloned(layer.parts().0, copy.parts().0),
        cloned(layer.parts().1, copy.parts().1),
        copy.spec_pool() == layer.spec_pool(),
{
}

} // verus!
