//! Transports that always encrypt.

use vstd::prelude::*;

use crate::info::TlsConnectionInfo;
use crate::poll::Poll;
use crate::uri::Uri;

verus! {

/// Why an encrypted connection could not be made.
#[derive(Debug, PartialEq, Eq)]
pub enum TlsConnectionError<E, H> {
    /// The transport underneath could not be connected.
    Connection(E),
    /// The handshake failed.
    Handshake(H),
    /// It is not known whom to expect on the other side.
    NoDomain,
}

/// Transport via TLS: a transport `T` with a configuration `K`.
#[derive(Debug)]
pub struct TlsTransportWrapper<T, K> {
    transport: T,
    config: K,
}

impl<T, K> TlsTransportWrapper<T, K> {
    /// The transport and the configuration.
    pub closed spec fn parts(self) -> (T, K) {
        (self.transport, self.config)
    }

    /// Create a new `TlsTransport`
    pub fn new(transport: T, config: K) -> (wrapped: Self)
        ensures
            wrapped.parts() == (transport, config),
    {
        TlsTransportWrapper { transport, config }
    }

    /// Returns the inner transport and the TLS configuration.
    pub fn into_parts(self) -> (parts: (T, K))
        ensures
            parts == self.parts(),
    {
        (self.transport, self.config)
    }

    /// Returns a reference to the inner transport.
    pub fn transport(&self) -> (transport: &T)
        ensures
            transport == self.parts().0,
    {
        &self.transport
    }

    /// Returns a mutable reference to the inner transport.
    pub fn transport_mut(&mut self) -> (transport: &mut T)
        ensures
            *transport == old(self).parts().0,
            final(self).parts() == (*final(transport), old(self).parts().1),
    {
        &mut self.transport
    }

    /// Returns a reference to the TLS configuration.
    pub fn config(&self) -> (config: &K)
        ensures
            config == self.parts().1,
    {
        &self.config
    }

    /// Begins to connect to `uri`, whose host is expected on the other side.
    pub fn call<S, E, H>(&self, uri: &Uri) -> (future: TlsConnectionFuture<K, S, E, H>) where K: Clone
        ensures
            match uri@.authority {
                Some(authority) => future.state matches TlsState::Connecting { config, domain }
                    && domain@ == authority.host && cloned(self.parts().1, config),
                None => future.state == (TlsState::<K, S, E, H>::Error {
                    error: TlsConnectionError::NoDomain,
                }),
            },
    {
        match uri.host() {
            Some(host) => TlsConnectionFuture::new(self.config.clone(), host.to_owned()),
            None => TlsConnectionFuture::error(TlsConnectionError::NoDomain),
        }
    }
}

impl<T: Clone, K: Clone> Clone for TlsTransportWrapper<T, K> {
    fn clone(&self) -> (copy: Self)
        ensures
            cloned(self.parts().0, copy.parts().0),
            cloned(self.parts().1, copy.parts().1),
    {
        TlsTransportWrapper { transport: self.transport.clone(), config: self.config.clone() }
    }
}

/// How far an encrypted connection has come: `K` is the configuration, and `S` the
/// encrypted stream.
#[derive(Debug)]
pub enum TlsState<K, S, E, H> {
    /// The transport is connecting.
    Connecting {
        /// How to encrypt.
        config: K,
        /// Whom to expect on the other side.
        domain: String,
    },
    /// The handshake is under way.
    Handshake {
        /// The stream on which it runs.
        stream: S,
    },
    /// There is an error to report.
    Error {
        /// The error.
        error: TlsConnectionError<E, H>,
    },
}

/// An encrypted connection in the making.
#[derive(Debug)]
pub struct TlsConnectionFuture<K, S, E, H> {
    /// How far it has come.
    pub state: TlsState<K, S, E, H>,
}

/// What came of the operation that an encrypted connection waits for; `IO` is the stream
/// of the transport.
#[derive(Debug)]
pub enum TlsEvent<IO, E, H> {
    /// What came of connecting the transport.
    Connected(Poll<Result<IO, E>>),
    /// What came of the handshake.
    Handshaken(Poll<Result<(), H>>),
}

/// What to do next for an encrypted connection.
#[derive(Debug)]
pub enum TlsStep<K, IO, S, E, H> {
    /// Nothing until the operation that is under way has moved on.
    Pending(TlsConnectionFuture<K, S, E, H>),
    /// Encrypt the stream, and start the handshake on it.
    Encrypt {
        /// The stream of the transport.
        stream: IO,
        /// How to encrypt.
        config: K,
        /// Whom to expect on the other side.
        domain: String,
    },
    /// The connection is made, or has failed.
    Done(Result<S, TlsConnectionError<E, H>>),
}

impl<K, S, E, H> TlsConnectionFuture<K, S, E, H> {
    /// A connection whose transport is connecting.
    pub fn new(config: K, domain: String) -> (future: Self)
        ensures
            future.state == (TlsState::<K, S, E, H>::Connecting { config, domain }),
    {
        TlsConnectionFuture { state: TlsState::Connecting { config, domain } }
    }

    /// A connection whose handshake is under way.
    pub fn handshaking(stream: S) -> (future: Self)
        ensures
            future.state == (TlsState::<K, S, E, H>::Handshake { stream }),
    {
        TlsConnectionFuture { state: TlsState::Handshake { stream } }
    }

    /// A connection that cannot be made.
    pub fn error(error: TlsConnectionError<E, H>) -> (future: Self)
        ensures
            future.state == (TlsState::<K, S, E, H>::Error { error }),
    {
        TlsConnectionFuture { state: TlsState::Error { error } }
    }

    /// Whether `event` is about the operation that the connection waits for. One that
    /// cannot be made waits for nothing.
    pub open spec fn expects<IO>(self, event: TlsEvent<IO, E, H>) -> bool {
        match self.state {
            TlsState::Connecting { .. } => event is Connected,
            TlsState::Handshake { .. } => event is Handshaken,
            TlsState::Error { .. } => true,
        }
    }

    /// What to do next after `event`.
    pub open spec fn next<IO>(self, event: TlsEvent<IO, E, H>) -> TlsStep<K, IO, S, E, H> {
        match (self.state, event) {
            (TlsState::Error { error }, _) => TlsStep::Done(Err(error)),
            (
                TlsState::Connecting { config, domain },
                TlsEvent::Connected(Poll::Ready(connected)),
            ) => match connected {
                Ok(stream) => TlsStep::Encrypt { stream, config, domain },
                Err(error) => TlsStep::Done(Err(TlsConnectionError::Connection(error))),
            },
            (TlsState::Handshake { stream }, TlsEvent::Handshaken(Poll::Ready(done))) => match done {
                Ok(_) => TlsStep::Done(Ok(stream)),
                Err(error) => TlsStep::Done(Err(TlsConnectionError::Handshake(error))),
            },
            _ => TlsStep::Pending(self),
        }
    }

    /// Takes in what came of the operation that the connection waits for, and says what
    /// to do next. After [`TlsStep::Encrypt`] it goes on as
    /// [`handshaking`](Self::handshaking).
    pub fn poll<IO>(self, event: TlsEvent<IO, E, H>) -> (step: TlsStep<K, IO, S, E, H>)
        requires
            self.expects(event),
        ensures
            step == self.next(event),
    {
        match (self.state, event) {
            (TlsState::Error { error }, _) => TlsStep::Done(Err(error)),
            (TlsState::Connecting { config, domain }, TlsEvent::Connected(connected)) => {
                match connected {
                    Poll::Ready(Ok(stream)) => TlsStep::Encrypt { stream, config, domain },
                    Poll::Ready(Err(error)) => TlsStep::Done(
                        Err(TlsConnectionError::Connection(error)),
                    ),
                    Poll::Pending => TlsStep::Pending(
                        TlsConnectionFuture { state: TlsState::Connecting { config, domain } },
                    ),
                }
            },
            (TlsState::Handshake { stream }, TlsEvent::Handshaken(done)) => match done {
                Poll::Ready(Ok(_)) => TlsStep::Done(Ok(stream)),
                Poll::Ready(Err(error)) => TlsStep::Done(Err(TlsConnectionError::Handshake(error))),
                Poll::Pending => TlsStep::Pending(
                    TlsConnectionFuture { state: TlsState::Handshake { stream } },
                ),
            },
            (state, _) => TlsStep::Pending(TlsConnectionFuture { state }),
        }
    }
}

/// A connection that is waited for takes in what came of it: connecting first, then the
/// handshake.
pub proof fn law_encryption_waits_for_one_thing<K, S, E, H, IO>(
    future: TlsConnectionFuture<K, S, E, H>,
    connected: Poll<Result<IO, E>>,
    handshaken: Poll<Result<(), H>>,
)
    ensures
        future.state is Connecting ==> future.expects(TlsEvent::Connected(connected)),
        future.state is Handshake ==> future.expects(TlsEvent::<IO, E, H>::Handshaken(handshaken)),
        future.state is Error ==> future.expects(TlsEvent::Connected(connected)),
{
}

/// What is ready never leaves an encrypted connection waiting. A transport that has
/// connected is encrypted, for the host and with the configuration that the connection
/// began with, and one that has not ends it with its error. A handshake that has
/// succeeded ends it with the stream, and one that has not with its error. A connection
/// is waited for, unchanged, exactly while its operation is pending.
pub proof fn law_encryption_goes_forward<K, S, E, H, IO>(
    future: TlsConnectionFuture<K, S, E, H>,
    event: TlsEvent<IO, E, H>,
    step: TlsStep<K, IO, S, E, H>,
)
    requires
        future.expects(event),
        call_ensures(TlsConnectionFuture::<K, S, E, H>::poll::<IO>, (future, event), step),
    ensures
        event matches TlsEvent::Connected(Poll::Ready(Err(error))) ==> (future.state is Connecting
            ==> step == TlsStep::<K, IO, S, E, H>::Done(
            Err(TlsConnectionError::Connection(error)),
        )),
        event matches TlsEvent::Connected(Poll::Ready(Ok(stream))) ==> (future.state matches
            TlsState::Connecting { config, domain } ==> step == (TlsStep::<K, IO, S, E, H>::Encrypt {
            stream,
            config,
            domain,
        })),
        event matches TlsEvent::Handshaken(Poll::Ready(Err(error))) ==> (future.state is Handshake
            ==> step == TlsStep::<K, IO, S, E, H>::Done(
            Err(TlsConnectionError::Handshake(error)),
        )),
        event matches TlsEvent::Handshaken(Poll::Ready(Ok(_))) ==> (future.state matches
            TlsState::Handshake { stream } ==> step == TlsStep::<K, IO, S, E, H>::Done(Ok(stream))),
        future.state matches TlsState::Error { error } ==> step == TlsStep::<K, IO, S, E, H>::Done(
            Err(error),
        ),
        step matches TlsStep::Pending(next) ==> next == future,
        step is Pending <==> future.state !is Error && match event {
            TlsEvent::Connected(outcome) => outcome is Pending,
            TlsEvent::Handshaken(outcome) => outcome is Pending,
        },
{
}

/// An encrypted connection expects the host of the URI on the other side; a URI without
/// one cannot be connected to.
pub proof fn law_the_host_is_expected<T, K: Clone, S, E, H>(
    transport: TlsTransportWrapper<T, K>,
    uri: Uri,
    future: TlsConnectionFuture<K, S, E, H>,
)
    requires
        call_ensures(TlsTransportWrapper::<T, K>::call::<S, E, H>, (&transport, &uri), future),
    ensures
        uri@.authority is Some ==> (future.state matches TlsState::Connecting { config, domain }
            && domain@ == uri@.authority->0.host && cloned(transport.parts().1, config)),
        uri@.authority is None ==> future.state == (TlsState::<K, S, E, H>::Error {
            error: TlsConnectionError::NoDomain,
        }),
{
}

/// A connected stream, with what was settled in the handshake where there was one.
#[derive(Debug)]
pub struct TransportStream<S> {
    /// The stream.
    pub stream: S,
    /// What was settled.
    pub tls: Option<TlsConnectionInfo>,
}

/// A transport that always encrypts keeps the transport inside and the configuration that it
/// was made with, and changes only the one that is changed.
pub proof fn law_wrapper_keeps_its_parts<T, K>(
    inner: T,
    config: K,
    wrapped: TlsTransportWrapper<T, K>,
    found: &T,
    configured: &K,
    parts: (T, K),
    before: T,
    other: T,
    changed: TlsTransportWrapper<T, K>,
    left: (T, K),
)
    requires
        call_ensures(TlsTransportWrapper::<T, K>::new, (inner, config), wrapped),
        call_ensures(TlsTransportWrapper::<T, K>::transport, (&wrapped,), found),
        call_ensures(TlsTransportWrapper::<T, K>::config, (&wrapped,), configured),
        call_ensures(TlsTransportWrapper::<T, K>::into_parts, (wrapped,), parts),
        exists|m: &mut TlsTransportWrapper<T, K>, place: &mut T|
            *m == wrapped && *final(m) == changed && *place == before && *final(place) == other
                && #[trigger] call_ensures(
                TlsTransportWrapper::<T, K>::transport_mut,
                (m,),
                place,
            ),
        call_ensures(TlsTransportWrapper::<T, K>::into_parts, (changed,), left),
    ensures
        *found == inner,
        *configured == config,
        parts == (inner, config),
        before == inner,
        left == (other, config),
{
}

/// An encrypted connection begins with connecting its transport, goes on with the handshake
/// on its stream, or has an error to report, as it was made; a copy of its transport has
/// clones of the parts.
pub proof fn law_connection_begins_as_made<T: Clone, K: Clone, S, E, H>(
    config: K,
    domain: String,
    connecting: TlsConnectionFuture<K, S, E, H>,
    stream: S,
    handshaking: TlsConnectionFuture<K, S, E, H>,
    error: TlsConnectionError<E, H>,
    failing: TlsConnectionFuture<K, S, E, H>,
    wrapped: TlsTransportWrapper<T, K>,
    parts: (T, K),
    copy: TlsTransportWrapper<T, K>,
    copied: (T, K),
)
    requires
        call_ensures(TlsConnectionFuture::<K, S, E, H>::new, (config, domain), connecting),
        call_ensures(TlsConnectionFuture::<K, S, E, H>::handshaking, (stream,), handshaking),
        call_ensures(TlsConnectionFuture::<K, S, E, H>::error, (error,), failing),
        call_ensures(TlsTransportWrapper::<T, K>::into_parts, (wrapped,), parts),
        call_ensures(TlsTransportWrapper::<T, K>::clone, (&wrapped,), copy),
        call_ensures(TlsTransportWrapper::<T, K>::into_parts, (copy,), copied),
    ensures
        connecting.state == (TlsState::<K, S, E, H>::Connecting { config, domain }),
        handshaking.state == (TlsState::<K, S, E, H>::Handshake { stream }),
        failing.state == (TlsState::<K, S, E, H>::Error { error }),
        cloned(parts.0, copied.0),
        cloned(parts.1, copied.1),
{
}

} // verus!
