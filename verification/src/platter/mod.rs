//! A server that makes one service for each connection it accepts.
//!
//! The server goes round three stages: it waits until services can be made, makes
//! one, and accepts a connection, which gets the service. The program that runs it
//! polls what [`Server::wants`] names and hands the outcome to [`Server::poll`].

use vstd::prelude::*;

use crate::io::IoError;
use crate::poll::Poll;
use crate::text;

pub mod rewind;

verus! {

/// Why a server stopped.
#[derive(Debug)]
pub enum ServerError<E> {
    /// No connection could be accepted.
    Io(IoError),
    /// No service could be made.
    MakeService(E),
}

impl<E> ServerError<E> {
    /// A service was not made.
    pub fn make(error: E) -> (failed: Self)
        ensures
            failed == ServerError::MakeService(error),
    {
        ServerError::MakeService(error)
    }

    /// Services cannot be made.
    pub fn ready(error: E) -> (failed: Self)
        ensures
            failed == ServerError::MakeService(error),
    {
        ServerError::MakeService(error)
    }

    /// The error as a text. `cause` is the text of the error that kept a service
    /// from being made.
    pub fn to_string(&self, cause: &str) -> (shown: String)
        ensures
            shown@ == match self {
                ServerError::Io(error) => error.message@,
                ServerError::MakeService(_) => "make service: "@ + cause@,
            },
    {
        match self {
            ServerError::Io(error) => error.message.clone(),
            ServerError::MakeService(_) => text::join("make service: ", cause),
        }
    }
}

/// The stage that a server is in.
#[derive(Debug)]
pub enum State<S, F> {
    /// It waits until services can be made.
    Preparing,
    /// A service is being made.
    Making {
        /// What will be the service.
        future: F,
    },
    /// The service waits for a connection.
    Accepting {
        /// The service for the next connection.
        service: S,
    },
}

/// What a server waits for.
#[derive(Debug, Clone, Copy, PartialEq, Eq, Structural)]
pub enum Wants {
    /// Services can be made; then start to make one.
    Ready,
    /// The service has been made.
    Service,
    /// A connection has come.
    Connection,
}

/// The outcome of polling what a server waits for.
#[derive(Debug)]
pub enum ServerEvent<C, S, F, E> {
    /// Services can be made, and one has been started; or they cannot.
    Ready(Poll<Result<F, E>>),
    /// The service that was being made.
    Service(Poll<Result<S, E>>),
    /// A connection.
    Connection(Poll<Result<C, IoError>>),
}

/// What to do after an outcome.
#[derive(Debug)]
pub enum ServeStep<C, S, E> {
    /// Poll what the server wants now.
    Again,
    /// Let the service serve the connection, on its own, and go on as with `Again`.
    Spawn {
        /// The connection.
        stream: C,
        /// The service that was made for it.
        service: S,
    },
    /// Wait to be woken.
    Wait,
    /// The server has stopped.
    Stopped(ServerError<E>),
}

impl<S, F> State<S, F> {
    /// What a server in this stage waits for.
    pub open spec fn wants(self) -> Wants {
        match self {
            State::Preparing => Wants::Ready,
            State::Making { .. } => Wants::Service,
            State::Accepting { .. } => Wants::Connection,
        }
    }
}

impl<C, S, F, E> ServerEvent<C, S, F, E> {
    /// What the outcome is the outcome of.
    pub open spec fn of(self) -> Wants {
        match self {
            ServerEvent::Ready(_) => Wants::Ready,
            ServerEvent::Service(_) => Wants::Service,
            ServerEvent::Connection(_) => Wants::Connection,
        }
    }
}

/// The stage that follows an outcome, and what is to be done.
pub open spec fn stepped<C, S, F, E>(
    state: State<S, F>,
    event: ServerEvent<C, S, F, E>,
) -> (State<S, F>, ServeStep<C, S, E>) {
    match (state, event) {
        (State::Preparing, ServerEvent::Ready(Poll::Ready(Ok(future)))) => (
            State::Making { future },
            ServeStep::Again,
        ),
        (State::Making { .. }, ServerEvent::Service(Poll::Ready(Ok(service)))) => (
            State::Accepting { service },
            ServeStep::Again,
        ),
        (State::Accepting { service }, ServerEvent::Connection(Poll::Ready(Ok(stream)))) => (
            State::Preparing,
            ServeStep::Spawn { stream, service },
        ),
        (_, ServerEvent::Ready(Poll::Ready(Err(error)))) => (
            state,
            ServeStep::Stopped(ServerError::MakeService(error)),
        ),
        (_, ServerEvent::Service(Poll::Ready(Err(error)))) => (
            state,
            ServeStep::Stopped(ServerError::MakeService(error)),
        ),
        (_, ServerEvent::Connection(Poll::Ready(Err(error)))) => (
            state,
            ServeStep::Stopped(ServerError::Io(error)),
        ),
        _ => (state, ServeStep::Wait),
    }
}

/// A server.
///
/// `A` accepts connections, `M` makes services, `P` says how a connection is
/// served, `S` is a service and `F` what becomes one.
#[derive(Debug)]
pub struct Server<A, M, P, S, F> {
    incoming: A,
    make_service: M,
    protocol: P,
    state: State<S, F>,
}

impl<A, M, P, S, F> Server<A, M, P, S, F> {
    /// What accepts connections.
    pub closed spec fn spec_incoming(self) -> A {
        self.incoming
    }

    /// What makes services.
    pub closed spec fn spec_make_service(self) -> M {
        self.make_service
    }

    /// How a connection is served.
    pub closed spec fn spec_protocol(self) -> P {
        self.protocol
    }

    /// The stage that the server is in.
    pub closed spec fn state(self) -> State<S, F> {
        self.state
    }

    /// A server that has made no service yet.
    pub fn new(incoming: A, make_service: M, protocol: P) -> (server: Self)
        ensures
            server.spec_incoming() == incoming,
            server.spec_make_service() == make_service,
            server.spec_protocol() == protocol,
            server.state() == State::<S, F>::Preparing,
    {
        Server { incoming, make_service, protocol, state: State::Preparing }
    }

    /// The same server, which serves connections in another way. It starts anew.
    pub fn with_protocol<Q>(self, protocol: Q) -> (server: Server<A, M, Q, S, F>)
        ensures
            server.spec_incoming() == self.spec_incoming(),
            server.spec_make_service() == self.spec_make_service(),
            server.spec_protocol() == protocol,
            server.state() == State::<S, F>::Preparing,
    {
        Server {
            incoming: self.incoming,
            make_service: self.make_service,
            protocol,
            state: State::Preparing,
        }
    }

    /// What accepts connections.
    pub fn incoming_mut(&mut self) -> (incoming: &mut A)
        ensures
            *incoming == old(self).spec_incoming(),
            final(self).spec_incoming() == *final(incoming),
            final(self).spec_make_service() == old(self).spec_make_service(),
            final(self).spec_protocol() == old(self).spec_protocol(),
            final(self).state() == old(self).state(),
    {
        &mut self.incoming
    }

    /// What makes services.
    pub fn make_service_mut(&mut self) -> (make_service: &mut M)
        ensures
            *make_service == old(self).spec_make_service(),
            final(self).spec_make_service() == *final(make_service),
            final(self).spec_incoming() == old(self).spec_incoming(),
            final(self).spec_protocol() == old(self).spec_protocol(),
            final(self).state() == old(self).state(),
    {
        &mut self.make_service
    }

    /// The service that is being made, while one is.
    pub fn making_mut(&mut self) -> (future: Option<&mut F>)
        ensures
            match future {
                Some(future) => {
                    &&& old(self).state() == (State::<S, F>::Making { future: *future })
                    &&& final(self).state() == (State::<S, F>::Making { future: *final(future) })
                },
                None => !(old(self).state() is Making) && final(self).state() == old(self).state(),
            },
            final(self).spec_incoming() == old(self).spec_incoming(),
            final(self).spec_make_service() == old(self).spec_make_service(),
            final(self).spec_protocol() == old(self).spec_protocol(),
    {
        match &mut self.state {
            State::Making { future } => Some(future),
            _ => None,
        }
    }

    /// How a connection is served.
    pub fn protocol(&self) -> (protocol: &P)
        ensures
            *protocol == self.spec_protocol(),
    {
        &self.protocol
    }

    /// What the server waits for.
    pub fn wants(&self) -> (wants: Wants)
        ensures
            wants == self.state().wants(),
    {
        match &self.state {
            State::Preparing => Wants::Ready,
            State::Making { .. } => Wants::Service,
            State::Accepting { .. } => Wants::Connection,
        }
    }

    /// Takes the outcome of polling what the server wants.
    ///
    /// An error stops the server and leaves it in its stage.
    pub fn poll<C, E>(&mut self, event: ServerEvent<C, S, F, E>) -> (step: ServeStep<C, S, E>)
        requires
            event.of() == old(self).state().wants(),
        ensures
            stepped(old(self).state(), event) == (final(self).state(), step),
            final(self).spec_incoming() == old(self).spec_incoming(),
            final(self).spec_make_service() == old(self).spec_make_service(),
            final(self).spec_protocol() == old(self).spec_protocol(),
    {
        match event {
            ServerEvent::Ready(Poll::Ready(Ok(future))) => {
                self.state = State::Making { future };
                ServeStep::Again
            },
            ServerEvent::Ready(Poll::Ready(Err(error))) => ServeStep::Stopped(
                ServerError::ready(error),
            ),
            ServerEvent::Ready(Poll::Pending) => ServeStep::Wait,
            ServerEvent::Service(Poll::Ready(Ok(service))) => {
                self.state = State::Accepting { service };
                ServeStep::Again
            },
            ServerEvent::Service(Poll::Ready(Err(error))) => ServeStep::Stopped(
                ServerError::make(error),
            ),
            ServerEvent::Service(Poll::Pending) => ServeStep::Wait,
            ServerEvent::Connection(Poll::Ready(Ok(stream))) => {
                let mut state = State::Preparing;
                std::mem::swap(&mut state, &mut self.state);
                match state {
                    State::Accepting { service } => ServeStep::Spawn { stream, service },
                    _ => ServeStep::Wait,
                }
            },
            ServerEvent::Connection(Poll::Ready(Err(error))) => ServeStep::Stopped(
                ServerError::Io(error),
            ),
            ServerEvent::Connection(Poll::Pending) => ServeStep::Wait,
        }
    }
}

/// A connection is served by the service that was waiting for it, and the next one
/// gets another: the server prepares anew.
pub proof fn law_service_serves_one_connection<C, S, F, E>(
    state: State<S, F>,
    event: ServerEvent<C, S, F, E>,
    stream: C,
    service: S,
)
    requires
        stepped(state, event).1 == (ServeStep::<C, S, E>::Spawn { stream, service }),
    ensures
        state == (State::<S, F>::Accepting { service }),
        event == ServerEvent::<C, S, F, E>::Connection(Poll::Ready(Ok(stream))),
        stepped(state, event).0 == State::<S, F>::Preparing,
{
}

/// What is not there yet and what fails leave the server in its stage.
pub proof fn law_only_success_moves_on<C, S, F, E>(state: State<S, F>, event: ServerEvent<C, S, F, E>)
    requires
        event.of() == state.wants(),
    ensures
        stepped(state, event).1 is Wait || stepped(state, event).1 is Stopped ==> stepped(
            state,
            event,
        ).0 == state,
        stepped(state, event).1 is Again || stepped(state, event).1 is Spawn ==> stepped(
            state,
            event,
        ).0.wants() == (match state.wants() {
            Wants::Ready => Wants::Service,
            Wants::Service => Wants::Connection,
            Wants::Connection => Wants::Ready,
        }),
{
}

/// A whole round: a service is made, and the connection that comes is served by
/// that very service.
pub proof fn law_round_serves_a_connection<C, S, F, E>(future: F, service: S, stream: C)
    ensures
        ({
            let (first, again) = stepped(
                State::<S, F>::Preparing,
                ServerEvent::<C, S, F, E>::Ready(Poll::Ready(Ok(future))),
            );
            let (second, again2) = stepped(
                first,
                ServerEvent::<C, S, F, E>::Service(Poll::Ready(Ok(service))),
            );
            let (third, spawn) = stepped(
                second,
                ServerEvent::<C, S, F, E>::Connection(Poll::Ready(Ok(stream))),
            );
            &&& again is Again
            &&& again2 is Again
            &&& third == State::<S, F>::Preparing
            &&& spawn == (ServeStep::<C, S, E>::Spawn { stream, service })
        }),
{
}

/// A server asks for one thing at a time: until services can be made it waits for that,
/// then for the service that is being made, and then for a connection to give it to. A
/// new server, and one that is to serve in another way, begin at the beginning.
pub proof fn law_server_asks_for_what_is_next<A, M, P, S, F>(
    incoming: A,
    make_service: M,
    protocol: P,
    started: Server<A, M, P, S, F>,
    server: Server<A, M, P, S, F>,
    wants: Wants,
)
    requires
        call_ensures(Server::<A, M, P, S, F>::new, (incoming, make_service, protocol), started),
        call_ensures(Server::<A, M, P, S, F>::wants, (&server,), wants),
    ensures
        started.state() is Preparing,
        started.spec_incoming() == incoming,
        started.spec_make_service() == make_service,
        started.spec_protocol() == protocol,
        wants == Wants::Ready <==> server.state() is Preparing,
        wants == Wants::Service <==> server.state() is Making,
        wants == Wants::Connection <==> server.state() is Accepting,
{
}

/// What has become ready moves a server on: a service that is started is waited for, one
/// that is made waits for a connection, and a connection that comes is served by the
/// service that was waiting, after which the server begins anew. A failure stops the
/// server, with its error: that of accepting as one of input and output, any other as one
/// of making a service. It waits exactly while what it asked for is pending.
pub proof fn law_server_goes_round<A, M, P, S, F, C, E>(
    before: Server<A, M, P, S, F>,
    event: ServerEvent<C, S, F, E>,
    step: ServeStep<C, S, E>,
    after: Server<A, M, P, S, F>,
)
    requires
        event.of() == before.state().wants(),
        exists|server: &mut Server<A, M, P, S, F>|
            *server == before && *final(server) == after && #[trigger] call_ensures(
                Server::<A, M, P, S, F>::poll::<C, E>,
                (server, event),
                step,
            ),
    ensures
        event matches ServerEvent::Ready(Poll::Ready(Ok(future))) ==> step is Again && after.state()
            == (State::<S, F>::Making { future }),
        event matches ServerEvent::Service(Poll::Ready(Ok(service))) ==> step is Again
            && after.state() == (State::<S, F>::Accepting { service }),
        event matches ServerEvent::Connection(Poll::Ready(Ok(stream))) ==> {
            &&& before.state() matches State::Accepting { service }
            &&& step == (ServeStep::<C, S, E>::Spawn { stream, service })
            &&& after.state() is Preparing
        },
        event matches ServerEvent::Ready(Poll::Ready(Err(error))) ==> step == ServeStep::<
            C,
            S,
            E,
        >::Stopped(ServerError::MakeService(error)),
        event matches ServerEvent::Service(Poll::Ready(Err(error))) ==> step == ServeStep::<
            C,
            S,
            E,
        >::Stopped(ServerError::MakeService(error)),
        event matches ServerEvent::Connection(Poll::Ready(Err(error))) ==> step == ServeStep::<
            C,
            S,
            E,
        >::Stopped(ServerError::Io(error)),
        step is Wait <==> match event {
            ServerEvent::Ready(outcome) => outcome is Pending,
            ServerEvent::Service(outcome) => outcome is Pending,
            ServerEvent::Connection(outcome) => outcome is Pending,
        },
        step is Wait || step is Stopped ==> after.state() == before.state(),
        after.spec_incoming() == before.spec_incoming(),
        after.spec_make_service() == before.spec_make_service(),
        after.spec_protocol() == before.spec_protocol(),
{
}

/// A server takes in the outcome of what it waits for.
pub proof fn law_server_expects_what_it_wants<C, S, F, E>(
    state: State<S, F>,
    ready: Poll<Result<F, E>>,
    service: Poll<Result<S, E>>,
    connection: Poll<Result<C, IoError>>,
)
    ensures
        state is Preparing ==> ServerEvent::<C, S, F, E>::Ready(ready).of() == state.wants(),
        state is Making ==> ServerEvent::<C, S, F, E>::Service(service).of() == state.wants(),
        state is Accepting ==> ServerEvent::<C, S, F, E>::Connection(connection).of()
            == state.wants(),
{
}

/// An error says whether a connection or a service was missing, with the cause.
pub proof fn law_server_error_tells_its_cause<E>(
    error: E,
    made: ServerError<E>,
    ready: ServerError<E>,
    failed: ServerError<E>,
    cause: &str,
    shown: String,
)
    requires
        call_ensures(ServerError::<E>::make, (error,), made),
        call_ensures(ServerError::<E>::ready, (error,), ready),
        call_ensures(ServerError::<E>::to_string, (&failed, cause), shown),
    ensures
        made == ServerError::MakeService(error),
        ready == ServerError::MakeService(error),
        failed matches ServerError::Io(error) ==> shown@ == error.message@,
        failed is MakeService ==> shown@ == "make service: "@ + cause@,
{
}

/// A server keeps what accepts connections and what makes services when it is to serve in
/// another way, and then starts anew; each can be changed in place, alone.
pub proof fn law_server_keeps_its_parts<A, M, P, Q, S, F>(
    incoming: A,
    make_service: M,
    protocol: P,
    made: Server<A, M, P, S, F>,
    other_protocol: Q,
    changed: Server<A, M, Q, S, F>,
    wants: Wants,
    served: &Q,
    old_incoming: A,
    new_incoming: A,
    one: Server<A, M, Q, S, F>,
    old_make: M,
    new_make: M,
    two: Server<A, M, Q, S, F>,
)
    requires
        call_ensures(Server::<A, M, P, S, F>::new, (incoming, make_service, protocol), made),
        call_ensures(
            Server::<A, M, P, S, F>::with_protocol::<Q>,
            (made, other_protocol),
            changed,
        ),
        call_ensures(Server::<A, M, Q, S, F>::wants, (&changed,), wants),
        call_ensures(Server::<A, M, Q, S, F>::protocol, (&changed,), served),
        exists|m: &mut Server<A, M, Q, S, F>, place: &mut A|
            *m == changed && *final(m) == one && *place == old_incoming && *final(place)
                == new_incoming && #[trigger] call_ensures(
                Server::<A, M, Q, S, F>::incoming_mut,
                (m,),
                place,
            ),
        exists|m: &mut Server<A, M, Q, S, F>, place: &mut M|
            *m == one && *final(m) == two && *place == old_make && *final(place) == new_make
                && #[trigger] call_ensures(
                Server::<A, M, Q, S, F>::make_service_mut,
                (m,),
                place,
            ),
    ensures
        wants == Wants::Ready,
        *served == other_protocol,
        old_incoming == incoming,
        old_make == make_service,
        two.spec_incoming() == new_incoming,
        two.spec_make_service() == new_make,
        two.spec_protocol() == other_protocol,
        two.state() is Preparing,
{
}

/// The service that is being made can be asked while one is, and at no other time.
pub proof fn law_service_in_the_making_is_asked<A, M, P, S, F>(
    before: Server<A, M, P, S, F>,
    found: Option<&mut F>,
    after: Server<A, M, P, S, F>,
)
    requires
        exists|m: &mut Server<A, M, P, S, F>|
            *m == before && *final(m) == after && #[trigger] call_ensures(
                Server::<A, M, P, S, F>::making_mut,
                (m,),
                found,
            ),
    ensures
        found is Some <==> before.state() is Making,
        found is Some ==> before.state() == (State::<S, F>::Making { future: *found->0 }),
        after.state() is Making <==> before.state() is Making,
        after.spec_incoming() == before.spec_incoming(),
        after.spec_make_service() == before.spec_make_service(),
        after.spec_protocol() == before.spec_protocol(),
{
}

} // verus!
