//! A connection on its way out of the pool.

use tokio::sync::oneshot::error::RecvError;
use tokio::sync::oneshot::Receiver;
use vstd::prelude::*;

pub use crate::client::conn::connector::Error;
use crate::client::pool::key::Token;
use crate::client::pool::{Config, PoolRef, Pooled};
use crate::counter::{self, Counter};
use crate::poll::Poll;
use crate::text;

verus! {

/// Tells checkouts apart.
#[derive(Debug, Clone, Copy, PartialEq, Eq, Structural)]
pub struct CheckoutId(pub usize);

impl CheckoutId {
    /// The next identifier of `ids`.
    pub fn new(ids: &mut Counter) -> (id: Self)
        ensures
            id.0 == old(ids).upcoming(),
            final(ids).upcoming() == counter::after(id.0),
    {
        CheckoutId(ids.take())
    }

    /// The identifier as text.
    pub fn to_string(&self) -> (shown: String)
        ensures
            shown@ == "checkout-"@ + text::digits(self.0 as nat),
    {
        text::join("checkout-", text::decimal(self.0 as u128).as_str())
    }
}

/// The receiving half of a channel for one value.
#[verifier::external_type_specification]
#[verifier::external_body]
#[verifier::reject_recursive_types(T)]
pub struct ExReceiver<T>(tokio::sync::oneshot::Receiver<T>);

/// Calls [`tokio::sync::oneshot::Receiver::close`], after which the sender finds
/// nobody listening. Nothing of that shows in the receiver itself.
#[verifier::external_body]
fn oneshot_close<T>(receiver: &mut tokio::sync::oneshot::Receiver<T>) {
    receiver.close()
}

/// Nothing will come out of a channel: its sender is gone.
#[verifier::external_type_specification]
#[verifier::external_body]
pub struct ExRecvError(tokio::sync::oneshot::error::RecvError);

/// What a checkout waits for besides its own connection attempt.
#[derive(Debug)]
#[verifier::reject_recursive_types(C)]
pub enum Waiting<C> {
    /// The checkout is waiting on an idle connection, and should attempt its own
    /// connection in the interim as well.
    Idle(Receiver<Pooled<C>>),
    /// The checkout is waiting on a connection currently in the process of
    /// connecting, and should wait for that connection to complete, not starting
    /// its own connection.
    Connecting(Receiver<Pooled<C>>),
    /// There is no pool for connections to wait for.
    NoPool,
}

/// What came of asking a [`Waiting`].
#[derive(Debug)]
pub enum WaitingPoll<C> {
    /// A connection was delivered.
    Connected(Pooled<C>),
    /// No connection will be delivered.
    Closed,
    /// No connection has been delivered so far.
    NotReady,
}

impl<C> Waiting<C> {
    /// What to make of `received`, the state of the channel.
    pub open spec fn polled(
        self,
        received: Poll<Result<Pooled<C>, RecvError>>,
    ) -> Poll<WaitingPoll<C>> {
        match self {
            Waiting::NoPool => Poll::Ready(WaitingPoll::Closed),
            _ => match received {
                Poll::Ready(Ok(pooled)) => Poll::Ready(WaitingPoll::Connected(pooled)),
                Poll::Ready(Err(_)) => Poll::Ready(WaitingPoll::Closed),
                Poll::Pending => if self is Idle {
                    Poll::Ready(WaitingPoll::NotReady)
                } else {
                    Poll::Pending
                },
            },
        }
    }

    /// Decides what to make of `received`, the state of the channel. Without a
    /// channel there is nothing to wait for.
    pub fn poll(&self, received: Poll<Result<Pooled<C>, RecvError>>) -> (next: Poll<WaitingPoll<C>>)
        ensures
            next == self.polled(received),
    {
        match self {
            Waiting::Idle(_) => match received {
                Poll::Ready(Ok(pooled)) => Poll::Ready(WaitingPoll::Connected(pooled)),
                Poll::Ready(Err(_)) => Poll::Ready(WaitingPoll::Closed),
                Poll::Pending => Poll::Ready(WaitingPoll::NotReady),
            },
            Waiting::Connecting(_) => match received {
                Poll::Ready(Ok(pooled)) => Poll::Ready(WaitingPoll::Connected(pooled)),
                Poll::Ready(Err(_)) => Poll::Ready(WaitingPoll::Closed),
                Poll::Pending => Poll::Pending,
            },
            Waiting::NoPool => Poll::Ready(WaitingPoll::Closed),
        }
    }

    /// Stops waiting: whoever wants to deliver a connection finds nobody listening.
    pub fn close(&mut self)
        ensures
            *final(self) == Waiting::<C>::NoPool,
    {
        match self {
            Waiting::Idle(receiver) => oneshot_close(receiver),
            Waiting::Connecting(receiver) => oneshot_close(receiver),
            Waiting::NoPool => {},
        }
        *self = Waiting::NoPool;
    }
}

/// How far a checkout has come with its own connection attempt, made by an `N`.
#[derive(Debug)]
pub enum InnerCheckoutConnecting<N> {
    /// Another checkout makes the attempt.
    Waiting,
    /// There is a connection, or the attempt is over.
    Connected,
    /// The attempt is under way, and ends with the checkout.
    Connecting(N),
    /// The attempt is under way, and goes on when the checkout is dropped.
    ConnectingWithDelayDrop(Option<N>),
    /// The attempt is what is left of a checkout that was dropped.
    ConnectingDelayed(N),
}

impl<N> InnerCheckoutConnecting<N> {
    /// Whether an attempt is under way.
    pub open spec fn attempts(self) -> bool {
        match self {
            InnerCheckoutConnecting::Connecting(_) => true,
            InnerCheckoutConnecting::ConnectingWithDelayDrop(connector) => connector is Some,
            InnerCheckoutConnecting::ConnectingDelayed(_) => true,
            _ => false,
        }
    }
}

/// What a checkout asks for next, or what came of it.
#[derive(Debug)]
pub enum CheckoutStep<C, T, P> {
    /// Nothing to do until something that the checkout waits for happens.
    Pending,
    /// The connection attempt is to be driven on.
    PollConnector,
    /// The connection is to be registered with the pool, and is then the result.
    Register(C),
    /// The checkout is over.
    Done(Result<Pooled<C>, Error<T, P>>),
}

/// What is to be done when a checkout is dropped.
#[derive(Debug)]
#[verifier::reject_recursive_types(C)]
pub enum CheckoutDrop<C, N> {
    /// The attempt goes on by itself, as this checkout.
    Continue(Checkout<C, N>),
    /// The pool, if it is still there, is told that the attempt is given up.
    Cancel(Token),
    /// There is no pool to tell.
    Nothing,
}

/// A connection that is being checked out of the pool.
#[derive(Debug)]
#[verifier::reject_recursive_types(C)]
pub struct Checkout<C, N> {
    /// The host that the connection leads to.
    pub token: Token,
    /// The pool.
    pub pool: PoolRef,
    /// What the checkout waits for.
    pub waiter: Waiting<C>,
    /// The checkout's own attempt.
    pub inner: InnerCheckoutConnecting<N>,
    /// A connection that the pool had at once.
    pub connection: Option<C>,
    /// Tells this checkout apart from others.
    pub id: CheckoutId,
}

impl<C, N> Checkout<C, N> {
    /// Whether the checkout can be polled: it has not yielded its result yet, and
    /// its attempt has not been taken from it.
    pub open spec fn live(self) -> bool {
        match self.inner {
            InnerCheckoutConnecting::Waiting => true,
            InnerCheckoutConnecting::Connected => self.connection is Some,
            _ => self.inner.attempts(),
        }
    }

    /// Constructs a checkout: around a connection that the pool had, around an
    /// attempt, or around nothing but the hope that another attempt succeeds.
    pub fn new(
        token: Token,
        pool: PoolRef,
        waiter: Receiver<Pooled<C>>,
        connect: Option<N>,
        connection: Option<C>,
        config: &Config,
        id: CheckoutId,
    ) -> (checkout: Self)
        ensures
            checkout.token == token,
            checkout.pool == pool,
            checkout.connection == connection,
            checkout.id == id,
            checkout.live(),
            checkout.waiter == if connection is Some || connect is Some {
                Waiting::Idle(waiter)
            } else {
                Waiting::Connecting(waiter)
            },
            checkout.inner == if connection is Some {
                InnerCheckoutConnecting::Connected
            } else {
                match connect {
                    Some(connector) => if config.continue_after_preemption {
                        InnerCheckoutConnecting::ConnectingWithDelayDrop(Some(connector))
                    } else {
                        InnerCheckoutConnecting::Connecting(connector)
                    },
                    None => InnerCheckoutConnecting::Waiting,
                }
            },
    {
        if connection.is_some() {
            Checkout {
                token,
                pool,
                waiter: Waiting::Idle(waiter),
                inner: InnerCheckoutConnecting::Connected,
                connection,
                id,
            }
        } else if let Some(connector) = connect {
            let inner = if config.continue_after_preemption {
                InnerCheckoutConnecting::ConnectingWithDelayDrop(Some(connector))
            } else {
                InnerCheckoutConnecting::Connecting(connector)
            };
            Checkout { token, pool, waiter: Waiting::Idle(waiter), inner, connection, id }
        } else {
            Checkout {
                token,
                pool,
                waiter: Waiting::Connecting(waiter),
                inner: InnerCheckoutConnecting::Waiting,
                connection,
                id,
            }
        }
    }

    /// Constructs a checkout which does not hold a reference to the pool and so is
    /// only waiting on the connector.
    ///
    /// It always proceeds with the connector, and its attempt ends with it.
    pub fn detached(token: Token, connector: N, id: CheckoutId) -> (checkout: Self)
        ensures
            checkout == (Checkout {
                token,
                pool: PoolRef::Detached,
                waiter: Waiting::<C>::NoPool,
                inner: InnerCheckoutConnecting::Connecting(connector),
                connection: None::<C>,
                id,
            }),
    {
        Checkout {
            token,
            pool: PoolRef::none(),
            waiter: Waiting::NoPool,
            inner: InnerCheckoutConnecting::Connecting(connector),
            connection: None,
            id,
        }
    }

    /// What the checkout asks for next, given the state of its channel.
    pub open spec fn next_step<T, P>(
        self,
        received: Poll<Result<Pooled<C>, RecvError>>,
    ) -> CheckoutStep<C, T, P> {
        match self.waiter.polled(received) {
            Poll::Pending => CheckoutStep::Pending,
            Poll::Ready(WaitingPoll::Connected(pooled)) => CheckoutStep::Done(Ok(pooled)),
            Poll::Ready(_) => match self.inner {
                InnerCheckoutConnecting::Waiting => CheckoutStep::Done(Err(Error::Unavailable)),
                InnerCheckoutConnecting::Connected => CheckoutStep::Register(self.connection->0),
                _ => CheckoutStep::PollConnector,
            },
        }
    }

    /// Drives the checkout on, given `received`, the state of its channel: a
    /// delivered connection wins over everything else.
    ///
    /// After [`CheckoutStep::PollConnector`] the outcome of the attempt goes to
    /// [`poll_connector`](Self::poll_connector).
    pub fn poll<T, P>(&mut self, received: Poll<Result<Pooled<C>, RecvError>>) -> (step: CheckoutStep<
        C,
        T,
        P,
    >)
        requires
            old(self).live(),
        ensures
            step == old(self).next_step::<T, P>(received),
            final(self).token == old(self).token,
            final(self).pool == old(self).pool,
            final(self).inner == old(self).inner,
            final(self).id == old(self).id,
            step is Register ==> final(self).connection is None && final(self).waiter
                == Waiting::<C>::NoPool,
            step !is Register ==> *final(self) == *old(self),
    {
        match self.waiter.poll(received) {
            Poll::Pending => {
                return CheckoutStep::Pending;
            },
            Poll::Ready(WaitingPoll::Connected(pooled)) => {
                return CheckoutStep::Done(Ok(pooled));
            },
            Poll::Ready(WaitingPoll::Closed) => {},
            Poll::Ready(WaitingPoll::NotReady) => {},
        }
        match &self.inner {
            InnerCheckoutConnecting::Waiting => CheckoutStep::Done(Err(Error::Unavailable)),
            InnerCheckoutConnecting::Connected => {
                let connection = self.connection.take().unwrap();
                self.waiter.close();
                CheckoutStep::Register(connection)
            },
            InnerCheckoutConnecting::Connecting(_) => CheckoutStep::PollConnector,
            InnerCheckoutConnecting::ConnectingWithDelayDrop(_) => CheckoutStep::PollConnector,
            InnerCheckoutConnecting::ConnectingDelayed(_) => CheckoutStep::PollConnector,
        }
    }

    /// Takes in the outcome of the checkout's own attempt.
    pub fn poll_connector<T, P>(&mut self, outcome: Poll<Result<C, Error<T, P>>>) -> (step: CheckoutStep<
        C,
        T,
        P,
    >)
        requires
            old(self).inner.attempts(),
        ensures
            step == match outcome {
                Poll::Pending => CheckoutStep::Pending,
                Poll::Ready(Ok(connection)) => CheckoutStep::Register(connection),
                Poll::Ready(Err(error)) => CheckoutStep::Done(Err(error)),
            },
            outcome is Pending ==> *final(self) == *old(self),
            outcome is Ready ==> *final(self) == (Checkout {
                waiter: Waiting::NoPool,
                inner: InnerCheckoutConnecting::Connected,
                ..*old(self)
            }),
    {
        match outcome {
            Poll::Pending => CheckoutStep::Pending,
            Poll::Ready(result) => {
                self.waiter.close();
                self.inner = InnerCheckoutConnecting::Connected;
                match result {
                    Ok(connection) => CheckoutStep::Register(connection),
                    Err(error) => CheckoutStep::Done(Err(error)),
                }
            },
        }
    }

    /// Splits off the attempt as a checkout of its own, where the attempt goes on
    /// after this checkout is dropped.
    pub fn as_delayed(&mut self) -> (delayed: Option<Self>)
        ensures
            match old(self).inner {
                InnerCheckoutConnecting::ConnectingWithDelayDrop(Some(connector)) => {
                    &&& delayed == Some(
                        Checkout {
                            token: old(self).token,
                            pool: old(self).pool,
                            waiter: Waiting::NoPool,
                            inner: InnerCheckoutConnecting::ConnectingDelayed(connector),
                            connection: None::<C>,
                            id: old(self).id,
                        },
                    )
                    &&& *final(self) == (Checkout {
                        inner: InnerCheckoutConnecting::ConnectingWithDelayDrop(None),
                        ..*old(self)
                    })
                },
                _ => delayed is None && *final(self) == *old(self),
            },
    {
        let token = self.token;
        let pool = self.pool;
        let id = self.id;
        match &mut self.inner {
            InnerCheckoutConnecting::ConnectingWithDelayDrop(connector) => {
                match connector.take() {
                    Some(connector) => Some(
                        Checkout {
                            token,
                            pool,
                            waiter: Waiting::NoPool,
                            inner: InnerCheckoutConnecting::ConnectingDelayed(connector),
                            connection: None,
                            id,
                        },
                    ),
                    None => None,
                }
            },
            _ => None,
        }
    }

    /// Decides what is to be done when the checkout is dropped. An attempt is only
    /// given up where it does not go on by itself.
    pub fn on_drop(&mut self) -> (action: CheckoutDrop<C, N>)
        ensures
            match old(self).inner {
                InnerCheckoutConnecting::ConnectingWithDelayDrop(Some(connector)) => {
                    &&& action == CheckoutDrop::Continue(
                        Checkout {
                            token: old(self).token,
                            pool: old(self).pool,
                            waiter: Waiting::NoPool,
                            inner: InnerCheckoutConnecting::ConnectingDelayed(connector),
                            connection: None::<C>,
                            id: old(self).id,
                        },
                    )
                    &&& *final(self) == (Checkout {
                        inner: InnerCheckoutConnecting::ConnectingWithDelayDrop(None),
                        ..*old(self)
                    })
                },
                _ => {
                    &&& action == if old(self).pool == PoolRef::Attached {
                        CheckoutDrop::<C, N>::Cancel(old(self).token)
                    } else {
                        CheckoutDrop::<C, N>::Nothing
                    }
                    &&& *final(self) == *old(self)
                },
            },
    {
        match self.as_delayed() {
            Some(delayed) => CheckoutDrop::Continue(delayed),
            None => if self.pool.is_none() {
                CheckoutDrop::Nothing
            } else {
                CheckoutDrop::Cancel(self.token)
            },
        }
    }
}

/// A checkout that waits hears of a connection that is delivered, and of that none will be.
/// While nothing is delivered, one that makes an attempt of its own goes on with that, and one
/// that waits for another's attempt waits. Without a pool there is nothing to wait for.
pub proof fn law_waiting_hears_of_deliveries<C>(
    receiver: Receiver<Pooled<C>>,
    received: Poll<Result<Pooled<C>, RecvError>>,
    idle: Poll<WaitingPoll<C>>,
    connecting: Poll<WaitingPoll<C>>,
    alone: Poll<WaitingPoll<C>>,
)
    requires
        call_ensures(Waiting::<C>::poll, (&Waiting::Idle(receiver), received), idle),
        call_ensures(Waiting::<C>::poll, (&Waiting::Connecting(receiver), received), connecting),
        call_ensures(Waiting::<C>::poll, (&Waiting::NoPool, received), alone),
    ensures
        received matches Poll::Ready(Ok(pooled)) ==> idle == Poll::Ready(
            WaitingPoll::Connected(pooled),
        ) && connecting == idle,
        received is Ready && received->Ready_0 is Err ==> idle == Poll::Ready(
            WaitingPoll::<C>::Closed,
        ) && connecting == idle,
        received is Pending ==> idle == Poll::Ready(WaitingPoll::<C>::NotReady)
            && connecting is Pending,
        alone == Poll::Ready(WaitingPoll::<C>::Closed),
{
}

/// Once a checkout has stopped waiting, nothing that is delivered reaches it.
pub proof fn law_closed_waiter_hears_nothing<C>(
    before: Waiting<C>,
    after: Waiting<C>,
    received: Poll<Result<Pooled<C>, RecvError>>,
    heard: Poll<WaitingPoll<C>>,
)
    requires
        exists|m: &mut Waiting<C>|
            *m == before && *final(m) == after && #[trigger] call_ensures(
                Waiting::<C>::close,
                (m,),
                (),
            ),
        call_ensures(Waiting::<C>::poll, (&after, received), heard),
    ensures
        heard == Poll::Ready(WaitingPoll::<C>::Closed),
{
}

/// A checkout that the pool had a connection for has that, and makes no attempt. One that was
/// given something to connect with makes an attempt, which outlives it where the pool is
/// configured so. Any other waits for the attempt of another.
pub proof fn law_checkout_has_a_connection_or_an_attempt<C, N>(
    token: Token,
    link: PoolRef,
    receiver: Receiver<Pooled<C>>,
    connect: Option<N>,
    connection: Option<C>,
    config: Config,
    id: CheckoutId,
    checkout: Checkout<C, N>,
)
    requires
        call_ensures(
            Checkout::<C, N>::new,
            (token, link, receiver, connect, connection, &config, id),
            checkout,
        ),
    ensures
        checkout.token == token && checkout.pool == link && checkout.id == id,
        checkout.connection == connection,
        connection is Some ==> checkout.inner is Connected && checkout.waiter == Waiting::Idle(
            receiver,
        ),
        connection is None && connect is Some ==> {
            &&& checkout.waiter == Waiting::Idle(receiver)
            &&& config.continue_after_preemption ==> checkout.inner
                == InnerCheckoutConnecting::ConnectingWithDelayDrop(connect)
            &&& !config.continue_after_preemption ==> checkout.inner
                == InnerCheckoutConnecting::Connecting(connect->0)
        },
        connection is None && connect is None ==> checkout.inner is Waiting && checkout.waiter
            == Waiting::Connecting(receiver),
{
}

/// A checkout without a pool makes its own attempt and waits for nothing else; what it is
/// delivered counts for nothing, and dropping it tells nobody.
pub proof fn law_detached_checkout_goes_alone<C, N, T, P>(
    token: Token,
    connector: N,
    id: CheckoutId,
    checkout: Checkout<C, N>,
    received: Poll<Result<Pooled<C>, RecvError>>,
    step: CheckoutStep<C, T, P>,
    polled: Checkout<C, N>,
    action: CheckoutDrop<C, N>,
    dropped: Checkout<C, N>,
)
    requires
        call_ensures(Checkout::<C, N>::detached, (token, connector, id), checkout),
        exists|m: &mut Checkout<C, N>|
            *m == checkout && *final(m) == polled && #[trigger] call_ensures(
                Checkout::<C, N>::poll::<T, P>,
                (m, received),
                step,
            ),
        exists|m: &mut Checkout<C, N>|
            *m == polled && *final(m) == dropped && #[trigger] call_ensures(
                Checkout::<C, N>::on_drop,
                (m,),
                action,
            ),
    ensures
        checkout.inner == InnerCheckoutConnecting::Connecting(connector),
        checkout.token == token && checkout.id == id,
        step is PollConnector,
        action is Nothing,
{
}

/// An attempt that may outlive its checkout is split off once, whole, for the same host.
pub proof fn law_attempt_is_split_off_once<C, N>(
    before: Checkout<C, N>,
    connector: N,
    delayed: Option<Checkout<C, N>>,
    between: Checkout<C, N>,
    again: Option<Checkout<C, N>>,
    after: Checkout<C, N>,
)
    requires
        before.inner == InnerCheckoutConnecting::ConnectingWithDelayDrop(Some(connector)),
        exists|m: &mut Checkout<C, N>|
            *m == before && *final(m) == between && #[trigger] call_ensures(
                Checkout::<C, N>::as_delayed,
                (m,),
                delayed,
            ),
        exists|m: &mut Checkout<C, N>|
            *m == between && *final(m) == after && #[trigger] call_ensures(
                Checkout::<C, N>::as_delayed,
                (m,),
                again,
            ),
    ensures
        delayed is Some,
        delayed->0.inner == InnerCheckoutConnecting::ConnectingDelayed(connector),
        delayed->0.token == before.token && delayed->0.pool == before.pool && delayed->0.id
            == before.id,
        delayed->0.connection is None,
        delayed->0.waiter is NoPool,
        again is None,
        after == between,
{
}

/// Checkouts are numbered one after the other, and named by their numbers.
pub proof fn law_checkouts_are_numbered(
    ids: Counter,
    first: CheckoutId,
    between: Counter,
    second: CheckoutId,
    after: Counter,
    shown: String,
    number: String,
)
    requires
        exists|m: &mut Counter|
            *m == ids && *final(m) == between && #[trigger] call_ensures(
                CheckoutId::new,
                (m,),
                first,
            ),
        exists|m: &mut Counter|
            *m == between && *final(m) == after && #[trigger] call_ensures(
                CheckoutId::new,
                (m,),
                second,
            ),
        call_ensures(CheckoutId::to_string, (&first,), shown),
        call_ensures(text::decimal, (first.0 as u128,), number),
    ensures
        second != first,
        first.0 < usize::MAX ==> second.0 == first.0 + 1,
        shown@ == "checkout-"@ + number@,
{
}

} // verus!
