//! Where the pool delivers a connection that somebody is waiting for.

use vstd::prelude::*;

verus! {

/// Somebody who waits for one item.
///
/// Whether anybody still listens is decided on the other side, so two calls may
/// answer differently; the relations say which answers a call may give.
pub trait Waiter<T>: Sized {
    /// Whether a call of [`is_closed`](Self::is_closed) may answer `closed`.
    spec fn reports_closed(&self, closed: bool) -> bool;

    /// Whether a call of [`send`](Self::send) with `item` may answer `answer`.
    spec fn answers(self, item: T, answer: Result<(), T>) -> bool;

    /// Whether nobody listens any more.
    fn is_closed(&self) -> (closed: bool)
        ensures
            self.reports_closed(closed),
    ;

    /// Delivers the item, or gives it back where nobody listens any more.
    fn send(self, item: T) -> (answer: Result<(), T>)
        ensures
            self.answers(item, answer),
            answer matches Err(back) ==> back == item,
    ;
}

/// The sending half of a channel for one value.
#[verifier::external_type_specification]
#[verifier::external_body]
#[verifier::reject_recursive_types(T)]
pub struct ExSender<T>(tokio::sync::oneshot::Sender<T>);

/// Calls [`tokio::sync::oneshot::Sender::is_closed`]. The answer depends on what
/// the receiver has done by the time of the call, so nothing is claimed of it.
#[verifier::external_body]
fn oneshot_is_closed<T>(sender: &tokio::sync::oneshot::Sender<T>) -> bool {
    sender.is_closed()
}

/// Calls [`tokio::sync::oneshot::Sender::send`]. Whether it succeeds depends on the
/// receiver; where it fails, it hands back the value that it was given.
#[verifier::external_body]
fn oneshot_send<T>(sender: tokio::sync::oneshot::Sender<T>, item: T) -> (answer: Result<(), T>)
    ensures
        answer matches Err(back) ==> back == item,
{
    sender.send(item)
}

impl<T> Waiter<T> for tokio::sync::oneshot::Sender<T> {
    closed spec fn reports_closed(&self, closed: bool) -> bool {
        call_ensures(oneshot_is_closed::<T>, (self,), closed)
    }

    closed spec fn answers(self, item: T, answer: Result<(), T>) -> bool {
        call_ensures(oneshot_send::<T>, (self, item), answer)
    }

    fn is_closed(&self) -> (closed: bool) {
        oneshot_is_closed(self)
    }

    fn send(self, item: T) -> (answer: Result<(), T>) {
        oneshot_send(self, item)
    }
}

/// Whoever waits is asked and sent to over the channel alone: the answers are those of its
/// sending half, and an item that is not taken comes back.
pub proof fn law_waiter_answers_for_its_channel<T>(
    sender: tokio::sync::oneshot::Sender<T>,
    closed: bool,
    item: T,
    answer: Result<(), T>,
)
    requires
        call_ensures(
            <tokio::sync::oneshot::Sender<T> as Waiter<T>>::is_closed,
            (&sender,),
            closed,
        ),
        call_ensures(
            <tokio::sync::oneshot::Sender<T> as Waiter<T>>::send,
            (sender, item),
            answer,
        ),
    ensures
        Waiter::<T>::reports_closed(&sender, closed),
        sender.answers(item, answer),
        answer matches Err(back) ==> back == item,
{
    assert(call_ensures(oneshot_is_closed::<T>, (&sender,), closed));
    assert(call_ensures(oneshot_send::<T>, (sender, item), answer));
}

} // verus!
