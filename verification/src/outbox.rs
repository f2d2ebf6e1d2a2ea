//! The sending half of a source's bounded queue.

use vstd::prelude::*;

verus! {

/// Trusted: declares `tokio::sync::mpsc::Sender`, the sending half of a
/// bounded queue, as a type whose inside is not looked at.
#[verifier::external_type_specification]
#[verifier::external_body]
#[verifier::reject_recursive_types(T)]
pub struct ExSender<T>(tokio::sync::mpsc::Sender<T>);

/// What became of one item offered to the queue.
#[derive(Debug, Clone, Copy, PartialEq, Eq, Structural)]
pub enum Offer {
    /// The item is in the queue.
    Accepted,
    /// The queue holds as many items as it has room for.
    Full,
    /// The receiving half is gone.
    Closed,
}

/// Offers one item without waiting.
///
/// Trusted: stands for `tokio::sync::mpsc::Sender::try_send`, which returns
/// at once: with `Ok` when the item was queued, with `Full` when the
/// capacity is reached, with `Closed` when the receiver was closed or
/// dropped. Which of the three comes back depends on the other users of the
/// queue, so nothing is promised of it.
#[verifier::external_body]
fn try_send<T>(tx: &tokio::sync::mpsc::Sender<T>, item: T) -> (offer: Offer) {
    match tx.try_send(item) {
        Ok(()) => Offer::Accepted,
        Err(tokio::sync::mpsc::error::TrySendError::Full(_)) => Offer::Full,
        Err(tokio::sync::mpsc::error::TrySendError::Closed(_)) => Offer::Closed,
    }
}

/// A sender together with a record of what it was used for: the items the
/// queue took from it, in order, and the refusals it met, in order.
#[verifier::reject_recursive_types(T)]
pub struct Outbox<T> {
    tx: tokio::sync::mpsc::Sender<T>,
    taken: Ghost<Seq<T>>,
    turned_down: Ghost<Seq<Offer>>,
}

impl<T> Outbox<T> {
    /// The items the queue has taken through this outbox, oldest first.
    pub closed spec fn accepted(&self) -> Seq<T> {
        self.taken@
    }

    /// What the queue answered to each offer through this outbox that it
    /// refused, oldest first: `Full` or `Closed`.
    pub closed spec fn refusals(&self) -> Seq<Offer> {
        self.turned_down@
    }

    /// An outbox over a sender, with an empty record.
    pub fn new(tx: tokio::sync::mpsc::Sender<T>) -> (outbox: Self)
        ensures
            outbox.accepted() == Seq::<T>::empty(),
            outbox.refusals() == Seq::<Offer>::empty(),
    {
        Outbox { tx, taken: Ghost(Seq::empty()), turned_down: Ghost(Seq::empty()) }
    }

    /// Offers one item to the queue without waiting, and records what became
    /// of it: an accepted item is appended to the accepted ones, a refusal
    /// to the refusals.
    pub fn offer(&mut self, item: T) -> (offer: Offer)
        ensures
            offer == Offer::Accepted ==> final(self).accepted() == old(self).accepted().push(item)
                && final(self).refusals() == old(self).refusals(),
            offer != Offer::Accepted ==> final(self).accepted() == old(self).accepted()
                && final(self).refusals() == old(self).refusals().push(offer),
    {
        let offer = try_send(&self.tx, item);
        proof {
            if offer == Offer::Accepted {
                self.taken@ = self.taken@.push(item);
            } else {
                self.turned_down@ = self.turned_down@.push(offer);
            }
        }
        offer
    }
}

} // verus!
