//! The queues between the native side and the interpreter's thread.
//!
//! The queues are `crossbeam`'s unbounded channels. Other threads fill and
//! empty them at any time, so nothing here says what a queue holds. What
//! the library itself hands to a queue is another matter: it sends only
//! through an `Outbox`, which keeps a record of what it handed over.
//! An `Outbox` is made only by opening a queue without a bound, so the
//! library never sends on a queue that could be full.

use crossbeam::channel::{Receiver, Sender};
use vstd::prelude::*;

verus! {

#[verifier::external_type_specification]
#[verifier::external_body]
#[verifier::reject_recursive_types(T)]
pub struct ExSender<T>(Sender<T>);

#[verifier::external_type_specification]
#[verifier::external_body]
#[verifier::reject_recursive_types(T)]
pub struct ExReceiver<T>(Receiver<T>);

/// A sending end of a queue without a bound.
#[verifier::reject_recursive_types(T)]
pub struct QueueEnd<T> {
    sender: Sender<T>,
}

/// `crossbeam::channel::unbounded`: a new queue without a bound, as its two
/// ends.
#[verifier::external_body]
fn open_queue<T>() -> (ends: (QueueEnd<T>, Receiver<T>)) {
    let (sender, receiver) = crossbeam::channel::unbounded();
    (QueueEnd { sender }, receiver)
}

/// `Sender::send` on a queue without a bound: puts `item` at the back of
/// the queue and says whether the queue took it. A queue whose receiving
/// ends are all gone takes nothing. The queue has no bound, so the call
/// never waits.
#[verifier::external_body]
fn send<T>(end: &QueueEnd<T>, item: T) -> (taken: bool) {
    end.sender.send(item).is_ok()
}

/// `Receiver::try_recv`: takes the item at the front of the queue, if the
/// queue holds one now. It never waits.
#[verifier::external_body]
pub(crate) fn try_recv<T>(receiver: &Receiver<T>) -> (item: Option<T>) {
    receiver.try_recv().ok()
}

/// `Receiver::len`: how many items the queue held at the moment of the call.
#[verifier::external_body]
pub(crate) fn queued<T>(receiver: &Receiver<T>) -> (count: usize) {
    receiver.len()
}

/// `Sender::clone` on a queue without a bound: one more sending end of the
/// same queue. An end stands for the queue it belongs to, so it equals the
/// end it was made from.
#[verifier::external_body]
fn another_sender<T>(end: &QueueEnd<T>) -> (other: Sender<T>)
    ensures
        other == end.sender,
{
    end.sender.clone()
}

/// `Sender::clone` on a queue without a bound, kept as an end of a queue
/// without a bound.
#[verifier::external_body]
fn another_end<T>(end: &QueueEnd<T>) -> (other: QueueEnd<T>)
    ensures
        other == *end,
{
    QueueEnd { sender: end.sender.clone() }
}

/// `Receiver::clone`: one more receiving end of the same queue. An end
/// stands for the queue it belongs to, so the two are equal.
#[verifier::external_body]
pub(crate) fn another_receiver<T>(receiver: &Receiver<T>) -> (other: Receiver<T>)
    ensures
        other == *receiver,
{
    receiver.clone()
}

/// A sending end of a queue without a bound, with the record of what was
/// handed to the queue through it. Sending through it never waits.
#[verifier::reject_recursive_types(T)]
pub struct Outbox<T> {
    queue: QueueEnd<T>,
    handed: Ghost<Seq<T>>,
}

impl<T> Outbox<T> {
    /// The sending end that the `Outbox` holds.
    pub closed spec fn end(&self) -> Sender<T> {
        self.queue.sender
    }

    /// What was handed to the queue through this `Outbox`, oldest first,
    /// whether or not somebody still listened.
    pub closed spec fn offered(&self) -> Seq<T> {
        self.handed@
    }

    /// Opens a queue without a bound: its sending end as an `Outbox`
    /// through which nothing was sent yet, and its receiving end.
    pub fn open() -> (ends: (Outbox<T>, Receiver<T>))
        ensures
            ends.0.offered() == Seq::<T>::empty(),
    {
        let (queue, receiver) = open_queue();
        (Outbox { queue, handed: Ghost(Seq::empty()) }, receiver)
    }

    /// Another `Outbox` of the same queue, through which nothing was sent
    /// yet.
    pub fn share(&self) -> (shared: Outbox<T>)
        ensures
            shared.end() == self.end(),
            shared.offered() == Seq::<T>::empty(),
    {
        Outbox { queue: another_end(&self.queue), handed: Ghost(Seq::empty()) }
    }

    /// A sending end of the same queue, for the native side.
    pub fn sender(&self) -> (sender: Sender<T>)
        ensures
            sender == self.end(),
    {
        another_sender(&self.queue)
    }

    /// Hands `item` to the queue, at its back, without waiting, and says
    /// whether the queue took it: it takes nothing once nobody listens.
    pub fn send(&mut self, item: T) -> (taken: bool)
        ensures
            final(self).end() == old(self).end(),
            final(self).offered() == old(self).offered().push(item),
    {
        let taken = send(&self.queue, item);
        self.handed = Ghost(self.handed@.push(item));
        taken
    }
}

} // verus!
