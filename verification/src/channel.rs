//! What this crate takes on trust from tokio's channels. Nothing in this file is
//! proved: each item states what tokio's source shows of one of its types or
//! functions.

use crate::actor::Message;
use tokio::sync::mpsc;
use tokio::sync::oneshot;
use vstd::prelude::*;

verus! {

/// `tokio::sync::oneshot::Sender`, the half of a one-shot channel through which
/// the actor replies. Nothing is known of its inside.
#[verifier::external_type_specification]
#[verifier::external_body]
#[verifier::reject_recursive_types(T)]
pub struct ExReplySender<T>(oneshot::Sender<T>);

/// `tokio::sync::oneshot::Receiver`, the half of a one-shot channel on which a
/// caller waits. Nothing is known of its inside.
#[verifier::external_type_specification]
#[verifier::external_body]
#[verifier::reject_recursive_types(T)]
pub struct ExReplyReceiver<T>(oneshot::Receiver<T>);

/// `tokio::sync::oneshot::error::RecvError`, with which a wait on a one-shot
/// channel ends when the sending half was dropped unused.
#[verifier::external_type_specification]
#[verifier::external_body]
pub struct ExReplyLost(oneshot::error::RecvError);

/// `tokio::sync::mpsc::Sender`, a sending end of the bounded queue of requests.
/// Nothing is known of its inside.
#[verifier::external_type_specification]
#[verifier::external_body]
#[verifier::reject_recursive_types(T)]
pub struct ExQueueSender<T>(mpsc::Sender<T>);

/// `tokio::sync::mpsc::Receiver`, the receiving end of the bounded queue of
/// requests. Nothing is known of its inside.
#[verifier::external_type_specification]
#[verifier::external_body]
#[verifier::reject_recursive_types(T)]
pub struct ExQueueReceiver<T>(mpsc::Receiver<T>);

/// `tokio::sync::oneshot::channel` makes the two halves of a fresh one-shot
/// channel. It takes nothing and does not panic; nothing is claimed of the
/// halves.
pub assume_specification<T>[ oneshot::channel::<T> ]() -> (halves: (
    oneshot::Sender<T>,
    oneshot::Receiver<T>,
));

/// `tokio::sync::oneshot::Sender::send` uses up the sending half and does not
/// wait. It answers `Ok` when the receiving half had not hung up, and otherwise
/// hands back the value it was given. Which of the two happens is the caller's
/// doing, so only the second part is claimed.
pub assume_specification<T>[ oneshot::Sender::<T>::send ](
    sender: oneshot::Sender<T>,
    t: T,
) -> (sent: Result<(), T>)
    ensures
        sent matches Err(returned) ==> returned == t,
;

/// The number of requests that the queue behind `sender` was made to hold: the
/// answer of `tokio::sync::mpsc::Sender::max_capacity`, which stays the same for
/// as long as the queue lives.
pub uninterp spec fn max_capacity(sender: mpsc::Sender<Message>) -> usize;

/// Whether two sending ends feed one queue: the answer of
/// `tokio::sync::mpsc::Sender::same_channel`.
pub uninterp spec fn same_channel(a: mpsc::Sender<Message>, b: mpsc::Sender<Message>) -> bool;

/// `tokio::sync::mpsc::channel` makes a queue that holds up to `capacity`
/// requests and hands out its two ends. It panics on a capacity of zero and on
/// one above `usize::MAX >> 3`, tokio's limit for a semaphore. The sending end
/// reports the capacity that the queue was made with.
#[verifier::external_body]
pub(crate) fn bounded_queue(capacity: usize) -> (ends: (
    mpsc::Sender<Message>,
    mpsc::Receiver<Message>,
))
    requires
        1 <= capacity <= usize::MAX / 8,
    ensures
        max_capacity(ends.0) == capacity,
{
    mpsc::channel(capacity)
}

/// `Clone::clone` of `tokio::sync::mpsc::Sender` gives another sending end of
/// the same queue, which therefore has the same capacity.
#[verifier::external_body]
pub(crate) fn clone_sender(sender: &mpsc::Sender<Message>) -> (copy: mpsc::Sender<Message>)
    ensures
        same_channel(*sender, copy),
        max_capacity(copy) == max_capacity(*sender),
{
    sender.clone()
}

/// `tokio::sync::mpsc::Sender::max_capacity` reads the capacity that the queue
/// was made with.
#[verifier::external_body]
pub(crate) fn sender_max_capacity(sender: &mpsc::Sender<Message>) -> (capacity: usize)
    ensures
        capacity == max_capacity(*sender),
{
    sender.max_capacity()
}

/// `tokio::sync::mpsc::Sender::same_channel` compares the queues that two
/// sending ends feed.
#[verifier::external_body]
pub(crate) fn sender_same_channel(a: &mpsc::Sender<Message>, b: &mpsc::Sender<Message>) -> (same:
    bool)
    ensures
        same == same_channel(*a, *b),
{
    a.same_channel(b)
}

} // verus!
