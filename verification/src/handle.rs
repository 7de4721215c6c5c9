//! The handle: what callers hold to reach the actor.

use crate::actor::{Actor, Message};
use crate::channel::{
    bounded_queue, clone_sender, max_capacity, same_channel, sender_max_capacity,
    sender_same_channel,
};
use crate::protocol::ActorState;
use tokio::sync::mpsc;
use tokio::sync::oneshot;
use vstd::prelude::*;

verus! {

/// The number of requests that the queue of a handle made by `Handle::new` holds.
pub const DEFAULT_CAPACITY: usize = 8;

/// The end of a call whose reply can no longer come: the actor is gone.
#[derive(Clone, Copy, Debug, PartialEq, Eq, Structural)]
pub struct ActorKilled;

impl ActorKilled {
    /// The words with which a caller gives up.
    pub fn message(&self) -> (text: String)
        ensures
            text@ == "Actor has been killed"@,
    {
        "Actor has been killed".to_string()
    }
}

/// A sending end of the queue of requests. It may be cloned at will: every clone
/// reaches the same actor.
pub struct Handle {
    sender: mpsc::Sender<Message>,
}

impl Handle {
    /// The sending end that the handle holds.
    pub closed spec fn sending_end(&self) -> mpsc::Sender<Message> {
        self.sender
    }

    /// The number of requests that may wait in the queue at one time.
    pub open spec fn queue_capacity(&self) -> usize {
        max_capacity(self.sending_end())
    }

    /// Whether the requests made through `self` and through `other` go to one
    /// queue, and so to one actor.
    pub open spec fn shares_queue_with(&self, other: &Handle) -> bool {
        same_channel(self.sending_end(), other.sending_end())
    }

    /// A handle on the sending end of a queue and a fresh actor on its receiving
    /// end. The actor has yet to be run.
    pub fn on_queue(ends: (mpsc::Sender<Message>, mpsc::Receiver<Message>)) -> (pair: (
        Handle,
        Actor,
    ))
        ensures
            pair.0.sending_end() == ends.0,
            pair.1.receiving_end() == ends.1,
            pair.1@ == ActorState::fresh(),
    {
        let (sender, receiver) = ends;
        let actor = Actor::new(receiver);
        (Handle { sender }, actor)
    }

    /// A new queue for up to `capacity` requests, with a handle and a fresh actor
    /// on its two ends, as `on_queue` puts them there.
    pub fn with_capacity(capacity: usize) -> (pair: (Handle, Actor))
        requires
            1 <= capacity <= usize::MAX / 8,
        ensures
            pair.0.queue_capacity() == capacity,
            pair.1@ == ActorState::fresh(),
    {
        Handle::on_queue(bounded_queue(capacity))
    }

    /// A handle and its actor, joined by a new queue for `DEFAULT_CAPACITY`
    /// requests. The actor has yet to be run.
    pub fn new() -> (pair: (Handle, Actor))
        ensures
            pair.0.queue_capacity() == DEFAULT_CAPACITY,
            pair.1@ == ActorState::fresh(),
    {
        Handle::with_capacity(DEFAULT_CAPACITY)
    }

    /// The sending end, for the one that waits on it for room in the queue.
    pub fn sender(&self) -> (sender: &mpsc::Sender<Message>)
        ensures
            *sender == self.sending_end(),
    {
        &self.sender
    }

    /// A request for an identifier that is to be answered on the first of the two
    /// halves of a one-shot channel, and the second half, on which the caller
    /// waits for the answer.
    pub fn request_on(halves: (oneshot::Sender<u32>, oneshot::Receiver<u32>)) -> (pair: (
        Message,
        oneshot::Receiver<u32>,
    ))
        ensures
            pair.0 == (Message::GetUniqueId { response_to: halves.0 }),
            pair.1 == halves.1,
    {
        let (response_to, reply) = halves;
        (Message::GetUniqueId { response_to }, reply)
    }

    /// A request for an identifier on a new one-shot channel, as `request_on`
    /// makes it, and the half of the channel on which the reply will come.
    pub fn request(&self) -> (pair: (Message, oneshot::Receiver<u32>))
        ensures
            pair.0 is GetUniqueId,
    {
        Handle::request_on(oneshot::channel())
    }

    /// Reads the end of the wait for a reply: the identifier that came, or, where
    /// the sending half was dropped unused, the news that the actor is gone.
    pub fn reply_id(reply: Result<u32, oneshot::error::RecvError>) -> (id: Result<u32, ActorKilled>)
        ensures
            reply matches Ok(given) ==> id == Ok::<u32, ActorKilled>(given),
            reply is Err ==> id == Err::<u32, ActorKilled>(ActorKilled),
    {
        match reply {
            Ok(given) => Ok(given),
            Err(_) => Err(ActorKilled),
        }
    }

    /// The number of requests that may wait in the queue at one time.
    pub fn capacity(&self) -> (capacity: usize)
        ensures
            capacity == self.queue_capacity(),
    {
        sender_max_capacity(&self.sender)
    }

    /// Whether `self` and `other` reach the same actor.
    pub fn same_actor(&self, other: &Handle) -> (same: bool)
        ensures
            same == self.shares_queue_with(other),
    {
        sender_same_channel(&self.sender, &other.sender)
    }
}

impl Clone for Handle {
    /// Another handle on the same queue: what is asked through the clone is
    /// served by the same actor, from the same counter.
    fn clone(&self) -> (copy: Self)
        ensures
            self.shares_queue_with(&copy),
            copy.queue_capacity() == self.queue_capacity(),
    {
        Handle { sender: clone_sender(&self.sender) }
    }
}

} // verus!
