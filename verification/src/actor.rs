//! The actor: the one owner of the counter, which serves one request at a time.

use crate::protocol::ActorState;
use tokio::sync::mpsc;
use tokio::sync::oneshot;
use vstd::prelude::*;

verus! {

/// A request to the actor. Each kind carries the sending half of the one-shot
/// channel on which its answer is expected.
pub enum Message {
    /// Asks for an identifier that no other request was or will be given.
    GetUniqueId { response_to: oneshot::Sender<u32> },
}

/// The owner of the counter and of the receiving end of the queue of requests.
pub struct Actor {
    receiver: mpsc::Receiver<Message>,
    next_id: u32,
}

/// The two states of an actor's life. The way from the first to the second is
/// one way: `step` uses the actor up, and a stopped actor is not handed back.
pub enum Status {
    /// The actor is ready for the next request.
    Running(Actor),
    /// The queue is used up and every sending end is gone. The actor has stopped
    /// for good; its counter and its receiving end are no more.
    Terminated,
}

impl View for Actor {
    type V = ActorState;

    closed spec fn view(&self) -> ActorState {
        ActorState { next_id: self.next_id as nat }
    }
}

impl Actor {
    /// The receiving end that the actor owns.
    pub closed spec fn receiving_end(&self) -> mpsc::Receiver<Message> {
        self.receiver
    }

    /// Whether the counter can still move on: the last identifier that fits the
    /// counter's type has not been given out.
    pub open spec fn can_serve(&self) -> bool {
        self@.next_id < u32::MAX
    }

    /// An actor that has served no request and will read from `receiver`.
    pub fn new(receiver: mpsc::Receiver<Message>) -> (actor: Self)
        ensures
            actor@ == ActorState::fresh(),
            actor.receiving_end() == receiver,
    {
        Self { receiver, next_id: 0 }
    }

    /// Takes the next identifier: moves the counter on by one and gives its new
    /// value, which no earlier call was given and no later call will be.
    pub fn next_unique_id(&mut self) -> (id: u32)
        requires
            old(self).can_serve(),
        ensures
            id == old(self)@.reply(),
            final(self)@ == old(self)@.advance(),
            final(self).receiving_end() == old(self).receiving_end(),
    {
        self.next_id += 1;
        self.next_id
    }

    /// Serves one request: takes the next identifier, as `next_unique_id` does,
    /// and sends it to the caller. A caller that has stopped waiting costs the
    /// actor nothing but the identifier: the counter moves on all the same, and
    /// the failed delivery is dropped without a word.
    pub fn handle_message(&mut self, message: Message)
        requires
            old(self).can_serve(),
        ensures
            final(self)@ == old(self)@.advance(),
            final(self).receiving_end() == old(self).receiving_end(),
    {
        match message {
            Message::GetUniqueId { response_to } => {
                let id = self.next_unique_id();
                let _ = response_to.send(id);
            },
        }
    }

    /// One turn of the actor's loop, on what the receiving end gave. A request is
    /// served, as `handle_message` does, and the actor runs on. The end of the
    /// queue, which means that no sending end is left, stops it.
    pub fn step(self, received: Option<Message>) -> (status: Status)
        requires
            received is Some ==> self.can_serve(),
        ensures
            received is Some ==> ({
                &&& status matches Status::Running(actor)
                &&& actor@ == self@.advance()
                &&& actor.receiving_end() == self.receiving_end()
            }),
            received is None ==> status is Terminated,
    {
        match received {
            Some(message) => {
                let mut actor = self;
                actor.handle_message(message);
                Status::Running(actor)
            },
            None => Status::Terminated,
        }
    }

    /// The receiving end, for the one that waits on it for the next request. The
    /// counter is out of its reach.
    pub fn receiver(&mut self) -> (receiver: &mut mpsc::Receiver<Message>)
        ensures
            *receiver == old(self).receiving_end(),
            final(self).receiving_end() == *final(receiver),
            final(self)@ == old(self)@,
    {
        &mut self.receiver
    }

    /// The number of requests served so far, which is also the identifier given
    /// out last.
    pub fn issued(&self) -> (count: u32)
        ensures
            count == self@.next_id,
    {
        self.next_id
    }
}

} // verus!
