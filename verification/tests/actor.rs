//! The actor on its own: requests are handed to it directly, and the replies
//! are read from the one-shot channels.

use id_actor::{Actor, Handle, Message, Status};
use tokio::sync::mpsc;
use tokio::sync::oneshot;
use tokio::sync::oneshot::error::TryRecvError;

fn fresh_actor() -> (mpsc::Sender<Message>, Actor) {
    let (sender, receiver) = mpsc::channel(8);
    (sender, Actor::new(receiver))
}

fn ask(actor: &mut Actor) -> oneshot::Receiver<u32> {
    let (response_to, reply) = oneshot::channel();
    actor.handle_message(Message::GetUniqueId { response_to });
    reply
}

fn running(status: Status) -> Actor {
    match status {
        Status::Running(actor) => actor,
        Status::Terminated => panic!("the actor has stopped"),
    }
}

#[test]
fn new_actor_has_issued_nothing() {
    let (_sender, actor) = fresh_actor();
    assert_eq!(actor.issued(), 0);
}

#[test]
fn new_actor_keeps_the_receiver_it_was_given() {
    let (sender, mut actor) = fresh_actor();
    let (response_to, _reply) = oneshot::channel();
    assert!(sender.try_send(Message::GetUniqueId { response_to }).is_ok());
    assert!(actor.receiver().try_recv().is_ok());
    assert_eq!(actor.issued(), 0);
}

#[test]
fn next_unique_id_counts_up_from_one() {
    let (_sender, mut actor) = fresh_actor();
    assert_eq!(actor.next_unique_id(), 1);
    assert_eq!(actor.next_unique_id(), 2);
    assert_eq!(actor.next_unique_id(), 3);
    assert_eq!(actor.issued(), 3);
}

#[test]
fn thousandth_identifier_is_one_thousand() {
    let (_sender, mut actor) = fresh_actor();
    for _ in 0..999 {
        actor.next_unique_id();
    }
    assert_eq!(actor.next_unique_id(), 1000);
}

#[test]
fn first_reply_is_one() {
    let (_sender, mut actor) = fresh_actor();
    let mut reply = ask(&mut actor);
    assert_eq!(reply.try_recv(), Ok(1));
    assert_eq!(actor.issued(), 1);
}

#[test]
fn replies_count_up_from_one() {
    let (_sender, mut actor) = fresh_actor();
    for k in 1..=50u32 {
        let mut reply = ask(&mut actor);
        assert_eq!(reply.try_recv(), Ok(k));
        assert_eq!(actor.issued(), k);
    }
}

#[test]
fn replies_are_pairwise_distinct() {
    let (_sender, mut actor) = fresh_actor();
    let mut seen: Vec<u32> = Vec::new();
    for _ in 0..200 {
        let mut reply = ask(&mut actor);
        let id = reply.try_recv().unwrap();
        assert!(!seen.contains(&id));
        seen.push(id);
    }
    assert_eq!(seen.len(), 200);
}

#[test]
fn replies_strictly_increase() {
    let (_sender, mut actor) = fresh_actor();
    let mut last = 0;
    for _ in 0..100 {
        let mut reply = ask(&mut actor);
        let id = reply.try_recv().unwrap();
        assert!(id > last);
        last = id;
    }
}

#[test]
fn reply_waits_in_its_channel_until_it_is_read() {
    let (_sender, mut actor) = fresh_actor();
    let first = ask(&mut actor);
    let second = ask(&mut actor);
    assert_eq!(second.blocking_recv().ok(), Some(2));
    assert_eq!(first.blocking_recv().ok(), Some(1));
}

#[test]
fn identifiers_taken_directly_and_by_request_come_from_one_counter() {
    let (_sender, mut actor) = fresh_actor();
    assert_eq!(actor.next_unique_id(), 1);
    let mut reply = ask(&mut actor);
    assert_eq!(reply.try_recv(), Ok(2));
    assert_eq!(actor.next_unique_id(), 3);
}

#[test]
fn abandoned_request_still_spends_its_identifier() {
    let (_sender, mut actor) = fresh_actor();
    let (response_to, reply) = oneshot::channel();
    drop(reply);
    actor.handle_message(Message::GetUniqueId { response_to });
    assert_eq!(actor.issued(), 1);
    let mut next = ask(&mut actor);
    assert_eq!(next.try_recv(), Ok(2));
}

#[test]
fn abandoned_requests_do_not_stop_the_actor() {
    let (_sender, mut actor) = fresh_actor();
    let mut kept: Vec<u32> = Vec::new();
    for k in 1..=20u32 {
        let (response_to, mut reply) = oneshot::channel();
        if k % 2 == 0 {
            reply.close();
        }
        actor = running(actor.step(Some(Message::GetUniqueId { response_to })));
        if k % 2 == 1 {
            kept.push(reply.try_recv().unwrap());
        } else {
            assert_eq!(reply.try_recv(), Err(TryRecvError::Closed));
        }
    }
    assert_eq!(kept, vec![1, 3, 5, 7, 9, 11, 13, 15, 17, 19]);
    assert_eq!(actor.issued(), 20);
}

#[test]
fn step_serves_a_request_and_runs_on() {
    let (_sender, actor) = fresh_actor();
    let (response_to, mut reply) = oneshot::channel();
    let actor = running(actor.step(Some(Message::GetUniqueId { response_to })));
    assert_eq!(reply.try_recv(), Ok(1));
    assert_eq!(actor.issued(), 1);
}

#[test]
fn step_keeps_the_receiving_end() {
    let (sender, actor) = fresh_actor();
    let (response_to, _first) = oneshot::channel();
    let mut actor = running(actor.step(Some(Message::GetUniqueId { response_to })));
    let (response_to, mut second) = oneshot::channel();
    assert!(sender.try_send(Message::GetUniqueId { response_to }).is_ok());
    let received = actor.receiver().try_recv().ok();
    assert!(received.is_some());
    let actor = running(actor.step(received));
    assert_eq!(second.try_recv(), Ok(2));
    assert_eq!(actor.issued(), 2);
}

#[test]
fn step_stops_at_the_end_of_the_queue() {
    let (_sender, mut actor) = fresh_actor();
    let _ = ask(&mut actor);
    assert!(matches!(actor.step(None), Status::Terminated));
}

#[test]
fn stopped_actor_closes_the_queue() {
    let (sender, actor) = fresh_actor();
    assert!(!sender.is_closed());
    assert!(matches!(actor.step(None), Status::Terminated));
    assert!(sender.is_closed());
}

#[test]
fn actor_stops_when_every_handle_is_gone() {
    let (handle, mut actor) = Handle::new();
    let clone = handle.clone();
    let (message, mut reply) = clone.request();
    assert!(clone.sender().try_send(message).is_ok());
    drop(handle);
    drop(clone);
    let received = actor.receiver().blocking_recv();
    assert!(received.is_some());
    let mut actor = running(actor.step(received));
    assert_eq!(reply.try_recv(), Ok(1));
    let received = actor.receiver().blocking_recv();
    assert!(received.is_none());
    assert!(matches!(actor.step(received), Status::Terminated));
}

#[test]
fn unsent_reply_is_lost_when_the_request_is_dropped() {
    let (response_to, mut reply) = oneshot::channel::<u32>();
    let message = Message::GetUniqueId { response_to };
    assert_eq!(reply.try_recv(), Err(TryRecvError::Empty));
    drop(message);
    assert_eq!(reply.try_recv(), Err(TryRecvError::Closed));
}
