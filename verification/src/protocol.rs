//! The actor as a mathematical object: a counter, the reply it gives to each
//! request, and what follows for every run of requests.

use vstd::prelude::*;

verus! {

/// What an actor remembers between two requests.
pub struct ActorState {
    /// The identifier given out last; zero as long as none was given out.
    pub next_id: nat,
}

impl ActorState {
    /// The state of an actor that has served no request yet.
    pub open spec fn fresh() -> ActorState {
        ActorState { next_id: 0 }
    }

    /// The identifier with which an actor in this state answers its next request.
    pub open spec fn reply(self) -> nat {
        self.next_id + 1
    }

    /// The state in which serving one request leaves the actor. Whether the reply
    /// reached the caller plays no part in it.
    pub open spec fn advance(self) -> ActorState {
        ActorState { next_id: self.reply() }
    }

    /// The state after `requests` more requests were served.
    pub open spec fn after(self, requests: nat) -> ActorState
        decreases requests,
    {
        if requests == 0 {
            self
        } else {
            self.after((requests - 1) as nat).advance()
        }
    }

    /// The replies to the next `requests` requests, in the order in which the
    /// requests are served.
    pub open spec fn replies(self, requests: nat) -> Seq<nat>
        decreases requests,
    {
        if requests == 0 {
            Seq::empty()
        } else {
            self.replies((requests - 1) as nat).push(self.after((requests - 1) as nat).reply())
        }
    }
}

/// Serving `requests` requests moves the counter on by exactly that many.
pub proof fn lemma_after(state: ActorState, requests: nat)
    ensures
        state.after(requests).next_id == state.next_id + requests,
    decreases requests,
{
    if requests > 0 {
        lemma_after(state, (requests - 1) as nat);
    }
}

/// Every request served gets one reply, and the reply to the request at position
/// `i` (from zero) is the counter's old value plus `i + 1`.
pub proof fn lemma_replies(state: ActorState, requests: nat)
    ensures
        state.replies(requests).len() == requests,
        forall|i: int|
            0 <= i < requests ==> #[trigger] state.replies(requests)[i] == state.next_id + i + 1,
    decreases requests,
{
    if requests > 0 {
        let before = (requests - 1) as nat;
        lemma_replies(state, before);
        lemma_after(state, before);
    }
}

/// Monotonic assignment: of the requests that a fresh actor serves, the `k`-th,
/// counted from one, is answered with `k`.
pub proof fn lemma_kth_reply_is_k(requests: nat, k: nat)
    requires
        1 <= k <= requests,
    ensures
        ActorState::fresh().replies(requests)[k - 1] == k,
{
    lemma_replies(ActorState::fresh(), requests);
}

/// Uniqueness: no two requests served by one actor are answered with the same
/// identifier, whatever the actor had given out before.
pub proof fn lemma_replies_are_distinct(state: ActorState, requests: nat, i: int, j: int)
    requires
        0 <= i < requests,
        0 <= j < requests,
        i != j,
    ensures
        state.replies(requests)[i] != state.replies(requests)[j],
{
    lemma_replies(state, requests);
}

/// A request served later is answered with a greater identifier. An identifier
/// is spent when its request is served, also where the caller had stopped
/// waiting: every later caller gets a greater one, so it is never given again.
pub proof fn lemma_replies_increase(state: ActorState, requests: nat, i: int, j: int)
    requires
        0 <= i < j < requests,
    ensures
        state.next_id < state.replies(requests)[i] < state.replies(requests)[j],
{
    lemma_replies(state, requests);
}

/// Requests that come later change no reply given before: the replies to the
/// first `served` of `requests` requests are the replies that the actor gives
/// when only those are served. None is lost and none changes place, however
/// many requests wait.
pub proof fn lemma_replies_extend(state: ActorState, served: nat, requests: nat)
    requires
        served <= requests,
    ensures
        state.replies(requests).subrange(0, served as int) == state.replies(served),
{
    lemma_replies(state, requests);
    lemma_replies(state, served);
    assert(state.replies(requests).subrange(0, served as int) =~= state.replies(served));
}

/// One numbering for all: the requests served after a run of `first` requests
/// are numbered on from where that run ended, whoever made them and through
/// whichever handle. Serving `first` requests and then `then` more gives the
/// state and the replies of serving them all in one run.
pub proof fn lemma_runs_compose(state: ActorState, first: nat, then: nat)
    ensures
        state.after(first).after(then) == state.after(first + then),
        state.replies(first) + state.after(first).replies(then) == state.replies(first + then),
{
    lemma_after(state, first);
    lemma_after(state.after(first), then);
    lemma_after(state, first + then);
    lemma_replies(state, first);
    lemma_replies(state.after(first), then);
    lemma_replies(state, first + then);
    assert(state.replies(first) + state.after(first).replies(then) =~= state.replies(
        first + then,
    ));
}

} // verus!
