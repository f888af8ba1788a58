//! Requests that wait for a decision of the hosting application, the
//! one-shot slots that carry the decisions, and the queues in which the
//! requests wait.

use vstd::prelude::*;
use std::collections::VecDeque;
use crate::identity::PeerIdentity;

verus! {

/// Why a decision could not be recorded or read.
#[derive(Clone, Copy, Debug, PartialEq, Eq, Structural)]
pub enum DecisionError {
    /// The request has been answered before, or its answer has been read
    /// before.
    AlreadyAnswered,
    /// The request has not been answered yet.
    NotAnswered,
}

/// Where a one-shot answer stands.
#[derive(Clone, Copy, Debug, PartialEq, Eq, Structural)]
pub enum SlotState {
    /// No answer was given yet.
    Empty,
    /// The answer was given and waits to be read.
    Filled(bool),
    /// The answer was given and read.
    Consumed(bool),
}

/// The answer that a slot has received, whether read or not.
pub open spec fn answer_of(state: SlotState) -> Option<bool> {
    match state {
        SlotState::Empty => None,
        SlotState::Filled(answer) => Some(answer),
        SlotState::Consumed(answer) => Some(answer),
    }
}

/// A slot for one answer: it is filled once and read once, and says so when
/// either is tried again.
#[derive(Debug, PartialEq, Eq)]
pub struct AnswerSlot {
    state: SlotState,
}

impl AnswerSlot {
    /// Where the slot stands.
    pub closed spec fn state(&self) -> SlotState {
        self.state
    }

    /// The empty slot.
    pub closed spec fn empty() -> AnswerSlot {
        AnswerSlot { state: SlotState::Empty }
    }

    /// The empty slot is empty.
    pub proof fn lemma_empty()
        ensures
            Self::empty().state() == SlotState::Empty,
    {
    }

    /// An empty slot.
    pub fn new() -> (r: AnswerSlot)
        ensures
            r == Self::empty(),
            r.state() == SlotState::Empty,
    {
        AnswerSlot { state: SlotState::Empty }
    }

    /// Where the slot stands.
    pub fn current(&self) -> (r: SlotState)
        ensures
            r == self.state(),
    {
        self.state
    }

    /// Puts `answer` into the slot. A slot that had its answer keeps it, and
    /// the call fails.
    pub fn send(&mut self, answer: bool) -> (r: Result<(), DecisionError>)
        ensures
            old(self).state() is Empty ==> r is Ok && final(self).state() == SlotState::Filled(
                answer,
            ),
            !(old(self).state() is Empty) ==> r == Err::<(), DecisionError>(
                DecisionError::AlreadyAnswered,
            ) && final(self).state() == old(self).state(),
    {
        match self.state {
            SlotState::Empty => {
                self.state = SlotState::Filled(answer);
                Ok(())
            },
            _ => Err(DecisionError::AlreadyAnswered),
        }
    }

    /// Reads the answer out of the slot. It can be read once: before it is
    /// given the call fails with `NotAnswered`, after it was read with
    /// `AlreadyAnswered`, and the slot stays as it is.
    pub fn take(&mut self) -> (r: Result<bool, DecisionError>)
        ensures
            match old(self).state() {
                SlotState::Empty => r == Err::<bool, DecisionError>(DecisionError::NotAnswered)
                    && final(self).state() == old(self).state(),
                SlotState::Filled(answer) => r == Ok::<bool, DecisionError>(answer) && final(self).state() == SlotState::Consumed(answer),
                SlotState::Consumed(_) => r == Err::<bool, DecisionError>(
                    DecisionError::AlreadyAnswered,
                ) && final(self).state() == old(self).state(),
            },
    {
        match self.state {
            SlotState::Empty => Err(DecisionError::NotAnswered),
            SlotState::Filled(answer) => {
                self.state = SlotState::Consumed(answer);
                Ok(answer)
            },
            SlotState::Consumed(_) => Err(DecisionError::AlreadyAnswered),
        }
    }
}

/// A friend request that waits for a decision. It holds the requesting peer
/// and the slot for the answer.
#[derive(Debug, PartialEq, Eq)]
pub struct FriendRequest {
    remote_node_id: PeerIdentity,
    slot: AnswerSlot,
}

impl FriendRequest {
    /// The requesting peer.
    pub closed spec fn peer(&self) -> PeerIdentity {
        self.remote_node_id
    }

    /// Where the request's slot stands.
    pub closed spec fn slot_state(&self) -> SlotState {
        self.slot.state()
    }

    /// The answer given, if any.
    pub open spec fn answered(&self) -> Option<bool> {
        answer_of(self.slot_state())
    }

    /// The undecided friend request of `peer`.
    pub closed spec fn fresh(peer: PeerIdentity) -> FriendRequest {
        FriendRequest { remote_node_id: peer, slot: AnswerSlot::empty() }
    }

    /// What an undecided request holds.
    pub proof fn lemma_fresh(peer: PeerIdentity)
        ensures
            Self::fresh(peer).peer() == peer,
            Self::fresh(peer).slot_state() == SlotState::Empty,
    {
        AnswerSlot::lemma_empty();
    }

    /// An undecided friend request of `remote_node_id`.
    pub fn new(remote_node_id: PeerIdentity) -> (r: FriendRequest)
        ensures
            r == Self::fresh(remote_node_id),
            r.peer() == remote_node_id,
            r.slot_state() == SlotState::Empty,
    {
        FriendRequest { remote_node_id, slot: AnswerSlot::new() }
    }

    /// The requesting peer.
    pub fn remote_node_id(&self) -> (r: PeerIdentity)
        ensures
            r == self.peer(),
    {
        self.remote_node_id
    }

    /// The answer given, if any, whether it was read or not.
    pub fn decision(&self) -> (r: Option<bool>)
        ensures
            r == self.answered(),
    {
        match self.slot.current() {
            SlotState::Empty => None,
            SlotState::Filled(answer) => Some(answer),
            SlotState::Consumed(answer) => Some(answer),
        }
    }

    /// Accepts the request. A request that was answered before keeps its
    /// answer, and the call fails.
    pub fn accept(&mut self) -> (r: Result<(), DecisionError>)
        ensures
            final(self).peer() == old(self).peer(),
            old(self).slot_state() is Empty ==> r is Ok && final(self).slot_state()
                == SlotState::Filled(true),
            !(old(self).slot_state() is Empty) ==> r == Err::<(), DecisionError>(
                DecisionError::AlreadyAnswered,
            ) && final(self).slot_state() == old(self).slot_state(),
    {
        self.slot.send(true)
    }

    /// Rejects the request. A request that was answered before keeps its
    /// answer, and the call fails.
    pub fn reject(&mut self) -> (r: Result<(), DecisionError>)
        ensures
            final(self).peer() == old(self).peer(),
            old(self).slot_state() is Empty ==> r is Ok && final(self).slot_state()
                == SlotState::Filled(false),
            !(old(self).slot_state() is Empty) ==> r == Err::<(), DecisionError>(
                DecisionError::AlreadyAnswered,
            ) && final(self).slot_state() == old(self).slot_state(),
    {
        self.slot.send(false)
    }

    /// Reads the answer, for the one that waits for it. It can be read once.
    pub fn take_decision(&mut self) -> (r: Result<bool, DecisionError>)
        ensures
            final(self).peer() == old(self).peer(),
            match old(self).slot_state() {
                SlotState::Empty => r == Err::<bool, DecisionError>(DecisionError::NotAnswered)
                    && final(self).slot_state() == old(self).slot_state(),
                SlotState::Filled(answer) => r == Ok::<bool, DecisionError>(answer) && final(self).slot_state() == SlotState::Consumed(answer),
                SlotState::Consumed(_) => r == Err::<bool, DecisionError>(
                    DecisionError::AlreadyAnswered,
                ) && final(self).slot_state() == old(self).slot_state(),
            },
    {
        self.slot.take()
    }
}

/// A chat request that waits for a decision. It holds the requesting peer,
/// the handle of the live connection and the slot for the answer.
#[derive(Debug, PartialEq, Eq)]
pub struct ChatRequest {
    remote_node_id: PeerIdentity,
    connection: usize,
    slot: AnswerSlot,
}

impl ChatRequest {
    /// The requesting peer.
    pub closed spec fn peer(&self) -> PeerIdentity {
        self.remote_node_id
    }

    /// The handle of the connection on which the request came.
    pub closed spec fn link(&self) -> usize {
        self.connection
    }

    /// Where the request's slot stands.
    pub closed spec fn slot_state(&self) -> SlotState {
        self.slot.state()
    }

    /// The answer given, if any.
    pub open spec fn answered(&self) -> Option<bool> {
        answer_of(self.slot_state())
    }

    /// The undecided chat request of `peer` on `connection`.
    pub closed spec fn fresh(peer: PeerIdentity, connection: usize) -> ChatRequest {
        ChatRequest { remote_node_id: peer, connection, slot: AnswerSlot::empty() }
    }

    /// What an undecided request holds.
    pub proof fn lemma_fresh(peer: PeerIdentity, connection: usize)
        ensures
            Self::fresh(peer, connection).peer() == peer,
            Self::fresh(peer, connection).link() == connection,
            Self::fresh(peer, connection).slot_state() == SlotState::Empty,
    {
        AnswerSlot::lemma_empty();
    }

    /// An undecided chat request of `remote_node_id` on `connection`.
    pub fn new(remote_node_id: PeerIdentity, connection: usize) -> (r: ChatRequest)
        ensures
            r == Self::fresh(remote_node_id, connection),
            r.peer() == remote_node_id,
            r.link() == connection,
            r.slot_state() == SlotState::Empty,
    {
        ChatRequest { remote_node_id, connection, slot: AnswerSlot::new() }
    }

    /// The requesting peer.
    pub fn remote_node_id(&self) -> (r: PeerIdentity)
        ensures
            r == self.peer(),
    {
        self.remote_node_id
    }

    /// The answer given, if any, whether it was read or not.
    pub fn decision(&self) -> (r: Option<bool>)
        ensures
            r == self.answered(),
    {
        match self.slot.current() {
            SlotState::Empty => None,
            SlotState::Filled(answer) => Some(answer),
            SlotState::Consumed(answer) => Some(answer),
        }
    }

    /// Accepts the request and hands the connection to the caller. A request
    /// that was answered before keeps its answer, and the call fails.
    pub fn accept(&mut self) -> (r: Result<usize, DecisionError>)
        ensures
            final(self).peer() == old(self).peer(),
            final(self).link() == old(self).link(),
            old(self).slot_state() is Empty ==> r == Ok::<usize, DecisionError>(old(self).link())
                && final(self).slot_state() == SlotState::Filled(true),
            !(old(self).slot_state() is Empty) ==> r == Err::<usize, DecisionError>(
                DecisionError::AlreadyAnswered,
            ) && final(self).slot_state() == old(self).slot_state(),
    {
        match self.slot.send(true) {
            Ok(_) => Ok(self.connection),
            Err(e) => Err(e),
        }
    }

    /// Rejects the request. A request that was answered before keeps its
    /// answer, and the call fails.
    pub fn reject(&mut self) -> (r: Result<(), DecisionError>)
        ensures
            final(self).peer() == old(self).peer(),
            final(self).link() == old(self).link(),
            old(self).slot_state() is Empty ==> r is Ok && final(self).slot_state()
                == SlotState::Filled(false),
            !(old(self).slot_state() is Empty) ==> r == Err::<(), DecisionError>(
                DecisionError::AlreadyAnswered,
            ) && final(self).slot_state() == old(self).slot_state(),
    {
        self.slot.send(false)
    }

    /// Reads the answer, for the one that waits for it. It can be read once.
    pub fn take_decision(&mut self) -> (r: Result<bool, DecisionError>)
        ensures
            final(self).peer() == old(self).peer(),
            final(self).link() == old(self).link(),
            match old(self).slot_state() {
                SlotState::Empty => r == Err::<bool, DecisionError>(DecisionError::NotAnswered)
                    && final(self).slot_state() == old(self).slot_state(),
                SlotState::Filled(answer) => r == Ok::<bool, DecisionError>(answer) && final(self).slot_state() == SlotState::Consumed(answer),
                SlotState::Consumed(_) => r == Err::<bool, DecisionError>(
                    DecisionError::AlreadyAnswered,
                ) && final(self).slot_state() == old(self).slot_state(),
            },
    {
        self.slot.take()
    }
}

/// An unbounded queue of pending requests, drained in the order of arrival.
/// Its view is the requests that wait, the oldest first.
pub struct DecisionQueue<T> {
    waiting: VecDeque<T>,
}

impl<T> View for DecisionQueue<T> {
    type V = Seq<T>;

    closed spec fn view(&self) -> Seq<T> {
        self.waiting@
    }
}

impl<T> DecisionQueue<T> {
    /// The empty queue.
    pub fn new() -> (r: DecisionQueue<T>)
        ensures
            r@ == Seq::<T>::empty(),
    {
        DecisionQueue { waiting: VecDeque::new() }
    }

    /// Number of requests that wait.
    pub fn len(&self) -> (r: usize)
        ensures
            r == self@.len(),
    {
        self.waiting.len()
    }

    /// Puts `item` behind all requests that wait.
    pub fn push(&mut self, item: T)
        ensures
            final(self)@ == old(self)@.push(item),
    {
        self.waiting.push_back(item);
    }

    /// Takes the request that has waited longest, if any waits.
    pub fn next(&mut self) -> (r: Option<T>)
        ensures
            old(self)@.len() == 0 ==> r is None && final(self)@ == old(self)@,
            old(self)@.len() > 0 ==> r == Some(old(self)@[0]) && final(self)@ == old(self)@.drop_first(),
    {
        let r = self.waiting.pop_front();
        proof {
            if old(self)@.len() > 0 {
                assert(old(self)@.subrange(1, old(self)@.len() as int) =~= old(self)@.drop_first());
            }
        }
        r
    }
}

/// The request that the `n`-th call of `next` returns (counting from 0) on a
/// queue that holds `q`, if the queue lasts that long.
pub open spec fn taken_at<T>(q: Seq<T>, n: nat) -> Option<T>
    decreases n,
{
    if q.len() == 0 {
        None
    } else if n == 0 {
        Some(q[0])
    } else {
        taken_at(q.drop_first(), (n - 1) as nat)
    }
}

/// Arrival order is drain order: the `k`-th request taken from a queue is the
/// `k`-th that arrived, whatever arrives behind it meanwhile.
pub proof fn lemma_drain_keeps_order<T>(q: Seq<T>, later: Seq<T>, k: int)
    requires
        0 <= k < q.len(),
    ensures
        taken_at(q + later, k as nat) == Some(q[k]),
    decreases k,
{
    let all = q + later;
    if k > 0 {
        assert(all.drop_first() =~= q.drop_first() + later);
        lemma_drain_keeps_order(q.drop_first(), later, k - 1);
    }
}

/// Two requests that arrive one after the other leave in that order: on a
/// queue that holds `q`, after `x` and then `y` were pushed, `x` is taken
/// right after the requests of `q`, and `y` right after `x`.
pub proof fn lemma_first_come_first_served<T>(q: Seq<T>, x: T, y: T)
    ensures
        taken_at(q.push(x).push(y), q.len()) == Some(x),
        taken_at(q.push(x).push(y), q.len() + 1) == Some(y),
{
    let two = seq![x, y];
    assert(q.push(x).push(y) =~= (q + two) + Seq::<T>::empty());
    lemma_drain_keeps_order(q + two, Seq::<T>::empty(), q.len() as int);
    lemma_drain_keeps_order(q + two, Seq::<T>::empty(), q.len() as int + 1);
}

} // verus!
