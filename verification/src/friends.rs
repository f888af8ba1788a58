//! The friend gate: the peers that may open a chat.

use vstd::prelude::*;
use crate::identity::PeerIdentity;

verus! {

/// The set of peers allowed to open a chat. It is local, held in memory, and
/// replaced as a whole.
#[derive(Debug)]
pub struct FriendSet {
    members: Vec<PeerIdentity>,
}

impl View for FriendSet {
    type V = Set<PeerIdentity>;

    closed spec fn view(&self) -> Set<PeerIdentity> {
        self.members@.to_set()
    }
}

impl FriendSet {
    /// The empty set: nobody may open a chat.
    pub fn new() -> (r: FriendSet)
        ensures
            r@ == Set::<PeerIdentity>::empty(),
    {
        let r = FriendSet { members: Vec::new() };
        assert(r@ =~= Set::<PeerIdentity>::empty());
        r
    }

    /// Replaces the whole set by the peers of `list`.
    pub fn set_friends(&mut self, list: Vec<PeerIdentity>)
        ensures
            final(self)@ == list@.to_set(),
    {
        self.members = list;
    }

    /// Whether `peer` is in the set.
    pub fn is_friend(&self, peer: &PeerIdentity) -> (r: bool)
        ensures
            r == self@.contains(*peer),
    {
        let mut i: usize = 0;
        while i < self.members.len()
            invariant
                i <= self.members@.len(),
                forall|j: int| 0 <= j < i ==> self.members@[j] != *peer,
            decreases self.members@.len() - i,
        {
            if self.members[i].same(peer) {
                assert(self.members@.contains(*peer));
                return true;
            }
            i += 1;
        }
        assert(!self.members@.contains(*peer));
        false
    }
}

/// After `set_friends(list)` the friends are exactly the peers of `list`:
/// membership in the set is occurrence in the list.
pub proof fn lemma_friends_are_the_list(list: Seq<PeerIdentity>, peer: PeerIdentity)
    ensures
        list.to_set().contains(peer) <==> exists|i: int| 0 <= i < list.len() && list[i] == peer,
{
}

} // verus!
