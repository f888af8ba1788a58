//! The chat-stream registry: which stream carries the chat with which peer.

use vstd::prelude::*;
use crate::identity::PeerIdentity;

verus! {

/// One registered chat: the peer and the handle of the stream on which its
/// messages arrive.
#[derive(Clone, Copy, Debug)]
pub struct ChatEntry {
    pub peer: PeerIdentity,
    pub stream: usize,
}

/// For each peer with an accepted chat, the handle of its receive stream.
#[derive(Debug)]
pub struct ChatRegistry {
    entries: Vec<ChatEntry>,
}

/// Whether `peer` is entered at position `i` of `s`.
pub open spec fn entered_at(s: Seq<ChatEntry>, peer: PeerIdentity, i: int) -> bool {
    0 <= i < s.len() && s[i].peer == peer
}

/// The mapping that a list of entries stands for.
pub open spec fn entries_map(s: Seq<ChatEntry>) -> Map<PeerIdentity, usize> {
    Map::new(
        |p: PeerIdentity| exists|i: int| entered_at(s, p, i),
        |p: PeerIdentity| s[choose|i: int| entered_at(s, p, i)].stream,
    )
}

/// Whether no peer is entered twice.
pub open spec fn distinct_peers(s: Seq<ChatEntry>) -> bool {
    forall|i: int, j: int| 0 <= i < j < s.len() ==> s[i].peer != s[j].peer
}

/// In a list without repeated peers, an entry's stream is what the mapping
/// gives for its peer.
proof fn lemma_entry_found(s: Seq<ChatEntry>, i: int)
    requires
        distinct_peers(s),
        0 <= i < s.len(),
    ensures
        entries_map(s).contains_key(s[i].peer),
        entries_map(s)[s[i].peer] == s[i].stream,
{
    let p = s[i].peer;
    assert(entered_at(s, p, i));
    let c = choose|c: int| entered_at(s, p, c);
    if c < i {
        assert(s[c].peer != s[i].peer);
    } else if i < c {
        assert(s[i].peer != s[c].peer);
    }
}

/// Position of `peer`'s entry in `entries`, if it has one.
fn position(entries: &Vec<ChatEntry>, peer: &PeerIdentity) -> (r: Option<usize>)
    ensures
        match r {
            Some(i) => entered_at(entries@, *peer, i as int),
            None => forall|j: int| !entered_at(entries@, *peer, j),
        },
{
    let mut i: usize = 0;
    while i < entries.len()
        invariant
            i <= entries@.len(),
            forall|j: int| 0 <= j < i ==> entries@[j].peer != *peer,
        decreases entries@.len() - i,
    {
        if entries[i].peer.same(peer) {
            return Some(i);
        }
        i += 1;
    }
    None
}

/// Enters `stream` for `peer` in `entries`, in place of the peer's earlier
/// entry where it has one.
fn put_entry(entries: &mut Vec<ChatEntry>, peer: PeerIdentity, stream: usize) -> (r: Option<usize>)
    requires
        distinct_peers(old(entries)@),
    ensures
        distinct_peers(final(entries)@),
        entries_map(final(entries)@) == entries_map(old(entries)@).insert(peer, stream),
        r == (if entries_map(old(entries)@).contains_key(peer) {
            Some(entries_map(old(entries)@)[peer])
        } else {
            None
        }),
{
    let ghost before = entries@;
    let entry = ChatEntry { peer, stream };
    let found = position(entries, &peer);
    let r: Option<usize> = match found {
        Some(i) => {
            proof {
                lemma_entry_found(before, i as int);
            }
            let earlier: usize = entries[i].stream;
            entries.set(i, entry);
            Some(earlier)
        },
        None => {
            entries.push(entry);
            assert(!entries_map(before).contains_key(peer)) by {
                if entries_map(before).contains_key(peer) {
                    let c = choose|c: int| entered_at(before, peer, c);
                    assert(false);
                }
            }
            None
        },
    };
    proof {
        let after = entries@;
        // Position of the new entry; every other position holds what it held.
        let at = match found {
            Some(i) => i as int,
            None => before.len() as int,
        };
        assert(after[at] == entry);
        assert forall|c: int| 0 <= c < after.len() && c != at implies 0 <= c < before.len()
            && after[c] == before[c] by {}
        assert forall|c: int| 0 <= c < before.len() && c != at implies after[c] == before[c] by {}
        assert forall|c: int| 0 <= c < before.len() && c != at implies before[c].peer != peer by {
            if before[c].peer == peer {
                assert(entered_at(before, peer, c));
                if found is Some {
                    assert(before[at].peer == peer);
                    if c < at {
                        assert(before[c].peer != before[at].peer);
                    } else {
                        assert(before[at].peer != before[c].peer);
                    }
                }
            }
        }
        assert forall|a: int, b: int| 0 <= a < b < after.len() implies after[a].peer
            != after[b].peer by {
            if a != at && b != at {
                assert(before[a].peer != before[b].peer);
            }
        }
        assert forall|p: PeerIdentity|
            entries_map(after).contains_key(p) == entries_map(before).insert(
                peer,
                stream,
            ).contains_key(p) by {
            if entries_map(after).contains_key(p) {
                let c = choose|c: int| entered_at(after, p, c);
                if c != at {
                    assert(entered_at(before, p, c));
                }
            }
            if entries_map(before).contains_key(p) && p != peer {
                let c = choose|c: int| entered_at(before, p, c);
                assert(entered_at(after, p, c));
            }
            if p == peer {
                assert(entered_at(after, p, at));
            }
        }
        assert forall|p: PeerIdentity| entries_map(after).contains_key(p) implies (
        #[trigger] entries_map(after)[p]) == entries_map(before).insert(peer, stream)[p] by {
            let c = choose|c: int| entered_at(after, p, c);
            lemma_entry_found(after, c);
            if p != peer {
                lemma_entry_found(before, c);
            } else {
                lemma_entry_found(after, at);
            }
        }
        assert(entries_map(after) =~= entries_map(before).insert(peer, stream));
    }
    r
}

impl View for ChatRegistry {
    type V = Map<PeerIdentity, usize>;

    closed spec fn view(&self) -> Map<PeerIdentity, usize> {
        entries_map(self.entries@)
    }
}

impl ChatRegistry {
    /// No peer is entered twice.
    #[verifier::type_invariant]
    spec fn distinct(self) -> bool {
        distinct_peers(self.entries@)
    }

    /// The empty registry.
    pub fn new() -> (r: ChatRegistry)
        ensures
            r@ == Map::<PeerIdentity, usize>::empty(),
    {
        let r = ChatRegistry { entries: Vec::new() };
        assert(r@ =~= Map::<PeerIdentity, usize>::empty());
        r
    }

    /// The stream registered for `peer`, if there is one.
    pub fn get(&self, peer: &PeerIdentity) -> (r: Option<usize>)
        ensures
            r == (if self@.contains_key(*peer) {
                Some(self@[*peer])
            } else {
                None
            }),
    {
        proof {
            use_type_invariant(self);
        }
        match position(&self.entries, peer) {
            Some(i) => {
                proof {
                    lemma_entry_found(self.entries@, i as int);
                }
                Some(self.entries[i].stream)
            },
            None => None,
        }
    }

    /// Registers `stream` as the receive stream of the chat with `peer`, in
    /// place of any earlier one, which is returned.
    pub fn register(&mut self, peer: PeerIdentity, stream: usize) -> (r: Option<usize>)
        ensures
            final(self)@ == old(self)@.insert(peer, stream),
            r == (if old(self)@.contains_key(peer) {
                Some(old(self)@[peer])
            } else {
                None
            }),
    {
        proof {
            use_type_invariant(&*self);
        }
        let mut entries: Vec<ChatEntry> = Vec::new();
        std::mem::swap(&mut entries, &mut self.entries);
        let r = put_entry(&mut entries, peer, stream);
        std::mem::swap(&mut entries, &mut self.entries);
        r
    }
}

} // verus!
