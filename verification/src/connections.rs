//! The connection table: the connections that are open, each under a handle
//! by which the hosting application names it.

use vstd::prelude::*;
use slab::Slab;
use crate::identity::PeerIdentity;

verus! {

/// `slab::Slab`, a store that gives each value it takes a small key.
#[verifier::external_type_specification]
#[verifier::external_body]
#[verifier::reject_recursive_types(T)]
pub struct ExSlab<T>(slab::Slab<T>);

/// What a slab of peers holds: for each key in use, the bytes of the peer
/// stored under it.
pub uninterp spec fn slab_entries(table: Slab<PeerIdentity>) -> Map<usize, Seq<u8>>;

/// `Slab::new`: a slab that holds nothing.
#[verifier::external_body]
fn slab_new() -> (r: Slab<PeerIdentity>)
    ensures
        forall|key: usize| !slab_entries(r).contains_key(key),
{
    Slab::new()
}

/// `Slab::insert`: stores the value under a key that was not in use, and
/// returns that key; what was stored before stays under its keys. (The call
/// fails only where the slab's storage would outgrow the address space.)
#[verifier::external_body]
fn slab_insert(table: &mut Slab<PeerIdentity>, peer: PeerIdentity) -> (key: usize)
    ensures
        !slab_entries(*old(table)).contains_key(key),
        slab_entries(*final(table)) == slab_entries(*old(table)).insert(key, peer@),
{
    table.insert(peer)
}

/// `Slab::get`: the value stored under `key`, if the key is in use.
#[verifier::external_body]
fn slab_get(table: &Slab<PeerIdentity>, key: usize) -> (r: Option<PeerIdentity>)
    ensures
        r is Some <==> slab_entries(*table).contains_key(key),
        r matches Some(peer) ==> peer@ == slab_entries(*table)[key],
{
    table.get(key).copied()
}

/// `Slab::try_remove`: takes out and returns the value stored under `key`,
/// if the key is in use; the key is then free. Other keys keep their values.
#[verifier::external_body]
fn slab_try_remove(table: &mut Slab<PeerIdentity>, key: usize) -> (r: Option<PeerIdentity>)
    ensures
        r is Some <==> slab_entries(*old(table)).contains_key(key),
        r matches Some(peer) ==> peer@ == slab_entries(*old(table))[key],
        slab_entries(*final(table)) == slab_entries(*old(table)).remove(key),
{
    table.try_remove(key)
}

/// The open connections. Its view gives, for each handle in use, the bytes
/// of the peer at the other end of the connection.
pub struct ConnectionTable {
    open: Slab<PeerIdentity>,
}

impl View for ConnectionTable {
    type V = Map<usize, Seq<u8>>;

    closed spec fn view(&self) -> Map<usize, Seq<u8>> {
        slab_entries(self.open)
    }
}

impl ConnectionTable {
    /// A table without connections.
    pub fn new() -> (r: ConnectionTable)
        ensures
            r@ == Map::<usize, Seq<u8>>::empty(),
    {
        let r = ConnectionTable { open: slab_new() };
        assert(r@ =~= Map::<usize, Seq<u8>>::empty());
        r
    }

    /// Enters a connection to `peer` and returns its handle, which no open
    /// connection has.
    pub fn open(&mut self, peer: PeerIdentity) -> (handle: usize)
        ensures
            !old(self)@.contains_key(handle),
            final(self)@ == old(self)@.insert(handle, peer@),
    {
        slab_insert(&mut self.open, peer)
    }

    /// The peer at the other end of the connection `handle`, if it is open.
    pub fn peer_of(&self, handle: usize) -> (r: Option<PeerIdentity>)
        ensures
            r is Some <==> self@.contains_key(handle),
            r matches Some(peer) ==> peer@ == self@[handle],
    {
        slab_get(&self.open, handle)
    }

    /// Takes the connection `handle` out of the table and returns its peer,
    /// if the connection was open. The handle may be given out again.
    pub fn close(&mut self, handle: usize) -> (r: Option<PeerIdentity>)
        ensures
            r is Some <==> old(self)@.contains_key(handle),
            r matches Some(peer) ==> peer@ == old(self)@[handle],
            final(self)@ == old(self)@.remove(handle),
    {
        slab_try_remove(&mut self.open, handle)
    }
}

/// Handles of open connections are distinct: a handle given out again
/// belongs to a connection that was closed before.
pub proof fn lemma_handles_are_fresh(table: Map<usize, Seq<u8>>, handle: usize, peer: Seq<u8>)
    requires
        !table.contains_key(handle),
    ensures
        forall|h: usize| table.contains_key(h) ==> h != handle && table.insert(handle, peer)[h] == table[h],
{
}

} // verus!
