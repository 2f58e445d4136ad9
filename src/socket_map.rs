//! The handle map: which socket a module peer handle or an EDM channel id
//! belongs to, in two bounded maps of `heapless`.
use vstd::prelude::*;

use crate::socket::{ChannelId, PeerHandle, SocketHandle};

verus! {

/// One table of the handle map: a `heapless` index map of up to four
/// entries. Its hasher type is not one that Verus can be told of, so the map
/// sits in a field that Verus does not look into.
#[verifier::external_body]
pub struct HandleIndexMap {
    map: heapless::FnvIndexMap<u8, u8, 4>,
}

/// How many entries each table holds at most.
pub const MAP_CAPACITY: usize = 4;

/// The entries of a table.
pub uninterp spec fn index_map_entries(m: HandleIndexMap) -> Map<u8, u8>;

/// A table's entries after inserting `k` mapped to `v`: the entry of `k` is
/// replaced if there is one, else added if there is room, else nothing
/// changes.
pub open spec fn after_insert(m: Map<u8, u8>, k: u8, v: u8) -> Map<u8, u8> {
    if m.contains_key(k) || m.len() < MAP_CAPACITY {
        m.insert(k, v)
    } else {
        m
    }
}

/// Relies on `heapless::IndexMap::new`: a new map is empty.
#[verifier::external_body]
fn new_index_map() -> (map: HandleIndexMap)
    ensures
        index_map_entries(map).dom() == Set::<u8>::empty(),
{
    HandleIndexMap { map: heapless::FnvIndexMap::new() }
}

/// Relies on `heapless::IndexMap::insert`: an existing key gets the new
/// value; a new key is added while fewer than four entries are held; else
/// the map is full, the call fails and nothing changes.
#[verifier::external_body]
fn index_map_insert(m: &mut HandleIndexMap, k: u8, v: u8) -> (ok: bool)
    ensures
        ok == (index_map_entries(*old(m)).contains_key(k) || index_map_entries(*old(m)).len() < MAP_CAPACITY),
        index_map_entries(*final(m)) == after_insert(index_map_entries(*old(m)), k, v),
{
    m.map.insert(k, v).is_ok()
}

/// Relies on `heapless::IndexMap::remove`: the entry of the key, if any,
/// is gone.
#[verifier::external_body]
fn index_map_remove(m: &mut HandleIndexMap, k: u8)
    ensures
        index_map_entries(*final(m)) == index_map_entries(*old(m)).remove(k),
{
    m.map.remove(&k);
}

/// Relies on `heapless::IndexMap::get`: the value of the key, if any.
#[verifier::external_body]
fn index_map_get(m: &HandleIndexMap, k: u8) -> (r: Option<u8>)
    ensures
        r is Some == index_map_entries(*m).contains_key(k),
        r matches Some(v) ==> index_map_entries(*m)[k] == v,
{
    m.map.get(&k).copied()
}

/// Relies on `heapless::IndexMap::iter`: each entry once, as a key and a
/// value.
#[verifier::external_body]
fn index_map_entries_vec(m: &HandleIndexMap) -> (r: Vec<(u8, u8)>)
    ensures
        forall|i: int|
            0 <= i < r@.len() ==> index_map_entries(*m).contains_key(#[trigger] r@[i].0)
                && index_map_entries(*m)[r@[i].0] == r@[i].1,
        forall|k: u8| #[trigger]
            index_map_entries(*m).contains_key(k) ==> exists|i: int| 0 <= i < r@.len() && #[trigger] r@[i].0 == k,
{
    m.map.iter().map(|(k, v)| (*k, *v)).collect()
}

/// The key of some entry of `m` whose value is `v`, if there is one.
fn find_key_of(m: &HandleIndexMap, v: u8) -> (r: Option<u8>)
    ensures
        r is None <==> !exists|k: u8| #[trigger] index_map_entries(*m).contains_key(k) && index_map_entries(*m)[k] == v,
        r matches Some(k) ==> index_map_entries(*m).contains_key(k) && index_map_entries(*m)[k] == v,
{
    let entries = index_map_entries_vec(m);
    let mut i: usize = 0;
    while i < entries.len()
        invariant
            i <= entries@.len(),
            forall|j: int| 0 <= j < i ==> #[trigger] entries@[j].1 != v,
            forall|j: int|
                0 <= j < entries@.len() ==> index_map_entries(*m).contains_key(#[trigger] entries@[j].0)
                    && index_map_entries(*m)[entries@[j].0] == entries@[j].1,
        decreases entries@.len() - i,
    {
        if entries[i].1 == v {
            return Some(entries[i].0);
        }
        i = i + 1;
    }
    assert forall|k: u8| #[trigger] index_map_entries(*m).contains_key(k) implies index_map_entries(*m)[k] != v by {
        let j = choose|j: int| 0 <= j < entries@.len() && #[trigger] entries@[j].0 == k;
        assert(entries@[j].1 != v);
    }
    None
}

/// Errors of the handle map.
#[derive(Debug, Clone, Copy, PartialEq, Eq, Structural)]
pub enum SocketMapError {
    /// The table holds four entries and none for the key.
    Full,
    NotFound,
}

/// Whether no entry of `m` maps to `v`.
pub open spec fn no_key_for(m: Map<u8, u8>, v: u8) -> bool {
    forall|k: u8| #[trigger] m.contains_key(k) ==> m[k] != v
}

/// The mappings from channel ids and from peer handles to sockets.
pub struct SocketMap {
    channel_map: HandleIndexMap,
    peer_map: HandleIndexMap,
}

impl SocketMap {
    /// The channel table: channel id to socket handle.
    pub closed spec fn channels(&self) -> Map<u8, u8> {
        index_map_entries(self.channel_map)
    }

    /// The peer table: peer handle to socket handle.
    pub closed spec fn peers(&self) -> Map<u8, u8> {
        index_map_entries(self.peer_map)
    }

    /// Two empty tables.
    pub fn new() -> (r: Self)
        ensures
            r.channels() == Map::<u8, u8>::empty(),
            r.peers() == Map::<u8, u8>::empty(),
    {
        let channel_map = new_index_map();
        let peer_map = new_index_map();
        assert(index_map_entries(channel_map) =~= Map::<u8, u8>::empty());
        assert(index_map_entries(peer_map) =~= Map::<u8, u8>::empty());
        SocketMap { channel_map, peer_map }
    }

    /// Ties `channel_id` to `socket_handle`. `Full` when the channel table
    /// holds four other channels.
    pub fn insert_channel(&mut self, channel_id: ChannelId, socket_handle: SocketHandle) -> (r: Result<
        (),
        SocketMapError,
    >)
        ensures
            r is Ok == (old(self).channels().contains_key(channel_id.0) || old(self).channels().len()
                < MAP_CAPACITY),
            r is Err ==> r == Err::<(), SocketMapError>(SocketMapError::Full),
            final(self).channels() == after_insert(old(self).channels(), channel_id.0, socket_handle.0),
            final(self).peers() == old(self).peers(),
    {
        if index_map_insert(&mut self.channel_map, channel_id.0, socket_handle.0) {
            Ok(())
        } else {
            Err(SocketMapError::Full)
        }
    }

    /// Unties `channel_id`.
    pub fn remove_channel(&mut self, channel_id: &ChannelId)
        ensures
            final(self).channels() == old(self).channels().remove(channel_id.0),
            final(self).peers() == old(self).peers(),
    {
        index_map_remove(&mut self.channel_map, channel_id.0);
    }

    /// The socket of `channel_id`.
    pub fn channel_to_socket(&self, channel_id: &ChannelId) -> (r: Option<SocketHandle>)
        ensures
            r is Some == self.channels().contains_key(channel_id.0),
            r matches Some(h) ==> h.0 == self.channels()[channel_id.0],
    {
        match index_map_get(&self.channel_map, channel_id.0) {
            Some(h) => Some(SocketHandle(h)),
            None => None,
        }
    }

    /// A channel tied to `socket_handle`, if there is one.
    pub fn socket_to_channel_id(&self, socket_handle: &SocketHandle) -> (r: Option<ChannelId>)
        ensures
            r is None <==> no_key_for(self.channels(), socket_handle.0),
            r matches Some(c) ==> self.channels().contains_key(c.0) && self.channels()[c.0] == socket_handle.0,
    {
        match find_key_of(&self.channel_map, socket_handle.0) {
            Some(c) => Some(ChannelId(c)),
            None => None,
        }
    }

    /// Ties `peer` to `socket_handle`. `Full` when the peer table holds
    /// four other peers.
    pub fn insert_peer(&mut self, peer: PeerHandle, socket_handle: SocketHandle) -> (r: Result<
        (),
        SocketMapError,
    >)
        ensures
            r is Ok == (old(self).peers().contains_key(peer.0) || old(self).peers().len() < MAP_CAPACITY),
            r is Err ==> r == Err::<(), SocketMapError>(SocketMapError::Full),
            final(self).peers() == after_insert(old(self).peers(), peer.0, socket_handle.0),
            final(self).channels() == old(self).channels(),
    {
        if index_map_insert(&mut self.peer_map, peer.0, socket_handle.0) {
            Ok(())
        } else {
            Err(SocketMapError::Full)
        }
    }

    /// Unties `peer`.
    pub fn remove_peer(&mut self, peer: &PeerHandle)
        ensures
            final(self).peers() == old(self).peers().remove(peer.0),
            final(self).channels() == old(self).channels(),
    {
        index_map_remove(&mut self.peer_map, peer.0);
    }

    /// The socket of `peer`.
    pub fn peer_to_socket(&self, peer: &PeerHandle) -> (r: Option<SocketHandle>)
        ensures
            r is Some == self.peers().contains_key(peer.0),
            r matches Some(h) ==> h.0 == self.peers()[peer.0],
    {
        match index_map_get(&self.peer_map, peer.0) {
            Some(h) => Some(SocketHandle(h)),
            None => None,
        }
    }

    /// A peer tied to `socket_handle`, if there is one.
    pub fn socket_to_peer(&self, socket_handle: &SocketHandle) -> (r: Option<PeerHandle>)
        ensures
            r is None <==> no_key_for(self.peers(), socket_handle.0),
            r matches Some(p) ==> self.peers().contains_key(p.0) && self.peers()[p.0] == socket_handle.0,
    {
        match find_key_of(&self.peer_map, socket_handle.0) {
            Some(p) => Some(PeerHandle(p)),
            None => None,
        }
    }
}

/// Tying a peer to a socket that had no peer, and then untying that peer,
/// leaves the socket with no peer, whether the insertion found room or not.
pub proof fn lemma_insert_then_remove_peer(m: Map<u8, u8>, peer: u8, socket: u8)
    requires
        no_key_for(m, socket),
    ensures
        no_key_for(after_insert(m, peer, socket).remove(peer), socket),
{
}

/// Inserting a new key into a full table changes no entry.
pub proof fn lemma_insert_into_full(m: Map<u8, u8>, k: u8, v: u8)
    requires
        m.len() == MAP_CAPACITY,
        !m.contains_key(k),
    ensures
        after_insert(m, k, v) == m,
{
}

} // verus!
