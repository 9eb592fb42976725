//! A read-only snapshot of the peer set.
//!
//! The coordinator never talks to the network itself; it reads a snapshot
//! of the known peers, each with the chain height it last reported, and
//! picks the best one deterministically: greatest height, ties broken by
//! the least peer id.

use vstd::prelude::*;

verus! {

/// One connected peer: its identity and the chain height it reported.
#[derive(Clone, Copy, PartialEq, Eq, Structural, Debug)]
pub struct FullPeerInfo {
    pub peer_id: u64,
    pub height: u64,
}

/// The peer snapshot the coordinator last received.
#[derive(Debug)]
pub struct NetworkInfo {
    pub num_active_peers: u64,
    pub highest_height_peers: Vec<FullPeerInfo>,
}

impl NetworkInfo {
    /// The empty snapshot a coordinator starts with.
    pub fn new() -> (r: NetworkInfo)
        ensures
            r.num_active_peers == 0,
            r.highest_height_peers@.len() == 0,
    {
        NetworkInfo { num_active_peers: 0, highest_height_peers: Vec::new() }
    }
}

/// `p` is one of `peers`, no peer reports a greater height, and among the
/// peers at that height `p` has the least id.
pub open spec fn is_best_peer(peers: Seq<FullPeerInfo>, p: FullPeerInfo) -> bool {
    &&& peers.contains(p)
    &&& forall|i: int| 0 <= i < peers.len() ==> peers[i].height <= p.height
    &&& forall|i: int|
        0 <= i < peers.len() && peers[i].height == p.height ==> p.peer_id <= peers[i].peer_id
}

/// The deterministic best-known-peer selector: the peer with the greatest
/// reported height, ties broken towards the least peer id.
pub fn highest_height_peer(peers: &Vec<FullPeerInfo>) -> (r: Option<FullPeerInfo>)
    ensures
        r is Some <==> peers@.len() > 0,
        r matches Some(p) ==> is_best_peer(peers@, p),
{
    if peers.len() == 0 {
        return None;
    }
    let mut best: FullPeerInfo = peers[0];
    let mut i: usize = 1;
    proof {
        assert(peers@.contains(best)) by {
            assert(peers@[0] == best);
        }
    }
    while i < peers.len()
        invariant
            1 <= i <= peers@.len(),
            peers@.contains(best),
            forall|j: int| 0 <= j < i ==> peers@[j].height <= best.height,
            forall|j: int|
                0 <= j < i && peers@[j].height == best.height ==> best.peer_id <= peers@[j].peer_id,
        decreases peers@.len() - i,
    {
        let p = peers[i];
        if p.height > best.height || (p.height == best.height && p.peer_id < best.peer_id) {
            best = p;
            proof {
                assert(peers@[i as int] == best);
            }
        }
        i = i + 1;
    }
    Some(best)
}

} // verus!
