//! Who connects to whom in a network of test nodes.
use vstd::prelude::*;

verus! {

/// The node that is `offset` places after node `i` on a ring of `n` nodes.
pub open spec fn ring_peer(n: int, i: int, offset: int) -> int {
    (i + offset) % n
}

/// The node after `peer` on a ring of `n` nodes.
fn ring_next(n: usize, peer: usize, Ghost(i): Ghost<int>, Ghost(offset): Ghost<int>) -> (r: usize)
    requires
        0 <= i,
        0 <= offset,
        peer < n,
        peer == ring_peer(n as int, i, offset),
    ensures
        r < n,
        r == ring_peer(n as int, i, offset + 1),
{
    let r = if peer + 1 == n {
        0
    } else {
        peer + 1
    };
    assert(r == (i + offset + 1) % (n as int)) by (nonlinear_arith)
        requires
            0 <= i,
            0 <= offset,
            0 <= peer < n,
            peer == (i + offset) % (n as int),
            r == if peer + 1 == n {
                0int
            } else {
                peer + 1
            },
    ;
    r
}

/// For each of `n` nodes, the nodes that it opens connections to: node `i`
/// connects to the `gossip_peers` nodes that follow it on the ring, in that
/// order. With `gossip_peers >= n` a node is named more than once, itself
/// included.
pub fn static_outbound(n: usize, gossip_peers: usize) -> (peers: Vec<Vec<usize>>)
    ensures
        peers@.len() == n,
        forall|i: int| 0 <= i < n ==> (#[trigger] peers@[i])@.len() == gossip_peers,
        forall|i: int, j: int|
            0 <= i < n && 0 <= j < gossip_peers ==> (#[trigger] peers@[i]@[j]) == ring_peer(
                n as int,
                i,
                j + 1,
            ),
{
    let mut peers: Vec<Vec<usize>> = Vec::new();
    let mut i: usize = 0;
    while i < n
        invariant
            i <= n,
            peers@.len() == i,
            forall|k: int| 0 <= k < i ==> (#[trigger] peers@[k])@.len() == gossip_peers,
            forall|k: int, j: int|
                0 <= k < i && 0 <= j < gossip_peers ==> (#[trigger] peers@[k]@[j]) == ring_peer(
                    n as int,
                    k,
                    j + 1,
                ),
        decreases n - i,
    {
        let mut row: Vec<usize> = Vec::new();
        let mut peer: usize = i;
        let mut j: usize = 0;
        assert(peer == ring_peer(n as int, i as int, 0)) by (nonlinear_arith)
            requires
                0 <= peer < n,
                peer == i,
        ;
        while j < gossip_peers
            invariant
                i < n,
                j <= gossip_peers,
                peer < n,
                peer == ring_peer(n as int, i as int, j as int),
                row@.len() == j,
                forall|l: int| 0 <= l < j ==> (#[trigger] row@[l]) == ring_peer(n as int, i as int, l + 1),
            decreases gossip_peers - j,
        {
            peer = ring_next(n, peer, Ghost(i as int), Ghost(j as int));
            row.push(peer);
            j += 1;
        }
        peers.push(row);
        i += 1;
    }
    peers
}

} // verus!
