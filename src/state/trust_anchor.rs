use vstd::prelude::*;

verus! {

/// Whether a root is all zero bytes: the root of an anchor that commits to no edges.
pub open spec fn is_zero_root(root: Seq<u8>) -> bool {
    forall|i: int| 0 <= i < root.len() ==> root[i] == 0
}

/// Whether every byte of `root` is zero.
pub fn zero_root(root: &[u8; 32]) -> (r: bool)
    ensures
        r == is_zero_root(root@),
{
    let mut i: usize = 0;
    while i < 32
        invariant
            i <= 32,
            root@.len() == 32,
            forall|j: int| 0 <= j < i ==> root@[j] == 0,
        decreases 32 - i,
    {
        if root[i] != 0 {
            return false;
        }
        i = i + 1;
    }
    true
}

/// One identity's persisted commitment to its trust edges: the Merkle root
/// over all of them, and how many there are.
#[derive(Clone, Copy, Debug, PartialEq, Eq)]
pub struct TrustAnchor {
    /// The identity that owns this anchor.
    pub owner: [u8; 32],
    /// Merkle root of all trust edges; all zero when there are none.
    pub merkle_root: [u8; 32],
    /// Number of trust edges under the root.
    pub edge_count: u16,
    /// When the root was last set.
    pub last_updated: i64,
    /// When the anchor was created.
    pub created_at: i64,
    /// Metadata of the anchor's address, derived from the owner.
    pub bump: u8,
}

impl TrustAnchor {
    /// Bytes an anchor takes in storage: an 8-byte type tag, then the fields.
    pub const SIZE: usize = 8 + 32 + 32 + 2 + 8 + 8 + 1;

    /// Whether this is the anchor of `owner` as created at `now`: zero root,
    /// no edges, both timestamps `now`.
    pub open spec fn is_fresh(self, owner: [u8; 32], now: i64, bump: u8) -> bool {
        &&& self.owner == owner
        &&& is_zero_root(self.merkle_root@)
        &&& self.edge_count == 0
        &&& self.last_updated == now
        &&& self.created_at == now
        &&& self.bump == bump
    }

    /// A new anchor for `owner`, committing to no edges.
    pub fn new(owner: [u8; 32], now: i64, bump: u8) -> (r: TrustAnchor)
        ensures
            r.is_fresh(owner, now, bump),
    {
        TrustAnchor {
            owner,
            merkle_root: [0u8; 32],
            edge_count: 0,
            last_updated: now,
            created_at: now,
            bump,
        }
    }
}

} // verus!
