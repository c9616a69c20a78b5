use vstd::prelude::*;

use crate::errors::LatticeError;
use crate::state::merkle::{hash_leaf, leaf_hash, proof_root, verify_proof};
use crate::state::trust_anchor::TrustAnchor;
use crate::state::trust_edge::{edge_bytes, TrustEdgeData, MAX_TRUST_WEIGHT};

verus! {

/// What checking an edge works on: the anchor whose root it is checked against.
#[derive(Clone, Copy, Debug, PartialEq, Eq)]
pub struct VerifyEdge {
    pub trust_anchor: TrustAnchor,
}

/// The outcome of checking `edge` against `anchor` with `proof` at `leaf_index`:
/// a weight above 10000 gives `InvalidTrustWeight`; else the proof must lead
/// from the hash of the edge's canonical encoding to the anchor's root, or the
/// result is `InvalidMerkleProof`.
pub open spec fn edge_verdict(
    anchor: TrustAnchor,
    edge: TrustEdgeData,
    proof: Seq<[u8; 32]>,
    leaf_index: u32,
) -> Result<(), LatticeError> {
    if edge.weight > MAX_TRUST_WEIGHT {
        Err(LatticeError::InvalidTrustWeight)
    } else if proof_root(proof, leaf_hash(edge_bytes(edge)), leaf_index as nat)
        == anchor.merkle_root@ {
        Ok(())
    } else {
        Err(LatticeError::InvalidMerkleProof)
    }
}

/// Checks that `edge_data` is among the edges that the anchor's current root
/// commits to. Changes nothing.
pub fn handler(ctx: &VerifyEdge, edge_data: TrustEdgeData, proof: Vec<[u8; 32]>, leaf_index: u32) -> (r:
    Result<(), LatticeError>)
    ensures
        r == edge_verdict(ctx.trust_anchor, edge_data, proof@, leaf_index),
{
    if edge_data.weight > MAX_TRUST_WEIGHT {
        return Err(LatticeError::InvalidTrustWeight);
    }
    let serialized = edge_data.encode();
    let leaf = hash_leaf(serialized.as_slice());
    if !verify_proof(proof.as_slice(), &ctx.trust_anchor.merkle_root, &leaf, leaf_index) {
        return Err(LatticeError::InvalidMerkleProof);
    }
    Ok(())
}

/// An edge heavier than 10000 basis points is refused with
/// `InvalidTrustWeight`, whatever the proof, index and anchor.
pub proof fn lemma_overweight_edge(
    anchor: TrustAnchor,
    edge: TrustEdgeData,
    proof: Seq<[u8; 32]>,
    leaf_index: u32,
)
    requires
        edge.weight > MAX_TRUST_WEIGHT,
    ensures
        edge_verdict(anchor, edge, proof, leaf_index) == Err::<(), LatticeError>(
            LatticeError::InvalidTrustWeight,
        ),
{
}

} // verus!
