use vstd::prelude::*;

verus! {

/// Every way an operation on a trust anchor can fail. A failing operation
/// changes nothing and reports exactly one of these.
#[derive(Clone, Copy, Debug, PartialEq, Eq, Structural)]
pub enum LatticeError {
    /// The proof does not lead from the edge's leaf to the stored root.
    InvalidMerkleProof,
    /// The edge's weight is above 10000 basis points.
    InvalidTrustWeight,
    /// A zero edge count was paired with a non-zero root.
    EdgeCountOverflow,
    /// A trust anchor already exists for this owner.
    AlreadyExists,
    /// The caller is not the owner of the trust anchor.
    AuthorizationError,
}

} // verus!
