//! Per-identity trust anchors: a Merkle root that commits to an off-chain set of
//! weighted trust edges, and inclusion checks of single edges against it.

pub mod errors;
pub mod instructions;
pub mod lattice;
pub mod state;
