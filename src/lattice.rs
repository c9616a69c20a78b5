use vstd::prelude::*;

use crate::errors::LatticeError;
use crate::instructions::initialize::{self, anchor_created, Initialize};
use crate::instructions::update_root::{self, root_updated, UpdateRoot};
use crate::instructions::verify_edge::{self, edge_verdict, VerifyEdge};
use crate::state::trust_edge::TrustEdgeData;

verus! {

/// Creates the trust anchor of the signing owner.
pub fn initialize(ctx: &mut Initialize, now: i64) -> (r: Result<(), LatticeError>)
    ensures
        anchor_created(*old(ctx), now, *final(ctx), r),
{
    initialize::handler(ctx, now)
}

/// Publishes a new root after the owner changed their trust edges off chain.
pub fn update_root(ctx: &mut UpdateRoot, new_root: [u8; 32], new_count: u16, now: i64) -> (r:
    Result<(), LatticeError>)
    ensures
        final(ctx).owner == old(ctx).owner,
        root_updated(
            old(ctx).trust_anchor,
            old(ctx).owner,
            new_root,
            new_count,
            now,
            final(ctx).trust_anchor,
            r,
        ),
{
    update_root::handler(ctx, new_root, new_count, now)
}

/// Checks that a trust edge is committed to by an anchor's root.
pub fn verify_edge(ctx: &VerifyEdge, edge_data: TrustEdgeData, proof: Vec<[u8; 32]>, leaf_index: u32) -> (r:
    Result<(), LatticeError>)
    ensures
        r == edge_verdict(ctx.trust_anchor, edge_data, proof@, leaf_index),
{
    verify_edge::handler(ctx, edge_data, proof, leaf_index)
}

} // verus!
