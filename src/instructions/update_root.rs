use vstd::prelude::*;

use crate::errors::LatticeError;
use crate::state::merkle::same_bytes;
use crate::state::trust_anchor::{is_zero_root, zero_root, TrustAnchor};

verus! {

/// What setting a new root works on: the anchor, and the identity that signed
/// the request.
#[derive(Clone, Copy, Debug, PartialEq, Eq)]
pub struct UpdateRoot {
    pub trust_anchor: TrustAnchor,
    pub owner: [u8; 32],
}

/// Setting `new_root` and `new_count` at time `now`, signed by `signer`, takes
/// `before` to `after` with result `r`. A signer other than the owner gets
/// `AuthorizationError`; a zero count with a non-zero root gets
/// `EdgeCountOverflow`; either way nothing changes. Otherwise root, count and
/// update time are set. A non-zero count is accepted with any root, the zero
/// root included.
pub open spec fn root_updated(
    before: TrustAnchor,
    signer: [u8; 32],
    new_root: [u8; 32],
    new_count: u16,
    now: i64,
    after: TrustAnchor,
    r: Result<(), LatticeError>,
) -> bool {
    if signer != before.owner {
        r == Err::<(), LatticeError>(LatticeError::AuthorizationError) && after == before
    } else if new_count == 0 && !is_zero_root(new_root@) {
        r == Err::<(), LatticeError>(LatticeError::EdgeCountOverflow) && after == before
    } else {
        r is Ok && after == TrustAnchor {
            merkle_root: new_root,
            edge_count: new_count,
            last_updated: now,
            ..before
        }
    }
}

/// Publishes a new root over `new_count` edges, at time `now`, for the owner
/// who signed.
pub fn handler(ctx: &mut UpdateRoot, new_root: [u8; 32], new_count: u16, now: i64) -> (r: Result<
    (),
    LatticeError,
>)
    ensures
        final(ctx).owner == old(ctx).owner,
        root_updated(
            old(ctx).trust_anchor,
            old(ctx).owner,
            new_root,
            new_count,
            now,
            final(ctx).trust_anchor,
            r,
        ),
{
    if !same_bytes(&ctx.trust_anchor.owner, &ctx.owner) {
        proof {
            assert(ctx.trust_anchor.owner != ctx.owner);
        }
        return Err(LatticeError::AuthorizationError);
    }
    proof {
        assert(ctx.trust_anchor.owner =~= ctx.owner);
    }
    if new_count == 0 && !zero_root(&new_root) {
        return Err(LatticeError::EdgeCountOverflow);
    }
    ctx.trust_anchor.merkle_root = new_root;
    ctx.trust_anchor.edge_count = new_count;
    ctx.trust_anchor.last_updated = now;
    Ok(())
}

/// A root update signed by anyone but the owner fails with
/// `AuthorizationError` and leaves root, count and update time as they were.
pub proof fn lemma_non_owner_update(
    before: TrustAnchor,
    signer: [u8; 32],
    new_root: [u8; 32],
    new_count: u16,
    now: i64,
    after: TrustAnchor,
    r: Result<(), LatticeError>,
)
    requires
        root_updated(before, signer, new_root, new_count, now, after, r),
        signer != before.owner,
    ensures
        r == Err::<(), LatticeError>(LatticeError::AuthorizationError),
        after.merkle_root == before.merkle_root,
        after.edge_count == before.edge_count,
        after.last_updated == before.last_updated,
{
}

} // verus!
