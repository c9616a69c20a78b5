use vstd::prelude::*;

use crate::errors::LatticeError;
use crate::state::trust_anchor::TrustAnchor;

verus! {

/// What creating a trust anchor works on: the owner's anchor slot (`None`
/// while no anchor exists at the owner's address), the owner, and the
/// address metadata derived from the owner.
#[derive(Clone, Copy, Debug, PartialEq, Eq)]
pub struct Initialize {
    pub trust_anchor: Option<TrustAnchor>,
    pub owner: [u8; 32],
    pub bump: u8,
}

/// Creating an anchor at time `now` takes `before` to `after` with result `r`:
/// where the slot is taken, nothing changes and the result is `AlreadyExists`;
/// else the slot gets a fresh anchor of the owner.
pub open spec fn anchor_created(
    before: Initialize,
    now: i64,
    after: Initialize,
    r: Result<(), LatticeError>,
) -> bool {
    if before.trust_anchor is Some {
        r == Err::<(), LatticeError>(LatticeError::AlreadyExists) && after == before
    } else {
        &&& r is Ok
        &&& after.owner == before.owner
        &&& after.bump == before.bump
        &&& after.trust_anchor matches Some(a) && a.is_fresh(before.owner, now, before.bump)
    }
}

/// Creates the owner's trust anchor, with a zero root and no edges, at time `now`.
pub fn handler(ctx: &mut Initialize, now: i64) -> (r: Result<(), LatticeError>)
    ensures
        anchor_created(*old(ctx), now, *final(ctx), r),
{
    if ctx.trust_anchor.is_some() {
        return Err(LatticeError::AlreadyExists);
    }
    ctx.trust_anchor = Some(TrustAnchor::new(ctx.owner, now, ctx.bump));
    Ok(())
}

/// Creating an anchor twice for one owner: the second attempt fails with
/// `AlreadyExists` and leaves the state as the first left it.
pub proof fn lemma_create_twice(
    start: Initialize,
    first: Initialize,
    second: Initialize,
    now1: i64,
    now2: i64,
    r1: Result<(), LatticeError>,
    r2: Result<(), LatticeError>,
)
    requires
        anchor_created(start, now1, first, r1),
        anchor_created(first, now2, second, r2),
    ensures
        r2 == Err::<(), LatticeError>(LatticeError::AlreadyExists),
        second == first,
{
}

} // verus!
