//! Choosing what to draw: the three generator draws that pick the base
//! image, the optional accessory, and the hue shift, in a fixed order that
//! must never change, since reordering would change every key's artwork.

use vstd::prelude::*;
use vstd::string::StringSliceAdditionalSpecFns;

use rand::rngs::SmallRng;

use crate::seed::{
    create_rng_from_pubkey, hex64_ok, hex_decode32, rng_draw, rng_next_u32, rng_pos, rng_seed,
    seed_of_key,
};
use crate::Error;

verus! {

/// The drawing plan derived from a key: which base image to use, which
/// accessory if any, and by how many degrees to rotate every hue.
#[derive(Clone, Copy, Debug, PartialEq, Eq, Structural)]
pub struct GenPlan {
    pub base_idx: usize,
    pub accessory_idx: Option<usize>,
    pub hue_shift: u32,
}

/// The base index the first draw picks for a seed.
pub open spec fn planned_base_idx(seed: u64, n_bases: int) -> int {
    rng_draw(seed, 0) as int % n_bases
}

/// The accessory the second draw picks for a seed, where the extra outcome
/// `n_accessories` means no accessory.  No draw is spent when the accessory
/// set is empty.
pub open spec fn planned_accessory_idx(seed: u64, n_accessories: int) -> Option<int> {
    if n_accessories == 0 {
        None
    } else {
        let roll = rng_draw(seed, 1) as int % (n_accessories + 1);
        if roll < n_accessories {
            Some(roll)
        } else {
            None
        }
    }
}

/// The hue shift in degrees: the next draw after the accessory roll, reduced
/// modulo 360.
pub open spec fn planned_hue_shift(seed: u64, n_accessories: int) -> int {
    if n_accessories == 0 {
        rng_draw(seed, 1) as int % 360
    } else {
        rng_draw(seed, 2) as int % 360
    }
}

/// Whether a plan is the one a seed determines for the given asset counts.
pub open spec fn plan_matches(plan: GenPlan, seed: u64, n_bases: int, n_accessories: int) -> bool {
    &&& plan.base_idx == planned_base_idx(seed, n_bases)
    &&& match (plan.accessory_idx, planned_accessory_idx(seed, n_accessories)) {
        (Some(a), Some(b)) => a == b,
        (None, None) => true,
        _ => false,
    }
    &&& plan.hue_shift == planned_hue_shift(seed, n_accessories)
}

/// Determinism law: one seed and one pair of asset counts admit exactly one
/// plan, so two generation runs over the same key and assets draw the same
/// base, accessory and hue.
pub proof fn lemma_plan_deterministic(
    p1: GenPlan,
    p2: GenPlan,
    seed: u64,
    n_bases: int,
    n_accessories: int,
)
    requires
        plan_matches(p1, seed, n_bases, n_accessories),
        plan_matches(p2, seed, n_bases, n_accessories),
    ensures
        p1 == p2,
{
}

/// Takes the three draws from an already seeded generator, in the fixed
/// order: base index, accessory roll (only when accessories exist), hue.
fn draw_plan(rng: &mut SmallRng, n_bases: usize, n_accessories: usize) -> (plan: GenPlan)
    requires
        rng_pos(*old(rng)) == 0,
        0 < n_bases,
        n_accessories < usize::MAX,
    ensures
        plan_matches(plan, rng_seed(*old(rng)), n_bases as int, n_accessories as int),
        plan.base_idx < n_bases,
        plan.accessory_idx matches Some(a) ==> a < n_accessories,
        plan.hue_shift < 360,
{
    let d0 = rng_next_u32(rng);
    let base_idx = (d0 as usize) % n_bases;
    let accessory_idx: Option<usize> = if n_accessories > 0 {
        let d1 = rng_next_u32(rng);
        let roll = (d1 as usize) % (n_accessories + 1);
        if roll < n_accessories {
            Some(roll)
        } else {
            None
        }
    } else {
        None
    };
    let d_hue = rng_next_u32(rng);
    let hue_shift = d_hue % 360;
    GenPlan { base_idx, accessory_idx, hue_shift }
}

/// Derives the full drawing plan for a public key given in hex.  The plan is
/// a function of the key and the two asset counts alone: the payload never
/// reaches this path.
pub fn plan_generation(pubkey_hex: &str, n_bases: usize, n_accessories: usize) -> (r: Result<
    GenPlan,
    Error,
>)
    requires
        n_accessories < usize::MAX,
    ensures
        match r {
            Ok(plan) => {
                &&& 0 < n_bases
                &&& hex64_ok(pubkey_hex.spec_bytes())
                &&& plan_matches(
                    plan,
                    seed_of_key(hex_decode32(pubkey_hex.spec_bytes())) as u64,
                    n_bases as int,
                    n_accessories as int,
                )
                &&& plan.base_idx < n_bases
                &&& (plan.accessory_idx matches Some(a) ==> a < n_accessories)
                &&& plan.hue_shift < 360
            },
            Err(Error::NoBaseImages) => n_bases == 0,
            Err(Error::InvalidKeyEncoding) => 0 < n_bases && !hex64_ok(pubkey_hex.spec_bytes()),
            Err(_) => false,
        },
{
    if n_bases == 0 {
        return Err(Error::NoBaseImages);
    }
    let mut rng = create_rng_from_pubkey(pubkey_hex)?;
    Ok(draw_plan(&mut rng, n_bases, n_accessories))
}

} // verus!
