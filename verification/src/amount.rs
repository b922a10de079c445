//! The token-requirement calculation.

use vstd::prelude::*;

verus! {

/// Total token quantity needed to cover both the presale allocation and the
/// post-presale liquidity provisioning, as a mathematical integer.
pub open spec fn spec_required_amount(hardcap: int, presale_rate: int, listing_rate: int) -> int {
    hardcap * presale_rate + hardcap * listing_rate
}

/// Computes `hardcap * presale_rate + hardcap * listing_rate` with checked
/// arithmetic. Overflow is reported as `None`, never wrapped: a wrapped,
/// smaller requirement would let an under-collateralized presale pass the
/// balance check.
pub fn calculate_amount(hardcap: &u64, presale_rate: &u64, listing_rate: u64) -> (r: Option<u64>)
    ensures
        r matches Some(v) <==> spec_required_amount(
            *hardcap as int,
            *presale_rate as int,
            listing_rate as int,
        ) <= u64::MAX,
        r matches Some(v) ==> v == spec_required_amount(
            *hardcap as int,
            *presale_rate as int,
            listing_rate as int,
        ),
{
    proof {
        lemma_products_bound_sum(*hardcap as int, *presale_rate as int, listing_rate as int);
    }
    let presale_amount = hardcap.checked_mul(*presale_rate);
    let liquidity_amount = hardcap.checked_mul(listing_rate);
    match (presale_amount, liquidity_amount) {
        (Some(p), Some(l)) => p.checked_add(l),
        _ => None,
    }
}

/// Each product of nonnegative factors is bounded by the sum of the two
/// products, so the sum fits in a word only if each product does.
proof fn lemma_products_bound_sum(h: int, p: int, l: int)
    requires
        h >= 0,
        p >= 0,
        l >= 0,
    ensures
        h * p <= h * p + h * l,
        h * l <= h * p + h * l,
{
    assert(h * p >= 0 && h * l >= 0) by (nonlinear_arith)
        requires
            h >= 0 && p >= 0 && l >= 0,
    ;
}

} // verus!
