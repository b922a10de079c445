//! Presale parameters and the ordered validation rules over them.
//!
//! `validate_at` evaluates ten domain rules in a fixed order and reports the
//! first violated rule; later rules are never consulted once an earlier one
//! fails, so the reported violation is deterministic.

use vstd::prelude::*;

verus! {

/// Economic parameters of a presale campaign, received per request and
/// treated as immutable. The flags `is_vesting`, `is_lock`, `refund` and
/// `auto_listing`, and `lock_end_time`, are carried through unchanged and are
/// deliberately never validated.
pub struct Presale {
    pub currency: String,
    pub presale_rate: u64,
    pub softcap: u64,
    pub hardcap: u64,
    pub min_buy: u64,
    pub max_buy: u64,
    pub liquidity_rate: u64,
    pub listing_rate: u64,
    pub start_time: u64,
    pub end_time: u64,
    pub lock_end_time: u64,
    pub is_vesting: bool,
    pub is_lock: bool,
    pub refund: bool,
    pub auto_listing: bool,
}

/// The distinct rule-violation kinds reported by validation. Both time
/// conditions report `StartTimeError`; `EndTimeError` is carried in the
/// vocabulary but no rule of the ordered set reports it.
#[derive(Clone, Copy, Debug, PartialEq, Eq, Structural)]
pub enum ParamsErrors {
    MinBuyError,
    MaxBuyError,
    HardcapError,
    SoftcapError,
    LiqRateError,
    ListingRateError,
    PresaleRateError,
    StartTimeError,
    EndTimeError,
}

/// Upper bound shared by the presale and listing exchange rates.
pub open spec fn rate_limit() -> int {
    100_000_000_000
}

/// Rule `i` of the ordered rule set, for `1 <= i <= 10`; `now` only enters
/// rule 10. Out-of-range indices hold vacuously.
pub open spec fn rule(p: Presale, now: u64, i: int) -> bool {
    if i == 1 {
        p.min_buy > 0
    } else if i == 2 {
        p.max_buy > 0 && p.min_buy < p.max_buy
    } else if i == 3 {
        p.max_buy <= p.hardcap
    } else if i == 4 {
        p.hardcap > 0 && p.hardcap > p.softcap
    } else if i == 5 {
        p.softcap >= p.hardcap / 2
    } else if i == 6 {
        p.softcap > 0
    } else if i == 7 {
        p.liquidity_rate > 50 && p.liquidity_rate <= 100
    } else if i == 8 {
        p.listing_rate > 0 && p.listing_rate <= rate_limit()
    } else if i == 9 {
        p.presale_rate > 0 && p.presale_rate <= rate_limit()
    } else if i == 10 {
        p.start_time >= now && p.start_time < p.end_time
    } else {
        true
    }
}

/// The violation kind that rule `i` reports when it is the first to fail.
pub open spec fn violation_kind(i: int) -> ParamsErrors {
    if i == 1 {
        ParamsErrors::MinBuyError
    } else if i == 2 || i == 3 {
        ParamsErrors::MaxBuyError
    } else if i == 4 || i == 5 {
        ParamsErrors::HardcapError
    } else if i == 6 {
        ParamsErrors::SoftcapError
    } else if i == 7 {
        ParamsErrors::LiqRateError
    } else if i == 8 {
        ParamsErrors::ListingRateError
    } else if i == 9 {
        ParamsErrors::PresaleRateError
    } else {
        ParamsErrors::StartTimeError
    }
}

/// The first rule violated by `p` at time `now`, if any, as the kind that
/// validation reports.
pub open spec fn first_violation(p: Presale, now: u64) -> Option<ParamsErrors> {
    if !rule(p, now, 1) {
        Some(ParamsErrors::MinBuyError)
    } else if !rule(p, now, 2) {
        Some(ParamsErrors::MaxBuyError)
    } else if !rule(p, now, 3) {
        Some(ParamsErrors::MaxBuyError)
    } else if !rule(p, now, 4) {
        Some(ParamsErrors::HardcapError)
    } else if !rule(p, now, 5) {
        Some(ParamsErrors::HardcapError)
    } else if !rule(p, now, 6) {
        Some(ParamsErrors::SoftcapError)
    } else if !rule(p, now, 7) {
        Some(ParamsErrors::LiqRateError)
    } else if !rule(p, now, 8) {
        Some(ParamsErrors::ListingRateError)
    } else if !rule(p, now, 9) {
        Some(ParamsErrors::PresaleRateError)
    } else if !rule(p, now, 10) {
        Some(ParamsErrors::StartTimeError)
    } else {
        None
    }
}

/// All ten rules hold of `p` at time `now`.
pub open spec fn all_rules_hold(p: Presale, now: u64) -> bool {
    forall|i: int| 1 <= i <= 10 ==> rule(p, now, i)
}

/// `first_violation`, shaped as the `Result` that validation returns.
pub open spec fn validation_result(p: Presale, now: u64) -> Result<(), ParamsErrors> {
    match first_violation(p, now) {
        Some(e) => Err(e),
        None => Ok(()),
    }
}

/// Validates `p` against the ordered rule set with the clock reading `now`
/// (seconds since the epoch). Returns the first violated rule, or success.
pub fn validate_at(p: &Presale, now: u64) -> (r: Result<(), ParamsErrors>)
    ensures
        r == validation_result(*p, now),
{
    if !(p.min_buy > 0) {
        return Err(ParamsErrors::MinBuyError);
    }
    if !(p.max_buy > 0 && p.min_buy < p.max_buy) {
        return Err(ParamsErrors::MaxBuyError);
    }
    if !(p.max_buy <= p.hardcap) {
        return Err(ParamsErrors::MaxBuyError);
    }
    if !(p.hardcap > 0 && p.hardcap > p.softcap) {
        return Err(ParamsErrors::HardcapError);
    }
    if !(p.softcap >= p.hardcap / 2) {
        return Err(ParamsErrors::HardcapError);
    }
    if !(p.softcap > 0) {
        return Err(ParamsErrors::SoftcapError);
    }
    if !(p.liquidity_rate > 50 && p.liquidity_rate <= 100) {
        return Err(ParamsErrors::LiqRateError);
    }
    if !(p.listing_rate > 0 && p.listing_rate <= 100_000_000_000) {
        return Err(ParamsErrors::ListingRateError);
    }
    if !(p.presale_rate > 0 && p.presale_rate <= 100_000_000_000) {
        return Err(ParamsErrors::PresaleRateError);
    }
    if !(p.start_time >= now && p.start_time < p.end_time) {
        return Err(ParamsErrors::StartTimeError);
    }
    Ok(())
}

/// Validates `p` against the clock sampled at the moment of the call. The
/// result is the first violated rule for some clock reading; a violation of
/// any rule but the start-time rule does not depend on the clock and is
/// reported whatever it reads.
pub fn check_params(presale: &Presale) -> (r: Result<(), ParamsErrors>)
    ensures
        exists|t: u64| r == validation_result(*presale, t),
        (r matches Err(e) && e != ParamsErrors::StartTimeError) ==> forall|t: u64|
            validation_result(*presale, t) == r,
{
    let now = crate::outside::now_unix_time();
    let r = validate_at(presale, now);
    proof {
        assert(r == validation_result(*presale, now));
        match r {
            Err(e) => {
                if e != ParamsErrors::StartTimeError {
                    assert forall|t: u64| validation_result(*presale, t) == r by {
                        assert(first_violation(*presale, t) == first_violation(*presale, now));
                    }
                }
            },
            Ok(_) => {},
        }
    }
    r
}

/// Validation succeeds exactly when every rule holds: a parameter set
/// satisfying rules 1 through 10 is accepted, and an accepted set satisfies
/// them all.
pub proof fn lemma_validation_complete(p: Presale, now: u64)
    ensures
        validation_result(p, now) is Ok <==> all_rules_hold(p, now),
{
    if validation_result(p, now) is Ok {
        assert forall|i: int| 1 <= i <= 10 implies rule(p, now, i) by {
            assert(first_violation(p, now) is None);
        }
    }
}

/// Negating a single rule while the other nine hold yields exactly that
/// rule's violation kind, never a different one.
pub proof fn lemma_single_violation(p: Presale, now: u64, i: int)
    requires
        1 <= i <= 10,
        !rule(p, now, i),
        forall|j: int| 1 <= j <= 10 && j != i ==> rule(p, now, j),
    ensures
        first_violation(p, now) == Some(violation_kind(i)),
{
    assert forall|j: int| 1 <= j < i implies rule(p, now, j) by {}
}

/// Rule evaluation order is deterministic: when rules 1 and 2 hold and rule 3
/// fails, the rule-3 violation is reported, whatever later rules (such as the
/// liquidity-rate rule) would have said.
pub proof fn lemma_earliest_violation_reported(p: Presale, now: u64)
    requires
        rule(p, now, 1),
        rule(p, now, 2),
        !rule(p, now, 3),
    ensures
        first_violation(p, now) == Some(ParamsErrors::MaxBuyError),
{
}

} // verus!
