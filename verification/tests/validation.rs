use presale_signer::amount::calculate_amount;
use presale_signer::errors::SignError;
use presale_signer::funds::{verify_funds, TokenAmount};
use presale_signer::params::{check_params, validate_at, ParamsErrors, Presale};

fn sample() -> Presale {
    Presale {
        currency: "0x1000000000000000000000000000000000000001".to_string(),
        presale_rate: 10,
        softcap: 60,
        hardcap: 100,
        min_buy: 1,
        max_buy: 50,
        liquidity_rate: 60,
        listing_rate: 5,
        start_time: 1_000_000,
        end_time: 2_000_000,
        lock_end_time: 3_000_000,
        is_vesting: false,
        is_lock: false,
        refund: false,
        auto_listing: false,
    }
}

const NOW: u64 = 1_000_000;

#[test]
fn valid_parameters_pass() {
    assert_eq!(validate_at(&sample(), NOW), Ok(()));
}

#[test]
fn min_buy_zero_rejected() {
    let mut p = sample();
    p.min_buy = 0;
    assert_eq!(validate_at(&p, NOW), Err(ParamsErrors::MinBuyError));
}

#[test]
fn min_buy_not_below_max_buy_rejected() {
    let mut p = sample();
    p.min_buy = 50;
    assert_eq!(validate_at(&p, NOW), Err(ParamsErrors::MaxBuyError));
}

#[test]
fn max_buy_above_hardcap_rejected() {
    let mut p = sample();
    p.max_buy = 101;
    assert_eq!(validate_at(&p, NOW), Err(ParamsErrors::MaxBuyError));
}

#[test]
fn hardcap_not_above_softcap_rejected() {
    let mut p = sample();
    p.softcap = 100;
    assert_eq!(validate_at(&p, NOW), Err(ParamsErrors::HardcapError));
}

#[test]
fn softcap_below_half_hardcap_rejected() {
    let mut p = sample();
    p.softcap = 49;
    assert_eq!(validate_at(&p, NOW), Err(ParamsErrors::HardcapError));
}

#[test]
fn softcap_at_half_of_odd_hardcap_passes() {
    let mut p = sample();
    p.hardcap = 101;
    p.softcap = 50;
    assert_eq!(validate_at(&p, NOW), Ok(()));
}

#[test]
fn softcap_zero_reports_half_hardcap_rule_first() {
    let mut p = sample();
    p.softcap = 0;
    assert_eq!(validate_at(&p, NOW), Err(ParamsErrors::HardcapError));
}

#[test]
fn liquidity_rate_at_fifty_rejected() {
    let mut p = sample();
    p.liquidity_rate = 50;
    assert_eq!(validate_at(&p, NOW), Err(ParamsErrors::LiqRateError));
}

#[test]
fn liquidity_rate_above_hundred_rejected() {
    let mut p = sample();
    p.liquidity_rate = 101;
    assert_eq!(validate_at(&p, NOW), Err(ParamsErrors::LiqRateError));
}

#[test]
fn listing_rate_zero_rejected() {
    let mut p = sample();
    p.listing_rate = 0;
    assert_eq!(validate_at(&p, NOW), Err(ParamsErrors::ListingRateError));
}

#[test]
fn listing_rate_above_limit_rejected() {
    let mut p = sample();
    p.listing_rate = 100_000_000_001;
    assert_eq!(validate_at(&p, NOW), Err(ParamsErrors::ListingRateError));
}

#[test]
fn presale_rate_zero_rejected() {
    let mut p = sample();
    p.presale_rate = 0;
    assert_eq!(validate_at(&p, NOW), Err(ParamsErrors::PresaleRateError));
}

#[test]
fn presale_rate_above_limit_rejected() {
    let mut p = sample();
    p.presale_rate = 100_000_000_001;
    assert_eq!(validate_at(&p, NOW), Err(ParamsErrors::PresaleRateError));
}

#[test]
fn start_time_in_past_rejected() {
    let p = sample();
    assert_eq!(validate_at(&p, NOW + 1), Err(ParamsErrors::StartTimeError));
}

#[test]
fn start_time_not_before_end_time_rejected() {
    let mut p = sample();
    p.end_time = p.start_time;
    assert_eq!(validate_at(&p, NOW), Err(ParamsErrors::StartTimeError));
}

#[test]
fn earliest_violation_wins() {
    // violates both the max-buy/hardcap rule and the liquidity-rate rule:
    // the earlier rule is the one reported.
    let mut p = sample();
    p.max_buy = 101;
    p.liquidity_rate = 40;
    assert_eq!(validate_at(&p, NOW), Err(ParamsErrors::MaxBuyError));
}

#[test]
fn check_params_accepts_future_start() {
    let mut p = sample();
    p.start_time = u64::MAX - 1;
    p.end_time = u64::MAX;
    assert_eq!(check_params(&p), Ok(()));
}

#[test]
fn check_params_rejects_clock_independent_violation() {
    let mut p = sample();
    p.min_buy = 0;
    assert_eq!(check_params(&p), Err(ParamsErrors::MinBuyError));
}

#[test]
fn required_amount_exact() {
    assert_eq!(calculate_amount(&100, &10, 5), Some(1500));
}

#[test]
fn required_amount_product_overflow() {
    assert_eq!(calculate_amount(&u64::MAX, &2, 0), None);
}

#[test]
fn required_amount_sum_overflow() {
    let half = 1u64 << 63;
    assert_eq!(calculate_amount(&half, &1, 1), None);
}

#[test]
fn funds_exactly_sufficient() {
    let balance = TokenAmount::new(0, 1000);
    let allowance = TokenAmount::new(0, 1000);
    assert_eq!(verify_funds(&balance, &allowance, 1000), Ok(()));
}

#[test]
fn balance_one_short_fails() {
    let balance = TokenAmount::new(0, 999);
    let allowance = TokenAmount::new(0, 1000);
    assert_eq!(
        verify_funds(&balance, &allowance, 1000),
        Err(SignError::InsufficientFunds)
    );
}

#[test]
fn allowance_one_short_fails() {
    let balance = TokenAmount::new(0, 1000);
    let allowance = TokenAmount::new(0, 999);
    assert_eq!(
        verify_funds(&balance, &allowance, 1000),
        Err(SignError::InsufficientFunds)
    );
}

#[test]
fn high_half_outweighs_requirement() {
    let balance = TokenAmount::new(1, 0);
    let allowance = TokenAmount::new(1, 0);
    assert_eq!(verify_funds(&balance, &allowance, u64::MAX), Ok(()));
}
