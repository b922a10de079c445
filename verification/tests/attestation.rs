use std::collections::BTreeMap;

use ethers_core::types::transaction::eip712::{
    EIP712Domain, Eip712, Eip712DomainType, TypedData, Types,
};
use ethers_core::types::{Address, H256, U256};
use ethers_signers::LocalWallet;

use presale_signer::attest::{build_and_sign, sign, DomainConfig};
use presale_signer::eip712::attestation_digest;
use presale_signer::errors::SignError;
use presale_signer::funds::TokenAmount;
use presale_signer::hexaddr::parse_address;
use presale_signer::params::{ParamsErrors, Presale};

const CURRENCY: &str = "0x1000000000000000000000000000000000000001";
const CONTRACT: &str = "0x2000000000000000000000000000000000000002";

fn sample() -> Presale {
    Presale {
        currency: CURRENCY.to_string(),
        presale_rate: 10,
        softcap: 60,
        hardcap: 100,
        min_buy: 1,
        max_buy: 50,
        liquidity_rate: 60,
        listing_rate: 5,
        start_time: 1_000_000,
        end_time: 2_000_000,
        lock_end_time: 3_000_000,
        is_vesting: false,
        is_lock: false,
        refund: false,
        auto_listing: false,
    }
}

fn key() -> Vec<u8> {
    let mut k = vec![0u8; 32];
    k[31] = 1;
    k[0] = 0x11;
    k
}

fn config(chain_id: u64) -> DomainConfig {
    DomainConfig::new(chain_id, CONTRACT).expect("configured domain")
}

fn plenty() -> TokenAmount {
    TokenAmount::new(1, 0)
}

const NOW: u64 = 1_000_000;

fn field_type(name: &str, ty: &str) -> Eip712DomainType {
    let json = format!("{{\"name\":\"{name}\",\"type\":\"{ty}\"}}");
    serde_json::from_str(&json).expect("field type")
}

fn domain_types() -> Vec<Eip712DomainType> {
    let mut v = Vec::new();
    for (name, ty) in [
        ("name", "string"),
        ("version", "string"),
        ("chain_id", "uint256"),
        ("verifying_contract", "address"),
    ] {
        v.push(field_type(name, ty));
    }
    v
}

fn permit_types() -> Vec<Eip712DomainType> {
    let mut v = Vec::new();
    for (name, ty) in [
        ("currency", "address"),
        ("presaleRate", "uint256"),
        ("softcap", "uint256"),
        ("hardcap", "uint256"),
        ("minBuy", "uint256"),
        ("maxBuy", "uint256"),
        ("liquidityRate", "uint256"),
        ("listingRate", "uint256"),
        ("startTime", "uint256"),
        ("endTime", "uint256"),
        ("lockEndTime", "uint256"),
        ("isVesting", "bool"),
        ("isLock", "bool"),
        ("refund", "bool"),
        ("autoListing", "bool"),
    ] {
        v.push(field_type(name, ty));
    }
    v
}

fn reference_typed_data(p: &Presale, chain_id: u64) -> TypedData {
    let domain = EIP712Domain {
        name: Some("EIP712-Derive".to_string()),
        version: Some("1".to_string()),
        chain_id: Some(U256::from(chain_id)),
        verifying_contract: Some(CONTRACT.parse::<Address>().expect("contract")),
        salt: None,
    };
    let mut types: Types = BTreeMap::new();
    types.insert("EIP712Domain".to_string(), domain_types());
    types.insert("Permit".to_string(), permit_types());
    let mut message: BTreeMap<String, serde_json::Value> = BTreeMap::new();
    let num = |v: u64| serde_json::Value::Number(serde_json::Number::from(v));
    message.insert(
        "currency".to_string(),
        serde_json::Value::String(p.currency.clone()),
    );
    message.insert("presaleRate".to_string(), num(p.presale_rate));
    message.insert("softcap".to_string(), num(p.softcap));
    message.insert("hardcap".to_string(), num(p.hardcap));
    message.insert("minBuy".to_string(), num(p.min_buy));
    message.insert("maxBuy".to_string(), num(p.max_buy));
    message.insert("liquidityRate".to_string(), num(p.liquidity_rate));
    message.insert("listingRate".to_string(), num(p.listing_rate));
    message.insert("startTime".to_string(), num(p.start_time));
    message.insert("endTime".to_string(), num(p.end_time));
    message.insert("lockEndTime".to_string(), num(p.lock_end_time));
    message.insert(
        "isVesting".to_string(),
        serde_json::Value::Bool(p.is_vesting),
    );
    message.insert("isLock".to_string(), serde_json::Value::Bool(p.is_lock));
    message.insert("refund".to_string(), serde_json::Value::Bool(p.refund));
    message.insert(
        "autoListing".to_string(),
        serde_json::Value::Bool(p.auto_listing),
    );
    TypedData {
        domain,
        types,
        primary_type: "Permit".to_string(),
        message,
    }
}

#[test]
fn digest_matches_reference_encoder() {
    let p = sample();
    let currency = parse_address(CURRENCY).expect("currency");
    let contract = parse_address(CONTRACT).expect("contract");
    let ours = attestation_digest(&p, &currency, 1, &contract);
    let reference = reference_typed_data(&p, 1).encode_eip712().expect("encode");
    assert_eq!(ours.as_slice(), &reference[..]);
}

#[test]
fn digest_matches_reference_encoder_with_flags_set() {
    let mut p = sample();
    p.is_vesting = true;
    p.refund = true;
    p.auto_listing = true;
    p.presale_rate = 99_999_999_999;
    let currency = parse_address(CURRENCY).expect("currency");
    let contract = parse_address(CONTRACT).expect("contract");
    let ours = attestation_digest(&p, &currency, 7, &contract);
    let reference = reference_typed_data(&p, 7).encode_eip712().expect("encode");
    assert_eq!(ours.as_slice(), &reference[..]);
}

#[test]
fn signature_matches_reference_signer() {
    let p = sample();
    let cfg = config(1);
    let signature = sign(&p, NOW, &plenty(), &plenty(), &cfg, &key())
        .expect("signed");
    let currency = parse_address(CURRENCY).expect("currency");
    let contract = parse_address(CONTRACT).expect("contract");
    let digest = attestation_digest(&p, &currency, 1, &contract);
    let wallet = LocalWallet::from_bytes(&key()).expect("wallet");
    let sig = wallet
        .sign_hash(H256::from_slice(digest.as_slice()))
        .expect("sign");
    assert_eq!(signature, format!("0x{sig}"));
}

#[test]
fn signature_is_hex_with_prefix() {
    let signature = sign(&sample(), NOW, &plenty(), &plenty(), &config(1), &key())
        .expect("signed");
    assert!(signature.starts_with("0x"));
    assert_eq!(signature.len(), 132);
    assert!(signature[2..]
        .chars()
        .all(|c| c.is_ascii_hexdigit() && !c.is_ascii_uppercase()));
}

#[test]
fn signing_twice_is_deterministic() {
    let first = sign(&sample(), NOW, &plenty(), &plenty(), &config(1), &key());
    let second = sign(&sample(), NOW, &plenty(), &plenty(), &config(1), &key());
    assert_eq!(first.expect("first"), second.expect("second"));
}

#[test]
fn changing_a_flag_changes_the_signature() {
    let base = sign(&sample(), NOW, &plenty(), &plenty(), &config(1), &key())
        .expect("signed");
    let mut p = sample();
    p.refund = true;
    let flipped =
        sign(&p, NOW, &plenty(), &plenty(), &config(1), &key()).expect("signed");
    assert_ne!(base, flipped);
}

#[test]
fn changing_chain_id_changes_the_signature() {
    let one = sign(&sample(), NOW, &plenty(), &plenty(), &config(1), &key())
        .expect("signed");
    let two = sign(&sample(), NOW, &plenty(), &plenty(), &config(2), &key())
        .expect("signed");
    assert_ne!(one, two);
}

#[test]
fn invalid_params_rejected_before_any_ledger_figure_matters() {
    let mut p = sample();
    p.min_buy = 0;
    let empty = TokenAmount::new(0, 0);
    let r = sign(&p, NOW, &empty, &empty, &config(1), &key());
    assert_eq!(r, Err(SignError::Params(ParamsErrors::MinBuyError)));
}

#[test]
fn pipeline_reports_overflow() {
    let mut p = sample();
    p.hardcap = u64::MAX;
    p.max_buy = u64::MAX;
    p.softcap = u64::MAX - 1;
    let r = sign(&p, NOW, &plenty(), &plenty(), &config(1), &key());
    assert_eq!(r, Err(SignError::Overflow));
}

#[test]
fn pipeline_reports_insufficient_funds() {
    let poor = TokenAmount::new(0, 1499);
    let r = sign(&sample(), NOW, &poor, &plenty(), &config(1), &key());
    assert_eq!(r, Err(SignError::InsufficientFunds));
}

#[test]
fn pipeline_rejects_malformed_currency() {
    let mut p = sample();
    p.currency = "not-an-address".to_string();
    let r = sign(&p, NOW, &plenty(), &plenty(), &config(1), &key());
    assert_eq!(r, Err(SignError::InvalidCurrency));
}

#[test]
fn pipeline_rejects_short_key() {
    let r = sign(
        &sample(),
        NOW,
        &plenty(),
        &plenty(),
        &config(1),
        &vec![1u8; 31],
    );
    assert_eq!(r, Err(SignError::InvalidKey));
}

#[test]
fn pipeline_rejects_zero_key() {
    let r = sign(
        &sample(),
        NOW,
        &plenty(),
        &plenty(),
        &config(1),
        &vec![0u8; 32],
    );
    assert_eq!(r, Err(SignError::InvalidKey));
}

#[test]
fn build_and_sign_signs_without_ledger() {
    let r = build_and_sign(&sample(), &config(1), &key()).expect("signed");
    assert!(r.starts_with("0x"));
}

#[test]
fn placeholder_contract_rejected() {
    let r = DomainConfig::new(1, "0x0000000000000000000000000000000000000000");
    assert!(matches!(r, Err(SignError::DomainNotConfigured)));
}

#[test]
fn malformed_contract_rejected() {
    let r = DomainConfig::new(1, "0x123");
    assert!(matches!(r, Err(SignError::DomainNotConfigured)));
}

#[test]
fn parse_address_accepts_prefixed_and_bare() {
    let with = parse_address(CURRENCY).expect("prefixed");
    let bare = parse_address(&CURRENCY[2..]).expect("bare");
    assert_eq!(with, bare);
    assert_eq!(with.len(), 20);
    assert_eq!(with[0], 0x10);
    assert_eq!(with[19], 0x01);
}

#[test]
fn parse_address_mixed_case() {
    let v = parse_address("0xAbCdEf0123456789abcdef0123456789ABCDEF01").expect("mixed");
    assert_eq!(v[0], 0xab);
    assert_eq!(v[2], 0xef);
    assert_eq!(v[19], 0x01);
}

#[test]
fn parse_address_rejects_bad_input() {
    assert!(parse_address("").is_none());
    assert!(parse_address("0x12345").is_none());
    assert!(parse_address("0xg000000000000000000000000000000000000001").is_none());
    assert!(parse_address("0x10000000000000000000000000000000000000010").is_none());
}

#[test]
fn schema_and_payload_agree() {
    let p = sample();
    let currency = parse_address(CURRENCY).expect("currency");
    let schema = presale_signer::attest::permit_schema();
    let payload = presale_signer::attest::permit_message(&p, &currency);
    assert_eq!(schema.len(), 15);
    assert_eq!(payload.len(), 15);
    assert!(presale_signer::attest::schema_matches(&schema, &payload));
    assert_eq!(schema[0].name, "currency");
    assert_eq!(payload[14].name, "autoListing");
    let domain = presale_signer::attest::domain_schema();
    assert_eq!(domain.len(), 4);
    assert_eq!(domain[3].name, "verifyingContract");
}
