//! Construction and signing of the attestation document.
//!
//! The document is a domain descriptor (name, version, chain identifier,
//! verifying contract), a fixed schema descriptor naming every presale field
//! with its abstract type in a stable order, and the message payload whose
//! key set must equal the schema's field names. The consistency of schema
//! and payload is proved here once and for all, and the digest and signature
//! are pinned byte-for-byte by [`crate::eip712`] and the signer contract.

use vstd::prelude::*;
use vstd::utf8::encode_utf8;
use vstd::string::StringSliceAdditionalSpecFns;
use crate::params::{Presale, first_violation};
use crate::errors::SignError;
use crate::funds::TokenAmount;
use crate::amount::spec_required_amount;
use crate::hexaddr::{parse_address, spec_parse_address, valid_address_str};
use crate::eip712::attestation_digest_spec;
use crate::outside::{key_ok, sig_hex_of, sig_string_wf, sign_digest, signer_accepts};

verus! {

/// The abstract type of a schema field.
#[derive(Clone, Copy, Debug, PartialEq, Eq, Structural)]
pub enum FieldKind {
    /// A 20-byte account or contract address.
    Addr,
    /// An unsigned 256-bit integer.
    Uint,
    /// A boolean.
    Flag,
    /// A character string.
    Text,
}

/// One entry of the schema descriptor: a field name with its abstract type.
pub struct SchemaField {
    pub name: String,
    pub kind: FieldKind,
}

/// One entry of the message payload: a field name with its value.
pub struct MessageField {
    pub name: String,
    pub value: FieldValue,
}

/// A message payload value.
pub enum FieldValue {
    Addr(Vec<u8>),
    Uint(u64),
    Flag(bool),
}

/// The abstract type a payload value carries.
pub open spec fn kind_of(v: FieldValue) -> FieldKind {
    match v {
        FieldValue::Addr(_) => FieldKind::Addr,
        FieldValue::Uint(_) => FieldKind::Uint,
        FieldValue::Flag(_) => FieldKind::Flag,
    }
}

/// The schema descriptor of the signed message: every presale field with its
/// abstract type, in the fixed, stable order the wire format hashes them in.
pub open spec fn spec_permit_schema() -> Seq<(Seq<char>, FieldKind)> {
    seq![
        ("currency"@, FieldKind::Addr),
        ("presaleRate"@, FieldKind::Uint),
        ("softcap"@, FieldKind::Uint),
        ("hardcap"@, FieldKind::Uint),
        ("minBuy"@, FieldKind::Uint),
        ("maxBuy"@, FieldKind::Uint),
        ("liquidityRate"@, FieldKind::Uint),
        ("listingRate"@, FieldKind::Uint),
        ("startTime"@, FieldKind::Uint),
        ("endTime"@, FieldKind::Uint),
        ("lockEndTime"@, FieldKind::Uint),
        ("isVesting"@, FieldKind::Flag),
        ("isLock"@, FieldKind::Flag),
        ("refund"@, FieldKind::Flag),
        ("autoListing"@, FieldKind::Flag),
    ]
}

/// The schema descriptor of the domain.
pub open spec fn spec_domain_schema() -> Seq<(Seq<char>, FieldKind)> {
    seq![
        ("name"@, FieldKind::Text),
        ("version"@, FieldKind::Text),
        ("chainId"@, FieldKind::Uint),
        ("verifyingContract"@, FieldKind::Addr),
    ]
}

/// Builds the fixed schema descriptor of the message, independent of input.
pub fn permit_schema() -> (r: Vec<SchemaField>)
    ensures
        r@.map_values(|f: SchemaField| (f.name@, f.kind)) =~= spec_permit_schema(),
{
    let r: Vec<SchemaField> = vec![
        SchemaField { name: "currency".to_owned(), kind: FieldKind::Addr },
        SchemaField { name: "presaleRate".to_owned(), kind: FieldKind::Uint },
        SchemaField { name: "softcap".to_owned(), kind: FieldKind::Uint },
        SchemaField { name: "hardcap".to_owned(), kind: FieldKind::Uint },
        SchemaField { name: "minBuy".to_owned(), kind: FieldKind::Uint },
        SchemaField { name: "maxBuy".to_owned(), kind: FieldKind::Uint },
        SchemaField { name: "liquidityRate".to_owned(), kind: FieldKind::Uint },
        SchemaField { name: "listingRate".to_owned(), kind: FieldKind::Uint },
        SchemaField { name: "startTime".to_owned(), kind: FieldKind::Uint },
        SchemaField { name: "endTime".to_owned(), kind: FieldKind::Uint },
        SchemaField { name: "lockEndTime".to_owned(), kind: FieldKind::Uint },
        SchemaField { name: "isVesting".to_owned(), kind: FieldKind::Flag },
        SchemaField { name: "isLock".to_owned(), kind: FieldKind::Flag },
        SchemaField { name: "refund".to_owned(), kind: FieldKind::Flag },
        SchemaField { name: "autoListing".to_owned(), kind: FieldKind::Flag },
    ];
    r
}

/// Builds the fixed schema descriptor of the domain.
pub fn domain_schema() -> (r: Vec<SchemaField>)
    ensures
        r@.map_values(|f: SchemaField| (f.name@, f.kind)) =~= spec_domain_schema(),
{
    let r: Vec<SchemaField> = vec![
        SchemaField { name: "name".to_owned(), kind: FieldKind::Text },
        SchemaField { name: "version".to_owned(), kind: FieldKind::Text },
        SchemaField { name: "chainId".to_owned(), kind: FieldKind::Uint },
        SchemaField { name: "verifyingContract".to_owned(), kind: FieldKind::Addr },
    ];
    r
}

/// Serializes the presale into its key-value payload, keys in schema order,
/// each value the corresponding presale field. `currency` is the
/// already-parsed 20-byte token-contract address.
pub fn permit_message(p: &Presale, currency: &Vec<u8>) -> (r: Vec<MessageField>)
    requires
        currency@.len() == 20,
    ensures
        r@.map_values(|f: MessageField| (f.name@, kind_of(f.value))) =~= spec_permit_schema(),
        r@[0].value matches FieldValue::Addr(a) && a@ == currency@,
        r@[1].value == FieldValue::Uint(p.presale_rate),
        r@[2].value == FieldValue::Uint(p.softcap),
        r@[3].value == FieldValue::Uint(p.hardcap),
        r@[4].value == FieldValue::Uint(p.min_buy),
        r@[5].value == FieldValue::Uint(p.max_buy),
        r@[6].value == FieldValue::Uint(p.liquidity_rate),
        r@[7].value == FieldValue::Uint(p.listing_rate),
        r@[8].value == FieldValue::Uint(p.start_time),
        r@[9].value == FieldValue::Uint(p.end_time),
        r@[10].value == FieldValue::Uint(p.lock_end_time),
        r@[11].value == FieldValue::Flag(p.is_vesting),
        r@[12].value == FieldValue::Flag(p.is_lock),
        r@[13].value == FieldValue::Flag(p.refund),
        r@[14].value == FieldValue::Flag(p.auto_listing),
{
    let cur = crate::eip712::cloned_bytes(currency);
    let r: Vec<MessageField> = vec![
        MessageField { name: "currency".to_owned(), value: FieldValue::Addr(cur) },
        MessageField { name: "presaleRate".to_owned(), value: FieldValue::Uint(p.presale_rate) },
        MessageField { name: "softcap".to_owned(), value: FieldValue::Uint(p.softcap) },
        MessageField { name: "hardcap".to_owned(), value: FieldValue::Uint(p.hardcap) },
        MessageField { name: "minBuy".to_owned(), value: FieldValue::Uint(p.min_buy) },
        MessageField { name: "maxBuy".to_owned(), value: FieldValue::Uint(p.max_buy) },
        MessageField { name: "liquidityRate".to_owned(), value: FieldValue::Uint(p.liquidity_rate) },
        MessageField { name: "listingRate".to_owned(), value: FieldValue::Uint(p.listing_rate) },
        MessageField { name: "startTime".to_owned(), value: FieldValue::Uint(p.start_time) },
        MessageField { name: "endTime".to_owned(), value: FieldValue::Uint(p.end_time) },
        MessageField { name: "lockEndTime".to_owned(), value: FieldValue::Uint(p.lock_end_time) },
        MessageField { name: "isVesting".to_owned(), value: FieldValue::Flag(p.is_vesting) },
        MessageField { name: "isLock".to_owned(), value: FieldValue::Flag(p.is_lock) },
        MessageField { name: "refund".to_owned(), value: FieldValue::Flag(p.refund) },
        MessageField { name: "autoListing".to_owned(), value: FieldValue::Flag(p.auto_listing) },
    ];
    r
}

/// Whether the payload's key set equals the schema's field names, key by key
/// and in order, with each value of the type the schema declares.
pub open spec fn schema_consistent(s: Seq<SchemaField>, m: Seq<MessageField>) -> bool {
    s.len() == m.len() && forall|i: int|
        0 <= i < s.len() ==> (#[trigger] s[i]).name@ == (#[trigger] m[i]).name@ && s[i].kind
            == kind_of(m[i].value)
}

/// Checks that the payload's key set equals the schema descriptor's field
/// names, with matching types. A mismatch is a construction defect; for the
/// payloads this crate builds it is proved never to occur.
pub fn schema_matches(schema: &Vec<SchemaField>, msg: &Vec<MessageField>) -> (r: bool)
    ensures
        r == schema_consistent(schema@, msg@),
{
    if schema.len() != msg.len() {
        return false;
    }
    let n = schema.len();
    let mut i: usize = 0;
    while i < n
        invariant
            0 <= i <= n,
            n == schema@.len(),
            n == msg@.len(),
            forall|k: int|
                0 <= k < i ==> (#[trigger] schema@[k]).name@ == (#[trigger] msg@[k]).name@
                    && schema@[k].kind == kind_of(msg@[k].value),
        decreases n - i,
    {
        let sf = &schema[i];
        let mf = &msg[i];
        if !sf.name.eq(&mf.name) {
            return false;
        }
        let vk = match mf.value {
            FieldValue::Addr(_) => FieldKind::Addr,
            FieldValue::Uint(_) => FieldKind::Uint,
            FieldValue::Flag(_) => FieldKind::Flag,
        };
        if !(sf.kind == vk) {
            return false;
        }
        i = i + 1;
    }
    true
}

/// The all-zero address: the unconfigured placeholder no deployment may sign
/// under.
pub open spec fn zero_address() -> Seq<u8> {
    Seq::new(20, |i: int| 0u8)
}

/// Deployment-specific domain configuration: the chain identifier and the
/// verifying-contract address. Name and version are fixed constants of the
/// wire format.
pub struct DomainConfig {
    pub chain_id: u64,
    pub verifying_contract: Vec<u8>,
}

impl DomainConfig {
    /// A usable configuration: a 20-byte contract address that is not the
    /// unconfigured placeholder.
    pub open spec fn wf(&self) -> bool {
        self.verifying_contract@.len() == 20 && self.verifying_contract@ != zero_address()
    }

    /// Builds the domain configuration, rejecting a malformed or placeholder
    /// (all-zero) verifying-contract address as a configuration defect.
    pub fn new(chain_id: u64, contract: &str) -> (r: Result<DomainConfig, SignError>)
        ensures
            r matches Ok(c) ==> c.wf() && c.chain_id == chain_id && c.verifying_contract@
                == spec_parse_address(contract.spec_bytes()),
            r is Ok <==> valid_address_str(contract.spec_bytes()) && spec_parse_address(
                contract.spec_bytes(),
            ) != zero_address(),
            r is Err ==> r == Err::<DomainConfig, SignError>(SignError::DomainNotConfigured),
    {
        let parsed = match parse_address(contract) {
            Some(v) => v,
            None => {
                return Err(SignError::DomainNotConfigured);
            },
        };
        if is_zero_address(&parsed) {
            return Err(SignError::DomainNotConfigured);
        }
        Ok(DomainConfig { chain_id, verifying_contract: parsed })
    }
}

/// Whether the 20 address bytes are all zero.
fn is_zero_address(a: &Vec<u8>) -> (r: bool)
    requires
        a@.len() == 20,
    ensures
        r == (a@ == zero_address()),
{
    let mut i: usize = 0;
    while i < 20
        invariant
            0 <= i <= 20,
            a@.len() == 20,
            forall|k: int| 0 <= k < i ==> a@[k] == 0u8,
        decreases 20 - i,
    {
        if a[i] != 0 {
            proof {
                assert(a@[i as int] != zero_address()[i as int]);
            }
            return false;
        }
        i = i + 1;
    }
    proof {
        assert(a@ =~= zero_address());
    }
    true
}

/// A signing key the signer accepts: 32 bytes forming a valid secp256k1
/// scalar.
pub open spec fn usable_key(k: Seq<u8>) -> bool {
    k.len() == 32 && key_ok(k)
}

/// Builds the attestation document for `p` under `cfg`, checks schema and
/// payload against each other, and signs the digest with `key`. On success
/// the result is the `0x`-prefixed lowercase hex signature over exactly the
/// digest [`attestation_digest_spec`] describes.
pub fn build_and_sign(p: &Presale, cfg: &DomainConfig, key: &Vec<u8>) -> (r: Result<
    String,
    SignError,
>)
    requires
        cfg.wf(),
    ensures
        r is Ok <==> valid_address_str(encode_utf8(p.currency@)) && usable_key(key@)
            && signer_accepts(
            key@,
            attestation_digest_spec(
                *p,
                spec_parse_address(encode_utf8(p.currency@)),
                cfg.chain_id,
                cfg.verifying_contract@,
            ),
        ),
        r matches Ok(s) ==> s@ == sig_hex_of(
            key@,
            attestation_digest_spec(
                *p,
                spec_parse_address(encode_utf8(p.currency@)),
                cfg.chain_id,
                cfg.verifying_contract@,
            ),
        ) && sig_string_wf(s@),
        r == Err::<String, SignError>(SignError::InvalidCurrency) <==> !valid_address_str(
            encode_utf8(p.currency@),
        ),
        r == Err::<String, SignError>(SignError::InvalidKey) <==> valid_address_str(
            encode_utf8(p.currency@),
        ) && !usable_key(key@),
        r is Err ==> r == Err::<String, SignError>(SignError::InvalidCurrency) || r == Err::<
            String,
            SignError,
        >(SignError::InvalidKey) || r == Err::<String, SignError>(SignError::SignerFailure),
{
    let currency = match parse_address(p.currency.as_str()) {
        Some(v) => v,
        None => {
            return Err(SignError::InvalidCurrency);
        },
    };
    let schema = permit_schema();
    let payload = permit_message(p, &currency);
    let consistent = schema_matches(&schema, &payload);
    proof {
        assert(schema_consistent(schema@, payload@));
    }
    let digest = crate::eip712::attestation_digest(
        p,
        &currency,
        cfg.chain_id,
        &cfg.verifying_contract,
    );
    if key.len() != 32 {
        return Err(SignError::InvalidKey);
    }
    match sign_digest(key, &digest) {
        Ok(s) => Ok(s),
        Err(key_rejected) => {
            if key_rejected {
                Err(SignError::InvalidKey)
            } else {
                Err(SignError::SignerFailure)
            }
        },
    }
}

/// What the whole pipeline returns for a presale, a clock reading, the two
/// ledger quantities, a domain configuration and a signing key: the first
/// failing stage's error, or the signature's characters.
pub open spec fn pipeline_result(
    p: Presale,
    now: u64,
    balance: TokenAmount,
    allowance: TokenAmount,
    cfg: DomainConfig,
    key: Seq<u8>,
) -> Result<Seq<char>, SignError> {
    match first_violation(p, now) {
        Some(e) => Err(SignError::Params(e)),
        None => {
            let required = spec_required_amount(
                p.hardcap as int,
                p.presale_rate as int,
                p.listing_rate as int,
            );
            if required > u64::MAX {
                Err(SignError::Overflow)
            } else if !valid_address_str(encode_utf8(p.currency@)) {
                Err(SignError::InvalidCurrency)
            } else if !(balance.value() >= required && allowance.value() >= required) {
                Err(SignError::InsufficientFunds)
            } else if !usable_key(key) {
                Err(SignError::InvalidKey)
            } else if !signer_accepts(
                key,
                attestation_digest_spec(
                    p,
                    spec_parse_address(encode_utf8(p.currency@)),
                    cfg.chain_id,
                    cfg.verifying_contract@,
                ),
            ) {
                Err(SignError::SignerFailure)
            } else {
                Ok(
                    sig_hex_of(
                        key,
                        attestation_digest_spec(
                            p,
                            spec_parse_address(encode_utf8(p.currency@)),
                            cfg.chain_id,
                            cfg.verifying_contract@,
                        ),
                    ),
                )
            }
        },
    }
}

/// The full validation-and-attestation pipeline, given the clock reading and
/// the two ledger quantities: validate, compute the requirement, parse the
/// currency, compare funds, and build and sign the attestation. Stages run
/// in this order and the first failure short-circuits.
pub fn sign(
    p: &Presale,
    now: u64,
    balance: &TokenAmount,
    allowance: &TokenAmount,
    cfg: &DomainConfig,
    key: &Vec<u8>,
) -> (r: Result<String, SignError>)
    requires
        cfg.wf(),
    ensures
        r matches Ok(s) ==> pipeline_result(*p, now, *balance, *allowance, *cfg, key@) == Ok::<
            Seq<char>,
            SignError,
        >(s@) && sig_string_wf(s@),
        r matches Err(e) ==> pipeline_result(*p, now, *balance, *allowance, *cfg, key@) == Err::<
            Seq<char>,
            SignError,
        >(e),
{
    match crate::params::validate_at(p, now) {
        Ok(_) => (),
        Err(e) => {
            return Err(SignError::Params(e));
        },
    }
    let required = match crate::amount::calculate_amount(
        &p.hardcap,
        &p.presale_rate,
        p.listing_rate,
    ) {
        Some(v) => v,
        None => {
            return Err(SignError::Overflow);
        },
    };
    if parse_address(p.currency.as_str()).is_none() {
        return Err(SignError::InvalidCurrency);
    }
    match crate::funds::verify_funds(balance, allowance, required) {
        Ok(_) => (),
        Err(e) => {
            return Err(e);
        },
    }
    build_and_sign(p, cfg, key)
}

/// The pipeline is deterministic: one presale, clock reading, pair of ledger
/// quantities, domain configuration and key give one outcome, between calls
/// and between processes.
pub proof fn lemma_pipeline_deterministic(
    p1: Presale,
    p2: Presale,
    now1: u64,
    now2: u64,
    bal1: TokenAmount,
    bal2: TokenAmount,
    alw1: TokenAmount,
    alw2: TokenAmount,
    cfg1: DomainConfig,
    cfg2: DomainConfig,
    key1: Seq<u8>,
    key2: Seq<u8>,
)
    requires
        p1 == p2,
        now1 == now2,
        bal1 == bal2,
        alw1 == alw2,
        cfg1 == cfg2,
        key1 == key2,
    ensures
        pipeline_result(p1, now1, bal1, alw1, cfg1, key1) == pipeline_result(
            p2,
            now2,
            bal2,
            alw2,
            cfg2,
            key2,
        ),
{
}

} // verus!
