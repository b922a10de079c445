//! The typed-data wire format that gets signed.
//!
//! A presale attestation is the Keccak-256 digest of
//! `0x19 0x01 || domainSeparator || structHash`, where the domain separator
//! hashes the domain descriptor (name, version, chain identifier,
//! verifying contract) and the struct hash hashes the type descriptor and the
//! 15 presale fields, each encoded as a 32-byte word in the fixed schema
//! order. Other systems verify signatures against this exact byte shape, so
//! every encoding step below carries its byte-level contract; only the
//! Keccak-256 calls themselves are outside.

use vstd::prelude::*;
use vstd::utf8::encode_utf8;
use crate::outside::{keccak_of, keccak_bytes};

verus! {

/// The type descriptor of the signed message: every presale field with its
/// abstract type, in the fixed, stable schema order.
pub open spec fn permit_type_chars() -> Seq<char> {
    "Permit(address currency,uint256 presaleRate,uint256 softcap,uint256 hardcap,uint256 minBuy,uint256 maxBuy,uint256 liquidityRate,uint256 listingRate,uint256 startTime,uint256 endTime,uint256 lockEndTime,bool isVesting,bool isLock,bool refund,bool autoListing)"@
}

/// The type descriptor of the domain.
pub open spec fn domain_type_chars() -> Seq<char> {
    "EIP712Domain(string name,string version,uint256 chainId,address verifyingContract)"@
}

/// The fixed user-readable name of the signing domain.
pub open spec fn domain_name_chars() -> Seq<char> {
    "EIP712-Derive"@
}

/// The fixed version of the signing domain.
pub open spec fn domain_version_chars() -> Seq<char> {
    "1"@
}

/// A 64-bit unsigned value as a 32-byte big-endian word.
pub open spec fn uint_word(v: u64) -> Seq<u8> {
    Seq::new(24, |i: int| 0u8) + seq![
        ((v >> 56) & 0xff) as u8,
        ((v >> 48) & 0xff) as u8,
        ((v >> 40) & 0xff) as u8,
        ((v >> 32) & 0xff) as u8,
        ((v >> 24) & 0xff) as u8,
        ((v >> 16) & 0xff) as u8,
        ((v >> 8) & 0xff) as u8,
        (v & 0xff) as u8,
    ]
}

/// A boolean as a 32-byte word: 0 or 1.
pub open spec fn bool_word(b: bool) -> Seq<u8> {
    Seq::new(31, |i: int| 0u8) + seq![if b { 1u8 } else { 0u8 }]
}

/// A 20-byte address as a 32-byte word: 12 zero bytes, then the address.
pub open spec fn address_word(a: Seq<u8>) -> Seq<u8> {
    Seq::new(12, |i: int| 0u8) + a
}

/// The bytes hashed into the domain separator: the domain type hash, the
/// hashes of name and version, the chain identifier, and the verifying
/// contract, each as a 32-byte word.
pub open spec fn domain_encoding(chain_id: u64, contract: Seq<u8>) -> Seq<u8> {
    keccak_of(encode_utf8(domain_type_chars())) + keccak_of(encode_utf8(domain_name_chars()))
        + keccak_of(encode_utf8(domain_version_chars())) + uint_word(chain_id) + address_word(
        contract,
    )
}

/// The bytes hashed into the struct hash: the message type hash, then every
/// presale field as a 32-byte word in schema order. `currency` is the
/// already-parsed 20-byte token-contract address.
pub open spec fn message_encoding(p: crate::params::Presale, currency: Seq<u8>) -> Seq<u8> {
    keccak_of(encode_utf8(permit_type_chars())) + address_word(currency) + uint_word(
        p.presale_rate,
    ) + uint_word(p.softcap) + uint_word(p.hardcap) + uint_word(p.min_buy) + uint_word(p.max_buy)
        + uint_word(p.liquidity_rate) + uint_word(p.listing_rate) + uint_word(p.start_time)
        + uint_word(p.end_time) + uint_word(p.lock_end_time) + bool_word(p.is_vesting) + bool_word(
        p.is_lock,
    ) + bool_word(p.refund) + bool_word(p.auto_listing)
}

/// The digest that is signed: `0x19 0x01`, the domain separator, and the
/// struct hash, hashed together.
pub open spec fn attestation_digest_spec(
    p: crate::params::Presale,
    currency: Seq<u8>,
    chain_id: u64,
    contract: Seq<u8>,
) -> Seq<u8> {
    keccak_of(
        seq![0x19u8, 0x01u8] + keccak_of(domain_encoding(chain_id, contract)) + keccak_of(
            message_encoding(p, currency),
        ),
    )
}

/// Appends `n` zero bytes.
fn push_zeros(out: &mut Vec<u8>, n: usize)
    ensures
        final(out)@ == old(out)@ + Seq::new(n as nat, |i: int| 0u8),
{
    let mut k: usize = 0;
    proof {
        assert(out@ =~= old(out)@ + Seq::new(0, |i: int| 0u8));
    }
    while k < n
        invariant
            0 <= k <= n,
            out@ == old(out)@ + Seq::new(k as nat, |i: int| 0u8),
        decreases n - k,
    {
        out.push(0u8);
        k = k + 1;
        proof {
            assert(out@ =~= old(out)@ + Seq::new(k as nat, |i: int| 0u8));
        }
    }
}

/// Appends a copy of `src`.
fn push_bytes(out: &mut Vec<u8>, src: &Vec<u8>)
    ensures
        final(out)@ == old(out)@ + src@,
{
    let n = src.len();
    let mut k: usize = 0;
    proof {
        assert(out@ =~= old(out)@ + src@.subrange(0, 0));
    }
    while k < n
        invariant
            0 <= k <= n,
            n == src@.len(),
            out@ == old(out)@ + src@.subrange(0, k as int),
        decreases n - k,
    {
        out.push(src[k]);
        k = k + 1;
        proof {
            assert(out@ =~= old(out)@ + src@.subrange(0, k as int));
        }
    }
    proof {
        assert(out@ =~= old(out)@ + src@);
    }
}

/// A fresh copy of a byte string.
pub fn cloned_bytes(src: &Vec<u8>) -> (r: Vec<u8>)
    ensures
        r@ == src@,
{
    let mut out: Vec<u8> = Vec::new();
    push_bytes(&mut out, src);
    proof {
        assert(out@ =~= src@);
    }
    out
}

/// Appends the 32-byte word of a 64-bit unsigned value.
fn push_uint_word(out: &mut Vec<u8>, v: u64)
    ensures
        final(out)@ == old(out)@ + uint_word(v),
{
    push_zeros(out, 24);
    out.push(((v >> 56) & 0xff) as u8);
    out.push(((v >> 48) & 0xff) as u8);
    out.push(((v >> 40) & 0xff) as u8);
    out.push(((v >> 32) & 0xff) as u8);
    out.push(((v >> 24) & 0xff) as u8);
    out.push(((v >> 16) & 0xff) as u8);
    out.push(((v >> 8) & 0xff) as u8);
    out.push((v & 0xff) as u8);
    proof {
        assert(out@ =~= old(out)@ + uint_word(v));
    }
}

/// Appends the 32-byte word of a boolean.
fn push_bool_word(out: &mut Vec<u8>, b: bool)
    ensures
        final(out)@ == old(out)@ + bool_word(b),
{
    push_zeros(out, 31);
    out.push(if b { 1u8 } else { 0u8 });
    proof {
        assert(out@ =~= old(out)@ + bool_word(b));
    }
}

/// Appends the 32-byte word of a 20-byte address.
fn push_address_word(out: &mut Vec<u8>, a: &Vec<u8>)
    requires
        a@.len() == 20,
    ensures
        final(out)@ == old(out)@ + address_word(a@),
{
    push_zeros(out, 12);
    push_bytes(out, a);
    proof {
        assert(out@ =~= old(out)@ + address_word(a@));
    }
}

/// The Keccak-256 digest of the bytes hashed into the domain separator.
pub fn domain_separator(chain_id: u64, contract: &Vec<u8>) -> (r: Vec<u8>)
    requires
        contract@.len() == 20,
    ensures
        r@ == keccak_of(domain_encoding(chain_id, contract@)),
        r@.len() == 32,
{
    let dt = keccak_bytes(
        "EIP712Domain(string name,string version,uint256 chainId,address verifyingContract)".as_bytes(),
    );
    let dn = keccak_bytes("EIP712-Derive".as_bytes());
    let dv = keccak_bytes("1".as_bytes());
    let mut enc: Vec<u8> = Vec::new();
    push_bytes(&mut enc, &dt);
    push_bytes(&mut enc, &dn);
    push_bytes(&mut enc, &dv);
    push_uint_word(&mut enc, chain_id);
    push_address_word(&mut enc, contract);
    proof {
        assert(enc@ =~= domain_encoding(chain_id, contract@));
    }
    keccak_bytes(enc.as_slice())
}

/// The Keccak-256 digest of the bytes hashed into the struct hash.
pub fn struct_hash(p: &crate::params::Presale, currency: &Vec<u8>) -> (r: Vec<u8>)
    requires
        currency@.len() == 20,
    ensures
        r@ == keccak_of(message_encoding(*p, currency@)),
        r@.len() == 32,
{
    let pt = keccak_bytes(
        "Permit(address currency,uint256 presaleRate,uint256 softcap,uint256 hardcap,uint256 minBuy,uint256 maxBuy,uint256 liquidityRate,uint256 listingRate,uint256 startTime,uint256 endTime,uint256 lockEndTime,bool isVesting,bool isLock,bool refund,bool autoListing)".as_bytes(),
    );
    let mut enc: Vec<u8> = Vec::new();
    push_bytes(&mut enc, &pt);
    push_address_word(&mut enc, currency);
    push_uint_word(&mut enc, p.presale_rate);
    push_uint_word(&mut enc, p.softcap);
    push_uint_word(&mut enc, p.hardcap);
    push_uint_word(&mut enc, p.min_buy);
    push_uint_word(&mut enc, p.max_buy);
    push_uint_word(&mut enc, p.liquidity_rate);
    push_uint_word(&mut enc, p.listing_rate);
    push_uint_word(&mut enc, p.start_time);
    push_uint_word(&mut enc, p.end_time);
    push_uint_word(&mut enc, p.lock_end_time);
    push_bool_word(&mut enc, p.is_vesting);
    push_bool_word(&mut enc, p.is_lock);
    push_bool_word(&mut enc, p.refund);
    push_bool_word(&mut enc, p.auto_listing);
    proof {
        assert(enc@ =~= message_encoding(*p, currency@));
    }
    keccak_bytes(enc.as_slice())
}

/// The attestation digest of a presale under a domain: the 32 bytes that the
/// signer signs.
pub fn attestation_digest(
    p: &crate::params::Presale,
    currency: &Vec<u8>,
    chain_id: u64,
    contract: &Vec<u8>,
) -> (r: Vec<u8>)
    requires
        currency@.len() == 20,
        contract@.len() == 20,
    ensures
        r@ == attestation_digest_spec(*p, currency@, chain_id, contract@),
        r@.len() == 32,
{
    let dom = domain_separator(chain_id, contract);
    let sh = struct_hash(p, currency);
    let mut input: Vec<u8> = Vec::new();
    input.push(0x19u8);
    input.push(0x01u8);
    push_bytes(&mut input, &dom);
    push_bytes(&mut input, &sh);
    proof {
        assert(input@ =~= seq![0x19u8, 0x01u8] + keccak_of(
            domain_encoding(chain_id, contract@),
        ) + keccak_of(message_encoding(*p, currency@)));
    }
    keccak_bytes(input.as_slice())
}

/// Two concatenations with suffixes of one length are equal only part by
/// part.
pub proof fn lemma_concat_suffix(a1: Seq<u8>, b1: Seq<u8>, a2: Seq<u8>, b2: Seq<u8>)
    requires
        b1.len() == b2.len(),
        a1 + b1 == a2 + b2,
    ensures
        a1 == a2,
        b1 == b2,
{
    assert((a1 + b1).len() == a1.len() + b1.len());
    assert((a2 + b2).len() == a2.len() + b2.len());
    assert(a1.len() == a2.len());
    assert(a1 =~= a2) by {
        assert forall|k: int| 0 <= k < a1.len() implies a1[k] == a2[k] by {
            assert((a1 + b1)[k] == a1[k]);
            assert((a2 + b2)[k] == a2[k]);
        }
    }
    assert(b1 =~= b2) by {
        assert forall|k: int| 0 <= k < b1.len() implies b1[k] == b2[k] by {
            assert((a1 + b1)[a1.len() + k] == b1[k]);
            assert((a2 + b2)[a2.len() + k] == b2[k]);
        }
    }
}

/// A 64-bit value is recovered from its 32-byte word: the encoding is
/// injective.
pub proof fn lemma_uint_word_injective(v1: u64, v2: u64)
    requires
        uint_word(v1) == uint_word(v2),
    ensures
        v1 == v2,
{
    assert(uint_word(v1)[24] == ((v1 >> 56) & 0xff) as u8);
    assert(uint_word(v1)[25] == ((v1 >> 48) & 0xff) as u8);
    assert(uint_word(v1)[26] == ((v1 >> 40) & 0xff) as u8);
    assert(uint_word(v1)[27] == ((v1 >> 32) & 0xff) as u8);
    assert(uint_word(v1)[28] == ((v1 >> 24) & 0xff) as u8);
    assert(uint_word(v1)[29] == ((v1 >> 16) & 0xff) as u8);
    assert(uint_word(v1)[30] == ((v1 >> 8) & 0xff) as u8);
    assert(uint_word(v1)[31] == (v1 & 0xff) as u8);
    assert(uint_word(v2)[24] == ((v2 >> 56) & 0xff) as u8);
    assert(uint_word(v2)[25] == ((v2 >> 48) & 0xff) as u8);
    assert(uint_word(v2)[26] == ((v2 >> 40) & 0xff) as u8);
    assert(uint_word(v2)[27] == ((v2 >> 32) & 0xff) as u8);
    assert(uint_word(v2)[28] == ((v2 >> 24) & 0xff) as u8);
    assert(uint_word(v2)[29] == ((v2 >> 16) & 0xff) as u8);
    assert(uint_word(v2)[30] == ((v2 >> 8) & 0xff) as u8);
    assert(uint_word(v2)[31] == (v2 & 0xff) as u8);
    assert(uint_word(v1)[24] == uint_word(v2)[24]);
    assert(uint_word(v1)[25] == uint_word(v2)[25]);
    assert(uint_word(v1)[26] == uint_word(v2)[26]);
    assert(uint_word(v1)[27] == uint_word(v2)[27]);
    assert(uint_word(v1)[28] == uint_word(v2)[28]);
    assert(uint_word(v1)[29] == uint_word(v2)[29]);
    assert(uint_word(v1)[30] == uint_word(v2)[30]);
    assert(uint_word(v1)[31] == uint_word(v2)[31]);
    assert((((v1 >> 56) & 0xff) as u8 == ((v2 >> 56) & 0xff) as u8 && ((v1 >> 48) & 0xff) as u8
        == ((v2 >> 48) & 0xff) as u8 && ((v1 >> 40) & 0xff) as u8 == ((v2 >> 40) & 0xff) as u8 && ((
    v1 >> 32) & 0xff) as u8 == ((v2 >> 32) & 0xff) as u8 && ((v1 >> 24) & 0xff) as u8 == ((v2 >> 24)
        & 0xff) as u8 && ((v1 >> 16) & 0xff) as u8 == ((v2 >> 16) & 0xff) as u8 && ((v1 >> 8)
        & 0xff) as u8 == ((v2 >> 8) & 0xff) as u8 && (v1 & 0xff) as u8 == (v2 & 0xff) as u8) ==> v1
        == v2) by (bit_vector);
}

/// A boolean is recovered from its 32-byte word.
pub proof fn lemma_bool_word_injective(b1: bool, b2: bool)
    requires
        bool_word(b1) == bool_word(b2),
    ensures
        b1 == b2,
{
    assert(bool_word(b1)[31] == (if b1 { 1u8 } else { 0u8 }));
    assert(bool_word(b2)[31] == (if b2 { 1u8 } else { 0u8 }));
    assert(bool_word(b1)[31] == bool_word(b2)[31]);
}

/// An address is recovered from its 32-byte word.
pub proof fn lemma_address_word_injective(a1: Seq<u8>, a2: Seq<u8>)
    requires
        a1.len() == 20,
        a2.len() == 20,
        address_word(a1) == address_word(a2),
    ensures
        a1 == a2,
{
    assert(a1 =~= a2) by {
        assert forall|k: int| 0 <= k < 20 implies a1[k] == a2[k] by {
            assert(address_word(a1)[12 + k] == a1[k]);
            assert(address_word(a2)[12 + k] == a2[k]);
        }
    }
}

/// Domain separation: the bytes under the domain-separator hash pin the
/// chain identifier and the verifying contract. Two domains that differ in
/// either one hash different byte strings.
pub proof fn lemma_domain_encoding_injective(chain1: u64, vc1: Seq<u8>, chain2: u64, vc2: Seq<u8>)
    requires
        vc1.len() == 20,
        vc2.len() == 20,
        domain_encoding(chain1, vc1) == domain_encoding(chain2, vc2),
    ensures
        chain1 == chain2,
        vc1 == vc2,
{
    let h1 = keccak_of(encode_utf8(domain_type_chars())) + keccak_of(
        encode_utf8(domain_name_chars()),
    ) + keccak_of(encode_utf8(domain_version_chars()));
    lemma_concat_suffix(
        h1 + uint_word(chain1),
        address_word(vc1),
        h1 + uint_word(chain2),
        address_word(vc2),
    );
    lemma_address_word_injective(vc1, vc2);
    lemma_concat_suffix(h1, uint_word(chain1), h1, uint_word(chain2));
    lemma_uint_word_injective(chain1, chain2);
}

/// Two presales differing only in the chain identifier hash different
/// domain-separator inputs: a signature is bound to its chain.
pub proof fn lemma_domain_separation(chain1: u64, chain2: u64, vc: Seq<u8>)
    requires
        vc.len() == 20,
        chain1 != chain2,
    ensures
        domain_encoding(chain1, vc) != domain_encoding(chain2, vc),
{
    if domain_encoding(chain1, vc) == domain_encoding(chain2, vc) {
        lemma_domain_encoding_injective(chain1, vc, chain2, vc);
    }
}


/// The bytes under the struct hash pin every presale field and the currency
/// address: changing any single field changes the hashed bytes.
pub proof fn lemma_message_encoding_injective(
    p1: crate::params::Presale,
    c1: Seq<u8>,
    p2: crate::params::Presale,
    c2: Seq<u8>,
)
    requires
        c1.len() == 20,
        c2.len() == 20,
        message_encoding(p1, c1) == message_encoding(p2, c2),
    ensures
        c1 == c2,
        p1.presale_rate == p2.presale_rate,
        p1.softcap == p2.softcap,
        p1.hardcap == p2.hardcap,
        p1.min_buy == p2.min_buy,
        p1.max_buy == p2.max_buy,
        p1.liquidity_rate == p2.liquidity_rate,
        p1.listing_rate == p2.listing_rate,
        p1.start_time == p2.start_time,
        p1.end_time == p2.end_time,
        p1.lock_end_time == p2.lock_end_time,
        p1.is_vesting == p2.is_vesting,
        p1.is_lock == p2.is_lock,
        p1.refund == p2.refund,
        p1.auto_listing == p2.auto_listing,
{
    lemma_concat_suffix(
        keccak_of(encode_utf8(permit_type_chars())) + address_word(c1) + uint_word(p1.presale_rate) + uint_word(p1.softcap) + uint_word(p1.hardcap) + uint_word(p1.min_buy) + uint_word(p1.max_buy) + uint_word(p1.liquidity_rate) + uint_word(p1.listing_rate) + uint_word(p1.start_time) + uint_word(p1.end_time) + uint_word(p1.lock_end_time) + bool_word(p1.is_vesting) + bool_word(p1.is_lock) + bool_word(p1.refund),
        bool_word(p1.auto_listing),
        keccak_of(encode_utf8(permit_type_chars())) + address_word(c2) + uint_word(p2.presale_rate) + uint_word(p2.softcap) + uint_word(p2.hardcap) + uint_word(p2.min_buy) + uint_word(p2.max_buy) + uint_word(p2.liquidity_rate) + uint_word(p2.listing_rate) + uint_word(p2.start_time) + uint_word(p2.end_time) + uint_word(p2.lock_end_time) + bool_word(p2.is_vesting) + bool_word(p2.is_lock) + bool_word(p2.refund),
        bool_word(p2.auto_listing),
    );
    lemma_concat_suffix(
        keccak_of(encode_utf8(permit_type_chars())) + address_word(c1) + uint_word(p1.presale_rate) + uint_word(p1.softcap) + uint_word(p1.hardcap) + uint_word(p1.min_buy) + uint_word(p1.max_buy) + uint_word(p1.liquidity_rate) + uint_word(p1.listing_rate) + uint_word(p1.start_time) + uint_word(p1.end_time) + uint_word(p1.lock_end_time) + bool_word(p1.is_vesting) + bool_word(p1.is_lock),
        bool_word(p1.refund),
        keccak_of(encode_utf8(permit_type_chars())) + address_word(c2) + uint_word(p2.presale_rate) + uint_word(p2.softcap) + uint_word(p2.hardcap) + uint_word(p2.min_buy) + uint_word(p2.max_buy) + uint_word(p2.liquidity_rate) + uint_word(p2.listing_rate) + uint_word(p2.start_time) + uint_word(p2.end_time) + uint_word(p2.lock_end_time) + bool_word(p2.is_vesting) + bool_word(p2.is_lock),
        bool_word(p2.refund),
    );
    lemma_concat_suffix(
        keccak_of(encode_utf8(permit_type_chars())) + address_word(c1) + uint_word(p1.presale_rate) + uint_word(p1.softcap) + uint_word(p1.hardcap) + uint_word(p1.min_buy) + uint_word(p1.max_buy) + uint_word(p1.liquidity_rate) + uint_word(p1.listing_rate) + uint_word(p1.start_time) + uint_word(p1.end_time) + uint_word(p1.lock_end_time) + bool_word(p1.is_vesting),
        bool_word(p1.is_lock),
        keccak_of(encode_utf8(permit_type_chars())) + address_word(c2) + uint_word(p2.presale_rate) + uint_word(p2.softcap) + uint_word(p2.hardcap) + uint_word(p2.min_buy) + uint_word(p2.max_buy) + uint_word(p2.liquidity_rate) + uint_word(p2.listing_rate) + uint_word(p2.start_time) + uint_word(p2.end_time) + uint_word(p2.lock_end_time) + bool_word(p2.is_vesting),
        bool_word(p2.is_lock),
    );
    lemma_concat_suffix(
        keccak_of(encode_utf8(permit_type_chars())) + address_word(c1) + uint_word(p1.presale_rate) + uint_word(p1.softcap) + uint_word(p1.hardcap) + uint_word(p1.min_buy) + uint_word(p1.max_buy) + uint_word(p1.liquidity_rate) + uint_word(p1.listing_rate) + uint_word(p1.start_time) + uint_word(p1.end_time) + uint_word(p1.lock_end_time),
        bool_word(p1.is_vesting),
        keccak_of(encode_utf8(permit_type_chars())) + address_word(c2) + uint_word(p2.presale_rate) + uint_word(p2.softcap) + uint_word(p2.hardcap) + uint_word(p2.min_buy) + uint_word(p2.max_buy) + uint_word(p2.liquidity_rate) + uint_word(p2.listing_rate) + uint_word(p2.start_time) + uint_word(p2.end_time) + uint_word(p2.lock_end_time),
        bool_word(p2.is_vesting),
    );
    lemma_concat_suffix(
        keccak_of(encode_utf8(permit_type_chars())) + address_word(c1) + uint_word(p1.presale_rate) + uint_word(p1.softcap) + uint_word(p1.hardcap) + uint_word(p1.min_buy) + uint_word(p1.max_buy) + uint_word(p1.liquidity_rate) + uint_word(p1.listing_rate) + uint_word(p1.start_time) + uint_word(p1.end_time),
        uint_word(p1.lock_end_time),
        keccak_of(encode_utf8(permit_type_chars())) + address_word(c2) + uint_word(p2.presale_rate) + uint_word(p2.softcap) + uint_word(p2.hardcap) + uint_word(p2.min_buy) + uint_word(p2.max_buy) + uint_word(p2.liquidity_rate) + uint_word(p2.listing_rate) + uint_word(p2.start_time) + uint_word(p2.end_time),
        uint_word(p2.lock_end_time),
    );
    lemma_concat_suffix(
        keccak_of(encode_utf8(permit_type_chars())) + address_word(c1) + uint_word(p1.presale_rate) + uint_word(p1.softcap) + uint_word(p1.hardcap) + uint_word(p1.min_buy) + uint_word(p1.max_buy) + uint_word(p1.liquidity_rate) + uint_word(p1.listing_rate) + uint_word(p1.start_time),
        uint_word(p1.end_time),
        keccak_of(encode_utf8(permit_type_chars())) + address_word(c2) + uint_word(p2.presale_rate) + uint_word(p2.softcap) + uint_word(p2.hardcap) + uint_word(p2.min_buy) + uint_word(p2.max_buy) + uint_word(p2.liquidity_rate) + uint_word(p2.listing_rate) + uint_word(p2.start_time),
        uint_word(p2.end_time),
    );
    lemma_concat_suffix(
        keccak_of(encode_utf8(permit_type_chars())) + address_word(c1) + uint_word(p1.presale_rate) + uint_word(p1.softcap) + uint_word(p1.hardcap) + uint_word(p1.min_buy) + uint_word(p1.max_buy) + uint_word(p1.liquidity_rate) + uint_word(p1.listing_rate),
        uint_word(p1.start_time),
        keccak_of(encode_utf8(permit_type_chars())) + address_word(c2) + uint_word(p2.presale_rate) + uint_word(p2.softcap) + uint_word(p2.hardcap) + uint_word(p2.min_buy) + uint_word(p2.max_buy) + uint_word(p2.liquidity_rate) + uint_word(p2.listing_rate),
        uint_word(p2.start_time),
    );
    lemma_concat_suffix(
        keccak_of(encode_utf8(permit_type_chars())) + address_word(c1) + uint_word(p1.presale_rate) + uint_word(p1.softcap) + uint_word(p1.hardcap) + uint_word(p1.min_buy) + uint_word(p1.max_buy) + uint_word(p1.liquidity_rate),
        uint_word(p1.listing_rate),
        keccak_of(encode_utf8(permit_type_chars())) + address_word(c2) + uint_word(p2.presale_rate) + uint_word(p2.softcap) + uint_word(p2.hardcap) + uint_word(p2.min_buy) + uint_word(p2.max_buy) + uint_word(p2.liquidity_rate),
        uint_word(p2.listing_rate),
    );
    lemma_concat_suffix(
        keccak_of(encode_utf8(permit_type_chars())) + address_word(c1) + uint_word(p1.presale_rate) + uint_word(p1.softcap) + uint_word(p1.hardcap) + uint_word(p1.min_buy) + uint_word(p1.max_buy),
        uint_word(p1.liquidity_rate),
        keccak_of(encode_utf8(permit_type_chars())) + address_word(c2) + uint_word(p2.presale_rate) + uint_word(p2.softcap) + uint_word(p2.hardcap) + uint_word(p2.min_buy) + uint_word(p2.max_buy),
        uint_word(p2.liquidity_rate),
    );
    lemma_concat_suffix(
        keccak_of(encode_utf8(permit_type_chars())) + address_word(c1) + uint_word(p1.presale_rate) + uint_word(p1.softcap) + uint_word(p1.hardcap) + uint_word(p1.min_buy),
        uint_word(p1.max_buy),
        keccak_of(encode_utf8(permit_type_chars())) + address_word(c2) + uint_word(p2.presale_rate) + uint_word(p2.softcap) + uint_word(p2.hardcap) + uint_word(p2.min_buy),
        uint_word(p2.max_buy),
    );
    lemma_concat_suffix(
        keccak_of(encode_utf8(permit_type_chars())) + address_word(c1) + uint_word(p1.presale_rate) + uint_word(p1.softcap) + uint_word(p1.hardcap),
        uint_word(p1.min_buy),
        keccak_of(encode_utf8(permit_type_chars())) + address_word(c2) + uint_word(p2.presale_rate) + uint_word(p2.softcap) + uint_word(p2.hardcap),
        uint_word(p2.min_buy),
    );
    lemma_concat_suffix(
        keccak_of(encode_utf8(permit_type_chars())) + address_word(c1) + uint_word(p1.presale_rate) + uint_word(p1.softcap),
        uint_word(p1.hardcap),
        keccak_of(encode_utf8(permit_type_chars())) + address_word(c2) + uint_word(p2.presale_rate) + uint_word(p2.softcap),
        uint_word(p2.hardcap),
    );
    lemma_concat_suffix(
        keccak_of(encode_utf8(permit_type_chars())) + address_word(c1) + uint_word(p1.presale_rate),
        uint_word(p1.softcap),
        keccak_of(encode_utf8(permit_type_chars())) + address_word(c2) + uint_word(p2.presale_rate),
        uint_word(p2.softcap),
    );
    lemma_concat_suffix(
        keccak_of(encode_utf8(permit_type_chars())) + address_word(c1),
        uint_word(p1.presale_rate),
        keccak_of(encode_utf8(permit_type_chars())) + address_word(c2),
        uint_word(p2.presale_rate),
    );
    lemma_concat_suffix(
        keccak_of(encode_utf8(permit_type_chars())),
        address_word(c1),
        keccak_of(encode_utf8(permit_type_chars())),
        address_word(c2),
    );
    lemma_address_word_injective(c1, c2);
    lemma_uint_word_injective(p1.presale_rate, p2.presale_rate);
    lemma_uint_word_injective(p1.softcap, p2.softcap);
    lemma_uint_word_injective(p1.hardcap, p2.hardcap);
    lemma_uint_word_injective(p1.min_buy, p2.min_buy);
    lemma_uint_word_injective(p1.max_buy, p2.max_buy);
    lemma_uint_word_injective(p1.liquidity_rate, p2.liquidity_rate);
    lemma_uint_word_injective(p1.listing_rate, p2.listing_rate);
    lemma_uint_word_injective(p1.start_time, p2.start_time);
    lemma_uint_word_injective(p1.end_time, p2.end_time);
    lemma_uint_word_injective(p1.lock_end_time, p2.lock_end_time);
    lemma_bool_word_injective(p1.is_vesting, p2.is_vesting);
    lemma_bool_word_injective(p1.is_lock, p2.is_lock);
    lemma_bool_word_injective(p1.refund, p2.refund);
    lemma_bool_word_injective(p1.auto_listing, p2.auto_listing);
}


/// Changing the currency or any single presale field — a flag such as
/// `refund` included — changes the bytes under the struct hash, and with
/// them the signed digest input.
pub proof fn lemma_message_encoding_sensitive(
    p1: crate::params::Presale,
    c1: Seq<u8>,
    p2: crate::params::Presale,
    c2: Seq<u8>,
)
    requires
        c1.len() == 20,
        c2.len() == 20,
        !(c1 == c2 && p1.presale_rate == p2.presale_rate && p1.softcap == p2.softcap && p1.hardcap == p2.hardcap && p1.min_buy == p2.min_buy && p1.max_buy == p2.max_buy && p1.liquidity_rate == p2.liquidity_rate && p1.listing_rate == p2.listing_rate && p1.start_time == p2.start_time && p1.end_time == p2.end_time && p1.lock_end_time == p2.lock_end_time && p1.is_vesting == p2.is_vesting && p1.is_lock == p2.is_lock && p1.refund == p2.refund && p1.auto_listing == p2.auto_listing),
    ensures
        message_encoding(p1, c1) != message_encoding(p2, c2),
{
    if message_encoding(p1, c1) == message_encoding(p2, c2) {
        lemma_message_encoding_injective(p1, c1, p2, c2);
    }
}

} // verus!
