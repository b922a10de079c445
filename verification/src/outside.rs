//! Trusted boundary: the few outside calls the pipeline needs — the clock,
//! the Keccak-256 digest, and the recoverable ECDSA signature over a digest.
//!
//! Each wrapper's contract is what the called crate's source shows; nothing
//! in this module is verified.

use vstd::prelude::*;

verus! {

/// The Keccak-256 digest of a byte string. The digest is a function of the
/// bytes alone; no further structure is assumed of it.
pub uninterp spec fn keccak_of(data: Seq<u8>) -> Seq<u8>;

/// The `0x`-prefixed lowercase hex encoding of the recoverable ECDSA
/// signature that the secp256k1 key `key` produces over the 32-byte digest
/// `digest`. Signing is deterministic (RFC 6979 nonces), so the result is a
/// function of the key and the digest alone.
pub uninterp spec fn sig_hex_of(key: Seq<u8>, digest: Seq<u8>) -> Seq<char>;

/// Whether `key` is accepted as a secp256k1 private key: exactly 32 bytes
/// forming a nonzero scalar below the curve order.
pub uninterp spec fn key_ok(key: Seq<u8>) -> bool;

/// Whether the deterministic RFC 6979 signing path produces a signature for
/// this key and 32-byte digest. It refuses only when a derived scalar
/// degenerates to zero — astronomically rare, but a code path the signer's
/// source shows — and, being deterministic, its verdict is a function of the
/// key and the digest alone.
pub uninterp spec fn signer_accepts(key: Seq<u8>, digest: Seq<u8>) -> bool;

/// Whether `c` is a lowercase hexadecimal digit.
pub open spec fn is_lower_hex_char(c: char) -> bool {
    (48 <= c as u32 <= 57)  // '0'..'9'
     || (97 <= c as u32 <= 102)  // 'a'..'f'

}

/// The shape of a returned signature string: `0x`, then 130 lowercase hex
/// digits encoding the 65 signature bytes `r || s || v`.
pub open spec fn sig_string_wf(s: Seq<char>) -> bool {
    s.len() == 132 && s[0] == '0' && s[1] == 'x' && forall|i: int|
        2 <= i < 132 ==> is_lower_hex_char(#[trigger] s[i])
}

/// Relies on `std::time::SystemTime::now` and `duration_since`: seconds since
/// the Unix epoch, or 0 if the clock reads before the epoch. Nothing is
/// assumed of the value returned.
#[verifier::external_body]
pub(crate) fn now_unix_time() -> u64 {
    match std::time::SystemTime::now().duration_since(std::time::UNIX_EPOCH) {
        Ok(d) => d.as_secs(),
        Err(_) => 0,
    }
}

/// Relies on `ethers_core::utils::keccak256`: the Keccak-256 digest of the
/// input, always 32 bytes.
#[verifier::external_body]
pub(crate) fn keccak_bytes(data: &[u8]) -> (r: Vec<u8>)
    ensures
        r@ == keccak_of(data@),
        r@.len() == 32,
{
    ethers_core::utils::keccak256(data).to_vec()
}

/// Relies on `ethers_signers::Wallet::from_bytes`, which accepts exactly the
/// byte strings that form a valid secp256k1 scalar (`Err(true)` reports the
/// key as rejected, and only then); on `Wallet::sign_hash`, deterministic
/// RFC 6979 ECDSA over a 32-byte prehash, which signs exactly when
/// [`signer_accepts`] holds of key and digest (`Err(false)` otherwise); and
/// on `ethers_core::types::Signature`'s `Display`, which writes the 65
/// signature bytes as 130 lowercase hex digits.
#[verifier::external_body]
pub(crate) fn sign_digest(key: &Vec<u8>, digest: &Vec<u8>) -> (r: Result<String, bool>)
    requires
        key@.len() == 32,
        digest@.len() == 32,
    ensures
        r is Ok <==> (key_ok(key@) && signer_accepts(key@, digest@)),
        r matches Err(key_rejected) ==> (key_rejected <==> !key_ok(key@)),
        r matches Ok(s) ==> s@ == sig_hex_of(key@, digest@) && sig_string_wf(s@),
{
    let wallet = match ethers_signers::LocalWallet::from_bytes(key.as_slice()) {
        Ok(w) => w,
        Err(_) => {
            return Err(true);
        },
    };
    let hash = ethers_core::types::H256::from_slice(digest.as_slice());
    match wallet.sign_hash(hash) {
        Ok(sig) => Ok(format!("0x{sig}")),
        Err(_) => Err(false),
    }
}

} // verus!
