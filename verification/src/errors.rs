//! The failure kinds of the signing pipeline. Every stage reports a typed
//! failure and the pipeline short-circuits on the first one; the kinds are
//! kept distinct so a caller can tell user errors, arithmetic overflow,
//! missing funds, configuration defects and infrastructure faults apart.

use vstd::prelude::*;
use crate::params::ParamsErrors;

verus! {

/// A failure of the validation-and-attestation pipeline.
#[derive(Clone, Copy, Debug, PartialEq, Eq, Structural)]
pub enum SignError {
    /// A validation rule was violated; carries the first violated rule.
    Params(ParamsErrors),
    /// The token requirement overflows the 64-bit range used on-chain.
    Overflow,
    /// The holder's balance or the pool-manager allowance is below the
    /// requirement.
    InsufficientFunds,
    /// The currency field is not a well-formed token-contract address.
    InvalidCurrency,
    /// The verifying-contract address is unconfigured, malformed, or the
    /// all-zero placeholder.
    DomainNotConfigured,
    /// The signing key is malformed or rejected by the signer.
    InvalidKey,
    /// The signing backend refused to sign the digest despite a usable key.
    SignerFailure,
    /// A ledger query failed for reasons other than insufficient funds;
    /// raised by the surrounding driver, never by the verified pipeline.
    Ledger,
}

} // verus!
