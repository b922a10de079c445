//! Validation and attestation pipeline for token presale campaigns.
//!
//! The crate checks the economic parameters of a presale against an ordered
//! rule set, computes the token quantity the campaign owner must hold,
//! compares ledger balances against that requirement, and builds and signs a
//! domain-separated typed-data digest over the parameters. The ledger client
//! and the network transport live outside; the clock, the Keccak-256 digest
//! and the ECDSA signer are reached through the trusted boundary in
//! [`outside`].

pub mod amount;
pub mod attest;
pub mod eip712;
pub mod errors;
pub mod funds;
pub mod hexaddr;
pub mod outside;
pub mod params;
