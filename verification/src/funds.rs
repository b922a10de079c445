//! Comparison of ledger quantities against the token requirement.
//!
//! Ledger balances and allowances are 256-bit quantities; the library holds
//! one as two 128-bit halves so that the comparison logic is verified while
//! the ledger client itself stays outside.

use vstd::prelude::*;
use crate::errors::SignError;

verus! {

/// 2^128, the weight of the high half of a [`TokenAmount`].
pub open spec fn half_weight() -> int {
    (u128::MAX as int) + 1
}

/// An unsigned 256-bit token quantity, split into high and low 128-bit
/// halves: the value is `hi * 2^128 + lo`.
#[derive(Clone, Copy, Debug, PartialEq, Eq, Structural)]
pub struct TokenAmount {
    pub hi: u128,
    pub lo: u128,
}

impl TokenAmount {
    /// The quantity this pair of halves denotes.
    pub open spec fn value(&self) -> int {
        self.hi * half_weight() + self.lo
    }

    pub fn new(hi: u128, lo: u128) -> (r: TokenAmount)
        ensures
            r.value() == hi * half_weight() + lo,
    {
        TokenAmount { hi, lo }
    }

    /// Whether the quantity is at least `x`.
    pub fn at_least(&self, x: u64) -> (r: bool)
        ensures
            r == (self.value() >= x),
    {
        proof {
            if self.hi >= 1 {
                assert(self.hi * half_weight() >= half_weight()) by (nonlinear_arith)
                    requires
                        self.hi >= 1,
                ;
            } else {
                assert(self.hi * half_weight() == 0) by (nonlinear_arith)
                    requires
                        self.hi == 0,
                ;
            }
        }
        self.hi > 0 || self.lo >= x as u128
    }
}

/// Succeeds exactly when both the holder's balance and the allowance granted
/// to the pool manager reach the required amount; a shortfall in either is
/// reported as insufficient funds.
pub fn verify_funds(balance: &TokenAmount, allowance: &TokenAmount, required: u64) -> (r: Result<
    (),
    SignError,
>)
    ensures
        r is Ok <==> balance.value() >= required && allowance.value() >= required,
        r is Err ==> r == Err::<(), SignError>(SignError::InsufficientFunds),
{
    if balance.at_least(required) && allowance.at_least(required) {
        Ok(())
    } else {
        Err(SignError::InsufficientFunds)
    }
}

} // verus!
