//! The safety margin added to a fee estimate.

use vstd::prelude::*;
use crate::amount::{amount_limit, Amount};

verus! {

/// The fee offered for an estimate: the estimate and a tenth more, rounded
/// towards zero. An estimate so large that 110 times it leaves 256 bits
/// gives the fee zero.
pub open spec fn inflated(estimate: nat) -> nat {
    if estimate * 110 < amount_limit() {
        estimate * 110 / 100
    } else {
        0
    }
}

/// Adds the safety margin to a fee estimate.
pub fn inflate_fee(estimate: Amount) -> (fee: Amount)
    ensures
        fee@ == inflated(estimate@),
{
    let scaled = match estimate.checked_mul(&Amount::from_u64(110)) {
        Some(product) => product,
        None => Amount::zero(),
    };
    match scaled.checked_div(&Amount::from_u64(100)) {
        Some(quotient) => quotient,
        None => Amount::zero(),
    }
}

} // verus!
