//! Unsigned 256-bit quantities, as the ledger counts fees, values and nonces.

use vstd::prelude::*;

verus! {

/// The number of values of one 64-bit word.
pub open spec fn word_base() -> nat {
    0x1_0000_0000_0000_0000
}

/// The number of values of an [`Amount`]: two to the power 256.
pub open spec fn amount_limit() -> nat {
    word_base() * word_base() * word_base() * word_base()
}

/// The number that four little-endian 64-bit words stand for.
pub open spec fn words_value(words: Seq<u64>) -> nat
    recommends
        words.len() == 4,
{
    (words[0] + word_base() * (words[1] + word_base() * (words[2] + word_base() * words[3]))) as nat
}

/// An unsigned 256-bit integer, held as four 64-bit words, the least
/// significant first.
#[derive(Clone, Copy, Debug, PartialEq, Eq)]
pub struct Amount {
    pub limbs: [u64; 4],
}

impl View for Amount {
    type V = nat;

    open spec fn view(&self) -> nat {
        words_value(self.limbs@)
    }
}

impl Amount {
    /// The amount zero.
    pub fn zero() -> (amount: Amount)
        ensures
            amount@ == 0,
            amount.limbs@ == seq![0u64, 0u64, 0u64, 0u64],
    {
        let amount = Amount { limbs: [0, 0, 0, 0] };
        assert(amount.limbs@ =~= seq![0u64, 0u64, 0u64, 0u64]);
        amount
    }

    /// The amount equal to a 64-bit number.
    pub fn from_u64(value: u64) -> (amount: Amount)
        ensures
            amount@ == value,
            amount.limbs@ == seq![value, 0u64, 0u64, 0u64],
    {
        let amount = Amount { limbs: [value, 0, 0, 0] };
        assert(amount.limbs@ =~= seq![value, 0u64, 0u64, 0u64]);
        amount
    }

    /// The amount as a 64-bit number, where it is small enough to be one.
    pub fn to_u64(&self) -> (value: Option<u64>)
        ensures
            value.is_some() <==> self@ <= u64::MAX,
            value matches Some(v) ==> v == self@,
    {
        proof {
            lemma_high_words(self.limbs@);
        }
        if self.limbs[1] == 0 && self.limbs[2] == 0 && self.limbs[3] == 0 {
            Some(self.limbs[0])
        } else {
            None
        }
    }

    /// The product of two amounts, or `None` where it does not fit in 256
    /// bits.
    pub fn checked_mul(&self, other: &Amount) -> (product: Option<Amount>)
        ensures
            product.is_some() <==> self@ * other@ < amount_limit(),
            product matches Some(p) ==> p@ == self@ * other@,
    {
        match u256_checked_mul(self.limbs, other.limbs) {
            Some(limbs) => Some(Amount { limbs }),
            None => None,
        }
    }

    /// The quotient of two amounts, rounded towards zero, or `None` where
    /// the divisor is zero.
    pub fn checked_div(&self, other: &Amount) -> (quotient: Option<Amount>)
        ensures
            quotient.is_some() <==> other@ != 0,
            quotient matches Some(q) ==> q@ == self@ / other@,
    {
        match u256_checked_div(self.limbs, other.limbs) {
            Some(limbs) => Some(Amount { limbs }),
            None => None,
        }
    }
}

/// Four words stand for a number below the word base exactly when the three
/// upper words are zero.
pub proof fn lemma_high_words(words: Seq<u64>)
    requires
        words.len() == 4,
    ensures
        words_value(words) < amount_limit(),
        words_value(words) <= u64::MAX <==> (words[1] == 0 && words[2] == 0 && words[3] == 0),
        (words[1] == 0 && words[2] == 0 && words[3] == 0) ==> words_value(words) == words[0],
{
    let b = word_base() as int;
    let w0 = words[0] as int;
    let w1 = words[1] as int;
    let w2 = words[2] as int;
    let w3 = words[3] as int;
    assert(b * (w1 + b * (w2 + b * w3)) == b * w1 + b * b * w2 + b * b * b * w3)
        by (nonlinear_arith);
    assert(b * b * b * w3 >= 0 && b * b * w2 >= 0 && b * w1 >= 0) by (nonlinear_arith)
        requires
            b > 0,
            w1 >= 0,
            w2 >= 0,
            w3 >= 0,
    ;
    assert(w3 >= 1 ==> b * b * b * w3 >= b) by (nonlinear_arith)
        requires
            b >= 1,
    ;
    assert(w2 >= 1 ==> b * b * w2 >= b) by (nonlinear_arith)
        requires
            b >= 1,
    ;
    assert(w1 >= 1 ==> b * w1 >= b) by (nonlinear_arith)
        requires
            b >= 1,
    ;
    assert(w0 + b * w1 + b * b * w2 + b * b * b * w3 < b * b * b * b) by (nonlinear_arith)
        requires
            b > 0,
            0 <= w0 <= b - 1,
            0 <= w1 <= b - 1,
            0 <= w2 <= b - 1,
            0 <= w3 <= b - 1,
    ;
}

/// Calls `ethers::types::U256::checked_mul` on two numbers given by their
/// little-endian words. Trusted: the result is the words of the exact
/// product where that is below two to the power 256, and `None` where it is
/// not.
#[verifier::external_body]
fn u256_checked_mul(a: [u64; 4], b: [u64; 4]) -> (product: Option<[u64; 4]>)
    ensures
        product.is_some() <==> words_value(a@) * words_value(b@) < amount_limit(),
        product matches Some(p) ==> words_value(p@) == words_value(a@) * words_value(b@),
{
    ethers::types::U256(a).checked_mul(ethers::types::U256(b)).map(|p| p.0)
}

/// Calls `ethers::types::U256::checked_div` on two numbers given by their
/// little-endian words. Trusted: the result is `None` where the
/// divisor is zero, and otherwise the words of the quotient rounded towards
/// zero.
#[verifier::external_body]
fn u256_checked_div(a: [u64; 4], b: [u64; 4]) -> (quotient: Option<[u64; 4]>)
    ensures
        quotient.is_some() <==> words_value(b@) != 0,
        quotient matches Some(q) ==> words_value(q@) == words_value(a@) / words_value(b@),
{
    ethers::types::U256(a).checked_div(ethers::types::U256(b)).map(|q| q.0)
}

} // verus!
