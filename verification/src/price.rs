//! Prices as bit patterns.
//!
//! A price is a binary64 number, held here as its 64 bits: the sign in the
//! top bit, then the magnitude. Among numbers of one sign the magnitudes are
//! ordered as the numbers are, which is all that the rules on prices need.

use vstd::prelude::*;

verus! {

/// The top bit: the sign of a binary64 number.
pub const SIGN_BIT: u64 = 0x8000_0000_0000_0000;

/// The bits of positive infinity: the largest magnitude that is a number.
pub const INFINITY_BITS: u64 = 0x7ff0_0000_0000_0000;

/// The bits below the sign.
pub open spec fn magnitude(bits: u64) -> int {
    if bits >= SIGN_BIT {
        bits - SIGN_BIT
    } else {
        bits as int
    }
}

/// Whether the bits stand for no number at all.
pub open spec fn is_nan(bits: u64) -> bool {
    magnitude(bits) > INFINITY_BITS
}

/// An integer that orders the numbers as they are ordered: the magnitude,
/// negated under a set sign bit. Both zeros have rank 0.
pub open spec fn rank(bits: u64) -> int {
    if bits >= SIGN_BIT {
        -magnitude(bits)
    } else {
        magnitude(bits)
    }
}

/// The number is greater than zero.
pub open spec fn is_positive(bits: u64) -> bool {
    !is_nan(bits) && rank(bits) > 0
}

/// The first number is less than or equal to the second. False where either
/// is no number.
pub open spec fn at_most(a: u64, b: u64) -> bool {
    !is_nan(a) && !is_nan(b) && rank(a) <= rank(b)
}

pub fn price_is_positive(bits: u64) -> (r: bool)
    ensures
        r == is_positive(bits),
        r == (0 < bits <= INFINITY_BITS),
{
    0 < bits && bits <= INFINITY_BITS
}

pub fn price_at_most(a: u64, b: u64) -> (r: bool)
    ensures
        r == at_most(a, b),
{
    let a_neg: bool = a >= SIGN_BIT;
    let b_neg: bool = b >= SIGN_BIT;
    let a_mag: u64 = if a_neg { a - SIGN_BIT } else { a };
    let b_mag: u64 = if b_neg { b - SIGN_BIT } else { b };
    if a_mag > INFINITY_BITS || b_mag > INFINITY_BITS {
        false
    } else if a_neg {
        if b_neg { b_mag <= a_mag } else { true }
    } else {
        if b_neg { a_mag == 0 && b_mag == 0 } else { a_mag <= b_mag }
    }
}

/// A positive price is at most `max` exactly when `max` is a positive number
/// with bits that are not smaller.
pub proof fn law_positive_prices_order_as_bits(price: u64, max: u64)
    requires
        is_positive(price),
    ensures
        at_most(price, max) <==> (is_positive(max) && price <= max),
{
}

} // verus!
