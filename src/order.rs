//! The numeric order of IEEE-754 binary64 values, read from their bit patterns.

use vstd::prelude::*;

verus! {

/// Mask of the sign bit of a binary64 bit pattern.
pub const SIGN_BIT: u64 = 0x8000_0000_0000_0000;

/// Bit pattern of positive infinity; any pattern with a larger magnitude is a NaN.
pub const INFINITY_BITS: u64 = 0x7ff0_0000_0000_0000;

/// Whether the sign bit is set.
pub open spec fn is_negative(bits: u64) -> bool {
    bits & SIGN_BIT != 0
}

/// Exponent and fraction together: for values of one sign, a larger magnitude field
/// means a larger absolute value.
pub open spec fn magnitude(bits: u64) -> u64 {
    bits & !SIGN_BIT
}

/// Whether the pattern encodes a NaN.
pub open spec fn is_nan(bits: u64) -> bool {
    magnitude(bits) > INFINITY_BITS
}

/// Whether the pattern encodes `+0` or `-0`.
pub open spec fn is_zero(bits: u64) -> bool {
    magnitude(bits) == 0
}

/// `a < b` on the numbers that the patterns encode: false when either is a NaN, and
/// `-0` and `+0` are equal.
pub open spec fn precedes(a: u64, b: u64) -> bool {
    &&& !is_nan(a)
    &&& !is_nan(b)
    &&& !(is_zero(a) && is_zero(b))
    &&& if is_negative(a) != is_negative(b) {
        is_negative(a)
    } else if is_negative(a) {
        magnitude(b) < magnitude(a)
    } else {
        magnitude(a) < magnitude(b)
    }
}

/// `a <= b` on the numbers that the patterns encode: false when either is a NaN.
pub open spec fn not_after(a: u64, b: u64) -> bool {
    !is_nan(a) && !is_nan(b) && !precedes(b, a)
}

/// `lower <= t && t <= upper` on the encoded numbers.
pub open spec fn within(t: u64, lower: u64, upper: u64) -> bool {
    not_after(lower, t) && not_after(t, upper)
}

/// A key whose unsigned order is the total order of binary64 values: negative
/// patterns are flipped whole, the others get their sign bit set.
spec fn key(bits: u64) -> u64 {
    if bits & SIGN_BIT != 0 {
        !bits
    } else {
        bits | SIGN_BIT
    }
}

proof fn lemma_key_orders(a: u64, b: u64)
    ensures
        precedes(a, b) <==> (!is_nan(a) && !is_nan(b) && !(is_zero(a) && is_zero(b)) && key(a)
            < key(b)),
{
    assert(precedes(a, b) <==> (!is_nan(a) && !is_nan(b) && !(is_zero(a) && is_zero(b)) && key(a)
        < key(b))) by (bit_vector);
}

/// No number lies below itself, and of two numbers at most one lies below the other.
pub proof fn lemma_precedes_asymmetric(a: u64, b: u64)
    ensures
        precedes(a, b) ==> !precedes(b, a),
{
    assert(precedes(a, b) ==> !precedes(b, a)) by (bit_vector);
}

/// `a < b` and `b <= c` give `a < c`.
pub proof fn lemma_precedes_then_not_after(a: u64, b: u64, c: u64)
    ensures
        precedes(a, b) && not_after(b, c) ==> precedes(a, c),
{
    assert(precedes(a, b) && not_after(b, c) ==> precedes(a, c)) by (bit_vector);
}

fn order_key(bits: u64) -> (k: u64)
    ensures
        k == key(bits),
{
    if bits & SIGN_BIT != 0 {
        !bits
    } else {
        bits | SIGN_BIT
    }
}

/// Whether the pattern encodes a NaN.
pub fn nan_bits(bits: u64) -> (r: bool)
    ensures
        r == is_nan(bits),
{
    bits & !SIGN_BIT > INFINITY_BITS
}

/// `a < b` on the numbers that the two patterns encode.
pub fn is_before(a: u64, b: u64) -> (r: bool)
    ensures
        r == precedes(a, b),
{
    proof {
        lemma_key_orders(a, b);
    }
    let (ka, kb) = (order_key(a), order_key(b));
    let both_zero = a & !SIGN_BIT == 0 && b & !SIGN_BIT == 0;
    !nan_bits(a) && !nan_bits(b) && !both_zero && ka < kb
}

/// `lower <= t && t <= upper` on the numbers that the patterns encode.
pub fn is_within(t: u64, lower: u64, upper: u64) -> (r: bool)
    ensures
        r == within(t, lower, upper),
{
    !nan_bits(lower) && !nan_bits(t) && !nan_bits(upper) && !is_before(t, lower) && !is_before(
        upper,
        t,
    )
}

} // verus!
