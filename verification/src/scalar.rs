//! IEEE 754 binary32 encodings, and the operations on them that are exact bit
//! manipulations.

use vstd::prelude::*;

verus! {

/// The bit that carries the sign of an encoded number.
pub const SIGN_BIT: u32 = 0x8000_0000;

/// The encoding of positive zero.
pub const ZERO: u32 = 0;

/// The encoding of the negation of an encoded number: the same exponent and
/// significand under the opposite sign.
pub open spec fn negated(bits: u32) -> u32 {
    bits ^ SIGN_BIT
}

/// The encoding of an encoded magnitude taken with the given sign: unchanged
/// where `positive` holds, negated where it does not.
pub open spec fn signed(bits: u32, positive: bool) -> u32 {
    if positive {
        bits
    } else {
        negated(bits)
    }
}

/// Negates an encoded number.
pub fn negate(bits: u32) -> (r: u32)
    ensures
        r == negated(bits),
{
    bits ^ SIGN_BIT
}

/// Takes an encoded number as it is, or negated.
pub fn with_sign(bits: u32, positive: bool) -> (r: u32)
    ensures
        r == signed(bits, positive),
{
    if positive {
        bits
    } else {
        negate(bits)
    }
}

/// Negation flips the sign bit and leaves the 31 bits below it alone.
pub proof fn lemma_negated_flips_sign_only(bits: u32)
    ensures
        negated(bits) & 0x7fff_ffffu32 == bits & 0x7fff_ffffu32,
        (negated(bits) & SIGN_BIT == 0) <==> (bits & SIGN_BIT != 0),
{
    assert((bits ^ 0x8000_0000u32) & 0x7fff_ffffu32 == bits & 0x7fff_ffffu32) by (bit_vector);
    assert(((bits ^ 0x8000_0000u32) & 0x8000_0000u32 == 0) <==> (bits & 0x8000_0000u32 != 0))
        by (bit_vector);
}

/// Negating twice gives the encoding back.
pub proof fn lemma_negated_twice(bits: u32)
    ensures
        negated(negated(bits)) == bits,
{
    assert((bits ^ 0x8000_0000u32) ^ 0x8000_0000u32 == bits) by (bit_vector);
}

} // verus!
