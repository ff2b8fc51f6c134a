//! Addition of two words with carry-out, and subtraction through two's-complement negation.
use vstd::prelude::*;

use crate::width::{bits, modulus, negate, sign_of, Width};

verus! {

/// Signed overflow of a sum: both operands share a sign that the result does not have.
pub open spec fn add_overflow(a: nat, b: nat, u: nat, w: Width) -> bool {
    sign_of(a, w) == sign_of(b, w) && sign_of(u, w) != sign_of(a, w)
}

/// Signed overflow of a difference: the operands' signs differ and the result's sign
/// differs from the left operand's.
pub open spec fn sub_overflow(a: nat, b: nat, u: nat, w: Width) -> bool {
    sign_of(a, w) != sign_of(b, w) && sign_of(u, w) != sign_of(a, w)
}

/// In a sum of two words, bit `bits` is the carry-out.
proof fn lemma_carry_bit(wide: u64, w: Width)
    requires
        wide < 2 * modulus(w),
    ensures
        ((wide >> (bits(w) as u64)) & 1 == 1) == (wide >= modulus(w)),
{
    match w {
        Width::W4 => {
            assert(wide < 0x20 ==> (((wide >> 4u64) & 1 == 1) == (wide >= 0x10))) by (bit_vector);
        },
        Width::W8 => {
            assert(wide < 0x200 ==> (((wide >> 8u64) & 1 == 1) == (wide >= 0x100))) by (bit_vector);
        },
        Width::W16 => {
            assert(wide < 0x2_0000 ==> (((wide >> 16u64) & 1 == 1) == (wide >= 0x1_0000)))
                by (bit_vector);
        },
        Width::W32 => {
            assert(wide < 0x2_0000_0000 ==> (((wide >> 32u64) & 1 == 1) == (wide
                >= 0x1_0000_0000))) by (bit_vector);
        },
    }
}

/// Adds two words of width `w`: the sum wrapped to the width, and the carry-out.
/// The sum is taken in 64 bits, where it cannot wrap, and the carry read from bit `bits`.
pub fn add_words(a: u64, b: u64, w: Width) -> (r: (u64, bool))
    requires
        a < modulus(w),
        b < modulus(w),
    ensures
        r.0 == (a + b) % (modulus(w) as int),
        r.1 == (a + b >= modulus(w)),
{
    let wide = a + b;
    proof {
        lemma_carry_bit(wide, w);
    }
    let carry = (wide >> (w.bits() as u64)) & 1 == 1;
    (w.truncate(wide), carry)
}

/// The sum of two words, with its carry-out and signed overflow.
pub fn add_with_flags(a: u64, b: u64, w: Width) -> (r: (u64, bool, bool))
    requires
        a < modulus(w),
        b < modulus(w),
    ensures
        r.0 == (a + b) % (modulus(w) as int),
        r.1 == (a + b >= modulus(w)),
        r.2 == add_overflow(a as nat, b as nat, r.0 as nat, w),
{
    let (sum, carry) = add_words(a, b, w);
    let sa = w.sign_of(a);
    let overflow = sa == w.sign_of(b) && w.sign_of(sum) != sa;
    (sum, carry, overflow)
}

/// The difference of two words: the left word plus the negation of the right one, with
/// the carry-out of that sum and the signed overflow of the difference.
pub fn sub_with_flags(a: u64, b: u64, w: Width) -> (r: (u64, bool, bool))
    requires
        a < modulus(w),
        b < modulus(w),
    ensures
        r.0 == (a + negate(b as nat, w)) % (modulus(w) as int),
        r.1 == (a + negate(b as nat, w) >= modulus(w)),
        r.2 == sub_overflow(a as nat, b as nat, r.0 as nat, w),
{
    let negated = w.truncate(w.modulus() - b);
    let (diff, carry) = add_words(a, negated, w);
    let sa = w.sign_of(a);
    let overflow = sa != w.sign_of(b) && w.sign_of(diff) != sa;
    (diff, carry, overflow)
}

} // verus!
