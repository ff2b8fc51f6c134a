//! Properties that hold of every operation at every width.
use vstd::prelude::*;

use crate::api::{hex_digits, renders, ResultValue};
use crate::logical::bitwise;
use crate::render::lemma_padded_len;
use crate::operation::{addend, bitwise_of, is_arithmetic, op_flags, op_unsigned, Operation};
use crate::width::{bit, bits, mask, modulus, negate, raw, sign_of, value_mask, Width};

verus! {

/// The 32-bit integer whose pattern is the word `u`.
pub open spec fn as_operand(u: nat) -> i32 {
    if u < 0x8000_0000 {
        u as i32
    } else {
        (u - 0x1_0000_0000) as i32
    }
}

/// Binary text has exactly `bits` characters and hexadecimal text exactly `ceil(bits / 4)`.
pub proof fn lemma_text_lengths(v: ResultValue, u: nat, s: int, w: Width)
    requires
        renders(v, u, s, w),
    ensures
        v.bin@.len() == bits(w),
        v.hex@.len() == hex_digits(w),
{
    lemma_padded_len(u, 2, bits(w));
    lemma_padded_len(u, 16, hex_digits(w));
}

/// A word of width `w` handed back as an operand keeps its value.
pub proof fn lemma_operand_round_trip(u: nat, w: Width)
    requires
        u < modulus(w),
    ensures
        raw(as_operand(u)) == u,
        mask(as_operand(u), w) == u,
{
}

/// The result word of every operation lies in `[0, 2^bits - 1]`.
pub proof fn lemma_unsigned_in_range(op: Operation, left: i32, right: i32, w: Width)
    ensures
        op_unsigned(op, left, right, w) < modulus(w),
{
    if !is_arithmetic(op) {
        crate::width::lemma_mask_is_mod(
            bitwise(bitwise_of(op), mask(left, w) as u64, mask(right, w) as u64),
        );
    }
}

/// Borrow is the negation of carry, for every operation.
pub proof fn lemma_borrow_is_not_carry(op: Operation, left: i32, right: i32, w: Width)
    ensures
        op_flags(op, left, right, w).borrow == !op_flags(op, left, right, w).carry,
{
}

/// Zero says that the result word is zero; negative is bit `bits - 1` of the result word.
pub proof fn lemma_zero_and_negative(op: Operation, left: i32, right: i32, w: Width)
    ensures
        op_flags(op, left, right, w).zero == (op_unsigned(op, left, right, w) == 0),
        op_flags(op, left, right, w).negative == bit(
            op_unsigned(op, left, right, w),
            (bits(w) - 1) as nat,
        ),
{
    lemma_unsigned_in_range(op, left, right, w);
    lemma_sign_is_top_bit(op_unsigned(op, left, right, w), w);
}

/// For a word of the width, the sign is bit `bits - 1`.
pub proof fn lemma_sign_is_top_bit(u: nat, w: Width)
    requires
        u < modulus(w),
    ensures
        sign_of(u, w) == bit(u, (bits(w) - 1) as nat),
{
    vstd::arithmetic::power2::lemma2_to64();
    match w {
        Width::W4 => assert(bit(u, 3) == (u / 8 % 2 == 1)),
        Width::W8 => assert(bit(u, 7) == (u / 0x80 % 2 == 1)),
        Width::W16 => assert(bit(u, 15) == (u / 0x8000 % 2 == 1)),
        Width::W32 => assert(bit(u, 31) == (u / 0x8000_0000 % 2 == 1)),
    }
}

/// Logical operations never carry nor overflow, and their result is the bitwise operation
/// on the masked operands, masked again.
pub proof fn lemma_logical(op: Operation, left: i32, right: i32, w: Width)
    requires
        !is_arithmetic(op),
    ensures
        !op_flags(op, left, right, w).carry,
        !op_flags(op, left, right, w).overflow,
        op_unsigned(op, left, right, w) == (bitwise(
            bitwise_of(op),
            mask(left, w) as u64,
            mask(right, w) as u64,
        ) & value_mask(w)) as nat,
{
}

/// Addition carries exactly when the masked operands sum to `2^bits` or more.
pub proof fn lemma_add_carry(left: i32, right: i32, w: Width)
    ensures
        op_flags(Operation::Add, left, right, w).carry == (mask(left, w) + mask(right, w) >= modulus(w)),
{
}

/// Subtracting `b` from the sum of `a` and `b` gives back `a` reduced to the width.
pub proof fn lemma_sub_undoes_add(a: i32, b: i32, w: Width)
    ensures
        op_unsigned(
            Operation::Subtract,
            as_operand(op_unsigned(Operation::Add, a, b, w)),
            b,
            w,
        ) == mask(a, w),
{
    let m = modulus(w) as int;
    let x = mask(a, w) as int;
    let y = mask(b, w) as int;
    let u = op_unsigned(Operation::Add, a, b, w);
    lemma_unsigned_in_range(Operation::Add, a, b, w);
    lemma_operand_round_trip(u, w);
    assert(0 <= x < m && 0 <= y < m);
    assert(u == (x + y) % m);
    let n = negate(y as nat, w) as int;
    if y == 0 {
        assert(n == 0);
        assert(u == x);
        assert((u + n) % m == x);
    } else {
        assert(n == m - y);
        if x + y >= m {
            assert(u == x + y - m);
            assert(u + n == x);
        } else {
            assert(u == x + y);
            assert(u + n == x + m);
        }
        assert((u + n) % m == x);
    }
    assert(addend(Operation::Subtract, b, w) == n);
}

} // verus!
