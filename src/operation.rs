//! The six operations: what each computes, and the routine that carries them out.
use vstd::prelude::*;

use crate::addition::{add_overflow, add_with_flags, sub_overflow, sub_with_flags};
use crate::api::{flag_set, renders, ResultFlags, ResultValue, Results};
use crate::logical::{apply, bitwise, Bitwise};
use crate::width::{mask, modulus, negate, sign_of, to_signed, value_mask, width_of_tag, CalcError, Width};

verus! {

/// The operation a caller asks for.
#[derive(Debug, Clone, Copy, PartialEq, Eq, Structural)]
pub enum Operation {
    Add,
    Subtract,
    And,
    Or,
    Xor,
    Nand,
}

/// The bitwise operation behind a logical operation.
pub open spec fn bitwise_of(op: Operation) -> Bitwise {
    match op {
        Operation::Or => Bitwise::Or,
        Operation::Xor => Bitwise::Xor,
        Operation::Nand => Bitwise::Nand,
        _ => Bitwise::And,
    }
}

/// Whether `op` is one of the arithmetic operations.
pub open spec fn is_arithmetic(op: Operation) -> bool {
    op == Operation::Add || op == Operation::Subtract
}

/// The right-hand addend that an arithmetic operation feeds to the adder.
pub open spec fn addend(op: Operation, right: i32, w: Width) -> nat {
    if op == Operation::Subtract {
        negate(mask(right, w), w)
    } else {
        mask(right, w)
    }
}

/// The unsigned result word of `op` on `left` and `right` at width `w`.
pub open spec fn op_unsigned(op: Operation, left: i32, right: i32, w: Width) -> nat {
    if is_arithmetic(op) {
        (mask(left, w) + addend(op, right, w)) % modulus(w)
    } else {
        (bitwise(bitwise_of(op), mask(left, w) as u64, mask(right, w) as u64) & value_mask(w)) as nat
    }
}

/// The two's-complement reading of the result word.
pub open spec fn op_signed(op: Operation, left: i32, right: i32, w: Width) -> int {
    to_signed(op_unsigned(op, left, right, w), w)
}

/// Carry-out: the sum before wrapping needs one bit more than the width has.
pub open spec fn op_carry(op: Operation, left: i32, right: i32, w: Width) -> bool {
    is_arithmetic(op) && mask(left, w) + addend(op, right, w) >= modulus(w)
}

/// Signed overflow, by the rule of addition or of subtraction; never for a logical operation.
pub open spec fn op_overflow(op: Operation, left: i32, right: i32, w: Width) -> bool {
    let a = mask(left, w);
    let b = mask(right, w);
    let u = op_unsigned(op, left, right, w);
    match op {
        Operation::Add => add_overflow(a, b, u, w),
        Operation::Subtract => sub_overflow(a, b, u, w),
        _ => false,
    }
}

/// The flags of `op` on `left` and `right` at width `w`.
pub open spec fn op_flags(op: Operation, left: i32, right: i32, w: Width) -> ResultFlags {
    let u = op_unsigned(op, left, right, w);
    flag_set(u == 0, sign_of(u, w), op_overflow(op, left, right, w), op_carry(op, left, right, w))
}

/// `res` is the outcome of `op` on `left` and `right` at width `w`.
pub open spec fn computes(res: Results, op: Operation, left: i32, right: i32, w: Width) -> bool {
    &&& res.flags == op_flags(op, left, right, w)
    &&& renders(
        res.values,
        op_unsigned(op, left, right, w),
        op_signed(op, left, right, w),
        w,
    )
}

/// `r` is what a call with the width tag `of` hands back: the outcome at that width, or
/// `UnsupportedWidth` when the tag names none.
pub open spec fn answers(r: Result<Results, CalcError>, op: Operation, left: i32, right: i32, of: i32) -> bool {
    match width_of_tag(of) {
        None => r == Err::<Results, CalcError>(CalcError::UnsupportedWidth),
        Some(w) => r matches Ok(res) && computes(res, op, left, right, w),
    }
}

/// Carries out `op` at width `w`: masks both operands, computes the result word and its
/// flags, and renders the word.
pub fn compute(op: Operation, left: i32, right: i32, w: Width) -> (r: Results)
    ensures
        computes(r, op, left, right, w),
{
    let a = w.mask(left);
    let b = w.mask(right);
    let (u, carry, overflow) = match op {
        Operation::Add => add_with_flags(a, b, w),
        Operation::Subtract => sub_with_flags(a, b, w),
        Operation::And => (w.truncate(apply(Bitwise::And, a, b)), false, false),
        Operation::Or => (w.truncate(apply(Bitwise::Or, a, b)), false, false),
        Operation::Xor => (w.truncate(apply(Bitwise::Xor, a, b)), false, false),
        Operation::Nand => (w.truncate(apply(Bitwise::Nand, a, b)), false, false),
    };
    proof {
        crate::width::lemma_mask_is_mod(bitwise(bitwise_of(op), a, b));
    }
    assert(u == op_unsigned(op, left, right, w));
    let flags = ResultFlags::new(u == 0, w.sign_of(u), overflow, carry);
    let values = ResultValue::new(u, w.to_signed(u), w);
    Results::new(flags, values)
}

/// Carries out `op` at the width named by `of`.
pub fn calculate(op: Operation, left: i32, right: i32, of: i32) -> (r: Result<Results, CalcError>)
    ensures
        answers(r, op, left, right, of),
{
    match Width::from_tag(of) {
        Ok(w) => Ok(compute(op, left, right, w)),
        Err(e) => Err(e),
    }
}

} // verus!
