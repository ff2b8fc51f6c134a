//! Bitwise operations on words.
use vstd::prelude::*;

verus! {

/// The four bitwise operations.
#[derive(Debug, Clone, Copy, PartialEq, Eq, Structural)]
pub enum Bitwise {
    And,
    Or,
    Xor,
    Nand,
}

/// The bitwise operation `op` on 64-bit patterns.
pub open spec fn bitwise(op: Bitwise, a: u64, b: u64) -> u64 {
    match op {
        Bitwise::And => a & b,
        Bitwise::Or => a | b,
        Bitwise::Xor => a ^ b,
        Bitwise::Nand => !(a & b),
    }
}

/// Applies `op`; the caller reduces the result to its width, which matters for `Nand`.
pub fn apply(op: Bitwise, a: u64, b: u64) -> (r: u64)
    ensures
        r == bitwise(op, a, b),
{
    match op {
        Bitwise::And => a & b,
        Bitwise::Or => a | b,
        Bitwise::Xor => a ^ b,
        Bitwise::Nand => !(a & b),
    }
}

} // verus!
