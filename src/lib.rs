//! A calculator for fixed-width binary arithmetic that reports the status
//! flags of a CPU's arithmetic logic unit.
use vstd::prelude::*;

pub mod addition;
pub mod api;
pub mod laws;
pub mod logical;
pub mod operation;
pub mod render;
pub mod utils;
pub mod width;

pub use api::Results;
pub use operation::Operation;
pub use width::CalcError;

use operation::{answers, calculate};

verus! {

/// Adds `left` and `right` at the width named by `of`.
pub fn add(left: i32, right: i32, of: i32) -> (r: Result<Results, CalcError>)
    ensures
        answers(r, Operation::Add, left, right, of),
{
    calculate(Operation::Add, left, right, of)
}

/// Subtracts `right` from `left` at the width named by `of`.
pub fn sub(left: i32, right: i32, of: i32) -> (r: Result<Results, CalcError>)
    ensures
        answers(r, Operation::Subtract, left, right, of),
{
    calculate(Operation::Subtract, left, right, of)
}

/// Bitwise and of `left` and `right` at the width named by `of`.
pub fn and(left: i32, right: i32, of: i32) -> (r: Result<Results, CalcError>)
    ensures
        answers(r, Operation::And, left, right, of),
{
    calculate(Operation::And, left, right, of)
}

/// Bitwise not-and of `left` and `right` at the width named by `of`.
pub fn nand(left: i32, right: i32, of: i32) -> (r: Result<Results, CalcError>)
    ensures
        answers(r, Operation::Nand, left, right, of),
{
    calculate(Operation::Nand, left, right, of)
}

/// Bitwise or of `left` and `right` at the width named by `of`.
pub fn or(left: i32, right: i32, of: i32) -> (r: Result<Results, CalcError>)
    ensures
        answers(r, Operation::Or, left, right, of),
{
    calculate(Operation::Or, left, right, of)
}

/// Bitwise exclusive or of `left` and `right` at the width named by `of`.
pub fn xor(left: i32, right: i32, of: i32) -> (r: Result<Results, CalcError>)
    ensures
        answers(r, Operation::Xor, left, right, of),
{
    calculate(Operation::Xor, left, right, of)
}

} // verus!
