//! The arithmetic that a conversion asks of its caller.
//!
//! Nothing in this crate computes with binary32 numbers. A conversion names
//! one operation at a time, on bit patterns; the caller carries it out and
//! hands back the pattern of the result.

use vstd::prelude::*;

verus! {

/// One operation on binary32 numbers, given by their bit patterns.
#[derive(Clone, Copy, Debug, PartialEq, Eq, Structural)]
pub enum Op {
    /// The Euclidean norm of the vector of the three numbers.
    Norm3(u32, u32, u32),
    /// The Euclidean norm of the vector of the two numbers.
    Norm2(u32, u32),
    /// The first number divided by the second.
    Div(u32, u32),
    /// The arctangent of the number.
    Atan(u32),
    /// The sum of the two numbers.
    Add(u32, u32),
    /// The first number less the second.
    Sub(u32, u32),
    /// The product of the two numbers.
    Mul(u32, u32),
    /// The sine of the number.
    Sin(u32),
    /// The cosine of the number.
    Cos(u32),
}

} // verus!
