use vstd::prelude::*;

verus! {

/// Why an operation on the pool failed. Every failure is terminal for the call
/// that reports it.
#[derive(Debug, Clone, Copy, PartialEq, Eq, Structural)]
pub enum GeneralErrors {
    /// A supplied quantity is zero, or too small for the pool's current ratio.
    InsufficientAmount,
    /// The computed output would exceed what the pool holds.
    PoolInsufficient,
    /// A checked multiplication or addition overflowed.
    MathOverflow,
    /// A checked subtraction went below zero.
    MathUnderflow,
    /// A checked division had a zero divisor.
    MathDivisionByZero,
}

} // verus!
