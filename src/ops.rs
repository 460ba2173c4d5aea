use vstd::prelude::*;

verus! {

/// The operations that take two operands.
#[derive(Clone, Copy, Debug, PartialEq, Eq, Structural)]
pub enum Binary {
    Add,
    Sub,
    Mul,
    Div,
    Pow,
}

/// The operations that take one operand.
#[derive(Clone, Copy, Debug, PartialEq, Eq, Structural)]
pub enum Unary {
    Sqrt,
    Neg,
    Abs,
    /// Natural logarithm.
    Ln,
    /// Base-10 logarithm.
    Log,
    /// Base-2 logarithm.
    Lg,
    Sin,
    Asin,
    Cos,
    Acos,
    Tan,
    Atan,
    /// Radians to degrees.
    ToDeg,
    /// Degrees to radians.
    ToRad,
}

/// The named constants that stand for literal numbers.
#[derive(Clone, Copy, Debug, PartialEq, Eq, Structural)]
pub enum Constant {
    Pi,
    E,
    /// The golden ratio.
    Phi,
}

/// One step of the calculator, over operands of type `T`.
#[derive(Debug, PartialEq)]
pub enum Operation<T> {
    Binary(Binary),
    Unary(Unary),
    /// Replaces the whole stack by the sum of its operands.
    Sum,
    /// Replaces the whole stack by the product of its operands.
    Prod,
    Pop,
    Clear,
    Swap,
    Rotate,
    Duplicate,
    /// Pushes the carried number.
    Num(T),
    /// Leaves the stack as it is.
    NoOp,
}

} // verus!
