//! A reverse Polish notation calculator engine: an operand stack, the
//! operations on it, and the alias table that maps input words to them.
//! Operands are of any `Copy` type; their arithmetic is supplied by the caller.

pub mod laws;
pub mod ops;
pub mod parse;
pub mod stack;
