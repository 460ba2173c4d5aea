use vstd::prelude::*;

use crate::ops::{Binary, Operation, Unary};
use crate::stack::{folds_to, step, Arithmetic};

verus! {

/// A binary operation on a stack of fewer than two operands leaves it as it is.
pub proof fn lemma_binary_short_stack_unchanged<T, B: Fn(Binary, T, T) -> T, U: Fn(Unary, T) -> T>(
    arith: Arithmetic<T, B, U>,
    s: Seq<T>,
    op: Binary,
    t: Seq<T>,
)
    requires
        s.len() < 2,
        step(arith, s, Operation::Binary(op), t),
    ensures
        t == s,
{
}

/// On an empty stack, a unary operation, pop, swap, rotate and duplicate
/// leave it empty.
pub proof fn lemma_empty_stack_unchanged<T, B: Fn(Binary, T, T) -> T, U: Fn(Unary, T) -> T>(
    arith: Arithmetic<T, B, U>,
    op: Operation<T>,
    t: Seq<T>,
)
    requires
        op is Unary || op is Pop || op is Swap || op is Rotate || op is Duplicate,
        step(arith, Seq::<T>::empty(), op, t),
    ensures
        t == Seq::<T>::empty(),
{
}

/// The sum of an empty stack is the additive identity alone, and its product
/// the multiplicative identity alone.
pub proof fn lemma_reduce_empty<T, B: Fn(Binary, T, T) -> T, U: Fn(Unary, T) -> T>(
    arith: Arithmetic<T, B, U>,
    t: Seq<T>,
    u: Seq<T>,
)
    requires
        step(arith, Seq::<T>::empty(), Operation::Sum, t),
        step(arith, Seq::<T>::empty(), Operation::Prod, u),
    ensures
        t == seq![arith.zero],
        u == seq![arith.one],
{
    assert(folds_to(arith.binary, Binary::Add, arith.zero, Seq::<T>::empty(), t[0]));
    assert(t =~= seq![arith.zero]);
    assert(u =~= seq![arith.one]);
}

/// Clearing empties every stack, and clearing again changes nothing.
pub proof fn lemma_clear_idempotent<T, B: Fn(Binary, T, T) -> T, U: Fn(Unary, T) -> T>(
    arith: Arithmetic<T, B, U>,
    s: Seq<T>,
    t: Seq<T>,
    u: Seq<T>,
)
    requires
        step(arith, s, Operation::Clear, t),
        step(arith, t, Operation::Clear, u),
    ensures
        t == Seq::<T>::empty(),
        u == t,
{
}

/// Pushing a number and then popping gives back the stack from before.
pub proof fn lemma_push_pop_round_trip<T, B: Fn(Binary, T, T) -> T, U: Fn(Unary, T) -> T>(
    arith: Arithmetic<T, B, U>,
    s: Seq<T>,
    n: T,
    t: Seq<T>,
    u: Seq<T>,
)
    requires
        step(arith, s, Operation::Num(n), t),
        step(arith, t, Operation::Pop, u),
    ensures
        u == s,
{
    assert(s.push(n).drop_last() =~= s);
}

} // verus!
