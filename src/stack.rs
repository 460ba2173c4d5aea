use std::collections::VecDeque;
use vstd::prelude::*;

use crate::ops::{Binary, Operation, Unary};

verus! {

/// The arithmetic of an operand type: the identities of addition and
/// multiplication, and the functions that compute the binary and unary
/// operations.
pub struct Arithmetic<T, B, U> {
    pub zero: T,
    pub one: T,
    pub binary: B,
    pub unary: U,
}

impl<T, B: Fn(Binary, T, T) -> T, U: Fn(Unary, T) -> T> Arithmetic<T, B, U> {
    /// Both functions accept every operation on every operand.
    pub open spec fn total(&self) -> bool {
        &&& forall|op: Binary, a: T, b: T| self.binary.requires((op, a, b))
        &&& forall|op: Unary, a: T| self.unary.requires((op, a))
    }
}

/// `r` is a value that folding `op` over `s`, from the bottom up and starting
/// at `init`, can give.
pub open spec fn folds_to<T, B: Fn(Binary, T, T) -> T>(
    f: B,
    op: Binary,
    init: T,
    s: Seq<T>,
    r: T,
) -> bool
    decreases s.len(),
{
    if s.len() == 0 {
        r == init
    } else {
        exists|acc: T| folds_to(f, op, init, s.drop_last(), acc) && #[trigger] f.ensures((op, acc, s.last()), r)
    }
}

/// `t` is what applying the binary operation `op` to `s` can give: with two
/// operands or more the top one is the right-hand side and the one below it
/// the left-hand side, and the result replaces both; with fewer, nothing
/// changes.
pub open spec fn binary_step<T, B: Fn(Binary, T, T) -> T>(
    f: B,
    op: Binary,
    s: Seq<T>,
    t: Seq<T>,
) -> bool {
    if s.len() < 2 {
        t == s
    } else {
        &&& t.len() == s.len() - 1
        &&& t.take(s.len() - 2) == s.take(s.len() - 2)
        &&& f.ensures((op, s[s.len() - 2], s[s.len() - 1]), t.last())
    }
}

/// `t` is what applying the unary operation `op` to `s` can give: the top
/// operand is replaced by the result, and an empty stack stays empty.
pub open spec fn unary_step<T, U: Fn(Unary, T) -> T>(f: U, op: Unary, s: Seq<T>, t: Seq<T>) -> bool {
    if s.len() == 0 {
        t == s
    } else {
        &&& t.len() == s.len()
        &&& t.drop_last() == s.drop_last()
        &&& f.ensures((op, s.last()), t.last())
    }
}

/// `t` is what reducing `s` with `op` from `init` can give: one operand, the fold.
pub open spec fn reduce_step<T, B: Fn(Binary, T, T) -> T>(
    f: B,
    op: Binary,
    init: T,
    s: Seq<T>,
    t: Seq<T>,
) -> bool {
    t.len() == 1 && folds_to(f, op, init, s, t[0])
}

/// The stack with its top operand removed, if there is one.
pub open spec fn popped<T>(s: Seq<T>) -> Seq<T> {
    if s.len() == 0 {
        s
    } else {
        s.drop_last()
    }
}

/// The stack with its two top operands exchanged, if there are two.
pub open spec fn swapped<T>(s: Seq<T>) -> Seq<T> {
    if s.len() < 2 {
        s
    } else {
        s.take(s.len() - 2).push(s[s.len() - 1]).push(s[s.len() - 2])
    }
}

/// The stack with its top operand moved to the bottom, if there is one.
pub open spec fn rotated<T>(s: Seq<T>) -> Seq<T> {
    if s.len() == 0 {
        s
    } else {
        seq![s.last()] + s.drop_last()
    }
}

/// The stack with a copy of its top operand pushed, if there is one.
pub open spec fn duplicated<T>(s: Seq<T>) -> Seq<T> {
    if s.len() == 0 {
        s
    } else {
        s.push(s.last())
    }
}

/// `t` is what evaluating `op` on the stack `s` can give, with the arithmetic
/// `arith`.
pub open spec fn step<T, B: Fn(Binary, T, T) -> T, U: Fn(Unary, T) -> T>(
    arith: Arithmetic<T, B, U>,
    s: Seq<T>,
    op: Operation<T>,
    t: Seq<T>,
) -> bool {
    match op {
        Operation::Binary(b) => binary_step(arith.binary, b, s, t),
        Operation::Unary(u) => unary_step(arith.unary, u, s, t),
        Operation::Sum => reduce_step(arith.binary, Binary::Add, arith.zero, s, t),
        Operation::Prod => reduce_step(arith.binary, Binary::Mul, arith.one, s, t),
        Operation::Pop => t == popped(s),
        Operation::Clear => t == Seq::<T>::empty(),
        Operation::Swap => t == swapped(s),
        Operation::Rotate => t == rotated(s),
        Operation::Duplicate => t == duplicated(s),
        Operation::Num(x) => t == s.push(x),
        Operation::NoOp => t == s,
    }
}

/// An operand stack. Its view lists the operands from the bottom to the top.
pub struct Stack<T> {
    items: VecDeque<T>,
}

impl<T> View for Stack<T> {
    type V = Seq<T>;

    closed spec fn view(&self) -> Seq<T> {
        self.items@
    }
}

impl<T: Copy> Stack<T> {
    /// An empty stack.
    pub fn new() -> (r: Self)
        ensures
            r@ == Seq::<T>::empty(),
    {
        Stack { items: VecDeque::new() }
    }

    /// The number of operands on the stack.
    pub fn len(&self) -> (r: usize)
        ensures
            r == self@.len(),
    {
        self.items.len()
    }

    /// The operand at `i`, counted from the bottom.
    pub fn get(&self, i: usize) -> (r: T)
        requires
            i < self@.len(),
        ensures
            r == self@[i as int],
    {
        self.items[i]
    }

    /// The operands from the bottom to the top.
    pub fn to_vec(&self) -> (r: Vec<T>)
        ensures
            r@ == self@,
    {
        let mut v: Vec<T> = Vec::new();
        let n = self.items.len();
        let mut i: usize = 0;
        while i < n
            invariant
                n == self@.len(),
                i <= n,
                v@ == self@.take(i as int),
            decreases n - i,
        {
            v.push(self.items[i]);
            i = i + 1;
            assert(v@ =~= self@.take(i as int));
        }
        assert(self@.take(n as int) =~= self@);
        v
    }

    /// Pushes `x` on top.
    pub fn push(&mut self, x: T)
        ensures
            final(self)@ == old(self)@.push(x),
    {
        self.items.push_back(x);
    }

    /// Removes the top operand; an empty stack stays empty.
    pub fn pop(&mut self)
        ensures
            final(self)@ == popped(old(self)@),
    {
        let _ = self.items.pop_back();
    }

    /// Removes every operand.
    pub fn clear(&mut self)
        ensures
            final(self)@ == Seq::<T>::empty(),
    {
        self.items.clear();
    }

    /// Exchanges the two top operands; with fewer than two nothing changes.
    pub fn swap(&mut self)
        ensures
            final(self)@ == swapped(old(self)@),
    {
        if self.items.len() >= 2 {
            let a = self.items.pop_back().unwrap();
            let b = self.items.pop_back().unwrap();
            self.items.push_back(a);
            self.items.push_back(b);
            proof {
                let s = old(self)@;
                assert(s.drop_last().drop_last() =~= s.take(s.len() - 2));
            }
        }
    }

    /// Moves the top operand to the bottom; an empty stack stays empty.
    pub fn rotate(&mut self)
        ensures
            final(self)@ == rotated(old(self)@),
    {
        if let Some(x) = self.items.pop_back() {
            self.items.push_front(x);
        }
    }

    /// Pushes a copy of the top operand; an empty stack stays empty.
    pub fn duplicate(&mut self)
        ensures
            final(self)@ == duplicated(old(self)@),
    {
        let n = self.items.len();
        if n >= 1 {
            let x = self.items[n - 1];
            self.items.push_back(x);
        }
    }

    /// Applies the binary operation `op`: the top operand is its right-hand
    /// side, the one below it the left-hand side, and the result replaces
    /// both. With fewer than two operands nothing changes.
    pub fn apply_binary<B: Fn(Binary, T, T) -> T>(&mut self, op: Binary, f: &B)
        requires
            forall|a: T, b: T| f.requires((op, a, b)),
        ensures
            binary_step(*f, op, old(self)@, final(self)@),
    {
        if self.items.len() >= 2 {
            let right = self.items.pop_back().unwrap();
            let left = self.items.pop_back().unwrap();
            let r = f(op, left, right);
            self.items.push_back(r);
            proof {
                let s = old(self)@;
                assert(s.drop_last().drop_last() =~= s.take(s.len() - 2));
                assert(final(self)@.take(s.len() - 2) =~= s.take(s.len() - 2));
            }
        }
    }

    /// Applies the unary operation `op` to the top operand. An empty stack
    /// stays empty.
    pub fn apply_unary<U: Fn(Unary, T) -> T>(&mut self, op: Unary, f: &U)
        requires
            forall|a: T| f.requires((op, a)),
        ensures
            unary_step(*f, op, old(self)@, final(self)@),
    {
        if let Some(x) = self.items.pop_back() {
            let r = f(op, x);
            self.items.push_back(r);
            proof {
                assert(final(self)@.drop_last() =~= old(self)@.drop_last());
            }
        }
    }

    /// Folds `op` over the operands from the bottom up, starting at `init`,
    /// and replaces the whole stack by the result.
    pub fn reduce<B: Fn(Binary, T, T) -> T>(&mut self, op: Binary, init: T, f: &B)
        requires
            forall|a: T, b: T| f.requires((op, a, b)),
        ensures
            reduce_step(*f, op, init, old(self)@, final(self)@),
    {
        let n = self.items.len();
        let mut acc = init;
        let mut i: usize = 0;
        while i < n
            invariant
                n == self@.len(),
                self@ == old(self)@,
                i <= n,
                forall|a: T, b: T| f.requires((op, a, b)),
                folds_to(*f, op, init, self@.take(i as int), acc),
            decreases n - i,
        {
            let x = self.items[i];
            let next = f(op, acc, x);
            proof {
                let s = self@.take(i + 1);
                assert(s.drop_last() =~= self@.take(i as int));
                assert(s.last() == x);
                assert(f.ensures((op, acc, s.last()), next));
            }
            acc = next;
            i = i + 1;
        }
        assert(self@.take(n as int) =~= self@);
        self.items.clear();
        self.items.push_back(acc);
    }
    /// Evaluates `op` on the stack. Every operation succeeds: one that lacks
    /// operands leaves the stack as it is.
    pub fn evaluate<B: Fn(Binary, T, T) -> T, U: Fn(Unary, T) -> T>(
        &mut self,
        op: Operation<T>,
        arith: &Arithmetic<T, B, U>,
    )
        requires
            arith.total(),
        ensures
            step(*arith, old(self)@, op, final(self)@),
    {
        match op {
            Operation::Binary(b) => self.apply_binary(b, &arith.binary),
            Operation::Unary(u) => self.apply_unary(u, &arith.unary),
            Operation::Sum => self.reduce(Binary::Add, arith.zero, &arith.binary),
            Operation::Prod => self.reduce(Binary::Mul, arith.one, &arith.binary),
            Operation::Pop => self.pop(),
            Operation::Clear => self.clear(),
            Operation::Swap => self.swap(),
            Operation::Rotate => self.rotate(),
            Operation::Duplicate => self.duplicate(),
            Operation::Num(x) => self.push(x),
            Operation::NoOp => {},
        }
    }
}

} // verus!
