use vstd::prelude::*;

use crate::ops::{Binary, Constant, Operation, Unary};

verus! {

/// What an input word denotes.
#[derive(Clone, Copy, Debug, PartialEq, Eq, Structural)]
pub enum Word {
    Binary(Binary),
    Unary(Unary),
    Sum,
    Prod,
    Pop,
    Clear,
    Swap,
    Rotate,
    Duplicate,
    /// A named constant, which stands for a literal number.
    Constant(Constant),
    /// Asks for the list of commands.
    Help,
    /// Asks how to end the session.
    Quit,
    /// No alias: the word may still be a number.
    Other,
}

/// The alias table: what the (trimmed, lower-case) word `w` denotes.
pub open spec fn word_of(w: Seq<char>) -> Word {
    if w == "+"@ || w == "add"@ {
        Word::Binary(Binary::Add)
    } else if w == "-"@ || w == "sub"@ || w == "subtract"@ {
        Word::Binary(Binary::Sub)
    } else if w == "*"@ || w == "mul"@ || w == "multiply"@ {
        Word::Binary(Binary::Mul)
    } else if w == "/"@ || w == "div"@ || w == "divide"@ {
        Word::Binary(Binary::Div)
    } else if w == "^"@ || w == "pow"@ || w == "power"@ {
        Word::Binary(Binary::Pow)
    } else if w == "abs"@ || w == "absolute"@ {
        Word::Unary(Unary::Abs)
    } else if w == "sqrt"@ || w == "root"@ {
        Word::Unary(Unary::Sqrt)
    } else if w == "neg"@ || w == "negate"@ || w == "~"@ {
        Word::Unary(Unary::Neg)
    } else if w == "ln"@ || w == "loge"@ {
        Word::Unary(Unary::Ln)
    } else if w == "log"@ || w == "log10"@ {
        Word::Unary(Unary::Log)
    } else if w == "lg"@ || w == "log2"@ {
        Word::Unary(Unary::Lg)
    } else if w == "sin"@ {
        Word::Unary(Unary::Sin)
    } else if w == "asin"@ || w == "sin^-1"@ {
        Word::Unary(Unary::Asin)
    } else if w == "cos"@ {
        Word::Unary(Unary::Cos)
    } else if w == "acos"@ || w == "cos^-1"@ {
        Word::Unary(Unary::Acos)
    } else if w == "tan"@ {
        Word::Unary(Unary::Tan)
    } else if w == "atan"@ || w == "tan^-1"@ {
        Word::Unary(Unary::Atan)
    } else if w == "deg"@ || w == "to deg"@ {
        Word::Unary(Unary::ToDeg)
    } else if w == "rad"@ || w == "to rad"@ {
        Word::Unary(Unary::ToRad)
    } else if w == "pi"@ || w == "π"@ {
        Word::Constant(Constant::Pi)
    } else if w == "e"@ {
        Word::Constant(Constant::E)
    } else if w == "phi"@ || w == "φ"@ || w == "ϕ"@ {
        Word::Constant(Constant::Phi)
    } else if w == "sum"@ {
        Word::Sum
    } else if w == "prod"@ {
        Word::Prod
    } else if w == "pop"@ {
        Word::Pop
    } else if w == "clear"@ || w == "cls"@ {
        Word::Clear
    } else if w == "swap"@ {
        Word::Swap
    } else if w == "rotate"@ || w == "rot"@ {
        Word::Rotate
    } else if w == "copy"@ || w == "clone"@ || w == "duplicate"@ {
        Word::Duplicate
    } else if w == "help"@ || w == "?"@ {
        Word::Help
    } else if w == "quit"@ || w == "q"@ || w == "end"@ {
        Word::Quit
    } else {
        Word::Other
    }
}

/// Looks `w` up in the alias table, exactly as it is.
pub fn classify(w: &str) -> (r: Word)
    ensures
        r == word_of(w@),
{
    let w = w.to_owned();
    if w == "+".to_owned() || w == "add".to_owned() {
        Word::Binary(Binary::Add)
    } else if w == "-".to_owned() || w == "sub".to_owned() || w == "subtract".to_owned() {
        Word::Binary(Binary::Sub)
    } else if w == "*".to_owned() || w == "mul".to_owned() || w == "multiply".to_owned() {
        Word::Binary(Binary::Mul)
    } else if w == "/".to_owned() || w == "div".to_owned() || w == "divide".to_owned() {
        Word::Binary(Binary::Div)
    } else if w == "^".to_owned() || w == "pow".to_owned() || w == "power".to_owned() {
        Word::Binary(Binary::Pow)
    } else if w == "abs".to_owned() || w == "absolute".to_owned() {
        Word::Unary(Unary::Abs)
    } else if w == "sqrt".to_owned() || w == "root".to_owned() {
        Word::Unary(Unary::Sqrt)
    } else if w == "neg".to_owned() || w == "negate".to_owned() || w == "~".to_owned() {
        Word::Unary(Unary::Neg)
    } else if w == "ln".to_owned() || w == "loge".to_owned() {
        Word::Unary(Unary::Ln)
    } else if w == "log".to_owned() || w == "log10".to_owned() {
        Word::Unary(Unary::Log)
    } else if w == "lg".to_owned() || w == "log2".to_owned() {
        Word::Unary(Unary::Lg)
    } else if w == "sin".to_owned() {
        Word::Unary(Unary::Sin)
    } else if w == "asin".to_owned() || w == "sin^-1".to_owned() {
        Word::Unary(Unary::Asin)
    } else if w == "cos".to_owned() {
        Word::Unary(Unary::Cos)
    } else if w == "acos".to_owned() || w == "cos^-1".to_owned() {
        Word::Unary(Unary::Acos)
    } else if w == "tan".to_owned() {
        Word::Unary(Unary::Tan)
    } else if w == "atan".to_owned() || w == "tan^-1".to_owned() {
        Word::Unary(Unary::Atan)
    } else if w == "deg".to_owned() || w == "to deg".to_owned() {
        Word::Unary(Unary::ToDeg)
    } else if w == "rad".to_owned() || w == "to rad".to_owned() {
        Word::Unary(Unary::ToRad)
    } else if w == "pi".to_owned() || w == "π".to_owned() {
        Word::Constant(Constant::Pi)
    } else if w == "e".to_owned() {
        Word::Constant(Constant::E)
    } else if w == "phi".to_owned() || w == "φ".to_owned() || w == "ϕ".to_owned() {
        Word::Constant(Constant::Phi)
    } else if w == "sum".to_owned() {
        Word::Sum
    } else if w == "prod".to_owned() {
        Word::Prod
    } else if w == "pop".to_owned() {
        Word::Pop
    } else if w == "clear".to_owned() || w == "cls".to_owned() {
        Word::Clear
    } else if w == "swap".to_owned() {
        Word::Swap
    } else if w == "rotate".to_owned() || w == "rot".to_owned() {
        Word::Rotate
    } else if w == "copy".to_owned() || w == "clone".to_owned() || w == "duplicate".to_owned() {
        Word::Duplicate
    } else if w == "help".to_owned() || w == "?".to_owned() {
        Word::Help
    } else if w == "quit".to_owned() || w == "q".to_owned() || w == "end".to_owned() {
        Word::Quit
    } else {
        Word::Other
    }
}

/// Unicode's White_Space property.
pub open spec fn is_white_space(c: char) -> bool {
    let n = c as u32;
    ||| 0x9 <= n <= 0xd
    ||| n == 0x20
    ||| n == 0x85
    ||| n == 0xa0
    ||| n == 0x1680
    ||| 0x2000 <= n <= 0x200a
    ||| n == 0x2028
    ||| n == 0x2029
    ||| n == 0x202f
    ||| n == 0x205f
    ||| n == 0x3000
}

/// `s` without its leading white space.
pub open spec fn trim_start(s: Seq<char>) -> Seq<char>
    decreases s.len(),
{
    if s.len() > 0 && is_white_space(s[0]) {
        trim_start(s.drop_first())
    } else {
        s
    }
}

/// `s` without its trailing white space.
pub open spec fn trim_end(s: Seq<char>) -> Seq<char>
    decreases s.len(),
{
    if s.len() > 0 && is_white_space(s.last()) {
        trim_end(s.drop_last())
    } else {
        s
    }
}

/// `s` without its leading and trailing white space.
pub open spec fn trimmed(s: Seq<char>) -> Seq<char> {
    trim_end(trim_start(s))
}

/// What `str::to_lowercase` gives for `s`: Unicode's lower-case mapping.
pub uninterp spec fn lowercase_of(s: Seq<char>) -> Seq<char>;

/// Relies on `str::to_lowercase`: the lower-case mapping of the characters,
/// which depends on them alone.
#[verifier::external_body]
fn lowercase(s: &str) -> (r: String)
    ensures
        r@ == lowercase_of(s@),
{
    s.to_lowercase()
}

/// Relies on `str::trim`: the slice without leading and trailing characters
/// of the White_Space property.
#[verifier::external_body]
fn trim(s: &str) -> (r: &str)
    ensures
        r@ == trimmed(s@),
{
    s.trim()
}

/// Reads one input line: lower-cases it, trims it, and looks it up in the
/// alias table.
pub fn parse(line: &str) -> (r: Word)
    ensures
        r == word_of(trimmed(lowercase_of(line@))),
{
    let lower = lowercase(line);
    classify(trim(lower.as_str()))
}

/// The operation that the word `w` gives. `value` is the number that the word
/// stands for, where it names a constant or has no alias and reads as a
/// number; where it has none, and for help and quit, nothing is done.
pub fn operation_of<T>(w: Word, value: Option<T>) -> (r: Operation<T>)
    ensures
        r == operation_spec(w, value),
{
    match w {
        Word::Binary(b) => Operation::Binary(b),
        Word::Unary(u) => Operation::Unary(u),
        Word::Sum => Operation::Sum,
        Word::Prod => Operation::Prod,
        Word::Pop => Operation::Pop,
        Word::Clear => Operation::Clear,
        Word::Swap => Operation::Swap,
        Word::Rotate => Operation::Rotate,
        Word::Duplicate => Operation::Duplicate,
        Word::Constant(_) | Word::Other => match value {
            Some(x) => Operation::Num(x),
            None => Operation::NoOp,
        },
        Word::Help | Word::Quit => Operation::NoOp,
    }
}

/// The operation that the word `w` gives, with `value` as in `operation_of`.
pub open spec fn operation_spec<T>(w: Word, value: Option<T>) -> Operation<T> {
    match w {
        Word::Binary(b) => Operation::Binary(b),
        Word::Unary(u) => Operation::Unary(u),
        Word::Sum => Operation::Sum,
        Word::Prod => Operation::Prod,
        Word::Pop => Operation::Pop,
        Word::Clear => Operation::Clear,
        Word::Swap => Operation::Swap,
        Word::Rotate => Operation::Rotate,
        Word::Duplicate => Operation::Duplicate,
        Word::Constant(_) | Word::Other => match value {
            Some(x) => Operation::Num(x),
            None => Operation::NoOp,
        },
        Word::Help | Word::Quit => Operation::NoOp,
    }
}

} // verus!
