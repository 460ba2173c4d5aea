use stack_calc::ops::{Binary, Constant, Operation, Unary};
use stack_calc::parse::{classify, operation_of, parse, Word};
use stack_calc::stack::{Arithmetic, Stack};

fn binary(op: Binary, a: f64, b: f64) -> f64 {
    match op {
        Binary::Add => a + b,
        Binary::Sub => a - b,
        Binary::Mul => a * b,
        Binary::Div => a / b,
        Binary::Pow => a.powf(b),
    }
}

fn unary(op: Unary, a: f64) -> f64 {
    match op {
        Unary::Sqrt => a.sqrt(),
        Unary::Neg => -a,
        Unary::Abs => a.abs(),
        Unary::Ln => a.ln(),
        Unary::Log => a.log10(),
        Unary::Lg => a.log2(),
        Unary::Sin => a.sin(),
        Unary::Asin => a.asin(),
        Unary::Cos => a.cos(),
        Unary::Acos => a.acos(),
        Unary::Tan => a.tan(),
        Unary::Atan => a.atan(),
        Unary::ToDeg => a.to_degrees(),
        Unary::ToRad => a.to_radians(),
    }
}

fn arith() -> Arithmetic<f64, fn(Binary, f64, f64) -> f64, fn(Unary, f64) -> f64> {
    Arithmetic { zero: 0.0, one: 1.0, binary, unary }
}

fn stack_of(xs: &[f64]) -> Stack<f64> {
    let mut s = Stack::new();
    for &x in xs {
        s.push(x);
    }
    s
}

fn eval(xs: &[f64], op: Operation<f64>) -> Vec<f64> {
    let mut s = stack_of(xs);
    s.evaluate(op, &arith());
    s.to_vec()
}

const BINARY: [Binary; 5] = [Binary::Add, Binary::Sub, Binary::Mul, Binary::Div, Binary::Pow];

const UNARY: [Unary; 14] = [
    Unary::Sqrt,
    Unary::Neg,
    Unary::Abs,
    Unary::Ln,
    Unary::Log,
    Unary::Lg,
    Unary::Sin,
    Unary::Asin,
    Unary::Cos,
    Unary::Acos,
    Unary::Tan,
    Unary::Atan,
    Unary::ToDeg,
    Unary::ToRad,
];

#[test]
fn binary_ops_on_short_stacks_change_nothing() {
    for op in BINARY {
        assert_eq!(eval(&[], Operation::Binary(op)), Vec::<f64>::new());
        assert_eq!(eval(&[7.5], Operation::Binary(op)), vec![7.5]);
    }
}

#[test]
fn unary_and_stack_ops_on_empty_stack_change_nothing() {
    for op in UNARY {
        assert_eq!(eval(&[], Operation::Unary(op)), Vec::<f64>::new());
    }
    for op in [Operation::Pop, Operation::Swap, Operation::Rotate, Operation::Duplicate] {
        assert_eq!(eval(&[], op), Vec::<f64>::new());
    }
    assert_eq!(eval(&[4.0], Operation::Swap), vec![4.0]);
}

#[test]
fn sum_and_prod_of_empty_stack_are_identities() {
    assert_eq!(eval(&[], Operation::Sum), vec![0.0]);
    assert_eq!(eval(&[], Operation::Prod), vec![1.0]);
}

#[test]
fn sum_and_prod_fold_whole_stack() {
    assert_eq!(eval(&[2.0, 3.0, 5.0], Operation::Sum), vec![10.0]);
    assert_eq!(eval(&[2.0, 3.0, 5.0], Operation::Prod), vec![30.0]);
}

#[test]
fn top_operand_is_right_hand_side() {
    let a = arith();
    let mut s = Stack::new();
    s.evaluate(Operation::Num(2.0), &a);
    s.evaluate(Operation::Num(1.0), &a);
    s.evaluate(Operation::Binary(Binary::Sub), &a);
    assert_eq!(s.to_vec(), vec![1.0]);
    assert_eq!(eval(&[8.0, 2.0], Operation::Binary(Binary::Div)), vec![4.0]);
    assert_eq!(eval(&[2.0, 3.0], Operation::Binary(Binary::Pow)), vec![8.0]);
    assert_eq!(eval(&[9.0, 2.0, 3.0], Operation::Binary(Binary::Mul)), vec![9.0, 6.0]);
}

#[test]
fn division_by_zero_gives_infinity() {
    assert_eq!(eval(&[1.0, 0.0], Operation::Binary(Binary::Div)), vec![f64::INFINITY]);
    assert!(eval(&[0.0, 0.0], Operation::Binary(Binary::Div))[0].is_nan());
}

#[test]
fn unary_replaces_top_only() {
    assert_eq!(eval(&[1.0, 9.0], Operation::Unary(Unary::Sqrt)), vec![1.0, 3.0]);
    assert_eq!(eval(&[-2.5], Operation::Unary(Unary::Abs)), vec![2.5]);
    assert_eq!(eval(&[2.5], Operation::Unary(Unary::Neg)), vec![-2.5]);
    assert!(eval(&[-1.0], Operation::Unary(Unary::Sqrt))[0].is_nan());
}

#[test]
fn rotate_moves_top_to_bottom() {
    assert_eq!(eval(&[1.0, 2.0, 3.0], Operation::Rotate), vec![3.0, 1.0, 2.0]);
}

#[test]
fn duplicate_copies_top() {
    assert_eq!(eval(&[5.0], Operation::Duplicate), vec![5.0, 5.0]);
    assert_eq!(eval(&[], Operation::Duplicate), Vec::<f64>::new());
}

#[test]
fn swap_and_pop() {
    assert_eq!(eval(&[1.0, 2.0, 3.0], Operation::Swap), vec![1.0, 3.0, 2.0]);
    assert_eq!(eval(&[1.0, 2.0], Operation::Pop), vec![1.0]);
}

#[test]
fn clear_empties_and_is_idempotent() {
    assert_eq!(eval(&[1.0, 2.0, 3.0], Operation::Clear), Vec::<f64>::new());
    assert_eq!(eval(&[], Operation::Clear), Vec::<f64>::new());
}

#[test]
fn push_then_pop_restores_stack() {
    let a = arith();
    let mut s = stack_of(&[1.0, 2.0]);
    s.evaluate(Operation::Num(42.0), &a);
    assert_eq!(s.to_vec(), vec![1.0, 2.0, 42.0]);
    s.evaluate(Operation::Pop, &a);
    assert_eq!(s.to_vec(), vec![1.0, 2.0]);
}

#[test]
fn noop_changes_nothing() {
    assert_eq!(eval(&[1.0, 2.0], Operation::NoOp), vec![1.0, 2.0]);
}

#[test]
fn parses_number_unknown_word_and_pi() {
    let w = parse("3.14");
    assert_eq!(w, Word::Other);
    assert_eq!(operation_of(w, "3.14".parse::<f64>().ok()), Operation::Num(3.14));
    let w = parse("abc");
    assert_eq!(w, Word::Other);
    assert_eq!(operation_of(w, "abc".parse::<f64>().ok()), Operation::NoOp);
    for text in ["pi", "PI", "Pi", "π"] {
        assert_eq!(parse(text), Word::Constant(Constant::Pi));
    }
    assert_eq!(
        operation_of(parse("PI"), Some(std::f64::consts::PI)),
        Operation::Num(std::f64::consts::PI)
    );
}

#[test]
fn parse_trims_and_lowercases() {
    assert_eq!(parse("  SUM\n"), Word::Sum);
    assert_eq!(parse("\tTo Deg  "), Word::Unary(Unary::ToDeg));
    assert_eq!(parse("Swap"), Word::Swap);
    assert_eq!(classify("SUM"), Word::Other);
    assert_eq!(classify(" sum"), Word::Other);
}

#[test]
fn aliases_denote_their_operations() {
    assert_eq!(classify("+"), Word::Binary(Binary::Add));
    assert_eq!(classify("subtract"), Word::Binary(Binary::Sub));
    assert_eq!(classify("*"), Word::Binary(Binary::Mul));
    assert_eq!(classify("divide"), Word::Binary(Binary::Div));
    assert_eq!(classify("^"), Word::Binary(Binary::Pow));
    assert_eq!(classify("~"), Word::Unary(Unary::Neg));
    assert_eq!(classify("loge"), Word::Unary(Unary::Ln));
    assert_eq!(classify("log10"), Word::Unary(Unary::Log));
    assert_eq!(classify("log2"), Word::Unary(Unary::Lg));
    assert_eq!(classify("sin^-1"), Word::Unary(Unary::Asin));
    assert_eq!(classify("rad"), Word::Unary(Unary::ToRad));
    assert_eq!(classify("e"), Word::Constant(Constant::E));
    assert_eq!(classify("ϕ"), Word::Constant(Constant::Phi));
    assert_eq!(classify("cls"), Word::Clear);
    assert_eq!(classify("rot"), Word::Rotate);
    assert_eq!(classify("clone"), Word::Duplicate);
    assert_eq!(classify("?"), Word::Help);
    assert_eq!(classify("end"), Word::Quit);
    assert_eq!(classify(""), Word::Other);
}

#[test]
fn help_and_quit_do_nothing() {
    assert_eq!(operation_of::<f64>(Word::Help, Some(1.0)), Operation::NoOp);
    assert_eq!(operation_of::<f64>(Word::Quit, None), Operation::NoOp);
    assert_eq!(operation_of::<f64>(Word::Rotate, None), Operation::Rotate);
    assert_eq!(operation_of::<f64>(Word::Constant(Constant::E), None), Operation::NoOp);
}
