//! What the rewritten operators compute: the trees that the visitor hands
//! back are run here with the integer methods of the standard library, on
//! every pair of `i8` and of `u8`.

use overf::block::ArithOp;
use overf::block::Policy;
use overf::render::render_block;
use overf::render::render_expr;
use overf::syntax::BinOp;
use overf::syntax::Block;
use overf::syntax::Disposition;
use overf::syntax::Expr;
use overf::syntax::Form;
use overf::syntax::Stmt;
use overf::syntax::UnOp;
use overf::visitor::visit;

const OPS: [ArithOp; 5] = [ArithOp::Add, ArithOp::Sub, ArithOp::Mul, ArithOp::Div, ArithOp::Rem];

/// How a run ends without a value.
#[derive(Debug, PartialEq, Eq, Clone, Copy)]
enum Stop {
    /// The program panics.
    Abort,
    /// The function returns `None`.
    Exit,
}

/// The methods that the rewritten operators call, and the width in `i32`.
trait Int: Copy + PartialEq + std::fmt::Debug {
    fn wide(self) -> i32;
    fn checked(self, op: ArithOp, other: Self) -> Option<Self>;
    fn wrapping(self, op: ArithOp, other: Self) -> Self;
    fn saturating(self, op: ArithOp, other: Self) -> Self;
}

impl Int for i8 {
    fn wide(self) -> i32 {
        self as i32
    }

    fn checked(self, op: ArithOp, other: i8) -> Option<i8> {
        match op {
            ArithOp::Add => self.checked_add(other),
            ArithOp::Sub => self.checked_sub(other),
            ArithOp::Mul => self.checked_mul(other),
            ArithOp::Div => self.checked_div(other),
            ArithOp::Rem => self.checked_rem(other),
        }
    }

    fn wrapping(self, op: ArithOp, other: i8) -> i8 {
        match op {
            ArithOp::Add => self.wrapping_add(other),
            ArithOp::Sub => self.wrapping_sub(other),
            ArithOp::Mul => self.wrapping_mul(other),
            ArithOp::Div => self.wrapping_div(other),
            ArithOp::Rem => self.wrapping_rem(other),
        }
    }

    fn saturating(self, op: ArithOp, other: i8) -> i8 {
        match op {
            ArithOp::Add => self.saturating_add(other),
            ArithOp::Sub => self.saturating_sub(other),
            ArithOp::Mul => self.saturating_mul(other),
            ArithOp::Div => self.saturating_div(other),
            ArithOp::Rem => self.wrapping_rem(other),
        }
    }
}

impl Int for u8 {
    fn wide(self) -> i32 {
        self as i32
    }

    fn checked(self, op: ArithOp, other: u8) -> Option<u8> {
        match op {
            ArithOp::Add => self.checked_add(other),
            ArithOp::Sub => self.checked_sub(other),
            ArithOp::Mul => self.checked_mul(other),
            ArithOp::Div => self.checked_div(other),
            ArithOp::Rem => self.checked_rem(other),
        }
    }

    fn wrapping(self, op: ArithOp, other: u8) -> u8 {
        match op {
            ArithOp::Add => self.wrapping_add(other),
            ArithOp::Sub => self.wrapping_sub(other),
            ArithOp::Mul => self.wrapping_mul(other),
            ArithOp::Div => self.wrapping_div(other),
            ArithOp::Rem => self.wrapping_rem(other),
        }
    }

    fn saturating(self, op: ArithOp, other: u8) -> u8 {
        match op {
            ArithOp::Add => self.saturating_add(other),
            ArithOp::Sub => self.saturating_sub(other),
            ArithOp::Mul => self.saturating_mul(other),
            ArithOp::Div => self.saturating_div(other),
            ArithOp::Rem => self.wrapping_rem(other),
        }
    }
}

fn settle<T>(returned: Option<T>, outcome: &Disposition) -> Result<T, Stop> {
    match (returned, outcome) {
        (Some(value), Disposition::Abort { .. }) => Ok(value),
        (Some(value), Disposition::Propagate) => Ok(value),
        (None, Disposition::Abort { .. }) => Err(Stop::Abort),
        (None, Disposition::Propagate) => Err(Stop::Exit),
        (_, Disposition::Keep) => panic!("a checked method returns an option"),
    }
}

/// Runs a rewritten operator on the operands `a` and `b`, which stand in the
/// tree under these names.
fn run<T: Int>(e: &Expr, a: T, b: T) -> Result<T, Stop> {
    match e {
        Expr::Atom { text } if text == "a" => Ok(a),
        Expr::Atom { text } if text == "b" => Ok(b),
        Expr::Paren { inner } => run(inner, a, b),
        Expr::Arith { form, op, left, right, outcome } => {
            let x = run(left, a, b)?;
            let y = run(right, a, b)?;
            let by_zero = matches!(op, ArithOp::Div | ArithOp::Rem) && y.wide() == 0;
            match form {
                Form::Checked => settle(x.checked(*op, y), outcome),
                Form::Wrapping if by_zero => Err(Stop::Abort),
                Form::Saturating if by_zero => Err(Stop::Abort),
                Form::Wrapping => {
                    assert_eq!(*outcome, Disposition::Keep);
                    Ok(x.wrapping(*op, y))
                }
                Form::Saturating => {
                    assert_eq!(*outcome, Disposition::Keep);
                    Ok(x.saturating(*op, y))
                }
            }
        }
        other => panic!("not a rewritten operator: {:?}", other),
    }
}

fn rewritten(op: ArithOp, policy: Policy) -> Expr {
    let node = Expr::Binary {
        op: BinOp::Arith(op),
        left: Box::new(Expr::Atom { text: "a".to_string() }),
        right: Box::new(Expr::Atom { text: "b".to_string() }),
    };
    let out = visit(&Block { stmts: vec![Stmt::Expr { expr: node, semi: false }] }, policy);
    match out.stmts.into_iter().next() {
        Some(Stmt::Expr { expr, .. }) => expr,
        _ => unreachable!(),
    }
}

/// Runs a rewritten negation on the operand `x`, which stands in the tree
/// under this name.
fn run_negation(e: &Expr, x: i8) -> Result<i8, Stop> {
    match e {
        Expr::Negate { form, operand, outcome } => {
            assert_eq!(**operand, Expr::Atom { text: "x".to_string() });
            match form {
                Form::Checked => settle(x.checked_neg(), outcome),
                Form::Wrapping => Ok(x.wrapping_neg()),
                Form::Saturating => Ok(x.saturating_neg()),
            }
        }
        other => panic!("not a rewritten negation: {:?}", other),
    }
}

fn rewritten_negation(policy: Policy) -> Expr {
    let node = Expr::Unary {
        op: UnOp::Neg,
        operand: Box::new(Expr::Atom { text: "x".to_string() }),
    };
    let out = visit(&Block { stmts: vec![Stmt::Expr { expr: node, semi: false }] }, policy);
    match out.stmts.into_iter().next() {
        Some(Stmt::Expr { expr, .. }) => expr,
        _ => unreachable!(),
    }
}

/// Runs a rewritten compound assignment on a target that holds `a` and the
/// value `b`, and gives back what the target holds after it.
fn run_update<T: Int>(e: &Expr, a: T, b: T) -> Result<T, Stop> {
    match e {
        Expr::Update { form, op, target, value, outcome } => {
            assert_eq!(**target, Expr::Atom { text: "a".to_string() });
            assert_eq!(**value, Expr::Atom { text: "b".to_string() });
            let operator = Expr::Arith {
                form: *form,
                op: *op,
                left: target.clone(),
                right: value.clone(),
                outcome: outcome.clone(),
            };
            run(&operator, a, b)
        }
        other => panic!("not a rewritten compound assignment: {:?}", other),
    }
}

fn rewritten_update(op: ArithOp, policy: Policy) -> Expr {
    let node = Expr::AssignOp {
        op: overf::syntax::CompoundOp::Arith(op),
        target: Box::new(Expr::Atom { text: "a".to_string() }),
        value: Box::new(Expr::Atom { text: "b".to_string() }),
    };
    let out = visit(&Block { stmts: vec![Stmt::Expr { expr: node, semi: true }] }, policy);
    match out.stmts.into_iter().next() {
        Some(Stmt::Expr { expr, .. }) => expr,
        _ => unreachable!(),
    }
}

/// The true result of the operation, if it has one.
fn exact(op: ArithOp, a: i32, b: i32) -> Option<i32> {
    match op {
        ArithOp::Add => Some(a + b),
        ArithOp::Sub => Some(a - b),
        ArithOp::Mul => Some(a * b),
        ArithOp::Div if b != 0 => Some(a / b),
        ArithOp::Rem if b != 0 => Some(a % b),
        _ => None,
    }
}

/// Whether the operation overflows between `min` and `max`: a remainder
/// overflows where the division does.
fn overflows(op: ArithOp, a: i32, b: i32, min: i32, max: i32) -> bool {
    let decisive = match op {
        ArithOp::Rem => exact(ArithOp::Div, a, b),
        _ => exact(op, a, b),
    };
    match decisive {
        Some(result) => result < min || result > max,
        None => false,
    }
}

fn check_every_pair<T: Int>(values: Vec<T>, min: i32, max: i32) {
    for op in OPS {
        let checked = rewritten(op, Policy::Checked);
        let overflowing = rewritten(op, Policy::Overflowing);
        let saturating = rewritten(op, Policy::Saturating);
        let propagating = rewritten(op, Policy::Propagating);
        for &a in &values {
            for &b in &values {
                match exact(op, a.wide(), b.wide()) {
                    None => {
                        assert_eq!(run(&checked, a, b), Err(Stop::Abort));
                        assert_eq!(run(&overflowing, a, b), Err(Stop::Abort));
                        assert_eq!(run(&saturating, a, b), Err(Stop::Abort));
                        assert_eq!(run(&propagating, a, b), Err(Stop::Exit));
                    }
                    Some(result) if !overflows(op, a.wide(), b.wide(), min, max) => {
                        assert_eq!(run(&checked, a, b).map(Int::wide), Ok(result));
                        assert_eq!(run(&overflowing, a, b).map(Int::wide), Ok(result));
                        assert_eq!(run(&propagating, a, b).map(Int::wide), Ok(result));
                        assert_eq!(run(&saturating, a, b).map(Int::wide), Ok(result));
                    }
                    Some(result) => {
                        assert_eq!(run(&checked, a, b), Err(Stop::Abort));
                        assert_eq!(run(&propagating, a, b), Err(Stop::Exit));
                        let wrapped = run(&overflowing, a, b).expect("wrapping never stops").wide();
                        assert!(min <= wrapped && wrapped <= max);
                        assert_eq!((wrapped - result).rem_euclid(max - min + 1), 0);
                        let clamped = run(&saturating, a, b).map(Int::wide);
                        if result > max {
                            assert_eq!(clamped, Ok(max));
                        } else if result < min {
                            assert_eq!(clamped, Ok(min));
                        } else {
                            // the remainder of the least value by -1: it
                            // fits, though the division overflows
                            assert_eq!(clamped, Ok(result));
                        }
                    }
                }
            }
        }
    }
}

#[test]
fn every_pair_of_i8_under_every_policy() {
    check_every_pair((i8::MIN..=i8::MAX).collect(), i8::MIN as i32, i8::MAX as i32);
}

#[test]
fn every_pair_of_u8_under_every_policy() {
    check_every_pair((u8::MIN..=u8::MAX).collect(), u8::MIN as i32, u8::MAX as i32);
}

#[test]
fn without_overflow_every_policy_gives_the_result_of_the_operator() {
    for policy in [Policy::Checked, Policy::Overflowing, Policy::Saturating, Policy::Propagating] {
        assert_eq!(run(&rewritten(ArithOp::Add, policy), 100i8, 27i8), Ok(100i8 + 27i8));
        assert_eq!(run(&rewritten(ArithOp::Sub, policy), 5u8, 5u8), Ok(5u8 - 5u8));
        assert_eq!(run(&rewritten(ArithOp::Mul, policy), -8i8, 16i8), Ok(-8i8 * 16i8));
        assert_eq!(run(&rewritten(ArithOp::Div, policy), -7i8, 2i8), Ok(-7i8 / 2i8));
    }
    for policy in [Policy::Checked, Policy::Overflowing, Policy::Propagating] {
        assert_eq!(run(&rewritten(ArithOp::Rem, policy), -7i8, 2i8), Ok(-7i8 % 2i8));
    }
}

#[test]
fn checked_aborts_on_overflow() {
    assert_eq!(run(&rewritten(ArithOp::Add, Policy::Checked), 200u8, 100u8), Err(Stop::Abort));
    assert_eq!(run(&rewritten(ArithOp::Sub, Policy::Checked), 0u8, 1u8), Err(Stop::Abort));
    assert_eq!(run(&rewritten(ArithOp::Mul, Policy::Checked), 64i8, 2i8), Err(Stop::Abort));
    assert_eq!(run(&rewritten(ArithOp::Div, Policy::Checked), i8::MIN, -1i8), Err(Stop::Abort));
    assert_eq!(run(&rewritten(ArithOp::Rem, Policy::Checked), i8::MIN, -1i8), Err(Stop::Abort));
    assert_eq!(run(&rewritten(ArithOp::Div, Policy::Checked), 1i8, 0i8), Err(Stop::Abort));
}

#[test]
fn overflowing_wraps_around() {
    assert_eq!(run(&rewritten(ArithOp::Add, Policy::Overflowing), 200u8, 100u8), Ok(44u8));
    assert_eq!(run(&rewritten(ArithOp::Sub, Policy::Overflowing), 0u8, 1u8), Ok(255u8));
    assert_eq!(run(&rewritten(ArithOp::Mul, Policy::Overflowing), 64i8, 2i8), Ok(-128i8));
    assert_eq!(run(&rewritten(ArithOp::Add, Policy::Overflowing), 127i8, 1i8), Ok(-128i8));
    assert_eq!(run(&rewritten(ArithOp::Div, Policy::Overflowing), i8::MIN, -1i8), Ok(i8::MIN));
    assert_eq!(run(&rewritten(ArithOp::Rem, Policy::Overflowing), i8::MIN, -1i8), Ok(0i8));
}

#[test]
fn saturating_clamps_to_the_bound_on_the_side_of_the_overflow() {
    assert_eq!(run(&rewritten(ArithOp::Add, Policy::Saturating), 200u8, 100u8), Ok(u8::MAX));
    assert_eq!(run(&rewritten(ArithOp::Sub, Policy::Saturating), 0u8, 1u8), Ok(u8::MIN));
    assert_eq!(run(&rewritten(ArithOp::Mul, Policy::Saturating), 64i8, 2i8), Ok(i8::MAX));
    assert_eq!(run(&rewritten(ArithOp::Mul, Policy::Saturating), 64i8, -3i8), Ok(i8::MIN));
    assert_eq!(run(&rewritten(ArithOp::Sub, Policy::Saturating), -100i8, 100i8), Ok(i8::MIN));
    assert_eq!(run(&rewritten(ArithOp::Div, Policy::Saturating), i8::MIN, -1i8), Ok(i8::MAX));
}

#[test]
fn propagating_leaves_the_function_on_overflow() {
    assert_eq!(run(&rewritten(ArithOp::Add, Policy::Propagating), 200u8, 100u8), Err(Stop::Exit));
    assert_eq!(run(&rewritten(ArithOp::Div, Policy::Propagating), 1u8, 0u8), Err(Stop::Exit));
    assert_eq!(run(&rewritten(ArithOp::Rem, Policy::Propagating), i8::MIN, -1i8), Err(Stop::Exit));
}

/// The text of `200u8 + 100u8` under the propagating policy, written out as
/// the body of a function: what stands after the operation does not run.
fn propagated(log: &mut Vec<&'static str>) -> Option<u8> {
    log.push("before");
    {
        log.push("inside");
        let sum = 200u8.checked_add(100u8)?;
        log.push("after, in the same block");
        let _ = sum;
    }
    log.push("after, in the enclosing block");
    Some(0)
}

#[test]
fn nothing_runs_after_a_propagated_overflow() {
    let literal = |digits: &str| Expr::Literal {
        digits: digits.to_string(),
        suffix: "u8".to_string(),
    };
    let sum = Expr::Binary {
        op: BinOp::Arith(ArithOp::Add),
        left: Box::new(literal("200")),
        right: Box::new(literal("100")),
    };
    let out = visit(
        &Block { stmts: vec![Stmt::Expr { expr: sum, semi: false }] },
        Policy::Propagating,
    );
    assert_eq!(render_block(&out), "200u8.checked_add(100u8)?");
    let mut log = Vec::new();
    assert_eq!(propagated(&mut log), None);
    assert_eq!(log, vec!["before", "inside"]);
}

#[test]
fn the_negation_of_every_i8_under_every_policy() {
    let checked = rewritten_negation(Policy::Checked);
    let overflowing = rewritten_negation(Policy::Overflowing);
    let saturating = rewritten_negation(Policy::Saturating);
    let propagating = rewritten_negation(Policy::Propagating);
    assert_eq!(
        render_expr(&checked),
        "x.checked_neg().expect(\"checked arithmetic failed in `-x`\")"
    );
    assert_eq!(render_expr(&overflowing), "x.wrapping_neg()");
    assert_eq!(render_expr(&saturating), "x.saturating_neg()");
    assert_eq!(render_expr(&propagating), "x.checked_neg()?");
    for x in i8::MIN..=i8::MAX {
        if x == i8::MIN {
            assert_eq!(run_negation(&checked, x), Err(Stop::Abort));
            assert_eq!(run_negation(&overflowing, x), Ok(-128));
            assert_eq!(run_negation(&saturating, x), Ok(127));
            assert_eq!(run_negation(&propagating, x), Err(Stop::Exit));
        } else {
            assert_eq!(run_negation(&checked, x), Ok(-x));
            assert_eq!(run_negation(&overflowing, x), Ok(-x));
            assert_eq!(run_negation(&saturating, x), Ok(-x));
            assert_eq!(run_negation(&propagating, x), Ok(-x));
        }
    }
    assert_eq!(run_negation(&propagating, 5), Ok(-5));
    assert_eq!(run_negation(&propagating, -127), Ok(127));
    assert_eq!(
        render_expr(&rewritten_negation(Policy::Default)),
        "-x"
    );
}

#[test]
fn a_compound_assignment_stores_what_the_operator_yields() {
    for op in OPS {
        for policy in
            [Policy::Checked, Policy::Overflowing, Policy::Saturating, Policy::Propagating]
        {
            let update = rewritten_update(op, policy);
            let operator = rewritten(op, policy);
            for a in [i8::MIN, -100, -7, -1, 0, 1, 2, 64, 100, i8::MAX] {
                for b in [i8::MIN, -3, -1, 0, 1, 2, 100, i8::MAX] {
                    assert_eq!(run_update(&update, a, b), run(&operator, a, b));
                }
            }
        }
    }
    assert_eq!(run_update(&rewritten_update(ArithOp::Add, Policy::Saturating), 200u8, 100u8), Ok(255));
    assert_eq!(run_update(&rewritten_update(ArithOp::Add, Policy::Overflowing), 200u8, 100u8), Ok(44));
    assert_eq!(
        run_update(&rewritten_update(ArithOp::Add, Policy::Checked), 200u8, 100u8),
        Err(Stop::Abort)
    );
    assert_eq!(
        run_update(&rewritten_update(ArithOp::Add, Policy::Propagating), 200u8, 100u8),
        Err(Stop::Exit)
    );
}

/// The text of `v[next()] += b` under the overflowing policy, written out:
/// `next` is called once, and the element that is read is the one written.
fn updated(v: &mut Vec<u8>, calls: &mut usize, b: u8) {
    let mut next = || {
        *calls += 1;
        *calls
    };
    match (b, &mut v[next()]) { (value, place) => *place = (*place).wrapping_add(value) };
}

#[test]
fn the_target_of_a_compound_assignment_is_evaluated_once() {
    let target = Expr::Other {
        parts: vec![
            overf::syntax::Part::Expr { expr: Expr::Atom { text: "v".to_string() } },
            overf::syntax::Part::Tokens { text: "[".to_string() },
            overf::syntax::Part::Expr {
                expr: Expr::Other {
                    parts: vec![
                        overf::syntax::Part::Expr { expr: Expr::Atom { text: "next".to_string() } },
                        overf::syntax::Part::Tokens { text: "(".to_string() },
                        overf::syntax::Part::Tokens { text: ")".to_string() },
                    ],
                },
            },
            overf::syntax::Part::Tokens { text: "]".to_string() },
        ],
    };
    let node = Expr::AssignOp {
        op: overf::syntax::CompoundOp::Arith(ArithOp::Add),
        target: Box::new(target),
        value: Box::new(Expr::Atom { text: "b".to_string() }),
    };
    for policy in [Policy::Checked, Policy::Overflowing, Policy::Saturating, Policy::Propagating] {
        let out = visit(
            &Block { stmts: vec![Stmt::Expr { expr: node.clone(), semi: true }] },
            policy,
        );
        let text = render_block(&out);
        let code = text.split(".expect(").next().unwrap();
        assert_eq!(code.matches("next").count(), 1, "the text was: {}", text);
    }
    let out = visit(
        &Block { stmts: vec![Stmt::Expr { expr: node, semi: true }] },
        Policy::Overflowing,
    );
    assert_eq!(
        render_block(&out),
        "match (b, &mut (v [ next ( ) ])) \
         { (value, place) => *place = (*place).wrapping_add(value) };"
    );
    let mut v = vec![10, 20, 30];
    let mut calls = 0;
    updated(&mut v, &mut calls, 250);
    assert_eq!(calls, 1);
    assert_eq!(v, vec![10, 14, 30]);
}

#[test]
fn the_rewritten_negation_calls_the_negating_method() {
    let negation = Expr::Unary {
        op: UnOp::Neg,
        operand: Box::new(Expr::Paren {
            inner: Box::new(Expr::Cast {
                operand: Box::new(Expr::Atom { text: "x".to_string() }),
                ty: "i8".to_string(),
            }),
        }),
    };
    let text = |policy: Policy| {
        let out =
            visit(&Block { stmts: vec![Stmt::Expr { expr: negation.clone(), semi: false }] }, policy);
        render_block(&out)
    };
    let x = -128i16;
    assert_eq!(text(Policy::Propagating), "(x as i8).checked_neg()?");
    assert_eq!((x as i8).checked_neg(), None);
    assert_eq!((5i16 as i8).checked_neg(), Some(-5));
    assert_eq!(text(Policy::Overflowing), "(x as i8).wrapping_neg()");
    assert_eq!((x as i8).wrapping_neg(), i8::MIN);
    assert_eq!(text(Policy::Saturating), "(x as i8).saturating_neg()");
    assert_eq!((x as i8).saturating_neg(), i8::MAX);
    assert_eq!(
        text(Policy::Checked),
        "(x as i8).checked_neg().expect(\"checked arithmetic failed in `-(x as i8)`\")"
    );
    assert_eq!(text(Policy::Default), "-(x as i8)");
}

#[test]
fn the_saturating_remainder_calls_the_wrapping_method() {
    assert_eq!(render_expr(&rewritten(ArithOp::Rem, Policy::Saturating)), "a.wrapping_rem(b)");
    assert_eq!(run(&rewritten(ArithOp::Rem, Policy::Saturating), i8::MIN, -1i8), Ok(0i8));
    assert_eq!(run(&rewritten(ArithOp::Rem, Policy::Saturating), -7i8, 2i8), Ok(-1i8));
    assert_eq!(run(&rewritten(ArithOp::Rem, Policy::Saturating), 7u8, 0u8), Err(Stop::Abort));
}
