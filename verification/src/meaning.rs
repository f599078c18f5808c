//! What the rewritten arithmetic computes.
//!
//! A small model of integer arithmetic at a fixed width: the result that each
//! family of methods returns, what each disposition makes of it, and the
//! outcome of an expression built from operands whose values are given. The
//! laws of the policies are stated and proved over this model.
//!
//! The model follows control, not data: the value of a name is given from
//! outside and is not changed by what the block does, and token text that
//! the library does not read is taken to do nothing. Of an expression that
//! the library keeps as token text around its parts the model says only
//! whether it comes to an end, and that only where each of its parts does,
//! whichever of them are evaluated.

use vstd::arithmetic::div_mod::lemma_fundamental_div_mod;
use vstd::arithmetic::div_mod::lemma_mod_bound;
use vstd::arithmetic::div_mod::lemma_mod_multiples_basic;
use vstd::arithmetic::div_mod::lemma_mod_self_0;
use vstd::arithmetic::div_mod::lemma_small_mod;
use vstd::arithmetic::power2::lemma_pow2_pos;
use vstd::arithmetic::power2::lemma_pow2_unfold;
use vstd::arithmetic::power2::pow2;
use vstd::prelude::*;

use crate::block::ArithOp;
use crate::block::Policy;
use crate::render::method_form;
use crate::syntax::BinOp;
use crate::syntax::CompoundOp;
use crate::syntax::DispositionView;
use crate::syntax::ExprView;
use crate::syntax::Form;
use crate::syntax::PartView;
use crate::syntax::StmtView;
use crate::syntax::UnOp;
use crate::visitor::visited_expr;
use crate::visitor::visited_part;
use crate::visitor::visited_parts;
use crate::visitor::visited_stmt;
use crate::visitor::visited_stmts;

verus! {

/// An integer type: its width in bits, at least one, and whether it is
/// signed.
pub struct IntType {
    pub bits: nat,
    pub signed: bool,
}

impl IntType {
    /// The number of values of the type: two to its width.
    pub open spec fn modulus(self) -> int {
        pow2(self.bits) as int
    }

    /// The least value of the type.
    pub open spec fn min(self) -> int {
        if self.signed {
            -(pow2((self.bits - 1) as nat) as int)
        } else {
            0
        }
    }

    /// The greatest value of the type.
    pub open spec fn max(self) -> int {
        if self.signed {
            pow2((self.bits - 1) as nat) - 1
        } else {
            pow2(self.bits) - 1
        }
    }

    /// Whether `v` is a value of the type.
    pub open spec fn fits(self, v: int) -> bool {
        self.min() <= v <= self.max()
    }

    /// The value of the type that differs from `v` by a multiple of the
    /// modulus.
    pub open spec fn wrapped(self, v: int) -> int {
        self.min() + (v - self.min()) % self.modulus()
    }

    /// The value of the type nearest to `v`.
    pub open spec fn clamped(self, v: int) -> int {
        if v < self.min() {
            self.min()
        } else if v > self.max() {
            self.max()
        } else {
            v
        }
    }
}

/// The distance of `v` from zero.
pub open spec fn magnitude(v: int) -> int {
    if v < 0 {
        -v
    } else {
        v
    }
}

/// The quotient of `a` by `b`, rounded towards zero. `b` is not zero.
pub open spec fn quotient(a: int, b: int) -> int {
    let size = magnitude(a) / magnitude(b);
    if (a < 0) == (b < 0) {
        size
    } else {
        -size
    }
}

/// The true result of `a op b`, over all the integers. For division and
/// remainder `b` is not zero.
pub open spec fn exact(op: ArithOp, a: int, b: int) -> int {
    match op {
        ArithOp::Add => a + b,
        ArithOp::Sub => a - b,
        ArithOp::Mul => a * b,
        ArithOp::Div => quotient(a, b),
        ArithOp::Rem => a - b * quotient(a, b),
    }
}

/// Whether `a op b` has a result at all: division and remainder by zero
/// have none.
pub open spec fn defined(op: ArithOp, b: int) -> bool {
    (op == ArithOp::Div || op == ArithOp::Rem) ==> b != 0
}

/// Whether `a op b` overflows in `ty`: its true result is no value of the
/// type. A remainder overflows where the division does.
pub open spec fn overflows(op: ArithOp, ty: IntType, a: int, b: int) -> bool {
    match op {
        ArithOp::Rem => !ty.fits(quotient(a, b)),
        _ => !ty.fits(exact(op, a, b)),
    }
}

/// What a method of one of the families hands back.
pub enum Returned {
    /// A value of the type, from a method that returns one.
    Plain(int),
    /// `Some` of a value of the type, from a checked method.
    Present(int),
    /// `None`, from a checked method.
    Absent,
    /// Nothing: the method panics.
    Panics,
}

/// What the method that is called for `op` in the family `form` returns on
/// `a` and `b`. For the saturating remainder that is the wrapping method.
///
/// A checked method returns nothing where the operation has no result or
/// overflows. A wrapping method returns the true result wrapped into the
/// type, a saturating method the true result clamped to it; both panic where
/// the divisor is zero.
pub open spec fn method_result(form: Form, op: ArithOp, ty: IntType, a: int, b: int) -> Returned {
    match method_form(form, op) {
        Form::Checked => if defined(op, b) && !overflows(op, ty, a, b) {
            Returned::Present(exact(op, a, b))
        } else {
            Returned::Absent
        },
        Form::Wrapping => if defined(op, b) {
            Returned::Plain(ty.wrapped(exact(op, a, b)))
        } else {
            Returned::Panics
        },
        Form::Saturating => if defined(op, b) {
            Returned::Plain(ty.clamped(exact(op, a, b)))
        } else {
            Returned::Panics
        },
    }
}

/// What the negating method of the family `form` returns on `a`.
pub open spec fn negation_result(form: Form, ty: IntType, a: int) -> Returned {
    match form {
        Form::Checked => if ty.fits(-a) {
            Returned::Present(-a)
        } else {
            Returned::Absent
        },
        Form::Wrapping => Returned::Plain(ty.wrapped(-a)),
        Form::Saturating => Returned::Plain(ty.clamped(-a)),
    }
}

/// How the evaluation of an expression ends.
pub enum Outcome {
    /// With this value. An assignment ends with the value that it stores.
    Value(int),
    /// With a value that the model does not follow.
    Done,
    /// With the program aborted.
    Abort,
    /// With the enclosing function left early, without a result.
    Exit,
    /// In a way that the model does not determine: an operator of the
    /// language overflowed, an operand has a value that the model does not
    /// follow, or a part that may or may not run does not end with a value.
    Unknown,
}

impl Outcome {
    /// Whether the evaluation comes to its end, so that what follows runs.
    pub open spec fn completes(self) -> bool {
        self is Value || self is Done
    }

    /// The same end, with the value forgotten.
    pub open spec fn forgotten(self) -> Outcome {
        if self.completes() {
            Outcome::Done
        } else {
            self
        }
    }

    /// How two evaluations end, one after the other: as the first where it
    /// does not complete, as the second where it does.
    pub open spec fn before(self, next: Outcome) -> Outcome {
        if self.completes() {
            next
        } else {
            self
        }
    }
}

/// What two operands, evaluated one after the other, hand to an operation.
pub enum Operands2 {
    /// Their values.
    Both(int, int),
    /// No values: the evaluation ends here, in this way.
    Stop(Outcome),
}

/// What two operands hand to an operation, from how the evaluation of the
/// first and of the second ends. Where one of them ends with a value that
/// the model does not follow, so does the operation, in a way that the model
/// does not determine.
pub open spec fn operands2(first: Outcome, second: Outcome) -> Operands2 {
    match (first, second) {
        (Outcome::Value(a), Outcome::Value(b)) => Operands2::Both(a, b),
        (Outcome::Value(_), Outcome::Done) => Operands2::Stop(Outcome::Unknown),
        (Outcome::Done, Outcome::Value(_)) => Operands2::Stop(Outcome::Unknown),
        (Outcome::Done, Outcome::Done) => Operands2::Stop(Outcome::Unknown),
        (Outcome::Value(_), other) => Operands2::Stop(other),
        (Outcome::Done, other) => Operands2::Stop(other),
        (other, _) => Operands2::Stop(other),
    }
}

/// What a disposition makes of what a method returned.
pub open spec fn settle(returned: Returned, outcome: DispositionView) -> Outcome {
    match (returned, outcome) {
        (Returned::Panics, _) => Outcome::Abort,
        (Returned::Plain(v), DispositionView::Keep) => Outcome::Value(v),
        (Returned::Present(v), DispositionView::Abort { .. }) => Outcome::Value(v),
        (Returned::Present(v), DispositionView::Propagate) => Outcome::Value(v),
        (Returned::Absent, DispositionView::Abort { .. }) => Outcome::Abort,
        (Returned::Absent, DispositionView::Propagate) => Outcome::Exit,
        _ => Outcome::Unknown,
    }
}

/// What an operator of the language itself does on `a` and `b`: the true
/// result where there is one and it fits. Division and remainder abort where
/// they have no result or overflow; what the other operators do on overflow
/// is left open.
pub open spec fn host_result(op: ArithOp, ty: IntType, a: int, b: int) -> Outcome {
    if defined(op, b) && !overflows(op, ty, a, b) {
        Outcome::Value(exact(op, a, b))
    } else if op == ArithOp::Div || op == ArithOp::Rem {
        Outcome::Abort
    } else {
        Outcome::Unknown
    }
}

/// What the negation of the language itself does on a value.
pub open spec fn host_negation(ty: IntType, a: int) -> Outcome {
    if ty.fits(-a) {
        Outcome::Value(-a)
    } else {
        Outcome::Unknown
    }
}

/// The values of the operands: of each run of token text, the integer that
/// it stands for.
pub type Operands = spec_fn(Seq<char>) -> int;

/// How the evaluation of `e` ends in the type `ty`.
///
/// The operands of a binary operator and of a method are evaluated from left
/// to right. An assignment evaluates its value before the place of its
/// target, as the language does for integers; so do a compound assignment
/// and what stands in its place. A nested invocation ends as the statements
/// of its block do, as they stand.
pub open spec fn eval(e: ExprView, operands: Operands, ty: IntType) -> Outcome
    decreases e,
{
    match e {
        ExprView::Atom { text } => if ty.fits(operands(text)) {
            Outcome::Value(operands(text))
        } else {
            Outcome::Unknown
        },
        ExprView::Literal { digits, suffix } => if ty.fits(operands(digits + suffix)) {
            Outcome::Value(operands(digits + suffix))
        } else {
            Outcome::Unknown
        },
        ExprView::Paren { inner } => eval(*inner, operands, ty),
        ExprView::Cast { operand, .. } => eval(*operand, operands, ty).forgotten(),
        ExprView::Unary { op, operand } => match op {
            UnOp::Neg => match eval(*operand, operands, ty) {
                Outcome::Value(a) => host_negation(ty, a),
                Outcome::Done => Outcome::Unknown,
                other => other,
            },
            _ => eval(*operand, operands, ty).forgotten(),
        },
        ExprView::Binary { op, left, right } => match op {
            BinOp::Arith(arith) => match operands2(
                eval(*left, operands, ty),
                eval(*right, operands, ty),
            ) {
                Operands2::Both(a, b) => host_result(arith, ty, a, b),
                Operands2::Stop(end) => end,
            },
            BinOp::Logic(_) => if !eval(*left, operands, ty).completes() {
                eval(*left, operands, ty)
            } else if eval(*right, operands, ty).completes() {
                Outcome::Done
            } else {
                Outcome::Unknown
            },
            _ => eval(*left, operands, ty).before(eval(*right, operands, ty).forgotten()),
        },
        ExprView::Assign { target, value } => if !eval(*value, operands, ty).completes() {
            eval(*value, operands, ty)
        } else if !eval(*target, operands, ty).completes() {
            eval(*target, operands, ty)
        } else {
            eval(*value, operands, ty)
        },
        ExprView::AssignOp { op, target, value } => match op {
            CompoundOp::Arith(arith) => match operands2(
                eval(*value, operands, ty),
                eval(*target, operands, ty),
            ) {
                Operands2::Both(b, a) => host_result(arith, ty, a, b),
                Operands2::Stop(end) => end,
            },
            _ => eval(*value, operands, ty).before(eval(*target, operands, ty).forgotten()),
        },
        ExprView::Scope { body, .. } => run(body, operands, ty),
        ExprView::Other { parts } => if parts_complete(parts, operands, ty) {
            Outcome::Done
        } else {
            Outcome::Unknown
        },
        ExprView::Arith { form, op, left, right, outcome } => match operands2(
            eval(*left, operands, ty),
            eval(*right, operands, ty),
        ) {
            Operands2::Both(a, b) => settle(method_result(form, op, ty, a, b), outcome),
            Operands2::Stop(end) => end,
        },
        ExprView::Negate { form, operand, outcome } => match eval(*operand, operands, ty) {
            Outcome::Value(a) => settle(negation_result(form, ty, a), outcome),
            Outcome::Done => Outcome::Unknown,
            other => other,
        },
        ExprView::Update { form, op, target, value, outcome } => match operands2(
            eval(*value, operands, ty),
            eval(*target, operands, ty),
        ) {
            Operands2::Both(b, a) => settle(method_result(form, op, ty, a, b), outcome),
            Operands2::Stop(end) => end,
        },
        ExprView::Malformed { .. } => Outcome::Unknown,
        ExprView::Diagnostic { .. } => Outcome::Unknown,
    }
}

/// How a part ends: token text does nothing.
pub open spec fn part_outcome(p: PartView, operands: Operands, ty: IntType) -> Outcome
    decreases p,
{
    match p {
        PartView::Tokens { .. } => Outcome::Done,
        PartView::Expr { expr } => eval(expr, operands, ty),
        PartView::Block { block } => run(block, operands, ty),
    }
}

/// Whether each of the parts comes to its end, whichever of them run.
pub open spec fn parts_complete(parts: Seq<PartView>, operands: Operands, ty: IntType) -> bool
    decreases parts,
{
    forall|i: int|
        0 <= i < parts.len() ==> part_outcome(#[trigger] parts[i], operands, ty).completes()
}

/// How the parts of a declaration end, one after the other: as the first
/// of them that does not complete, or as the last.
pub open spec fn parts_outcome(parts: Seq<PartView>, operands: Operands, ty: IntType) -> Outcome
    decreases parts,
{
    if parts.len() == 0 {
        Outcome::Done
    } else {
        parts_outcome(parts.drop_last(), operands, ty).before(
            part_outcome(parts.last(), operands, ty),
        )
    }
}

/// How a statement ends. A declaration has no value.
pub open spec fn stmt_outcome(s: StmtView, operands: Operands, ty: IntType) -> Outcome
    decreases s,
{
    match s {
        StmtView::Decl { parts } => parts_outcome(parts, operands, ty).forgotten(),
        StmtView::Expr { expr, .. } => eval(expr, operands, ty),
        StmtView::Block { block } => run(block, operands, ty),
    }
}

/// How statements end, one after the other: as the first of them that does
/// not complete, or as the last. What follows a statement that does not
/// complete does not run.
pub open spec fn run(stmts: Seq<StmtView>, operands: Operands, ty: IntType) -> Outcome
    decreases stmts,
{
    if stmts.len() == 0 {
        Outcome::Done
    } else {
        run(stmts.drop_last(), operands, ty).before(stmt_outcome(stmts.last(), operands, ty))
    }
}

/// The bounds of a type lie around zero, and the modulus is the number of
/// values between them.
pub proof fn lemma_bounds(ty: IntType)
    requires
        ty.bits >= 1,
    ensures
        ty.min() <= 0 <= ty.max(),
        ty.modulus() == ty.max() - ty.min() + 1,
        ty.modulus() > 0,
{
    lemma_pow2_pos(ty.bits);
    lemma_pow2_pos((ty.bits - 1) as nat);
    lemma_pow2_unfold(ty.bits);
}

/// Wrapping gives a value of the type that is congruent to what went in,
/// and changes nothing that fits.
pub proof fn lemma_wrapped(ty: IntType, v: int)
    requires
        ty.bits >= 1,
    ensures
        ty.fits(ty.wrapped(v)),
        (ty.wrapped(v) - v) % ty.modulus() == 0,
        ty.fits(v) ==> ty.wrapped(v) == v,
{
    lemma_bounds(ty);
    let m = ty.modulus();
    let x = v - ty.min();
    lemma_mod_bound(x, m);
    lemma_fundamental_div_mod(x, m);
    assert(ty.wrapped(v) - v == (-(x / m)) * m) by (nonlinear_arith)
        requires
            ty.wrapped(v) == ty.min() + x % m,
            x == v - ty.min(),
            x == m * (x / m) + x % m,
    ;
    lemma_mod_multiples_basic(-(x / m), m);
    if ty.fits(v) {
        lemma_small_mod(x as nat, m as nat);
    }
}

/// The remainder lies between zero and the dividend.
pub proof fn lemma_remainder_bounds(a: int, b: int)
    requires
        b != 0,
    ensures
        a >= 0 ==> 0 <= exact(ArithOp::Rem, a, b) <= a,
        a <= 0 ==> a <= exact(ArithOp::Rem, a, b) <= 0,
{
    let x = magnitude(a);
    let y = magnitude(b);
    lemma_fundamental_div_mod(x, y);
    lemma_mod_bound(x, y);
    assert(b * quotient(a, b) == (if a < 0 {
        -(y * (x / y))
    } else {
        y * (x / y)
    })) by (nonlinear_arith)
        requires
            x == magnitude(a),
            y == magnitude(b),
            b != 0,
            quotient(a, b) == (if (a < 0) == (b < 0) {
                x / y
            } else {
                -(x / y)
            }),
    ;
}

/// The wrapping remainder is the saturating one: the remainder of values of
/// the type is a value of the type, so that wrapping and clamping both
/// leave it as it is.
pub proof fn lemma_wrapping_remainder_saturates(ty: IntType, a: int, b: int)
    requires
        ty.bits >= 1,
        ty.fits(a),
        b != 0,
    ensures
        ty.fits(exact(ArithOp::Rem, a, b)),
        ty.wrapped(exact(ArithOp::Rem, a, b)) == exact(ArithOp::Rem, a, b),
        ty.clamped(exact(ArithOp::Rem, a, b)) == exact(ArithOp::Rem, a, b),
        method_result(Form::Saturating, ArithOp::Rem, ty, a, b) == Returned::Plain(
            ty.clamped(exact(ArithOp::Rem, a, b)),
        ),
{
    lemma_bounds(ty);
    lemma_remainder_bounds(a, b);
    lemma_wrapped(ty, exact(ArithOp::Rem, a, b));
}

/// What a method returns is a value of the type, where the operands are.
pub proof fn lemma_method_values_fit(form: Form, op: ArithOp, ty: IntType, a: int, b: int)
    requires
        ty.bits >= 1,
        ty.fits(a),
        ty.fits(b),
    ensures
        method_result(form, op, ty, a, b) matches Returned::Plain(v) ==> ty.fits(v),
        method_result(form, op, ty, a, b) matches Returned::Present(v) ==> ty.fits(v) && v
            == exact(op, a, b),
        host_result(op, ty, a, b) matches Outcome::Value(v) ==> ty.fits(v),
{
    lemma_bounds(ty);
    if defined(op, b) {
        lemma_wrapped(ty, exact(op, a, b));
        if op == ArithOp::Rem {
            lemma_remainder_bounds(a, b);
        }
    }
}

/// Every value that an evaluation ends with is a value of the type.
pub proof fn lemma_values_fit(e: ExprView, operands: Operands, ty: IntType)
    requires
        ty.bits >= 1,
    ensures
        eval(e, operands, ty) matches Outcome::Value(v) ==> ty.fits(v),
    decreases e, 0nat,
{
    lemma_bounds(ty);
    match e {
        ExprView::Paren { inner } => {
            lemma_values_fit(*inner, operands, ty);
        },
        ExprView::Unary { operand, .. } => {
            lemma_values_fit(*operand, operands, ty);
        },
        ExprView::Binary { op, left, right } => {
            lemma_values_fit(*left, operands, ty);
            lemma_values_fit(*right, operands, ty);
            if let BinOp::Arith(arith) = op {
                if let Operands2::Both(a, b) = operands2(
                    eval(*left, operands, ty),
                    eval(*right, operands, ty),
                ) {
                    lemma_method_values_fit(Form::Checked, arith, ty, a, b);
                }
            }
        },
        ExprView::Assign { target, value } => {
            lemma_values_fit(*value, operands, ty);
            lemma_values_fit(*target, operands, ty);
        },
        ExprView::AssignOp { op, target, value } => {
            lemma_values_fit(*value, operands, ty);
            lemma_values_fit(*target, operands, ty);
            if let CompoundOp::Arith(arith) = op {
                if let Operands2::Both(b, a) = operands2(
                    eval(*value, operands, ty),
                    eval(*target, operands, ty),
                ) {
                    lemma_method_values_fit(Form::Checked, arith, ty, a, b);
                }
            }
        },
        ExprView::Scope { body, .. } => {
            lemma_run_values_fit(body, operands, ty);
        },
        ExprView::Arith { form, op, left, right, .. } => {
            lemma_values_fit(*left, operands, ty);
            lemma_values_fit(*right, operands, ty);
            if let Operands2::Both(a, b) = operands2(
                eval(*left, operands, ty),
                eval(*right, operands, ty),
            ) {
                lemma_method_values_fit(form, op, ty, a, b);
            }
        },
        ExprView::Negate { operand, .. } => {
            lemma_values_fit(*operand, operands, ty);
            if let Outcome::Value(a) = eval(*operand, operands, ty) {
                lemma_wrapped(ty, -a);
            }
        },
        ExprView::Update { form, op, target, value, .. } => {
            lemma_values_fit(*value, operands, ty);
            lemma_values_fit(*target, operands, ty);
            if let Operands2::Both(b, a) = operands2(
                eval(*value, operands, ty),
                eval(*target, operands, ty),
            ) {
                lemma_method_values_fit(form, op, ty, a, b);
            }
        },
        _ => {},
    }
}

/// Every value that a run of statements ends with is a value of the type.
pub proof fn lemma_run_values_fit(stmts: Seq<StmtView>, operands: Operands, ty: IntType)
    requires
        ty.bits >= 1,
    ensures
        run(stmts, operands, ty) matches Outcome::Value(v) ==> ty.fits(v),
    decreases stmts, 1nat,
{
    if stmts.len() > 0 {
        lemma_run_values_fit(stmts.drop_last(), operands, ty);
        let last = stmts.last();
        match last {
            StmtView::Decl { .. } => {},
            StmtView::Expr { expr, .. } => {
                lemma_values_fit(expr, operands, ty);
            },
            StmtView::Block { block } => {
                lemma_run_values_fit(block, operands, ty);
            },
        }
        assert(stmt_outcome(last, operands, ty) matches Outcome::Value(v) ==> ty.fits(v));
    }
}

/// Where an operation has a result and does not overflow, the rewritten
/// operator yields the true result under every policy, as the operator
/// itself does.
pub proof fn lemma_same_result_without_overflow(
    policy: Policy,
    op: ArithOp,
    left: ExprView,
    right: ExprView,
    source: Seq<char>,
    operands: Operands,
    ty: IntType,
    a: int,
    b: int,
)
    requires
        ty.bits >= 1,
        eval(left, operands, ty) == Outcome::Value(a),
        eval(right, operands, ty) == Outcome::Value(b),
        defined(op, b),
        !overflows(op, ty, a, b),
    ensures
        eval(policy.binary_spec(op, left, right, source), operands, ty) == Outcome::Value(
            exact(op, a, b),
        ),
        eval(
            ExprView::Binary { op: BinOp::Arith(op), left: Box::new(left), right: Box::new(right) },
            operands,
            ty,
        ) == Outcome::Value(exact(op, a, b)),
{
    lemma_values_fit(left, operands, ty);
    lemma_values_fit(right, operands, ty);
    lemma_method_values_fit(Form::Checked, op, ty, a, b);
    lemma_wrapped(ty, exact(op, a, b));
}

/// Where an operation has no result or overflows, the checked rewrite
/// aborts: it yields no value, wrapped, clamped or other.
pub proof fn lemma_checked_aborts_on_overflow(
    op: ArithOp,
    left: ExprView,
    right: ExprView,
    source: Seq<char>,
    operands: Operands,
    ty: IntType,
    a: int,
    b: int,
)
    requires
        eval(left, operands, ty) == Outcome::Value(a),
        eval(right, operands, ty) == Outcome::Value(b),
        !defined(op, b) || overflows(op, ty, a, b),
    ensures
        eval(Policy::Checked.binary_spec(op, left, right, source), operands, ty) == Outcome::Abort,
{
}

/// The overflowing rewrite of an operation that has a result yields a value
/// of the type that is congruent to the true result modulo two to the width
/// of the type, whether the operation overflows or not.
pub proof fn lemma_overflowing_wraps(
    op: ArithOp,
    left: ExprView,
    right: ExprView,
    source: Seq<char>,
    operands: Operands,
    ty: IntType,
    a: int,
    b: int,
)
    requires
        ty.bits >= 1,
        eval(left, operands, ty) == Outcome::Value(a),
        eval(right, operands, ty) == Outcome::Value(b),
        defined(op, b),
    ensures
        eval(Policy::Overflowing.binary_spec(op, left, right, source), operands, ty)
            == Outcome::Value(ty.wrapped(exact(op, a, b))),
        ty.fits(ty.wrapped(exact(op, a, b))),
        (ty.wrapped(exact(op, a, b)) - exact(op, a, b)) % ty.modulus() == 0,
{
    lemma_wrapped(ty, exact(op, a, b));
}

/// The saturating rewrite of an operation that has a result yields the
/// greatest value of the type where the true result lies above it, the
/// least where the true result lies below it, and the true result where it
/// is a value of the type, as that of a remainder always is.
pub proof fn lemma_saturating_clamps(
    op: ArithOp,
    left: ExprView,
    right: ExprView,
    source: Seq<char>,
    operands: Operands,
    ty: IntType,
    a: int,
    b: int,
)
    requires
        ty.bits >= 1,
        eval(left, operands, ty) == Outcome::Value(a),
        eval(right, operands, ty) == Outcome::Value(b),
        defined(op, b),
    ensures
        eval(Policy::Saturating.binary_spec(op, left, right, source), operands, ty)
            == Outcome::Value(ty.clamped(exact(op, a, b))),
        exact(op, a, b) > ty.max() ==> ty.clamped(exact(op, a, b)) == ty.max(),
        exact(op, a, b) < ty.min() ==> ty.clamped(exact(op, a, b)) == ty.min(),
        ty.fits(exact(op, a, b)) ==> ty.clamped(exact(op, a, b)) == exact(op, a, b),
        op == ArithOp::Rem ==> ty.fits(exact(op, a, b)),
{
    lemma_bounds(ty);
    lemma_values_fit(left, operands, ty);
    if op == ArithOp::Rem {
        lemma_wrapping_remainder_saturates(ty, a, b);
    }
}

/// Where an operation has no result or overflows, the propagating rewrite
/// leaves the enclosing function.
pub proof fn lemma_propagating_exits_on_overflow(
    op: ArithOp,
    left: ExprView,
    right: ExprView,
    source: Seq<char>,
    operands: Operands,
    ty: IntType,
    a: int,
    b: int,
)
    requires
        eval(left, operands, ty) == Outcome::Value(a),
        eval(right, operands, ty) == Outcome::Value(b),
        !defined(op, b) || overflows(op, ty, a, b),
    ensures
        eval(Policy::Propagating.binary_spec(op, left, right, source), operands, ty)
            == Outcome::Exit,
{
}

/// The overflowing and the saturating rewrite abort where the divisor is
/// zero, and nowhere else.
pub proof fn lemma_unchecked_forms_abort_on_zero_divisor(
    policy: Policy,
    op: ArithOp,
    left: ExprView,
    right: ExprView,
    source: Seq<char>,
    operands: Operands,
    ty: IntType,
    a: int,
    b: int,
)
    requires
        policy == Policy::Overflowing || policy == Policy::Saturating,
        eval(left, operands, ty) == Outcome::Value(a),
        eval(right, operands, ty) == Outcome::Value(b),
    ensures
        eval(policy.binary_spec(op, left, right, source), operands, ty) == Outcome::Abort
            <==> !defined(op, b),
{
}

/// The rewrites of a negation: each policy yields the negated value where
/// it is a value of the type; where it is none, the checked rewrite aborts,
/// the propagating one leaves the function, the overflowing one yields the
/// wrapped value, which is the least value of the type again, and the
/// saturating one the greatest value of the type.
pub proof fn lemma_negation(
    policy: Policy,
    operand: ExprView,
    source: Seq<char>,
    operands: Operands,
    ty: IntType,
    a: int,
)
    requires
        ty.bits >= 1,
        ty.signed,
        eval(operand, operands, ty) == Outcome::Value(a),
    ensures
        ({
            let out = eval(policy.negation_spec(operand, source), operands, ty);
            if ty.fits(-a) {
                out == Outcome::Value(-a)
            } else {
                &&& a == ty.min()
                &&& match policy {
                    Policy::Checked => out == Outcome::Abort,
                    Policy::Overflowing => out == Outcome::Value(ty.min()),
                    Policy::Saturating => out == Outcome::Value(ty.max()),
                    Policy::Propagating => out == Outcome::Exit,
                    Policy::Default => out == Outcome::Unknown,
                }
            }
        }),
{
    lemma_values_fit(operand, operands, ty);
    lemma_bounds(ty);
    lemma_wrapped(ty, -a);
    if !ty.fits(-a) {
        let m = ty.modulus();
        lemma_mod_self_0(m);
        assert(-a - ty.min() == m);
    }
}

/// What stands in place of a compound assignment stores what the rewritten
/// operator yields on target and value, under every policy, and ends as that
/// operator does where it yields nothing; under the default policy the
/// compound assignment stores what the operator itself yields. So every law
/// of the binary operators holds of the compound assignments.
pub proof fn lemma_compound_assignment_follows_operator(
    policy: Policy,
    op: ArithOp,
    target: ExprView,
    value: ExprView,
    source: Seq<char>,
    operands: Operands,
    ty: IntType,
)
    requires
        eval(target, operands, ty) is Value,
        eval(value, operands, ty) is Value,
    ensures
        eval(policy.compound_spec(op, target, value, source), operands, ty) == eval(
            policy.binary_spec(op, target, value, source),
            operands,
            ty,
        ),
{
}

/// An operand that does not complete ends the whole operation in the same
/// way: where the left operand of a rewritten operator leaves the function,
/// so does the operator, and the right operand is not evaluated.
pub proof fn lemma_operand_ends_operation(
    policy: Policy,
    op: ArithOp,
    left: ExprView,
    right: ExprView,
    source: Seq<char>,
    operands: Operands,
    ty: IntType,
)
    ensures
        ({
            let whole = eval(policy.binary_spec(op, left, right, source), operands, ty);
            let first = eval(left, operands, ty);
            let second = eval(right, operands, ty);
            &&& !first.completes() ==> whole == first
            &&& first.completes() && !second.completes() ==> whole == second
        }),
{
}

/// Nothing runs after a statement that does not complete: the statements up
/// to it and any statements after it end as that statement does.
pub proof fn lemma_nothing_runs_after(
    before: Seq<StmtView>,
    s: StmtView,
    after: Seq<StmtView>,
    operands: Operands,
    ty: IntType,
)
    requires
        run(before, operands, ty).completes(),
        !stmt_outcome(s, operands, ty).completes(),
    ensures
        run(before.push(s) + after, operands, ty) == stmt_outcome(s, operands, ty),
    decreases after.len(),
{
    let all = before.push(s) + after;
    if after.len() == 0 {
        assert(all.drop_last() =~= before);
    } else {
        assert(all.drop_last() =~= before.push(s) + after.drop_last());
        lemma_nothing_runs_after(before, s, after.drop_last(), operands, ty);
    }
}

/// A propagated overflow ends the block: where a statement is the
/// propagating rewrite of an operation that has no result or overflows, the
/// block leaves the function there, whatever statements follow.
pub proof fn lemma_propagated_overflow_ends_block(
    before: Seq<StmtView>,
    op: ArithOp,
    left: ExprView,
    right: ExprView,
    source: Seq<char>,
    semi: bool,
    after: Seq<StmtView>,
    operands: Operands,
    ty: IntType,
    a: int,
    b: int,
)
    requires
        run(before, operands, ty).completes(),
        eval(left, operands, ty) == Outcome::Value(a),
        eval(right, operands, ty) == Outcome::Value(b),
        !defined(op, b) || overflows(op, ty, a, b),
    ensures
        run(
            before.push(
                StmtView::Expr {
                    expr: Policy::Propagating.binary_spec(op, left, right, source),
                    semi,
                },
            ) + after,
            operands,
            ty,
        ) == Outcome::Exit,
{
    let s = StmtView::Expr { expr: Policy::Propagating.binary_spec(op, left, right, source), semi };
    lemma_propagating_exits_on_overflow(op, left, right, source, operands, ty, a, b);
    lemma_nothing_runs_after(before, s, after, operands, ty);
}

/// A nested block that does not complete ends the enclosing block in the
/// same way, whatever follows it there.
pub proof fn lemma_nested_block_ends_enclosing(
    before: Seq<StmtView>,
    inner: Seq<StmtView>,
    after: Seq<StmtView>,
    operands: Operands,
    ty: IntType,
)
    requires
        run(before, operands, ty).completes(),
        !run(inner, operands, ty).completes(),
    ensures
        run(before.push(StmtView::Block { block: inner }) + after, operands, ty) == run(
            inner,
            operands,
            ty,
        ),
{
    lemma_nothing_runs_after(before, StmtView::Block { block: inner }, after, operands, ty);
}

/// The visit changes no result: an expression that completes as it was
/// written, none of its operators overflowing, ends in the same way, with
/// the same value, after it was visited, under every policy.
pub proof fn lemma_visit_preserves_values(
    e: ExprView,
    policy: Policy,
    operands: Operands,
    ty: IntType,
)
    requires
        ty.bits >= 1,
    ensures
        eval(e, operands, ty).completes() ==> eval(visited_expr(e, policy), operands, ty) == eval(
            e,
            operands,
            ty,
        ),
    decreases e, 0nat,
{
    if eval(e, operands, ty).completes() {
        lemma_bounds(ty);
        match e {
            ExprView::Paren { inner } => {
                lemma_visit_preserves_values(*inner, policy, operands, ty);
            },
            ExprView::Cast { operand, .. } => {
                lemma_visit_preserves_values(*operand, policy, operands, ty);
            },
            ExprView::Unary { op, operand } => {
                lemma_visit_preserves_values(*operand, policy, operands, ty);
                if op == UnOp::Neg {
                    let a = eval(*operand, operands, ty)->Value_0;
                    lemma_wrapped(ty, -a);
                }
            },
            ExprView::Binary { op, left, right } => {
                lemma_visit_preserves_values(*left, policy, operands, ty);
                lemma_visit_preserves_values(*right, policy, operands, ty);
                if let BinOp::Arith(arith) = op {
                    lemma_values_fit(*left, operands, ty);
                    lemma_values_fit(*right, operands, ty);
                    let a = eval(*left, operands, ty)->Value_0;
                    let b = eval(*right, operands, ty)->Value_0;
                    lemma_method_values_fit(Form::Checked, arith, ty, a, b);
                    lemma_wrapped(ty, exact(arith, a, b));
                }
            },
            ExprView::Assign { target, value } => {
                lemma_visit_preserves_values(*target, policy, operands, ty);
                lemma_visit_preserves_values(*value, policy, operands, ty);
            },
            ExprView::AssignOp { op, target, value } => {
                lemma_visit_preserves_values(*target, policy, operands, ty);
                lemma_visit_preserves_values(*value, policy, operands, ty);
                if let CompoundOp::Arith(arith) = op {
                    lemma_values_fit(*target, operands, ty);
                    lemma_values_fit(*value, operands, ty);
                    let a = eval(*target, operands, ty)->Value_0;
                    let b = eval(*value, operands, ty)->Value_0;
                    lemma_method_values_fit(Form::Checked, arith, ty, a, b);
                    lemma_wrapped(ty, exact(arith, a, b));
                }
            },
            ExprView::Scope { policy: inner, body, .. } => {
                lemma_visit_preserves_run(body, inner, operands, ty);
            },
            ExprView::Other { parts } => {
                lemma_visit_preserves_completion(parts, policy, operands, ty);
            },
            ExprView::Arith { left, right, .. } => {
                lemma_visit_preserves_values(*left, policy, operands, ty);
                lemma_visit_preserves_values(*right, policy, operands, ty);
            },
            ExprView::Negate { operand, .. } => {
                lemma_visit_preserves_values(*operand, policy, operands, ty);
            },
            ExprView::Update { target, value, .. } => {
                lemma_visit_preserves_values(*target, policy, operands, ty);
                lemma_visit_preserves_values(*value, policy, operands, ty);
            },
            _ => {},
        }
    }
}

/// [`lemma_visit_preserves_values`], for one part.
pub proof fn lemma_visit_preserves_part(
    p: PartView,
    policy: Policy,
    operands: Operands,
    ty: IntType,
)
    requires
        ty.bits >= 1,
    ensures
        part_outcome(p, operands, ty).completes() ==> part_outcome(
            visited_part(p, policy),
            operands,
            ty,
        ) == part_outcome(p, operands, ty),
    decreases p, 2nat,
{
    match p {
        PartView::Tokens { .. } => {},
        PartView::Expr { expr } => {
            lemma_visit_preserves_values(expr, policy, operands, ty);
        },
        PartView::Block { block } => {
            lemma_visit_preserves_run(block, policy, operands, ty);
        },
    }
}

/// [`lemma_visit_preserves_values`], for the parts of an expression that is
/// kept as token text: where each of them completes, each of them still
/// does after the visit.
pub proof fn lemma_visit_preserves_completion(
    parts: Seq<PartView>,
    policy: Policy,
    operands: Operands,
    ty: IntType,
)
    requires
        ty.bits >= 1,
    ensures
        parts_complete(parts, operands, ty) ==> parts_complete(
            visited_parts(parts, policy),
            operands,
            ty,
        ),
    decreases parts, 3nat,
{
    if parts_complete(parts, operands, ty) {
        let out = visited_parts(parts, policy);
        assert(out.len() == parts.len());
        assert forall|i: int| 0 <= i < out.len() implies part_outcome(
            #[trigger] out[i],
            operands,
            ty,
        ).completes() by {
            assert(out[i] == visited_part(parts[i], policy));
            assert(part_outcome(parts[i], operands, ty).completes());
            lemma_visit_preserves_part(parts[i], policy, operands, ty);
        }
    }
}

/// [`lemma_visit_preserves_values`], for the parts of a declaration.
pub proof fn lemma_visit_preserves_parts(
    parts: Seq<PartView>,
    policy: Policy,
    operands: Operands,
    ty: IntType,
)
    requires
        ty.bits >= 1,
    ensures
        parts_outcome(parts, operands, ty).completes() ==> parts_outcome(
            visited_parts(parts, policy),
            operands,
            ty,
        ) == parts_outcome(parts, operands, ty),
    decreases parts, 3nat,
{
    if parts.len() > 0 && parts_outcome(parts, operands, ty).completes() {
        let out = visited_parts(parts, policy);
        assert(out.drop_last() =~= visited_parts(parts.drop_last(), policy));
        lemma_visit_preserves_parts(parts.drop_last(), policy, operands, ty);
        lemma_visit_preserves_part(parts.last(), policy, operands, ty);
    }
}

/// [`lemma_visit_preserves_values`], for statements: statements that run to
/// their end as they were written run to the same end after the visit.
pub proof fn lemma_visit_preserves_run(
    stmts: Seq<StmtView>,
    policy: Policy,
    operands: Operands,
    ty: IntType,
)
    requires
        ty.bits >= 1,
    ensures
        run(stmts, operands, ty).completes() ==> run(
            visited_stmts(stmts, policy),
            operands,
            ty,
        ) == run(stmts, operands, ty),
    decreases stmts, 3nat,
{
    if stmts.len() > 0 && run(stmts, operands, ty).completes() {
        let out = visited_stmts(stmts, policy);
        assert(out.drop_last() =~= visited_stmts(stmts.drop_last(), policy));
        lemma_visit_preserves_run(stmts.drop_last(), policy, operands, ty);
        let last = stmts.last();
        match last {
            StmtView::Decl { parts } => {
                lemma_visit_preserves_parts(parts, policy, operands, ty);
            },
            StmtView::Expr { expr, .. } => {
                lemma_visit_preserves_values(expr, policy, operands, ty);
            },
            StmtView::Block { block } => {
                lemma_visit_preserves_run(block, policy, operands, ty);
            },
        }
        assert(stmt_outcome(visited_stmt(last, policy), operands, ty) == stmt_outcome(
            last,
            operands,
            ty,
        ));
    }
}

} // verus!
