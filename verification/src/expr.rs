//! The expression rewriter: what one node becomes under a policy.
//!
//! The rewriter looks at the shape of the node it is handed and at nothing
//! below it. It knows no types: it trusts that the method it calls is
//! defined for whatever the operand is.

use vstd::prelude::*;

use crate::block::Policy;
use crate::render::expr_text;
use crate::render::render_expr;
use crate::syntax::BinOp;
use crate::syntax::CompoundOp;
use crate::syntax::Expr;
use crate::syntax::ExprView;
use crate::syntax::UnOp;

verus! {

/// Whether the top node of `e` is an arithmetic operator that the policies
/// replace: one of the five binary operators, its compound assignment, or a
/// negation. The negation of a numeric literal is none: together they are
/// the literal of a negative number, which is left as it is written.
pub open spec fn is_arithmetic(e: ExprView) -> bool {
    match e {
        ExprView::Binary { op: BinOp::Arith(_), .. } => true,
        ExprView::AssignOp { op: CompoundOp::Arith(_), .. } => true,
        ExprView::Unary { op: UnOp::Neg, operand } => !(*operand is Literal),
        _ => false,
    }
}

/// Tells whether the top node of `e` is an arithmetic operator that the
/// policies replace.
pub fn arithmetic(e: &Expr) -> (b: bool)
    ensures
        b == is_arithmetic(e@),
{
    proof {
        reveal_with_fuel(Expr::model, 2);
    }
    match e {
        Expr::Binary { op: BinOp::Arith(_), .. } => true,
        Expr::AssignOp { op: CompoundOp::Arith(_), .. } => true,
        Expr::Unary { op: UnOp::Neg, operand } => match **operand {
            Expr::Literal { .. } => false,
            _ => true,
        },
        _ => false,
    }
}

/// What the node `e` becomes under `policy`, its operands left as they are.
///
/// A binary arithmetic operator, a compound arithmetic assignment and a
/// negation become what the policy puts in their place, with the text of
/// the node as it was written. Every other node, the negation of a numeric
/// literal among them, and every node under the default policy, stays.
pub open spec fn rewritten(e: ExprView, policy: Policy) -> ExprView {
    match e {
        ExprView::Binary { op: BinOp::Arith(op), left, right } => policy.binary_spec(
            op,
            *left,
            *right,
            expr_text(e),
        ),
        ExprView::AssignOp { op: CompoundOp::Arith(op), target, value } => policy.compound_spec(
            op,
            *target,
            *value,
            expr_text(e),
        ),
        ExprView::Unary { op: UnOp::Neg, operand } => if *operand is Literal {
            e
        } else {
            policy.negation_spec(*operand, expr_text(e))
        },
        _ => e,
    }
}

/// The text of `e` where `policy` reports it, and no text where it does not.
pub fn source_for(policy: Policy, e: &Expr) -> (out: String)
    ensures
        policy.reports() ==> out@ == expr_text(e@),
{
    if policy.is_reporting() {
        render_expr(e)
    } else {
        String::new()
    }
}

/// Rewrites the node `e` under `policy`, leaving its operands as they are.
pub fn rewrite(e: &Expr, policy: Policy) -> (out: Expr)
    ensures
        out@ == rewritten(e@, policy),
{
    match e {
        Expr::Binary { op: BinOp::Arith(op), left, right } => {
            let source = source_for(policy, e);
            policy.binary(*op, (**left).clone(), (**right).clone(), source.as_str())
        },
        Expr::AssignOp { op: CompoundOp::Arith(op), target, value } => {
            let source = source_for(policy, e);
            policy.compound(*op, (**target).clone(), (**value).clone(), source.as_str())
        },
        Expr::Unary { op: UnOp::Neg, operand } => {
            if arithmetic(e) {
                let source = source_for(policy, e);
                policy.negation((**operand).clone(), source.as_str())
            } else {
                e.clone()
            }
        },
        _ => e.clone(),
    }
}

} // verus!
