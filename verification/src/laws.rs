//! What holds of the visitor on every tree: scopes are lexical, the default
//! policy changes nothing, what is no arithmetic is left as it is, and a
//! second visit finds nothing to do.

use vstd::prelude::*;

use crate::block::Policy;
use crate::expr::is_arithmetic;
use crate::expr::rewritten;
use crate::render::expr_text;
use crate::render::is_primary;
use crate::render::method_name;
use crate::render::outcome_literal;
use crate::render::outcome_suffix;
use crate::render::receiver_text;
use crate::render::update_text;
use crate::block::ArithOp;
use crate::syntax::CompoundOp;
use crate::render::stmts_text;
use crate::syntax::BinOp;
use crate::syntax::Delimiter;
use crate::syntax::ExprView;
use crate::syntax::PartView;
use crate::syntax::StmtView;
use crate::syntax::UnOp;
use crate::visitor::visited_expr;
use crate::visitor::visited_part;
use crate::visitor::visited_parts;
use crate::visitor::visited_stmt;
use crate::visitor::visited_stmts;

verus! {

/// Whether an expression holds nothing for the visitor to change under
/// `policy`: no arithmetic operator, unless the policy is the default one;
/// no nested invocation whose content could not be read; and in the block of
/// a nested invocation nothing to change under the policy that it names.
pub open spec fn settled_expr(e: ExprView, policy: Policy) -> bool
    decreases e,
{
    match e {
        ExprView::Atom { .. } => true,
        ExprView::Literal { .. } => true,
        ExprView::Paren { inner } => settled_expr(*inner, policy),
        ExprView::Cast { operand, .. } => settled_expr(*operand, policy),
        ExprView::Unary { operand, .. } => !(policy.rewrites() && is_arithmetic(e))
            && settled_expr(*operand, policy),
        ExprView::Binary { left, right, .. } => !(policy.rewrites() && is_arithmetic(e))
            && settled_expr(*left, policy) && settled_expr(*right, policy),
        ExprView::Assign { target, value } => settled_expr(*target, policy) && settled_expr(
            *value,
            policy,
        ),
        ExprView::AssignOp { target, value, .. } => !(policy.rewrites() && is_arithmetic(e))
            && settled_expr(*target, policy) && settled_expr(*value, policy),
        ExprView::Scope { policy: inner, body, .. } => settled_stmts(body, inner),
        ExprView::Malformed { .. } => false,
        ExprView::Other { parts } => settled_parts(parts, policy),
        ExprView::Arith { left, right, .. } => settled_expr(*left, policy) && settled_expr(
            *right,
            policy,
        ),
        ExprView::Negate { operand, .. } => settled_expr(*operand, policy),
        ExprView::Update { target, value, .. } => settled_expr(*target, policy) && settled_expr(
            *value,
            policy,
        ),
        ExprView::Diagnostic { .. } => true,
    }
}

/// Whether a part holds nothing for the visitor to change under `policy`.
pub open spec fn settled_part(p: PartView, policy: Policy) -> bool
    decreases p,
{
    match p {
        PartView::Tokens { .. } => true,
        PartView::Expr { expr } => settled_expr(expr, policy),
        PartView::Block { block } => settled_stmts(block, policy),
    }
}

/// Whether none of the parts holds anything for the visitor to change under
/// `policy`.
pub open spec fn settled_parts(parts: Seq<PartView>, policy: Policy) -> bool
    decreases parts,
{
    forall|i: int| 0 <= i < parts.len() ==> settled_part(#[trigger] parts[i], policy)
}

/// Whether a statement holds nothing for the visitor to change under
/// `policy`.
pub open spec fn settled_stmt(s: StmtView, policy: Policy) -> bool
    decreases s,
{
    match s {
        StmtView::Decl { parts } => settled_parts(parts, policy),
        StmtView::Expr { expr, .. } => settled_expr(expr, policy),
        StmtView::Block { block } => settled_stmts(block, policy),
    }
}

/// Whether none of the statements holds anything for the visitor to change
/// under `policy`.
pub open spec fn settled_stmts(stmts: Seq<StmtView>, policy: Policy) -> bool
    decreases stmts,
{
    forall|i: int| 0 <= i < stmts.len() ==> settled_stmt(#[trigger] stmts[i], policy)
}

/// An expression that holds nothing for the visitor to change comes back as
/// it went in.
pub proof fn lemma_settled_expr_stays(e: ExprView, policy: Policy)
    requires
        settled_expr(e, policy),
    ensures
        visited_expr(e, policy) == e,
        expr_text(visited_expr(e, policy)) == expr_text(e),
    decreases e,
{
    match e {
        ExprView::Paren { inner } => {
            lemma_settled_expr_stays(*inner, policy);
        },
        ExprView::Cast { operand, .. } => {
            lemma_settled_expr_stays(*operand, policy);
        },
        ExprView::Unary { operand, .. } => {
            lemma_settled_expr_stays(*operand, policy);
        },
        ExprView::Binary { left, right, .. } => {
            lemma_settled_expr_stays(*left, policy);
            lemma_settled_expr_stays(*right, policy);
        },
        ExprView::Assign { target, value } => {
            lemma_settled_expr_stays(*target, policy);
            lemma_settled_expr_stays(*value, policy);
        },
        ExprView::AssignOp { target, value, .. } => {
            lemma_settled_expr_stays(*target, policy);
            lemma_settled_expr_stays(*value, policy);
        },
        ExprView::Other { parts } => {
            lemma_settled_parts_stay(parts, policy);
        },
        ExprView::Arith { left, right, .. } => {
            lemma_settled_expr_stays(*left, policy);
            lemma_settled_expr_stays(*right, policy);
        },
        ExprView::Negate { operand, .. } => {
            lemma_settled_expr_stays(*operand, policy);
        },
        ExprView::Update { target, value, .. } => {
            lemma_settled_expr_stays(*target, policy);
            lemma_settled_expr_stays(*value, policy);
        },
        ExprView::Scope { policy: inner, body, .. } => {
            lemma_settled_stmts_stay(body, inner);
        },
        _ => {},
    }
}

/// A part that holds nothing for the visitor to change comes back as it went
/// in.
pub proof fn lemma_settled_part_stays(p: PartView, policy: Policy)
    requires
        settled_part(p, policy),
    ensures
        visited_part(p, policy) == p,
    decreases p,
{
    match p {
        PartView::Tokens { .. } => {},
        PartView::Expr { expr } => {
            lemma_settled_expr_stays(expr, policy);
        },
        PartView::Block { block } => {
            lemma_settled_stmts_stay(block, policy);
        },
    }
}

/// Parts that hold nothing for the visitor to change come back as they went
/// in.
pub proof fn lemma_settled_parts_stay(parts: Seq<PartView>, policy: Policy)
    requires
        settled_parts(parts, policy),
    ensures
        visited_parts(parts, policy) == parts,
    decreases parts,
{
    assert forall|i: int| 0 <= i < parts.len() implies visited_part(parts[i], policy)
        == parts[i] by {
        lemma_settled_part_stays(parts[i], policy);
    }
}

/// A statement that holds nothing for the visitor to change comes back as it
/// went in.
pub proof fn lemma_settled_stmt_stays(s: StmtView, policy: Policy)
    requires
        settled_stmt(s, policy),
    ensures
        visited_stmt(s, policy) == s,
    decreases s,
{
    match s {
        StmtView::Decl { parts } => {
            lemma_settled_parts_stay(parts, policy);
        },
        StmtView::Expr { expr, .. } => {
            lemma_settled_expr_stays(expr, policy);
        },
        StmtView::Block { block } => {
            lemma_settled_stmts_stay(block, policy);
        },
    }
}

/// Statements that hold nothing for the visitor to change come back as they
/// went in, and so does their text.
pub proof fn lemma_settled_stmts_stay(stmts: Seq<StmtView>, policy: Policy)
    requires
        settled_stmts(stmts, policy),
    ensures
        visited_stmts(stmts, policy) == stmts,
        stmts_text(visited_stmts(stmts, policy)) == stmts_text(stmts),
    decreases stmts,
{
    assert forall|i: int| 0 <= i < stmts.len() implies visited_stmt(stmts[i], policy)
        == stmts[i] by {
        lemma_settled_stmt_stays(stmts[i], policy);
    }
    assert(visited_stmts(stmts, policy) =~= stmts);
}

/// A tree that is settled under a policy that rewrites is settled under
/// every policy, and a tree that is settled under any policy is settled
/// under the default one.
pub proof fn lemma_settled_under_every_policy(e: ExprView, one: Policy, other: Policy)
    requires
        settled_expr(e, one),
        one.rewrites() || !other.rewrites(),
    ensures
        settled_expr(e, other),
    decreases e,
{
    match e {
        ExprView::Paren { inner } => {
            lemma_settled_under_every_policy(*inner, one, other);
        },
        ExprView::Cast { operand, .. } => {
            lemma_settled_under_every_policy(*operand, one, other);
        },
        ExprView::Unary { operand, .. } => {
            lemma_settled_under_every_policy(*operand, one, other);
        },
        ExprView::Binary { left, right, .. } => {
            lemma_settled_under_every_policy(*left, one, other);
            lemma_settled_under_every_policy(*right, one, other);
        },
        ExprView::Assign { target, value } => {
            lemma_settled_under_every_policy(*target, one, other);
            lemma_settled_under_every_policy(*value, one, other);
        },
        ExprView::AssignOp { target, value, .. } => {
            lemma_settled_under_every_policy(*target, one, other);
            lemma_settled_under_every_policy(*value, one, other);
        },
        ExprView::Other { parts } => {
            lemma_parts_settled_under_every_policy(parts, one, other);
        },
        ExprView::Arith { left, right, .. } => {
            lemma_settled_under_every_policy(*left, one, other);
            lemma_settled_under_every_policy(*right, one, other);
        },
        ExprView::Negate { operand, .. } => {
            lemma_settled_under_every_policy(*operand, one, other);
        },
        ExprView::Update { target, value, .. } => {
            lemma_settled_under_every_policy(*target, one, other);
            lemma_settled_under_every_policy(*value, one, other);
        },
        _ => {},
    }
}

/// [`lemma_settled_under_every_policy`], for parts.
pub proof fn lemma_parts_settled_under_every_policy(
    parts: Seq<PartView>,
    one: Policy,
    other: Policy,
)
    requires
        settled_parts(parts, one),
        one.rewrites() || !other.rewrites(),
    ensures
        settled_parts(parts, other),
    decreases parts,
{
    assert forall|i: int| 0 <= i < parts.len() implies settled_part(
        #[trigger] parts[i],
        other,
    ) by {
        match parts[i] {
            PartView::Tokens { .. } => {},
            PartView::Expr { expr } => {
                lemma_settled_under_every_policy(expr, one, other);
            },
            PartView::Block { block } => {
                lemma_stmts_settled_under_every_policy(block, one, other);
            },
        }
    }
}

/// [`lemma_settled_under_every_policy`], for statements.
pub proof fn lemma_stmts_settled_under_every_policy(
    stmts: Seq<StmtView>,
    one: Policy,
    other: Policy,
)
    requires
        settled_stmts(stmts, one),
        one.rewrites() || !other.rewrites(),
    ensures
        settled_stmts(stmts, other),
    decreases stmts,
{
    assert forall|i: int| 0 <= i < stmts.len() implies settled_stmt(
        #[trigger] stmts[i],
        other,
    ) by {
        match stmts[i] {
            StmtView::Decl { parts } => {
                lemma_parts_settled_under_every_policy(parts, one, other);
            },
            StmtView::Expr { expr, .. } => {
                lemma_settled_under_every_policy(expr, one, other);
            },
            StmtView::Block { block } => {
                lemma_stmts_settled_under_every_policy(block, one, other);
            },
        }
    }
}

/// A comparison, a boolean operator or a bitwise operator comes back as it
/// went in, text included, under every policy, where its operands hold no
/// arithmetic and nothing else that a visit would change.
pub proof fn lemma_other_operators_pass_through(
    op: BinOp,
    left: ExprView,
    right: ExprView,
    policy: Policy,
)
    requires
        !(op is Arith),
        settled_expr(left, Policy::Checked),
        settled_expr(right, Policy::Checked),
    ensures
        ({
            let e = ExprView::Binary { op, left: Box::new(left), right: Box::new(right) };
            visited_expr(e, policy) == e && expr_text(visited_expr(e, policy)) == expr_text(e)
        }),
{
    let e = ExprView::Binary { op, left: Box::new(left), right: Box::new(right) };
    lemma_settled_under_every_policy(left, Policy::Checked, policy);
    lemma_settled_under_every_policy(right, Policy::Checked, policy);
    lemma_settled_expr_stays(e, policy);
}

/// A node that is no arithmetic operator is left as it is by the rewriter,
/// under every policy; and the default policy leaves every node as it is.
pub proof fn lemma_rewriter_passes_through(e: ExprView, policy: Policy)
    requires
        !is_arithmetic(e) || !policy.rewrites(),
    ensures
        rewritten(e, policy) == e,
{
}

/// What the rewriter hands back is no arithmetic operator under a policy
/// that rewrites, so that rewriting it again changes nothing.
pub proof fn lemma_rewriter_is_idempotent(e: ExprView, policy: Policy)
    ensures
        policy.rewrites() ==> !is_arithmetic(rewritten(e, policy)),
        rewritten(rewritten(e, policy), policy) == rewritten(e, policy),
{
}

/// The visitor applies the rewriter to every node on its way down: to visit
/// an expression is to rewrite its top node and to visit what comes of it.
pub proof fn lemma_visitor_applies_rewriter(e: ExprView, policy: Policy)
    ensures
        visited_expr(e, policy) == visited_expr(rewritten(e, policy), policy),
{
}

/// Every negation is rewritten but that of a numeric literal: the negation
/// of a name, of a call, of anything in parentheses becomes what the policy
/// puts in place of a negation, on the visited operand, with the text of the
/// negation as it was written. A negated literal stays as it is written.
pub proof fn lemma_negation_is_rewritten(operand: ExprView, policy: Policy)
    ensures
        ({
            let e = ExprView::Unary { op: UnOp::Neg, operand: Box::new(operand) };
            &&& is_arithmetic(e) == !(operand is Literal)
            &&& !(operand is Literal) ==> visited_expr(e, policy) == policy.negation_spec(
                visited_expr(operand, policy),
                expr_text(e),
            )
            &&& operand is Literal ==> visited_expr(e, policy) == e
        }),
{
}

/// In what stands in place of a compound assignment the target stands once:
/// the node holds it once, and the text writes it once, after the value, as
/// the place that is both read and written. So the target is evaluated once,
/// whatever it holds.
pub proof fn lemma_compound_assignment_names_target_once(
    op: ArithOp,
    target: ExprView,
    value: ExprView,
    policy: Policy,
)
    requires
        policy.rewrites(),
    ensures
        ({
            let e = ExprView::AssignOp {
                op: CompoundOp::Arith(op),
                target: Box::new(target),
                value: Box::new(value),
            };
            let place = visited_expr(target, policy);
            let stored = visited_expr(value, policy);
            let out = visited_expr(e, policy);
            &&& out == ExprView::Update {
                form: policy.form_spec()->Some_0,
                op,
                target: Box::new(place),
                value: Box::new(stored),
                outcome: policy.outcome_spec(expr_text(e)),
            }
            &&& expr_text(out) == update_text(
                receiver_text(is_primary(place), expr_text(place)),
                expr_text(stored),
                method_name(policy.form_spec()->Some_0, op),
                outcome_suffix(
                    policy.outcome_spec(expr_text(e)),
                    outcome_literal(policy.outcome_spec(expr_text(e))),
                ),
            )
        }),
{
}

/// The reset: under whatever policy it stands, a nested invocation of the
/// default policy comes back as it was written, arithmetic included, where
/// its block holds nothing to change under the default policy.
pub proof fn lemma_reset_restores_default(
    path: Seq<char>,
    delimiter: Delimiter,
    body: Seq<StmtView>,
    policy: Policy,
)
    requires
        settled_stmts(body, Policy::Default),
    ensures
        ({
            let reset = ExprView::Scope { policy: Policy::Default, path, delimiter, body };
            visited_expr(reset, policy) == reset && expr_text(visited_expr(reset, policy))
                == expr_text(reset)
        }),
{
    lemma_settled_stmts_stay(body, Policy::Default);
}

/// Scopes are lexical. The block of a nested invocation is visited under
/// the policy that the invocation names, whatever policy is in force around
/// it; and the statements before and after it are visited under the policy
/// in force around it, each in its place.
pub proof fn lemma_scopes_are_lexical(
    before: Seq<StmtView>,
    inner: Policy,
    path: Seq<char>,
    delimiter: Delimiter,
    body: Seq<StmtView>,
    semi: bool,
    after: Seq<StmtView>,
    outer: Policy,
)
    ensures
        ({
            let nested = StmtView::Expr {
                expr: ExprView::Scope { policy: inner, path, delimiter, body },
                semi,
            };
            let visited = StmtView::Expr {
                expr: ExprView::Scope {
                    policy: inner,
                    path,
                    delimiter,
                    body: visited_stmts(body, inner),
                },
                semi,
            };
            visited_stmts(before.push(nested) + after, outer) == visited_stmts(before, outer).push(
                visited,
            ) + visited_stmts(after, outer)
        }),
{
    let nested = StmtView::Expr {
        expr: ExprView::Scope { policy: inner, path, delimiter, body },
        semi,
    };
    let visited = StmtView::Expr {
        expr: ExprView::Scope { policy: inner, path, delimiter, body: visited_stmts(body, inner) },
        semi,
    };
    assert(visited_stmt(nested, outer) == visited);
    assert(visited_stmts(before.push(nested) + after, outer) =~= visited_stmts(before, outer).push(
        visited,
    ) + visited_stmts(after, outer));
}

/// The visitor keeps the statements of a block in their order and their
/// number: the statement at each place is the visited statement of that
/// place, which depends on nothing before or after it.
pub proof fn lemma_statements_keep_their_places(stmts: Seq<StmtView>, policy: Policy, i: int)
    requires
        0 <= i < stmts.len(),
    ensures
        visited_stmts(stmts, policy).len() == stmts.len(),
        visited_stmts(stmts, policy)[i] == visited_stmt(stmts[i], policy),
{
}

/// The visit makes no numeric literal and unmakes none.
pub proof fn lemma_visit_keeps_literals(e: ExprView, policy: Policy)
    ensures
        visited_expr(e, policy) is Literal == e is Literal,
{
}

/// After the visit nothing is left to change: what comes out is settled
/// under the policy that it was visited under.
pub proof fn lemma_visit_settles(e: ExprView, policy: Policy)
    ensures
        settled_expr(visited_expr(e, policy), policy),
    decreases e,
{
    match e {
        ExprView::Paren { inner } => {
            lemma_visit_settles(*inner, policy);
        },
        ExprView::Cast { operand, .. } => {
            lemma_visit_settles(*operand, policy);
        },
        ExprView::Unary { operand, .. } => {
            lemma_visit_settles(*operand, policy);
            lemma_visit_keeps_literals(*operand, policy);
        },
        ExprView::Binary { left, right, .. } => {
            lemma_visit_settles(*left, policy);
            lemma_visit_settles(*right, policy);
        },
        ExprView::Assign { target, value } => {
            lemma_visit_settles(*target, policy);
            lemma_visit_settles(*value, policy);
        },
        ExprView::AssignOp { target, value, .. } => {
            lemma_visit_settles(*target, policy);
            lemma_visit_settles(*value, policy);
        },
        ExprView::Scope { policy: inner, body, .. } => {
            lemma_visit_settles_stmts(body, inner);
        },
        ExprView::Other { parts } => {
            lemma_visit_settles_parts(parts, policy);
        },
        ExprView::Arith { left, right, .. } => {
            lemma_visit_settles(*left, policy);
            lemma_visit_settles(*right, policy);
        },
        ExprView::Negate { operand, .. } => {
            lemma_visit_settles(*operand, policy);
        },
        ExprView::Update { target, value, .. } => {
            lemma_visit_settles(*target, policy);
            lemma_visit_settles(*value, policy);
        },
        _ => {},
    }
}

/// [`lemma_visit_settles`], for parts.
pub proof fn lemma_visit_settles_parts(parts: Seq<PartView>, policy: Policy)
    ensures
        settled_parts(visited_parts(parts, policy), policy),
    decreases parts,
{
    let out = visited_parts(parts, policy);
    assert forall|i: int| 0 <= i < out.len() implies settled_part(#[trigger] out[i], policy) by {
        match parts[i] {
            PartView::Tokens { .. } => {},
            PartView::Expr { expr } => {
                lemma_visit_settles(expr, policy);
            },
            PartView::Block { block } => {
                lemma_visit_settles_stmts(block, policy);
            },
        }
    }
}

/// [`lemma_visit_settles`], for statements.
pub proof fn lemma_visit_settles_stmts(stmts: Seq<StmtView>, policy: Policy)
    ensures
        settled_stmts(visited_stmts(stmts, policy), policy),
    decreases stmts,
{
    let out = visited_stmts(stmts, policy);
    assert forall|i: int| 0 <= i < out.len() implies settled_stmt(#[trigger] out[i], policy) by {
        match stmts[i] {
            StmtView::Decl { parts } => {
                lemma_visit_settles_parts(parts, policy);
            },
            StmtView::Expr { expr, .. } => {
                lemma_visit_settles(expr, policy);
            },
            StmtView::Block { block } => {
                lemma_visit_settles_stmts(block, policy);
            },
        }
    }
}

/// The visit is idempotent: to visit what came out of a visit, under the
/// same policy, changes nothing. So a nested invocation that is left in
/// place with its block visited may be expanded again by the policy that it
/// names.
pub proof fn lemma_visit_is_idempotent(stmts: Seq<StmtView>, policy: Policy)
    ensures
        visited_stmts(visited_stmts(stmts, policy), policy) == visited_stmts(stmts, policy),
        stmts_text(visited_stmts(visited_stmts(stmts, policy), policy)) == stmts_text(
            visited_stmts(stmts, policy),
        ),
{
    lemma_visit_settles_stmts(stmts, policy);
    lemma_settled_stmts_stay(visited_stmts(stmts, policy), policy);
}

} // verus!
