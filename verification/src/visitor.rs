//! The block visitor: one pass over a block, depth first, that rewrites every
//! arithmetic operator under the policy in force where it stands.
//!
//! The policy in force is the top of a stack of scopes. A nested invocation of
//! a policy pushes that policy for its own block and pops it after, so that
//! what follows the invocation is again under the policy that was in force
//! before it.

use vstd::prelude::*;

use crate::block::Policy;
use crate::expr::arithmetic;
use crate::expr::is_arithmetic;
use crate::expr::source_for;
use crate::render::expr_text;
use crate::syntax::BinOp;
use crate::syntax::Block;
use crate::syntax::CompoundOp;
use crate::syntax::Expr;
use crate::syntax::ExprView;
use crate::syntax::Part;
use crate::syntax::PartView;
use crate::syntax::Stmt;
use crate::syntax::StmtView;
use crate::syntax::parts_model;

verus! {

/// What an expression becomes when it is visited under `policy`.
///
/// Every arithmetic operator in it is replaced by what the policy puts in
/// its place, with the text of the operator as it was written. A nested
/// invocation stays an invocation, and its block is visited under the policy
/// that it names, whatever `policy` is; one whose content could not be read
/// becomes the diagnostic that says so. Everything else keeps its shape.
pub open spec fn visited_expr(e: ExprView, policy: Policy) -> ExprView
    decreases e,
{
    match e {
        ExprView::Atom { .. } => e,
        ExprView::Literal { .. } => e,
        ExprView::Paren { inner } => ExprView::Paren {
            inner: Box::new(visited_expr(*inner, policy)),
        },
        ExprView::Cast { operand, ty } => ExprView::Cast {
            operand: Box::new(visited_expr(*operand, policy)),
            ty,
        },
        ExprView::Unary { op, operand } => if is_arithmetic(e) {
            policy.negation_spec(visited_expr(*operand, policy), expr_text(e))
        } else {
            ExprView::Unary { op, operand: Box::new(visited_expr(*operand, policy)) }
        },
        ExprView::Binary { op, left, right } => match op {
            BinOp::Arith(arith) => policy.binary_spec(
                arith,
                visited_expr(*left, policy),
                visited_expr(*right, policy),
                expr_text(e),
            ),
            _ => ExprView::Binary {
                op,
                left: Box::new(visited_expr(*left, policy)),
                right: Box::new(visited_expr(*right, policy)),
            },
        },
        ExprView::Assign { target, value } => ExprView::Assign {
            target: Box::new(visited_expr(*target, policy)),
            value: Box::new(visited_expr(*value, policy)),
        },
        ExprView::AssignOp { op, target, value } => match op {
            CompoundOp::Arith(arith) => policy.compound_spec(
                arith,
                visited_expr(*target, policy),
                visited_expr(*value, policy),
                expr_text(e),
            ),
            _ => ExprView::AssignOp {
                op,
                target: Box::new(visited_expr(*target, policy)),
                value: Box::new(visited_expr(*value, policy)),
            },
        },
        ExprView::Scope { policy: inner, path, delimiter, body } => ExprView::Scope {
            policy: inner,
            path,
            delimiter,
            body: visited_stmts(body, inner),
        },
        ExprView::Malformed { message, .. } => ExprView::Diagnostic { message },
        ExprView::Other { parts } => ExprView::Other { parts: visited_parts(parts, policy) },
        ExprView::Arith { form, op, left, right, outcome } => ExprView::Arith {
            form,
            op,
            left: Box::new(visited_expr(*left, policy)),
            right: Box::new(visited_expr(*right, policy)),
            outcome,
        },
        ExprView::Negate { form, operand, outcome } => ExprView::Negate {
            form,
            operand: Box::new(visited_expr(*operand, policy)),
            outcome,
        },
        ExprView::Update { form, op, target, value, outcome } => ExprView::Update {
            form,
            op,
            target: Box::new(visited_expr(*target, policy)),
            value: Box::new(visited_expr(*value, policy)),
            outcome,
        },
        ExprView::Diagnostic { .. } => e,
    }
}

/// What a part becomes when it is visited under `policy`.
pub open spec fn visited_part(p: PartView, policy: Policy) -> PartView
    decreases p,
{
    match p {
        PartView::Tokens { .. } => p,
        PartView::Expr { expr } => PartView::Expr { expr: visited_expr(expr, policy) },
        PartView::Block { block } => PartView::Block { block: visited_stmts(block, policy) },
    }
}

/// What parts become when they are visited under `policy`: each of them
/// visited, in its place.
pub open spec fn visited_parts(parts: Seq<PartView>, policy: Policy) -> Seq<PartView>
    decreases parts,
{
    Seq::new(
        parts.len(),
        |i: int|
            if 0 <= i < parts.len() {
                visited_part(parts[i], policy)
            } else {
                arbitrary()
            },
    )
}

/// What a statement becomes when it is visited under `policy`.
pub open spec fn visited_stmt(s: StmtView, policy: Policy) -> StmtView
    decreases s,
{
    match s {
        StmtView::Decl { parts } => StmtView::Decl { parts: visited_parts(parts, policy) },
        StmtView::Expr { expr, semi } => StmtView::Expr { expr: visited_expr(expr, policy), semi },
        StmtView::Block { block } => StmtView::Block { block: visited_stmts(block, policy) },
    }
}

/// What statements become when they are visited under `policy`: each of them
/// visited, in its place.
pub open spec fn visited_stmts(stmts: Seq<StmtView>, policy: Policy) -> Seq<StmtView>
    decreases stmts,
{
    Seq::new(
        stmts.len(),
        |i: int|
            if 0 <= i < stmts.len() {
                visited_stmt(stmts[i], policy)
            } else {
                arbitrary()
            },
    )
}

/// The stack of policy scopes. It is never empty: the default policy is at
/// its bottom, and the policy in force is at its top.
pub struct ScopeStack {
    policies: Vec<Policy>,
}

impl View for ScopeStack {
    type V = Seq<Policy>;

    closed spec fn view(&self) -> Seq<Policy> {
        self.policies@
    }
}

impl ScopeStack {
    /// The invariant of the stack: it holds at least one policy, and the one
    /// at its bottom is the default policy.
    pub open spec fn well_formed(&self) -> bool {
        self@.len() >= 1 && self@[0] == Policy::Default
    }

    /// The stack that holds the default policy alone.
    pub fn new() -> (out: Self)
        ensures
            out.well_formed(),
            out@ == seq![Policy::Default],
    {
        let mut policies: Vec<Policy> = Vec::new();
        policies.push(Policy::Default);
        ScopeStack { policies }
    }

    /// The number of scopes, the bottom one included.
    pub fn depth(&self) -> (out: usize)
        ensures
            out == self@.len(),
    {
        self.policies.len()
    }

    /// The policy in force: the top of the stack.
    pub fn current(&self) -> (out: Policy)
        requires
            self.well_formed(),
        ensures
            out == self@.last(),
    {
        self.policies[self.policies.len() - 1]
    }

    /// Opens a scope under `policy`.
    pub fn enter(&mut self, policy: Policy)
        requires
            old(self).well_formed(),
        ensures
            final(self).well_formed(),
            final(self)@ == old(self)@.push(policy),
    {
        self.policies.push(policy);
    }

    /// Closes the innermost scope, and says whether there was one to close:
    /// the bottom of the stack stays.
    pub fn leave(&mut self) -> (left: bool)
        requires
            old(self).well_formed(),
        ensures
            final(self).well_formed(),
            left == (old(self)@.len() > 1),
            left ==> final(self)@ == old(self)@.drop_last(),
            !left ==> final(self)@ == old(self)@,
    {
        if self.policies.len() > 1 {
            self.policies.pop();
            true
        } else {
            false
        }
    }
}

/// The visitor of one invocation. It owns the stack of scopes.
pub struct BlockVisitor {
    scopes: ScopeStack,
}

impl View for BlockVisitor {
    type V = Seq<Policy>;

    closed spec fn view(&self) -> Seq<Policy> {
        self.scopes@
    }
}

impl BlockVisitor {
    /// The invariant of the visitor: that of its stack.
    pub open spec fn well_formed(&self) -> bool {
        self@.len() >= 1 && self@[0] == Policy::Default
    }

    /// The policy in force: the top of the stack.
    pub open spec fn policy_spec(&self) -> Policy {
        self@.last()
    }

    /// A visitor whose stack holds the default policy and, above it,
    /// `policy`.
    pub fn new(policy: Policy) -> (out: Self)
        ensures
            out.well_formed(),
            out@ == seq![Policy::Default, policy],
    {
        let mut scopes = ScopeStack::new();
        scopes.enter(policy);
        BlockVisitor { scopes }
    }

    /// The policy in force.
    pub fn policy(&self) -> (out: Policy)
        requires
            self.well_formed(),
        ensures
            out == self.policy_spec(),
    {
        self.scopes.current()
    }

    /// Visits an expression under the policy in force. The stack is left as
    /// it was found.
    pub fn visit_expr(&mut self, e: &Expr) -> (out: Expr)
        requires
            old(self).well_formed(),
        ensures
            out@ == visited_expr(e@, old(self).policy_spec()),
            final(self)@ == old(self)@,
        decreases e,
    {
        let policy = self.policy();
        match e {
            Expr::Atom { .. } => e.clone(),
            Expr::Literal { .. } => e.clone(),
            Expr::Paren { inner } => Expr::Paren { inner: Box::new(self.visit_expr(inner)) },
            Expr::Cast { operand, ty } => Expr::Cast {
                operand: Box::new(self.visit_expr(operand)),
                ty: ty.clone(),
            },
            Expr::Unary { op, operand } => {
                let inner = self.visit_expr(operand);
                if arithmetic(e) {
                    let source = source_for(policy, e);
                    policy.negation(inner, source.as_str())
                } else {
                    Expr::Unary { op: *op, operand: Box::new(inner) }
                }
            },
            Expr::Binary { op, left, right } => {
                let l = self.visit_expr(left);
                let r = self.visit_expr(right);
                match op {
                    BinOp::Arith(arith) => {
                        let source = source_for(policy, e);
                        policy.binary(*arith, l, r, source.as_str())
                    },
                    _ => Expr::Binary { op: *op, left: Box::new(l), right: Box::new(r) },
                }
            },
            Expr::Assign { target, value } => {
                let t = self.visit_expr(target);
                let v = self.visit_expr(value);
                Expr::Assign { target: Box::new(t), value: Box::new(v) }
            },
            Expr::AssignOp { op, target, value } => {
                let t = self.visit_expr(target);
                let v = self.visit_expr(value);
                match op {
                    CompoundOp::Arith(arith) => {
                        let source = source_for(policy, e);
                        policy.compound(*arith, t, v, source.as_str())
                    },
                    _ => Expr::AssignOp { op: *op, target: Box::new(t), value: Box::new(v) },
                }
            },
            Expr::Scope { policy: inner, path, delimiter, body } => {
                self.scopes.enter(*inner);
                let visited = self.visit_block(body);
                let left = self.scopes.leave();
                Expr::Scope {
                    policy: *inner,
                    path: path.clone(),
                    delimiter: *delimiter,
                    body: visited,
                }
            },
            Expr::Malformed { message, .. } => Expr::Diagnostic { message: message.clone() },
            Expr::Other { parts } => Expr::Other { parts: self.visit_parts(parts) },
            Expr::Arith { form, op, left, right, outcome } => {
                let l = self.visit_expr(left);
                let r = self.visit_expr(right);
                Expr::Arith {
                    form: *form,
                    op: *op,
                    left: Box::new(l),
                    right: Box::new(r),
                    outcome: outcome.clone(),
                }
            },
            Expr::Negate { form, operand, outcome } => Expr::Negate {
                form: *form,
                operand: Box::new(self.visit_expr(operand)),
                outcome: outcome.clone(),
            },
            Expr::Update { form, op, target, value, outcome } => {
                let t = self.visit_expr(target);
                let v = self.visit_expr(value);
                Expr::Update {
                    form: *form,
                    op: *op,
                    target: Box::new(t),
                    value: Box::new(v),
                    outcome: outcome.clone(),
                }
            },
            Expr::Diagnostic { .. } => e.clone(),
        }
    }

    /// Visits a part under the policy in force.
    pub fn visit_part(&mut self, p: &Part) -> (out: Part)
        requires
            old(self).well_formed(),
        ensures
            out@ == visited_part(p@, old(self).policy_spec()),
            final(self)@ == old(self)@,
        decreases p,
    {
        match p {
            Part::Tokens { .. } => p.clone(),
            Part::Expr { expr } => Part::Expr { expr: self.visit_expr(expr) },
            Part::Block { block } => Part::Block { block: self.visit_block(block) },
        }
    }

    /// Visits parts under the policy in force, in order.
    pub fn visit_parts(&mut self, parts: &Vec<Part>) -> (out: Vec<Part>)
        requires
            old(self).well_formed(),
        ensures
            parts_model(out@) == visited_parts(parts_model(parts@), old(self).policy_spec()),
            final(self)@ == old(self)@,
        decreases parts,
    {
        let ghost policy = self.policy_spec();
        let mut out: Vec<Part> = Vec::new();
        let mut i: usize = 0;
        while i < parts.len()
            invariant
                i <= parts.len(),
                out.len() == i,
                self.well_formed(),
                self@ == old(self)@,
                policy == old(self).policy_spec(),
                forall|j: int| 0 <= j < i ==> out@[j]@ == visited_part(parts@[j]@, policy),
            decreases parts.len() - i,
        {
            let visited = self.visit_part(&parts[i]);
            out.push(visited);
            i = i + 1;
        }
        out
    }

    /// Visits a statement under the policy in force.
    pub fn visit_stmt(&mut self, s: &Stmt) -> (out: Stmt)
        requires
            old(self).well_formed(),
        ensures
            out@ == visited_stmt(s@, old(self).policy_spec()),
            final(self)@ == old(self)@,
        decreases s,
    {
        match s {
            Stmt::Decl { parts } => Stmt::Decl { parts: self.visit_parts(parts) },
            Stmt::Expr { expr, semi } => Stmt::Expr { expr: self.visit_expr(expr), semi: *semi },
            Stmt::Block { block } => Stmt::Block { block: self.visit_block(block) },
        }
    }

    /// Visits the statements of a block under the policy in force, in order.
    pub fn visit_block(&mut self, block: &Block) -> (out: Block)
        requires
            old(self).well_formed(),
        ensures
            out@ == visited_stmts(block@, old(self).policy_spec()),
            final(self)@ == old(self)@,
        decreases block,
    {
        let ghost policy = self.policy_spec();
        let mut out: Vec<Stmt> = Vec::new();
        let mut i: usize = 0;
        while i < block.stmts.len()
            invariant
                i <= block.stmts.len(),
                out.len() == i,
                self.well_formed(),
                self@ == old(self)@,
                policy == old(self).policy_spec(),
                forall|j: int| 0 <= j < i ==> out@[j]@ == visited_stmt(block.stmts@[j]@, policy),
            decreases block.stmts.len() - i,
        {
            let visited = self.visit_stmt(&block.stmts[i]);
            out.push(visited);
            i = i + 1;
        }
        Block { stmts: out }
    }
}

/// Visits `block` under `initial`: every arithmetic operator in it is
/// rewritten under the policy in force where it stands.
pub fn visit(block: &Block, initial: Policy) -> (out: Block)
    ensures
        out@ == visited_stmts(block@, initial),
{
    let mut visitor = BlockVisitor::new(initial);
    visitor.visit_block(block)
}

} // verus!
