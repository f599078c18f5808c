//! The syntax tree that the rewriting works on.
//!
//! A tree holds only what the rewriting reads: the operators, the numeric
//! literals, nested policy invocations, and blocks.
//! Everything else is kept as runs of token text around the nested nodes, so
//! that it can be written out again as it came in.
//!
//! Each type has a view, a value of a mathematical twin type in which every
//! `String` is a `Seq<char>` and every `Vec` a `Seq`. Contracts speak of views.

use vstd::prelude::*;

use crate::block::ArithOp;
use crate::block::Policy;

verus! {

/// The prefix operators.
#[derive(Clone, Copy, Debug, PartialEq, Eq, Structural)]
pub enum UnOp {
    /// `-`
    Neg,
    /// `!`
    Not,
    /// `*`
    Deref,
}

/// The bitwise and shift operators.
#[derive(Clone, Copy, Debug, PartialEq, Eq, Structural)]
pub enum BitOp {
    /// `^`
    Xor,
    /// `&`
    And,
    /// `|`
    Or,
    /// `<<`
    Shl,
    /// `>>`
    Shr,
}

/// The short-circuit boolean operators.
#[derive(Clone, Copy, Debug, PartialEq, Eq, Structural)]
pub enum LogicOp {
    /// `&&`
    And,
    /// `||`
    Or,
}

/// The comparison operators.
#[derive(Clone, Copy, Debug, PartialEq, Eq, Structural)]
pub enum RelOp {
    /// `==`
    Eq,
    /// `<`
    Lt,
    /// `<=`
    Le,
    /// `!=`
    Ne,
    /// `>=`
    Ge,
    /// `>`
    Gt,
}

/// A binary operator. Only the arithmetic ones are ever rewritten.
#[derive(Clone, Copy, Debug, PartialEq, Eq, Structural)]
pub enum BinOp {
    Arith(ArithOp),
    Bit(BitOp),
    Logic(LogicOp),
    Rel(RelOp),
}

/// The operator of a compound assignment such as `+=` or `<<=`.
#[derive(Clone, Copy, Debug, PartialEq, Eq, Structural)]
pub enum CompoundOp {
    Arith(ArithOp),
    Bit(BitOp),
}

/// The family of methods that a rewritten operator calls.
#[derive(Clone, Copy, Debug, PartialEq, Eq, Structural)]
pub enum Form {
    /// `checked_*`: the result, or nothing where it does not fit.
    Checked,
    /// `wrapping_*`: the result modulo two to the width of the type.
    Wrapping,
    /// `saturating_*`: the result, or the nearest bound of the type.
    Saturating,
}

/// The brackets around the content of an invocation.
#[derive(Clone, Copy, Debug, PartialEq, Eq, Structural)]
pub enum Delimiter {
    /// `( .. )`
    Paren,
    /// `{ .. }`
    Brace,
    /// `[ .. ]`
    Bracket,
}

/// What a rewritten operator does with the result of its method.
#[derive(Debug, PartialEq, Eq)]
pub enum Disposition {
    /// The method's result is the value.
    Keep,
    /// Unwrap the result, aborting with `message` where there is none.
    Abort { message: String },
    /// Unwrap the result with `?`, leaving the function where there is none.
    Propagate,
}

/// An expression.
#[derive(Debug, PartialEq, Eq)]
#[allow(inconsistent_fields)]
pub enum Expr {
    /// Token text without any expression inside: a name, a path, a literal
    /// that is no number.
    Atom { text: String },
    /// A numeric literal: its digits, and the suffix that follows them
    /// (empty where it has none).
    Literal { digits: String, suffix: String },
    /// `( inner )`
    Paren { inner: Box<Expr> },
    /// `operand as ty`
    Cast { operand: Box<Expr>, ty: String },
    /// A prefix operator and its operand.
    Unary { op: UnOp, operand: Box<Expr> },
    /// `left op right`
    Binary { op: BinOp, left: Box<Expr>, right: Box<Expr> },
    /// `target = value`
    Assign { target: Box<Expr>, value: Box<Expr> },
    /// `target op= value`
    AssignOp { op: CompoundOp, target: Box<Expr>, value: Box<Expr> },
    /// A nested invocation of a policy on a block, with the path and the
    /// brackets that it was written with. The reset invocation is the one
    /// whose policy is [`Policy::Default`].
    Scope { policy: Policy, path: String, delimiter: Delimiter, body: Block },
    /// A nested invocation whose content could not be read as a block: the
    /// path as written, the content as token text, and the message that says
    /// why.
    Malformed { policy: Policy, path: String, tokens: String, message: String },
    /// Any other expression: token text and the nodes between it, in order.
    Other { parts: Vec<Part> },
    /// A rewritten binary operator: `left.method(right)`, where `form` and
    /// `op` together name the method, followed by what `outcome` asks for.
    Arith { form: Form, op: ArithOp, left: Box<Expr>, right: Box<Expr>, outcome: Disposition },
    /// A rewritten negation: `operand.method()`, followed by what `outcome`
    /// asks for.
    Negate { form: Form, operand: Box<Expr>, outcome: Disposition },
    /// A rewritten compound assignment. The value and the place of the
    /// target are evaluated once each, the value first, and bound to names;
    /// the place is then assigned `place.method(value)`, followed by what
    /// `outcome` asks for.
    Update { form: Form, op: ArithOp, target: Box<Expr>, value: Box<Expr>, outcome: Disposition },
    /// An error for the compiler to report, in place of a node.
    Diagnostic { message: String },
}

/// One piece of an expression or a declaration that is kept as it came in.
#[derive(Debug, PartialEq, Eq)]
pub enum Part {
    /// Token text.
    Tokens { text: String },
    /// A nested expression.
    Expr { expr: Expr },
    /// A nested block, braces included.
    Block { block: Block },
}

/// A statement.
#[derive(Debug, PartialEq, Eq)]
pub enum Stmt {
    /// A declaration (`let`, or an item), as token text and the nodes between
    /// it, in order.
    Decl { parts: Vec<Part> },
    /// An expression, and whether a semicolon follows it.
    Expr { expr: Expr, semi: bool },
    /// A block standing as a statement.
    Block { block: Block },
}

/// A sequence of statements.
#[derive(Debug, PartialEq, Eq)]
pub struct Block {
    pub stmts: Vec<Stmt>,
}

/// The view of a [`Disposition`].
pub enum DispositionView {
    Keep,
    Abort { message: Seq<char> },
    Propagate,
}

/// The view of an [`Expr`].
#[allow(inconsistent_fields)]
pub enum ExprView {
    Atom { text: Seq<char> },
    Literal { digits: Seq<char>, suffix: Seq<char> },
    Paren { inner: Box<ExprView> },
    Cast { operand: Box<ExprView>, ty: Seq<char> },
    Unary { op: UnOp, operand: Box<ExprView> },
    Binary { op: BinOp, left: Box<ExprView>, right: Box<ExprView> },
    Assign { target: Box<ExprView>, value: Box<ExprView> },
    AssignOp { op: CompoundOp, target: Box<ExprView>, value: Box<ExprView> },
    Scope { policy: Policy, path: Seq<char>, delimiter: Delimiter, body: Seq<StmtView> },
    Malformed { policy: Policy, path: Seq<char>, tokens: Seq<char>, message: Seq<char> },
    Other { parts: Seq<PartView> },
    Arith {
        form: Form,
        op: ArithOp,
        left: Box<ExprView>,
        right: Box<ExprView>,
        outcome: DispositionView,
    },
    Negate { form: Form, operand: Box<ExprView>, outcome: DispositionView },
    Update {
        form: Form,
        op: ArithOp,
        target: Box<ExprView>,
        value: Box<ExprView>,
        outcome: DispositionView,
    },
    Diagnostic { message: Seq<char> },
}

/// The view of a [`Part`].
pub enum PartView {
    Tokens { text: Seq<char> },
    Expr { expr: ExprView },
    Block { block: Seq<StmtView> },
}

/// The view of a [`Stmt`]. A [`Block`] is viewed as the sequence of these.
pub enum StmtView {
    Decl { parts: Seq<PartView> },
    Expr { expr: ExprView, semi: bool },
    Block { block: Seq<StmtView> },
}

impl View for Disposition {
    type V = DispositionView;

    open spec fn view(&self) -> DispositionView {
        match self {
            Disposition::Keep => DispositionView::Keep,
            Disposition::Abort { message } => DispositionView::Abort { message: message@ },
            Disposition::Propagate => DispositionView::Propagate,
        }
    }
}

/// The views of the parts of `parts`, in order.
pub open spec fn parts_model(parts: Seq<Part>) -> Seq<PartView>
    decreases parts,
{
    Seq::new(
        parts.len(),
        |i: int|
            if 0 <= i < parts.len() {
                parts[i].model()
            } else {
                arbitrary()
            },
    )
}

/// The views of the statements of `stmts`, in order.
pub open spec fn stmts_model(stmts: Seq<Stmt>) -> Seq<StmtView>
    decreases stmts,
{
    Seq::new(
        stmts.len(),
        |i: int|
            if 0 <= i < stmts.len() {
                stmts[i].model()
            } else {
                arbitrary()
            },
    )
}

impl Expr {
    /// The view, by recursion over the tree.
    pub open spec fn model(self) -> ExprView
        decreases self,
    {
        match self {
            Expr::Atom { text } => ExprView::Atom { text: text@ },
            Expr::Literal { digits, suffix } => ExprView::Literal {
                digits: digits@,
                suffix: suffix@,
            },
            Expr::Paren { inner } => ExprView::Paren { inner: Box::new((*inner).model()) },
            Expr::Cast { operand, ty } => ExprView::Cast {
                operand: Box::new((*operand).model()),
                ty: ty@,
            },
            Expr::Unary { op, operand } => ExprView::Unary {
                op,
                operand: Box::new((*operand).model()),
            },
            Expr::Binary { op, left, right } => ExprView::Binary {
                op,
                left: Box::new((*left).model()),
                right: Box::new((*right).model()),
            },
            Expr::Assign { target, value } => ExprView::Assign {
                target: Box::new((*target).model()),
                value: Box::new((*value).model()),
            },
            Expr::AssignOp { op, target, value } => ExprView::AssignOp {
                op,
                target: Box::new((*target).model()),
                value: Box::new((*value).model()),
            },
            Expr::Scope { policy, path, delimiter, body } => ExprView::Scope {
                policy,
                path: path@,
                delimiter,
                body: body.model(),
            },
            Expr::Malformed { policy, path, tokens, message } => ExprView::Malformed {
                policy,
                path: path@,
                tokens: tokens@,
                message: message@,
            },
            Expr::Other { parts } => ExprView::Other { parts: parts_model(parts@) },
            Expr::Arith { form, op, left, right, outcome } => ExprView::Arith {
                form,
                op,
                left: Box::new((*left).model()),
                right: Box::new((*right).model()),
                outcome: outcome@,
            },
            Expr::Negate { form, operand, outcome } => ExprView::Negate {
                form,
                operand: Box::new((*operand).model()),
                outcome: outcome@,
            },
            Expr::Update { form, op, target, value, outcome } => ExprView::Update {
                form,
                op,
                target: Box::new((*target).model()),
                value: Box::new((*value).model()),
                outcome: outcome@,
            },
            Expr::Diagnostic { message } => ExprView::Diagnostic { message: message@ },
        }
    }
}

impl Part {
    /// The view, by recursion over the tree.
    pub open spec fn model(self) -> PartView
        decreases self,
    {
        match self {
            Part::Tokens { text } => PartView::Tokens { text: text@ },
            Part::Expr { expr } => PartView::Expr { expr: expr.model() },
            Part::Block { block } => PartView::Block { block: block.model() },
        }
    }
}

impl Stmt {
    /// The view, by recursion over the tree.
    pub open spec fn model(self) -> StmtView
        decreases self,
    {
        match self {
            Stmt::Decl { parts } => StmtView::Decl { parts: parts_model(parts@) },
            Stmt::Expr { expr, semi } => StmtView::Expr { expr: expr.model(), semi },
            Stmt::Block { block } => StmtView::Block { block: block.model() },
        }
    }
}

impl Block {
    /// The view, by recursion over the tree.
    pub open spec fn model(self) -> Seq<StmtView>
        decreases self,
    {
        stmts_model(self.stmts@)
    }
}

impl View for Expr {
    type V = ExprView;

    open spec fn view(&self) -> ExprView {
        self.model()
    }
}

impl View for Part {
    type V = PartView;

    open spec fn view(&self) -> PartView {
        self.model()
    }
}

impl View for Stmt {
    type V = StmtView;

    open spec fn view(&self) -> StmtView {
        self.model()
    }
}

impl View for Block {
    type V = Seq<StmtView>;

    open spec fn view(&self) -> Seq<StmtView> {
        self.model()
    }
}

/// A copy of `parts` with the same view.
pub fn clone_parts(parts: &Vec<Part>) -> (out: Vec<Part>)
    ensures
        parts_model(out@) == parts_model(parts@),
    decreases parts,
{
    let mut out: Vec<Part> = Vec::new();
    let mut i: usize = 0;
    while i < parts.len()
        invariant
            i <= parts.len(),
            out.len() == i,
            forall|j: int| 0 <= j < i ==> out@[j]@ == parts@[j]@,
        decreases parts.len() - i,
    {
        out.push(parts[i].clone());
        i = i + 1;
    }
    out
}

impl Clone for Disposition {
    fn clone(&self) -> (out: Self)
        ensures
            out@ == self@,
    {
        match self {
            Disposition::Keep => Disposition::Keep,
            Disposition::Abort { message } => Disposition::Abort { message: message.clone() },
            Disposition::Propagate => Disposition::Propagate,
        }
    }
}

impl Clone for Expr {
    fn clone(&self) -> (out: Self)
        ensures
            out@ == self@,
        decreases self,
    {
        match self {
            Expr::Atom { text } => Expr::Atom { text: text.clone() },
            Expr::Literal { digits, suffix } => Expr::Literal {
                digits: digits.clone(),
                suffix: suffix.clone(),
            },
            Expr::Paren { inner } => Expr::Paren { inner: Box::new((**inner).clone()) },
            Expr::Cast { operand, ty } => Expr::Cast {
                operand: Box::new((**operand).clone()),
                ty: ty.clone(),
            },
            Expr::Unary { op, operand } => Expr::Unary {
                op: *op,
                operand: Box::new((**operand).clone()),
            },
            Expr::Binary { op, left, right } => Expr::Binary {
                op: *op,
                left: Box::new((**left).clone()),
                right: Box::new((**right).clone()),
            },
            Expr::Assign { target, value } => Expr::Assign {
                target: Box::new((**target).clone()),
                value: Box::new((**value).clone()),
            },
            Expr::AssignOp { op, target, value } => Expr::AssignOp {
                op: *op,
                target: Box::new((**target).clone()),
                value: Box::new((**value).clone()),
            },
            Expr::Scope { policy, path, delimiter, body } => Expr::Scope {
                policy: *policy,
                path: path.clone(),
                delimiter: *delimiter,
                body: body.clone(),
            },
            Expr::Malformed { policy, path, tokens, message } => Expr::Malformed {
                policy: *policy,
                path: path.clone(),
                tokens: tokens.clone(),
                message: message.clone(),
            },
            Expr::Other { parts } => Expr::Other { parts: clone_parts(parts) },
            Expr::Arith { form, op, left, right, outcome } => Expr::Arith {
                form: *form,
                op: *op,
                left: Box::new((**left).clone()),
                right: Box::new((**right).clone()),
                outcome: outcome.clone(),
            },
            Expr::Negate { form, operand, outcome } => Expr::Negate {
                form: *form,
                operand: Box::new((**operand).clone()),
                outcome: outcome.clone(),
            },
            Expr::Update { form, op, target, value, outcome } => Expr::Update {
                form: *form,
                op: *op,
                target: Box::new((**target).clone()),
                value: Box::new((**value).clone()),
                outcome: outcome.clone(),
            },
            Expr::Diagnostic { message } => Expr::Diagnostic { message: message.clone() },
        }
    }
}

impl Clone for Part {
    fn clone(&self) -> (out: Self)
        ensures
            out@ == self@,
        decreases self,
    {
        match self {
            Part::Tokens { text } => Part::Tokens { text: text.clone() },
            Part::Expr { expr } => Part::Expr { expr: expr.clone() },
            Part::Block { block } => Part::Block { block: block.clone() },
        }
    }
}

impl Clone for Stmt {
    fn clone(&self) -> (out: Self)
        ensures
            out@ == self@,
        decreases self,
    {
        match self {
            Stmt::Decl { parts } => Stmt::Decl { parts: clone_parts(parts) },
            Stmt::Expr { expr, semi } => Stmt::Expr { expr: expr.clone(), semi: *semi },
            Stmt::Block { block } => Stmt::Block { block: block.clone() },
        }
    }
}

impl Clone for Block {
    fn clone(&self) -> (out: Self)
        ensures
            out@ == self@,
        decreases self,
    {
        let mut out: Vec<Stmt> = Vec::new();
        let mut i: usize = 0;
        while i < self.stmts.len()
            invariant
                i <= self.stmts.len(),
                out.len() == i,
                forall|j: int| 0 <= j < i ==> out@[j]@ == self.stmts@[j]@,
            decreases self.stmts.len() - i,
        {
            out.push(self.stmts[i].clone());
            i = i + 1;
        }
        Block { stmts: out }
    }
}

} // verus!
