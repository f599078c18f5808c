//! The overflow policies and what each of them puts in place of an operator.

use vstd::prelude::*;

use crate::syntax::BinOp;
use crate::syntax::CompoundOp;
use crate::syntax::Disposition;
use crate::syntax::DispositionView;
use crate::syntax::Expr;
use crate::syntax::ExprView;
use crate::syntax::Form;
use crate::syntax::UnOp;

verus! {

/// The discipline that governs arithmetic in a region of code.
#[derive(Clone, Copy, Debug, PartialEq, Eq, Structural)]
pub enum Policy {
    /// Abort when an operation overflows.
    Checked,
    /// Wrap around the bounds of the type.
    Overflowing,
    /// Clamp to the bounds of the type.
    Saturating,
    /// Leave the enclosing function when an operation overflows.
    Propagating,
    /// Keep the operators as they were written.
    Default,
}

/// The five binary arithmetic operators.
#[derive(Clone, Copy, Debug, PartialEq, Eq, Structural)]
pub enum ArithOp {
    /// `+`
    Add,
    /// `-`
    Sub,
    /// `*`
    Mul,
    /// `/`
    Div,
    /// `%`
    Rem,
}

/// The message with which checked arithmetic aborts, for an operation whose
/// source text is `source`.
pub open spec fn failure_message(source: Seq<char>) -> Seq<char> {
    "checked arithmetic failed in `"@ + source + "`"@
}

/// Builds [`failure_message`].
pub fn make_failure_message(source: &str) -> (out: String)
    ensures
        out@ == failure_message(source@),
{
    let mut out = String::from_str("checked arithmetic failed in `");
    out.append(source);
    out.append("`");
    out
}

impl Policy {
    /// Whether this policy replaces arithmetic operators at all.
    pub open spec fn rewrites(self) -> bool {
        self != Policy::Default
    }

    /// Whether this policy replaces arithmetic operators at all.
    pub fn is_rewriting(self) -> (b: bool)
        ensures
            b == self.rewrites(),
    {
        match self {
            Policy::Default => false,
            _ => true,
        }
    }

    /// Whether this policy writes the text of an operation into what it puts
    /// in its place: only the checked policy does, in its message.
    pub open spec fn reports(self) -> bool {
        self == Policy::Checked
    }

    /// Whether this policy needs the text of the operations that it
    /// replaces.
    pub fn is_reporting(self) -> (b: bool)
        ensures
            b == self.reports(),
    {
        match self {
            Policy::Checked => true,
            _ => false,
        }
    }

    /// The name under which the policy is invoked on a block.
    pub open spec fn name_spec(self) -> Seq<char> {
        match self {
            Policy::Checked => "checked"@,
            Policy::Overflowing => "overflowing"@,
            Policy::Saturating => "saturating"@,
            Policy::Propagating => "propagating"@,
            Policy::Default => "default"@,
        }
    }

    /// The name under which the policy is invoked on a block.
    pub fn name(self) -> (out: &'static str)
        ensures
            out@ == self.name_spec(),
    {
        match self {
            Policy::Checked => "checked",
            Policy::Overflowing => "overflowing",
            Policy::Saturating => "saturating",
            Policy::Propagating => "propagating",
            Policy::Default => "default",
        }
    }

    /// The policy that `name` invokes, if it invokes one. The names are tried
    /// in the order of the variants.
    pub open spec fn from_name_spec(name: Seq<char>) -> Option<Policy> {
        if name == Policy::Checked.name_spec() {
            Some(Policy::Checked)
        } else if name == Policy::Overflowing.name_spec() {
            Some(Policy::Overflowing)
        } else if name == Policy::Saturating.name_spec() {
            Some(Policy::Saturating)
        } else if name == Policy::Propagating.name_spec() {
            Some(Policy::Propagating)
        } else if name == Policy::Default.name_spec() {
            Some(Policy::Default)
        } else {
            None
        }
    }

    /// Tells whether `name` invokes a policy, and which.
    pub fn from_name(name: &str) -> (out: Option<Policy>)
        ensures
            out == Policy::from_name_spec(name@),
    {
        let name = name.to_owned();
        if name == String::from_str(Policy::Checked.name()) {
            Some(Policy::Checked)
        } else if name == String::from_str(Policy::Overflowing.name()) {
            Some(Policy::Overflowing)
        } else if name == String::from_str(Policy::Saturating.name()) {
            Some(Policy::Saturating)
        } else if name == String::from_str(Policy::Propagating.name()) {
            Some(Policy::Propagating)
        } else if name == String::from_str(Policy::Default.name()) {
            Some(Policy::Default)
        } else {
            None
        }
    }

    /// The family of methods that this policy calls. The default policy calls
    /// none.
    pub open spec fn form_spec(self) -> Option<Form> {
        match self {
            Policy::Checked => Some(Form::Checked),
            Policy::Overflowing => Some(Form::Wrapping),
            Policy::Saturating => Some(Form::Saturating),
            Policy::Propagating => Some(Form::Checked),
            Policy::Default => None,
        }
    }

    /// The family of methods that this policy calls.
    pub fn form(self) -> (out: Option<Form>)
        ensures
            out == self.form_spec(),
    {
        match self {
            Policy::Checked => Some(Form::Checked),
            Policy::Overflowing => Some(Form::Wrapping),
            Policy::Saturating => Some(Form::Saturating),
            Policy::Propagating => Some(Form::Checked),
            Policy::Default => None,
        }
    }

    /// What this policy does with the result of the method, for an operation
    /// whose source text is `source`. The text counts only where the policy
    /// reports it.
    pub open spec fn outcome_spec(self, source: Seq<char>) -> DispositionView {
        match self {
            Policy::Checked => DispositionView::Abort { message: failure_message(source) },
            Policy::Propagating => DispositionView::Propagate,
            _ => DispositionView::Keep,
        }
    }

    /// What this policy does with the result of the method, for an operation
    /// whose source text is `source`.
    pub fn outcome(self, source: &str) -> (out: Disposition)
        ensures
            out@ == self.outcome_spec(source@),
    {
        match self {
            Policy::Checked => Disposition::Abort { message: make_failure_message(source) },
            Policy::Propagating => Disposition::Propagate,
            _ => Disposition::Keep,
        }
    }

    /// What stands in place of `left op right` under this policy, where
    /// `source` is the text of the operation as it was written.
    pub open spec fn binary_spec(
        self,
        op: ArithOp,
        left: ExprView,
        right: ExprView,
        source: Seq<char>,
    ) -> ExprView {
        match self.form_spec() {
            Some(form) => ExprView::Arith {
                form,
                op,
                left: Box::new(left),
                right: Box::new(right),
                outcome: self.outcome_spec(source),
            },
            None => ExprView::Binary {
                op: BinOp::Arith(op),
                left: Box::new(left),
                right: Box::new(right),
            },
        }
    }

    /// Builds what stands in place of `left op right` under this policy,
    /// where `source` is the text of the operation as it was written.
    pub fn binary(self, op: ArithOp, left: Expr, right: Expr, source: &str) -> (out: Expr)
        ensures
            out@ == self.binary_spec(op, left@, right@, source@),
    {
        match self.form() {
            Some(form) => Expr::Arith {
                form,
                op,
                left: Box::new(left),
                right: Box::new(right),
                outcome: self.outcome(source),
            },
            None => Expr::Binary {
                op: BinOp::Arith(op),
                left: Box::new(left),
                right: Box::new(right),
            },
        }
    }

    /// What stands in place of `target op= value` under this policy, where
    /// `source` is the text of the assignment as it was written. The target
    /// stands in it once.
    pub open spec fn compound_spec(
        self,
        op: ArithOp,
        target: ExprView,
        value: ExprView,
        source: Seq<char>,
    ) -> ExprView {
        match self.form_spec() {
            Some(form) => ExprView::Update {
                form,
                op,
                target: Box::new(target),
                value: Box::new(value),
                outcome: self.outcome_spec(source),
            },
            None => ExprView::AssignOp {
                op: CompoundOp::Arith(op),
                target: Box::new(target),
                value: Box::new(value),
            },
        }
    }

    /// Builds what stands in place of `target op= value` under this policy,
    /// where `source` is the text of the assignment as it was written.
    pub fn compound(self, op: ArithOp, target: Expr, value: Expr, source: &str) -> (out: Expr)
        ensures
            out@ == self.compound_spec(op, target@, value@, source@),
    {
        match self.form() {
            Some(form) => Expr::Update {
                form,
                op,
                target: Box::new(target),
                value: Box::new(value),
                outcome: self.outcome(source),
            },
            None => Expr::AssignOp {
                op: CompoundOp::Arith(op),
                target: Box::new(target),
                value: Box::new(value),
            },
        }
    }

    /// What stands in place of `-operand` under this policy, where `source`
    /// is the text of the negation as it was written.
    pub open spec fn negation_spec(self, operand: ExprView, source: Seq<char>) -> ExprView {
        match self.form_spec() {
            Some(form) => ExprView::Negate {
                form,
                operand: Box::new(operand),
                outcome: self.outcome_spec(source),
            },
            None => ExprView::Unary { op: UnOp::Neg, operand: Box::new(operand) },
        }
    }

    /// Builds what stands in place of `-operand` under this policy, where
    /// `source` is the text of the negation as it was written.
    pub fn negation(self, operand: Expr, source: &str) -> (out: Expr)
        ensures
            out@ == self.negation_spec(operand@, source@),
    {
        match self.form() {
            Some(form) => Expr::Negate {
                form,
                operand: Box::new(operand),
                outcome: self.outcome(source),
            },
            None => Expr::Unary { op: UnOp::Neg, operand: Box::new(operand) },
        }
    }
}

} // verus!
