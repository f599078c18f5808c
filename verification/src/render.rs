//! Writing a tree out as source text.
//!
//! Tokens are written with single spaces where a space is needed and none
//! where the usual layout has none, so that a tree that was not rewritten
//! comes out as it reads. The operand on which a method is called is put in
//! parentheses unless it binds at least as tightly as the call.

use vstd::prelude::*;

use crate::block::ArithOp;
use crate::syntax::BinOp;
use crate::syntax::BitOp;
use crate::syntax::Block;
use crate::syntax::CompoundOp;
use crate::syntax::Delimiter;
use crate::syntax::Disposition;
use crate::syntax::DispositionView;
use crate::syntax::Expr;
use crate::syntax::ExprView;
use crate::syntax::Form;
use crate::syntax::LogicOp;
use crate::syntax::Part;
use crate::syntax::PartView;
use crate::syntax::RelOp;
use crate::syntax::Stmt;
use crate::syntax::StmtView;
use crate::syntax::UnOp;
use crate::syntax::parts_model;
use crate::syntax::stmts_model;

verus! {

/// The string literal that denotes `text`, quotes and escapes included, as
/// `proc_macro2::Literal::string` writes it.
pub uninterp spec fn string_literal(text: Seq<char>) -> Seq<char>;

/// Calls `proc_macro2::Literal::string` on `text` and writes the literal out
/// with its `Display` impl.
///
/// Not proved, but taken from the source of `proc-macro2`: that the text
/// which comes back depends on `text` alone. This holds on one condition:
/// that the `proc-macro` feature of `proc-macro2` is off in the whole build.
/// This library asks for the crate without it; a build in which another
/// crate switches it on has it on here too. With the feature off the
/// literal is always made by the `fallback` module of that crate: a quote,
/// each character of `text` as `char::escape_debug` writes it (but `'` as it
/// is, and the null character as `\0` or `\x00`), and a quote. With the
/// feature on, and inside a macro expansion, the compiler makes the literal
/// instead, and nothing here says that it writes the same. Nothing is
/// claimed of what the escapes are.
#[verifier::external_body]
fn quote_string(text: &str) -> (out: String)
    ensures
        out@ == string_literal(text@),
{
    proc_macro2::Literal::string(text).to_string()
}

/// The symbol of an arithmetic operator.
pub open spec fn arith_symbol(op: ArithOp) -> Seq<char> {
    match op {
        ArithOp::Add => "+"@,
        ArithOp::Sub => "-"@,
        ArithOp::Mul => "*"@,
        ArithOp::Div => "/"@,
        ArithOp::Rem => "%"@,
    }
}

/// The symbol of a bitwise operator.
pub open spec fn bit_symbol(op: BitOp) -> Seq<char> {
    match op {
        BitOp::Xor => "^"@,
        BitOp::And => "&"@,
        BitOp::Or => "|"@,
        BitOp::Shl => "<<"@,
        BitOp::Shr => ">>"@,
    }
}

/// The symbol of a boolean operator.
pub open spec fn logic_symbol(op: LogicOp) -> Seq<char> {
    match op {
        LogicOp::And => "&&"@,
        LogicOp::Or => "||"@,
    }
}

/// The symbol of a comparison operator.
pub open spec fn rel_symbol(op: RelOp) -> Seq<char> {
    match op {
        RelOp::Eq => "=="@,
        RelOp::Lt => "<"@,
        RelOp::Le => "<="@,
        RelOp::Ne => "!="@,
        RelOp::Ge => ">="@,
        RelOp::Gt => ">"@,
    }
}

/// The symbol of a binary operator.
pub open spec fn binary_symbol(op: BinOp) -> Seq<char> {
    match op {
        BinOp::Arith(op) => arith_symbol(op),
        BinOp::Bit(op) => bit_symbol(op),
        BinOp::Logic(op) => logic_symbol(op),
        BinOp::Rel(op) => rel_symbol(op),
    }
}

/// The symbol of a compound assignment, without its `=`.
pub open spec fn compound_symbol(op: CompoundOp) -> Seq<char> {
    match op {
        CompoundOp::Arith(op) => arith_symbol(op),
        CompoundOp::Bit(op) => bit_symbol(op),
    }
}

/// The symbol of a prefix operator.
pub open spec fn unary_symbol(op: UnOp) -> Seq<char> {
    match op {
        UnOp::Neg => "-"@,
        UnOp::Not => "!"@,
        UnOp::Deref => "*"@,
    }
}

/// What the names of the methods of a family begin with.
pub open spec fn form_prefix(form: Form) -> Seq<char> {
    match form {
        Form::Checked => "checked_"@,
        Form::Wrapping => "wrapping_"@,
        Form::Saturating => "saturating_"@,
    }
}

/// What the name of the method for an operator ends with.
pub open spec fn arith_stem(op: ArithOp) -> Seq<char> {
    match op {
        ArithOp::Add => "add"@,
        ArithOp::Sub => "sub"@,
        ArithOp::Mul => "mul"@,
        ArithOp::Div => "div"@,
        ArithOp::Rem => "rem"@,
    }
}

/// The family whose method is called for `op` in the family `form`: the
/// family itself, but for the saturating remainder. The integers of the
/// standard library have no saturating remainder: a remainder always lies
/// between zero and the dividend, so that there is nothing to clamp, and
/// the wrapping remainder is what is called.
pub open spec fn method_form(form: Form, op: ArithOp) -> Form {
    if form == Form::Saturating && op == ArithOp::Rem {
        Form::Wrapping
    } else {
        form
    }
}

/// The name of the method that stands for `op` in the family `form`, such as
/// `checked_add`.
pub open spec fn method_name(form: Form, op: ArithOp) -> Seq<char> {
    form_prefix(method_form(form, op)) + arith_stem(op)
}

/// The name of the method that stands for negation in the family `form`,
/// such as `wrapping_neg`.
pub open spec fn negation_name(form: Form) -> Seq<char> {
    form_prefix(form) + "neg"@
}

/// What follows a method call for the outcome `outcome`, where `literal` is
/// the string literal of the message of an abort.
pub open spec fn outcome_suffix(outcome: DispositionView, literal: Seq<char>) -> Seq<char> {
    match outcome {
        DispositionView::Keep => Seq::empty(),
        DispositionView::Abort { .. } => ".expect("@ + literal + ")"@,
        DispositionView::Propagate => "?"@,
    }
}

/// The string literal of the message of `outcome`, where it has one.
pub open spec fn outcome_literal(outcome: DispositionView) -> Seq<char> {
    match outcome {
        DispositionView::Abort { message } => string_literal(message),
        _ => Seq::empty(),
    }
}

/// The invocation of `compile_error` that reports the message whose string
/// literal is `literal`. It is written with braces, so that it can stand as
/// a statement without a semicolon, as the invocation in whose place it
/// stands may have done.
pub open spec fn diagnostic_text(literal: Seq<char>) -> Seq<char> {
    "::core::compile_error! { "@ + literal + " }"@
}

/// The text of a rewritten compound assignment: the value and the place of
/// the target are bound first, each written once and the value first, as a
/// compound assignment of integers evaluates them; then the place is
/// assigned what the method `method` gives for it and the value, followed by
/// `suffix`.
pub open spec fn update_text(
    target: Seq<char>,
    value: Seq<char>,
    method: Seq<char>,
    suffix: Seq<char>,
) -> Seq<char> {
    "match ("@ + value + ", &mut "@ + target + ") { (value, place) => *place = (*place)."@ + method
        + "(value)"@ + suffix + " }"@
}

/// Whether an expression may stand before `.method(..)` without parentheses.
pub open spec fn is_primary(e: ExprView) -> bool {
    e is Atom || e is Literal || e is Paren || e is Arith || e is Negate
}

/// `text` as the operand on which a method is called: as it is where the
/// expression is primary, in parentheses where it is not.
pub open spec fn receiver_text(primary: bool, text: Seq<char>) -> Seq<char> {
    if primary {
        text
    } else {
        "("@ + text + ")"@
    }
}

/// `inner` between braces.
pub open spec fn braced(inner: Seq<char>) -> Seq<char> {
    "{ "@ + inner + " }"@
}

/// What opens the content of an invocation, after its `!`.
pub open spec fn opening(delimiter: Delimiter) -> Seq<char> {
    match delimiter {
        Delimiter::Paren => "("@,
        Delimiter::Brace => " { "@,
        Delimiter::Bracket => "["@,
    }
}

/// What closes the content of an invocation.
pub open spec fn closing(delimiter: Delimiter) -> Seq<char> {
    match delimiter {
        Delimiter::Paren => ")"@,
        Delimiter::Brace => " }"@,
        Delimiter::Bracket => "]"@,
    }
}

/// The invocation of the macro at the path `name` on `inner`.
pub open spec fn invocation_text(
    name: Seq<char>,
    delimiter: Delimiter,
    inner: Seq<char>,
) -> Seq<char> {
    name + "!"@ + opening(delimiter) + inner + closing(delimiter)
}

/// The text of a binary operator between the texts of its operands.
pub open spec fn operation_text(op: BinOp, left: Seq<char>, right: Seq<char>) -> Seq<char> {
    left + " "@ + binary_symbol(op) + " "@ + right
}

/// The source text of an expression.
pub open spec fn expr_text(e: ExprView) -> Seq<char>
    decreases e,
{
    match e {
        ExprView::Atom { text } => text,
        ExprView::Literal { digits, suffix } => digits + suffix,
        ExprView::Paren { inner } => "("@ + expr_text(*inner) + ")"@,
        ExprView::Cast { operand, ty } => expr_text(*operand) + " as "@ + ty,
        ExprView::Unary { op, operand } => unary_symbol(op) + expr_text(*operand),
        ExprView::Binary { op, left, right } => operation_text(
            op,
            expr_text(*left),
            expr_text(*right),
        ),
        ExprView::Assign { target, value } => expr_text(*target) + " = "@ + expr_text(*value),
        ExprView::AssignOp { op, target, value } => expr_text(*target) + " "@ + compound_symbol(op)
            + "= "@ + expr_text(*value),
        ExprView::Scope { path, delimiter, body, .. } => invocation_text(
            path,
            delimiter,
            stmts_text(body),
        ),
        ExprView::Malformed { path, tokens, .. } => invocation_text(path, Delimiter::Brace, tokens),
        ExprView::Other { parts } => parts_text(parts),
        ExprView::Arith { form, op, left, right, outcome } => receiver_text(
            is_primary(*left),
            expr_text(*left),
        ) + "."@ + method_name(form, op) + "("@ + expr_text(*right) + ")"@ + outcome_suffix(
            outcome,
            outcome_literal(outcome),
        ),
        ExprView::Negate { form, operand, outcome } => receiver_text(
            is_primary(*operand),
            expr_text(*operand),
        ) + "."@ + negation_name(form) + "()"@ + outcome_suffix(outcome, outcome_literal(outcome)),
        ExprView::Update { form, op, target, value, outcome } => update_text(
            receiver_text(is_primary(*target), expr_text(*target)),
            expr_text(*value),
            method_name(form, op),
            outcome_suffix(outcome, outcome_literal(outcome)),
        ),
        ExprView::Diagnostic { message } => diagnostic_text(string_literal(message)),
    }
}

/// The source text of a part.
pub open spec fn part_text(p: PartView) -> Seq<char>
    decreases p,
{
    match p {
        PartView::Tokens { text } => text,
        PartView::Expr { expr } => expr_text(expr),
        PartView::Block { block } => braced(stmts_text(block)),
    }
}

/// The source text of a sequence of parts: their texts, with one space
/// between each two.
pub open spec fn parts_text(parts: Seq<PartView>) -> Seq<char>
    decreases parts,
{
    if parts.len() == 0 {
        Seq::empty()
    } else if parts.len() == 1 {
        part_text(parts[0])
    } else {
        parts_text(parts.drop_last()) + " "@ + part_text(parts.last())
    }
}

/// The source text of a statement.
pub open spec fn stmt_text(s: StmtView) -> Seq<char>
    decreases s,
{
    match s {
        StmtView::Decl { parts } => parts_text(parts),
        StmtView::Expr { expr, semi } => if semi {
            expr_text(expr) + ";"@
        } else {
            expr_text(expr)
        },
        StmtView::Block { block } => braced(stmts_text(block)),
    }
}

/// The source text of a sequence of statements: their texts, with one space
/// between each two.
pub open spec fn stmts_text(stmts: Seq<StmtView>) -> Seq<char>
    decreases stmts,
{
    if stmts.len() == 0 {
        Seq::empty()
    } else if stmts.len() == 1 {
        stmt_text(stmts[0])
    } else {
        stmts_text(stmts.drop_last()) + " "@ + stmt_text(stmts.last())
    }
}

fn arith_symbol_of(op: ArithOp) -> (out: &'static str)
    ensures
        out@ == arith_symbol(op),
{
    match op {
        ArithOp::Add => "+",
        ArithOp::Sub => "-",
        ArithOp::Mul => "*",
        ArithOp::Div => "/",
        ArithOp::Rem => "%",
    }
}

fn bit_symbol_of(op: BitOp) -> (out: &'static str)
    ensures
        out@ == bit_symbol(op),
{
    match op {
        BitOp::Xor => "^",
        BitOp::And => "&",
        BitOp::Or => "|",
        BitOp::Shl => "<<",
        BitOp::Shr => ">>",
    }
}

fn binary_symbol_of(op: BinOp) -> (out: &'static str)
    ensures
        out@ == binary_symbol(op),
{
    match op {
        BinOp::Arith(op) => arith_symbol_of(op),
        BinOp::Bit(op) => bit_symbol_of(op),
        BinOp::Logic(LogicOp::And) => "&&",
        BinOp::Logic(LogicOp::Or) => "||",
        BinOp::Rel(RelOp::Eq) => "==",
        BinOp::Rel(RelOp::Lt) => "<",
        BinOp::Rel(RelOp::Le) => "<=",
        BinOp::Rel(RelOp::Ne) => "!=",
        BinOp::Rel(RelOp::Ge) => ">=",
        BinOp::Rel(RelOp::Gt) => ">",
    }
}

fn compound_symbol_of(op: CompoundOp) -> (out: &'static str)
    ensures
        out@ == compound_symbol(op),
{
    match op {
        CompoundOp::Arith(op) => arith_symbol_of(op),
        CompoundOp::Bit(op) => bit_symbol_of(op),
    }
}

fn unary_symbol_of(op: UnOp) -> (out: &'static str)
    ensures
        out@ == unary_symbol(op),
{
    match op {
        UnOp::Neg => "-",
        UnOp::Not => "!",
        UnOp::Deref => "*",
    }
}

fn form_prefix_of(form: Form) -> (out: &'static str)
    ensures
        out@ == form_prefix(form),
{
    match form {
        Form::Checked => "checked_",
        Form::Wrapping => "wrapping_",
        Form::Saturating => "saturating_",
    }
}

fn arith_stem_of(op: ArithOp) -> (out: &'static str)
    ensures
        out@ == arith_stem(op),
{
    match op {
        ArithOp::Add => "add",
        ArithOp::Sub => "sub",
        ArithOp::Mul => "mul",
        ArithOp::Div => "div",
        ArithOp::Rem => "rem",
    }
}

/// Writes what follows a method call for the outcome `outcome`, where
/// `literal` is the string literal of the message of an abort.
pub fn render_outcome(outcome: &Disposition, literal: &str) -> (out: String)
    ensures
        out@ == outcome_suffix(outcome@, literal@),
{
    match outcome {
        Disposition::Keep => String::new(),
        Disposition::Abort { .. } => {
            let mut out = String::from_str(".expect(");
            out.append(literal);
            out.append(")");
            out
        },
        Disposition::Propagate => String::from_str("?"),
    }
}

/// Writes the invocation of `compile_error` that reports the message whose
/// string literal is `literal`.
pub fn render_diagnostic(literal: &str) -> (out: String)
    ensures
        out@ == diagnostic_text(literal@),
{
    let mut out = String::from_str("::core::compile_error! { ");
    out.append(literal);
    out.append(" }");
    out
}

/// The string literal of the message of `outcome`, where it has one.
fn quote_outcome(outcome: &Disposition) -> (out: String)
    ensures
        out@ == outcome_literal(outcome@),
{
    match outcome {
        Disposition::Abort { message } => quote_string(message.as_str()),
        _ => String::new(),
    }
}

/// Whether an expression may stand before `.method(..)` without parentheses.
pub fn primary(e: &Expr) -> (b: bool)
    ensures
        b == is_primary(e@),
{
    match e {
        Expr::Atom { .. } => true,
        Expr::Literal { .. } => true,
        Expr::Paren { .. } => true,
        Expr::Arith { .. } => true,
        Expr::Negate { .. } => true,
        _ => false,
    }
}

fn render_receiver(primary: bool, text: String) -> (out: String)
    ensures
        out@ == receiver_text(primary, text@),
{
    if primary {
        text
    } else {
        let mut out = String::from_str("(");
        out.append(text.as_str());
        out.append(")");
        out
    }
}

fn render_braced(inner: &str) -> (out: String)
    ensures
        out@ == braced(inner@),
{
    let mut out = String::from_str("{ ");
    out.append(inner);
    out.append(" }");
    out
}

fn render_invocation(name: &str, delimiter: Delimiter, inner: &str) -> (out: String)
    ensures
        out@ == invocation_text(name@, delimiter, inner@),
{
    let mut out = name.to_owned();
    out.append("!");
    out.append(
        match delimiter {
            Delimiter::Paren => "(",
            Delimiter::Brace => " { ",
            Delimiter::Bracket => "[",
        },
    );
    out.append(inner);
    out.append(
        match delimiter {
            Delimiter::Paren => ")",
            Delimiter::Brace => " }",
            Delimiter::Bracket => "]",
        },
    );
    out
}

/// Writes the name of the method that stands for `op` in the family `form`.
pub fn render_method(form: Form, op: ArithOp) -> (out: String)
    ensures
        out@ == method_name(form, op),
{
    let family = match (form, op) {
        (Form::Saturating, ArithOp::Rem) => Form::Wrapping,
        _ => form,
    };
    let mut out = String::from_str(form_prefix_of(family));
    out.append(arith_stem_of(op));
    out
}

/// Writes a rewritten compound assignment out, from the texts of its parts.
pub fn render_update(target: &str, value: &str, method: &str, suffix: &str) -> (out: String)
    ensures
        out@ == update_text(target@, value@, method@, suffix@),
{
    let mut out = String::from_str("match (");
    out.append(value);
    out.append(", &mut ");
    out.append(target);
    out.append(") { (value, place) => *place = (*place).");
    out.append(method);
    out.append("(value)");
    out.append(suffix);
    out.append(" }");
    out
}

/// Writes an expression out as source text.
pub fn render_expr(e: &Expr) -> (out: String)
    ensures
        out@ == expr_text(e@),
    decreases e,
{
    match e {
        Expr::Atom { text } => text.clone(),
        Expr::Literal { digits, suffix } => {
            let mut out = digits.clone();
            out.append(suffix.as_str());
            out
        },
        Expr::Paren { inner } => {
            let mut out = String::from_str("(");
            out.append(render_expr(inner).as_str());
            out.append(")");
            out
        },
        Expr::Cast { operand, ty } => {
            let mut out = render_expr(operand);
            out.append(" as ");
            out.append(ty.as_str());
            out
        },
        Expr::Unary { op, operand } => {
            let mut out = String::from_str(unary_symbol_of(*op));
            out.append(render_expr(operand).as_str());
            out
        },
        Expr::Binary { op, left, right } => {
            let mut out = render_expr(left);
            out.append(" ");
            out.append(binary_symbol_of(*op));
            out.append(" ");
            out.append(render_expr(right).as_str());
            out
        },
        Expr::Assign { target, value } => {
            let mut out = render_expr(target);
            out.append(" = ");
            out.append(render_expr(value).as_str());
            out
        },
        Expr::AssignOp { op, target, value } => {
            let mut out = render_expr(target);
            out.append(" ");
            out.append(compound_symbol_of(*op));
            out.append("= ");
            out.append(render_expr(value).as_str());
            out
        },
        Expr::Scope { path, delimiter, body, .. } => render_invocation(
            path.as_str(),
            *delimiter,
            render_block(body).as_str(),
        ),
        Expr::Malformed { path, tokens, .. } => render_invocation(
            path.as_str(),
            Delimiter::Brace,
            tokens.as_str(),
        ),
        Expr::Other { parts } => render_parts(parts),
        Expr::Arith { form, op, left, right, outcome } => {
            let mut out = render_receiver(primary(left), render_expr(left));
            out.append(".");
            out.append(render_method(*form, *op).as_str());
            out.append("(");
            out.append(render_expr(right).as_str());
            out.append(")");
            out.append(render_outcome(outcome, quote_outcome(outcome).as_str()).as_str());
            out
        },
        Expr::Negate { form, operand, outcome } => {
            let mut out = render_receiver(primary(operand), render_expr(operand));
            out.append(".");
            let mut name = String::from_str(form_prefix_of(*form));
            name.append("neg");
            out.append(name.as_str());
            out.append("()");
            out.append(render_outcome(outcome, quote_outcome(outcome).as_str()).as_str());
            out
        },
        Expr::Update { form, op, target, value, outcome } => {
            let place = render_receiver(primary(target), render_expr(target));
            let suffix = render_outcome(outcome, quote_outcome(outcome).as_str());
            render_update(
                place.as_str(),
                render_expr(value).as_str(),
                render_method(*form, *op).as_str(),
                suffix.as_str(),
            )
        },
        Expr::Diagnostic { message } => render_diagnostic(quote_string(message.as_str()).as_str()),
    }
}

/// Writes a part out as source text.
pub fn render_part(p: &Part) -> (out: String)
    ensures
        out@ == part_text(p@),
    decreases p,
{
    match p {
        Part::Tokens { text } => text.clone(),
        Part::Expr { expr } => render_expr(expr),
        Part::Block { block } => render_braced(render_block(block).as_str()),
    }
}

/// Writes parts out as source text, with one space between each two.
pub fn render_parts(parts: &Vec<Part>) -> (out: String)
    ensures
        out@ == parts_text(parts_model(parts@)),
    decreases parts,
{
    let ghost views = parts_model(parts@);
    let mut out = String::new();
    let mut i: usize = 0;
    while i < parts.len()
        invariant
            i <= parts.len(),
            views == parts_model(parts@),
            out@ == parts_text(views.take(i as int)),
        decreases parts.len() - i,
    {
        let text = render_part(&parts[i]);
        if i > 0 {
            out.append(" ");
        }
        out.append(text.as_str());
        assert(views.take(i + 1).drop_last() =~= views.take(i as int));
        i = i + 1;
    }
    assert(views.take(i as int) =~= views);
    out
}

/// Writes a statement out as source text.
pub fn render_stmt(s: &Stmt) -> (out: String)
    ensures
        out@ == stmt_text(s@),
    decreases s,
{
    match s {
        Stmt::Decl { parts } => render_parts(parts),
        Stmt::Expr { expr, semi } => {
            let mut out = render_expr(expr);
            if *semi {
                out.append(";");
            }
            out
        },
        Stmt::Block { block } => render_braced(render_block(block).as_str()),
    }
}

/// Writes the statements of a block out as source text, with one space
/// between each two and no braces around them.
pub fn render_block(block: &Block) -> (out: String)
    ensures
        out@ == stmts_text(block@),
    decreases block,
{
    let ghost views = stmts_model(block.stmts@);
    let mut out = String::new();
    let mut i: usize = 0;
    while i < block.stmts.len()
        invariant
            i <= block.stmts.len(),
            views == stmts_model(block.stmts@),
            out@ == stmts_text(views.take(i as int)),
        decreases block.stmts.len() - i,
    {
        let text = render_stmt(&block.stmts[i]);
        if i > 0 {
            out.append(" ");
        }
        out.append(text.as_str());
        assert(views.take(i + 1).drop_last() =~= views.take(i as int));
        i = i + 1;
    }
    assert(views.take(i as int) =~= views);
    out
}

} // verus!
