//! Writing trees out as text, and reading that text back with `syn`.

use overf::block::ArithOp;
use overf::block::Policy;
use overf::render::primary;
use overf::render::render_block;
use overf::render::render_diagnostic;
use overf::render::render_expr;
use overf::render::render_method;
use overf::render::render_update;
use overf::render::render_outcome;
use overf::render::render_part;
use overf::render::render_parts;
use overf::render::render_stmt;
use overf::syntax::BinOp;
use overf::syntax::BitOp;
use overf::syntax::Block;
use overf::syntax::CompoundOp;
use overf::syntax::Delimiter;
use overf::syntax::Disposition;
use overf::syntax::Expr;
use overf::syntax::Form;
use overf::syntax::Part;
use overf::syntax::Stmt;
use overf::syntax::UnOp;
use overf::visitor::visit;

fn atom(text: &str) -> Expr {
    Expr::Atom { text: text.to_string() }
}

fn literal(digits: &str, suffix: &str) -> Expr {
    Expr::Literal { digits: digits.to_string(), suffix: suffix.to_string() }
}

fn tokens(text: &str) -> Part {
    Part::Tokens { text: text.to_string() }
}

fn binary(op: ArithOp, left: Expr, right: Expr) -> Expr {
    Expr::Binary { op: BinOp::Arith(op), left: Box::new(left), right: Box::new(right) }
}

fn visited(expr: Expr, policy: Policy) -> Expr {
    let out = visit(&Block { stmts: vec![Stmt::Expr { expr, semi: false }] }, policy);
    match out.stmts.into_iter().next() {
        Some(Stmt::Expr { expr, .. }) => expr,
        _ => unreachable!(),
    }
}

fn same_syntax(text: &str, expected: &str) -> bool {
    let left: syn::Expr = syn::parse_str(text).expect("the text is an expression");
    let right: syn::Expr = syn::parse_str(expected).expect("the expected text is an expression");
    left == right
}

#[test]
fn the_methods_are_named_by_family_and_operator() {
    assert_eq!(render_method(Form::Checked, ArithOp::Add), "checked_add");
    assert_eq!(render_method(Form::Checked, ArithOp::Rem), "checked_rem");
    assert_eq!(render_method(Form::Wrapping, ArithOp::Sub), "wrapping_sub");
    assert_eq!(render_method(Form::Wrapping, ArithOp::Rem), "wrapping_rem");
    assert_eq!(render_method(Form::Saturating, ArithOp::Mul), "saturating_mul");
    assert_eq!(render_method(Form::Saturating, ArithOp::Div), "saturating_div");
    assert_eq!(render_method(Form::Saturating, ArithOp::Rem), "wrapping_rem");
}

#[test]
fn an_update_binds_value_and_place_before_it_assigns() {
    assert_eq!(
        render_update("v[i]", "b", "checked_add", "?"),
        "match (b, &mut v[i]) { (value, place) => *place = (*place).checked_add(value)? }"
    );
    let node = Expr::Update {
        form: Form::Wrapping,
        op: ArithOp::Mul,
        target: Box::new(Expr::Unary { op: UnOp::Deref, operand: Box::new(atom("p")) }),
        value: Box::new(binary(ArithOp::Add, atom("a"), atom("b"))),
        outcome: Disposition::Keep,
    };
    assert_eq!(
        render_expr(&node),
        "match (a + b, &mut (*p)) { (value, place) => *place = (*place).wrapping_mul(value) }"
    );
    assert!(same_syntax(
        &render_expr(&node),
        "match (a + b, &mut (*p)) { (value, place) => *place = (*place).wrapping_mul(value) }"
    ));
    assert!(!primary(&node));
}

#[test]
fn each_arithmetic_operator_has_its_method_in_each_family() {
    let cases = [
        (ArithOp::Add, "+", "add"),
        (ArithOp::Sub, "-", "sub"),
        (ArithOp::Mul, "*", "mul"),
        (ArithOp::Div, "/", "div"),
    ];
    for (op, symbol, stem) in cases {
        let node = binary(op, atom("a"), atom("b"));
        assert_eq!(render_expr(&node), format!("a {} b", symbol));
        assert_eq!(
            render_expr(&visited(node.clone(), Policy::Checked)),
            format!(
                "a.checked_{}(b).expect(\"checked arithmetic failed in `a {} b`\")",
                stem, symbol
            )
        );
        assert_eq!(
            render_expr(&visited(node.clone(), Policy::Overflowing)),
            format!("a.wrapping_{}(b)", stem)
        );
        assert_eq!(
            render_expr(&visited(node.clone(), Policy::Saturating)),
            format!("a.saturating_{}(b)", stem)
        );
        assert_eq!(
            render_expr(&visited(node.clone(), Policy::Propagating)),
            format!("a.checked_{}(b)?", stem)
        );
        assert_eq!(render_expr(&visited(node, Policy::Default)), format!("a {} b", symbol));
    }
}

#[test]
fn the_plain_shapes_are_written_as_they_read() {
    assert_eq!(render_expr(&atom("std::i32::MAX")), "std::i32::MAX");
    assert_eq!(render_expr(&literal("0x10", "usize")), "0x10usize");
    assert_eq!(render_expr(&literal("42", "")), "42");
    assert_eq!(render_expr(&Expr::Paren { inner: Box::new(atom("a")) }), "(a)");
    assert_eq!(
        render_expr(&Expr::Cast { operand: Box::new(atom("a")), ty: "i64".to_string() }),
        "a as i64"
    );
    assert_eq!(
        render_expr(&Expr::Unary { op: UnOp::Neg, operand: Box::new(atom("a")) }),
        "-a"
    );
    assert_eq!(
        render_expr(&Expr::Unary { op: UnOp::Not, operand: Box::new(atom("a")) }),
        "!a"
    );
    assert_eq!(
        render_expr(&Expr::Unary { op: UnOp::Deref, operand: Box::new(atom("a")) }),
        "*a"
    );
    assert_eq!(
        render_expr(&Expr::Assign { target: Box::new(atom("a")), value: Box::new(atom("b")) }),
        "a = b"
    );
    assert_eq!(
        render_expr(&Expr::AssignOp {
            op: CompoundOp::Arith(ArithOp::Mul),
            target: Box::new(atom("a")),
            value: Box::new(atom("b")),
        }),
        "a *= b"
    );
    assert_eq!(
        render_expr(&Expr::AssignOp {
            op: CompoundOp::Bit(BitOp::Shr),
            target: Box::new(atom("a")),
            value: Box::new(atom("b")),
        }),
        "a >>= b"
    );
}

#[test]
fn invocations_are_written_with_their_name() {
    let body = Block {
        stmts: vec![Stmt::Expr { expr: binary(ArithOp::Add, atom("a"), atom("b")), semi: true }],
    };
    let names = [
        (Policy::Checked, "checked"),
        (Policy::Overflowing, "overflowing"),
        (Policy::Saturating, "saturating"),
        (Policy::Propagating, "propagating"),
        (Policy::Default, "default"),
    ];
    for (policy, name) in names {
        assert_eq!(
            render_expr(&Expr::Scope {
                policy,
                path: name.to_string(),
                delimiter: Delimiter::Brace,
                body: body.clone(),
            }),
            format!("{}! {{ a + b; }}", name)
        );
        assert_eq!(
            render_expr(&Expr::Scope {
                policy,
                path: name.to_string(),
                delimiter: Delimiter::Paren,
                body: body.clone(),
            }),
            format!("{}!(a + b;)", name)
        );
        assert_eq!(
            render_expr(&Expr::Scope {
                policy,
                path: name.to_string(),
                delimiter: Delimiter::Bracket,
                body: body.clone(),
            }),
            format!("{}![a + b;]", name)
        );
        assert_eq!(
            render_expr(&Expr::Scope {
                policy,
                path: format!("overf :: {}", name),
                delimiter: Delimiter::Paren,
                body: body.clone(),
            }),
            format!("overf :: {}!(a + b;)", name)
        );
        assert_eq!(
            render_expr(&Expr::Malformed {
                policy,
                path: name.to_string(),
                tokens: "a +".to_string(),
                message: "unexpected end of input".to_string(),
            }),
            format!("{}! {{ a + }}", name)
        );
    }
}

#[test]
fn parts_and_statements_are_separated_by_one_space() {
    assert_eq!(render_parts(&vec![]), "");
    assert_eq!(render_parts(&vec![tokens("return")]), "return");
    assert_eq!(
        render_parts(&vec![tokens("f ("), Part::Expr { expr: atom("a") }, tokens(")")]),
        "f ( a )"
    );
    assert_eq!(render_part(&tokens("loop")), "loop");
    assert_eq!(render_part(&Part::Expr { expr: atom("a") }), "a");
    let inner = Block {
        stmts: vec![
            Stmt::Expr { expr: atom("a"), semi: true },
            Stmt::Expr { expr: atom("b"), semi: false },
        ],
    };
    assert_eq!(render_block(&inner), "a; b");
    assert_eq!(render_part(&Part::Block { block: inner.clone() }), "{ a; b }");
    assert_eq!(render_stmt(&Stmt::Block { block: inner.clone() }), "{ a; b }");
    assert_eq!(render_stmt(&Stmt::Expr { expr: atom("a"), semi: true }), "a;");
    assert_eq!(render_stmt(&Stmt::Expr { expr: atom("a"), semi: false }), "a");
    assert_eq!(
        render_stmt(&Stmt::Decl {
            parts: vec![tokens("let x ="), Part::Expr { expr: atom("a") }, tokens(";")],
        }),
        "let x = a ;"
    );
    assert_eq!(render_part(&Part::Block { block: Block { stmts: vec![] } }), "{  }");
}

#[test]
fn what_follows_the_call_depends_on_the_outcome() {
    assert_eq!(render_outcome(&Disposition::Keep, ""), "");
    assert_eq!(render_outcome(&Disposition::Keep, "\"ignored\""), "");
    assert_eq!(render_outcome(&Disposition::Propagate, ""), "?");
    assert_eq!(
        render_outcome(&Disposition::Abort { message: "m".to_string() }, "\"m\""),
        ".expect(\"m\")"
    );
    assert_eq!(render_diagnostic("\"no block\""), "::core::compile_error! { \"no block\" }");
}

#[test]
fn the_message_is_written_as_a_string_literal() {
    let node = Expr::Arith {
        form: Form::Checked,
        op: ArithOp::Add,
        left: Box::new(atom("a")),
        right: Box::new(atom("b")),
        outcome: Disposition::Abort { message: "plain".to_string() },
    };
    assert_eq!(render_expr(&node), "a.checked_add(b).expect(\"plain\")");
    assert_eq!(
        render_expr(&Expr::Diagnostic { message: "expected `;`".to_string() }),
        "::core::compile_error! { \"expected `;`\" }"
    );
}

#[test]
fn quotes_and_backslashes_in_the_message_are_escaped() {
    let node = binary(ArithOp::Add, atom("map[\"key\"]"), atom("'\\n'"));
    let text = render_expr(&visited(node, Policy::Checked));
    assert_eq!(
        text,
        "map[\"key\"].checked_add('\\n')\
         .expect(\"checked arithmetic failed in `map[\\\"key\\\"] + '\\\\n'`\")"
    );
    let parsed: syn::Expr = syn::parse_str(&text).expect("the text is an expression");
    let message = match parsed {
        syn::Expr::MethodCall(call) => match call.args.first() {
            Some(syn::Expr::Lit(syn::ExprLit { lit: syn::Lit::Str(lit), .. })) => lit.value(),
            _ => panic!("no string literal"),
        },
        _ => panic!("no method call"),
    };
    assert_eq!(message, "checked arithmetic failed in `map[\"key\"] + '\\n'`");
}

#[test]
fn a_diagnostic_carries_its_message_through_the_literal() {
    let message = "unexpected token \"}\"\non line 2\t\\";
    let text = render_expr(&Expr::Diagnostic { message: message.to_string() });
    assert_eq!(
        text,
        "::core::compile_error! { \"unexpected token \\\"}\\\"\\non line 2\\t\\\\\" }"
    );
    let parsed: syn::ExprMacro = syn::parse_str(&text).expect("the text is a macro invocation");
    let lit: syn::LitStr = parsed.mac.parse_body().expect("the body is a string literal");
    assert_eq!(lit.value(), message);
}

#[test]
fn only_primary_expressions_stand_before_a_method_without_parentheses() {
    assert!(primary(&atom("a")));
    assert!(primary(&literal("1", "u8")));
    assert!(primary(&Expr::Paren { inner: Box::new(atom("a")) }));
    assert!(primary(&visited(binary(ArithOp::Add, atom("a"), atom("b")), Policy::Overflowing)));
    assert!(primary(&visited(
        Expr::Unary { op: UnOp::Neg, operand: Box::new(atom("x")) },
        Policy::Overflowing
    )));
    assert!(!primary(&binary(ArithOp::Add, atom("a"), atom("b"))));
    assert!(!primary(&Expr::Unary { op: UnOp::Neg, operand: Box::new(atom("a")) }));
    assert!(!primary(&Expr::Cast { operand: Box::new(atom("a")), ty: "u8".to_string() }));
    assert!(!primary(&Expr::Other { parts: vec![tokens("f ( )")] }));
    assert!(!primary(&Expr::Assign { target: Box::new(atom("a")), value: Box::new(atom("b")) }));
}

#[test]
fn an_operand_that_binds_less_tightly_than_the_call_is_put_in_parentheses() {
    // a as i64 + b
    let cast = Expr::Cast { operand: Box::new(atom("a")), ty: "i64".to_string() };
    let text = render_expr(&visited(binary(ArithOp::Add, cast, atom("b")), Policy::Propagating));
    assert_eq!(text, "(a as i64).checked_add(b)?");
    assert!(same_syntax(&text, "(a as i64).checked_add(b)?"));

    // -1 * y: the negated literal stays, and is no primary expression
    let negation = Expr::Unary { op: UnOp::Neg, operand: Box::new(literal("1", "")) };
    let text =
        render_expr(&visited(binary(ArithOp::Mul, negation, atom("y")), Policy::Overflowing));
    assert_eq!(text, "(-1).wrapping_mul(y)");
    assert!(same_syntax(&text, "(-1).wrapping_mul(y)"));
    assert!(!same_syntax(&text, "-1.wrapping_mul(y)"));

    // -x * y
    let negation = Expr::Unary { op: UnOp::Neg, operand: Box::new(atom("x")) };
    let text =
        render_expr(&visited(binary(ArithOp::Mul, negation, atom("y")), Policy::Overflowing));
    assert_eq!(text, "x.wrapping_neg().wrapping_mul(y)");

    // f(x) + 1
    let call = Expr::Other { parts: vec![tokens("f ("), Part::Expr { expr: atom("x") }, tokens(")")] };
    let text =
        render_expr(&visited(binary(ArithOp::Add, call, literal("1", "")), Policy::Saturating));
    assert_eq!(text, "(f ( x )).saturating_add(1)");
    assert!(same_syntax(&text, "(f(x)).saturating_add(1)"));

    // under the default policy inside another: a + b stays, and is the operand of a call
    let reset = Expr::Binary {
        op: BinOp::Arith(ArithOp::Add),
        left: Box::new(atom("a")),
        right: Box::new(atom("b")),
    };
    let node = Expr::Arith {
        form: Form::Wrapping,
        op: ArithOp::Mul,
        left: Box::new(reset),
        right: Box::new(atom("c")),
        outcome: Disposition::Keep,
    };
    assert_eq!(render_expr(&node), "(a + b).wrapping_mul(c)");
}

#[test]
fn a_primary_operand_needs_no_parentheses() {
    // (a + b) * c
    let sum = Expr::Paren { inner: Box::new(binary(ArithOp::Add, atom("a"), atom("b"))) };
    let text = render_expr(&visited(binary(ArithOp::Mul, sum, atom("c")), Policy::Overflowing));
    assert_eq!(text, "(a.wrapping_add(b)).wrapping_mul(c)");
    assert!(same_syntax(&text, "(a.wrapping_add(b)).wrapping_mul(c)"));

    // a + b + c
    let chain = binary(ArithOp::Add, binary(ArithOp::Add, atom("a"), atom("b")), atom("c"));
    let text = render_expr(&visited(chain, Policy::Propagating));
    assert_eq!(text, "a.checked_add(b)?.checked_add(c)?");
    assert!(same_syntax(&text, "a.checked_add(b)?.checked_add(c)?"));

    // 10usize + 5usize, and a literal without suffix
    let text = render_expr(&visited(
        binary(ArithOp::Add, literal("10", "usize"), literal("5", "usize")),
        Policy::Saturating,
    ));
    assert_eq!(text, "10usize.saturating_add(5usize)");
    assert!(same_syntax(&text, "10usize.saturating_add(5usize)"));
    let text = render_expr(&visited(
        binary(ArithOp::Add, literal("5", ""), atom("a")),
        Policy::Saturating,
    ));
    assert_eq!(text, "5.saturating_add(a)");
    let parsed: syn::Expr = syn::parse_str(&text).expect("the text is an expression");
    assert!(matches!(parsed, syn::Expr::MethodCall(_)));
}

#[test]
fn what_the_visitor_hands_back_reads_as_the_same_rust_as_written_by_hand() {
    // total = total / (count - 1) % limit
    let quotient = binary(
        ArithOp::Div,
        atom("total"),
        Expr::Paren { inner: Box::new(binary(ArithOp::Sub, atom("count"), literal("1", ""))) },
    );
    let node = Expr::Assign {
        target: Box::new(atom("total")),
        value: Box::new(binary(ArithOp::Rem, quotient, atom("limit"))),
    };
    let text = render_expr(&visited(node, Policy::Overflowing));
    assert!(same_syntax(
        &text,
        "total = total.wrapping_div((count.wrapping_sub(1))).wrapping_rem(limit)"
    ));
}
