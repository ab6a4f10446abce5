use mun_frontend::ast::nodes::{ExprKind, ModuleItemKind, PatKind, StmtKind, TypeRefKind};
use mun_frontend::ast::traits::{ModuleItemOwner, NameOwner, TypeAscriptionOwner};
use mun_frontend::ast::AstNode;
use mun_frontend::green::print_green;
use mun_frontend::parser::{parse, ParseErrorKind};
use mun_frontend::syntax_kind::SyntaxKind;

fn text_of(node: &mun_frontend::syntax_node::SyntaxNode) -> String {
    String::from_utf8(print_green(node.green())).unwrap()
}

#[test]
fn parse_empty_file() {
    let parse = parse("");
    assert!(parse.errors().is_empty());
    let file = parse.tree();
    assert_eq!(file.syntax().kind(), SyntaxKind::SOURCE_FILE);
    assert!(file.items().is_empty());
    assert!(print_green(parse.green()).is_empty());
}

#[test]
fn parse_function_with_body() {
    let parse = parse("fn add(a: int, b: int) -> int { a + b }");
    assert!(parse.errors().is_empty(), "{:?}", parse.errors());
    let items = parse.tree().items();
    assert_eq!(items.len(), 1);
    let function = match items[0].kind() {
        ModuleItemKind::FunctionDef(f) => f,
        other => panic!("not a function: {:?}", other),
    };
    assert_eq!(text_of(function.name().unwrap().syntax()), "add");
    let params = function.param_list().unwrap().params();
    assert_eq!(params.len(), 2);
    assert_eq!(text_of(params[0].pat().unwrap().syntax()), "a");
    assert_eq!(text_of(params[1].ascribed_type().unwrap().syntax()), "int");
    let ret = function.ret_type().unwrap().type_ref().unwrap();
    match ret.kind() {
        TypeRefKind::PathType(p) => assert_eq!(text_of(p.syntax()), "int"),
        other => panic!("not a path type: {:?}", other),
    }
    let body = function.body().unwrap();
    assert!(body.statements().is_empty());
    match body.expr().unwrap().kind() {
        ExprKind::BinExpr(bin) => {
            let operands = bin.syntax().children();
            assert_eq!(operands.len(), 2);
            assert_eq!(operands[0].kind(), SyntaxKind::PATH_EXPR);
            assert_eq!(operands[1].kind(), SyntaxKind::PATH_EXPR);
        },
        other => panic!("not a binary expression: {:?}", other),
    }
}

#[test]
fn parse_placeholder_pattern() {
    let parse = parse("fn f() { let _ = 1; }");
    assert!(parse.errors().is_empty(), "{:?}", parse.errors());
    let items = parse.tree().items();
    let function = match items[0].kind() {
        ModuleItemKind::FunctionDef(f) => f,
        other => panic!("not a function: {:?}", other),
    };
    let statements = function.body().unwrap().statements();
    assert_eq!(statements.len(), 1);
    let let_stmt = match statements[0].kind() {
        StmtKind::LetStmt(l) => l,
        other => panic!("not a let: {:?}", other),
    };
    assert!(matches!(let_stmt.pat().unwrap().kind(), PatKind::PlaceholderPat(_)));
    match let_stmt.initializer().unwrap().kind() {
        ExprKind::Literal(l) => assert_eq!(text_of(l.syntax()), "1"),
        other => panic!("not a literal: {:?}", other),
    }
}

#[test]
fn parse_error_recovery() {
    let text = "fn () { 1 + }";
    let parse = parse(text);
    let errors = parse.errors();
    assert!(errors.len() >= 2, "{:?}", errors);
    assert!(errors.iter().any(|e| e.kind == ParseErrorKind::ExpectedName && e.offset == 3));
    assert!(errors.iter().any(|e| e.kind == ParseErrorKind::ExpectedExpression && e.offset == 12));
    let items = parse.tree().items();
    assert_eq!(items.len(), 1);
    match items[0].kind() {
        ModuleItemKind::FunctionDef(f) => assert!(f.name().is_none()),
        other => panic!("not a function: {:?}", other),
    }
    assert_eq!(print_green(parse.green()), text.as_bytes());
}

#[test]
fn parse_keeps_every_byte() {
    let samples = [
        "",
        "   ",
        "// only a comment",
        "fn main() {}\n",
        "pub struct Foo { a: int, b: float }\nstruct Bar(int, never);\nstruct Baz;",
        "fn f(x: int) -> int { if x < 1 { return 1; } else { x * f(x - 1) } }",
        "fn g() { while true { break; } loop { } }",
        "}}} fn ((( let ;;; \"unterminated",
        "fn h() { let a = -(1 + 2) * 3; a = a + 1; h(a, !b) }",
        "/* block */ fn k() { /* inner */ } \u{1F600} äöü",
    ];
    for text in samples.iter() {
        let parse = parse(text);
        assert_eq!(print_green(parse.green()), text.as_bytes(), "{:?}", text);
        let again = parse.reparse();
        assert_eq!(again, parse);
    }
}

#[test]
fn deep_and_long_inputs_parse_without_running_out() {
    let mut nested = String::from("fn f() { ");
    for _ in 0..200 {
        nested.push('(');
    }
    nested.push('1');
    for _ in 0..200 {
        nested.push(')');
    }
    nested.push_str(" }");
    let parse_nested = parse(&nested);
    assert!(parse_nested.errors().is_empty(), "{:?}", parse_nested.errors());
    assert_eq!(print_green(parse_nested.green()), nested.as_bytes());

    let mut chain = String::from("fn f() { 1");
    for i in 0..500 {
        chain.push_str(if i % 2 == 0 { " + 1" } else { " * -x(2, 3)" });
    }
    chain.push_str(" }");
    let parse_chain = parse(&chain);
    assert!(parse_chain.errors().is_empty(), "{:?}", parse_chain.errors());

    let mut many = String::new();
    for i in 0..300 {
        many.push_str(&format!(
            "/// item {}\nfn f{}(a: int) {{ let x = a; x; if x {{ }} else {{ }} }}\n",
            i, i
        ));
    }
    let parse_many = parse(&many);
    assert!(parse_many.errors().is_empty(), "{:?}", parse_many.errors());
    assert_eq!(parse_many.tree().items().len(), 300);
    assert_eq!(print_green(parse_many.green()), many.as_bytes());

    let mut blocks = String::from("fn f() ");
    for _ in 0..100 {
        blocks.push_str("{ loop { while a { if b ");
    }
    blocks.push_str("{ }");
    for _ in 0..100 {
        blocks.push_str(" } } }");
    }
    let parse_blocks = parse(&blocks);
    assert!(parse_blocks.errors().is_empty(), "{:?}", parse_blocks.errors());
}

#[test]
fn operators_bind_by_their_strength() {
    let parse = parse("fn f() { a = b || c && d == e + f * g }");
    assert!(parse.errors().is_empty(), "{:?}", parse.errors());
    let function = match parse.tree().items()[0].kind() {
        ModuleItemKind::FunctionDef(f) => f,
        other => panic!("{:?}", other),
    };
    let mut expr = function.body().unwrap().expr().unwrap();
    let mut seen = Vec::new();
    loop {
        match expr.kind() {
            ExprKind::BinExpr(bin) => {
                seen.push((text_of(bin.lhs().unwrap().syntax()), bin.op_kind().unwrap()));
                expr = bin.rhs().unwrap();
            },
            _ => break,
        }
    }
    let ops: Vec<String> = seen.iter().map(|(lhs, op)| format!("{} {:?}", lhs, op)).collect();
    assert_eq!(ops, vec!["a Assign", "b Or", "c And", "d Equals", "e Add", "f Multiply"]);
    // Operators of the same strength group to the left.
    let parse = mun_frontend::parser::parse("fn f() { a - b - c }");
    let function = match parse.tree().items()[0].kind() {
        ModuleItemKind::FunctionDef(f) => f,
        other => panic!("{:?}", other),
    };
    match function.body().unwrap().expr().unwrap().kind() {
        ExprKind::BinExpr(bin) => {
            assert_eq!(text_of(bin.lhs().unwrap().syntax()), "a - b");
            assert_eq!(text_of(bin.rhs().unwrap().syntax()), "c");
        },
        other => panic!("{:?}", other),
    }
}
