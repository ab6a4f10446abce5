use mun_frontend::builder::GreenNodeBuilder;
use mun_frontend::file_structure::file_structure;
use mun_frontend::green::{print_green, GreenElement, GreenNode, GreenToken};
use mun_frontend::hir::lower::Lowerer;
use mun_frontend::hir::{Expr, LowerErrorKind};
use mun_frontend::lexer::{first_token, tokenize, Token};
use mun_frontend::parser::run::Parser;
use mun_frontend::parser::{parse, parse_bytes, ParseErrorKind};
use mun_frontend::symbol_kind::SymbolKind;
use mun_frontend::syntax_kind::SyntaxKind;
use mun_frontend::syntax_node::SyntaxNode;
use mun_frontend::ast::nodes;
use mun_frontend::ast::AstNode;

fn kinds(text: &str) -> Vec<(SyntaxKind, u32)> {
    tokenize(text.as_bytes()).iter().map(|t| (t.kind, t.len)).collect()
}

#[test]
fn lexer_tells_tokens_apart() {
    assert_eq!(
        kinds("fn add(a: int) -> int { a + 1.5 }"),
        vec![
            (SyntaxKind::FN_KW, 2),
            (SyntaxKind::WHITESPACE, 1),
            (SyntaxKind::IDENT, 3),
            (SyntaxKind::L_PAREN, 1),
            (SyntaxKind::IDENT, 1),
            (SyntaxKind::COLON, 1),
            (SyntaxKind::WHITESPACE, 1),
            (SyntaxKind::IDENT, 3),
            (SyntaxKind::R_PAREN, 1),
            (SyntaxKind::WHITESPACE, 1),
            (SyntaxKind::THIN_ARROW, 2),
            (SyntaxKind::WHITESPACE, 1),
            (SyntaxKind::IDENT, 3),
            (SyntaxKind::WHITESPACE, 1),
            (SyntaxKind::L_CURLY, 1),
            (SyntaxKind::WHITESPACE, 1),
            (SyntaxKind::IDENT, 1),
            (SyntaxKind::WHITESPACE, 1),
            (SyntaxKind::PLUS, 1),
            (SyntaxKind::WHITESPACE, 1),
            (SyntaxKind::FLOAT_NUMBER, 3),
            (SyntaxKind::WHITESPACE, 1),
            (SyntaxKind::R_CURLY, 1),
        ]
    );
    assert_eq!(kinds(""), vec![]);
    assert_eq!(kinds("  \t\r\n "), vec![(SyntaxKind::WHITESPACE, 6)]);
    assert_eq!(
        kinds("// line\n/* block */x"),
        vec![
            (SyntaxKind::COMMENT, 7),
            (SyntaxKind::WHITESPACE, 1),
            (SyntaxKind::COMMENT, 11),
            (SyntaxKind::IDENT, 1),
        ]
    );
    assert_eq!(kinds("/* never closed"), vec![(SyntaxKind::COMMENT, 15)]);
    assert_eq!(kinds("/*/"), vec![(SyntaxKind::COMMENT, 3)]);
    assert_eq!(
        kinds(r#""a\"b" "open"#),
        vec![(SyntaxKind::STRING, 6), (SyntaxKind::WHITESPACE, 1), (SyntaxKind::STRING, 5)]
    );
    assert_eq!(
        kinds("1_000 2. 3.x 4.5_6"),
        vec![
            (SyntaxKind::INT_NUMBER, 5),
            (SyntaxKind::WHITESPACE, 1),
            (SyntaxKind::INT_NUMBER, 1),
            (SyntaxKind::DOT, 1),
            (SyntaxKind::WHITESPACE, 1),
            (SyntaxKind::INT_NUMBER, 1),
            (SyntaxKind::DOT, 1),
            (SyntaxKind::IDENT, 1),
            (SyntaxKind::WHITESPACE, 1),
            (SyntaxKind::FLOAT_NUMBER, 5),
        ]
    );
    assert_eq!(
        kinds("_ _x x_ break else false fn if let loop never pub return struct true while fnx"),
        vec![
            SyntaxKind::UNDERSCORE,
            SyntaxKind::IDENT,
            SyntaxKind::IDENT,
            SyntaxKind::BREAK_KW,
            SyntaxKind::ELSE_KW,
            SyntaxKind::FALSE_KW,
            SyntaxKind::FN_KW,
            SyntaxKind::IF_KW,
            SyntaxKind::LET_KW,
            SyntaxKind::LOOP_KW,
            SyntaxKind::NEVER_KW,
            SyntaxKind::PUB_KW,
            SyntaxKind::RETURN_KW,
            SyntaxKind::STRUCT_KW,
            SyntaxKind::TRUE_KW,
            SyntaxKind::WHILE_KW,
            SyntaxKind::IDENT,
        ]
        .into_iter()
        .zip([1u32, 2, 2, 5, 4, 5, 2, 2, 3, 4, 5, 3, 6, 6, 4, 5, 3])
        .flat_map(|(k, n)| vec![(k, n), (SyntaxKind::WHITESPACE, 1)])
        .take(33)
        .collect::<Vec<_>>()
    );
}

#[test]
fn lexer_tells_punctuation_apart() {
    let singles = "& | + - * / % ^ . < > = ( ) { } [ ] ; : , !";
    let expected = [
        SyntaxKind::AMP,
        SyntaxKind::PIPE,
        SyntaxKind::PLUS,
        SyntaxKind::MINUS,
        SyntaxKind::STAR,
        SyntaxKind::SLASH,
        SyntaxKind::PERCENT,
        SyntaxKind::CARET,
        SyntaxKind::DOT,
        SyntaxKind::LT,
        SyntaxKind::GT,
        SyntaxKind::EQ,
        SyntaxKind::L_PAREN,
        SyntaxKind::R_PAREN,
        SyntaxKind::L_CURLY,
        SyntaxKind::R_CURLY,
        SyntaxKind::L_BRACKET,
        SyntaxKind::R_BRACKET,
        SyntaxKind::SEMI,
        SyntaxKind::COLON,
        SyntaxKind::COMMA,
        SyntaxKind::EXCLAMATION,
    ];
    let found: Vec<SyntaxKind> = kinds(singles)
        .into_iter()
        .map(|(k, _)| k)
        .filter(|k| !k.is_trivia())
        .collect();
    assert_eq!(found, expected);
    let doubles = "== != <= >= -> :: && || += -= *= /=";
    let expected = [
        SyntaxKind::EQEQ,
        SyntaxKind::NEQ,
        SyntaxKind::LTEQ,
        SyntaxKind::GTEQ,
        SyntaxKind::THIN_ARROW,
        SyntaxKind::COLONCOLON,
        SyntaxKind::AMPAMP,
        SyntaxKind::PIPEPIPE,
        SyntaxKind::PLUSEQ,
        SyntaxKind::MINUSEQ,
        SyntaxKind::STAREQ,
        SyntaxKind::SLASHEQ,
    ];
    let found: Vec<(SyntaxKind, u32)> =
        kinds(doubles).into_iter().filter(|(k, _)| !k.is_trivia()).collect();
    assert_eq!(found, expected.iter().map(|k| (*k, 2)).collect::<Vec<_>>());
    assert_eq!(
        kinds("#\u{e4}\u{f6}$"),
        vec![(SyntaxKind::ERROR, 1), (SyntaxKind::ERROR, 4), (SyntaxKind::ERROR, 1)]
    );
    assert_eq!(first_token(b"while(", 0), (SyntaxKind::WHILE_KW, 5));
    assert_eq!(first_token(b"a==b", 1), (SyntaxKind::EQEQ, 3));
}

#[test]
fn token_lengths_add_up_to_the_text() {
    for text in ["", "fn f() {}", "\u{1F600} \"x", "a/*b*/c//d\ne", "1.2.3 == != !", "\\\"\\"] {
        let tokens = tokenize(text.as_bytes());
        let total: u64 = tokens.iter().map(|t| t.len as u64).sum();
        assert_eq!(total, text.len() as u64, "{:?}", text);
        assert!(tokens.iter().all(|t: &Token| t.len > 0));
    }
}

#[test]
fn syntax_kind_classes() {
    assert!(SyntaxKind::WHITESPACE.is_trivia());
    assert!(SyntaxKind::COMMENT.is_trivia());
    assert!(!SyntaxKind::IDENT.is_trivia());
    assert!(SyntaxKind::FN_KW.is_keyword());
    assert!(SyntaxKind::WHILE_KW.is_keyword());
    assert!(!SyntaxKind::IDENT.is_keyword());
    assert!(!SyntaxKind::FUNCTION_DEF.is_keyword());
    assert!(SyntaxKind::INT_NUMBER.is_literal());
    assert!(SyntaxKind::STRING.is_literal());
    assert!(!SyntaxKind::TRUE_KW.is_literal());
}

fn token(kind: SyntaxKind, text: &str) -> GreenElement {
    GreenElement::token(GreenToken::new(kind, text.as_bytes().to_vec()))
}

#[test]
fn green_nodes_hold_their_text() {
    let name = GreenNode::new(SyntaxKind::NAME, vec![token(SyntaxKind::IDENT, "foo")]);
    assert_eq!(name.kind(), SyntaxKind::NAME);
    assert_eq!(name.text_len(), 3);
    let root = GreenNode::new(
        SyntaxKind::STRUCT_DEF,
        vec![
            token(SyntaxKind::STRUCT_KW, "struct"),
            token(SyntaxKind::WHITESPACE, " "),
            GreenElement::node(name),
            token(SyntaxKind::SEMI, ";"),
        ],
    );
    assert_eq!(root.text_len(), 11);
    assert_eq!(print_green(&root), b"struct foo;");
    assert_eq!(root.children().len(), 4);
    assert_eq!(root.children()[0].kind(), SyntaxKind::STRUCT_KW);
    assert_eq!(root.children()[0].text_len(), 6);
    assert!(root.children()[0].as_node().is_none());
    assert_eq!(root.children()[0].as_token().unwrap().text(), b"struct");
    assert_eq!(root.children()[0].as_token().unwrap().kind(), SyntaxKind::STRUCT_KW);
    assert_eq!(root.children()[0].as_token().unwrap().text_len(), 6);
    assert_eq!(
        root.children()[0].as_token().unwrap().clone(),
        GreenToken::new(SyntaxKind::STRUCT_KW, b"struct".to_vec())
    );
    assert_eq!(root.children()[2].as_node().unwrap().kind(), SyntaxKind::NAME);
    assert!(root.children()[2].as_token().is_none());
    let mut out = b"// ".to_vec();
    root.append_text(&mut out);
    assert_eq!(out, b"// struct foo;");
    let empty = GreenNode::new(SyntaxKind::SOURCE_FILE, Vec::new());
    assert_eq!(empty.text_len(), 0);
    assert!(print_green(&empty).is_empty());
}

#[test]
fn builder_builds_what_the_events_say() {
    let mut builder = GreenNodeBuilder::new();
    builder.start_node(SyntaxKind::SOURCE_FILE);
    builder.start_node(SyntaxKind::STRUCT_DEF);
    builder.token(SyntaxKind::STRUCT_KW, b"struct");
    builder.token(SyntaxKind::WHITESPACE, b" ");
    builder.error(ParseErrorKind::ExpectedName);
    builder.token(SyntaxKind::SEMI, b";");
    builder.finish_node();
    builder.token(SyntaxKind::WHITESPACE, b"\n");
    builder.finish_node();
    let (root, errors) = builder.finish();
    assert_eq!(print_green(&root), b"struct ;\n");
    assert_eq!(errors.len(), 1);
    assert_eq!(errors[0].kind, ParseErrorKind::ExpectedName);
    assert_eq!(errors[0].offset, 7);
    assert_eq!(root.kind(), SyntaxKind::SOURCE_FILE);
    assert_eq!(root.children().len(), 2);
    let def = root.children()[0].as_node().unwrap();
    assert_eq!(def.kind(), SyntaxKind::STRUCT_DEF);
    assert_eq!(def.children().len(), 3);
    // The same tree as the parser builds for this text.
    assert_eq!(*root, *parse("struct ;\n").green());
}

#[test]
fn cursors_know_their_place() {
    let parse = parse("fn f() {}\n\nstruct Foo { a: int }");
    let root = parse.syntax_node();
    assert_eq!(root.kind(), SyntaxKind::SOURCE_FILE);
    assert!(root.parent().is_none());
    assert_eq!(root.text_range().start().to_u32(), 0);
    assert_eq!(root.text_range().end().to_u32(), 32);
    let items = root.children();
    assert_eq!(items.len(), 2);
    assert_eq!(items[0].text_range().start().to_u32(), 0);
    assert_eq!(items[0].text_range().end().to_u32(), 9);
    assert_eq!(items[1].text_range().start().to_u32(), 11);
    assert_eq!(items[1].text_range().end().to_u32(), 32);
    assert_eq!(items[1].text(), b"struct Foo { a: int }");
    assert_eq!(items[1].parent().unwrap(), root);
    assert_eq!(items[1].green().kind(), SyntaxKind::STRUCT_DEF);
    let tokens = root.tokens();
    assert_eq!(tokens.len(), 1);
    assert_eq!(tokens[0].kind, SyntaxKind::WHITESPACE);
    assert_eq!(tokens[0].text, b"\n\n");
    assert_eq!(tokens[0].range.start().to_u32(), 9);
    assert_eq!(tokens[0].range.end().to_u32(), 11);
    let inner: Vec<SyntaxKind> = items[1].tokens().iter().map(|t| t.kind).collect();
    assert_eq!(
        inner,
        vec![SyntaxKind::STRUCT_KW, SyntaxKind::WHITESPACE, SyntaxKind::WHITESPACE]
    );
    let fields = &items[1].children()[1];
    let field = &fields.children()[0];
    assert_eq!(field.text(), b"a: int");
    assert_eq!(field.text_range().start().to_u32(), 24);
    assert_eq!(field.parent().unwrap().parent().unwrap().parent().unwrap(), root);
    let alone = SyntaxNode::new_root(GreenNode::new(SyntaxKind::NAME, Vec::new()));
    assert!(alone.children().is_empty());
    assert!(alone.tokens().is_empty());
}

fn error_kinds(text: &str) -> Vec<ParseErrorKind> {
    parse(text).errors().iter().map(|e| e.kind).collect()
}

#[test]
fn each_parse_error_is_reported() {
    assert_eq!(error_kinds("x"), vec![ParseErrorKind::ExpectedItem]);
    assert_eq!(error_kinds("fn () {}"), vec![ParseErrorKind::ExpectedName]);
    assert_eq!(error_kinds("fn f(a: ) {}"), vec![ParseErrorKind::ExpectedType]);
    assert_eq!(error_kinds("fn f(1) {}"), vec![ParseErrorKind::ExpectedPattern]);
    assert_eq!(error_kinds("fn f() { let x = ; }"), vec![ParseErrorKind::ExpectedExpression]);
    assert_eq!(error_kinds("fn f()"), vec![ParseErrorKind::ExpectedBlock]);
    assert_eq!(error_kinds("fn f {}"), vec![ParseErrorKind::ExpectedParameters]);
    assert_eq!(error_kinds("struct S"), vec![ParseErrorKind::ExpectedFields]);
    assert_eq!(
        error_kinds("fn f() { (1 }"),
        vec![ParseErrorKind::ExpectedToken(SyntaxKind::R_PAREN)]
    );
    assert_eq!(
        error_kinds("fn f() { a b }"),
        vec![ParseErrorKind::ExpectedToken(SyntaxKind::SEMI)]
    );
    assert_eq!(
        error_kinds("fn f(a b) {}"),
        vec![ParseErrorKind::ExpectedToken(SyntaxKind::COMMA)]
    );
    assert_eq!(
        error_kinds("fn f() {"),
        vec![ParseErrorKind::ExpectedToken(SyntaxKind::R_CURLY)]
    );
    assert_eq!(
        error_kinds("struct S { a int }"),
        vec![ParseErrorKind::ExpectedToken(SyntaxKind::COLON)]
    );
}

#[test]
fn nesting_deeper_than_the_fuel_is_reported() {
    let text = b"{ (1) }";
    let tokens = tokenize(text);
    let parser = Parser::new(text, &tokens);
    let whole = parser.block(3, 0);
    assert!(whole.errors.is_empty());
    assert_eq!(whole.pos, tokens.len());
    let shallow = parser.block(2, 0);
    assert_eq!(shallow.errors[0].kind, ParseErrorKind::NestingTooDeep);
    assert_eq!(shallow.errors[0].offset, 2);
    let none = parser.block(0, 0);
    assert_eq!(none.errors.len(), 1);
    assert_eq!(none.errors[0].kind, ParseErrorKind::NestingTooDeep);
    assert_eq!(none.pos, 0);
    assert!(none.elems.is_empty());
}

#[test]
fn lowering_deeper_than_the_fuel_is_reported() {
    let parse = parse("fn f() { 1 }");
    let block: Vec<SyntaxNode> = parse.syntax_node().children()[0].children();
    let body = nodes::Expr::cast(block.last().unwrap().clone()).unwrap();
    let mut lowerer = Lowerer::new();
    let id = lowerer.lower_expr(0, &body, 0);
    let lowered = lowerer.finish(Vec::new(), id);
    assert_eq!(lowered.exprs().get(id), &Expr::Missing);
    assert_eq!(lowered.errors().len(), 1);
    assert_eq!(lowered.errors()[0].kind, LowerErrorKind::TooDeep);
}

#[test]
fn outline_lists_an_item_without_a_name() {
    let text = "fn () { 1 + }";
    let parse = parse(text);
    let outline = file_structure(&parse.tree());
    assert_eq!(outline.len(), 1);
    assert_eq!(outline[0].label(), "");
    assert_eq!(outline[0].kind, SymbolKind::Function);
    assert_eq!(outline[0].navigation_range, outline[0].node_range);
    assert_eq!(outline[0].node_range.start().to_u32(), 0);
    assert_eq!(outline[0].node_range.end().to_u32(), 13);
    assert_eq!(outline[0].parent, None);
    let other = mun_frontend::parser::parse("pub fn go(a: int) -> never {}");
    let named = file_structure(&other.tree());
    assert_eq!(named[0].label(), "go");
    assert_eq!(named[0].detail(), Some("fn(a: int) -> never".to_string()));
    assert_eq!(named[0].navigation_range.start().to_u32(), 7);
    assert_eq!(named[0].navigation_range.end().to_u32(), 9);
    assert_eq!(parse_bytes(text.as_bytes()), parse);
}
