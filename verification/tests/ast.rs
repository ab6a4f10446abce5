use mun_frontend::abi::Privacy;
use mun_frontend::ast::extensions::{BinOp, LiteralKind, PrefixOp};
use mun_frontend::ast::nodes::{
    ArgList, BinExpr, BindPat, BlockExpr, BreakExpr, CallExpr, Condition, Expr, ExprKind, ExprStmt,
    FunctionDef, IfExpr, LetStmt, Literal, LoopExpr, ModuleItem, ModuleItemKind, Name, NameRef,
    NeverType, Param, ParamList, ParenExpr, Pat, PatKind, Path, PathExpr, PathSegment, PathType,
    PlaceholderPat, PrefixExpr, RecordFieldDef, RecordFieldDefList, RetType, ReturnExpr,
    SourceFile, Stmt, StmtKind, StructDef, TupleFieldDef, TupleFieldDefList, TypeRef, TypeRefKind,
    Visibility, WhileExpr,
};
use mun_frontend::ast::traits::{
    ArgListOwner, DocCommentsOwner, FunctionDefOwner, LoopBodyOwner, ModuleItemOwner, NameOwner,
    TypeAscriptionOwner, VisibilityOwner,
};
use mun_frontend::ast::{child_opt, children, AstNode};
use mun_frontend::item_tree::{ItemTree, Signature};
use mun_frontend::parser::parse;
use mun_frontend::syntax_kind::SyntaxKind;
use mun_frontend::syntax_node::SyntaxNode;

const ALL_KINDS: [SyntaxKind; 91] = [
    SyntaxKind::AMP,
    SyntaxKind::PIPE,
    SyntaxKind::PLUS,
    SyntaxKind::MINUS,
    SyntaxKind::STAR,
    SyntaxKind::SLASH,
    SyntaxKind::PERCENT,
    SyntaxKind::CARET,
    SyntaxKind::DOT,
    SyntaxKind::LT,
    SyntaxKind::GT,
    SyntaxKind::EQ,
    SyntaxKind::L_PAREN,
    SyntaxKind::R_PAREN,
    SyntaxKind::L_CURLY,
    SyntaxKind::R_CURLY,
    SyntaxKind::L_BRACKET,
    SyntaxKind::R_BRACKET,
    SyntaxKind::SEMI,
    SyntaxKind::COLON,
    SyntaxKind::COMMA,
    SyntaxKind::EXCLAMATION,
    SyntaxKind::UNDERSCORE,
    SyntaxKind::EQEQ,
    SyntaxKind::NEQ,
    SyntaxKind::LTEQ,
    SyntaxKind::GTEQ,
    SyntaxKind::THIN_ARROW,
    SyntaxKind::COLONCOLON,
    SyntaxKind::AMPAMP,
    SyntaxKind::PIPEPIPE,
    SyntaxKind::PLUSEQ,
    SyntaxKind::MINUSEQ,
    SyntaxKind::STAREQ,
    SyntaxKind::SLASHEQ,
    SyntaxKind::BREAK_KW,
    SyntaxKind::ELSE_KW,
    SyntaxKind::FALSE_KW,
    SyntaxKind::FN_KW,
    SyntaxKind::IF_KW,
    SyntaxKind::LET_KW,
    SyntaxKind::LOOP_KW,
    SyntaxKind::NEVER_KW,
    SyntaxKind::PUB_KW,
    SyntaxKind::RETURN_KW,
    SyntaxKind::STRUCT_KW,
    SyntaxKind::TRUE_KW,
    SyntaxKind::WHILE_KW,
    SyntaxKind::INT_NUMBER,
    SyntaxKind::FLOAT_NUMBER,
    SyntaxKind::STRING,
    SyntaxKind::IDENT,
    SyntaxKind::ERROR,
    SyntaxKind::WHITESPACE,
    SyntaxKind::COMMENT,
    SyntaxKind::EOF,
    SyntaxKind::SOURCE_FILE,
    SyntaxKind::FUNCTION_DEF,
    SyntaxKind::RET_TYPE,
    SyntaxKind::VISIBILITY,
    SyntaxKind::PARAM_LIST,
    SyntaxKind::PARAM,
    SyntaxKind::STRUCT_DEF,
    SyntaxKind::RECORD_FIELD_DEF_LIST,
    SyntaxKind::RECORD_FIELD_DEF,
    SyntaxKind::TUPLE_FIELD_DEF_LIST,
    SyntaxKind::TUPLE_FIELD_DEF,
    SyntaxKind::PATH_TYPE,
    SyntaxKind::NEVER_TYPE,
    SyntaxKind::LET_STMT,
    SyntaxKind::EXPR_STMT,
    SyntaxKind::PATH_EXPR,
    SyntaxKind::PREFIX_EXPR,
    SyntaxKind::LITERAL,
    SyntaxKind::BIN_EXPR,
    SyntaxKind::PAREN_EXPR,
    SyntaxKind::CALL_EXPR,
    SyntaxKind::IF_EXPR,
    SyntaxKind::BLOCK_EXPR,
    SyntaxKind::RETURN_EXPR,
    SyntaxKind::WHILE_EXPR,
    SyntaxKind::LOOP_EXPR,
    SyntaxKind::BREAK_EXPR,
    SyntaxKind::CONDITION,
    SyntaxKind::BIND_PAT,
    SyntaxKind::PLACEHOLDER_PAT,
    SyntaxKind::ARG_LIST,
    SyntaxKind::NAME,
    SyntaxKind::NAME_REF,
    SyntaxKind::PATH,
    SyntaxKind::PATH_SEGMENT,
];

const SAMPLE: &str = "\
/// Adds.
/// Twice.
pub fn add(a: int, _: never) -> int {
    let x: int = -(a + 1) * f(a, 2);
    let y;
    if x < 3 { return x; } else if !done { loop { break 1; } }
    while x { break; }
    x
}

// not documentation

/// A point.
struct Point { x: int, y: int }
pub struct Pair(int, float);
struct Unit;
";

fn all_nodes(root: &SyntaxNode) -> Vec<SyntaxNode> {
    let mut out = vec![root.clone()];
    let mut next = 0;
    while next < out.len() {
        let kids = out[next].children();
        out.extend(kids);
        next += 1;
    }
    out
}

fn text(node: &SyntaxNode) -> String {
    String::from_utf8(node.text()).unwrap()
}

fn check_cast<T: AstNode>(nodes: &[SyntaxNode], accepted: &[SyntaxKind]) {
    for kind in ALL_KINDS.iter() {
        assert_eq!(T::can_cast(*kind), accepted.contains(kind), "{:?}", kind);
    }
    let mut seen = 0;
    for node in nodes {
        let cast = T::cast(node.clone());
        assert_eq!(cast.is_some(), T::can_cast(node.kind()));
        if let Some(view) = cast {
            assert_eq!(view.syntax(), node);
            seen += 1;
        }
    }
    assert!(seen > 0, "the sample has no node for {:?}", accepted);
}

#[test]
fn cast_agrees_with_can_cast() {
    let parse = parse(SAMPLE);
    assert!(parse.errors().is_empty(), "{:?}", parse.errors());
    let nodes = all_nodes(&parse.syntax_node());
    check_cast::<ArgList>(&nodes, &[SyntaxKind::ARG_LIST]);
    check_cast::<BinExpr>(&nodes, &[SyntaxKind::BIN_EXPR]);
    check_cast::<BindPat>(&nodes, &[SyntaxKind::BIND_PAT]);
    check_cast::<BlockExpr>(&nodes, &[SyntaxKind::BLOCK_EXPR]);
    check_cast::<BreakExpr>(&nodes, &[SyntaxKind::BREAK_EXPR]);
    check_cast::<CallExpr>(&nodes, &[SyntaxKind::CALL_EXPR]);
    check_cast::<Condition>(&nodes, &[SyntaxKind::CONDITION]);
    check_cast::<Expr>(
        &nodes,
        &[
            SyntaxKind::LITERAL,
            SyntaxKind::PREFIX_EXPR,
            SyntaxKind::PATH_EXPR,
            SyntaxKind::BIN_EXPR,
            SyntaxKind::PAREN_EXPR,
            SyntaxKind::CALL_EXPR,
            SyntaxKind::IF_EXPR,
            SyntaxKind::LOOP_EXPR,
            SyntaxKind::WHILE_EXPR,
            SyntaxKind::RETURN_EXPR,
            SyntaxKind::BREAK_EXPR,
            SyntaxKind::BLOCK_EXPR,
        ],
    );
    check_cast::<ExprStmt>(&nodes, &[SyntaxKind::EXPR_STMT]);
    check_cast::<FunctionDef>(&nodes, &[SyntaxKind::FUNCTION_DEF]);
    check_cast::<IfExpr>(&nodes, &[SyntaxKind::IF_EXPR]);
    check_cast::<LetStmt>(&nodes, &[SyntaxKind::LET_STMT]);
    check_cast::<Literal>(&nodes, &[SyntaxKind::LITERAL]);
    check_cast::<LoopExpr>(&nodes, &[SyntaxKind::LOOP_EXPR]);
    check_cast::<ModuleItem>(&nodes, &[SyntaxKind::FUNCTION_DEF, SyntaxKind::STRUCT_DEF]);
    check_cast::<Name>(&nodes, &[SyntaxKind::NAME]);
    check_cast::<NameRef>(&nodes, &[SyntaxKind::NAME_REF]);
    check_cast::<NeverType>(&nodes, &[SyntaxKind::NEVER_TYPE]);
    check_cast::<Param>(&nodes, &[SyntaxKind::PARAM]);
    check_cast::<ParamList>(&nodes, &[SyntaxKind::PARAM_LIST]);
    check_cast::<ParenExpr>(&nodes, &[SyntaxKind::PAREN_EXPR]);
    check_cast::<Pat>(&nodes, &[SyntaxKind::BIND_PAT, SyntaxKind::PLACEHOLDER_PAT]);
    check_cast::<Path>(&nodes, &[SyntaxKind::PATH]);
    check_cast::<PathExpr>(&nodes, &[SyntaxKind::PATH_EXPR]);
    check_cast::<PathSegment>(&nodes, &[SyntaxKind::PATH_SEGMENT]);
    check_cast::<PathType>(&nodes, &[SyntaxKind::PATH_TYPE]);
    check_cast::<PlaceholderPat>(&nodes, &[SyntaxKind::PLACEHOLDER_PAT]);
    check_cast::<PrefixExpr>(&nodes, &[SyntaxKind::PREFIX_EXPR]);
    check_cast::<RecordFieldDef>(&nodes, &[SyntaxKind::RECORD_FIELD_DEF]);
    check_cast::<RecordFieldDefList>(&nodes, &[SyntaxKind::RECORD_FIELD_DEF_LIST]);
    check_cast::<RetType>(&nodes, &[SyntaxKind::RET_TYPE]);
    check_cast::<ReturnExpr>(&nodes, &[SyntaxKind::RETURN_EXPR]);
    check_cast::<SourceFile>(&nodes, &[SyntaxKind::SOURCE_FILE]);
    check_cast::<Stmt>(&nodes, &[SyntaxKind::LET_STMT, SyntaxKind::EXPR_STMT]);
    check_cast::<StructDef>(&nodes, &[SyntaxKind::STRUCT_DEF]);
    check_cast::<TupleFieldDef>(&nodes, &[SyntaxKind::TUPLE_FIELD_DEF]);
    check_cast::<TupleFieldDefList>(&nodes, &[SyntaxKind::TUPLE_FIELD_DEF_LIST]);
    check_cast::<TypeRef>(&nodes, &[SyntaxKind::PATH_TYPE, SyntaxKind::NEVER_TYPE]);
    check_cast::<Visibility>(&nodes, &[SyntaxKind::VISIBILITY]);
    check_cast::<WhileExpr>(&nodes, &[SyntaxKind::WHILE_EXPR]);
}

#[test]
fn kind_covers_every_alternative() {
    let parse = parse(SAMPLE);
    let nodes = all_nodes(&parse.syntax_node());
    let mut expr_kinds = Vec::new();
    for node in &nodes {
        if let Some(expr) = Expr::cast(node.clone()) {
            let (kind, inner) = match expr.kind() {
                ExprKind::Literal(n) => (SyntaxKind::LITERAL, n.syntax().clone()),
                ExprKind::PrefixExpr(n) => (SyntaxKind::PREFIX_EXPR, n.syntax().clone()),
                ExprKind::PathExpr(n) => (SyntaxKind::PATH_EXPR, n.syntax().clone()),
                ExprKind::BinExpr(n) => (SyntaxKind::BIN_EXPR, n.syntax().clone()),
                ExprKind::ParenExpr(n) => (SyntaxKind::PAREN_EXPR, n.syntax().clone()),
                ExprKind::CallExpr(n) => (SyntaxKind::CALL_EXPR, n.syntax().clone()),
                ExprKind::IfExpr(n) => (SyntaxKind::IF_EXPR, n.syntax().clone()),
                ExprKind::LoopExpr(n) => (SyntaxKind::LOOP_EXPR, n.syntax().clone()),
                ExprKind::WhileExpr(n) => (SyntaxKind::WHILE_EXPR, n.syntax().clone()),
                ExprKind::ReturnExpr(n) => (SyntaxKind::RETURN_EXPR, n.syntax().clone()),
                ExprKind::BreakExpr(n) => (SyntaxKind::BREAK_EXPR, n.syntax().clone()),
                ExprKind::BlockExpr(n) => (SyntaxKind::BLOCK_EXPR, n.syntax().clone()),
            };
            assert_eq!(kind, node.kind());
            assert_eq!(&inner, node);
            if !expr_kinds.contains(&kind) {
                expr_kinds.push(kind);
            }
        }
        if let Some(pat) = Pat::cast(node.clone()) {
            match pat.kind() {
                PatKind::BindPat(n) => assert_eq!(n.syntax().kind(), SyntaxKind::BIND_PAT),
                PatKind::PlaceholderPat(n) => {
                    assert_eq!(n.syntax().kind(), SyntaxKind::PLACEHOLDER_PAT)
                },
            }
            assert_eq!(pat.syntax().kind(), node.kind());
        }
        if let Some(stmt) = Stmt::cast(node.clone()) {
            match stmt.kind() {
                StmtKind::LetStmt(n) => assert_eq!(n.syntax(), node),
                StmtKind::ExprStmt(n) => assert_eq!(n.syntax(), node),
            }
        }
        if let Some(ty) = TypeRef::cast(node.clone()) {
            match ty.kind() {
                TypeRefKind::PathType(n) => assert_eq!(node.kind(), n.syntax().kind()),
                TypeRefKind::NeverType(n) => assert_eq!(node.kind(), n.syntax().kind()),
            }
        }
        if let Some(item) = ModuleItem::cast(node.clone()) {
            match item.kind() {
                ModuleItemKind::FunctionDef(n) => assert_eq!(n.syntax(), node),
                ModuleItemKind::StructDef(n) => assert_eq!(n.syntax(), node),
            }
        }
    }
    // The sample holds an expression of every kind.
    assert_eq!(expr_kinds.len(), 12);
}

fn sample_function() -> FunctionDef {
    parse(SAMPLE).tree().functions().remove(0)
}

#[test]
fn function_accessors() {
    let function = sample_function();
    assert_eq!(text(function.name().unwrap().syntax()), "add");
    assert_eq!(text(function.visibility().unwrap().syntax()), "pub");
    let docs: Vec<String> = function
        .doc_comments()
        .iter()
        .map(|t| String::from_utf8(t.text.clone()).unwrap())
        .collect();
    assert_eq!(docs, vec!["/// Adds.", "/// Twice."]);
    let params = function.param_list().unwrap().params();
    assert_eq!(params.len(), 2);
    assert!(matches!(params[0].pat().unwrap().kind(), PatKind::BindPat(_)));
    assert!(matches!(params[1].pat().unwrap().kind(), PatKind::PlaceholderPat(_)));
    assert!(matches!(
        params[0].ascribed_type().unwrap().kind(),
        TypeRefKind::PathType(_)
    ));
    assert!(matches!(
        params[1].ascribed_type().unwrap().kind(),
        TypeRefKind::NeverType(_)
    ));
    let ret = function.ret_type().unwrap().type_ref().unwrap();
    let path = match ret.kind() {
        TypeRefKind::PathType(p) => p.path().unwrap(),
        other => panic!("{:?}", other),
    };
    assert!(path.qualifier().is_none());
    assert_eq!(text(path.segment().unwrap().name_ref().unwrap().syntax()), "int");
    assert_eq!(path.segment().unwrap().name_ref().unwrap().text(), b"int");
    let body = function.body().unwrap();
    assert_eq!(body.statements().len(), 4);
    assert_eq!(text(body.expr().unwrap().syntax()), "x");
    // A typed view becomes a view of its category and back.
    let as_expr = Expr::from(body.clone());
    assert_eq!(as_expr.syntax(), body.syntax());
    assert!(matches!(as_expr.kind(), ExprKind::BlockExpr(_)));
    let as_item = ModuleItem::from(function.clone());
    assert!(matches!(as_item.kind(), ModuleItemKind::FunctionDef(_)));
}

#[test]
fn statement_and_expression_accessors() {
    let statements = sample_function().body().unwrap().statements();
    let first = match statements[0].kind() {
        StmtKind::LetStmt(l) => l,
        other => panic!("{:?}", other),
    };
    let bind = match first.pat().unwrap().kind() {
        PatKind::BindPat(b) => b,
        other => panic!("{:?}", other),
    };
    assert_eq!(bind.name().unwrap().text(), b"x");
    assert!(bind.pat().is_none());
    assert_eq!(text(first.ascribed_type().unwrap().syntax()), "int");
    let product = match first.initializer().unwrap().kind() {
        ExprKind::BinExpr(b) => b,
        other => panic!("{:?}", other),
    };
    assert_eq!(product.op_kind(), Some(BinOp::Multiply));
    assert_eq!(text(product.lhs().unwrap().syntax()), "-(a + 1)");
    assert_eq!(text(product.rhs().unwrap().syntax()), "f(a, 2)");
    let negation = match product.lhs().unwrap().kind() {
        ExprKind::PrefixExpr(p) => p,
        other => panic!("{:?}", other),
    };
    assert_eq!(negation.op_kind(), Some(PrefixOp::Neg));
    let paren = match negation.expr().unwrap().kind() {
        ExprKind::ParenExpr(p) => p,
        other => panic!("{:?}", other),
    };
    let sum = match paren.expr().unwrap().kind() {
        ExprKind::BinExpr(b) => b,
        other => panic!("{:?}", other),
    };
    assert_eq!(sum.op_kind(), Some(BinOp::Add));
    match sum.rhs().unwrap().kind() {
        ExprKind::Literal(l) => assert_eq!(l.kind(), Some(LiteralKind::Int)),
        other => panic!("{:?}", other),
    }
    let call = match product.rhs().unwrap().kind() {
        ExprKind::CallExpr(c) => c,
        other => panic!("{:?}", other),
    };
    assert_eq!(text(call.expr().unwrap().syntax()), "f");
    let args = call.arg_list().unwrap().args();
    assert_eq!(args.len(), 2);
    assert_eq!(text(args[1].syntax()), "2");
    match call.expr().unwrap().kind() {
        ExprKind::PathExpr(p) => assert_eq!(text(p.path().unwrap().syntax()), "f"),
        other => panic!("{:?}", other),
    }

    let second = match statements[1].kind() {
        StmtKind::LetStmt(l) => l,
        other => panic!("{:?}", other),
    };
    assert!(second.initializer().is_none());
    assert!(second.ascribed_type().is_none());

    let if_expr = match statements[2].kind() {
        StmtKind::ExprStmt(s) => match s.expr().unwrap().kind() {
            ExprKind::IfExpr(i) => i,
            other => panic!("{:?}", other),
        },
        other => panic!("{:?}", other),
    };
    let condition = if_expr.condition().unwrap();
    assert!(condition.pat().is_none());
    assert_eq!(text(condition.expr().unwrap().syntax()), "x < 3");
    let then_branch = if_expr.then_branch().unwrap();
    match then_branch.statements()[0].kind() {
        StmtKind::ExprStmt(s) => match s.expr().unwrap().kind() {
            ExprKind::ReturnExpr(r) => assert_eq!(text(r.expr().unwrap().syntax()), "x"),
            other => panic!("{:?}", other),
        },
        other => panic!("{:?}", other),
    }
    let nested = match if_expr.else_branch().unwrap().kind() {
        ExprKind::IfExpr(i) => i,
        other => panic!("{:?}", other),
    };
    assert!(nested.else_branch().is_none());
    let inner_loop = match nested.then_branch().unwrap().expr().unwrap().kind() {
        ExprKind::LoopExpr(l) => l,
        other => panic!("{:?}", other),
    };
    match inner_loop.loop_body().unwrap().statements()[0].kind() {
        StmtKind::ExprStmt(s) => match s.expr().unwrap().kind() {
            ExprKind::BreakExpr(b) => assert_eq!(text(b.expr().unwrap().syntax()), "1"),
            other => panic!("{:?}", other),
        },
        other => panic!("{:?}", other),
    }
    let while_expr = match statements[3].kind() {
        StmtKind::ExprStmt(s) => match s.expr().unwrap().kind() {
            ExprKind::WhileExpr(w) => w,
            other => panic!("{:?}", other),
        },
        other => panic!("{:?}", other),
    };
    assert_eq!(text(while_expr.condition().unwrap().syntax()), "x");
    assert_eq!(while_expr.loop_body().unwrap().statements().len(), 1);
}

#[test]
fn struct_accessors_and_generic_helpers() {
    let file = parse(SAMPLE).tree();
    let items = file.items();
    assert_eq!(items.len(), 4);
    assert_eq!(file.functions().len(), 1);
    let point = match items[1].kind() {
        ModuleItemKind::StructDef(s) => s,
        other => panic!("{:?}", other),
    };
    assert_eq!(point.name().unwrap().text(), b"Point");
    assert!(point.visibility().is_none());
    assert_eq!(point.doc_comments().len(), 1);
    let record: RecordFieldDefList = child_opt(&point).unwrap();
    let fields = record.fields();
    assert_eq!(fields.len(), 2);
    assert_eq!(fields[1].name().unwrap().text(), b"y");
    assert_eq!(text(fields[1].ascribed_type().unwrap().syntax()), "int");
    assert!(fields[0].visibility().is_none());
    assert!(fields[0].doc_comments().is_empty());
    let pair = match items[2].kind() {
        ModuleItemKind::StructDef(s) => s,
        other => panic!("{:?}", other),
    };
    assert!(pair.visibility().is_some());
    let tuple: TupleFieldDefList = child_opt(&pair).unwrap();
    let fields = tuple.fields();
    assert_eq!(fields.len(), 2);
    assert_eq!(text(fields[1].type_ref().unwrap().syntax()), "float");
    assert!(fields[0].visibility().is_none());
    let names: Vec<Name> = children(&pair);
    assert_eq!(names.len(), 1);
    let none: Option<RecordFieldDefList> = child_opt(&pair);
    assert!(none.is_none());
}

#[test]
fn item_tree_lists_items_with_names_and_docs() {
    let tree = ItemTree::new(&parse(SAMPLE).tree());
    let items = tree.items();
    assert_eq!(items.len(), 4);
    let name = |i: usize| tree.names().lookup(items[i].name.unwrap()).clone();
    assert_eq!(name(0), b"add");
    assert_eq!(items[0].visibility, Privacy::Public);
    assert_eq!(items[0].docs, b" Adds.\n Twice.\n");
    assert_eq!(items[0].signature, Signature::Function { params: 2, has_ret: true });
    assert_eq!(name(1), b"Point");
    assert_eq!(items[1].visibility, Privacy::Private);
    // The comment above is parted from the struct by an empty line.
    assert_eq!(items[1].docs, b" A point.\n");
    assert_eq!(items[1].signature, Signature::Record { fields: 2 });
    assert_eq!(items[2].signature, Signature::Tuple { fields: 2 });
    assert_eq!(items[2].visibility, Privacy::Public);
    assert!(items[2].docs.is_empty());
    assert_eq!(items[3].signature, Signature::Unit);
    assert_eq!(name(3), b"Unit");
    // Parsing the same text again gives an equal item tree.
    assert_eq!(ItemTree::new(&parse(SAMPLE).tree()), tree);
    // Items of the same name share a handle.
    let twice = ItemTree::new(&parse("fn a() {}\nfn b() {}\nfn a() {}\nfn () {}").tree());
    assert_eq!(twice.items()[0].name, twice.items()[2].name);
    assert_ne!(twice.items()[0].name, twice.items()[1].name);
    assert_eq!(twice.items()[3].name, None);
    assert_eq!(twice.names().len(), 2);
    assert_eq!(twice.items()[1].signature, Signature::Function { params: 0, has_ret: false });
}

#[test]
fn qualified_paths_nest_to_the_left() {
    let parse = parse("fn f() -> a::b::c { x::y }");
    assert!(parse.errors().is_empty(), "{:?}", parse.errors());
    let function = parse.tree().functions().remove(0);
    let path = match function.ret_type().unwrap().type_ref().unwrap().kind() {
        TypeRefKind::PathType(p) => p.path().unwrap(),
        other => panic!("{:?}", other),
    };
    assert_eq!(text(path.syntax()), "a::b::c");
    assert_eq!(path.segment().unwrap().name_ref().unwrap().text(), b"c");
    let qualifier = path.qualifier().unwrap();
    assert_eq!(text(qualifier.syntax()), "a::b");
    assert_eq!(qualifier.segment().unwrap().name_ref().unwrap().text(), b"b");
    let first = qualifier.qualifier().unwrap();
    assert_eq!(text(first.syntax()), "a");
    assert!(first.qualifier().is_none());
    match function.body().unwrap().expr().unwrap().kind() {
        ExprKind::PathExpr(p) => {
            assert_eq!(text(p.path().unwrap().qualifier().unwrap().syntax()), "x")
        },
        other => panic!("{:?}", other),
    }
    let broken = mun_frontend::parser::parse("fn f() { a:: }");
    assert_eq!(broken.errors().len(), 1);
    assert_eq!(broken.errors()[0].kind, mun_frontend::parser::ParseErrorKind::ExpectedName);
}
