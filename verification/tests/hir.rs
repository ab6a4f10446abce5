use mun_frontend::ast::extensions::{BinOp, LiteralKind, PrefixOp};
use mun_frontend::ast::nodes::{FunctionDef, ModuleItemKind};
use mun_frontend::ast::traits::ModuleItemOwner;
use mun_frontend::hir::lower::lower_function;
use mun_frontend::hir::{Body, Expr, LowerErrorKind, Pat, Stmt};
use mun_frontend::parser::parse;

fn first_function(text: &str) -> FunctionDef {
    let items = parse(text).tree().items();
    match items[0].kind() {
        ModuleItemKind::FunctionDef(f) => f,
        other => panic!("not a function: {:?}", other),
    }
}

fn body_of(text: &str) -> Body {
    lower_function(&first_function(text))
}

#[test]
fn while_is_lowered_to_a_loop() {
    let body = body_of("fn f() { while true { break; } }");
    assert!(body.errors().is_empty(), "{:?}", body.errors());
    let exprs = body.exprs();
    let (statements, tail) = match exprs.get(body.root()) {
        Expr::Block { statements, tail } => (statements, tail),
        other => panic!("not a block: {:?}", other),
    };
    assert!(statements.is_empty());
    let inner = match exprs.get(tail.unwrap()) {
        Expr::Loop { body } => *body,
        other => panic!("not a loop: {:?}", other),
    };
    let (statements, tail) = match exprs.get(inner) {
        Expr::Block { statements, tail } => (statements, tail),
        other => panic!("not a block: {:?}", other),
    };
    assert_eq!(statements.len(), 1);
    let check = match body.stmts().get(statements[0]) {
        Stmt::Expr(e) => *e,
        other => panic!("not an expression statement: {:?}", other),
    };
    let (condition, then_branch, else_branch) = match exprs.get(check) {
        Expr::If { condition, then_branch, else_branch } => {
            (*condition, *then_branch, *else_branch)
        },
        other => panic!("not an if: {:?}", other),
    };
    assert_eq!(exprs.get(then_branch), &Expr::Break { expr: None });
    assert_eq!(exprs.get(else_branch), &Expr::Block { statements: Vec::new(), tail: None });
    match exprs.get(condition) {
        Expr::Prefix { op: Some(PrefixOp::Not), expr } => {
            assert_eq!(exprs.get(*expr), &Expr::Literal(LiteralKind::Bool(true)));
        },
        other => panic!("not a negation: {:?}", other),
    }
    // The loop body is the block of the while; the break in it is inside the loop.
    match exprs.get(tail.unwrap()) {
        Expr::Block { statements, tail: None } => assert_eq!(statements.len(), 1),
        other => panic!("not a block: {:?}", other),
    }
    // Every made-up node has the range of the while.
    let while_range = body.source_map().get(tail_of_root(&body)).copied().unwrap();
    assert_eq!(body.source_map().get(check).copied(), Some(while_range));
    assert_eq!(body.source_map().get(then_branch).copied(), Some(while_range));
    assert_eq!(while_range.start().to_u32(), 9);
    assert_eq!(while_range.end().to_u32(), 30);
}

fn tail_of_root(body: &Body) -> mun_frontend::hir::ExprId {
    match body.exprs().get(body.root()) {
        Expr::Block { tail, .. } => tail.unwrap(),
        other => panic!("not a block: {:?}", other),
    }
}

#[test]
fn handles_count_from_one_in_allocation_order() {
    let body = body_of("fn f(a: int, _: int) { a + 1 }");
    let raw: Vec<u32> = body.params().iter().map(|p| u32::from(p.into_raw())).collect();
    assert_eq!(raw, vec![1, 2]);
    assert_eq!(body.pats().get(body.params()[0]), &Pat::Bind { name: b"a".to_vec() });
    assert_eq!(body.pats().get(body.params()[1]), &Pat::Placeholder);
    // lhs, rhs, the sum, the block
    assert_eq!(body.exprs().len(), 4);
    assert_eq!(u32::from(body.root().into_raw()), 4);
    match body.exprs().get(tail_of_root(&body)) {
        Expr::Bin { lhs, rhs, op } => {
            assert_eq!(*op, Some(BinOp::Add));
            assert_eq!(u32::from(lhs.into_raw()), 1);
            assert_eq!(u32::from(rhs.into_raw()), 2);
            assert_eq!(body.exprs().get(*lhs), &Expr::Path(b"a".to_vec()));
            assert_eq!(body.exprs().get(*rhs), &Expr::Literal(LiteralKind::Int));
        },
        other => panic!("not a sum: {:?}", other),
    }
    let again = body_of("fn f(a: int, _: int) { a + 1 }");
    assert_eq!(again, body);
}

#[test]
fn let_without_initializer_and_if_without_else() {
    let body = body_of("fn f() { let x; if x { g(1, 2) } }");
    assert!(body.errors().is_empty());
    let statements = match body.exprs().get(body.root()) {
        Expr::Block { statements, .. } => statements.clone(),
        other => panic!("not a block: {:?}", other),
    };
    // The `if` ends the block, so it is the value of the block and no statement.
    assert_eq!(statements.len(), 1);
    match body.stmts().get(statements[0]) {
        Stmt::Let { pat, initializer } => {
            assert_eq!(body.pats().get(*pat), &Pat::Bind { name: b"x".to_vec() });
            assert_eq!(*initializer, None);
        },
        other => panic!("not a let: {:?}", other),
    }
    let if_id = tail_of_root(&body);
    match body.exprs().get(if_id) {
        Expr::If { then_branch, else_branch, .. } => {
            assert_eq!(
                body.exprs().get(*else_branch),
                &Expr::Block { statements: Vec::new(), tail: None }
            );
            assert_eq!(body.source_map().get(*else_branch), body.source_map().get(if_id));
            let call = match body.exprs().get(*then_branch) {
                Expr::Block { tail: Some(t), .. } => *t,
                other => panic!("not a block with a tail: {:?}", other),
            };
            match body.exprs().get(call) {
                Expr::Call { callee, args } => {
                    assert_eq!(body.exprs().get(*callee), &Expr::Path(b"g".to_vec()));
                    assert_eq!(args.len(), 2);
                    assert!(u32::from(callee.into_raw()) < u32::from(args[0].into_raw()));
                },
                other => panic!("not a call: {:?}", other),
            }
        },
        other => panic!("not an if: {:?}", other),
    }
}

#[test]
fn break_outside_of_a_loop_is_reported() {
    let body = body_of("fn f() { break; loop { break; } }");
    let kinds: Vec<LowerErrorKind> = body.errors().iter().map(|e| e.kind).collect();
    assert_eq!(kinds, vec![LowerErrorKind::BreakOutsideLoop]);
    assert_eq!(body.errors()[0].range.start().to_u32(), 9);
    assert_eq!(body.errors()[0].range.end().to_u32(), 14);
}

#[test]
fn missing_operand_is_a_missing_expression() {
    let body = body_of("fn f() { 1 + }");
    match body.exprs().get(tail_of_root(&body)) {
        Expr::Bin { lhs, rhs, op } => {
            assert_eq!(*op, Some(BinOp::Add));
            assert_eq!(body.exprs().get(*lhs), &Expr::Literal(LiteralKind::Int));
            assert_eq!(body.exprs().get(*rhs), &Expr::Missing);
            assert_eq!(body.source_map().get(*rhs), body.source_map().get(tail_of_root(&body)));
        },
        other => panic!("not a sum: {:?}", other),
    }
}
