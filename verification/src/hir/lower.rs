//! Lowering: from the syntax of a function to its body.
//!
//! What a piece of syntax lowers to is written down twice: as mathematics,
//! in the functions that take a body model and give the model with the
//! piece added; and as code, in the methods of [`Lowerer`], each proved to
//! give what its counterpart says.

use crate::arena::{Arena, Idx, RawId};
use crate::ast::extensions::PrefixOp;
use crate::ast::nodes::{ExprKind, PatKind, StmtKind};
use crate::ast::extensions::{
    bin_op_of, first_read, literal_kind_of, nth_castable, prefix_op_of,
};
use crate::ast::nodes;
use crate::ast::traits::{ArgListOwner, LoopBodyOwner, NameOwner};
use crate::ast::{all_castable, first_castable, AstNode};
use crate::hir::{
    all_within, bounds, lemma_with_expr_closed, lemma_with_pat_closed, lemma_with_stmt_closed,
    number, numbers, within, within_or_none, Body, BodyModel, Expr, ExprId, ExprModel, LowerError,
    LowerErrorKind, Pat, PatId, PatModel, Stmt, StmtId, StmtModel,
};
use crate::syntax_kind::SyntaxKind;
use crate::syntax_node::Cursor;
use crate::text::TextRange;
use vstd::prelude::*;

verus! {

/// The range of the source under a cursor.
pub open spec fn span(c: Cursor) -> (nat, nat) {
    (c.offset, c.end())
}

/// The first child node of `c` that `C` accepts.
pub open spec fn child<C: AstNode>(c: Cursor) -> Option<Cursor> {
    first_castable::<C>(c.child_nodes(), 0)
}

/// The unit expression: a block without statements and without a last
/// expression.
pub open spec fn unit() -> ExprModel {
    ExprModel::Block { statements: Seq::empty(), tail: None }
}

/// The body with the pattern under `pat` added, and the handle of that
/// pattern; where `pat` is none, a pattern that is missing at `range`.
pub open spec fn lower_pat(pat: Option<Cursor>, range: (nat, nat), st: BodyModel) -> (
    BodyModel,
    nat,
) {
    match pat {
        Some(c) => if c.kind() == SyntaxKind::BIND_PAT {
            st.with_pat(
                PatModel::Bind {
                    name: match child::<nodes::Name>(c) {
                        Some(n) => n.green.text(),
                        None => Seq::empty(),
                    },
                },
                span(c),
            )
        } else {
            st.with_pat(PatModel::Placeholder, span(c))
        },
        None => st.with_pat(PatModel::Missing, range),
    }
}

/// The body with the expression under `c` added, and the handle of that
/// expression. `loops` is the number of loops around the expression.
pub open spec fn lower_expr(fuel: nat, c: Cursor, loops: nat, st: BodyModel) -> (BodyModel, nat)
    decreases fuel, 1nat, 0nat,
{
    if fuel == 0 {
        st.with_error(LowerErrorKind::TooDeep, span(c)).with_expr(ExprModel::Missing, span(c))
    } else {
        let f = (fuel - 1) as nat;
        let kind = c.kind();
        if kind == SyntaxKind::LITERAL {
            st.with_expr(
                match first_read(c.child_tokens(), |k: SyntaxKind| literal_kind_of(k), 0) {
                    Some(k) => ExprModel::Literal(k),
                    None => ExprModel::Missing,
                },
                span(c),
            )
        } else if kind == SyntaxKind::PATH_EXPR {
            st.with_expr(ExprModel::Path(c.green.text()), span(c))
        } else if kind == SyntaxKind::PREFIX_EXPR {
            let (s1, operand) = lower_opt(f, child::<nodes::Expr>(c), span(c), loops, st);
            s1.with_expr(
                ExprModel::Prefix {
                    op: first_read(c.child_tokens(), |k: SyntaxKind| prefix_op_of(k), 0),
                    expr: operand,
                },
                span(c),
            )
        } else if kind == SyntaxKind::BIN_EXPR {
            let (s1, lhs) = lower_opt(
                f,
                nth_castable::<nodes::Expr>(c.child_nodes(), 0, 0),
                span(c),
                loops,
                st,
            );
            let (s2, rhs) = lower_opt(
                f,
                nth_castable::<nodes::Expr>(c.child_nodes(), 0, 1),
                span(c),
                loops,
                s1,
            );
            s2.with_expr(
                ExprModel::Bin {
                    lhs,
                    rhs,
                    op: first_read(c.child_tokens(), |k: SyntaxKind| bin_op_of(k), 0),
                },
                span(c),
            )
        } else if kind == SyntaxKind::PAREN_EXPR {
            let (s1, inner) = lower_opt(f, child::<nodes::Expr>(c), span(c), loops, st);
            s1.with_expr(ExprModel::Paren(inner), span(c))
        } else if kind == SyntaxKind::CALL_EXPR {
            let (s1, callee) = lower_opt(f, child::<nodes::Expr>(c), span(c), loops, st);
            let (s2, args) = match child::<nodes::ArgList>(c) {
                Some(list) => {
                    let nodes = all_castable::<nodes::Expr>(list.child_nodes());
                    lower_exprs(f, nodes, loops, s1, nodes.len())
                },
                None => (s1, Seq::empty()),
            };
            s2.with_expr(ExprModel::Call { callee, args }, span(c))
        } else if kind == SyntaxKind::IF_EXPR {
            let (s1, condition) = lower_opt(
                f,
                match child::<nodes::Condition>(c) {
                    Some(k) => child::<nodes::Expr>(k),
                    None => None,
                },
                span(c),
                loops,
                st,
            );
            let (s2, then_branch) = lower_opt(f, child::<nodes::BlockExpr>(c), span(c), loops, s1);
            let (s3, else_branch) = match nth_castable::<nodes::Expr>(c.child_nodes(), 0, 1) {
                Some(e) => lower_expr(f, e, loops, s2),
                None => s2.with_expr(unit(), span(c)),
            };
            s3.with_expr(ExprModel::If { condition, then_branch, else_branch }, span(c))
        } else if kind == SyntaxKind::LOOP_EXPR {
            let (s1, body) = lower_opt(f, child::<nodes::BlockExpr>(c), span(c), loops + 1, st);
            s1.with_expr(ExprModel::Loop { body }, span(c))
        } else if kind == SyntaxKind::WHILE_EXPR {
            let (s1, condition) = lower_opt(
                f,
                match child::<nodes::Condition>(c) {
                    Some(k) => child::<nodes::Expr>(k),
                    None => None,
                },
                span(c),
                loops,
                st,
            );
            let (s2, negated) = s1.with_expr(
                ExprModel::Prefix { op: Some(PrefixOp::Not), expr: condition },
                span(c),
            );
            let (s3, leave) = s2.with_expr(ExprModel::Break { expr: None }, span(c));
            let (s4, stay) = s3.with_expr(unit(), span(c));
            let (s5, check) = s4.with_expr(
                ExprModel::If { condition: negated, then_branch: leave, else_branch: stay },
                span(c),
            );
            let (s6, first) = s5.with_stmt(StmtModel::Expr(check), span(c));
            let (s7, body) = lower_opt(f, child::<nodes::BlockExpr>(c), span(c), loops + 1, s6);
            let (s8, block) = s7.with_expr(
                ExprModel::Block { statements: seq![first], tail: Some(body) },
                span(c),
            );
            s8.with_expr(ExprModel::Loop { body: block }, span(c))
        } else if kind == SyntaxKind::RETURN_EXPR {
            let (s1, expr) = lower_value(f, child::<nodes::Expr>(c), loops, st);
            s1.with_expr(ExprModel::Return { expr }, span(c))
        } else if kind == SyntaxKind::BREAK_EXPR {
            let s0 = if loops == 0 {
                st.with_error(LowerErrorKind::BreakOutsideLoop, span(c))
            } else {
                st
            };
            let (s1, expr) = lower_value(f, child::<nodes::Expr>(c), loops, s0);
            s1.with_expr(ExprModel::Break { expr }, span(c))
        } else if kind == SyntaxKind::BLOCK_EXPR {
            let stmts = all_castable::<nodes::Stmt>(c.child_nodes());
            let (s1, statements) = lower_stmts(f, stmts, loops, st, stmts.len());
            let (s2, tail) = lower_value(f, child::<nodes::Expr>(c), loops, s1);
            s2.with_expr(ExprModel::Block { statements, tail }, span(c))
        } else {
            st.with_expr(ExprModel::Missing, span(c))
        }
    }
}

/// The body with the expression under `c` added; where `c` is none, an
/// expression that is missing at `range`.
pub open spec fn lower_opt(
    fuel: nat,
    c: Option<Cursor>,
    range: (nat, nat),
    loops: nat,
    st: BodyModel,
) -> (BodyModel, nat)
    decreases fuel, 2nat, 0nat,
{
    match c {
        Some(c) => lower_expr(fuel, c, loops, st),
        None => st.with_expr(ExprModel::Missing, range),
    }
}

/// The body with the expression under `c` added, where there is one.
pub open spec fn lower_value(fuel: nat, c: Option<Cursor>, loops: nat, st: BodyModel) -> (
    BodyModel,
    Option<nat>,
)
    decreases fuel, 2nat, 0nat,
{
    match c {
        Some(c) => {
            let (s1, id) = lower_expr(fuel, c, loops, st);
            (s1, Some(id))
        },
        None => (st, None),
    }
}

/// The body with the first `k` of the expressions under `nodes` added, in
/// order, and their handles.
pub open spec fn lower_exprs(fuel: nat, nodes: Seq<Cursor>, loops: nat, st: BodyModel, k: nat) -> (
    BodyModel,
    Seq<nat>,
)
    decreases fuel, 3nat, k,
{
    if k == 0 || k > nodes.len() {
        (st, Seq::empty())
    } else {
        let (s1, ids) = lower_exprs(fuel, nodes, loops, st, (k - 1) as nat);
        let (s2, id) = lower_expr(fuel, nodes[k - 1], loops, s1);
        (s2, ids.push(id))
    }
}

/// The body with the statement under `c` added, and the handle of that
/// statement.
pub open spec fn lower_stmt(fuel: nat, c: Cursor, loops: nat, st: BodyModel) -> (BodyModel, nat)
    decreases fuel, 3nat, 0nat,
{
    if c.kind() == SyntaxKind::LET_STMT {
        let (s1, pat) = lower_pat(child::<nodes::Pat>(c), span(c), st);
        let (s2, initializer) = lower_value(fuel, child::<nodes::Expr>(c), loops, s1);
        s2.with_stmt(StmtModel::Let { pat, initializer }, span(c))
    } else {
        let (s1, expr) = lower_opt(fuel, child::<nodes::Expr>(c), span(c), loops, st);
        s1.with_stmt(StmtModel::Expr(expr), span(c))
    }
}

/// The body with the first `k` of the statements under `nodes` added, in
/// order, and their handles.
pub open spec fn lower_stmts(fuel: nat, nodes: Seq<Cursor>, loops: nat, st: BodyModel, k: nat) -> (
    BodyModel,
    Seq<nat>,
)
    decreases fuel, 4nat, k,
{
    if k == 0 || k > nodes.len() {
        (st, Seq::empty())
    } else {
        let (s1, ids) = lower_stmts(fuel, nodes, loops, st, (k - 1) as nat);
        let (s2, id) = lower_stmt(fuel, nodes[k - 1], loops, s1);
        (s2, ids.push(id))
    }
}

/// The body with the patterns of the first `k` of the parameters under
/// `params` added, in order, and their handles.
pub open spec fn lower_params(params: Seq<Cursor>, st: BodyModel, k: nat) -> (BodyModel, Seq<nat>)
    decreases k,
{
    if k == 0 || k > params.len() {
        (st, Seq::empty())
    } else {
        let (s1, ids) = lower_params(params, st, (k - 1) as nat);
        let (s2, id) = lower_pat(child::<nodes::Pat>(params[k - 1]), span(params[k - 1]), s1);
        (s2, ids.push(id))
    }
}

/// The fuel that a body is lowered with: as deep as a machine can count.
pub open spec fn lowering_fuel() -> nat {
    usize::MAX as nat
}

/// The body of the function under `function`: its parameters, in order,
/// then its block; a function without a block has a missing expression for
/// its root. The result is the body, the handles of the parameters, and the
/// handle of the root.
pub open spec fn function_body(function: Cursor) -> (BodyModel, Seq<nat>, nat) {
    let params = match child::<nodes::ParamList>(function) {
        Some(list) => all_castable::<nodes::Param>(list.child_nodes()),
        None => Seq::empty(),
    };
    let (s1, ids) = lower_params(params, BodyModel::empty(), params.len());
    let (s2, root) = lower_opt(
        lowering_fuel(),
        child::<nodes::BlockExpr>(function),
        span(function),
        0,
        s1,
    );
    (s2, ids, root)
}

/// Adding a pattern to a closed body gives a closed body and a handle of it.
pub proof fn lemma_lower_pat(pat: Option<Cursor>, range: (nat, nat), st: BodyModel)
    requires
        st.closed(),
    ensures
        lower_pat(pat, range, st).0.closed(),
        st.grown_to(lower_pat(pat, range, st).0),
        within(lower_pat(pat, range, st).1, lower_pat(pat, range, st).0.pats.len()),
{
    match pat {
        Some(c) => {
            if c.kind() == SyntaxKind::BIND_PAT {
                lemma_with_pat_closed(
                    st,
                    PatModel::Bind {
                        name: match child::<nodes::Name>(c) {
                            Some(n) => n.green.text(),
                            None => Seq::empty(),
                        },
                    },
                    span(c),
                );
            } else {
                lemma_with_pat_closed(st, PatModel::Placeholder, span(c));
            }
        },
        None => {
            lemma_with_pat_closed(st, PatModel::Missing, range);
        },
    }
}

/// Adding an expression to a closed body gives a closed body that holds at
/// least as much, and a handle of it.
pub proof fn lemma_lower_expr(fuel: nat, c: Cursor, loops: nat, st: BodyModel)
    requires
        st.closed(),
    ensures
        lower_expr(fuel, c, loops, st).0.closed(),
        st.grown_to(lower_expr(fuel, c, loops, st).0),
        within(lower_expr(fuel, c, loops, st).1, lower_expr(fuel, c, loops, st).0.exprs.len()),
    decreases fuel, 1nat, 0nat,
{
    if fuel == 0 {
        lemma_with_expr_closed(
            st.with_error(LowerErrorKind::TooDeep, span(c)),
            ExprModel::Missing,
            span(c),
        );
    } else {
        let f = (fuel - 1) as nat;
        let kind = c.kind();
        let here = span(c);
        let operand = child::<nodes::Expr>(c);
        let block = child::<nodes::BlockExpr>(c);
        let tested = match child::<nodes::Condition>(c) {
            Some(k) => child::<nodes::Expr>(k),
            None => None,
        };
        if kind == SyntaxKind::LITERAL {
            lemma_with_expr_closed(
                st,
                match first_read(c.child_tokens(), |k: SyntaxKind| literal_kind_of(k), 0) {
                    Some(k) => ExprModel::Literal(k),
                    None => ExprModel::Missing,
                },
                here,
            );
        } else if kind == SyntaxKind::PATH_EXPR {
            lemma_with_expr_closed(st, ExprModel::Path(c.green.text()), here);
        } else if kind == SyntaxKind::PREFIX_EXPR {
            lemma_lower_opt(f, operand, here, loops, st);
            let (s1, id) = lower_opt(f, operand, here, loops, st);
            lemma_with_expr_closed(
                s1,
                ExprModel::Prefix {
                    op: first_read(c.child_tokens(), |k: SyntaxKind| prefix_op_of(k), 0),
                    expr: id,
                },
                here,
            );
        } else if kind == SyntaxKind::BIN_EXPR {
            let left = nth_castable::<nodes::Expr>(c.child_nodes(), 0, 0);
            let right = nth_castable::<nodes::Expr>(c.child_nodes(), 0, 1);
            lemma_lower_opt(f, left, here, loops, st);
            let (s1, lhs) = lower_opt(f, left, here, loops, st);
            lemma_lower_opt(f, right, here, loops, s1);
            let (s2, rhs) = lower_opt(f, right, here, loops, s1);
            lemma_with_expr_closed(
                s2,
                ExprModel::Bin {
                    lhs,
                    rhs,
                    op: first_read(c.child_tokens(), |k: SyntaxKind| bin_op_of(k), 0),
                },
                here,
            );
        } else if kind == SyntaxKind::PAREN_EXPR {
            lemma_lower_opt(f, operand, here, loops, st);
            let (s1, inner) = lower_opt(f, operand, here, loops, st);
            lemma_with_expr_closed(s1, ExprModel::Paren(inner), here);
        } else if kind == SyntaxKind::CALL_EXPR {
            lemma_lower_opt(f, operand, here, loops, st);
            let (s1, callee) = lower_opt(f, operand, here, loops, st);
            let (s2, args) = match child::<nodes::ArgList>(c) {
                Some(list) => {
                    let nodes = all_castable::<nodes::Expr>(list.child_nodes());
                    lemma_lower_exprs(f, nodes, loops, s1, nodes.len());
                    lower_exprs(f, nodes, loops, s1, nodes.len())
                },
                None => (s1, Seq::empty()),
            };
            lemma_with_expr_closed(s2, ExprModel::Call { callee, args }, here);
        } else if kind == SyntaxKind::IF_EXPR {
            lemma_lower_opt(f, tested, here, loops, st);
            let (s1, condition) = lower_opt(f, tested, here, loops, st);
            lemma_lower_opt(f, block, here, loops, s1);
            let (s2, then_branch) = lower_opt(f, block, here, loops, s1);
            let (s3, else_branch) = match nth_castable::<nodes::Expr>(c.child_nodes(), 0, 1) {
                Some(e) => {
                    lemma_lower_expr(f, e, loops, s2);
                    lower_expr(f, e, loops, s2)
                },
                None => {
                    lemma_with_expr_closed(s2, unit(), here);
                    s2.with_expr(unit(), here)
                },
            };
            lemma_with_expr_closed(
                s3,
                ExprModel::If { condition, then_branch, else_branch },
                here,
            );
        } else if kind == SyntaxKind::LOOP_EXPR {
            lemma_lower_opt(f, block, here, loops + 1, st);
            let (s1, body) = lower_opt(f, block, here, loops + 1, st);
            lemma_with_expr_closed(s1, ExprModel::Loop { body }, here);
        } else if kind == SyntaxKind::WHILE_EXPR {
            lemma_lower_opt(f, tested, here, loops, st);
            let (s1, condition) = lower_opt(f, tested, here, loops, st);
            let not = ExprModel::Prefix { op: Some(PrefixOp::Not), expr: condition };
            lemma_with_expr_closed(s1, not, here);
            let (s2, negated) = s1.with_expr(not, here);
            lemma_with_expr_closed(s2, ExprModel::Break { expr: None }, here);
            let (s3, leave) = s2.with_expr(ExprModel::Break { expr: None }, here);
            lemma_with_expr_closed(s3, unit(), here);
            let (s4, stay) = s3.with_expr(unit(), here);
            let test = ExprModel::If { condition: negated, then_branch: leave, else_branch: stay };
            lemma_with_expr_closed(s4, test, here);
            let (s5, check) = s4.with_expr(test, here);
            lemma_with_stmt_closed(s5, StmtModel::Expr(check), here);
            let (s6, first) = s5.with_stmt(StmtModel::Expr(check), here);
            lemma_lower_opt(f, block, here, loops + 1, s6);
            let (s7, body) = lower_opt(f, block, here, loops + 1, s6);
            let inner = ExprModel::Block { statements: seq![first], tail: Some(body) };
            lemma_with_expr_closed(s7, inner, here);
            let (s8, whole) = s7.with_expr(inner, here);
            lemma_with_expr_closed(s8, ExprModel::Loop { body: whole }, here);
        } else if kind == SyntaxKind::RETURN_EXPR {
            lemma_lower_value(f, operand, loops, st);
            let (s1, expr) = lower_value(f, operand, loops, st);
            lemma_with_expr_closed(s1, ExprModel::Return { expr }, here);
        } else if kind == SyntaxKind::BREAK_EXPR {
            let s0 = if loops == 0 {
                st.with_error(LowerErrorKind::BreakOutsideLoop, here)
            } else {
                st
            };
            lemma_lower_value(f, operand, loops, s0);
            let (s1, expr) = lower_value(f, operand, loops, s0);
            lemma_with_expr_closed(s1, ExprModel::Break { expr }, here);
        } else if kind == SyntaxKind::BLOCK_EXPR {
            let stmts = all_castable::<nodes::Stmt>(c.child_nodes());
            lemma_lower_stmts(f, stmts, loops, st, stmts.len());
            let (s1, statements) = lower_stmts(f, stmts, loops, st, stmts.len());
            lemma_lower_value(f, operand, loops, s1);
            let (s2, tail) = lower_value(f, operand, loops, s1);
            lemma_with_expr_closed(s2, ExprModel::Block { statements, tail }, here);
        } else {
            lemma_with_expr_closed(st, ExprModel::Missing, here);
        }
    }
}

/// Adding an expression that may be missing to a closed body gives a closed
/// body and a handle of it.
pub proof fn lemma_lower_opt(
    fuel: nat,
    c: Option<Cursor>,
    range: (nat, nat),
    loops: nat,
    st: BodyModel,
)
    requires
        st.closed(),
    ensures
        lower_opt(fuel, c, range, loops, st).0.closed(),
        st.grown_to(lower_opt(fuel, c, range, loops, st).0),
        within(
            lower_opt(fuel, c, range, loops, st).1,
            lower_opt(fuel, c, range, loops, st).0.exprs.len(),
        ),
    decreases fuel, 2nat, 0nat,
{
    match c {
        Some(c) => {
            lemma_lower_expr(fuel, c, loops, st);
        },
        None => {
            lemma_with_expr_closed(st, ExprModel::Missing, range);
        },
    }
}

/// Adding an expression, where there is one, to a closed body gives a closed
/// body and, where there is a handle, a handle of it.
pub proof fn lemma_lower_value(fuel: nat, c: Option<Cursor>, loops: nat, st: BodyModel)
    requires
        st.closed(),
    ensures
        lower_value(fuel, c, loops, st).0.closed(),
        st.grown_to(lower_value(fuel, c, loops, st).0),
        within_or_none(
            lower_value(fuel, c, loops, st).1,
            lower_value(fuel, c, loops, st).0.exprs.len(),
        ),
    decreases fuel, 2nat, 0nat,
{
    match c {
        Some(c) => {
            lemma_lower_expr(fuel, c, loops, st);
        },
        None => {},
    }
}

/// Adding expressions to a closed body gives a closed body and handles of
/// it.
pub proof fn lemma_lower_exprs(fuel: nat, nodes: Seq<Cursor>, loops: nat, st: BodyModel, k: nat)
    requires
        st.closed(),
    ensures
        lower_exprs(fuel, nodes, loops, st, k).0.closed(),
        st.grown_to(lower_exprs(fuel, nodes, loops, st, k).0),
        all_within(
            lower_exprs(fuel, nodes, loops, st, k).1,
            lower_exprs(fuel, nodes, loops, st, k).0.exprs.len(),
        ),
    decreases fuel, 3nat, k,
{
    if !(k == 0 || k > nodes.len()) {
        lemma_lower_exprs(fuel, nodes, loops, st, (k - 1) as nat);
        let (s1, ids) = lower_exprs(fuel, nodes, loops, st, (k - 1) as nat);
        lemma_lower_expr(fuel, nodes[k - 1], loops, s1);
        let (s2, id) = lower_expr(fuel, nodes[k - 1], loops, s1);
        assert forall|i: int| 0 <= i < ids.push(id).len() implies within(
            #[trigger] ids.push(id)[i],
            s2.exprs.len(),
        ) by {
            if i < ids.len() {
                assert(within(ids[i], s1.exprs.len()));
            }
        }
    }
}

/// Adding a statement to a closed body gives a closed body and a handle of
/// it.
pub proof fn lemma_lower_stmt(fuel: nat, c: Cursor, loops: nat, st: BodyModel)
    requires
        st.closed(),
    ensures
        lower_stmt(fuel, c, loops, st).0.closed(),
        st.grown_to(lower_stmt(fuel, c, loops, st).0),
        within(lower_stmt(fuel, c, loops, st).1, lower_stmt(fuel, c, loops, st).0.stmts.len()),
    decreases fuel, 3nat, 0nat,
{
    let operand = child::<nodes::Expr>(c);
    if c.kind() == SyntaxKind::LET_STMT {
        lemma_lower_pat(child::<nodes::Pat>(c), span(c), st);
        let (s1, pat) = lower_pat(child::<nodes::Pat>(c), span(c), st);
        lemma_lower_value(fuel, operand, loops, s1);
        let (s2, initializer) = lower_value(fuel, operand, loops, s1);
        lemma_with_stmt_closed(s2, StmtModel::Let { pat, initializer }, span(c));
    } else {
        lemma_lower_opt(fuel, operand, span(c), loops, st);
        let (s1, expr) = lower_opt(fuel, operand, span(c), loops, st);
        lemma_with_stmt_closed(s1, StmtModel::Expr(expr), span(c));
    }
}

/// Adding statements to a closed body gives a closed body and handles of
/// it.
pub proof fn lemma_lower_stmts(fuel: nat, nodes: Seq<Cursor>, loops: nat, st: BodyModel, k: nat)
    requires
        st.closed(),
    ensures
        lower_stmts(fuel, nodes, loops, st, k).0.closed(),
        st.grown_to(lower_stmts(fuel, nodes, loops, st, k).0),
        all_within(
            lower_stmts(fuel, nodes, loops, st, k).1,
            lower_stmts(fuel, nodes, loops, st, k).0.stmts.len(),
        ),
    decreases fuel, 4nat, k,
{
    if !(k == 0 || k > nodes.len()) {
        lemma_lower_stmts(fuel, nodes, loops, st, (k - 1) as nat);
        let (s1, ids) = lower_stmts(fuel, nodes, loops, st, (k - 1) as nat);
        lemma_lower_stmt(fuel, nodes[k - 1], loops, s1);
        let (s2, id) = lower_stmt(fuel, nodes[k - 1], loops, s1);
        assert forall|i: int| 0 <= i < ids.push(id).len() implies within(
            #[trigger] ids.push(id)[i],
            s2.stmts.len(),
        ) by {
            if i < ids.len() {
                assert(within(ids[i], s1.stmts.len()));
            }
        }
    }
}

/// Adding the patterns of parameters to a closed body gives a closed body
/// and handles of it.
pub proof fn lemma_lower_params(params: Seq<Cursor>, st: BodyModel, k: nat)
    requires
        st.closed(),
    ensures
        lower_params(params, st, k).0.closed(),
        st.grown_to(lower_params(params, st, k).0),
        all_within(lower_params(params, st, k).1, lower_params(params, st, k).0.pats.len()),
    decreases k,
{
    if !(k == 0 || k > params.len()) {
        lemma_lower_params(params, st, (k - 1) as nat);
        let (s1, ids) = lower_params(params, st, (k - 1) as nat);
        lemma_lower_pat(child::<nodes::Pat>(params[k - 1]), span(params[k - 1]), s1);
        let (s2, id) = lower_pat(child::<nodes::Pat>(params[k - 1]), span(params[k - 1]), s1);
        assert forall|i: int| 0 <= i < ids.push(id).len() implies within(
            #[trigger] ids.push(id)[i],
            s2.pats.len(),
        ) by {
            if i < ids.len() {
                assert(within(ids[i], s1.pats.len()));
            }
        }
    }
}

/// The body of a function is closed: every handle in it, the handles of its
/// parameters and the handle of its root are handles of things in it.
pub proof fn lemma_function_body_closed(function: Cursor)
    ensures
        function_body(function).0.closed(),
        all_within(function_body(function).1, function_body(function).0.pats.len()),
        within(function_body(function).2, function_body(function).0.exprs.len()),
{
    let params = match child::<nodes::ParamList>(function) {
        Some(list) => all_castable::<nodes::Param>(list.child_nodes()),
        None => Seq::empty(),
    };
    lemma_lower_params(params, BodyModel::empty(), params.len());
    let (s1, ids) = lower_params(params, BodyModel::empty(), params.len());
    lemma_lower_opt(
        lowering_fuel(),
        child::<nodes::BlockExpr>(function),
        span(function),
        0,
        s1,
    );
    let (s2, root) = lower_opt(
        lowering_fuel(),
        child::<nodes::BlockExpr>(function),
        span(function),
        0,
        s1,
    );
    assert forall|i: int| 0 <= i < ids.len() implies within(#[trigger] ids[i], s2.pats.len()) by {
        assert(within(ids[i], s1.pats.len()));
    }
}

/// The node under a view that may be missing.
pub open spec fn node_of<C: AstNode>(view: Option<C>) -> Option<Cursor> {
    match view {
        Some(v) => Some(v.node()),
        None => None,
    }
}

/// A body in the making.
pub struct Lowerer {
    exprs: Arena<Expr>,
    pats: Arena<Pat>,
    stmts: Arena<Stmt>,
    ranges: Vec<TextRange>,
    errors: Vec<LowerError>,
}

impl View for Lowerer {
    type V = BodyModel;

    closed spec fn view(&self) -> BodyModel {
        BodyModel {
            exprs: self.exprs@.map_values(|e: Expr| e@),
            pats: self.pats@.map_values(|p: Pat| p@),
            stmts: self.stmts@.map_values(|s: Stmt| s@),
            ranges: self.ranges@.map_values(|r: TextRange| bounds(r)),
            errors: self.errors@.map_values(|e: LowerError| (e.kind, bounds(e.range))),
        }
    }
}

impl Lowerer {
    /// Whether every arena is small enough for its handles, and every
    /// expression has its range.
    pub closed spec fn ok(&self) -> bool {
        self.exprs@.len() <= u32::MAX && self.pats@.len() <= u32::MAX && self.stmts@.len()
            <= u32::MAX && self.ranges@.len() == self.exprs@.len()
    }

    /// A body that holds nothing yet.
    pub fn new() -> (r: Lowerer)
        ensures
            r.ok(),
            r@ == BodyModel::empty(),
    {
        let r = Lowerer {
            exprs: Arena::new(),
            pats: Arena::new(),
            stmts: Arena::new(),
            ranges: Vec::new(),
            errors: Vec::new(),
        };
        assert(r@.exprs =~= Seq::empty());
        assert(r@.pats =~= Seq::empty());
        assert(r@.stmts =~= Seq::empty());
        assert(r@.ranges =~= Seq::empty());
        assert(r@.errors =~= Seq::empty());
        r
    }

    /// Notes that something is wrong at `range`.
    pub fn add_error(&mut self, kind: LowerErrorKind, range: TextRange)
        requires
            old(self).ok(),
        ensures
            final(self).ok(),
            final(self)@ == old(self)@.with_error(kind, bounds(range)),
    {
        let ghost before = self.errors@;
        self.errors.push(LowerError { kind, range });
        assert(self.errors@.map_values(|e: LowerError| (e.kind, bounds(e.range)))
            =~= before.map_values(|e: LowerError| (e.kind, bounds(e.range))).push(
            (kind, bounds(range)),
        ));
    }

    /// Adds an expression made of the source at `range`.
    pub fn add_expr(&mut self, expr: Expr, range: TextRange) -> (r: ExprId)
        requires
            old(self).ok(),
        ensures
            final(self).ok(),
            final(self)@ == old(self)@.with_expr(expr@, bounds(range)).0,
            r@ == old(self)@.with_expr(expr@, bounds(range)).1,
    {
        let len = self.exprs.len();
        if len < 0xffff_ffff {
            let ghost before = self.exprs@;
            let ghost ranges = self.ranges@;
            let id = self.exprs.allocate(expr);
            self.ranges.push(range);
            assert(self.exprs@.map_values(|e: Expr| e@) =~= before.map_values(|e: Expr| e@).push(
                expr@,
            ));
            assert(self.ranges@.map_values(|r: TextRange| bounds(r)) =~= ranges.map_values(
                |r: TextRange| bounds(r),
            ).push(bounds(range)));
            id
        } else {
            self.add_error(LowerErrorKind::TooLarge, range);
            Idx::from_raw(RawId(len as u32))
        }
    }

    /// Adds a pattern made of the source at `range`.
    pub fn add_pat(&mut self, pat: Pat, range: TextRange) -> (r: PatId)
        requires
            old(self).ok(),
        ensures
            final(self).ok(),
            final(self)@ == old(self)@.with_pat(pat@, bounds(range)).0,
            r@ == old(self)@.with_pat(pat@, bounds(range)).1,
    {
        let len = self.pats.len();
        if len < 0xffff_ffff {
            let ghost before = self.pats@;
            let id = self.pats.allocate(pat);
            assert(self.pats@.map_values(|p: Pat| p@) =~= before.map_values(|p: Pat| p@).push(
                pat@,
            ));
            id
        } else {
            self.add_error(LowerErrorKind::TooLarge, range);
            Idx::from_raw(RawId(len as u32))
        }
    }

    /// Adds a statement made of the source at `range`.
    pub fn add_stmt(&mut self, stmt: Stmt, range: TextRange) -> (r: StmtId)
        requires
            old(self).ok(),
        ensures
            final(self).ok(),
            final(self)@ == old(self)@.with_stmt(stmt@, bounds(range)).0,
            r@ == old(self)@.with_stmt(stmt@, bounds(range)).1,
    {
        let len = self.stmts.len();
        if len < 0xffff_ffff {
            let ghost before = self.stmts@;
            let id = self.stmts.allocate(stmt);
            assert(self.stmts@.map_values(|s: Stmt| s@) =~= before.map_values(|s: Stmt| s@).push(
                stmt@,
            ));
            id
        } else {
            self.add_error(LowerErrorKind::TooLarge, range);
            Idx::from_raw(RawId(len as u32))
        }
    }

    /// Adds the pattern `pat`; where it is none, a pattern that is missing
    /// at `range`.
    pub fn lower_pat(&mut self, pat: Option<nodes::Pat>, range: TextRange) -> (r: PatId)
        requires
            old(self).ok(),
        ensures
            final(self).ok(),
            final(self)@ == lower_pat(node_of(pat), bounds(range), old(self)@).0,
            r@ == lower_pat(node_of(pat), bounds(range), old(self)@).1,
    {
        match pat {
            Some(pat) => {
                let range = pat.syntax().text_range();
                match pat.kind() {
                    PatKind::BindPat(bind) => {
                        let name = match bind.name() {
                            Some(n) => n.text(),
                            None => Vec::new(),
                        };
                        self.add_pat(Pat::Bind { name }, range)
                    },
                    PatKind::PlaceholderPat(_) => self.add_pat(Pat::Placeholder, range),
                }
            },
            None => self.add_pat(Pat::Missing, range),
        }
    }
}

/// The block `block` as an expression.
fn block_as_expr(block: Option<nodes::BlockExpr>) -> (r: Option<nodes::Expr>)
    ensures
        node_of(r) == node_of(block),
{
    match block {
        Some(b) => Some(nodes::Expr::from(b)),
        None => None,
    }
}

/// The expression that the condition `condition` tests.
fn condition_expr(condition: Option<nodes::Condition>) -> (r: Option<nodes::Expr>)
    ensures
        node_of(r) == match node_of(condition) {
            Some(k) => child::<nodes::Expr>(k),
            None => None,
        },
{
    match condition {
        Some(c) => c.expr(),
        None => None,
    }
}

impl Lowerer {
    /// Adds the expression `expr`, which stands inside `loops` loops.
    pub fn lower_expr(&mut self, fuel: usize, expr: &nodes::Expr, loops: usize) -> (r: ExprId)
        requires
            old(self).ok(),
            loops + fuel <= usize::MAX,
        ensures
            final(self).ok(),
            final(self)@ == lower_expr(fuel as nat, expr.node(), loops as nat, old(self)@).0,
            r@ == lower_expr(fuel as nat, expr.node(), loops as nat, old(self)@).1,
        decreases fuel, 1nat, 0nat,
    {
        let range = expr.syntax().text_range();
        if fuel == 0 {
            self.add_error(LowerErrorKind::TooDeep, range);
            return self.add_expr(Expr::Missing, range);
        }
        let f = fuel - 1;
        match expr.kind() {
            ExprKind::Literal(literal) => {
                let lowered = match literal.kind() {
                    Some(kind) => Expr::Literal(kind),
                    None => Expr::Missing,
                };
                self.add_expr(lowered, range)
            },
            ExprKind::PathExpr(path) => {
                let text = path.syntax().text();
                self.add_expr(Expr::Path(text), range)
            },
            ExprKind::PrefixExpr(prefix) => {
                let op = prefix.op_kind();
                let operand = self.lower_opt(f, prefix.expr(), range, loops);
                self.add_expr(Expr::Prefix { op, expr: operand }, range)
            },
            ExprKind::BinExpr(bin) => {
                let op = bin.op_kind();
                let lhs = self.lower_opt(f, bin.lhs(), range, loops);
                let rhs = self.lower_opt(f, bin.rhs(), range, loops);
                self.add_expr(Expr::Bin { lhs, rhs, op }, range)
            },
            ExprKind::ParenExpr(paren) => {
                let inner = self.lower_opt(f, paren.expr(), range, loops);
                self.add_expr(Expr::Paren(inner), range)
            },
            ExprKind::CallExpr(call) => {
                let callee = self.lower_opt(f, call.expr(), range, loops);
                let args = match call.arg_list() {
                    Some(list) => {
                        let nodes = list.args();
                        self.lower_exprs(f, &nodes, loops)
                    },
                    None => Vec::new(),
                };
                assert(numbers(Seq::<ExprId>::empty()) =~= Seq::<nat>::empty());
                self.add_expr(Expr::Call { callee, args }, range)
            },
            ExprKind::IfExpr(if_expr) => {
                let tested = condition_expr(if_expr.condition());
                let condition = self.lower_opt(f, tested, range, loops);
                let then_branch = self.lower_opt(
                    f,
                    block_as_expr(if_expr.then_branch()),
                    range,
                    loops,
                );
                let else_branch = match if_expr.else_branch() {
                    Some(e) => self.lower_expr(f, &e, loops),
                    None => {
                        assert(numbers(Seq::<StmtId>::empty()) =~= Seq::<nat>::empty());
                        self.add_expr(Expr::Block { statements: Vec::new(), tail: None }, range)
                    },
                };
                self.add_expr(Expr::If { condition, then_branch, else_branch }, range)
            },
            ExprKind::LoopExpr(loop_expr) => {
                let block = block_as_expr(loop_expr.loop_body());
                let body = self.lower_opt(f, block, range, loops + 1);
                self.add_expr(Expr::Loop { body }, range)
            },
            ExprKind::WhileExpr(while_expr) => {
                let condition = self.lower_opt(
                    f,
                    condition_expr(while_expr.condition()),
                    range,
                    loops,
                );
                let negated = self.add_expr(
                    Expr::Prefix { op: Some(PrefixOp::Not), expr: condition },
                    range,
                );
                let leave = self.add_expr(Expr::Break { expr: None }, range);
                assert(numbers(Seq::<StmtId>::empty()) =~= Seq::<nat>::empty());
                let stay = self.add_expr(Expr::Block { statements: Vec::new(), tail: None }, range);
                let check = self.add_expr(
                    Expr::If { condition: negated, then_branch: leave, else_branch: stay },
                    range,
                );
                let first = self.add_stmt(Stmt::Expr(check), range);
                let body = self.lower_opt(
                    f,
                    block_as_expr(while_expr.loop_body()),
                    range,
                    loops + 1,
                );
                let mut statements: Vec<StmtId> = Vec::new();
                statements.push(first);
                assert(numbers(statements@) =~= seq![first@]);
                let block = self.add_expr(Expr::Block { statements, tail: Some(body) }, range);
                self.add_expr(Expr::Loop { body: block }, range)
            },
            ExprKind::ReturnExpr(ret) => {
                let value = self.lower_value(f, ret.expr(), loops);
                self.add_expr(Expr::Return { expr: value }, range)
            },
            ExprKind::BreakExpr(brk) => {
                if loops == 0 {
                    self.add_error(LowerErrorKind::BreakOutsideLoop, range);
                }
                let value = self.lower_value(f, brk.expr(), loops);
                self.add_expr(Expr::Break { expr: value }, range)
            },
            ExprKind::BlockExpr(block) => {
                let stmts = block.statements();
                let statements = self.lower_stmts(f, &stmts, loops);
                let tail = self.lower_value(f, block.expr(), loops);
                self.add_expr(Expr::Block { statements, tail }, range)
            },
        }
    }

    /// Adds the expression `expr`; where it is none, an expression that is
    /// missing at `range`.
    pub fn lower_opt(
        &mut self,
        fuel: usize,
        expr: Option<nodes::Expr>,
        range: TextRange,
        loops: usize,
    ) -> (r: ExprId)
        requires
            old(self).ok(),
            loops + fuel <= usize::MAX,
        ensures
            final(self).ok(),
            final(self)@ == lower_opt(
                fuel as nat,
                node_of(expr),
                bounds(range),
                loops as nat,
                old(self)@,
            ).0,
            r@ == lower_opt(fuel as nat, node_of(expr), bounds(range), loops as nat, old(self)@).1,
        decreases fuel, 2nat, 0nat,
    {
        match expr {
            Some(e) => self.lower_expr(fuel, &e, loops),
            None => self.add_expr(Expr::Missing, range),
        }
    }

    /// Adds the expression `expr`, where there is one.
    pub fn lower_value(&mut self, fuel: usize, expr: Option<nodes::Expr>, loops: usize) -> (r:
        Option<ExprId>)
        requires
            old(self).ok(),
            loops + fuel <= usize::MAX,
        ensures
            final(self).ok(),
            final(self)@ == lower_value(fuel as nat, node_of(expr), loops as nat, old(self)@).0,
            number(r) == lower_value(fuel as nat, node_of(expr), loops as nat, old(self)@).1,
        decreases fuel, 2nat, 0nat,
    {
        match expr {
            Some(e) => Some(self.lower_expr(fuel, &e, loops)),
            None => None,
        }
    }

    /// Adds the expressions `exprs`, in order.
    pub fn lower_exprs(&mut self, fuel: usize, exprs: &Vec<nodes::Expr>, loops: usize) -> (r: Vec<
        ExprId,
    >)
        requires
            old(self).ok(),
            loops + fuel <= usize::MAX,
        ensures
            final(self).ok(),
            final(self)@ == lower_exprs(
                fuel as nat,
                exprs@.map_values(|e: nodes::Expr| e.node()),
                loops as nat,
                old(self)@,
                exprs@.len(),
            ).0,
            numbers(r@) == lower_exprs(
                fuel as nat,
                exprs@.map_values(|e: nodes::Expr| e.node()),
                loops as nat,
                old(self)@,
                exprs@.len(),
            ).1,
        decreases fuel, 3nat, exprs@.len(),
    {
        let ghost nodes = exprs@.map_values(|e: nodes::Expr| e.node());
        let mut out: Vec<ExprId> = Vec::new();
        let mut i: usize = 0;
        assert(numbers(out@) =~= Seq::<nat>::empty());
        while i < exprs.len()
            invariant
                i <= exprs@.len(),
                self.ok(),
                loops + fuel <= usize::MAX,
                nodes == exprs@.map_values(|e: nodes::Expr| e.node()),
                self@ == lower_exprs(fuel as nat, nodes, loops as nat, old(self)@, i as nat).0,
                numbers(out@) == lower_exprs(
                    fuel as nat,
                    nodes,
                    loops as nat,
                    old(self)@,
                    i as nat,
                ).1,
            decreases exprs.len() - i,
        {
            let ghost before = out@;
            let id = self.lower_expr(fuel, &exprs[i], loops);
            out.push(id);
            assert(numbers(out@) =~= numbers(before).push(id@));
            i = i + 1;
        }
        out
    }

    /// Adds the statement `stmt`.
    pub fn lower_stmt(&mut self, fuel: usize, stmt: &nodes::Stmt, loops: usize) -> (r: StmtId)
        requires
            old(self).ok(),
            loops + fuel <= usize::MAX,
        ensures
            final(self).ok(),
            final(self)@ == lower_stmt(fuel as nat, stmt.node(), loops as nat, old(self)@).0,
            r@ == lower_stmt(fuel as nat, stmt.node(), loops as nat, old(self)@).1,
        decreases fuel, 3nat, 0nat,
    {
        let range = stmt.syntax().text_range();
        match stmt.kind() {
            StmtKind::LetStmt(let_stmt) => {
                let pat = self.lower_pat(let_stmt.pat(), range);
                let initializer = self.lower_value(fuel, let_stmt.initializer(), loops);
                self.add_stmt(Stmt::Let { pat, initializer }, range)
            },
            StmtKind::ExprStmt(expr_stmt) => {
                let expr = self.lower_opt(fuel, expr_stmt.expr(), range, loops);
                self.add_stmt(Stmt::Expr(expr), range)
            },
        }
    }

    /// Adds the statements `stmts`, in order.
    pub fn lower_stmts(&mut self, fuel: usize, stmts: &Vec<nodes::Stmt>, loops: usize) -> (r: Vec<
        StmtId,
    >)
        requires
            old(self).ok(),
            loops + fuel <= usize::MAX,
        ensures
            final(self).ok(),
            final(self)@ == lower_stmts(
                fuel as nat,
                stmts@.map_values(|e: nodes::Stmt| e.node()),
                loops as nat,
                old(self)@,
                stmts@.len(),
            ).0,
            numbers(r@) == lower_stmts(
                fuel as nat,
                stmts@.map_values(|e: nodes::Stmt| e.node()),
                loops as nat,
                old(self)@,
                stmts@.len(),
            ).1,
        decreases fuel, 4nat, stmts@.len(),
    {
        let ghost nodes = stmts@.map_values(|e: nodes::Stmt| e.node());
        let mut out: Vec<StmtId> = Vec::new();
        let mut i: usize = 0;
        assert(numbers(out@) =~= Seq::<nat>::empty());
        while i < stmts.len()
            invariant
                i <= stmts@.len(),
                self.ok(),
                loops + fuel <= usize::MAX,
                nodes == stmts@.map_values(|e: nodes::Stmt| e.node()),
                self@ == lower_stmts(fuel as nat, nodes, loops as nat, old(self)@, i as nat).0,
                numbers(out@) == lower_stmts(
                    fuel as nat,
                    nodes,
                    loops as nat,
                    old(self)@,
                    i as nat,
                ).1,
            decreases stmts.len() - i,
        {
            let ghost before = out@;
            let id = self.lower_stmt(fuel, &stmts[i], loops);
            out.push(id);
            assert(numbers(out@) =~= numbers(before).push(id@));
            i = i + 1;
        }
        out
    }
}

impl Lowerer {
    /// Adds the patterns of the parameters `params`, in order.
    pub fn lower_params(&mut self, params: &Vec<nodes::Param>) -> (r: Vec<PatId>)
        requires
            old(self).ok(),
        ensures
            final(self).ok(),
            final(self)@ == lower_params(
                params@.map_values(|p: nodes::Param| p.node()),
                old(self)@,
                params@.len(),
            ).0,
            numbers(r@) == lower_params(
                params@.map_values(|p: nodes::Param| p.node()),
                old(self)@,
                params@.len(),
            ).1,
    {
        let ghost nodes = params@.map_values(|p: nodes::Param| p.node());
        let mut out: Vec<PatId> = Vec::new();
        let mut i: usize = 0;
        assert(numbers(out@) =~= Seq::<nat>::empty());
        while i < params.len()
            invariant
                i <= params@.len(),
                self.ok(),
                nodes == params@.map_values(|p: nodes::Param| p.node()),
                self@ == lower_params(nodes, old(self)@, i as nat).0,
                numbers(out@) == lower_params(nodes, old(self)@, i as nat).1,
            decreases params.len() - i,
        {
            let ghost before = out@;
            let range = params[i].syntax().text_range();
            let id = self.lower_pat(params[i].pat(), range);
            out.push(id);
            assert(numbers(out@) =~= numbers(before).push(id@));
            i = i + 1;
        }
        out
    }

    /// The body that was made, with its parameters and its root.
    pub fn finish(self, params: Vec<PatId>, root: ExprId) -> (r: Body)
        requires
            self.ok(),
        ensures
            r@ == self@,
            r.params_model() == numbers(params@),
            r.root_model() == root@,
    {
        Body::assemble(self.exprs, self.pats, self.stmts, self.ranges, self.errors, params, root)
    }
}

/// Lowers the function `function` to its body.
pub fn lower_function(function: &nodes::FunctionDef) -> (r: Body)
    ensures
        r@ == function_body(function.node()).0,
        r.params_model() == function_body(function.node()).1,
        r.root_model() == function_body(function.node()).2,
        r@.closed(),
        all_within(r.params_model(), r@.pats.len()),
        within(r.root_model(), r@.exprs.len()),
{
    proof {
        lemma_function_body_closed(function.node());
    }
    let mut lowerer = Lowerer::new();
    let params = match function.param_list() {
        Some(list) => list.params(),
        None => Vec::new(),
    };
    assert(params@.map_values(|p: nodes::Param| p.node()) =~= match child::<nodes::ParamList>(
        function.node(),
    ) {
        Some(list) => all_castable::<nodes::Param>(list.child_nodes()),
        None => Seq::empty(),
    });
    let ids = lowerer.lower_params(&params);
    let range = function.syntax().text_range();
    let root = lowerer.lower_opt(usize::MAX, block_as_expr(function.body()), range, 0);
    lowerer.finish(ids, root)
}

} // verus!
