//! What holds of the grammar whatever the text: every production keeps the
//! text of the tokens that it takes.

use crate::lexer::lemma_tokens_cover;
use crate::parser::grammar::{binding, fuel_for, ListKind};
use crate::parser::{
    input_of, lemma_join_covers, lemma_leaves_text, lemma_next_bounds, lemma_offsets,
    lemma_plain_covers, lemma_wrap_covers, parse_errors, parse_tree, Input, ParseErrorKind, Step,
};
use crate::syntax_kind::SyntaxKind;
use vstd::prelude::*;

verus! {

/// Whether `step` begins at `pos`, takes tokens of `inp`, and keeps their
/// text.
pub open spec fn sound(inp: Input, step: Step, pos: nat) -> bool {
    inp.covers(step) && step.start == pos
}

/// The plain steps are sound.
pub proof fn lemma_plain(inp: Input, pos: nat)
    requires
        inp.well_formed(),
        pos <= inp.len(),
    ensures
        pos <= inp.next(pos) <= inp.len(),
        sound(inp, inp.nothing(pos), pos),
        sound(inp, inp.lead(pos), pos),
        sound(inp, inp.skip_one(pos), pos),
        sound(inp, inp.remainder(pos), pos),
        pos < inp.len() ==> sound(inp, inp.bump(pos), pos),
        forall|kind: ParseErrorKind| sound(inp, #[trigger] inp.error(pos, kind), pos),
        forall|kind: SyntaxKind| sound(inp, #[trigger] inp.expect(pos, kind), pos),
        forall|kind: SyntaxKind| sound(inp, #[trigger] inp.token_node(kind, pos), pos),
{
    lemma_next_bounds(inp, pos);
    lemma_plain_covers(inp, pos);
    lemma_plain_covers(inp, inp.next(pos));
    lemma_leaves_text(inp, pos, inp.len());
    let at = inp.next(pos);
    if at < inp.len() {
        lemma_join_covers(inp, inp.lead(pos), inp.bump(at));
        assert forall|kind: SyntaxKind| sound(inp, #[trigger] inp.token_node(kind, pos), pos) by {
            lemma_wrap_covers(inp, inp.bump(at), kind);
            lemma_join_covers(inp, inp.lead(pos), inp.bump(at).wrap(kind));
        }
        lemma_wrap_covers(inp, inp.bump(at), SyntaxKind::ERROR);
        lemma_join_covers(inp, inp.lead(pos), inp.bump(at).wrap(SyntaxKind::ERROR));
    }
}

/// Two sound steps, one after the other, are a sound step.
pub proof fn lemma_join(inp: Input, a: Step, b: Step, pos: nat)
    requires
        inp.well_formed(),
        sound(inp, a, pos),
        sound(inp, b, a.pos),
    ensures
        sound(inp, a.join(b), pos),
{
    lemma_join_covers(inp, a, b);
}

/// A sound step wrapped in a node is a sound step.
pub proof fn lemma_wrap(inp: Input, a: Step, kind: SyntaxKind, pos: nat)
    requires
        sound(inp, a, pos),
    ensures
        sound(inp, a.wrap(kind), pos),
{
    lemma_wrap_covers(inp, a, kind);
}

/// A node over a sound step, with the trivia in front of it, is a sound
/// step.
pub proof fn lemma_node(inp: Input, kind: SyntaxKind, pos: nat, inner: Step)
    requires
        inp.well_formed(),
        pos <= inp.len(),
        sound(inp, inner, inp.next(pos)),
    ensures
        sound(inp, inp.node(kind, pos, inner), pos),
{
    lemma_plain(inp, pos);
    lemma_wrap(inp, inner, kind, inp.next(pos));
    lemma_join(inp, inp.lead(pos), inner.wrap(kind), pos);
}

/// The comments that belong to an item begin among the trivia in front of
/// it.
pub proof fn lemma_attach_scan(inp: Input, i: nat, end: nat, found: nat, pos: nat)
    requires
        pos <= i <= end,
        pos <= found <= end,
    ensures
        pos <= inp.attach_scan(i, end, found) <= end,
    decreases end - i,
{
    if !(i >= end || i >= inp.len()) {
        if inp.kind(i) == SyntaxKind::COMMENT {
            lemma_attach_scan(
                inp,
                i + 1,
                end,
                if found == end {
                    i
                } else {
                    found
                },
                pos,
            );
        } else if inp.blank_line(i) {
            lemma_attach_scan(inp, i + 1, end, end, pos);
        } else {
            lemma_attach_scan(inp, i + 1, end, found, pos);
        }
    }
}

/// An item over a sound step, with the trivia in front of it, is a sound
/// step.
pub proof fn lemma_item_node(inp: Input, kind: SyntaxKind, pos: nat, inner: Step)
    requires
        inp.well_formed(),
        pos <= inp.len(),
        sound(inp, inner, inp.next(pos)),
    ensures
        sound(inp, inp.item_node(kind, pos, inner), pos),
{
    lemma_plain(inp, pos);
    let end = inp.next(pos);
    lemma_attach_scan(inp, pos, end, end, pos);
    let from = inp.attach_from(pos);
    lemma_leaves_text(inp, pos, from);
    lemma_leaves_text(inp, from, end);
    lemma_join(inp, inp.run(from, end), inner, from);
    lemma_wrap(inp, inp.run(from, end).join(inner), kind, from);
    lemma_join(inp, inp.run(pos, from), inp.run(from, end).join(inner).wrap(kind), pos);
}

/// `Name` is sound.
pub proof fn lemma_name(inp: Input, pos: nat)
    requires
        inp.well_formed(),
        pos <= inp.len(),
    ensures
        sound(inp, inp.name(pos), pos),
{
    lemma_plain(inp, pos);
}

/// `PathSegment` is sound.
pub proof fn lemma_segment(inp: Input, at: nat)
    requires
        inp.well_formed(),
        at <= inp.len(),
    ensures
        sound(inp, inp.segment(at), at),
{
    lemma_plain(inp, at);
    lemma_wrap(inp, inp.token_node(SyntaxKind::NAME_REF, at), SyntaxKind::PATH_SEGMENT, at);
}

/// The segments behind a path keep it sound.
pub proof fn lemma_path_rest(inp: Input, left: Step)
    requires
        inp.well_formed(),
        inp.covers(left),
    ensures
        sound(inp, inp.path_rest(left), left.start),
    decreases inp.len() - left.pos,
{
    if inp.peek(left.pos) == SyntaxKind::COLONCOLON {
        lemma_plain(inp, left.pos);
        let separator = inp.expect(left.pos, SyntaxKind::COLONCOLON);
        lemma_plain(inp, separator.pos);
        let segment = if inp.peek(separator.pos) == SyntaxKind::IDENT {
            lemma_segment(inp, inp.next(separator.pos));
            lemma_join(
                inp,
                inp.lead(separator.pos),
                inp.segment(inp.next(separator.pos)),
                separator.pos,
            );
            inp.join(inp.lead(separator.pos), inp.segment(inp.next(separator.pos)))
        } else {
            inp.error(separator.pos, ParseErrorKind::ExpectedName)
        };
        lemma_join(inp, left, separator, left.start);
        lemma_join(inp, left.join(separator), segment, left.start);
        let whole = left.join(separator).join(segment).wrap(SyntaxKind::PATH);
        lemma_wrap(inp, left.join(separator).join(segment), SyntaxKind::PATH, left.start);
        if left.pos < whole.pos <= inp.len() {
            lemma_path_rest(inp, whole);
        }
    }
}

/// `Path` is sound.
pub proof fn lemma_path(inp: Input, pos: nat)
    requires
        inp.well_formed(),
        pos <= inp.len(),
    ensures
        sound(inp, inp.path(pos), pos),
{
    lemma_plain(inp, pos);
    if inp.peek(pos) == SyntaxKind::IDENT {
        let at = inp.next(pos);
        lemma_segment(inp, at);
        lemma_wrap(inp, inp.segment(at), SyntaxKind::PATH, at);
        lemma_path_rest(inp, inp.segment(at).wrap(SyntaxKind::PATH));
        lemma_join(inp, inp.lead(pos), inp.path_rest(inp.segment(at).wrap(SyntaxKind::PATH)), pos);
    }
}

/// `TypeRef` is sound.
pub proof fn lemma_type_ref(inp: Input, pos: nat)
    requires
        inp.well_formed(),
        pos <= inp.len(),
    ensures
        sound(inp, inp.type_ref(pos), pos),
{
    lemma_plain(inp, pos);
    lemma_path(inp, inp.next(pos));
    lemma_node(inp, SyntaxKind::PATH_TYPE, pos, inp.path(inp.next(pos)));
}

/// `Pat` is sound.
pub proof fn lemma_pat(inp: Input, pos: nat)
    requires
        inp.well_formed(),
        pos <= inp.len(),
    ensures
        sound(inp, inp.pat(pos), pos),
{
    lemma_plain(inp, pos);
    lemma_name(inp, inp.next(pos));
    lemma_node(inp, SyntaxKind::BIND_PAT, pos, inp.name(inp.next(pos)));
}

/// A type behind a colon is sound.
pub proof fn lemma_ascription(inp: Input, pos: nat)
    requires
        inp.well_formed(),
        pos <= inp.len(),
    ensures
        sound(inp, inp.ascription(pos), pos),
{
    lemma_plain(inp, pos);
    let colon = inp.expect(pos, SyntaxKind::COLON);
    lemma_type_ref(inp, colon.pos);
    lemma_join(inp, colon, inp.type_ref(colon.pos), pos);
}

/// `Param` is sound.
pub proof fn lemma_param(inp: Input, pos: nat)
    requires
        inp.well_formed(),
        pos <= inp.len(),
    ensures
        sound(inp, inp.param(pos), pos),
{
    lemma_plain(inp, pos);
    let at = inp.next(pos);
    lemma_pat(inp, at);
    let pat = inp.pat(at);
    lemma_ascription(inp, pat.pos);
    lemma_join(inp, pat, inp.ascription(pat.pos), at);
    lemma_node(inp, SyntaxKind::PARAM, pos, pat.join(inp.ascription(pat.pos)));
}

/// `RecordFieldDef` is sound.
pub proof fn lemma_record_field(inp: Input, pos: nat)
    requires
        inp.well_formed(),
        pos <= inp.len(),
    ensures
        sound(inp, inp.record_field(pos), pos),
{
    lemma_plain(inp, pos);
    let at = inp.next(pos);
    lemma_name(inp, at);
    let name = inp.name(at);
    lemma_plain(inp, name.pos);
    let colon = inp.expect(name.pos, SyntaxKind::COLON);
    lemma_type_ref(inp, colon.pos);
    lemma_join(inp, name, colon, at);
    lemma_join(inp, name.join(colon), inp.type_ref(colon.pos), at);
    lemma_node(
        inp,
        SyntaxKind::RECORD_FIELD_DEF,
        pos,
        name.join(colon).join(inp.type_ref(colon.pos)),
    );
}

/// `TupleFieldDef` is sound.
pub proof fn lemma_tuple_field(inp: Input, pos: nat)
    requires
        inp.well_formed(),
        pos <= inp.len(),
    ensures
        sound(inp, inp.tuple_field(pos), pos),
{
    lemma_plain(inp, pos);
    lemma_type_ref(inp, inp.next(pos));
    lemma_node(inp, SyntaxKind::TUPLE_FIELD_DEF, pos, inp.type_ref(inp.next(pos)));
}

/// `RetType` is sound.
pub proof fn lemma_ret_type(inp: Input, pos: nat)
    requires
        inp.well_formed(),
        pos <= inp.len(),
    ensures
        sound(inp, inp.ret_type(pos), pos),
{
    lemma_plain(inp, pos);
    let at = inp.next(pos);
    lemma_plain(inp, at);
    let arrow = inp.expect(at, SyntaxKind::THIN_ARROW);
    lemma_type_ref(inp, arrow.pos);
    lemma_join(inp, arrow, inp.type_ref(arrow.pos), at);
    lemma_node(inp, SyntaxKind::RET_TYPE, pos, arrow.join(inp.type_ref(arrow.pos)));
}

/// `Visibility` is sound.
pub proof fn lemma_visibility(inp: Input, pos: nat)
    requires
        inp.well_formed(),
        pos <= inp.len(),
    ensures
        sound(inp, inp.visibility(pos), pos),
{
    lemma_plain(inp, pos);
}

/// An element of a list is sound.
pub proof fn lemma_element(inp: Input, fuel: nat, pos: nat, kind: ListKind)
    requires
        inp.well_formed(),
        pos <= inp.len(),
    ensures
        sound(inp, inp.element(fuel, pos, kind), pos),
    decreases fuel, 50nat,
{
    match kind {
        ListKind::Params => lemma_param(inp, pos),
        ListKind::Args => lemma_expr(inp, fuel, pos),
        ListKind::RecordFields => lemma_record_field(inp, pos),
        ListKind::TupleFields => lemma_tuple_field(inp, pos),
    }
}

/// The elements of a list are sound.
pub proof fn lemma_list_rest(inp: Input, fuel: nat, pos: nat, kind: ListKind)
    requires
        inp.well_formed(),
        pos <= inp.len(),
    ensures
        sound(inp, inp.list_rest(fuel, pos, kind), pos),
    decreases fuel, 60nat,
{
    lemma_plain(inp, pos);
    if !(fuel == 0 || kind.stops(inp.peek(pos))) {
        let f = (fuel - 1) as nat;
        lemma_element(inp, f, pos, kind);
        let item = inp.element(f, pos, kind);
        lemma_plain(inp, item.pos);
        if item.pos == pos {
            let skipped = item.join(inp.skip_one(pos));
            lemma_join(inp, item, inp.skip_one(pos), pos);
            lemma_list_rest(inp, f, skipped.pos, kind);
            lemma_join(inp, skipped, inp.list_rest(f, skipped.pos, kind), pos);
        } else if inp.peek(item.pos) == SyntaxKind::COMMA {
            let comma = item.join(inp.expect(item.pos, SyntaxKind::COMMA));
            lemma_join(inp, item, inp.expect(item.pos, SyntaxKind::COMMA), pos);
            lemma_list_rest(inp, f, comma.pos, kind);
            lemma_join(inp, comma, inp.list_rest(f, comma.pos, kind), pos);
        } else if kind.stops(inp.peek(item.pos)) {
        } else {
            let missing = item.join(
                inp.error(item.pos, ParseErrorKind::ExpectedToken(SyntaxKind::COMMA)),
            );
            lemma_join(
                inp,
                item,
                inp.error(item.pos, ParseErrorKind::ExpectedToken(SyntaxKind::COMMA)),
                pos,
            );
            lemma_list_rest(inp, f, missing.pos, kind);
            lemma_join(inp, missing, inp.list_rest(f, missing.pos, kind), pos);
        }
    }
}

/// A list is sound.
pub proof fn lemma_list(inp: Input, fuel: nat, pos: nat, kind: ListKind)
    requires
        inp.well_formed(),
        pos <= inp.len(),
    ensures
        sound(inp, inp.list(fuel, pos, kind), pos),
    decreases fuel, 70nat,
{
    lemma_plain(inp, pos);
    let at = inp.next(pos);
    lemma_plain(inp, at);
    let open = inp.expect(at, kind.open());
    lemma_list_rest(inp, fuel, open.pos, kind);
    let rest = inp.list_rest(fuel, open.pos, kind);
    lemma_plain(inp, rest.pos);
    let close = inp.expect(rest.pos, kind.close());
    lemma_join(inp, open, rest, at);
    lemma_join(inp, open.join(rest), close, at);
    lemma_node(inp, kind.node(), pos, open.join(rest).join(close));
}

/// `BlockExpr` is sound.
pub proof fn lemma_block(inp: Input, fuel: nat, pos: nat)
    requires
        inp.well_formed(),
        pos <= inp.len(),
    ensures
        sound(inp, inp.block(fuel, pos), pos),
    decreases fuel, 5nat,
{
    lemma_plain(inp, pos);
    if inp.peek(pos) == SyntaxKind::L_CURLY && fuel != 0 {
        let at = inp.next(pos);
        lemma_plain(inp, at);
        let open = inp.expect(at, SyntaxKind::L_CURLY);
        lemma_stmts(inp, (fuel - 1) as nat, open.pos);
        let body = inp.stmts((fuel - 1) as nat, open.pos);
        lemma_plain(inp, body.pos);
        let close = inp.expect(body.pos, SyntaxKind::R_CURLY);
        lemma_join(inp, open, body, at);
        lemma_join(inp, open.join(body), close, at);
        lemma_node(inp, SyntaxKind::BLOCK_EXPR, pos, open.join(body).join(close));
    }
}

/// The statements of a block are sound.
pub proof fn lemma_stmts(inp: Input, fuel: nat, pos: nat)
    requires
        inp.well_formed(),
        pos <= inp.len(),
    ensures
        sound(inp, inp.stmts(fuel, pos), pos),
    decreases fuel, 40nat,
{
    lemma_plain(inp, pos);
    let kind = inp.peek(pos);
    if !(fuel == 0 || kind == SyntaxKind::R_CURLY || kind == SyntaxKind::EOF) {
        let f = (fuel - 1) as nat;
        lemma_stmt(inp, f, pos);
        let stmt = inp.stmt(f, pos);
        lemma_stmts(inp, f, stmt.pos);
        lemma_join(inp, stmt, inp.stmts(f, stmt.pos), pos);
    }
}

/// `Stmt` is sound.
pub proof fn lemma_stmt(inp: Input, fuel: nat, pos: nat)
    requires
        inp.well_formed(),
        pos <= inp.len(),
    ensures
        sound(inp, inp.stmt(fuel, pos), pos),
    decreases fuel, 35nat,
{
    lemma_plain(inp, pos);
    if inp.peek(pos) == SyntaxKind::LET_KW {
        lemma_let_stmt(inp, fuel, pos);
    } else {
        let at = inp.next(pos);
        lemma_expr_bp(inp, fuel, at, 0);
        let expr = inp.expr_bp(fuel, at, 0);
        lemma_plain(inp, at);
        lemma_plain(inp, expr.pos);
        lemma_join(inp, inp.lead(pos), expr, pos);
        if expr.pos == at {
            lemma_join(inp, inp.lead(pos).join(expr), inp.skip_one(at), pos);
        } else if inp.peek(expr.pos) == SyntaxKind::SEMI {
            lemma_join(inp, expr, inp.expect(expr.pos, SyntaxKind::SEMI), at);
            lemma_node(
                inp,
                SyntaxKind::EXPR_STMT,
                pos,
                expr.join(inp.expect(expr.pos, SyntaxKind::SEMI)),
            );
        } else if inp.peek(expr.pos) == SyntaxKind::R_CURLY {
        } else {
            lemma_node(inp, SyntaxKind::EXPR_STMT, pos, expr);
            let semi = inp.error(expr.pos, ParseErrorKind::ExpectedToken(SyntaxKind::SEMI));
            lemma_join(inp, expr, semi, at);
            lemma_node(inp, SyntaxKind::EXPR_STMT, pos, expr.join(semi));
        }
    }
}

/// `LetStmt` is sound.
pub proof fn lemma_let_stmt(inp: Input, fuel: nat, pos: nat)
    requires
        inp.well_formed(),
        pos <= inp.len(),
    ensures
        sound(inp, inp.let_stmt(fuel, pos), pos),
    decreases fuel, 30nat,
{
    lemma_plain(inp, pos);
    let at = inp.next(pos);
    lemma_plain(inp, at);
    let keyword = inp.expect(at, SyntaxKind::LET_KW);
    lemma_pat(inp, keyword.pos);
    let pat = inp.pat(keyword.pos);
    lemma_ascription(inp, pat.pos);
    let ty = inp.ascription(pat.pos);
    lemma_plain(inp, ty.pos);
    let init = if inp.peek(ty.pos) == SyntaxKind::EQ {
        let eq = inp.expect(ty.pos, SyntaxKind::EQ);
        lemma_expr(inp, fuel, eq.pos);
        lemma_join(inp, eq, inp.expr(fuel, eq.pos), ty.pos);
        inp.join(eq, inp.expr(fuel, eq.pos))
    } else {
        inp.nothing(ty.pos)
    };
    lemma_plain(inp, init.pos);
    let semi = inp.expect(init.pos, SyntaxKind::SEMI);
    lemma_join(inp, keyword, pat, at);
    lemma_join(inp, keyword.join(pat), ty, at);
    lemma_join(inp, keyword.join(pat).join(ty), init, at);
    lemma_join(inp, keyword.join(pat).join(ty).join(init), semi, at);
    lemma_node(inp, SyntaxKind::LET_STMT, pos, keyword.join(pat).join(ty).join(init).join(semi));
}

/// An expression with the trivia in front of it is sound.
pub proof fn lemma_expr(inp: Input, fuel: nat, pos: nat)
    requires
        inp.well_formed(),
        pos <= inp.len(),
    ensures
        sound(inp, inp.expr(fuel, pos), pos),
    decreases fuel, 25nat,
{
    lemma_plain(inp, pos);
    lemma_expr_bp(inp, fuel, inp.next(pos), 0);
    lemma_join(inp, inp.lead(pos), inp.expr_bp(fuel, inp.next(pos), 0), pos);
}

/// An expression is sound.
pub proof fn lemma_expr_bp(inp: Input, fuel: nat, at: nat, min: u8)
    requires
        inp.well_formed(),
        at <= inp.len(),
    ensures
        sound(inp, inp.expr_bp(fuel, at, min), at),
    decreases fuel, 24nat,
{
    lemma_unary(inp, fuel, at);
    lemma_binary_rest(inp, fuel, inp.unary(fuel, at), min);
}

/// The operators behind an expression keep it sound.
pub proof fn lemma_binary_rest(inp: Input, fuel: nat, left: Step, min: u8)
    requires
        inp.well_formed(),
        inp.covers(left),
    ensures
        sound(inp, inp.binary_rest(fuel, left, min), left.start),
    decreases fuel, 23nat,
{
    let op = inp.peek(left.pos);
    let power = binding(op);
    if !(fuel == 0 || power.0 == 0 || power.0 < min || left.pos == left.start) {
        let f = (fuel - 1) as nat;
        lemma_plain(inp, left.pos);
        let operator = inp.expect(left.pos, op);
        lemma_plain(inp, operator.pos);
        lemma_expr_bp(inp, f, inp.next(operator.pos), power.1);
        let right = inp.lead(operator.pos).join(inp.expr_bp(f, inp.next(operator.pos), power.1));
        lemma_join(
            inp,
            inp.lead(operator.pos),
            inp.expr_bp(f, inp.next(operator.pos), power.1),
            operator.pos,
        );
        lemma_join(inp, left, operator, left.start);
        lemma_join(inp, left.join(operator), right, left.start);
        lemma_wrap(inp, left.join(operator).join(right), SyntaxKind::BIN_EXPR, left.start);
        lemma_binary_rest(
            inp,
            f,
            left.join(operator).join(right).wrap(SyntaxKind::BIN_EXPR),
            min,
        );
    }
}

/// An expression with its prefixes is sound.
pub proof fn lemma_unary(inp: Input, fuel: nat, at: nat)
    requires
        inp.well_formed(),
        at <= inp.len(),
    ensures
        sound(inp, inp.unary(fuel, at), at),
    decreases fuel, 22nat,
{
    lemma_plain(inp, at);
    let kind = inp.kind(at);
    if kind == SyntaxKind::MINUS || kind == SyntaxKind::EXCLAMATION || kind == SyntaxKind::STAR {
        if fuel != 0 {
            let f = (fuel - 1) as nat;
            let operator = inp.bump(at);
            lemma_plain(inp, operator.pos);
            lemma_unary(inp, f, inp.next(operator.pos));
            let operand = inp.lead(operator.pos).join(inp.unary(f, inp.next(operator.pos)));
            lemma_join(
                inp,
                inp.lead(operator.pos),
                inp.unary(f, inp.next(operator.pos)),
                operator.pos,
            );
            lemma_join(inp, operator, operand, at);
            lemma_wrap(inp, operator.join(operand), SyntaxKind::PREFIX_EXPR, at);
        }
    } else {
        lemma_atom(inp, fuel, at);
        lemma_call_rest(inp, fuel, inp.atom(fuel, at));
    }
}

/// The argument lists behind an expression keep it sound.
pub proof fn lemma_call_rest(inp: Input, fuel: nat, callee: Step)
    requires
        inp.well_formed(),
        inp.covers(callee),
    ensures
        sound(inp, inp.call_rest(fuel, callee), callee.start),
    decreases fuel, 21nat,
{
    if !(fuel == 0 || callee.pos == callee.start || inp.peek(callee.pos) != SyntaxKind::L_PAREN) {
        let f = (fuel - 1) as nat;
        lemma_list(inp, f, callee.pos, ListKind::Args);
        let args = inp.list(f, callee.pos, ListKind::Args);
        lemma_join(inp, callee, args, callee.start);
        lemma_wrap(inp, callee.join(args), SyntaxKind::CALL_EXPR, callee.start);
        lemma_call_rest(inp, f, callee.join(args).wrap(SyntaxKind::CALL_EXPR));
    }
}

/// An expression without operators is sound.
pub proof fn lemma_atom(inp: Input, fuel: nat, at: nat)
    requires
        inp.well_formed(),
        at <= inp.len(),
    ensures
        sound(inp, inp.atom(fuel, at), at),
    decreases fuel, 20nat,
{
    lemma_plain(inp, at);
    let kind = inp.kind(at);
    if at < inp.len() {
        lemma_wrap(inp, inp.bump(at), SyntaxKind::LITERAL, at);
    }
    lemma_path(inp, at);
    lemma_wrap(inp, inp.path(at), SyntaxKind::PATH_EXPR, at);
    if fuel != 0 && at < inp.len() {
        let f = (fuel - 1) as nat;
        let first = inp.bump(at);
        if kind == SyntaxKind::L_PAREN {
            lemma_expr(inp, f, first.pos);
            let inner = inp.expr(f, first.pos);
            lemma_plain(inp, inner.pos);
            let close = inp.expect(inner.pos, SyntaxKind::R_PAREN);
            lemma_join(inp, first, inner, at);
            lemma_join(inp, first.join(inner), close, at);
            lemma_wrap(inp, first.join(inner).join(close), SyntaxKind::PAREN_EXPR, at);
        } else if kind == SyntaxKind::IF_KW {
            lemma_if_expr(inp, f, at);
        } else if kind == SyntaxKind::LOOP_KW {
            lemma_block(inp, f, first.pos);
            lemma_join(inp, first, inp.block(f, first.pos), at);
            lemma_wrap(inp, first.join(inp.block(f, first.pos)), SyntaxKind::LOOP_EXPR, at);
        } else if kind == SyntaxKind::WHILE_KW {
            lemma_condition(inp, f, first.pos);
            let condition = inp.condition(f, first.pos);
            lemma_block(inp, f, condition.pos);
            let body = inp.block(f, condition.pos);
            lemma_join(inp, first, condition, at);
            lemma_join(inp, first.join(condition), body, at);
            lemma_wrap(inp, first.join(condition).join(body), SyntaxKind::WHILE_EXPR, at);
        } else if kind == SyntaxKind::RETURN_KW {
            lemma_value(inp, f, first.pos);
            lemma_join(inp, first, inp.value(f, first.pos), at);
            lemma_wrap(inp, first.join(inp.value(f, first.pos)), SyntaxKind::RETURN_EXPR, at);
        } else if kind == SyntaxKind::BREAK_KW {
            lemma_value(inp, f, first.pos);
            lemma_join(inp, first, inp.value(f, first.pos), at);
            lemma_wrap(inp, first.join(inp.value(f, first.pos)), SyntaxKind::BREAK_EXPR, at);
        } else if kind == SyntaxKind::L_CURLY {
            lemma_block(inp, f, at);
        }
    }
}

/// `Condition` is sound.
pub proof fn lemma_condition(inp: Input, fuel: nat, pos: nat)
    requires
        inp.well_formed(),
        pos <= inp.len(),
    ensures
        sound(inp, inp.condition(fuel, pos), pos),
    decreases fuel, 26nat,
{
    lemma_plain(inp, pos);
    lemma_expr_bp(inp, fuel, inp.next(pos), 0);
    lemma_node(inp, SyntaxKind::CONDITION, pos, inp.expr_bp(fuel, inp.next(pos), 0));
}

/// The value of a `return` or a `break` is sound.
pub proof fn lemma_value(inp: Input, fuel: nat, pos: nat)
    requires
        inp.well_formed(),
        pos <= inp.len(),
    ensures
        sound(inp, inp.value(fuel, pos), pos),
    decreases fuel, 26nat,
{
    lemma_plain(inp, pos);
    lemma_expr(inp, fuel, pos);
}

/// `IfExpr` is sound.
pub proof fn lemma_if_expr(inp: Input, fuel: nat, at: nat)
    requires
        inp.well_formed(),
        at <= inp.len(),
    ensures
        sound(inp, inp.if_expr(fuel, at), at),
    decreases fuel, 28nat,
{
    lemma_plain(inp, at);
    if !(inp.kind(at) != SyntaxKind::IF_KW || at >= inp.len()) && fuel != 0 {
        let f = (fuel - 1) as nat;
        let keyword = inp.bump(at);
        lemma_condition(inp, f, keyword.pos);
        let condition = inp.condition(f, keyword.pos);
        lemma_block(inp, f, condition.pos);
        let body = inp.block(f, condition.pos);
        lemma_plain(inp, body.pos);
        let other = if inp.peek(body.pos) == SyntaxKind::ELSE_KW {
            let word = inp.expect(body.pos, SyntaxKind::ELSE_KW);
            lemma_plain(inp, word.pos);
            if inp.peek(word.pos) == SyntaxKind::IF_KW {
                lemma_if_expr(inp, f, inp.next(word.pos));
                lemma_join(inp, word, inp.lead(word.pos), body.pos);
                lemma_join(
                    inp,
                    word.join(inp.lead(word.pos)),
                    inp.if_expr(f, inp.next(word.pos)),
                    body.pos,
                );
                inp.join(inp.join(word, inp.lead(word.pos)), inp.if_expr(f, inp.next(word.pos)))
            } else {
                lemma_block(inp, f, word.pos);
                lemma_join(inp, word, inp.block(f, word.pos), body.pos);
                inp.join(word, inp.block(f, word.pos))
            }
        } else {
            inp.nothing(body.pos)
        };
        lemma_join(inp, keyword, condition, at);
        lemma_join(inp, keyword.join(condition), body, at);
        lemma_join(inp, keyword.join(condition).join(body), other, at);
        lemma_wrap(inp, keyword.join(condition).join(body).join(other), SyntaxKind::IF_EXPR, at);
    }
}

/// `FunctionDef` is sound.
pub proof fn lemma_function_def(inp: Input, fuel: nat, pos: nat)
    requires
        inp.well_formed(),
        pos <= inp.len(),
    ensures
        sound(inp, inp.function_def(fuel, pos), pos),
    decreases fuel, 80nat,
{
    lemma_plain(inp, pos);
    let at = inp.next(pos);
    lemma_visibility(inp, at);
    let visibility = inp.visibility(at);
    lemma_plain(inp, visibility.pos);
    let keyword = inp.expect(visibility.pos, SyntaxKind::FN_KW);
    lemma_name(inp, keyword.pos);
    let name = inp.name(keyword.pos);
    lemma_plain(inp, name.pos);
    let params = if inp.peek(name.pos) == SyntaxKind::L_PAREN {
        lemma_list(inp, fuel, name.pos, ListKind::Params);
        inp.list(fuel, name.pos, ListKind::Params)
    } else {
        inp.error(name.pos, ParseErrorKind::ExpectedParameters)
    };
    lemma_ret_type(inp, params.pos);
    let ret = inp.ret_type(params.pos);
    lemma_block(inp, fuel, ret.pos);
    let body = inp.block(fuel, ret.pos);
    lemma_join(inp, visibility, keyword, at);
    lemma_join(inp, visibility.join(keyword), name, at);
    lemma_join(inp, visibility.join(keyword).join(name), params, at);
    lemma_join(inp, visibility.join(keyword).join(name).join(params), ret, at);
    lemma_join(inp, visibility.join(keyword).join(name).join(params).join(ret), body, at);
    lemma_item_node(
        inp,
        SyntaxKind::FUNCTION_DEF,
        pos,
        visibility.join(keyword).join(name).join(params).join(ret).join(body),
    );
}

/// `StructDef` is sound.
pub proof fn lemma_struct_def(inp: Input, fuel: nat, pos: nat)
    requires
        inp.well_formed(),
        pos <= inp.len(),
    ensures
        sound(inp, inp.struct_def(fuel, pos), pos),
    decreases fuel, 80nat,
{
    lemma_plain(inp, pos);
    let at = inp.next(pos);
    lemma_visibility(inp, at);
    let visibility = inp.visibility(at);
    lemma_plain(inp, visibility.pos);
    let keyword = inp.expect(visibility.pos, SyntaxKind::STRUCT_KW);
    lemma_name(inp, keyword.pos);
    let name = inp.name(keyword.pos);
    lemma_plain(inp, name.pos);
    let kind = inp.peek(name.pos);
    let fields = if kind == SyntaxKind::L_CURLY {
        lemma_list(inp, fuel, name.pos, ListKind::RecordFields);
        inp.list(fuel, name.pos, ListKind::RecordFields)
    } else if kind == SyntaxKind::L_PAREN {
        lemma_list(inp, fuel, name.pos, ListKind::TupleFields);
        let list = inp.list(fuel, name.pos, ListKind::TupleFields);
        lemma_plain(inp, list.pos);
        if inp.peek(list.pos) == SyntaxKind::SEMI {
            lemma_join(inp, list, inp.expect(list.pos, SyntaxKind::SEMI), name.pos);
            inp.join(list, inp.expect(list.pos, SyntaxKind::SEMI))
        } else {
            list
        }
    } else if kind == SyntaxKind::SEMI {
        inp.expect(name.pos, SyntaxKind::SEMI)
    } else {
        inp.error(name.pos, ParseErrorKind::ExpectedFields)
    };
    lemma_join(inp, visibility, keyword, at);
    lemma_join(inp, visibility.join(keyword), name, at);
    lemma_join(inp, visibility.join(keyword).join(name), fields, at);
    lemma_item_node(
        inp,
        SyntaxKind::STRUCT_DEF,
        pos,
        visibility.join(keyword).join(name).join(fields),
    );
}

/// `ModuleItem` is sound.
pub proof fn lemma_item(inp: Input, fuel: nat, pos: nat)
    requires
        inp.well_formed(),
        pos <= inp.len(),
    ensures
        sound(inp, inp.item(fuel, pos), pos),
    decreases fuel, 90nat,
{
    lemma_plain(inp, pos);
    lemma_function_def(inp, fuel, pos);
    lemma_struct_def(inp, fuel, pos);
    lemma_join(inp, inp.error(pos, ParseErrorKind::ExpectedItem), inp.skip_one(pos), pos);
}

/// The items of a file are sound.
pub proof fn lemma_items(inp: Input, fuel: nat, pos: nat)
    requires
        inp.well_formed(),
        pos <= inp.len(),
    ensures
        sound(inp, inp.items(fuel, pos), pos),
    decreases fuel, 100nat,
{
    lemma_plain(inp, pos);
    if !(fuel == 0 || inp.peek(pos) == SyntaxKind::EOF) {
        let f = (fuel - 1) as nat;
        lemma_item(inp, f, pos);
        let item = inp.item(f, pos);
        lemma_items(inp, f, item.pos);
        lemma_join(inp, item, inp.items(f, item.pos), pos);
    }
}

/// Parsing is lossless: the tree that a text parses to holds every byte of
/// the text, in order.
pub proof fn lemma_parse_is_lossless(text: Seq<u8>)
    requires
        text.len() <= u32::MAX,
    ensures
        parse_tree(text).text() == text,
{
    let inp = input_of(text);
    lemma_tokens_cover(text, 0);
    let items = inp.items(fuel_for(inp.len()), 0);
    lemma_items(inp, fuel_for(inp.len()), 0);
    lemma_plain(inp, items.pos);
    lemma_join(inp, items, inp.remainder(items.pos), 0);
    let children = items.join(inp.remainder(items.pos));
    lemma_wrap(inp, children, SyntaxKind::SOURCE_FILE, 0);
    lemma_offsets(inp, 0, inp.len());
    assert(inp.span(0, inp.len()) =~= text);
    assert(inp.source_file().elems[0].children() == children.elems);
}

/// Printing a parsed tree and parsing what was printed gives the same tree
/// and the same errors again.
pub proof fn lemma_parse_of_printed(text: Seq<u8>)
    requires
        text.len() <= u32::MAX,
    ensures
        parse_tree(parse_tree(text).text()) == parse_tree(text),
        parse_errors(parse_tree(text).text()) == parse_errors(text),
{
    lemma_parse_is_lossless(text);
}

} // verus!
