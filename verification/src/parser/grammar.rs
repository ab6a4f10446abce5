//! The grammar, as mathematics: for each production, the step that it makes
//! of the tokens from a position on.
//!
//! A production that can nest takes `fuel`, a bound on how deep it may go
//! and on how often it may repeat. Where the fuel is used up the production
//! reports that the nesting is too deep and takes nothing.

use crate::parser::{Input, ParseErrorKind, Step};
use crate::syntax_kind::SyntaxKind;
use vstd::prelude::*;

verus! {

/// The lists of the grammar: things between brackets, with commas between
/// them.
#[derive(Clone, Copy, Debug, PartialEq, Eq, Structural)]
pub enum ListKind {
    Params,
    Args,
    RecordFields,
    TupleFields,
}

impl ListKind {
    /// The kind of the node that the list becomes.
    pub open spec fn node(self) -> SyntaxKind {
        match self {
            ListKind::Params => SyntaxKind::PARAM_LIST,
            ListKind::Args => SyntaxKind::ARG_LIST,
            ListKind::RecordFields => SyntaxKind::RECORD_FIELD_DEF_LIST,
            ListKind::TupleFields => SyntaxKind::TUPLE_FIELD_DEF_LIST,
        }
    }

    /// The bracket that opens the list.
    pub open spec fn open(self) -> SyntaxKind {
        match self {
            ListKind::RecordFields => SyntaxKind::L_CURLY,
            _ => SyntaxKind::L_PAREN,
        }
    }

    /// The bracket that closes the list.
    pub open spec fn close(self) -> SyntaxKind {
        match self {
            ListKind::RecordFields => SyntaxKind::R_CURLY,
            _ => SyntaxKind::R_PAREN,
        }
    }

    /// Whether a token of `kind` ends the list even where the closing
    /// bracket is missing.
    pub open spec fn stops(self, kind: SyntaxKind) -> bool {
        kind == self.close() || kind == SyntaxKind::EOF || kind == SyntaxKind::R_CURLY || kind
            == SyntaxKind::SEMI || kind == SyntaxKind::FN_KW || kind == SyntaxKind::STRUCT_KW
            || (self != ListKind::Args && (kind == SyntaxKind::L_CURLY || kind
            == SyntaxKind::PUB_KW || kind == SyntaxKind::THIN_ARROW)) || (self == ListKind::Args
            && kind == SyntaxKind::LET_KW)
    }
}

/// How strongly a binary operator binds what stands to its left and to its
/// right; zero for a token that is no binary operator.
pub open spec fn binding(kind: SyntaxKind) -> (u8, u8) {
    match kind {
        SyntaxKind::EQ | SyntaxKind::PLUSEQ | SyntaxKind::MINUSEQ | SyntaxKind::STAREQ
        | SyntaxKind::SLASHEQ => (2, 1),
        SyntaxKind::PIPEPIPE => (3, 4),
        SyntaxKind::AMPAMP => (5, 6),
        SyntaxKind::EQEQ | SyntaxKind::NEQ | SyntaxKind::LT | SyntaxKind::GT | SyntaxKind::LTEQ
        | SyntaxKind::GTEQ => (7, 8),
        SyntaxKind::PLUS | SyntaxKind::MINUS => (9, 10),
        SyntaxKind::STAR | SyntaxKind::SLASH | SyntaxKind::PERCENT => (11, 12),
        _ => (0, 0),
    }
}

/// Whether a token of `kind` is a literal.
pub open spec fn begins_literal(kind: SyntaxKind) -> bool {
    kind == SyntaxKind::INT_NUMBER || kind == SyntaxKind::FLOAT_NUMBER || kind
        == SyntaxKind::STRING || kind == SyntaxKind::TRUE_KW || kind == SyntaxKind::FALSE_KW
}

/// Whether an expression that begins with a token of `kind` ends with a
/// block, so that as a statement it needs no semicolon.
pub open spec fn block_like(kind: SyntaxKind) -> bool {
    kind == SyntaxKind::IF_KW || kind == SyntaxKind::LOOP_KW || kind == SyntaxKind::WHILE_KW
        || kind == SyntaxKind::L_CURLY
}

/// Whether a token of `kind` cannot begin the value of a `return` or a
/// `break`.
pub open spec fn ends_value(kind: SyntaxKind) -> bool {
    kind == SyntaxKind::SEMI || kind == SyntaxKind::R_CURLY || kind == SyntaxKind::R_PAREN
        || kind == SyntaxKind::COMMA || kind == SyntaxKind::EOF
}

/// The fuel that a text of `len` tokens is parsed with.
pub open spec fn fuel_for(len: nat) -> nat {
    if 2 * len + 4 <= usize::MAX {
        2 * len + 4
    } else {
        usize::MAX as nat
    }
}

impl Input {
    /// One step after another.
    pub open spec fn join(self, first: Step, second: Step) -> Step {
        first.join(second)
    }

    /// The elements of a step as the children of one node of `kind`.
    pub open spec fn wrap(self, inner: Step, kind: SyntaxKind) -> Step {
        inner.wrap(kind)
    }

    /// The trivia from `pos` on, and behind it `inner` as one node of
    /// `kind`.
    pub open spec fn node(self, kind: SyntaxKind, pos: nat, inner: Step) -> Step {
        self.lead(pos).join(inner.wrap(kind))
    }

    /// The trivia from `pos` on, and behind it the next token as the only
    /// child of a node of `kind`.
    pub open spec fn token_node(self, kind: SyntaxKind, pos: nat) -> Step {
        if self.next(pos) < self.len() {
            self.node(kind, pos, self.bump(self.next(pos)))
        } else {
            self.nothing(pos)
        }
    }

    /// The tokens from `from` up to `to`, as they are.
    pub open spec fn run(self, from: nat, to: nat) -> Step {
        Step { start: from, pos: to, elems: self.leaves(from, to), errors: Seq::empty() }
    }

    /// The number of line feeds among the first `upto` bytes of token `i`.
    pub open spec fn line_feeds(self, i: nat, upto: nat) -> nat
        decreases upto,
    {
        if upto == 0 {
            0
        } else {
            self.line_feeds(i, (upto - 1) as nat) + if self.text[self.offset(i) + upto - 1]
                == 0x0a {
                1nat
            } else {
                0nat
            }
        }
    }

    /// Whether token `i` holds an empty line: two line feeds or more.
    pub open spec fn blank_line(self, i: nat) -> bool {
        self.line_feeds(i, self.tokens[i as int].len as nat) >= 2
    }

    /// Where the comments that belong to an item begin, among the trivia
    /// from `i` up to `end`, when `found` is what the trivia before `i` gave:
    /// a comment begins a block of comments unless one is begun, and an
    /// empty line ends the block, so that what stands before it belongs to
    /// nothing.
    pub open spec fn attach_scan(self, i: nat, end: nat, found: nat) -> nat
        decreases end - i,
    {
        if i >= end || i >= self.len() {
            found
        } else if self.kind(i) == SyntaxKind::COMMENT {
            self.attach_scan(
                i + 1,
                end,
                if found == end {
                    i
                } else {
                    found
                },
            )
        } else if self.blank_line(i) {
            self.attach_scan(i + 1, end, end)
        } else {
            self.attach_scan(i + 1, end, found)
        }
    }

    /// Where the trivia in front of an item begins to belong to the item:
    /// at the first comment of the last block of comments that no empty line
    /// parts from the item, and at the item itself where there is no such
    /// block.
    pub open spec fn attach_from(self, pos: nat) -> nat {
        self.attach_scan(pos, self.next(pos), self.next(pos))
    }

    /// An item: the trivia from `pos` on that does not belong to the item,
    /// and behind it the comments that do and `inner` as one node of `kind`.
    pub open spec fn item_node(self, kind: SyntaxKind, pos: nat, inner: Step) -> Step {
        let from = self.attach_from(pos);
        self.run(pos, from).join(self.run(from, self.next(pos)).join(inner).wrap(kind))
    }

    /// All tokens from `pos` on, as they are.
    pub open spec fn remainder(self, pos: nat) -> Step {
        Step {
            start: pos,
            pos: self.len(),
            elems: self.leaves(pos, self.len()),
            errors: Seq::empty(),
        }
    }

    /// `Name := IDENT`
    pub open spec fn name(self, pos: nat) -> Step {
        if self.peek(pos) == SyntaxKind::IDENT {
            self.token_node(SyntaxKind::NAME, pos)
        } else {
            self.error(pos, ParseErrorKind::ExpectedName)
        }
    }

    /// `PathSegment := NameRef`, `NameRef := IDENT`, at a name.
    pub open spec fn segment(self, at: nat) -> Step {
        self.wrap(self.token_node(SyntaxKind::NAME_REF, at), SyntaxKind::PATH_SEGMENT)
    }

    /// The path that `left` becomes with the segments behind it: each `::`
    /// makes what stands before it the qualifier of a longer path.
    pub open spec fn path_rest(self, left: Step) -> Step
        decreases self.len() - left.pos,
    {
        if self.peek(left.pos) != SyntaxKind::COLONCOLON {
            left
        } else {
            let separator = self.expect(left.pos, SyntaxKind::COLONCOLON);
            let segment = if self.peek(separator.pos) == SyntaxKind::IDENT {
                self.join(self.lead(separator.pos), self.segment(self.next(separator.pos)))
            } else {
                self.error(separator.pos, ParseErrorKind::ExpectedName)
            };
            let whole = self.wrap(
                self.join(self.join(left, separator), segment),
                SyntaxKind::PATH,
            );
            if left.pos < whole.pos <= self.len() {
                self.path_rest(whole)
            } else {
                whole
            }
        }
    }

    /// `Path := (Path '::')? PathSegment`
    pub open spec fn path(self, pos: nat) -> Step {
        if self.peek(pos) == SyntaxKind::IDENT {
            let first = self.wrap(self.segment(self.next(pos)), SyntaxKind::PATH);
            self.join(self.lead(pos), self.path_rest(first))
        } else {
            self.error(pos, ParseErrorKind::ExpectedName)
        }
    }

    /// `TypeRef := 'never' | Path`
    pub open spec fn type_ref(self, pos: nat) -> Step {
        let kind = self.peek(pos);
        if kind == SyntaxKind::NEVER_KW {
            self.token_node(SyntaxKind::NEVER_TYPE, pos)
        } else if kind == SyntaxKind::IDENT {
            self.node(SyntaxKind::PATH_TYPE, pos, self.path(self.next(pos)))
        } else {
            self.error(pos, ParseErrorKind::ExpectedType)
        }
    }

    /// `Pat := '_' | Name`
    pub open spec fn pat(self, pos: nat) -> Step {
        let kind = self.peek(pos);
        if kind == SyntaxKind::UNDERSCORE {
            self.token_node(SyntaxKind::PLACEHOLDER_PAT, pos)
        } else if kind == SyntaxKind::IDENT {
            self.node(SyntaxKind::BIND_PAT, pos, self.name(self.next(pos)))
        } else {
            self.error(pos, ParseErrorKind::ExpectedPattern)
        }
    }

    /// `(':' TypeRef)?`
    pub open spec fn ascription(self, pos: nat) -> Step {
        if self.peek(pos) == SyntaxKind::COLON {
            let colon = self.expect(pos, SyntaxKind::COLON);
            let ty = self.type_ref(colon.pos);
            self.join(colon, ty)
        } else {
            self.nothing(pos)
        }
    }

    /// `Param := Pat (':' TypeRef)?`
    pub open spec fn param(self, pos: nat) -> Step {
        let at = self.next(pos);
        let pat = self.pat(at);
        let ty = self.ascription(pat.pos);
        self.node(SyntaxKind::PARAM, pos, self.join(pat, ty))
    }

    /// `RecordFieldDef := Name ':' TypeRef`
    pub open spec fn record_field(self, pos: nat) -> Step {
        let at = self.next(pos);
        let name = self.name(at);
        let colon = self.expect(name.pos, SyntaxKind::COLON);
        let ty = self.type_ref(colon.pos);
        self.node(SyntaxKind::RECORD_FIELD_DEF, pos, self.join(self.join(name, colon), ty))
    }

    /// `TupleFieldDef := TypeRef`
    pub open spec fn tuple_field(self, pos: nat) -> Step {
        self.node(SyntaxKind::TUPLE_FIELD_DEF, pos, self.type_ref(self.next(pos)))
    }

    /// `RetType := '->' TypeRef`, or nothing where no arrow stands.
    pub open spec fn ret_type(self, pos: nat) -> Step {
        if self.peek(pos) == SyntaxKind::THIN_ARROW {
            let arrow = self.expect(self.next(pos), SyntaxKind::THIN_ARROW);
            let ty = self.type_ref(arrow.pos);
            self.node(SyntaxKind::RET_TYPE, pos, self.join(arrow, ty))
        } else {
            self.nothing(pos)
        }
    }

    /// `Visibility := 'pub'`, or nothing where no marker stands.
    pub open spec fn visibility(self, pos: nat) -> Step {
        if self.peek(pos) == SyntaxKind::PUB_KW {
            self.token_node(SyntaxKind::VISIBILITY, pos)
        } else {
            self.nothing(pos)
        }
    }

    /// One element of a list of `kind`.
    pub open spec fn element(self, fuel: nat, pos: nat, kind: ListKind) -> Step
        decreases fuel, 50nat,
    {
        match kind {
            ListKind::Params => self.param(pos),
            ListKind::Args => self.expr(fuel, pos),
            ListKind::RecordFields => self.record_field(pos),
            ListKind::TupleFields => self.tuple_field(pos),
        }
    }

    /// The elements of a list of `kind` with the commas between them, up to
    /// the bracket that closes the list. An element that takes nothing has
    /// the next token skipped, so that the list goes on behind it.
    pub open spec fn list_rest(self, fuel: nat, pos: nat, kind: ListKind) -> Step
        decreases fuel, 60nat,
    {
        if fuel == 0 || kind.stops(self.peek(pos)) {
            self.nothing(pos)
        } else {
            let item = self.element((fuel - 1) as nat, pos, kind);
            if item.pos == pos {
                let skipped = self.join(item, self.skip_one(pos));
                self.join(skipped, self.list_rest((fuel - 1) as nat, skipped.pos, kind))
            } else if self.peek(item.pos) == SyntaxKind::COMMA {
                let comma = self.join(item, self.expect(item.pos, SyntaxKind::COMMA));
                self.join(comma, self.list_rest((fuel - 1) as nat, comma.pos, kind))
            } else if kind.stops(self.peek(item.pos)) {
                item
            } else {
                let missing = self.join(
                    item,
                    self.error(item.pos, ParseErrorKind::ExpectedToken(SyntaxKind::COMMA)),
                );
                self.join(missing, self.list_rest((fuel - 1) as nat, missing.pos, kind))
            }
        }
    }

    /// A list of `kind`: its elements between its brackets.
    pub open spec fn list(self, fuel: nat, pos: nat, kind: ListKind) -> Step
        decreases fuel, 70nat,
    {
        let at = self.next(pos);
        let open = self.expect(at, kind.open());
        let rest = self.list_rest(fuel, open.pos, kind);
        let close = self.expect(rest.pos, kind.close());
        self.node(kind.node(), pos, self.join(self.join(open, rest), close))
    }

    /// `BlockExpr := '{' Stmt* Expr? '}'`
    pub open spec fn block(self, fuel: nat, pos: nat) -> Step
        decreases fuel, 5nat,
    {
        if self.peek(pos) != SyntaxKind::L_CURLY {
            self.error(pos, ParseErrorKind::ExpectedBlock)
        } else if fuel == 0 {
            self.error(pos, ParseErrorKind::NestingTooDeep)
        } else {
            let at = self.next(pos);
            let open = self.expect(at, SyntaxKind::L_CURLY);
            let body = self.stmts((fuel - 1) as nat, open.pos);
            let close = self.expect(body.pos, SyntaxKind::R_CURLY);
            self.node(SyntaxKind::BLOCK_EXPR, pos, self.join(self.join(open, body), close))
        }
    }

    /// The statements of a block, up to its closing brace.
    pub open spec fn stmts(self, fuel: nat, pos: nat) -> Step
        decreases fuel, 40nat,
    {
        let kind = self.peek(pos);
        if fuel == 0 || kind == SyntaxKind::R_CURLY || kind == SyntaxKind::EOF {
            self.nothing(pos)
        } else {
            let stmt = self.stmt((fuel - 1) as nat, pos);
            self.join(stmt, self.stmts((fuel - 1) as nat, stmt.pos))
        }
    }

    /// `Stmt := LetStmt | ExprStmt`, or the expression that ends a block.
    /// An expression statement is an expression with a semicolon; one that
    /// ends with a block needs none. Where nothing can be made of the next
    /// token, it is skipped.
    pub open spec fn stmt(self, fuel: nat, pos: nat) -> Step
        decreases fuel, 35nat,
    {
        if self.peek(pos) == SyntaxKind::LET_KW {
            self.let_stmt(fuel, pos)
        } else {
            let at = self.next(pos);
            let expr = self.expr_bp(fuel, at, 0);
            if expr.pos == at {
                self.join(self.join(self.lead(pos), expr), self.skip_one(at))
            } else if self.peek(expr.pos) == SyntaxKind::SEMI {
                let semi = self.expect(expr.pos, SyntaxKind::SEMI);
                self.node(SyntaxKind::EXPR_STMT, pos, self.join(expr, semi))
            } else if self.peek(expr.pos) == SyntaxKind::R_CURLY {
                self.join(self.lead(pos), expr)
            } else if block_like(self.kind(at)) {
                self.node(SyntaxKind::EXPR_STMT, pos, expr)
            } else {
                let semi = self.error(expr.pos, ParseErrorKind::ExpectedToken(SyntaxKind::SEMI));
                self.node(SyntaxKind::EXPR_STMT, pos, self.join(expr, semi))
            }
        }
    }

    /// `LetStmt := 'let' Pat (':' TypeRef)? ('=' Expr)? ';'`
    pub open spec fn let_stmt(self, fuel: nat, pos: nat) -> Step
        decreases fuel, 30nat,
    {
        let at = self.next(pos);
        let keyword = self.expect(at, SyntaxKind::LET_KW);
        let pat = self.pat(keyword.pos);
        let ty = self.ascription(pat.pos);
        let init = if self.peek(ty.pos) == SyntaxKind::EQ {
            let eq = self.expect(ty.pos, SyntaxKind::EQ);
            self.join(eq, self.expr(fuel, eq.pos))
        } else {
            self.nothing(ty.pos)
        };
        let semi = self.expect(init.pos, SyntaxKind::SEMI);
        self.node(
            SyntaxKind::LET_STMT,
            pos,
            self.join(self.join(self.join(self.join(keyword, pat), ty), init), semi),
        )
    }

    /// An expression, with the trivia in front of it.
    pub open spec fn expr(self, fuel: nat, pos: nat) -> Step
        decreases fuel, 25nat,
    {
        self.join(self.lead(pos), self.expr_bp(fuel, self.next(pos), 0))
    }

    /// An expression whose binary operators all bind at least as strongly
    /// as `min`.
    pub open spec fn expr_bp(self, fuel: nat, at: nat, min: u8) -> Step
        decreases fuel, 24nat,
    {
        self.binary_rest(fuel, self.unary(fuel, at), min)
    }

    /// The expression that `left` becomes with the binary operators behind
    /// it that bind at least as strongly as `min`, and their right operands.
    pub open spec fn binary_rest(self, fuel: nat, left: Step, min: u8) -> Step
        decreases fuel, 23nat,
    {
        let op = self.peek(left.pos);
        let power = binding(op);
        if fuel == 0 || power.0 == 0 || power.0 < min || left.pos == left.start {
            left
        } else {
            let operator = self.expect(left.pos, op);
            let right = self.join(
                self.lead(operator.pos),
                self.expr_bp((fuel - 1) as nat, self.next(operator.pos), power.1),
            );
            let whole = self.wrap(
                self.join(self.join(left, operator), right),
                SyntaxKind::BIN_EXPR,
            );
            self.binary_rest((fuel - 1) as nat, whole, min)
        }
    }

    /// `PrefixExpr := ('-' | '!' | '*') Expr`, or an expression without prefix.
    pub open spec fn unary(self, fuel: nat, at: nat) -> Step
        decreases fuel, 22nat,
    {
        let kind = self.kind(at);
        if kind == SyntaxKind::MINUS || kind == SyntaxKind::EXCLAMATION || kind
            == SyntaxKind::STAR {
            if fuel == 0 {
                self.error(at, ParseErrorKind::NestingTooDeep)
            } else {
                let operator = self.bump(at);
                let operand = self.join(
                    self.lead(operator.pos),
                    self.unary((fuel - 1) as nat, self.next(operator.pos)),
                );
                self.wrap(self.join(operator, operand), SyntaxKind::PREFIX_EXPR)
            }
        } else {
            self.call_rest(fuel, self.atom(fuel, at))
        }
    }

    /// `CallExpr := Expr ArgList`: the expression that `callee` becomes with
    /// the argument lists behind it.
    pub open spec fn call_rest(self, fuel: nat, callee: Step) -> Step
        decreases fuel, 21nat,
    {
        if fuel == 0 || callee.pos == callee.start || self.peek(callee.pos)
            != SyntaxKind::L_PAREN {
            callee
        } else {
            let args = self.list((fuel - 1) as nat, callee.pos, ListKind::Args);
            self.call_rest(
                (fuel - 1) as nat,
                self.wrap(self.join(callee, args), SyntaxKind::CALL_EXPR),
            )
        }
    }

    /// An expression that is no operator with operands and no call: a
    /// literal, a path, an expression between parentheses, an `if`, a loop, a
    /// `return`, a `break` or a block.
    pub open spec fn atom(self, fuel: nat, at: nat) -> Step
        decreases fuel, 20nat,
    {
        let kind = self.kind(at);
        if begins_literal(kind) {
            self.wrap(self.bump(at), SyntaxKind::LITERAL)
        } else if kind == SyntaxKind::IDENT {
            self.wrap(self.path(at), SyntaxKind::PATH_EXPR)
        } else if fuel == 0 {
            self.error(at, ParseErrorKind::NestingTooDeep)
        } else if kind == SyntaxKind::L_PAREN {
            let open = self.bump(at);
            let inner = self.expr((fuel - 1) as nat, open.pos);
            let close = self.expect(inner.pos, SyntaxKind::R_PAREN);
            self.wrap(self.join(self.join(open, inner), close), SyntaxKind::PAREN_EXPR)
        } else if kind == SyntaxKind::IF_KW {
            self.if_expr((fuel - 1) as nat, at)
        } else if kind == SyntaxKind::LOOP_KW {
            let keyword = self.bump(at);
            let body = self.block((fuel - 1) as nat, keyword.pos);
            self.wrap(self.join(keyword, body), SyntaxKind::LOOP_EXPR)
        } else if kind == SyntaxKind::WHILE_KW {
            let keyword = self.bump(at);
            let condition = self.condition((fuel - 1) as nat, keyword.pos);
            let body = self.block((fuel - 1) as nat, condition.pos);
            self.wrap(self.join(self.join(keyword, condition), body), SyntaxKind::WHILE_EXPR)
        } else if kind == SyntaxKind::RETURN_KW {
            let keyword = self.bump(at);
            let value = self.value((fuel - 1) as nat, keyword.pos);
            self.wrap(self.join(keyword, value), SyntaxKind::RETURN_EXPR)
        } else if kind == SyntaxKind::BREAK_KW {
            let keyword = self.bump(at);
            let value = self.value((fuel - 1) as nat, keyword.pos);
            self.wrap(self.join(keyword, value), SyntaxKind::BREAK_EXPR)
        } else if kind == SyntaxKind::L_CURLY {
            self.block((fuel - 1) as nat, at)
        } else {
            self.error(at, ParseErrorKind::ExpectedExpression)
        }
    }

    /// `Condition := Expr`
    pub open spec fn condition(self, fuel: nat, pos: nat) -> Step
        decreases fuel, 26nat,
    {
        self.node(SyntaxKind::CONDITION, pos, self.expr_bp(fuel, self.next(pos), 0))
    }

    /// The value of a `return` or a `break`, where one stands.
    pub open spec fn value(self, fuel: nat, pos: nat) -> Step
        decreases fuel, 26nat,
    {
        if ends_value(self.peek(pos)) {
            self.nothing(pos)
        } else {
            self.expr(fuel, pos)
        }
    }

    /// `IfExpr := 'if' Condition BlockExpr ('else' (IfExpr | BlockExpr))?`
    pub open spec fn if_expr(self, fuel: nat, at: nat) -> Step
        decreases fuel, 28nat,
    {
        if self.kind(at) != SyntaxKind::IF_KW || at >= self.len() {
            self.error(at, ParseErrorKind::ExpectedExpression)
        } else if fuel == 0 {
            self.error(at, ParseErrorKind::NestingTooDeep)
        } else {
            let keyword = self.bump(at);
            let condition = self.condition((fuel - 1) as nat, keyword.pos);
            let body = self.block((fuel - 1) as nat, condition.pos);
            let other = if self.peek(body.pos) == SyntaxKind::ELSE_KW {
                let word = self.expect(body.pos, SyntaxKind::ELSE_KW);
                if self.peek(word.pos) == SyntaxKind::IF_KW {
                    self.join(
                        self.join(word, self.lead(word.pos)),
                        self.if_expr((fuel - 1) as nat, self.next(word.pos)),
                    )
                } else {
                    self.join(word, self.block((fuel - 1) as nat, word.pos))
                }
            } else {
                self.nothing(body.pos)
            };
            self.wrap(
                self.join(self.join(self.join(keyword, condition), body), other),
                SyntaxKind::IF_EXPR,
            )
        }
    }

    /// `FunctionDef := Visibility? 'fn' Name ParamList RetType? BlockExpr`
    pub open spec fn function_def(self, fuel: nat, pos: nat) -> Step
        decreases fuel, 80nat,
    {
        let at = self.next(pos);
        let visibility = self.visibility(at);
        let keyword = self.expect(visibility.pos, SyntaxKind::FN_KW);
        let name = self.name(keyword.pos);
        let params = if self.peek(name.pos) == SyntaxKind::L_PAREN {
            self.list(fuel, name.pos, ListKind::Params)
        } else {
            self.error(name.pos, ParseErrorKind::ExpectedParameters)
        };
        let ret = self.ret_type(params.pos);
        let body = self.block(fuel, ret.pos);
        self.item_node(
            SyntaxKind::FUNCTION_DEF,
            pos,
            self.join(
                self.join(self.join(self.join(self.join(visibility, keyword), name), params), ret),
                body,
            ),
        )
    }

    /// `StructDef := Visibility? 'struct' Name (RecordFieldDefList |
    /// TupleFieldDefList ';'? | ';')`
    pub open spec fn struct_def(self, fuel: nat, pos: nat) -> Step
        decreases fuel, 80nat,
    {
        let at = self.next(pos);
        let visibility = self.visibility(at);
        let keyword = self.expect(visibility.pos, SyntaxKind::STRUCT_KW);
        let name = self.name(keyword.pos);
        let kind = self.peek(name.pos);
        let fields = if kind == SyntaxKind::L_CURLY {
            self.list(fuel, name.pos, ListKind::RecordFields)
        } else if kind == SyntaxKind::L_PAREN {
            let list = self.list(fuel, name.pos, ListKind::TupleFields);
            if self.peek(list.pos) == SyntaxKind::SEMI {
                self.join(list, self.expect(list.pos, SyntaxKind::SEMI))
            } else {
                list
            }
        } else if kind == SyntaxKind::SEMI {
            self.expect(name.pos, SyntaxKind::SEMI)
        } else {
            self.error(name.pos, ParseErrorKind::ExpectedFields)
        };
        self.item_node(
            SyntaxKind::STRUCT_DEF,
            pos,
            self.join(self.join(self.join(visibility, keyword), name), fields),
        )
    }

    /// `ModuleItem := FunctionDef | StructDef`. Where the next token begins
    /// neither, it is skipped.
    pub open spec fn item(self, fuel: nat, pos: nat) -> Step
        decreases fuel, 90nat,
    {
        let at = self.next(pos);
        let first = self.kind(at);
        let kind = if first == SyntaxKind::PUB_KW {
            self.peek(at + 1)
        } else {
            first
        };
        if kind == SyntaxKind::FN_KW {
            self.function_def(fuel, pos)
        } else if kind == SyntaxKind::STRUCT_KW {
            self.struct_def(fuel, pos)
        } else {
            self.join(self.error(pos, ParseErrorKind::ExpectedItem), self.skip_one(pos))
        }
    }

    /// The items of a file, up to the end of the text.
    pub open spec fn items(self, fuel: nat, pos: nat) -> Step
        decreases fuel, 100nat,
    {
        if fuel == 0 || self.peek(pos) == SyntaxKind::EOF {
            self.nothing(pos)
        } else {
            let item = self.item((fuel - 1) as nat, pos);
            self.join(item, self.items((fuel - 1) as nat, item.pos))
        }
    }

    /// `SourceFile := ModuleItem*`: the items, and behind them whatever is
    /// left of the tokens.
    pub open spec fn source_file(self) -> Step {
        let items = self.items(fuel_for(self.len()), 0);
        self.wrap(self.join(items, self.remainder(items.pos)), SyntaxKind::SOURCE_FILE)
    }
}

} // verus!
