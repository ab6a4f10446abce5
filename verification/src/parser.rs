//! The parser: a recursive descent over the tokens of a text that builds a
//! lossless tree and reports what it had to skip or found missing.
//!
//! What the parser computes is written down twice. The functions on
//! [`Input`] say, as mathematics, which tree and which errors belong to a
//! run of tokens. The functions on [`Parser`] compute them, and each is
//! proved to give what its counterpart says.

pub mod grammar;
pub mod laws;
pub mod run;

use crate::green::{
    concat_text, lemma_concat_text_add, lemma_concat_text_push, GreenNode, Tree,
};
use crate::ast::nodes::SourceFile;
use crate::ast::AstNode;
use crate::lexer::{lemma_total_len_add, tokenize, tokens_from, total_len, Token};
use crate::parser::run::Parser;
use crate::syntax_node::{Cursor, SyntaxNode};
use crate::syntax_kind::SyntaxKind;
use std::sync::Arc;
use vstd::prelude::*;
use vstd::string::StringSliceAdditionalSpecFns;

verus! {

/// What went wrong at a place in the text.
#[derive(Clone, Copy, Debug, PartialEq, Eq, Structural, Hash)]
pub enum ParseErrorKind {
    ExpectedItem,
    ExpectedName,
    ExpectedType,
    ExpectedPattern,
    ExpectedExpression,
    ExpectedBlock,
    ExpectedParameters,
    ExpectedFields,
    ExpectedToken(SyntaxKind),
    NestingTooDeep,
}

/// A parse error: what went wrong, and the offset of the token at which
/// it was noticed.
#[derive(Clone, Copy, Debug, PartialEq, Eq, Structural, Hash)]
pub struct ParseError {
    pub kind: ParseErrorKind,
    pub offset: u32,
}

/// What the parser reads: a text and the tokens it was cut into.
pub struct Input {
    pub text: Seq<u8>,
    pub tokens: Seq<Token>,
}

/// What a part of the parser hands back: the tokens from `start` up to `pos`
/// were used up and turned into `elems`, and `errors` were met on the way.
pub struct Step {
    pub start: nat,
    pub pos: nat,
    pub elems: Seq<Tree>,
    pub errors: Seq<ParseError>,
}

impl Step {
    /// This step followed by `next`.
    pub open spec fn join(self, next: Step) -> Step {
        Step {
            start: self.start,
            pos: next.pos,
            elems: self.elems + next.elems,
            errors: self.errors + next.errors,
        }
    }

    /// The elements of this step as the children of one node of `kind`.
    pub open spec fn wrap(self, kind: SyntaxKind) -> Step {
        Step {
            start: self.start,
            pos: self.pos,
            elems: seq![Tree::Node { kind, children: self.elems }],
            errors: self.errors,
        }
    }
}

impl Input {
    /// Whether the tokens tile the text, and the text is short enough for
    /// 32-bit offsets.
    pub open spec fn well_formed(self) -> bool {
        total_len(self.tokens) == self.text.len() && self.text.len() <= u32::MAX
    }

    /// The number of tokens.
    pub open spec fn len(self) -> nat {
        self.tokens.len()
    }

    /// The offset in the text at which token `i` begins.
    pub open spec fn offset(self, i: nat) -> nat {
        total_len(self.tokens.take(i as int))
    }

    /// The kind of token `i`; behind the last token, the end-of-text mark.
    pub open spec fn kind(self, i: nat) -> SyntaxKind {
        if i < self.tokens.len() {
            self.tokens[i as int].kind
        } else {
            SyntaxKind::EOF
        }
    }

    /// Token `i` as a leaf of the tree.
    pub open spec fn leaf(self, i: nat) -> Tree {
        Tree::Token {
            kind: self.tokens[i as int].kind,
            text: self.text.subrange(self.offset(i) as int, self.offset(i + 1) as int),
        }
    }

    /// The tokens from `from` up to `to` as leaves.
    pub open spec fn leaves(self, from: nat, to: nat) -> Seq<Tree> {
        Seq::new((to - from) as nat, |k: int| self.leaf((from + k) as nat))
    }

    /// The text of the tokens from `from` up to `to`.
    pub open spec fn span(self, from: nat, to: nat) -> Seq<u8> {
        self.text.subrange(self.offset(from) as int, self.offset(to) as int)
    }

    /// The number of trivia tokens that stand in a row from `i` on.
    pub open spec fn trivia_run(self, i: nat) -> nat
        decreases self.tokens.len() - i,
    {
        if i < self.tokens.len() && self.tokens[i as int].kind.trivia() {
            1 + self.trivia_run(i + 1)
        } else {
            0
        }
    }

    /// The position of the first token at or behind `i` that is no trivia.
    pub open spec fn next(self, i: nat) -> nat {
        i + self.trivia_run(i)
    }

    /// The kind of the first token at or behind `i` that is no trivia.
    pub open spec fn peek(self, i: nat) -> SyntaxKind {
        self.kind(self.next(i))
    }

    /// Whether `step` used up tokens of this input and kept their text.
    pub open spec fn covers(self, step: Step) -> bool {
        &&& step.start <= step.pos <= self.len()
        &&& concat_text(step.elems) == self.span(step.start, step.pos)
    }

    /// The step that does nothing at `pos`.
    pub open spec fn nothing(self, pos: nat) -> Step {
        Step { start: pos, pos, elems: Seq::empty(), errors: Seq::empty() }
    }

    /// The step that takes the trivia in front of the next token.
    pub open spec fn lead(self, pos: nat) -> Step {
        Step {
            start: pos,
            pos: self.next(pos),
            elems: self.leaves(pos, self.next(pos)),
            errors: Seq::empty(),
        }
    }

    /// The step that takes the token at `pos`, which is no trivia.
    pub open spec fn bump(self, pos: nat) -> Step {
        Step { start: pos, pos: pos + 1, elems: seq![self.leaf(pos)], errors: Seq::empty() }
    }

    /// The step that takes nothing and reports `kind` at the next token.
    pub open spec fn error(self, pos: nat, kind: ParseErrorKind) -> Step {
        Step {
            start: pos,
            pos,
            elems: Seq::empty(),
            errors: seq![ParseError { kind, offset: self.offset(self.next(pos)) as u32 }],
        }
    }

    /// The step that takes the trivia and then the next token if it is of
    /// `kind`, and reports that it is missing if not.
    pub open spec fn expect(self, pos: nat, kind: SyntaxKind) -> Step {
        if self.peek(pos) == kind && self.next(pos) < self.len() {
            self.lead(pos).join(self.bump(self.next(pos)))
        } else {
            self.error(pos, ParseErrorKind::ExpectedToken(kind))
        }
    }

    /// The step that takes the trivia and then the next token, whatever it
    /// is, inside an error node; at the end of the text it takes nothing.
    pub open spec fn skip_one(self, pos: nat) -> Step {
        if self.next(pos) < self.len() {
            self.lead(pos).join(self.bump(self.next(pos)).wrap(SyntaxKind::ERROR))
        } else {
            self.nothing(pos)
        }
    }
}

/// The trivia in front of a token ends within the tokens.
pub proof fn lemma_next_bounds(inp: Input, i: nat)
    requires
        i <= inp.len(),
    ensures
        i <= inp.next(i) <= inp.len(),
        inp.next(i) < inp.len() ==> !inp.kind(inp.next(i)).trivia(),
        !inp.peek(i).trivia(),
        forall|j: nat| i <= j < inp.next(i) ==> (#[trigger] inp.kind(j)).trivia(),
    decreases inp.len() - i,
{
    if i < inp.tokens.len() && inp.tokens[i as int].kind.trivia() {
        lemma_next_bounds(inp, i + 1);
        assert forall|j: nat| i <= j < inp.next(i) implies (#[trigger] inp.kind(j)).trivia() by {
            if j > i {
                assert(i + 1 <= j < inp.next(i + 1));
            }
        }
    }
}

/// Offsets rise with the position, and the last one is the length of the
/// text.
pub proof fn lemma_offsets(inp: Input, i: nat, j: nat)
    requires
        inp.well_formed(),
        i <= j <= inp.len(),
    ensures
        inp.offset(i) <= inp.offset(j) <= inp.text.len(),
        j < inp.len() ==> inp.offset(j + 1) == inp.offset(j) + inp.tokens[j as int].len,
        inp.offset(0) == 0,
        inp.offset(inp.len()) == inp.text.len(),
{
    let t = inp.tokens;
    assert(t.take(t.len() as int) =~= t);
    assert(t.take(0) =~= Seq::<Token>::empty());
    assert(t.take(j as int) =~= t.take(i as int) + t.subrange(i as int, j as int));
    lemma_total_len_add(t.take(i as int), t.subrange(i as int, j as int));
    assert(t =~= t.take(j as int) + t.skip(j as int));
    lemma_total_len_add(t.take(j as int), t.skip(j as int));
    if j < t.len() {
        assert(t.take(j as int + 1).drop_last() =~= t.take(j as int));
    }
}

/// The text of a run of leaves is the text that the tokens span.
pub proof fn lemma_leaves_text(inp: Input, from: nat, to: nat)
    requires
        inp.well_formed(),
        from <= to <= inp.len(),
    ensures
        concat_text(inp.leaves(from, to)) == inp.span(from, to),
    decreases to - from,
{
    lemma_offsets(inp, from, to);
    if from == to {
        assert(inp.leaves(from, to) =~= Seq::<Tree>::empty());
        assert(inp.span(from, to) =~= Seq::<u8>::empty());
    } else {
        let prev = (to - 1) as nat;
        lemma_leaves_text(inp, from, prev);
        lemma_offsets(inp, from, prev);
        lemma_offsets(inp, prev, to);
        assert(inp.leaves(from, to) =~= inp.leaves(from, prev).push(inp.leaf(prev)));
        lemma_concat_text_push(inp.leaves(from, prev), inp.leaf(prev));
        assert(inp.span(from, to) =~= inp.span(from, prev) + inp.leaf(prev).text());
    }
}

/// One step after another covers what the two cover.
pub proof fn lemma_join_covers(inp: Input, a: Step, b: Step)
    requires
        inp.well_formed(),
        inp.covers(a),
        inp.covers(b),
        b.start == a.pos,
    ensures
        inp.covers(a.join(b)),
{
    lemma_concat_text_add(a.elems, b.elems);
    lemma_offsets(inp, a.start, a.pos);
    lemma_offsets(inp, a.pos, b.pos);
    assert(inp.span(a.start, b.pos) =~= inp.span(a.start, a.pos) + inp.span(a.pos, b.pos));
}

/// A step wrapped in a node covers what the step covers.
pub proof fn lemma_wrap_covers(inp: Input, a: Step, kind: SyntaxKind)
    requires
        inp.covers(a),
    ensures
        inp.covers(a.wrap(kind)),
{
    let node = Tree::Node { kind, children: a.elems };
    assert(a.wrap(kind).elems =~= Seq::<Tree>::empty().push(node));
    lemma_concat_text_push(Seq::<Tree>::empty(), node);
    assert(concat_text(Seq::<Tree>::empty()) =~= Seq::<u8>::empty());
    assert(concat_text(a.wrap(kind).elems) =~= node.text());
}

/// The plain steps cover what they take.
pub proof fn lemma_plain_covers(inp: Input, pos: nat)
    requires
        inp.well_formed(),
        pos <= inp.len(),
    ensures
        inp.covers(inp.nothing(pos)),
        inp.covers(inp.lead(pos)),
        pos < inp.len() ==> inp.covers(inp.bump(pos)),
        forall|kind: ParseErrorKind| inp.covers(#[trigger] inp.error(pos, kind)),
{
    lemma_next_bounds(inp, pos);
    lemma_leaves_text(inp, pos, pos);
    assert(inp.leaves(pos, pos) =~= Seq::<Tree>::empty());
    lemma_leaves_text(inp, pos, inp.next(pos));
    if pos < inp.len() {
        lemma_leaves_text(inp, pos, pos + 1);
        assert(inp.leaves(pos, pos + 1) =~= seq![inp.leaf(pos)]);
    }
}

/// What the parser reads when it is given `text`.
pub open spec fn input_of(text: Seq<u8>) -> Input {
    Input { text, tokens: tokens_from(text, 0) }
}

/// The tree that `text` parses to.
pub open spec fn parse_tree(text: Seq<u8>) -> Tree {
    Tree::Node {
        kind: SyntaxKind::SOURCE_FILE,
        children: input_of(text).source_file().elems[0].children(),
    }
}

/// The errors that parsing `text` reports, in source order.
pub open spec fn parse_errors(text: Seq<u8>) -> Seq<ParseError> {
    input_of(text).source_file().errors
}

/// The outcome of parsing a text: a tree that holds every byte of the text,
/// and the errors that were met.
#[derive(Debug, PartialEq, Eq)]
pub struct Parse {
    green: Arc<GreenNode>,
    errors: Vec<ParseError>,
}

impl Parse {
    #[verifier::type_invariant]
    spec fn well_formed(self) -> bool {
        &&& self.green@.text().len() <= u32::MAX
        &&& self.green@ == parse_tree(self.green@.text())
        &&& self.errors@ == parse_errors(self.green@.text())
    }

    /// The tree, as mathematics.
    pub closed spec fn tree_model(&self) -> Tree {
        self.green@
    }

    /// The errors, as mathematics.
    pub closed spec fn errors_model(&self) -> Seq<ParseError> {
        self.errors@
    }

    /// The root of the tree.
    pub fn green(&self) -> (r: &GreenNode)
        ensures
            r@ == self.tree_model(),
    {
        &self.green
    }

    /// The errors that were met, in source order.
    pub fn errors(&self) -> (r: &Vec<ParseError>)
        ensures
            r@ == self.errors_model(),
    {
        &self.errors
    }

    /// A cursor on the root of the tree.
    pub fn syntax_node(&self) -> (r: SyntaxNode)
        ensures
            r@ == Cursor::root(self.tree_model()),
    {
        proof {
            use_type_invariant(self);
        }
        SyntaxNode::new_root_shared(&self.green)
    }

    /// The tree as a source file.
    pub fn tree(&self) -> (r: SourceFile)
        ensures
            r.node() == Cursor::root(self.tree_model()),
    {
        proof {
            use_type_invariant(self);
        }
        SourceFile::cast(self.syntax_node()).unwrap()
    }

    /// Parses the text that the tree prints. The outcome is the one at hand:
    /// printing a parsed tree and parsing what was printed gives the same
    /// tree and the same errors again.
    pub fn reparse(&self) -> (r: Parse)
        ensures
            r.tree_model() == self.tree_model(),
            r.errors_model() == self.errors_model(),
    {
        proof {
            use_type_invariant(self);
        }
        let text = crate::green::print_green(&self.green);
        parse_bytes(text.as_slice())
    }
}

/// Parses `text`. The tree holds every byte of the text, in order: its text
/// is `text`.
pub fn parse_bytes(text: &[u8]) -> (r: Parse)
    requires
        text@.len() <= u32::MAX,
    ensures
        r.tree_model() == parse_tree(text@),
        r.errors_model() == parse_errors(text@),
        r.tree_model().text() == text@,
{
    let tokens = tokenize(text);
    let parser = Parser::new(text, &tokens);
    let pieces = parser.source_file();
    proof {
        lemma_offsets(parser@, 0, parser@.len());
        assert(parser@.span(0, parser@.len()) =~= text@);
    }
    let ghost children = pieces@.elems;
    let green = GreenNode::new(SyntaxKind::SOURCE_FILE, pieces.elems);
    assert(pieces@.wrap(SyntaxKind::SOURCE_FILE).elems[0] == green@);
    Parse { green: Arc::new(green), errors: pieces.errors }
}

/// Parses `text`. The tree holds every byte of the text, in order.
pub fn parse(text: &str) -> (r: Parse)
    requires
        text.spec_bytes().len() <= u32::MAX,
    ensures
        r.tree_model() == parse_tree(text.spec_bytes()),
        r.errors_model() == parse_errors(text.spec_bytes()),
        r.tree_model().text() == text.spec_bytes(),
{
    parse_bytes(text.as_bytes())
}

} // verus!
