//! The grammar, as code that runs.

use crate::green::{elements_view, GreenElement, GreenNode, GreenToken, Tree};
use crate::lexer::Token;
use crate::parser::grammar::{begins_literal, binding, block_like, ends_value, ListKind};
use crate::parser::{
    lemma_join_covers, lemma_leaves_text, lemma_next_bounds, lemma_offsets, lemma_plain_covers,
    lemma_wrap_covers, Input, ParseError, ParseErrorKind, Step,
};
use crate::syntax_kind::SyntaxKind;
use vstd::prelude::*;

verus! {

/// What a part of the parser hands back; see [`Step`].
pub struct Pieces {
    pub start: usize,
    pub pos: usize,
    pub elems: Vec<GreenElement>,
    pub errors: Vec<ParseError>,
}

impl View for Pieces {
    type V = Step;

    open spec fn view(&self) -> Step {
        Step {
            start: self.start as nat,
            pos: self.pos as nat,
            elems: elements_view(self.elems@),
            errors: self.errors@,
        }
    }
}

/// The parser of one text: the text, its tokens, and the offset at which
/// each token begins.
pub struct Parser<'a> {
    text: &'a [u8],
    tokens: &'a Vec<Token>,
    offsets: Vec<u32>,
}

impl<'a> View for Parser<'a> {
    type V = Input;

    closed spec fn view(&self) -> Input {
        Input { text: self.text@, tokens: self.tokens@ }
    }
}

impl<'a> Parser<'a> {
    /// Whether the parser is set up for its input.
    pub closed spec fn ready(&self) -> bool {
        &&& self@.well_formed()
        &&& self.offsets@.len() == self.tokens@.len() + 1
        &&& forall|i: int|
            0 <= i < self.offsets@.len() ==> (#[trigger] self.offsets@[i]) == self@.offset(i as nat)
    }

    /// The parser of `text` cut into `tokens`.
    pub fn new(text: &'a [u8], tokens: &'a Vec<Token>) -> (r: Parser<'a>)
        requires
            (Input { text: text@, tokens: tokens@ }).well_formed(),
        ensures
            r.ready(),
            r@ == (Input { text: text@, tokens: tokens@ }),
    {
        let ghost inp = Input { text: text@, tokens: tokens@ };
        let mut offsets: Vec<u32> = Vec::new();
        let mut at: u32 = 0;
        let mut i: usize = 0;
        proof {
            lemma_offsets(inp, 0, 0);
        }
        while i < tokens.len()
            invariant
                i <= tokens@.len(),
                inp == (Input { text: text@, tokens: tokens@ }),
                inp.well_formed(),
                offsets@.len() == i,
                at == inp.offset(i as nat),
                forall|j: int| 0 <= j < i ==> (#[trigger] offsets@[j]) == inp.offset(j as nat),
            decreases tokens.len() - i,
        {
            proof {
                lemma_offsets(inp, i as nat, i as nat);
                lemma_offsets(inp, i as nat, (i + 1) as nat);
            }
            offsets.push(at);
            at = at + tokens[i].len;
            i = i + 1;
        }
        offsets.push(at);
        Parser { text, tokens, offsets }
    }

    /// The number of tokens.
    pub fn len(&self) -> (r: usize)
        ensures
            r == self@.len(),
    {
        self.tokens.len()
    }

    /// The kind of token `i`; behind the last token, the end-of-text mark.
    pub fn kind(&self, i: usize) -> (r: SyntaxKind)
        ensures
            r == self@.kind(i as nat),
    {
        if i < self.tokens.len() {
            self.tokens[i].kind
        } else {
            SyntaxKind::EOF
        }
    }

    /// The offset at which the first token at or behind `pos` that is no
    /// trivia begins.
    pub fn offset_of_next(&self, pos: usize) -> (r: u32)
        requires
            self.ready(),
            pos <= self@.len(),
        ensures
            r == self@.offset(self@.next(pos as nat)),
    {
        let next = self.next(pos);
        self.offsets[next]
    }

    /// The position of the first token at or behind `pos` that is no trivia.
    pub fn next(&self, pos: usize) -> (r: usize)
        requires
            pos <= self@.len(),
        ensures
            r == self@.next(pos as nat),
            pos <= r <= self@.len(),
    {
        proof {
            lemma_next_bounds(self@, pos as nat);
        }
        let mut at: usize = pos;
        while at < self.tokens.len() && self.tokens[at].kind.is_trivia()
            invariant
                pos <= at <= self.tokens@.len(),
                self@.next(pos as nat) == self@.next(at as nat),
            decreases self.tokens.len() - at,
        {
            at = at + 1;
        }
        at
    }

    /// The kind of the first token at or behind `pos` that is no trivia.
    pub fn peek(&self, pos: usize) -> (r: SyntaxKind)
        requires
            pos <= self@.len(),
        ensures
            r == self@.peek(pos as nat),
    {
        self.kind(self.next(pos))
    }

    /// Token `i` as a leaf of the tree.
    fn leaf(&self, i: usize) -> (r: GreenElement)
        requires
            self.ready(),
            i < self@.len(),
        ensures
            r@ == self@.leaf(i as nat),
    {
        proof {
            lemma_offsets(self@, i as nat, (i + 1) as nat);
        }
        assert(i < self.tokens.len());
        let from = self.offsets[i] as usize;
        let to = self.offsets[i + 1] as usize;
        let mut bytes: Vec<u8> = Vec::new();
        let mut at: usize = from;
        while at < to
            invariant
                from <= at <= to <= self.text@.len(),
                bytes@ == self.text@.subrange(from as int, at as int),
            decreases to - at,
        {
            bytes.push(self.text[at]);
            at = at + 1;
            assert(bytes@ =~= self.text@.subrange(from as int, at as int));
        }
        let token = GreenToken::new(self.tokens[i].kind, bytes);
        GreenElement::token(token)
    }

    /// The step that does nothing at `pos`.
    pub fn nothing(&self, pos: usize) -> (r: Pieces)
        requires
            self.ready(),
            pos <= self@.len(),
        ensures
            r@ == self@.nothing(pos as nat),
            self@.covers(r@),
    {
        proof {
            lemma_plain_covers(self@, pos as nat);
        }
        let r = Pieces { start: pos, pos, elems: Vec::new(), errors: Vec::new() };
        assert(r@.elems =~= Seq::<Tree>::empty());
        r
    }

    /// The step that takes the trivia in front of the next token.
    pub fn lead(&self, pos: usize) -> (r: Pieces)
        requires
            self.ready(),
            pos <= self@.len(),
        ensures
            r@ == self@.lead(pos as nat),
            self@.covers(r@),
    {
        proof {
            lemma_plain_covers(self@, pos as nat);
        }
        let end = self.next(pos);
        let mut elems: Vec<GreenElement> = Vec::new();
        let mut at: usize = pos;
        while at < end
            invariant
                self.ready(),
                pos <= at <= end <= self@.len(),
                elements_view(elems@) == self@.leaves(pos as nat, at as nat),
            decreases end - at,
        {
            let leaf = self.leaf(at);
            let ghost before = elems@;
            elems.push(leaf);
            assert(elements_view(elems@) =~= elements_view(before).push(leaf@));
            assert(self@.leaves(pos as nat, (at + 1) as nat) =~= self@.leaves(
                pos as nat,
                at as nat,
            ).push(self@.leaf(at as nat)));
            at = at + 1;
        }
        Pieces { start: pos, pos: end, elems, errors: Vec::new() }
    }

    /// The step that takes the token at `pos`.
    pub fn bump(&self, pos: usize) -> (r: Pieces)
        requires
            self.ready(),
            pos < self@.len(),
        ensures
            r@ == self@.bump(pos as nat),
            self@.covers(r@),
    {
        proof {
            lemma_plain_covers(self@, pos as nat);
        }
        assert(pos < self.tokens.len());
        let mut elems: Vec<GreenElement> = Vec::new();
        let leaf = self.leaf(pos);
        elems.push(leaf);
        let r = Pieces { start: pos, pos: pos + 1, elems, errors: Vec::new() };
        assert(r@.elems =~= seq![self@.leaf(pos as nat)]);
        r
    }

    /// The step that takes nothing and reports `kind` at the next token.
    pub fn error(&self, pos: usize, kind: ParseErrorKind) -> (r: Pieces)
        requires
            self.ready(),
            pos <= self@.len(),
        ensures
            r@ == self@.error(pos as nat, kind),
            self@.covers(r@),
    {
        proof {
            lemma_plain_covers(self@, pos as nat);
        }
        let mut errors: Vec<ParseError> = Vec::new();
        errors.push(ParseError { kind, offset: self.offset_of_next(pos) });
        let r = Pieces { start: pos, pos, elems: Vec::new(), errors };
        assert(r@.elems =~= Seq::<Tree>::empty());
        assert(r@.errors =~= self@.error(pos as nat, kind).errors);
        r
    }

    /// One step after another.
    pub fn join(&self, first: Pieces, second: Pieces) -> (r: Pieces)
        requires
            self.ready(),
            self@.covers(first@),
            self@.covers(second@),
            second@.start == first@.pos,
        ensures
            r@ == first@.join(second@),
            self@.covers(r@),
    {
        proof {
            lemma_join_covers(self@, first@, second@);
        }
        let mut first = first;
        let mut second = second;
        let ghost a = first@;
        let ghost b = second@;
        first.elems.append(&mut second.elems);
        first.errors.append(&mut second.errors);
        first.pos = second.pos;
        assert(first@.elems =~= a.elems + b.elems);
        first
    }

    /// The elements of a step as the children of one node of `kind`.
    pub fn wrap(&self, inner: Pieces, kind: SyntaxKind) -> (r: Pieces)
        requires
            self.ready(),
            self@.covers(inner@),
        ensures
            r@ == inner@.wrap(kind),
            self@.covers(r@),
    {
        proof {
            lemma_wrap_covers(self@, inner@, kind);
            lemma_offsets(self@, inner@.start, inner@.pos);
        }
        let node = GreenNode::new(kind, inner.elems);
        let mut elems: Vec<GreenElement> = Vec::new();
        elems.push(GreenElement::node(node));
        let r = Pieces { start: inner.start, pos: inner.pos, elems, errors: inner.errors };
        assert(r@.elems =~= inner@.wrap(kind).elems);
        r
    }

    /// The step that takes the trivia and then the next token if it is of
    /// `kind`, and reports that it is missing if not.
    pub fn expect(&self, pos: usize, kind: SyntaxKind) -> (r: Pieces)
        requires
            self.ready(),
            pos <= self@.len(),
        ensures
            r@ == self@.expect(pos as nat, kind),
            self@.covers(r@),
    {
        if self.peek(pos) == kind && self.next(pos) < self.len() {
            let lead = self.lead(pos);
            let token = self.bump(lead.pos);
            self.join(lead, token)
        } else {
            self.error(pos, ParseErrorKind::ExpectedToken(kind))
        }
    }

    /// The step that takes the trivia and then the next token, whatever it
    /// is, inside an error node; at the end of the text it takes nothing.
    pub fn skip_one(&self, pos: usize) -> (r: Pieces)
        requires
            self.ready(),
            pos <= self@.len(),
        ensures
            r@ == self@.skip_one(pos as nat),
            self@.covers(r@),
    {
        if self.next(pos) < self.len() {
            let lead = self.lead(pos);
            let token = self.bump(lead.pos);
            let wrapped = self.wrap(token, SyntaxKind::ERROR);
            self.join(lead, wrapped)
        } else {
            self.nothing(pos)
        }
    }
}

impl ListKind {
    /// The kind of the node that the list becomes.
    pub fn node_kind(self) -> (r: SyntaxKind)
        ensures
            r == self.node(),
    {
        match self {
            ListKind::Params => SyntaxKind::PARAM_LIST,
            ListKind::Args => SyntaxKind::ARG_LIST,
            ListKind::RecordFields => SyntaxKind::RECORD_FIELD_DEF_LIST,
            ListKind::TupleFields => SyntaxKind::TUPLE_FIELD_DEF_LIST,
        }
    }

    /// The bracket that opens the list.
    pub fn open_kind(self) -> (r: SyntaxKind)
        ensures
            r == self.open(),
    {
        match self {
            ListKind::RecordFields => SyntaxKind::L_CURLY,
            _ => SyntaxKind::L_PAREN,
        }
    }

    /// The bracket that closes the list.
    pub fn close_kind(self) -> (r: SyntaxKind)
        ensures
            r == self.close(),
    {
        match self {
            ListKind::RecordFields => SyntaxKind::R_CURLY,
            _ => SyntaxKind::R_PAREN,
        }
    }

    /// Returns whether a token of `kind` ends the list even where the
    /// closing bracket is missing.
    pub fn is_stop(self, kind: SyntaxKind) -> (r: bool)
        ensures
            r == self.stops(kind),
    {
        let is_args = match self {
            ListKind::Args => true,
            _ => false,
        };
        kind == self.close_kind() || kind == SyntaxKind::EOF || kind == SyntaxKind::R_CURLY
            || kind == SyntaxKind::SEMI || kind == SyntaxKind::FN_KW || kind
            == SyntaxKind::STRUCT_KW || (!is_args && (kind == SyntaxKind::L_CURLY || kind
            == SyntaxKind::PUB_KW || kind == SyntaxKind::THIN_ARROW)) || (is_args && kind
            == SyntaxKind::LET_KW)
    }
}

/// How strongly a binary operator binds what stands to its left and to its
/// right; zero for a token that is no binary operator.
pub fn binding_power(kind: SyntaxKind) -> (r: (u8, u8))
    ensures
        r == binding(kind),
{
    match kind {
        SyntaxKind::EQ
        | SyntaxKind::PLUSEQ
        | SyntaxKind::MINUSEQ
        | SyntaxKind::STAREQ
        | SyntaxKind::SLASHEQ => (2, 1),
        SyntaxKind::PIPEPIPE => (3, 4),
        SyntaxKind::AMPAMP => (5, 6),
        SyntaxKind::EQEQ
        | SyntaxKind::NEQ
        | SyntaxKind::LT
        | SyntaxKind::GT
        | SyntaxKind::LTEQ
        | SyntaxKind::GTEQ => (7, 8),
        SyntaxKind::PLUS | SyntaxKind::MINUS => (9, 10),
        SyntaxKind::STAR | SyntaxKind::SLASH | SyntaxKind::PERCENT => (11, 12),
        _ => (0, 0),
    }
}

/// Returns whether a token of `kind` is a literal.
pub fn is_literal_start(kind: SyntaxKind) -> (r: bool)
    ensures
        r == begins_literal(kind),
{
    kind == SyntaxKind::INT_NUMBER || kind == SyntaxKind::FLOAT_NUMBER || kind
        == SyntaxKind::STRING || kind == SyntaxKind::TRUE_KW || kind == SyntaxKind::FALSE_KW
}

/// Returns whether an expression that begins with a token of `kind` ends
/// with a block.
pub fn is_block_like(kind: SyntaxKind) -> (r: bool)
    ensures
        r == block_like(kind),
{
    kind == SyntaxKind::IF_KW || kind == SyntaxKind::LOOP_KW || kind == SyntaxKind::WHILE_KW
        || kind == SyntaxKind::L_CURLY
}

/// Returns whether a token of `kind` cannot begin the value of a `return`
/// or a `break`.
pub fn is_value_end(kind: SyntaxKind) -> (r: bool)
    ensures
        r == ends_value(kind),
{
    kind == SyntaxKind::SEMI || kind == SyntaxKind::R_CURLY || kind == SyntaxKind::R_PAREN
        || kind == SyntaxKind::COMMA || kind == SyntaxKind::EOF
}

/// Joining is associative, and a step that does nothing changes nothing.
pub proof fn lemma_join_laws(inp: Input, a: Step, b: Step, c: Step)
    ensures
        a.join(b).join(c) == a.join(b.join(c)),
        a.join(inp.nothing(a.pos)) == a,
        inp.nothing(a.start).join(a) == a,
{
    assert((a.elems + b.elems) + c.elems =~= a.elems + (b.elems + c.elems));
    assert((a.errors + b.errors) + c.errors =~= a.errors + (b.errors + c.errors));
    assert(a.elems + Seq::<Tree>::empty() =~= a.elems);
    assert(a.errors + Seq::<ParseError>::empty() =~= a.errors);
    assert(Seq::<Tree>::empty() + a.elems =~= a.elems);
    assert(Seq::<ParseError>::empty() + a.errors =~= a.errors);
}

/// A statement begins where it is asked to begin.
pub proof fn lemma_stmt_start(inp: Input, fuel: nat, pos: nat)
    ensures
        inp.stmt(fuel, pos).start == pos,
        inp.stmts(fuel, pos).start == pos,
{
    assert(inp.let_stmt(fuel, pos).start == pos);
    assert(inp.stmt(fuel, pos).start == pos);
    if fuel > 0 {
        assert(inp.let_stmt((fuel - 1) as nat, pos).start == pos);
        assert(inp.stmt((fuel - 1) as nat, pos).start == pos);
    }
}

/// An element of a list begins where it is asked to begin.
pub proof fn lemma_element_start(inp: Input, fuel: nat, pos: nat, kind: ListKind)
    ensures
        inp.element(fuel, pos, kind).start == pos,
        inp.list_rest(fuel, pos, kind).start == pos,
{
    assert(inp.expr(fuel, pos).start == pos);
    assert(inp.element(fuel, pos, kind).start == pos);
    if fuel > 0 {
        assert(inp.expr((fuel - 1) as nat, pos).start == pos);
        assert(inp.element((fuel - 1) as nat, pos, kind).start == pos);
    }
}

impl<'a> Parser<'a> {
    /// The trivia from `pos` on, and behind it `inner` as one node of
    /// `kind`.
    pub fn node(&self, kind: SyntaxKind, pos: usize, inner: Pieces) -> (r: Pieces)
        requires
            self.ready(),
            pos <= self@.len(),
            self@.covers(inner@),
            inner@.start == self@.next(pos as nat),
        ensures
            r@ == self@.node(kind, pos as nat, inner@),
            self@.covers(r@),
            r@.start == pos,
    {
        let lead = self.lead(pos);
        let wrapped = self.wrap(inner, kind);
        self.join(lead, wrapped)
    }

    /// The trivia from `pos` on, and behind it the next token as the only
    /// child of a node of `kind`.
    pub fn token_node(&self, kind: SyntaxKind, pos: usize) -> (r: Pieces)
        requires
            self.ready(),
            pos <= self@.len(),
        ensures
            r@ == self@.token_node(kind, pos as nat),
            self@.covers(r@),
            r@.start == pos,
    {
        let at = self.next(pos);
        if at < self.len() {
            let token = self.bump(at);
            self.node(kind, pos, token)
        } else {
            self.nothing(pos)
        }
    }

    /// The tokens from `from` up to `to`, as they are.
    pub fn run(&self, from: usize, to: usize) -> (r: Pieces)
        requires
            self.ready(),
            from <= to <= self@.len(),
        ensures
            r@ == self@.run(from as nat, to as nat),
            self@.covers(r@),
    {
        proof {
            lemma_leaves_text(self@, from as nat, to as nat);
        }
        let mut elems: Vec<GreenElement> = Vec::new();
        let mut at: usize = from;
        while at < to
            invariant
                self.ready(),
                from <= at <= to <= self@.len(),
                elements_view(elems@) == self@.leaves(from as nat, at as nat),
            decreases to - at,
        {
            let leaf = self.leaf(at);
            let ghost before = elems@;
            elems.push(leaf);
            assert(elements_view(elems@) =~= elements_view(before).push(leaf@));
            assert(self@.leaves(from as nat, (at + 1) as nat) =~= self@.leaves(
                from as nat,
                at as nat,
            ).push(self@.leaf(at as nat)));
            at = at + 1;
        }
        Pieces { start: from, pos: to, elems, errors: Vec::new() }
    }

    /// Returns whether token `i` holds an empty line.
    pub fn has_blank_line(&self, i: usize) -> (r: bool)
        requires
            self.ready(),
            i < self@.len(),
        ensures
            r == self@.blank_line(i as nat),
    {
        proof {
            lemma_offsets(self@, i as nat, i as nat);
            lemma_offsets(self@, i as nat, (i + 1) as nat);
        }
        assert(i < self.tokens.len());
        let from = self.offsets[i] as usize;
        let len = self.tokens[i].len as usize;
        let total = self.text.len();
        let mut feeds: usize = 0;
        let mut k: usize = 0;
        while k < len
            invariant
                k <= len,
                from + len <= total == self.text@.len(),
                from == self@.offset(i as nat),
                feeds == self@.line_feeds(i as nat, k as nat),
                feeds <= k,
            decreases len - k,
        {
            if self.text[from + k] == 0x0a {
                feeds = feeds + 1;
            }
            k = k + 1;
        }
        feeds >= 2
    }

    /// Where the trivia in front of an item begins to belong to the item.
    pub fn attach_from(&self, pos: usize) -> (r: usize)
        requires
            self.ready(),
            pos <= self@.len(),
        ensures
            r == self@.attach_from(pos as nat),
            pos <= r <= self@.next(pos as nat),
    {
        let end = self.next(pos);
        let mut found = end;
        let mut i = pos;
        while i < end
            invariant
                self.ready(),
                pos <= i <= end <= self@.len(),
                pos <= found <= end,
                self@.attach_from(pos as nat) == self@.attach_scan(
                    i as nat,
                    end as nat,
                    found as nat,
                ),
                end == self@.next(pos as nat),
            decreases end - i,
        {
            if self.kind(i) == SyntaxKind::COMMENT {
                if found == end {
                    found = i;
                }
            } else if self.has_blank_line(i) {
                found = end;
            }
            i = i + 1;
        }
        found
    }

    /// An item: the trivia from `pos` on that does not belong to the item,
    /// and behind it the comments that do and `inner` as one node of `kind`.
    pub fn item_node(&self, kind: SyntaxKind, pos: usize, inner: Pieces) -> (r: Pieces)
        requires
            self.ready(),
            pos <= self@.len(),
            self@.covers(inner@),
            inner@.start == self@.next(pos as nat),
        ensures
            r@ == self@.item_node(kind, pos as nat, inner@),
            self@.covers(r@),
            r@.start == pos,
    {
        let from = self.attach_from(pos);
        let outside = self.run(pos, from);
        let attached = self.run(from, self.next(pos));
        let whole = self.wrap(self.join(attached, inner), kind);
        self.join(outside, whole)
    }

    /// All tokens from `pos` on, as they are.
    pub fn remainder(&self, pos: usize) -> (r: Pieces)
        requires
            self.ready(),
            pos <= self@.len(),
        ensures
            r@ == self@.remainder(pos as nat),
            self@.covers(r@),
            r@.start == pos,
    {
        proof {
            lemma_leaves_text(self@, pos as nat, self@.len());
        }
        let end = self.len();
        let mut elems: Vec<GreenElement> = Vec::new();
        let mut at: usize = pos;
        while at < end
            invariant
                self.ready(),
                pos <= at <= end == self@.len(),
                elements_view(elems@) == self@.leaves(pos as nat, at as nat),
            decreases end - at,
        {
            let leaf = self.leaf(at);
            let ghost before = elems@;
            elems.push(leaf);
            assert(elements_view(elems@) =~= elements_view(before).push(leaf@));
            assert(self@.leaves(pos as nat, (at + 1) as nat) =~= self@.leaves(
                pos as nat,
                at as nat,
            ).push(self@.leaf(at as nat)));
            at = at + 1;
        }
        Pieces { start: pos, pos: end, elems, errors: Vec::new() }
    }

    /// `Name := IDENT`
    pub fn name(&self, pos: usize) -> (r: Pieces)
        requires
            self.ready(),
            pos <= self@.len(),
        ensures
            r@ == self@.name(pos as nat),
            self@.covers(r@),
            r@.start == pos,
    {
        if self.peek(pos) == SyntaxKind::IDENT {
            self.token_node(SyntaxKind::NAME, pos)
        } else {
            self.error(pos, ParseErrorKind::ExpectedName)
        }
    }

    /// `PathSegment := NameRef`, `NameRef := IDENT`, at a name.
    pub fn segment(&self, at: usize) -> (r: Pieces)
        requires
            self.ready(),
            at <= self@.len(),
        ensures
            r@ == self@.segment(at as nat),
            self@.covers(r@),
            r@.start == at,
    {
        let name_ref = self.token_node(SyntaxKind::NAME_REF, at);
        self.wrap(name_ref, SyntaxKind::PATH_SEGMENT)
    }

    /// The path that `first` becomes with the segments behind it.
    pub fn path_rest(&self, first: Pieces) -> (r: Pieces)
        requires
            self.ready(),
            self@.covers(first@),
        ensures
            r@ == self@.path_rest(first@),
            self@.covers(r@),
            r@.start == first@.start,
    {
        let ghost whole = self@.path_rest(first@);
        let ghost start = first@.start;
        let mut left = first;
        loop
            invariant
                self.ready(),
                self@.covers(left@),
                left@.start == start,
                start == first@.start,
                whole == self@.path_rest(first@),
                whole == self@.path_rest(left@),
            decreases self@.len() - left@.pos,
        {
            if self.peek(left.pos) != SyntaxKind::COLONCOLON {
                return left;
            }
            let before = left.pos;
            let separator = self.expect(left.pos, SyntaxKind::COLONCOLON);
            let segment = if self.peek(separator.pos) == SyntaxKind::IDENT {
                let lead = self.lead(separator.pos);
                let segment = self.segment(lead.pos);
                self.join(lead, segment)
            } else {
                self.error(separator.pos, ParseErrorKind::ExpectedName)
            };
            let longer = self.wrap(
                self.join(self.join(left, separator), segment),
                SyntaxKind::PATH,
            );
            if before < longer.pos && longer.pos <= self.len() {
                left = longer;
            } else {
                return longer;
            }
        }
    }

    /// `Path := (Path '::')? PathSegment`
    pub fn path(&self, pos: usize) -> (r: Pieces)
        requires
            self.ready(),
            pos <= self@.len(),
        ensures
            r@ == self@.path(pos as nat),
            self@.covers(r@),
            r@.start == pos,
    {
        if self.peek(pos) == SyntaxKind::IDENT {
            let lead = self.lead(pos);
            let segment = self.segment(lead.pos);
            let first = self.wrap(segment, SyntaxKind::PATH);
            let path = self.path_rest(first);
            self.join(lead, path)
        } else {
            self.error(pos, ParseErrorKind::ExpectedName)
        }
    }

    /// `TypeRef := 'never' | Path`
    pub fn type_ref(&self, pos: usize) -> (r: Pieces)
        requires
            self.ready(),
            pos <= self@.len(),
        ensures
            r@ == self@.type_ref(pos as nat),
            self@.covers(r@),
            r@.start == pos,
    {
        let kind = self.peek(pos);
        if kind == SyntaxKind::NEVER_KW {
            self.token_node(SyntaxKind::NEVER_TYPE, pos)
        } else if kind == SyntaxKind::IDENT {
            let path = self.path(self.next(pos));
            self.node(SyntaxKind::PATH_TYPE, pos, path)
        } else {
            self.error(pos, ParseErrorKind::ExpectedType)
        }
    }

    /// `Pat := '_' | Name`
    pub fn pat(&self, pos: usize) -> (r: Pieces)
        requires
            self.ready(),
            pos <= self@.len(),
        ensures
            r@ == self@.pat(pos as nat),
            self@.covers(r@),
            r@.start == pos,
    {
        let kind = self.peek(pos);
        if kind == SyntaxKind::UNDERSCORE {
            self.token_node(SyntaxKind::PLACEHOLDER_PAT, pos)
        } else if kind == SyntaxKind::IDENT {
            let name = self.name(self.next(pos));
            self.node(SyntaxKind::BIND_PAT, pos, name)
        } else {
            self.error(pos, ParseErrorKind::ExpectedPattern)
        }
    }

    /// `(':' TypeRef)?`
    pub fn ascription(&self, pos: usize) -> (r: Pieces)
        requires
            self.ready(),
            pos <= self@.len(),
        ensures
            r@ == self@.ascription(pos as nat),
            self@.covers(r@),
            r@.start == pos,
    {
        if self.peek(pos) == SyntaxKind::COLON {
            let colon = self.expect(pos, SyntaxKind::COLON);
            let ty = self.type_ref(colon.pos);
            self.join(colon, ty)
        } else {
            self.nothing(pos)
        }
    }

    /// `Param := Pat (':' TypeRef)?`
    pub fn param(&self, pos: usize) -> (r: Pieces)
        requires
            self.ready(),
            pos <= self@.len(),
        ensures
            r@ == self@.param(pos as nat),
            self@.covers(r@),
            r@.start == pos,
    {
        let at = self.next(pos);
        let pat = self.pat(at);
        let ty = self.ascription(pat.pos);
        let inner = self.join(pat, ty);
        self.node(SyntaxKind::PARAM, pos, inner)
    }

    /// `RecordFieldDef := Name ':' TypeRef`
    pub fn record_field(&self, pos: usize) -> (r: Pieces)
        requires
            self.ready(),
            pos <= self@.len(),
        ensures
            r@ == self@.record_field(pos as nat),
            self@.covers(r@),
            r@.start == pos,
    {
        let at = self.next(pos);
        let name = self.name(at);
        let colon = self.expect(name.pos, SyntaxKind::COLON);
        let ty = self.type_ref(colon.pos);
        let inner = self.join(self.join(name, colon), ty);
        self.node(SyntaxKind::RECORD_FIELD_DEF, pos, inner)
    }

    /// `TupleFieldDef := TypeRef`
    pub fn tuple_field(&self, pos: usize) -> (r: Pieces)
        requires
            self.ready(),
            pos <= self@.len(),
        ensures
            r@ == self@.tuple_field(pos as nat),
            self@.covers(r@),
            r@.start == pos,
    {
        let ty = self.type_ref(self.next(pos));
        self.node(SyntaxKind::TUPLE_FIELD_DEF, pos, ty)
    }

    /// `RetType := '->' TypeRef`, or nothing where no arrow stands.
    pub fn ret_type(&self, pos: usize) -> (r: Pieces)
        requires
            self.ready(),
            pos <= self@.len(),
        ensures
            r@ == self@.ret_type(pos as nat),
            self@.covers(r@),
            r@.start == pos,
    {
        if self.peek(pos) == SyntaxKind::THIN_ARROW {
            let arrow = self.expect(self.next(pos), SyntaxKind::THIN_ARROW);
            let ty = self.type_ref(arrow.pos);
            let inner = self.join(arrow, ty);
            self.node(SyntaxKind::RET_TYPE, pos, inner)
        } else {
            self.nothing(pos)
        }
    }

    /// `Visibility := 'pub'`, or nothing where no marker stands.
    pub fn visibility(&self, pos: usize) -> (r: Pieces)
        requires
            self.ready(),
            pos <= self@.len(),
        ensures
            r@ == self@.visibility(pos as nat),
            self@.covers(r@),
            r@.start == pos,
    {
        if self.peek(pos) == SyntaxKind::PUB_KW {
            self.token_node(SyntaxKind::VISIBILITY, pos)
        } else {
            self.nothing(pos)
        }
    }
}

impl<'a> Parser<'a> {
    /// One element of a list of `kind`.
    pub fn element(&self, fuel: usize, pos: usize, kind: ListKind) -> (r: Pieces)
        requires
            self.ready(),
            pos <= self@.len(),
        ensures
            r@ == self@.element(fuel as nat, pos as nat, kind),
            self@.covers(r@),
            r@.start == pos,
        decreases fuel, 50nat,
    {
        match kind {
            ListKind::Params => self.param(pos),
            ListKind::Args => self.expr(fuel, pos),
            ListKind::RecordFields => self.record_field(pos),
            ListKind::TupleFields => self.tuple_field(pos),
        }
    }

    /// The elements of a list of `kind` with the commas between them, up to
    /// the bracket that closes the list.
    pub fn list_rest(&self, fuel: usize, pos: usize, kind: ListKind) -> (r: Pieces)
        requires
            self.ready(),
            pos <= self@.len(),
        ensures
            r@ == self@.list_rest(fuel as nat, pos as nat, kind),
            self@.covers(r@),
            r@.start == pos,
        decreases fuel, 60nat,
    {
        let ghost whole = self@.list_rest(fuel as nat, pos as nat, kind);
        let mut done = self.nothing(pos);
        let mut left = fuel;
        proof {
            lemma_element_start(self@, fuel as nat, pos as nat, kind);
            lemma_join_laws(self@, whole, whole, whole);
        }
        while left > 0 && !kind.is_stop(self.peek(done.pos))
            invariant
                self.ready(),
                left <= fuel,
                self@.covers(done@),
                done@.start == pos,
                whole == self@.list_rest(fuel as nat, pos as nat, kind),
                whole == done@.join(self@.list_rest(left as nat, done@.pos, kind)),
            decreases left,
        {
            let ghost before = done@;
            let at = done.pos;
            let item = self.element(left - 1, at, kind);
            let ghost rest_at = |p: nat| self@.list_rest((left - 1) as nat, p, kind);
            if item.pos == at {
                let skipped = self.join(item, self.skip_one(at));
                proof {
                    lemma_join_laws(self@, before, skipped@, rest_at(skipped@.pos));
                }
                done = self.join(done, skipped);
            } else if self.peek(item.pos) == SyntaxKind::COMMA {
                let comma = self.expect(item.pos, SyntaxKind::COMMA);
                let comma = self.join(item, comma);
                proof {
                    lemma_join_laws(self@, before, comma@, rest_at(comma@.pos));
                }
                done = self.join(done, comma);
            } else if kind.is_stop(self.peek(item.pos)) {
                return self.join(done, item);
            } else {
                let missing = self.error(
                    item.pos,
                    ParseErrorKind::ExpectedToken(SyntaxKind::COMMA),
                );
                let missing = self.join(item, missing);
                proof {
                    lemma_join_laws(self@, before, missing@, rest_at(missing@.pos));
                }
                done = self.join(done, missing);
            }
            left = left - 1;
        }
        proof {
            lemma_join_laws(self@, done@, done@, done@);
        }
        done
    }

    /// A list of `kind`: its elements between its brackets.
    pub fn list(&self, fuel: usize, pos: usize, kind: ListKind) -> (r: Pieces)
        requires
            self.ready(),
            pos <= self@.len(),
        ensures
            r@ == self@.list(fuel as nat, pos as nat, kind),
            self@.covers(r@),
            r@.start == pos,
        decreases fuel, 70nat,
    {
        let at = self.next(pos);
        let open = self.expect(at, kind.open_kind());
        let rest = self.list_rest(fuel, open.pos, kind);
        let close = self.expect(rest.pos, kind.close_kind());
        let inner = self.join(self.join(open, rest), close);
        self.node(kind.node_kind(), pos, inner)
    }

    /// `BlockExpr := '{' Stmt* Expr? '}'`
    pub fn block(&self, fuel: usize, pos: usize) -> (r: Pieces)
        requires
            self.ready(),
            pos <= self@.len(),
        ensures
            r@ == self@.block(fuel as nat, pos as nat),
            self@.covers(r@),
            r@.start == pos,
        decreases fuel, 5nat,
    {
        if self.peek(pos) != SyntaxKind::L_CURLY {
            self.error(pos, ParseErrorKind::ExpectedBlock)
        } else if fuel == 0 {
            self.error(pos, ParseErrorKind::NestingTooDeep)
        } else {
            let at = self.next(pos);
            let open = self.expect(at, SyntaxKind::L_CURLY);
            let body = self.stmts(fuel - 1, open.pos);
            let close = self.expect(body.pos, SyntaxKind::R_CURLY);
            let inner = self.join(self.join(open, body), close);
            self.node(SyntaxKind::BLOCK_EXPR, pos, inner)
        }
    }

    /// The statements of a block, up to its closing brace.
    pub fn stmts(&self, fuel: usize, pos: usize) -> (r: Pieces)
        requires
            self.ready(),
            pos <= self@.len(),
        ensures
            r@ == self@.stmts(fuel as nat, pos as nat),
            self@.covers(r@),
            r@.start == pos,
        decreases fuel, 40nat,
    {
        let ghost whole = self@.stmts(fuel as nat, pos as nat);
        let mut done = self.nothing(pos);
        let mut left = fuel;
        proof {
            lemma_stmt_start(self@, fuel as nat, pos as nat);
            lemma_join_laws(self@, whole, whole, whole);
        }
        while left > 0 && self.peek(done.pos) != SyntaxKind::R_CURLY && self.peek(done.pos)
            != SyntaxKind::EOF
            invariant
                self.ready(),
                left <= fuel,
                self@.covers(done@),
                done@.start == pos,
                whole == self@.stmts(fuel as nat, pos as nat),
                whole == done@.join(self@.stmts(left as nat, done@.pos)),
            decreases left,
        {
            let stmt = self.stmt(left - 1, done.pos);
            proof {
                lemma_join_laws(
                    self@,
                    done@,
                    stmt@,
                    self@.stmts((left - 1) as nat, stmt@.pos),
                );
            }
            done = self.join(done, stmt);
            left = left - 1;
        }
        proof {
            lemma_join_laws(self@, done@, done@, done@);
        }
        done
    }

    /// `Stmt := LetStmt | ExprStmt`, or the expression that ends a block.
    pub fn stmt(&self, fuel: usize, pos: usize) -> (r: Pieces)
        requires
            self.ready(),
            pos <= self@.len(),
        ensures
            r@ == self@.stmt(fuel as nat, pos as nat),
            self@.covers(r@),
            r@.start == pos,
        decreases fuel, 35nat,
    {
        if self.peek(pos) == SyntaxKind::LET_KW {
            self.let_stmt(fuel, pos)
        } else {
            let at = self.next(pos);
            let expr = self.expr_bp(fuel, at, 0);
            if expr.pos == at {
                let lead = self.lead(pos);
                self.join(self.join(lead, expr), self.skip_one(at))
            } else if self.peek(expr.pos) == SyntaxKind::SEMI {
                let semi = self.expect(expr.pos, SyntaxKind::SEMI);
                let inner = self.join(expr, semi);
                self.node(SyntaxKind::EXPR_STMT, pos, inner)
            } else if self.peek(expr.pos) == SyntaxKind::R_CURLY {
                let lead = self.lead(pos);
                self.join(lead, expr)
            } else if is_block_like(self.kind(at)) {
                self.node(SyntaxKind::EXPR_STMT, pos, expr)
            } else {
                let semi = self.error(expr.pos, ParseErrorKind::ExpectedToken(SyntaxKind::SEMI));
                let inner = self.join(expr, semi);
                self.node(SyntaxKind::EXPR_STMT, pos, inner)
            }
        }
    }

    /// `LetStmt := 'let' Pat (':' TypeRef)? ('=' Expr)? ';'`
    pub fn let_stmt(&self, fuel: usize, pos: usize) -> (r: Pieces)
        requires
            self.ready(),
            pos <= self@.len(),
        ensures
            r@ == self@.let_stmt(fuel as nat, pos as nat),
            self@.covers(r@),
            r@.start == pos,
        decreases fuel, 30nat,
    {
        let at = self.next(pos);
        let keyword = self.expect(at, SyntaxKind::LET_KW);
        let pat = self.pat(keyword.pos);
        let ty = self.ascription(pat.pos);
        let init = if self.peek(ty.pos) == SyntaxKind::EQ {
            let eq = self.expect(ty.pos, SyntaxKind::EQ);
            let value = self.expr(fuel, eq.pos);
            self.join(eq, value)
        } else {
            self.nothing(ty.pos)
        };
        let semi = self.expect(init.pos, SyntaxKind::SEMI);
        let inner = self.join(self.join(self.join(self.join(keyword, pat), ty), init), semi);
        self.node(SyntaxKind::LET_STMT, pos, inner)
    }

    /// An expression, with the trivia in front of it.
    pub fn expr(&self, fuel: usize, pos: usize) -> (r: Pieces)
        requires
            self.ready(),
            pos <= self@.len(),
        ensures
            r@ == self@.expr(fuel as nat, pos as nat),
            self@.covers(r@),
            r@.start == pos,
        decreases fuel, 25nat,
    {
        let lead = self.lead(pos);
        let expr = self.expr_bp(fuel, lead.pos, 0);
        self.join(lead, expr)
    }

    /// An expression whose binary operators all bind at least as strongly
    /// as `min`.
    pub fn expr_bp(&self, fuel: usize, at: usize, min: u8) -> (r: Pieces)
        requires
            self.ready(),
            at <= self@.len(),
        ensures
            r@ == self@.expr_bp(fuel as nat, at as nat, min),
            self@.covers(r@),
            r@.start == at,
        decreases fuel, 24nat,
    {
        let left = self.unary(fuel, at);
        self.binary_rest(fuel, left, min)
    }

    /// The expression that `left` becomes with the binary operators behind
    /// it that bind at least as strongly as `min`, and their right operands.
    pub fn binary_rest(&self, fuel: usize, first: Pieces, min: u8) -> (r: Pieces)
        requires
            self.ready(),
            self@.covers(first@),
        ensures
            r@ == self@.binary_rest(fuel as nat, first@, min),
            self@.covers(r@),
            r@.start == first@.start,
        decreases fuel, 23nat,
    {
        let ghost whole = self@.binary_rest(fuel as nat, first@, min);
        let ghost start = first@.start;
        let mut left = first;
        let mut fuel_left = fuel;
        loop
            invariant
                self.ready(),
                whole == self@.binary_rest(fuel as nat, first@, min),
                start == first@.start,
                fuel_left <= fuel,
                self@.covers(left@),
                left@.start == start,
                whole == self@.binary_rest(fuel_left as nat, left@, min),
            decreases fuel_left,
        {
            let op = self.peek(left.pos);
            let power = binding_power(op);
            if fuel_left == 0 || power.0 == 0 || power.0 < min || left.pos == left.start {
                return left;
            }
            let operator = self.expect(left.pos, op);
            let lead = self.lead(operator.pos);
            let operand = self.expr_bp(fuel_left - 1, lead.pos, power.1);
            let right = self.join(lead, operand);
            let inner = self.join(self.join(left, operator), right);
            left = self.wrap(inner, SyntaxKind::BIN_EXPR);
            fuel_left = fuel_left - 1;
        }
    }

    /// `PrefixExpr := ('-' | '!' | '*') Expr`, or an expression without prefix.
    pub fn unary(&self, fuel: usize, at: usize) -> (r: Pieces)
        requires
            self.ready(),
            at <= self@.len(),
        ensures
            r@ == self@.unary(fuel as nat, at as nat),
            self@.covers(r@),
            r@.start == at,
        decreases fuel, 22nat,
    {
        let kind = self.kind(at);
        if kind == SyntaxKind::MINUS || kind == SyntaxKind::EXCLAMATION || kind
            == SyntaxKind::STAR {
            if fuel == 0 {
                self.error(at, ParseErrorKind::NestingTooDeep)
            } else {
                let operator = self.bump(at);
                let lead = self.lead(operator.pos);
                let inner = self.unary(fuel - 1, lead.pos);
                let operand = self.join(lead, inner);
                let whole = self.join(operator, operand);
                self.wrap(whole, SyntaxKind::PREFIX_EXPR)
            }
        } else {
            let atom = self.atom(fuel, at);
            self.call_rest(fuel, atom)
        }
    }

    /// `CallExpr := Expr ArgList`: the expression that `callee` becomes with
    /// the argument lists behind it.
    pub fn call_rest(&self, fuel: usize, first: Pieces) -> (r: Pieces)
        requires
            self.ready(),
            self@.covers(first@),
        ensures
            r@ == self@.call_rest(fuel as nat, first@),
            self@.covers(r@),
            r@.start == first@.start,
        decreases fuel, 21nat,
    {
        let ghost whole = self@.call_rest(fuel as nat, first@);
        let ghost start = first@.start;
        let mut callee = first;
        let mut fuel_left = fuel;
        loop
            invariant
                self.ready(),
                whole == self@.call_rest(fuel as nat, first@),
                start == first@.start,
                fuel_left <= fuel,
                self@.covers(callee@),
                callee@.start == start,
                whole == self@.call_rest(fuel_left as nat, callee@),
            decreases fuel_left,
        {
            if fuel_left == 0 || callee.pos == callee.start || self.peek(callee.pos)
                != SyntaxKind::L_PAREN {
                return callee;
            }
            let args = self.list(fuel_left - 1, callee.pos, ListKind::Args);
            let inner = self.join(callee, args);
            callee = self.wrap(inner, SyntaxKind::CALL_EXPR);
            fuel_left = fuel_left - 1;
        }
    }

    /// An expression that is no operator with operands and no call.
    pub fn atom(&self, fuel: usize, at: usize) -> (r: Pieces)
        requires
            self.ready(),
            at <= self@.len(),
        ensures
            r@ == self@.atom(fuel as nat, at as nat),
            self@.covers(r@),
            r@.start == at,
        decreases fuel, 20nat,
    {
        let kind = self.kind(at);
        if is_literal_start(kind) {
            let token = self.bump(at);
            self.wrap(token, SyntaxKind::LITERAL)
        } else if kind == SyntaxKind::IDENT {
            let path = self.path(at);
            self.wrap(path, SyntaxKind::PATH_EXPR)
        } else if fuel == 0 {
            self.error(at, ParseErrorKind::NestingTooDeep)
        } else if kind == SyntaxKind::L_PAREN {
            let open = self.bump(at);
            let inner = self.expr(fuel - 1, open.pos);
            let close = self.expect(inner.pos, SyntaxKind::R_PAREN);
            let whole = self.join(self.join(open, inner), close);
            self.wrap(whole, SyntaxKind::PAREN_EXPR)
        } else if kind == SyntaxKind::IF_KW {
            self.if_expr(fuel - 1, at)
        } else if kind == SyntaxKind::LOOP_KW {
            let keyword = self.bump(at);
            let body = self.block(fuel - 1, keyword.pos);
            let whole = self.join(keyword, body);
            self.wrap(whole, SyntaxKind::LOOP_EXPR)
        } else if kind == SyntaxKind::WHILE_KW {
            let keyword = self.bump(at);
            let condition = self.condition(fuel - 1, keyword.pos);
            let body = self.block(fuel - 1, condition.pos);
            let whole = self.join(self.join(keyword, condition), body);
            self.wrap(whole, SyntaxKind::WHILE_EXPR)
        } else if kind == SyntaxKind::RETURN_KW {
            let keyword = self.bump(at);
            let value = self.value(fuel - 1, keyword.pos);
            let whole = self.join(keyword, value);
            self.wrap(whole, SyntaxKind::RETURN_EXPR)
        } else if kind == SyntaxKind::BREAK_KW {
            let keyword = self.bump(at);
            let value = self.value(fuel - 1, keyword.pos);
            let whole = self.join(keyword, value);
            self.wrap(whole, SyntaxKind::BREAK_EXPR)
        } else if kind == SyntaxKind::L_CURLY {
            self.block(fuel - 1, at)
        } else {
            self.error(at, ParseErrorKind::ExpectedExpression)
        }
    }

    /// `Condition := Expr`
    pub fn condition(&self, fuel: usize, pos: usize) -> (r: Pieces)
        requires
            self.ready(),
            pos <= self@.len(),
        ensures
            r@ == self@.condition(fuel as nat, pos as nat),
            self@.covers(r@),
            r@.start == pos,
        decreases fuel, 26nat,
    {
        let expr = self.expr_bp(fuel, self.next(pos), 0);
        self.node(SyntaxKind::CONDITION, pos, expr)
    }

    /// The value of a `return` or a `break`, where one stands.
    pub fn value(&self, fuel: usize, pos: usize) -> (r: Pieces)
        requires
            self.ready(),
            pos <= self@.len(),
        ensures
            r@ == self@.value(fuel as nat, pos as nat),
            self@.covers(r@),
            r@.start == pos,
        decreases fuel, 26nat,
    {
        if is_value_end(self.peek(pos)) {
            self.nothing(pos)
        } else {
            self.expr(fuel, pos)
        }
    }

    /// `IfExpr := 'if' Condition BlockExpr ('else' (IfExpr | BlockExpr))?`
    pub fn if_expr(&self, fuel: usize, at: usize) -> (r: Pieces)
        requires
            self.ready(),
            at <= self@.len(),
        ensures
            r@ == self@.if_expr(fuel as nat, at as nat),
            self@.covers(r@),
            r@.start == at,
        decreases fuel, 28nat,
    {
        if self.kind(at) != SyntaxKind::IF_KW || at >= self.len() {
            self.error(at, ParseErrorKind::ExpectedExpression)
        } else if fuel == 0 {
            self.error(at, ParseErrorKind::NestingTooDeep)
        } else {
            let keyword = self.bump(at);
            let condition = self.condition(fuel - 1, keyword.pos);
            let body = self.block(fuel - 1, condition.pos);
            let other = if self.peek(body.pos) == SyntaxKind::ELSE_KW {
                let word = self.expect(body.pos, SyntaxKind::ELSE_KW);
                if self.peek(word.pos) == SyntaxKind::IF_KW {
                    let lead = self.lead(word.pos);
                    let nested = self.if_expr(fuel - 1, lead.pos);
                    self.join(self.join(word, lead), nested)
                } else {
                    let block = self.block(fuel - 1, word.pos);
                    self.join(word, block)
                }
            } else {
                self.nothing(body.pos)
            };
            let whole = self.join(self.join(self.join(keyword, condition), body), other);
            self.wrap(whole, SyntaxKind::IF_EXPR)
        }
    }

    /// `FunctionDef := Visibility? 'fn' Name ParamList RetType? BlockExpr`
    pub fn function_def(&self, fuel: usize, pos: usize) -> (r: Pieces)
        requires
            self.ready(),
            pos <= self@.len(),
        ensures
            r@ == self@.function_def(fuel as nat, pos as nat),
            self@.covers(r@),
            r@.start == pos,
        decreases fuel, 80nat,
    {
        let at = self.next(pos);
        let visibility = self.visibility(at);
        let keyword = self.expect(visibility.pos, SyntaxKind::FN_KW);
        let name = self.name(keyword.pos);
        let params = if self.peek(name.pos) == SyntaxKind::L_PAREN {
            self.list(fuel, name.pos, ListKind::Params)
        } else {
            self.error(name.pos, ParseErrorKind::ExpectedParameters)
        };
        let ret = self.ret_type(params.pos);
        let body = self.block(fuel, ret.pos);
        let inner = self.join(
            self.join(self.join(self.join(self.join(visibility, keyword), name), params), ret),
            body,
        );
        self.item_node(SyntaxKind::FUNCTION_DEF, pos, inner)
    }

    /// `StructDef := Visibility? 'struct' Name (RecordFieldDefList |
    /// TupleFieldDefList ';'? | ';')`
    pub fn struct_def(&self, fuel: usize, pos: usize) -> (r: Pieces)
        requires
            self.ready(),
            pos <= self@.len(),
        ensures
            r@ == self@.struct_def(fuel as nat, pos as nat),
            self@.covers(r@),
            r@.start == pos,
        decreases fuel, 80nat,
    {
        let at = self.next(pos);
        let visibility = self.visibility(at);
        let keyword = self.expect(visibility.pos, SyntaxKind::STRUCT_KW);
        let name = self.name(keyword.pos);
        let kind = self.peek(name.pos);
        let fields = if kind == SyntaxKind::L_CURLY {
            self.list(fuel, name.pos, ListKind::RecordFields)
        } else if kind == SyntaxKind::L_PAREN {
            let list = self.list(fuel, name.pos, ListKind::TupleFields);
            if self.peek(list.pos) == SyntaxKind::SEMI {
                let semi = self.expect(list.pos, SyntaxKind::SEMI);
                self.join(list, semi)
            } else {
                list
            }
        } else if kind == SyntaxKind::SEMI {
            self.expect(name.pos, SyntaxKind::SEMI)
        } else {
            self.error(name.pos, ParseErrorKind::ExpectedFields)
        };
        let inner = self.join(self.join(self.join(visibility, keyword), name), fields);
        self.item_node(SyntaxKind::STRUCT_DEF, pos, inner)
    }

    /// `ModuleItem := FunctionDef | StructDef`. Where the next token begins
    /// neither, it is skipped.
    pub fn item(&self, fuel: usize, pos: usize) -> (r: Pieces)
        requires
            self.ready(),
            pos <= self@.len(),
        ensures
            r@ == self@.item(fuel as nat, pos as nat),
            self@.covers(r@),
            r@.start == pos,
        decreases fuel, 90nat,
    {
        let at = self.next(pos);
        let first = self.kind(at);
        let kind = if first == SyntaxKind::PUB_KW {
            assert(at < self.tokens.len());
            self.peek(at + 1)
        } else {
            first
        };
        if kind == SyntaxKind::FN_KW {
            self.function_def(fuel, pos)
        } else if kind == SyntaxKind::STRUCT_KW {
            self.struct_def(fuel, pos)
        } else {
            let error = self.error(pos, ParseErrorKind::ExpectedItem);
            self.join(error, self.skip_one(pos))
        }
    }

    /// The items of a file, up to the end of the text.
    pub fn items(&self, fuel: usize, pos: usize) -> (r: Pieces)
        requires
            self.ready(),
            pos <= self@.len(),
        ensures
            r@ == self@.items(fuel as nat, pos as nat),
            self@.covers(r@),
            r@.start == pos,
        decreases fuel, 100nat,
    {
        let ghost whole = self@.items(fuel as nat, pos as nat);
        let mut done = self.nothing(pos);
        let mut left = fuel;
        proof {
            assert(whole.start == pos);
            lemma_join_laws(self@, whole, whole, whole);
        }
        while left > 0 && self.peek(done.pos) != SyntaxKind::EOF
            invariant
                self.ready(),
                left <= fuel,
                self@.covers(done@),
                done@.start == pos,
                whole == self@.items(fuel as nat, pos as nat),
                whole == done@.join(self@.items(left as nat, done@.pos)),
            decreases left,
        {
            let item = self.item(left - 1, done.pos);
            proof {
                lemma_join_laws(
                    self@,
                    done@,
                    item@,
                    self@.items((left - 1) as nat, item@.pos),
                );
            }
            done = self.join(done, item);
            left = left - 1;
        }
        proof {
            lemma_join_laws(self@, done@, done@, done@);
        }
        done
    }

    /// The children of the root: the items, and behind them whatever is
    /// left of the tokens.
    pub fn source_file(&self) -> (r: Pieces)
        requires
            self.ready(),
        ensures
            r@.wrap(SyntaxKind::SOURCE_FILE) == self@.source_file(),
            self@.covers(r@),
            r@.start == 0,
            r@.pos == self@.len(),
    {
        let len = self.len();
        let fuel = if len <= (usize::MAX - 4) / 2 {
            2 * len + 4
        } else {
            usize::MAX
        };
        let items = self.items(fuel, 0);
        let rest = self.remainder(items.pos);
        self.join(items, rest)
    }
}

} // verus!
