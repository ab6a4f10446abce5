//! Cuts a text into tokens. Every byte of the text ends up in exactly one
//! token, trivia included.

use crate::syntax_kind::SyntaxKind;
use vstd::prelude::*;

verus! {

/// A token: its kind and the number of bytes it takes.
#[derive(Clone, Copy, Debug, PartialEq, Eq, Structural)]
pub struct Token {
    pub kind: SyntaxKind,
    pub len: u32,
}

/// Classes of bytes that a token is scanned by.
#[derive(Clone, Copy, Debug, PartialEq, Eq, Structural)]
pub enum ByteClass {
    /// Blanks, tabs and line ends.
    Whitespace,
    /// Letters, digits and the underscore.
    Word,
    /// Digits and the underscore.
    Digit,
    /// Bytes of characters outside ASCII.
    Foreign,
    /// Anything but a line feed.
    Line,
}

impl ByteClass {
    /// Whether `b` belongs to the class.
    pub open spec fn holds(self, b: u8) -> bool {
        match self {
            ByteClass::Whitespace => b == 0x20 || b == 0x09 || b == 0x0a || b == 0x0d,
            ByteClass::Word => (0x61 <= b <= 0x7a) || (0x41 <= b <= 0x5a) || (0x30 <= b <= 0x39)
                || b == 0x5f,
            ByteClass::Digit => (0x30 <= b <= 0x39) || b == 0x5f,
            ByteClass::Foreign => b >= 0x80,
            ByteClass::Line => b != 0x0a,
        }
    }

    /// Returns whether `b` belongs to the class.
    pub fn contains(self, b: u8) -> (r: bool)
        ensures
            r == self.holds(b),
    {
        match self {
            ByteClass::Whitespace => b == 0x20 || b == 0x09 || b == 0x0a || b == 0x0d,
            ByteClass::Word => (0x61 <= b && b <= 0x7a) || (0x41 <= b && b <= 0x5a) || (0x30 <= b
                && b <= 0x39) || b == 0x5f,
            ByteClass::Digit => (0x30 <= b && b <= 0x39) || b == 0x5f,
            ByteClass::Foreign => b >= 0x80,
            ByteClass::Line => b != 0x0a,
        }
    }
}

/// The end of the longest run of bytes of `class` that begins at `from`.
pub open spec fn run_end(text: Seq<u8>, from: nat, class: ByteClass) -> nat
    decreases text.len() - from,
{
    if from >= text.len() {
        text.len()
    } else if class.holds(text[from as int]) {
        run_end(text, from + 1, class)
    } else {
        from
    }
}

/// The end of a block comment whose body begins at `from`: just behind the
/// first `*/`, or the end of the text where there is none.
pub open spec fn block_comment_end(text: Seq<u8>, from: nat) -> nat
    decreases text.len() - from,
{
    if from + 1 >= text.len() {
        text.len()
    } else if text[from as int] == 0x2a && text[from as int + 1] == 0x2f {
        from + 2
    } else {
        block_comment_end(text, from + 1)
    }
}

/// The end of a string whose body begins at `from`: just behind the first
/// quote that no backslash stands in front of, or the end of the text.
pub open spec fn string_end(text: Seq<u8>, from: nat) -> nat
    decreases text.len() - from,
{
    if from >= text.len() {
        text.len()
    } else if text[from as int] == 0x22 {
        from + 1
    } else if text[from as int] == 0x5c && from + 1 < text.len() {
        string_end(text, from + 2)
    } else {
        string_end(text, from + 1)
    }
}

/// The keyword that `word` spells, if it spells one.
pub open spec fn keyword_of(word: Seq<u8>) -> Option<SyntaxKind> {
    if word == seq![0x62u8, 0x72, 0x65, 0x61, 0x6b] {
        Some(SyntaxKind::BREAK_KW)
    } else if word == seq![0x65u8, 0x6c, 0x73, 0x65] {
        Some(SyntaxKind::ELSE_KW)
    } else if word == seq![0x66u8, 0x61, 0x6c, 0x73, 0x65] {
        Some(SyntaxKind::FALSE_KW)
    } else if word == seq![0x66u8, 0x6e] {
        Some(SyntaxKind::FN_KW)
    } else if word == seq![0x69u8, 0x66] {
        Some(SyntaxKind::IF_KW)
    } else if word == seq![0x6cu8, 0x65, 0x74] {
        Some(SyntaxKind::LET_KW)
    } else if word == seq![0x6cu8, 0x6f, 0x6f, 0x70] {
        Some(SyntaxKind::LOOP_KW)
    } else if word == seq![0x6eu8, 0x65, 0x76, 0x65, 0x72] {
        Some(SyntaxKind::NEVER_KW)
    } else if word == seq![0x70u8, 0x75, 0x62] {
        Some(SyntaxKind::PUB_KW)
    } else if word == seq![0x72u8, 0x65, 0x74, 0x75, 0x72, 0x6e] {
        Some(SyntaxKind::RETURN_KW)
    } else if word == seq![0x73u8, 0x74, 0x72, 0x75, 0x63, 0x74] {
        Some(SyntaxKind::STRUCT_KW)
    } else if word == seq![0x74u8, 0x72, 0x75, 0x65] {
        Some(SyntaxKind::TRUE_KW)
    } else if word == seq![0x77u8, 0x68, 0x69, 0x6c, 0x65] {
        Some(SyntaxKind::WHILE_KW)
    } else if word == seq![0x5fu8] {
        Some(SyntaxKind::UNDERSCORE)
    } else {
        None
    }
}

/// The kind of the punctuation made of the bytes `a` and `b`, if they make
/// one.
pub open spec fn punct2(a: u8, b: u8) -> Option<SyntaxKind> {
    if a == 0x3d && b == 0x3d {
        Some(SyntaxKind::EQEQ)
    } else if a == 0x21 && b == 0x3d {
        Some(SyntaxKind::NEQ)
    } else if a == 0x3c && b == 0x3d {
        Some(SyntaxKind::LTEQ)
    } else if a == 0x3e && b == 0x3d {
        Some(SyntaxKind::GTEQ)
    } else if a == 0x2d && b == 0x3e {
        Some(SyntaxKind::THIN_ARROW)
    } else if a == 0x3a && b == 0x3a {
        Some(SyntaxKind::COLONCOLON)
    } else if a == 0x26 && b == 0x26 {
        Some(SyntaxKind::AMPAMP)
    } else if a == 0x7c && b == 0x7c {
        Some(SyntaxKind::PIPEPIPE)
    } else if a == 0x2b && b == 0x3d {
        Some(SyntaxKind::PLUSEQ)
    } else if a == 0x2d && b == 0x3d {
        Some(SyntaxKind::MINUSEQ)
    } else if a == 0x2a && b == 0x3d {
        Some(SyntaxKind::STAREQ)
    } else if a == 0x2f && b == 0x3d {
        Some(SyntaxKind::SLASHEQ)
    } else {
        None
    }
}

/// The kind of the punctuation made of the byte `a` alone; a byte that makes
/// none is an error token.
pub open spec fn punct1(a: u8) -> SyntaxKind {
    if a == 0x26 {
        SyntaxKind::AMP
    } else if a == 0x7c {
        SyntaxKind::PIPE
    } else if a == 0x2b {
        SyntaxKind::PLUS
    } else if a == 0x2d {
        SyntaxKind::MINUS
    } else if a == 0x2a {
        SyntaxKind::STAR
    } else if a == 0x2f {
        SyntaxKind::SLASH
    } else if a == 0x25 {
        SyntaxKind::PERCENT
    } else if a == 0x5e {
        SyntaxKind::CARET
    } else if a == 0x2e {
        SyntaxKind::DOT
    } else if a == 0x3c {
        SyntaxKind::LT
    } else if a == 0x3e {
        SyntaxKind::GT
    } else if a == 0x3d {
        SyntaxKind::EQ
    } else if a == 0x28 {
        SyntaxKind::L_PAREN
    } else if a == 0x29 {
        SyntaxKind::R_PAREN
    } else if a == 0x7b {
        SyntaxKind::L_CURLY
    } else if a == 0x7d {
        SyntaxKind::R_CURLY
    } else if a == 0x5b {
        SyntaxKind::L_BRACKET
    } else if a == 0x5d {
        SyntaxKind::R_BRACKET
    } else if a == 0x3b {
        SyntaxKind::SEMI
    } else if a == 0x3a {
        SyntaxKind::COLON
    } else if a == 0x2c {
        SyntaxKind::COMMA
    } else if a == 0x21 {
        SyntaxKind::EXCLAMATION
    } else {
        SyntaxKind::ERROR
    }
}

/// The byte of `text` at `at`, or zero behind the end.
pub open spec fn byte_at(text: Seq<u8>, at: nat) -> u8 {
    if at < text.len() {
        text[at as int]
    } else {
        0
    }
}

/// The token that begins at `pos`: its kind and the offset at which it ends.
pub open spec fn token_at(text: Seq<u8>, pos: nat) -> (SyntaxKind, nat) {
    let c = byte_at(text, pos);
    let d = byte_at(text, pos + 1);
    if ByteClass::Whitespace.holds(c) {
        (SyntaxKind::WHITESPACE, run_end(text, pos + 1, ByteClass::Whitespace))
    } else if c == 0x2f && d == 0x2f {
        (SyntaxKind::COMMENT, run_end(text, pos + 2, ByteClass::Line))
    } else if c == 0x2f && d == 0x2a {
        (SyntaxKind::COMMENT, block_comment_end(text, pos + 2))
    } else if 0x30 <= c <= 0x39 {
        let whole = run_end(text, pos + 1, ByteClass::Digit);
        if byte_at(text, whole) == 0x2e && 0x30 <= byte_at(text, whole + 1) <= 0x39 {
            (SyntaxKind::FLOAT_NUMBER, run_end(text, whole + 2, ByteClass::Digit))
        } else {
            (SyntaxKind::INT_NUMBER, whole)
        }
    } else if ByteClass::Word.holds(c) {
        let end = run_end(text, pos + 1, ByteClass::Word);
        match keyword_of(text.subrange(pos as int, end as int)) {
            Some(kind) => (kind, end),
            None => (SyntaxKind::IDENT, end),
        }
    } else if c == 0x22 {
        (SyntaxKind::STRING, string_end(text, pos + 1))
    } else if c >= 0x80 {
        (SyntaxKind::ERROR, run_end(text, pos + 1, ByteClass::Foreign))
    } else if pos + 1 < text.len() && punct2(c, d) is Some {
        (punct2(c, d)->0, pos + 2)
    } else {
        (punct1(c), pos + 1)
    }
}

/// The tokens of `text` from `pos` on.
pub open spec fn tokens_from(text: Seq<u8>, pos: nat) -> Seq<Token>
    decreases text.len() - pos,
{
    if pos >= text.len() {
        Seq::empty()
    } else {
        let (kind, end) = token_at(text, pos);
        if pos < end <= text.len() {
            seq![Token { kind, len: (end - pos) as u32 }] + tokens_from(text, end)
        } else {
            Seq::empty()
        }
    }
}

/// The sum of the lengths of `tokens`.
pub open spec fn total_len(tokens: Seq<Token>) -> nat
    decreases tokens.len(),
{
    if tokens.len() == 0 {
        0
    } else {
        total_len(tokens.drop_last()) + tokens.last().len as nat
    }
}

/// A run of bytes of one class ends no earlier than it begins and no later
/// than the text.
pub proof fn lemma_run_end(text: Seq<u8>, from: nat, class: ByteClass)
    requires
        from <= text.len(),
    ensures
        from <= run_end(text, from, class) <= text.len(),
    decreases text.len() - from,
{
    if from < text.len() && class.holds(text[from as int]) {
        lemma_run_end(text, from + 1, class);
    }
}

/// A block comment ends no earlier than its body begins and no later than
/// the text.
pub proof fn lemma_block_comment_end(text: Seq<u8>, from: nat)
    requires
        from <= text.len(),
    ensures
        from <= block_comment_end(text, from) <= text.len(),
    decreases text.len() - from,
{
    if from + 1 < text.len() && !(text[from as int] == 0x2a && text[from as int + 1] == 0x2f) {
        lemma_block_comment_end(text, from + 1);
    }
}

/// A string ends no earlier than its body begins and no later than the text.
pub proof fn lemma_string_end(text: Seq<u8>, from: nat)
    requires
        from <= text.len(),
    ensures
        from <= string_end(text, from) <= text.len(),
    decreases text.len() - from,
{
    if from < text.len() && text[from as int] != 0x22 {
        if text[from as int] == 0x5c && from + 1 < text.len() {
            lemma_string_end(text, from + 2);
        } else {
            lemma_string_end(text, from + 1);
        }
    }
}

/// Every token takes at least one byte and ends within the text.
pub proof fn lemma_token_at(text: Seq<u8>, pos: nat)
    requires
        pos < text.len(),
    ensures
        pos < token_at(text, pos).1 <= text.len(),
{
    lemma_run_end(text, pos + 1, ByteClass::Whitespace);
    lemma_run_end(text, pos + 1, ByteClass::Digit);
    lemma_run_end(text, pos + 1, ByteClass::Word);
    lemma_run_end(text, pos + 1, ByteClass::Foreign);
    if pos + 2 <= text.len() {
        lemma_run_end(text, pos + 2, ByteClass::Line);
        lemma_block_comment_end(text, pos + 2);
    }
    let whole = run_end(text, pos + 1, ByteClass::Digit);
    if whole + 2 <= text.len() {
        lemma_run_end(text, whole + 2, ByteClass::Digit);
    }
    lemma_string_end(text, pos + 1);
}

/// Whether the bytes of `text` from `from` up to `to` are those of `word`.
fn spells(text: &[u8], from: usize, to: usize, word: &[u8]) -> (r: bool)
    requires
        from <= to <= text@.len(),
    ensures
        r == (text@.subrange(from as int, to as int) == word@),
{
    if to - from != word.len() {
        return false;
    }
    let mut i: usize = 0;
    while i < word.len()
        invariant
            from <= to <= text@.len(),
            to - from == word@.len(),
            i <= word@.len(),
            forall|j: int| 0 <= j < i ==> text@[from + j] == word@[j],
        decreases word.len() - i,
    {
        if text[from + i] != word[i] {
            assert(text@.subrange(from as int, to as int)[i as int] != word@[i as int]);
            return false;
        }
        i = i + 1;
    }
    assert(text@.subrange(from as int, to as int) =~= word@);
    true
}

/// The keyword that the bytes of `text` from `from` up to `to` spell.
fn keyword(text: &[u8], from: usize, to: usize) -> (r: Option<SyntaxKind>)
    requires
        from <= to <= text@.len(),
    ensures
        r == keyword_of(text@.subrange(from as int, to as int)),
{
    let word_break = [0x62u8, 0x72, 0x65, 0x61, 0x6b];
    assert(word_break@ =~= seq![0x62u8, 0x72, 0x65, 0x61, 0x6b]);
    let word_else = [0x65u8, 0x6c, 0x73, 0x65];
    assert(word_else@ =~= seq![0x65u8, 0x6c, 0x73, 0x65]);
    let word_false = [0x66u8, 0x61, 0x6c, 0x73, 0x65];
    assert(word_false@ =~= seq![0x66u8, 0x61, 0x6c, 0x73, 0x65]);
    let word_fn = [0x66u8, 0x6e];
    assert(word_fn@ =~= seq![0x66u8, 0x6e]);
    let word_if = [0x69u8, 0x66];
    assert(word_if@ =~= seq![0x69u8, 0x66]);
    let word_let = [0x6cu8, 0x65, 0x74];
    assert(word_let@ =~= seq![0x6cu8, 0x65, 0x74]);
    let word_loop = [0x6cu8, 0x6f, 0x6f, 0x70];
    assert(word_loop@ =~= seq![0x6cu8, 0x6f, 0x6f, 0x70]);
    let word_never = [0x6eu8, 0x65, 0x76, 0x65, 0x72];
    assert(word_never@ =~= seq![0x6eu8, 0x65, 0x76, 0x65, 0x72]);
    let word_pub = [0x70u8, 0x75, 0x62];
    assert(word_pub@ =~= seq![0x70u8, 0x75, 0x62]);
    let word_return = [0x72u8, 0x65, 0x74, 0x75, 0x72, 0x6e];
    assert(word_return@ =~= seq![0x72u8, 0x65, 0x74, 0x75, 0x72, 0x6e]);
    let word_struct = [0x73u8, 0x74, 0x72, 0x75, 0x63, 0x74];
    assert(word_struct@ =~= seq![0x73u8, 0x74, 0x72, 0x75, 0x63, 0x74]);
    let word_true = [0x74u8, 0x72, 0x75, 0x65];
    assert(word_true@ =~= seq![0x74u8, 0x72, 0x75, 0x65]);
    let word_while = [0x77u8, 0x68, 0x69, 0x6c, 0x65];
    assert(word_while@ =~= seq![0x77u8, 0x68, 0x69, 0x6c, 0x65]);
    let word_underscore = [0x5fu8];
    assert(word_underscore@ =~= seq![0x5fu8]);
    if spells(text, from, to, &word_break) {
        Some(SyntaxKind::BREAK_KW)
    } else if spells(text, from, to, &word_else) {
        Some(SyntaxKind::ELSE_KW)
    } else if spells(text, from, to, &word_false) {
        Some(SyntaxKind::FALSE_KW)
    } else if spells(text, from, to, &word_fn) {
        Some(SyntaxKind::FN_KW)
    } else if spells(text, from, to, &word_if) {
        Some(SyntaxKind::IF_KW)
    } else if spells(text, from, to, &word_let) {
        Some(SyntaxKind::LET_KW)
    } else if spells(text, from, to, &word_loop) {
        Some(SyntaxKind::LOOP_KW)
    } else if spells(text, from, to, &word_never) {
        Some(SyntaxKind::NEVER_KW)
    } else if spells(text, from, to, &word_pub) {
        Some(SyntaxKind::PUB_KW)
    } else if spells(text, from, to, &word_return) {
        Some(SyntaxKind::RETURN_KW)
    } else if spells(text, from, to, &word_struct) {
        Some(SyntaxKind::STRUCT_KW)
    } else if spells(text, from, to, &word_true) {
        Some(SyntaxKind::TRUE_KW)
    } else if spells(text, from, to, &word_while) {
        Some(SyntaxKind::WHILE_KW)
    } else if spells(text, from, to, &word_underscore) {
        Some(SyntaxKind::UNDERSCORE)
    } else {
        None
    }
}

/// The kind of the punctuation made of the bytes `a` and `b`.
fn two_byte_punct(a: u8, b: u8) -> (r: Option<SyntaxKind>)
    ensures
        r == punct2(a, b),
{
    if a == 0x3d && b == 0x3d {
        Some(SyntaxKind::EQEQ)
    } else if a == 0x21 && b == 0x3d {
        Some(SyntaxKind::NEQ)
    } else if a == 0x3c && b == 0x3d {
        Some(SyntaxKind::LTEQ)
    } else if a == 0x3e && b == 0x3d {
        Some(SyntaxKind::GTEQ)
    } else if a == 0x2d && b == 0x3e {
        Some(SyntaxKind::THIN_ARROW)
    } else if a == 0x3a && b == 0x3a {
        Some(SyntaxKind::COLONCOLON)
    } else if a == 0x26 && b == 0x26 {
        Some(SyntaxKind::AMPAMP)
    } else if a == 0x7c && b == 0x7c {
        Some(SyntaxKind::PIPEPIPE)
    } else if a == 0x2b && b == 0x3d {
        Some(SyntaxKind::PLUSEQ)
    } else if a == 0x2d && b == 0x3d {
        Some(SyntaxKind::MINUSEQ)
    } else if a == 0x2a && b == 0x3d {
        Some(SyntaxKind::STAREQ)
    } else if a == 0x2f && b == 0x3d {
        Some(SyntaxKind::SLASHEQ)
    } else {
        None
    }
}

/// The kind of the punctuation made of the byte `a` alone.
fn one_byte_punct(a: u8) -> (r: SyntaxKind)
    ensures
        r == punct1(a),
{
    match a {
        0x26 => SyntaxKind::AMP,
        0x7c => SyntaxKind::PIPE,
        0x2b => SyntaxKind::PLUS,
        0x2d => SyntaxKind::MINUS,
        0x2a => SyntaxKind::STAR,
        0x2f => SyntaxKind::SLASH,
        0x25 => SyntaxKind::PERCENT,
        0x5e => SyntaxKind::CARET,
        0x2e => SyntaxKind::DOT,
        0x3c => SyntaxKind::LT,
        0x3e => SyntaxKind::GT,
        0x3d => SyntaxKind::EQ,
        0x28 => SyntaxKind::L_PAREN,
        0x29 => SyntaxKind::R_PAREN,
        0x7b => SyntaxKind::L_CURLY,
        0x7d => SyntaxKind::R_CURLY,
        0x5b => SyntaxKind::L_BRACKET,
        0x5d => SyntaxKind::R_BRACKET,
        0x3b => SyntaxKind::SEMI,
        0x3a => SyntaxKind::COLON,
        0x2c => SyntaxKind::COMMA,
        0x21 => SyntaxKind::EXCLAMATION,
        _ => SyntaxKind::ERROR,
    }
}

/// The byte of `text` at `at`, or zero behind the end.
fn byte(text: &[u8], at: usize) -> (r: u8)
    ensures
        r == byte_at(text@, at as nat),
{
    if at < text.len() {
        text[at]
    } else {
        0
    }
}

/// The end of the longest run of bytes of `class` that begins at `from`.
fn scan_run(text: &[u8], from: usize, class: ByteClass) -> (r: usize)
    requires
        from <= text@.len(),
    ensures
        r == run_end(text@, from as nat, class),
        from <= r <= text@.len(),
{
    let mut at: usize = from;
    while at < text.len() && class.contains(text[at])
        invariant
            from <= at <= text@.len(),
            run_end(text@, from as nat, class) == run_end(text@, at as nat, class),
        decreases text.len() - at,
    {
        at = at + 1;
    }
    at
}

/// The end of a block comment whose body begins at `from`.
fn scan_block_comment(text: &[u8], from: usize) -> (r: usize)
    requires
        from <= text@.len(),
    ensures
        r == block_comment_end(text@, from as nat),
        from <= r <= text@.len(),
{
    let mut at: usize = from;
    while at < text.len() && at + 1 < text.len()
        invariant
            from <= at <= text@.len(),
            block_comment_end(text@, from as nat) == block_comment_end(text@, at as nat),
        decreases text.len() - at,
    {
        if text[at] == 0x2a && text[at + 1] == 0x2f {
            return at + 2;
        }
        at = at + 1;
    }
    text.len()
}

/// The end of a string whose body begins at `from`.
fn scan_string(text: &[u8], from: usize) -> (r: usize)
    requires
        from <= text@.len(),
    ensures
        r == string_end(text@, from as nat),
        from <= r <= text@.len(),
{
    let mut at: usize = from;
    while at < text.len()
        invariant
            from <= at <= text@.len(),
            string_end(text@, from as nat) == string_end(text@, at as nat),
        decreases text.len() - at,
    {
        if text[at] == 0x22 {
            return at + 1;
        } else if text[at] == 0x5c && at + 1 < text.len() {
            at = at + 2;
        } else {
            at = at + 1;
        }
    }
    text.len()
}

/// The token that begins at `pos`: its kind and the offset at which it ends.
pub fn first_token(text: &[u8], pos: usize) -> (r: (SyntaxKind, usize))
    requires
        pos < text@.len(),
    ensures
        r.0 == token_at(text@, pos as nat).0,
        r.1 == token_at(text@, pos as nat).1,
        pos < r.1 <= text@.len(),
{
    proof {
        lemma_token_at(text@, pos as nat);
    }
    let c = text[pos];
    let d = byte(text, pos + 1);
    if ByteClass::Whitespace.contains(c) {
        (SyntaxKind::WHITESPACE, scan_run(text, pos + 1, ByteClass::Whitespace))
    } else if c == 0x2f && d == 0x2f {
        (SyntaxKind::COMMENT, scan_run(text, pos + 2, ByteClass::Line))
    } else if c == 0x2f && d == 0x2a {
        (SyntaxKind::COMMENT, scan_block_comment(text, pos + 2))
    } else if 0x30 <= c && c <= 0x39 {
        let whole = scan_run(text, pos + 1, ByteClass::Digit);
        let dot = byte(text, whole);
        let next = if whole < text.len() {
            byte(text, whole + 1)
        } else {
            0
        };
        if dot == 0x2e && 0x30 <= next && next <= 0x39 {
            (SyntaxKind::FLOAT_NUMBER, scan_run(text, whole + 2, ByteClass::Digit))
        } else {
            (SyntaxKind::INT_NUMBER, whole)
        }
    } else if ByteClass::Word.contains(c) {
        let end = scan_run(text, pos + 1, ByteClass::Word);
        match keyword(text, pos, end) {
            Some(kind) => (kind, end),
            None => (SyntaxKind::IDENT, end),
        }
    } else if c == 0x22 {
        (SyntaxKind::STRING, scan_string(text, pos + 1))
    } else if c >= 0x80 {
        (SyntaxKind::ERROR, scan_run(text, pos + 1, ByteClass::Foreign))
    } else {
        if pos + 1 < text.len() {
            match two_byte_punct(c, d) {
                Some(kind) => {
                    return (kind, pos + 2);
                },
                None => {},
            }
        }
        (one_byte_punct(c), pos + 1)
    }
}

/// The tokens have, taken together, the length of the text behind `pos`.
pub proof fn lemma_tokens_cover(text: Seq<u8>, pos: nat)
    requires
        pos <= text.len() <= u32::MAX,
    ensures
        total_len(tokens_from(text, pos)) == text.len() - pos,
    decreases text.len() - pos,
{
    if pos < text.len() {
        lemma_token_at(text, pos);
        let (kind, end) = token_at(text, pos);
        lemma_tokens_cover(text, end);
        let first = seq![Token { kind, len: (end - pos) as u32 }];
        lemma_total_len_add(first, tokens_from(text, end));
        assert(first.drop_last() =~= Seq::<Token>::empty());
        assert(total_len(first.drop_last()) == 0);
        assert(total_len(first) == end - pos);
    }
}

/// The length of two runs of tokens laid end to end is the sum of their
/// lengths.
pub proof fn lemma_total_len_add(a: Seq<Token>, b: Seq<Token>)
    ensures
        total_len(a + b) == total_len(a) + total_len(b),
    decreases b.len(),
{
    if b.len() == 0 {
        assert(a + b =~= a);
    } else {
        lemma_total_len_add(a, b.drop_last());
        assert((a + b).drop_last() =~= a + b.drop_last());
    }
}

/// Cuts `text` into tokens. The lengths of the tokens add up to the length
/// of the text.
pub fn tokenize(text: &[u8]) -> (r: Vec<Token>)
    requires
        text@.len() <= u32::MAX,
    ensures
        r@ == tokens_from(text@, 0),
        total_len(r@) == text@.len(),
{
    let mut out: Vec<Token> = Vec::new();
    let mut pos: usize = 0;
    assert(out@ + tokens_from(text@, 0) =~= tokens_from(text@, 0));
    while pos < text.len()
        invariant
            pos <= text@.len() <= u32::MAX,
            tokens_from(text@, 0) == out@ + tokens_from(text@, pos as nat),
        decreases text.len() - pos,
    {
        let (kind, end) = first_token(text, pos);
        let ghost before = out@;
        out.push(Token { kind, len: (end - pos) as u32 });
        assert(before + (seq![Token { kind, len: (end - pos) as u32 }] + tokens_from(
            text@,
            end as nat,
        )) =~= out@ + tokens_from(text@, end as nat));
        pos = end;
    }
    assert(out@ + tokens_from(text@, pos as nat) =~= out@);
    proof {
        lemma_tokens_cover(text@, 0);
    }
    out
}

} // verus!
