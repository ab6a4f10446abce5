//! The closed set of kinds that tag every token and every node of a syntax
//! tree.

use vstd::prelude::*;

verus! {

/// The kind of a token or of a node. Tokens come first: punctuation,
/// keywords, literals, identifiers and trivia; the named productions of the
/// grammar follow.
#[allow(non_camel_case_types)]
#[derive(Clone, Copy, Debug, PartialEq, Eq, Structural, Hash)]
pub enum SyntaxKind {
    // punctuation
    AMP,
    PIPE,
    PLUS,
    MINUS,
    STAR,
    SLASH,
    PERCENT,
    CARET,
    DOT,
    LT,
    GT,
    EQ,
    L_PAREN,
    R_PAREN,
    L_CURLY,
    R_CURLY,
    L_BRACKET,
    R_BRACKET,
    SEMI,
    COLON,
    COMMA,
    EXCLAMATION,
    UNDERSCORE,
    EQEQ,
    NEQ,
    LTEQ,
    GTEQ,
    THIN_ARROW,
    COLONCOLON,
    AMPAMP,
    PIPEPIPE,
    PLUSEQ,
    MINUSEQ,
    STAREQ,
    SLASHEQ,
    // keywords
    BREAK_KW,
    ELSE_KW,
    FALSE_KW,
    FN_KW,
    IF_KW,
    LET_KW,
    LOOP_KW,
    NEVER_KW,
    PUB_KW,
    RETURN_KW,
    STRUCT_KW,
    TRUE_KW,
    WHILE_KW,
    // literals
    INT_NUMBER,
    FLOAT_NUMBER,
    STRING,
    // other tokens
    IDENT,
    ERROR,
    WHITESPACE,
    COMMENT,
    /// Stands for the end of the text; no token of a tree has this kind.
    EOF,
    // nodes
    SOURCE_FILE,
    FUNCTION_DEF,
    RET_TYPE,
    VISIBILITY,
    PARAM_LIST,
    PARAM,
    STRUCT_DEF,
    RECORD_FIELD_DEF_LIST,
    RECORD_FIELD_DEF,
    TUPLE_FIELD_DEF_LIST,
    TUPLE_FIELD_DEF,
    PATH_TYPE,
    NEVER_TYPE,
    LET_STMT,
    EXPR_STMT,
    PATH_EXPR,
    PREFIX_EXPR,
    LITERAL,
    BIN_EXPR,
    PAREN_EXPR,
    CALL_EXPR,
    IF_EXPR,
    BLOCK_EXPR,
    RETURN_EXPR,
    WHILE_EXPR,
    LOOP_EXPR,
    BREAK_EXPR,
    CONDITION,
    BIND_PAT,
    PLACEHOLDER_PAT,
    ARG_LIST,
    NAME,
    NAME_REF,
    PATH,
    PATH_SEGMENT,
}

impl SyntaxKind {
    /// Whether a token of this kind is whitespace or a comment.
    pub open spec fn trivia(self) -> bool {
        self == SyntaxKind::WHITESPACE || self == SyntaxKind::COMMENT
    }

    /// Whether this kind is one of the reserved words.
    pub open spec fn keyword(self) -> bool {
        self == SyntaxKind::BREAK_KW || self == SyntaxKind::ELSE_KW || self == SyntaxKind::FALSE_KW
            || self == SyntaxKind::FN_KW || self == SyntaxKind::IF_KW || self
            == SyntaxKind::LET_KW || self == SyntaxKind::LOOP_KW || self == SyntaxKind::NEVER_KW
            || self == SyntaxKind::PUB_KW || self == SyntaxKind::RETURN_KW || self
            == SyntaxKind::STRUCT_KW || self == SyntaxKind::TRUE_KW || self
            == SyntaxKind::WHILE_KW
    }

    /// Whether this kind is a number or a string literal.
    pub open spec fn literal(self) -> bool {
        self == SyntaxKind::INT_NUMBER || self == SyntaxKind::FLOAT_NUMBER || self
            == SyntaxKind::STRING
    }

    /// Returns whether a token of this kind is whitespace or a comment.
    pub fn is_trivia(self) -> (r: bool)
        ensures
            r == self.trivia(),
    {
        match self {
            SyntaxKind::WHITESPACE | SyntaxKind::COMMENT => true,
            _ => false,
        }
    }

    /// Returns whether this kind is one of the reserved words.
    pub fn is_keyword(self) -> (r: bool)
        ensures
            r == self.keyword(),
    {
        match self {
            SyntaxKind::BREAK_KW
            | SyntaxKind::ELSE_KW
            | SyntaxKind::FALSE_KW
            | SyntaxKind::FN_KW
            | SyntaxKind::IF_KW
            | SyntaxKind::LET_KW
            | SyntaxKind::LOOP_KW
            | SyntaxKind::NEVER_KW
            | SyntaxKind::PUB_KW
            | SyntaxKind::RETURN_KW
            | SyntaxKind::STRUCT_KW
            | SyntaxKind::TRUE_KW
            | SyntaxKind::WHILE_KW => true,
            _ => false,
        }
    }

    /// Returns whether this kind is a number or a string literal.
    pub fn is_literal(self) -> (r: bool)
        ensures
            r == self.literal(),
    {
        match self {
            SyntaxKind::INT_NUMBER | SyntaxKind::FLOAT_NUMBER | SyntaxKind::STRING => true,
            _ => false,
        }
    }
}

} // verus!
