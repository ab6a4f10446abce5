//! What the typed views tell beyond their children by kind: operators,
//! operands, branches and the kinds of literals.

use crate::ast::nodes::{BinExpr, BlockExpr, Expr, IfExpr, Literal, Name, NameRef, PrefixExpr};
use crate::ast::{child_opt, is_first_child, AstNode};
use crate::syntax_kind::SyntaxKind;
use crate::syntax_node::Cursor;
use vstd::prelude::*;

verus! {

/// The `n`-th of `nodes`, from position `from` on and counted from zero,
/// that `C` accepts.
pub open spec fn nth_castable<C: AstNode>(nodes: Seq<Cursor>, from: int, n: nat) -> Option<Cursor>
    decreases nodes.len() - from,
{
    if from < 0 || from >= nodes.len() {
        None
    } else if C::castable(nodes[from].kind()) {
        if n == 0 {
            Some(nodes[from])
        } else {
            nth_castable::<C>(nodes, from + 1, (n - 1) as nat)
        }
    } else {
        nth_castable::<C>(nodes, from + 1, n)
    }
}

/// Whether `found` is the view of the `n`-th child node of `parent` that `C`
/// accepts; none where `parent` has no such child.
pub open spec fn is_nth_child<C: AstNode>(parent: Cursor, n: nat, found: Option<C>) -> bool {
    match nth_castable::<C>(parent.child_nodes(), 0, n) {
        Some(c) => found matches Some(x) && x.node() == c,
        None => found is None,
    }
}

/// The `n`-th child node of `parent`, counted from zero, that can be viewed
/// as `C`.
pub fn child_nth<P: AstNode, C: AstNode>(parent: &P, n: usize) -> (r: Option<C>)
    ensures
        is_nth_child::<C>(parent.node(), n as nat, r),
{
    let kids = parent.syntax().children();
    let ghost nodes = parent.node().child_nodes();
    let mut left = n;
    let mut i: usize = 0;
    while i < kids.len()
        invariant
            i <= kids.len(),
            kids@.len() == nodes.len(),
            forall|j: int| 0 <= j < kids@.len() ==> (#[trigger] kids@[j])@ == nodes[j],
            nodes == parent.node().child_nodes(),
            nth_castable::<C>(nodes, 0, n as nat) == nth_castable::<C>(
                nodes,
                i as int,
                left as nat,
            ),
        decreases kids.len() - i,
    {
        assert(kids@[i as int]@ == nodes[i as int]);
        let found = C::cast(kids[i].clone());
        if found.is_some() {
            if left == 0 {
                return found;
            }
            left = left - 1;
        }
        i = i + 1;
    }
    None
}

/// The operators that stand between two operands.
#[derive(Clone, Copy, Debug, PartialEq, Eq, Structural, Hash)]
pub enum BinOp {
    Add,
    Subtract,
    Multiply,
    Divide,
    Remainder,
    Equals,
    NotEquals,
    Less,
    LessOrEqual,
    Greater,
    GreaterOrEqual,
    And,
    Or,
    Assign,
    AddAssign,
    SubtractAssign,
    MultiplyAssign,
    DivideAssign,
}

/// The operators that stand in front of their operand.
#[derive(Clone, Copy, Debug, PartialEq, Eq, Structural, Hash)]
pub enum PrefixOp {
    /// `-`
    Neg,
    /// `!`
    Not,
    /// `*`
    Deref,
}

/// The kinds of literal.
#[derive(Clone, Copy, Debug, PartialEq, Eq, Structural, Hash)]
pub enum LiteralKind {
    Int,
    Float,
    String,
    Bool(bool),
}

/// The binary operator that a token of `kind` spells.
pub open spec fn bin_op_of(kind: SyntaxKind) -> Option<BinOp> {
    match kind {
        SyntaxKind::PLUS => Some(BinOp::Add),
        SyntaxKind::MINUS => Some(BinOp::Subtract),
        SyntaxKind::STAR => Some(BinOp::Multiply),
        SyntaxKind::SLASH => Some(BinOp::Divide),
        SyntaxKind::PERCENT => Some(BinOp::Remainder),
        SyntaxKind::EQEQ => Some(BinOp::Equals),
        SyntaxKind::NEQ => Some(BinOp::NotEquals),
        SyntaxKind::LT => Some(BinOp::Less),
        SyntaxKind::LTEQ => Some(BinOp::LessOrEqual),
        SyntaxKind::GT => Some(BinOp::Greater),
        SyntaxKind::GTEQ => Some(BinOp::GreaterOrEqual),
        SyntaxKind::AMPAMP => Some(BinOp::And),
        SyntaxKind::PIPEPIPE => Some(BinOp::Or),
        SyntaxKind::EQ => Some(BinOp::Assign),
        SyntaxKind::PLUSEQ => Some(BinOp::AddAssign),
        SyntaxKind::MINUSEQ => Some(BinOp::SubtractAssign),
        SyntaxKind::STAREQ => Some(BinOp::MultiplyAssign),
        SyntaxKind::SLASHEQ => Some(BinOp::DivideAssign),
        _ => None,
    }
}

/// The prefix operator that a token of `kind` spells.
pub open spec fn prefix_op_of(kind: SyntaxKind) -> Option<PrefixOp> {
    match kind {
        SyntaxKind::MINUS => Some(PrefixOp::Neg),
        SyntaxKind::EXCLAMATION => Some(PrefixOp::Not),
        SyntaxKind::STAR => Some(PrefixOp::Deref),
        _ => None,
    }
}

/// The kind of literal that a token of `kind` is.
pub open spec fn literal_kind_of(kind: SyntaxKind) -> Option<LiteralKind> {
    match kind {
        SyntaxKind::INT_NUMBER => Some(LiteralKind::Int),
        SyntaxKind::FLOAT_NUMBER => Some(LiteralKind::Float),
        SyntaxKind::STRING => Some(LiteralKind::String),
        SyntaxKind::TRUE_KW => Some(LiteralKind::Bool(true)),
        SyntaxKind::FALSE_KW => Some(LiteralKind::Bool(false)),
        _ => None,
    }
}

/// What `read` makes of the first of `tokens`, from position `from` on, of
/// which it makes anything.
pub open spec fn first_read<T>(
    tokens: Seq<Cursor>,
    read: spec_fn(SyntaxKind) -> Option<T>,
    from: int,
) -> Option<T>
    decreases tokens.len() - from,
{
    if from < 0 || from >= tokens.len() {
        None
    } else if read(tokens[from].kind()) is Some {
        read(tokens[from].kind())
    } else {
        first_read(tokens, read, from + 1)
    }
}

/// The binary operator that a token of `kind` spells.
pub fn bin_op(kind: SyntaxKind) -> (r: Option<BinOp>)
    ensures
        r == bin_op_of(kind),
{
    match kind {
        SyntaxKind::PLUS => Some(BinOp::Add),
        SyntaxKind::MINUS => Some(BinOp::Subtract),
        SyntaxKind::STAR => Some(BinOp::Multiply),
        SyntaxKind::SLASH => Some(BinOp::Divide),
        SyntaxKind::PERCENT => Some(BinOp::Remainder),
        SyntaxKind::EQEQ => Some(BinOp::Equals),
        SyntaxKind::NEQ => Some(BinOp::NotEquals),
        SyntaxKind::LT => Some(BinOp::Less),
        SyntaxKind::LTEQ => Some(BinOp::LessOrEqual),
        SyntaxKind::GT => Some(BinOp::Greater),
        SyntaxKind::GTEQ => Some(BinOp::GreaterOrEqual),
        SyntaxKind::AMPAMP => Some(BinOp::And),
        SyntaxKind::PIPEPIPE => Some(BinOp::Or),
        SyntaxKind::EQ => Some(BinOp::Assign),
        SyntaxKind::PLUSEQ => Some(BinOp::AddAssign),
        SyntaxKind::MINUSEQ => Some(BinOp::SubtractAssign),
        SyntaxKind::STAREQ => Some(BinOp::MultiplyAssign),
        SyntaxKind::SLASHEQ => Some(BinOp::DivideAssign),
        _ => None,
    }
}

/// The prefix operator that a token of `kind` spells.
pub fn prefix_op(kind: SyntaxKind) -> (r: Option<PrefixOp>)
    ensures
        r == prefix_op_of(kind),
{
    match kind {
        SyntaxKind::MINUS => Some(PrefixOp::Neg),
        SyntaxKind::EXCLAMATION => Some(PrefixOp::Not),
        SyntaxKind::STAR => Some(PrefixOp::Deref),
        _ => None,
    }
}

/// The kind of literal that a token of `kind` is.
pub fn literal_kind(kind: SyntaxKind) -> (r: Option<LiteralKind>)
    ensures
        r == literal_kind_of(kind),
{
    match kind {
        SyntaxKind::INT_NUMBER => Some(LiteralKind::Int),
        SyntaxKind::FLOAT_NUMBER => Some(LiteralKind::Float),
        SyntaxKind::STRING => Some(LiteralKind::String),
        SyntaxKind::TRUE_KW => Some(LiteralKind::Bool(true)),
        SyntaxKind::FALSE_KW => Some(LiteralKind::Bool(false)),
        _ => None,
    }
}

impl BinExpr {
    /// The operand to the left of the operator.
    pub fn lhs(&self) -> (r: Option<Expr>)
        ensures
            is_nth_child::<Expr>(self.node(), 0, r),
    {
        child_nth(self, 0)
    }

    /// The operand to the right of the operator.
    pub fn rhs(&self) -> (r: Option<Expr>)
        ensures
            is_nth_child::<Expr>(self.node(), 1, r),
    {
        child_nth(self, 1)
    }

    /// The operator: what the first token that spells one spells.
    pub fn op_kind(&self) -> (r: Option<BinOp>)
        ensures
            r == first_read(self.node().child_tokens(), |k: SyntaxKind| bin_op_of(k), 0),
    {
        let tokens = self.syntax().tokens();
        let ghost cursors = self.node().child_tokens();
        let ghost read = |k: SyntaxKind| bin_op_of(k);
        let mut i: usize = 0;
        while i < tokens.len()
            invariant
                i <= tokens@.len(),
                tokens@.len() == cursors.len(),
                cursors == self.node().child_tokens(),
                forall|j: int| 0 <= j < tokens@.len() ==> (#[trigger] tokens@[j]).is_at(cursors[j]),
                read == (|k: SyntaxKind| bin_op_of(k)),
                first_read(cursors, read, 0) == first_read(cursors, read, i as int),
            decreases tokens.len() - i,
        {
            assert(tokens@[i as int].is_at(cursors[i as int]));
            let op = bin_op(tokens[i].kind);
            if op.is_some() {
                return op;
            }
            i = i + 1;
        }
        None
    }
}

impl PrefixExpr {
    /// The operator: what the first token that spells one spells.
    pub fn op_kind(&self) -> (r: Option<PrefixOp>)
        ensures
            r == first_read(self.node().child_tokens(), |k: SyntaxKind| prefix_op_of(k), 0),
    {
        let tokens = self.syntax().tokens();
        let ghost cursors = self.node().child_tokens();
        let ghost read = |k: SyntaxKind| prefix_op_of(k);
        let mut i: usize = 0;
        while i < tokens.len()
            invariant
                i <= tokens@.len(),
                tokens@.len() == cursors.len(),
                cursors == self.node().child_tokens(),
                forall|j: int| 0 <= j < tokens@.len() ==> (#[trigger] tokens@[j]).is_at(cursors[j]),
                read == (|k: SyntaxKind| prefix_op_of(k)),
                first_read(cursors, read, 0) == first_read(cursors, read, i as int),
            decreases tokens.len() - i,
        {
            assert(tokens@[i as int].is_at(cursors[i as int]));
            let op = prefix_op(tokens[i].kind);
            if op.is_some() {
                return op;
            }
            i = i + 1;
        }
        None
    }
}

impl Literal {
    /// The kind of the literal: what the first token that is one is.
    pub fn kind(&self) -> (r: Option<LiteralKind>)
        ensures
            r == first_read(self.node().child_tokens(), |k: SyntaxKind| literal_kind_of(k), 0),
    {
        let tokens = self.syntax().tokens();
        let ghost cursors = self.node().child_tokens();
        let ghost read = |k: SyntaxKind| literal_kind_of(k);
        let mut i: usize = 0;
        while i < tokens.len()
            invariant
                i <= tokens@.len(),
                tokens@.len() == cursors.len(),
                cursors == self.node().child_tokens(),
                forall|j: int| 0 <= j < tokens@.len() ==> (#[trigger] tokens@[j]).is_at(cursors[j]),
                read == (|k: SyntaxKind| literal_kind_of(k)),
                first_read(cursors, read, 0) == first_read(cursors, read, i as int),
            decreases tokens.len() - i,
        {
            assert(tokens@[i as int].is_at(cursors[i as int]));
            let kind = literal_kind(tokens[i].kind);
            if kind.is_some() {
                return kind;
            }
            i = i + 1;
        }
        None
    }
}

impl IfExpr {
    /// The block that is run where the condition holds.
    pub fn then_branch(&self) -> (r: Option<BlockExpr>)
        ensures
            is_first_child::<BlockExpr>(self.node(), r),
    {
        child_opt(self)
    }

    /// What is run where the condition does not hold: a block, or another
    /// `if`.
    pub fn else_branch(&self) -> (r: Option<Expr>)
        ensures
            is_nth_child::<Expr>(self.node(), 1, r),
    {
        child_nth(self, 1)
    }
}

impl Name {
    /// The name as it stands in the text.
    pub fn text(&self) -> (r: Vec<u8>)
        ensures
            r@ == self.node().green.text(),
    {
        self.syntax().text()
    }
}

impl NameRef {
    /// The name as it stands in the text.
    pub fn text(&self) -> (r: Vec<u8>)
        ensures
            r@ == self.node().green.text(),
    {
        self.syntax().text()
    }
}

} // verus!
