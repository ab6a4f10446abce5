//! One typed view for each production of the grammar.

use crate::ast::traits::{
    ArgListOwner, DocCommentsOwner, FunctionDefOwner, LoopBodyOwner, ModuleItemOwner, NameOwner,
    TypeAscriptionOwner, VisibilityOwner,
};
use crate::ast::{are_children, child_opt, children, is_first_child, AstNode};
use crate::syntax_kind::SyntaxKind;
use crate::syntax_node::{Cursor, SyntaxNode};
use vstd::pervasive::unreached;
use vstd::prelude::*;

verus! {

// ArgList

/// The arguments of a call, between parentheses.
#[derive(Debug, PartialEq, Eq, Hash)]
pub struct ArgList {
    pub(crate) syntax: SyntaxNode,
}

impl ArgList {
    #[verifier::type_invariant]
    spec fn well_formed(self) -> bool {
        Self::castable(self.syntax@.kind())
    }
}

impl Clone for ArgList {
    fn clone(&self) -> (r: Self)
        ensures
            r == *self,
    {
        proof {
            use_type_invariant(self);
        }
        ArgList { syntax: self.syntax.clone() }
    }
}

impl AstNode for ArgList {
    open spec fn castable(kind: SyntaxKind) -> bool {
        kind == SyntaxKind::ARG_LIST
    }

    closed spec fn node(&self) -> Cursor {
        self.syntax@
    }

    fn can_cast(kind: SyntaxKind) -> bool {
        match kind {
            SyntaxKind::ARG_LIST => true,
            _ => false,
        }
    }

    fn cast(syntax: SyntaxNode) -> Option<Self> {
        if Self::can_cast(syntax.kind()) {
            Some(ArgList { syntax })
        } else {
            None
        }
    }

    fn syntax(&self) -> &SyntaxNode {
        proof {
            use_type_invariant(self);
        }
        &self.syntax
    }
}

impl ArgList {
    /// The arguments, in source order.
    pub fn args(&self) -> (r: Vec<Expr>)
        ensures
            are_children::<Expr>(self.node(), r@),
    {
        children(self)
    }
}

// BinExpr

/// Two operands with an operator between them.
#[derive(Debug, PartialEq, Eq, Hash)]
pub struct BinExpr {
    pub(crate) syntax: SyntaxNode,
}

impl BinExpr {
    #[verifier::type_invariant]
    spec fn well_formed(self) -> bool {
        Self::castable(self.syntax@.kind())
    }
}

impl Clone for BinExpr {
    fn clone(&self) -> (r: Self)
        ensures
            r == *self,
    {
        proof {
            use_type_invariant(self);
        }
        BinExpr { syntax: self.syntax.clone() }
    }
}

impl AstNode for BinExpr {
    open spec fn castable(kind: SyntaxKind) -> bool {
        kind == SyntaxKind::BIN_EXPR
    }

    closed spec fn node(&self) -> Cursor {
        self.syntax@
    }

    fn can_cast(kind: SyntaxKind) -> bool {
        match kind {
            SyntaxKind::BIN_EXPR => true,
            _ => false,
        }
    }

    fn cast(syntax: SyntaxNode) -> Option<Self> {
        if Self::can_cast(syntax.kind()) {
            Some(BinExpr { syntax })
        } else {
            None
        }
    }

    fn syntax(&self) -> &SyntaxNode {
        proof {
            use_type_invariant(self);
        }
        &self.syntax
    }
}

// BindPat

/// A pattern that binds a name.
#[derive(Debug, PartialEq, Eq, Hash)]
pub struct BindPat {
    pub(crate) syntax: SyntaxNode,
}

impl BindPat {
    #[verifier::type_invariant]
    spec fn well_formed(self) -> bool {
        Self::castable(self.syntax@.kind())
    }
}

impl Clone for BindPat {
    fn clone(&self) -> (r: Self)
        ensures
            r == *self,
    {
        proof {
            use_type_invariant(self);
        }
        BindPat { syntax: self.syntax.clone() }
    }
}

impl AstNode for BindPat {
    open spec fn castable(kind: SyntaxKind) -> bool {
        kind == SyntaxKind::BIND_PAT
    }

    closed spec fn node(&self) -> Cursor {
        self.syntax@
    }

    fn can_cast(kind: SyntaxKind) -> bool {
        match kind {
            SyntaxKind::BIND_PAT => true,
            _ => false,
        }
    }

    fn cast(syntax: SyntaxNode) -> Option<Self> {
        if Self::can_cast(syntax.kind()) {
            Some(BindPat { syntax })
        } else {
            None
        }
    }

    fn syntax(&self) -> &SyntaxNode {
        proof {
            use_type_invariant(self);
        }
        &self.syntax
    }
}

impl NameOwner for BindPat {
}

impl BindPat {
    /// The pattern nested in this one.
    pub fn pat(&self) -> (r: Option<Pat>)
        ensures
            is_first_child::<Pat>(self.node(), r),
    {
        child_opt(self)
    }
}

// BlockExpr

/// Statements between braces, with an optional last expression.
#[derive(Debug, PartialEq, Eq, Hash)]
pub struct BlockExpr {
    pub(crate) syntax: SyntaxNode,
}

impl BlockExpr {
    #[verifier::type_invariant]
    spec fn well_formed(self) -> bool {
        Self::castable(self.syntax@.kind())
    }
}

impl Clone for BlockExpr {
    fn clone(&self) -> (r: Self)
        ensures
            r == *self,
    {
        proof {
            use_type_invariant(self);
        }
        BlockExpr { syntax: self.syntax.clone() }
    }
}

impl AstNode for BlockExpr {
    open spec fn castable(kind: SyntaxKind) -> bool {
        kind == SyntaxKind::BLOCK_EXPR
    }

    closed spec fn node(&self) -> Cursor {
        self.syntax@
    }

    fn can_cast(kind: SyntaxKind) -> bool {
        match kind {
            SyntaxKind::BLOCK_EXPR => true,
            _ => false,
        }
    }

    fn cast(syntax: SyntaxNode) -> Option<Self> {
        if Self::can_cast(syntax.kind()) {
            Some(BlockExpr { syntax })
        } else {
            None
        }
    }

    fn syntax(&self) -> &SyntaxNode {
        proof {
            use_type_invariant(self);
        }
        &self.syntax
    }
}

impl BlockExpr {
    /// The statements of the block, in source order.
    pub fn statements(&self) -> (r: Vec<Stmt>)
        ensures
            are_children::<Stmt>(self.node(), r@),
    {
        children(self)
    }

    /// The expression that gives the block its value.
    pub fn expr(&self) -> (r: Option<Expr>)
        ensures
            is_first_child::<Expr>(self.node(), r),
    {
        child_opt(self)
    }
}

// BreakExpr

/// A `break`, with an optional value.
#[derive(Debug, PartialEq, Eq, Hash)]
pub struct BreakExpr {
    pub(crate) syntax: SyntaxNode,
}

impl BreakExpr {
    #[verifier::type_invariant]
    spec fn well_formed(self) -> bool {
        Self::castable(self.syntax@.kind())
    }
}

impl Clone for BreakExpr {
    fn clone(&self) -> (r: Self)
        ensures
            r == *self,
    {
        proof {
            use_type_invariant(self);
        }
        BreakExpr { syntax: self.syntax.clone() }
    }
}

impl AstNode for BreakExpr {
    open spec fn castable(kind: SyntaxKind) -> bool {
        kind == SyntaxKind::BREAK_EXPR
    }

    closed spec fn node(&self) -> Cursor {
        self.syntax@
    }

    fn can_cast(kind: SyntaxKind) -> bool {
        match kind {
            SyntaxKind::BREAK_EXPR => true,
            _ => false,
        }
    }

    fn cast(syntax: SyntaxNode) -> Option<Self> {
        if Self::can_cast(syntax.kind()) {
            Some(BreakExpr { syntax })
        } else {
            None
        }
    }

    fn syntax(&self) -> &SyntaxNode {
        proof {
            use_type_invariant(self);
        }
        &self.syntax
    }
}

impl BreakExpr {
    /// The value handed out of the loop.
    pub fn expr(&self) -> (r: Option<Expr>)
        ensures
            is_first_child::<Expr>(self.node(), r),
    {
        child_opt(self)
    }
}

// CallExpr

/// A call: the callee followed by its arguments.
#[derive(Debug, PartialEq, Eq, Hash)]
pub struct CallExpr {
    pub(crate) syntax: SyntaxNode,
}

impl CallExpr {
    #[verifier::type_invariant]
    spec fn well_formed(self) -> bool {
        Self::castable(self.syntax@.kind())
    }
}

impl Clone for CallExpr {
    fn clone(&self) -> (r: Self)
        ensures
            r == *self,
    {
        proof {
            use_type_invariant(self);
        }
        CallExpr { syntax: self.syntax.clone() }
    }
}

impl AstNode for CallExpr {
    open spec fn castable(kind: SyntaxKind) -> bool {
        kind == SyntaxKind::CALL_EXPR
    }

    closed spec fn node(&self) -> Cursor {
        self.syntax@
    }

    fn can_cast(kind: SyntaxKind) -> bool {
        match kind {
            SyntaxKind::CALL_EXPR => true,
            _ => false,
        }
    }

    fn cast(syntax: SyntaxNode) -> Option<Self> {
        if Self::can_cast(syntax.kind()) {
            Some(CallExpr { syntax })
        } else {
            None
        }
    }

    fn syntax(&self) -> &SyntaxNode {
        proof {
            use_type_invariant(self);
        }
        &self.syntax
    }
}

impl ArgListOwner for CallExpr {
}

impl CallExpr {
    /// The expression that is called.
    pub fn expr(&self) -> (r: Option<Expr>)
        ensures
            is_first_child::<Expr>(self.node(), r),
    {
        child_opt(self)
    }
}

// Condition

/// The condition of an `if` or a `while`.
#[derive(Debug, PartialEq, Eq, Hash)]
pub struct Condition {
    pub(crate) syntax: SyntaxNode,
}

impl Condition {
    #[verifier::type_invariant]
    spec fn well_formed(self) -> bool {
        Self::castable(self.syntax@.kind())
    }
}

impl Clone for Condition {
    fn clone(&self) -> (r: Self)
        ensures
            r == *self,
    {
        proof {
            use_type_invariant(self);
        }
        Condition { syntax: self.syntax.clone() }
    }
}

impl AstNode for Condition {
    open spec fn castable(kind: SyntaxKind) -> bool {
        kind == SyntaxKind::CONDITION
    }

    closed spec fn node(&self) -> Cursor {
        self.syntax@
    }

    fn can_cast(kind: SyntaxKind) -> bool {
        match kind {
            SyntaxKind::CONDITION => true,
            _ => false,
        }
    }

    fn cast(syntax: SyntaxNode) -> Option<Self> {
        if Self::can_cast(syntax.kind()) {
            Some(Condition { syntax })
        } else {
            None
        }
    }

    fn syntax(&self) -> &SyntaxNode {
        proof {
            use_type_invariant(self);
        }
        &self.syntax
    }
}

impl Condition {
    /// The pattern of the condition.
    pub fn pat(&self) -> (r: Option<Pat>)
        ensures
            is_first_child::<Pat>(self.node(), r),
    {
        child_opt(self)
    }

    /// The expression that is tested.
    pub fn expr(&self) -> (r: Option<Expr>)
        ensures
            is_first_child::<Expr>(self.node(), r),
    {
        child_opt(self)
    }
}

// Expr

/// Any expression.
#[derive(Debug, PartialEq, Eq, Hash)]
pub struct Expr {
    pub(crate) syntax: SyntaxNode,
}

impl Expr {
    #[verifier::type_invariant]
    spec fn well_formed(self) -> bool {
        Self::castable(self.syntax@.kind())
    }
}

impl Clone for Expr {
    fn clone(&self) -> (r: Self)
        ensures
            r == *self,
    {
        proof {
            use_type_invariant(self);
        }
        Expr { syntax: self.syntax.clone() }
    }
}

impl AstNode for Expr {
    open spec fn castable(kind: SyntaxKind) -> bool {
        kind == SyntaxKind::LITERAL
            || kind == SyntaxKind::PREFIX_EXPR
            || kind == SyntaxKind::PATH_EXPR
            || kind == SyntaxKind::BIN_EXPR
            || kind == SyntaxKind::PAREN_EXPR
            || kind == SyntaxKind::CALL_EXPR
            || kind == SyntaxKind::IF_EXPR
            || kind == SyntaxKind::LOOP_EXPR
            || kind == SyntaxKind::WHILE_EXPR
            || kind == SyntaxKind::RETURN_EXPR
            || kind == SyntaxKind::BREAK_EXPR
            || kind == SyntaxKind::BLOCK_EXPR
    }

    closed spec fn node(&self) -> Cursor {
        self.syntax@
    }

    fn can_cast(kind: SyntaxKind) -> bool {
        match kind {
            SyntaxKind::LITERAL
            | SyntaxKind::PREFIX_EXPR
            | SyntaxKind::PATH_EXPR
            | SyntaxKind::BIN_EXPR
            | SyntaxKind::PAREN_EXPR
            | SyntaxKind::CALL_EXPR
            | SyntaxKind::IF_EXPR
            | SyntaxKind::LOOP_EXPR
            | SyntaxKind::WHILE_EXPR
            | SyntaxKind::RETURN_EXPR
            | SyntaxKind::BREAK_EXPR
            | SyntaxKind::BLOCK_EXPR => true,
            _ => false,
        }
    }

    fn cast(syntax: SyntaxNode) -> Option<Self> {
        if Self::can_cast(syntax.kind()) {
            Some(Expr { syntax })
        } else {
            None
        }
    }

    fn syntax(&self) -> &SyntaxNode {
        proof {
            use_type_invariant(self);
        }
        &self.syntax
    }
}

/// The alternatives of [`Expr`].
#[derive(Debug, Clone, PartialEq, Eq)]
pub enum ExprKind {
    Literal(Literal),
    PrefixExpr(PrefixExpr),
    PathExpr(PathExpr),
    BinExpr(BinExpr),
    ParenExpr(ParenExpr),
    CallExpr(CallExpr),
    IfExpr(IfExpr),
    LoopExpr(LoopExpr),
    WhileExpr(WhileExpr),
    ReturnExpr(ReturnExpr),
    BreakExpr(BreakExpr),
    BlockExpr(BlockExpr),
}

impl ExprKind {
    /// The node under the view that the alternative holds.
    pub open spec fn node(self) -> Cursor {
        match self {
            ExprKind::Literal(n) => n.node(),
            ExprKind::PrefixExpr(n) => n.node(),
            ExprKind::PathExpr(n) => n.node(),
            ExprKind::BinExpr(n) => n.node(),
            ExprKind::ParenExpr(n) => n.node(),
            ExprKind::CallExpr(n) => n.node(),
            ExprKind::IfExpr(n) => n.node(),
            ExprKind::LoopExpr(n) => n.node(),
            ExprKind::WhileExpr(n) => n.node(),
            ExprKind::ReturnExpr(n) => n.node(),
            ExprKind::BreakExpr(n) => n.node(),
            ExprKind::BlockExpr(n) => n.node(),
        }
    }

    /// The kind of node that the alternative stands for.
    pub open spec fn tag(self) -> SyntaxKind {
        match self {
            ExprKind::Literal(_) => SyntaxKind::LITERAL,
            ExprKind::PrefixExpr(_) => SyntaxKind::PREFIX_EXPR,
            ExprKind::PathExpr(_) => SyntaxKind::PATH_EXPR,
            ExprKind::BinExpr(_) => SyntaxKind::BIN_EXPR,
            ExprKind::ParenExpr(_) => SyntaxKind::PAREN_EXPR,
            ExprKind::CallExpr(_) => SyntaxKind::CALL_EXPR,
            ExprKind::IfExpr(_) => SyntaxKind::IF_EXPR,
            ExprKind::LoopExpr(_) => SyntaxKind::LOOP_EXPR,
            ExprKind::WhileExpr(_) => SyntaxKind::WHILE_EXPR,
            ExprKind::ReturnExpr(_) => SyntaxKind::RETURN_EXPR,
            ExprKind::BreakExpr(_) => SyntaxKind::BREAK_EXPR,
            ExprKind::BlockExpr(_) => SyntaxKind::BLOCK_EXPR,
        }
    }
}

impl From<Literal> for Expr {
    fn from(n: Literal) -> (r: Expr)
        ensures
            r.node() == n.node(),
    {
        proof {
            use_type_invariant(&n);
        }
        Expr { syntax: n.syntax }
    }
}

impl vstd::std_specs::convert::FromSpecImpl<Literal> for Expr {
    open spec fn obeys_from_spec() -> bool {
        true
    }

    closed spec fn from_spec(n: Literal) -> Expr {
        Expr { syntax: n.syntax }
    }
}

impl From<PrefixExpr> for Expr {
    fn from(n: PrefixExpr) -> (r: Expr)
        ensures
            r.node() == n.node(),
    {
        proof {
            use_type_invariant(&n);
        }
        Expr { syntax: n.syntax }
    }
}

impl vstd::std_specs::convert::FromSpecImpl<PrefixExpr> for Expr {
    open spec fn obeys_from_spec() -> bool {
        true
    }

    closed spec fn from_spec(n: PrefixExpr) -> Expr {
        Expr { syntax: n.syntax }
    }
}

impl From<PathExpr> for Expr {
    fn from(n: PathExpr) -> (r: Expr)
        ensures
            r.node() == n.node(),
    {
        proof {
            use_type_invariant(&n);
        }
        Expr { syntax: n.syntax }
    }
}

impl vstd::std_specs::convert::FromSpecImpl<PathExpr> for Expr {
    open spec fn obeys_from_spec() -> bool {
        true
    }

    closed spec fn from_spec(n: PathExpr) -> Expr {
        Expr { syntax: n.syntax }
    }
}

impl From<BinExpr> for Expr {
    fn from(n: BinExpr) -> (r: Expr)
        ensures
            r.node() == n.node(),
    {
        proof {
            use_type_invariant(&n);
        }
        Expr { syntax: n.syntax }
    }
}

impl vstd::std_specs::convert::FromSpecImpl<BinExpr> for Expr {
    open spec fn obeys_from_spec() -> bool {
        true
    }

    closed spec fn from_spec(n: BinExpr) -> Expr {
        Expr { syntax: n.syntax }
    }
}

impl From<ParenExpr> for Expr {
    fn from(n: ParenExpr) -> (r: Expr)
        ensures
            r.node() == n.node(),
    {
        proof {
            use_type_invariant(&n);
        }
        Expr { syntax: n.syntax }
    }
}

impl vstd::std_specs::convert::FromSpecImpl<ParenExpr> for Expr {
    open spec fn obeys_from_spec() -> bool {
        true
    }

    closed spec fn from_spec(n: ParenExpr) -> Expr {
        Expr { syntax: n.syntax }
    }
}

impl From<CallExpr> for Expr {
    fn from(n: CallExpr) -> (r: Expr)
        ensures
            r.node() == n.node(),
    {
        proof {
            use_type_invariant(&n);
        }
        Expr { syntax: n.syntax }
    }
}

impl vstd::std_specs::convert::FromSpecImpl<CallExpr> for Expr {
    open spec fn obeys_from_spec() -> bool {
        true
    }

    closed spec fn from_spec(n: CallExpr) -> Expr {
        Expr { syntax: n.syntax }
    }
}

impl From<IfExpr> for Expr {
    fn from(n: IfExpr) -> (r: Expr)
        ensures
            r.node() == n.node(),
    {
        proof {
            use_type_invariant(&n);
        }
        Expr { syntax: n.syntax }
    }
}

impl vstd::std_specs::convert::FromSpecImpl<IfExpr> for Expr {
    open spec fn obeys_from_spec() -> bool {
        true
    }

    closed spec fn from_spec(n: IfExpr) -> Expr {
        Expr { syntax: n.syntax }
    }
}

impl From<LoopExpr> for Expr {
    fn from(n: LoopExpr) -> (r: Expr)
        ensures
            r.node() == n.node(),
    {
        proof {
            use_type_invariant(&n);
        }
        Expr { syntax: n.syntax }
    }
}

impl vstd::std_specs::convert::FromSpecImpl<LoopExpr> for Expr {
    open spec fn obeys_from_spec() -> bool {
        true
    }

    closed spec fn from_spec(n: LoopExpr) -> Expr {
        Expr { syntax: n.syntax }
    }
}

impl From<WhileExpr> for Expr {
    fn from(n: WhileExpr) -> (r: Expr)
        ensures
            r.node() == n.node(),
    {
        proof {
            use_type_invariant(&n);
        }
        Expr { syntax: n.syntax }
    }
}

impl vstd::std_specs::convert::FromSpecImpl<WhileExpr> for Expr {
    open spec fn obeys_from_spec() -> bool {
        true
    }

    closed spec fn from_spec(n: WhileExpr) -> Expr {
        Expr { syntax: n.syntax }
    }
}

impl From<ReturnExpr> for Expr {
    fn from(n: ReturnExpr) -> (r: Expr)
        ensures
            r.node() == n.node(),
    {
        proof {
            use_type_invariant(&n);
        }
        Expr { syntax: n.syntax }
    }
}

impl vstd::std_specs::convert::FromSpecImpl<ReturnExpr> for Expr {
    open spec fn obeys_from_spec() -> bool {
        true
    }

    closed spec fn from_spec(n: ReturnExpr) -> Expr {
        Expr { syntax: n.syntax }
    }
}

impl From<BreakExpr> for Expr {
    fn from(n: BreakExpr) -> (r: Expr)
        ensures
            r.node() == n.node(),
    {
        proof {
            use_type_invariant(&n);
        }
        Expr { syntax: n.syntax }
    }
}

impl vstd::std_specs::convert::FromSpecImpl<BreakExpr> for Expr {
    open spec fn obeys_from_spec() -> bool {
        true
    }

    closed spec fn from_spec(n: BreakExpr) -> Expr {
        Expr { syntax: n.syntax }
    }
}

impl From<BlockExpr> for Expr {
    fn from(n: BlockExpr) -> (r: Expr)
        ensures
            r.node() == n.node(),
    {
        proof {
            use_type_invariant(&n);
        }
        Expr { syntax: n.syntax }
    }
}

impl vstd::std_specs::convert::FromSpecImpl<BlockExpr> for Expr {
    open spec fn obeys_from_spec() -> bool {
        true
    }

    closed spec fn from_spec(n: BlockExpr) -> Expr {
        Expr { syntax: n.syntax }
    }
}

impl Expr {
    /// Tells the alternatives apart: the view of the same node as the
    /// one type among them that accepts its kind.
    pub fn kind(&self) -> (r: ExprKind)
        ensures
            r.node() == self.node(),
            r.tag() == self.node().kind(),
    {
        proof {
            use_type_invariant(self);
        }
        match self.syntax.kind() {
            SyntaxKind::LITERAL => ExprKind::Literal(Literal::cast(self.syntax.clone()).unwrap()),
            SyntaxKind::PREFIX_EXPR => {
                ExprKind::PrefixExpr(PrefixExpr::cast(self.syntax.clone()).unwrap())
            },
            SyntaxKind::PATH_EXPR => {
                ExprKind::PathExpr(PathExpr::cast(self.syntax.clone()).unwrap())
            },
            SyntaxKind::BIN_EXPR => ExprKind::BinExpr(BinExpr::cast(self.syntax.clone()).unwrap()),
            SyntaxKind::PAREN_EXPR => {
                ExprKind::ParenExpr(ParenExpr::cast(self.syntax.clone()).unwrap())
            },
            SyntaxKind::CALL_EXPR => {
                ExprKind::CallExpr(CallExpr::cast(self.syntax.clone()).unwrap())
            },
            SyntaxKind::IF_EXPR => ExprKind::IfExpr(IfExpr::cast(self.syntax.clone()).unwrap()),
            SyntaxKind::LOOP_EXPR => {
                ExprKind::LoopExpr(LoopExpr::cast(self.syntax.clone()).unwrap())
            },
            SyntaxKind::WHILE_EXPR => {
                ExprKind::WhileExpr(WhileExpr::cast(self.syntax.clone()).unwrap())
            },
            SyntaxKind::RETURN_EXPR => {
                ExprKind::ReturnExpr(ReturnExpr::cast(self.syntax.clone()).unwrap())
            },
            SyntaxKind::BREAK_EXPR => {
                ExprKind::BreakExpr(BreakExpr::cast(self.syntax.clone()).unwrap())
            },
            SyntaxKind::BLOCK_EXPR => {
                ExprKind::BlockExpr(BlockExpr::cast(self.syntax.clone()).unwrap())
            },
            _ => unreached(),
        }
    }
}

// ExprStmt

/// An expression in statement position.
#[derive(Debug, PartialEq, Eq, Hash)]
pub struct ExprStmt {
    pub(crate) syntax: SyntaxNode,
}

impl ExprStmt {
    #[verifier::type_invariant]
    spec fn well_formed(self) -> bool {
        Self::castable(self.syntax@.kind())
    }
}

impl Clone for ExprStmt {
    fn clone(&self) -> (r: Self)
        ensures
            r == *self,
    {
        proof {
            use_type_invariant(self);
        }
        ExprStmt { syntax: self.syntax.clone() }
    }
}

impl AstNode for ExprStmt {
    open spec fn castable(kind: SyntaxKind) -> bool {
        kind == SyntaxKind::EXPR_STMT
    }

    closed spec fn node(&self) -> Cursor {
        self.syntax@
    }

    fn can_cast(kind: SyntaxKind) -> bool {
        match kind {
            SyntaxKind::EXPR_STMT => true,
            _ => false,
        }
    }

    fn cast(syntax: SyntaxNode) -> Option<Self> {
        if Self::can_cast(syntax.kind()) {
            Some(ExprStmt { syntax })
        } else {
            None
        }
    }

    fn syntax(&self) -> &SyntaxNode {
        proof {
            use_type_invariant(self);
        }
        &self.syntax
    }
}

impl ExprStmt {
    /// The expression of the statement.
    pub fn expr(&self) -> (r: Option<Expr>)
        ensures
            is_first_child::<Expr>(self.node(), r),
    {
        child_opt(self)
    }
}

// FunctionDef

/// The definition of a function.
#[derive(Debug, PartialEq, Eq, Hash)]
pub struct FunctionDef {
    pub(crate) syntax: SyntaxNode,
}

impl FunctionDef {
    #[verifier::type_invariant]
    spec fn well_formed(self) -> bool {
        Self::castable(self.syntax@.kind())
    }
}

impl Clone for FunctionDef {
    fn clone(&self) -> (r: Self)
        ensures
            r == *self,
    {
        proof {
            use_type_invariant(self);
        }
        FunctionDef { syntax: self.syntax.clone() }
    }
}

impl AstNode for FunctionDef {
    open spec fn castable(kind: SyntaxKind) -> bool {
        kind == SyntaxKind::FUNCTION_DEF
    }

    closed spec fn node(&self) -> Cursor {
        self.syntax@
    }

    fn can_cast(kind: SyntaxKind) -> bool {
        match kind {
            SyntaxKind::FUNCTION_DEF => true,
            _ => false,
        }
    }

    fn cast(syntax: SyntaxNode) -> Option<Self> {
        if Self::can_cast(syntax.kind()) {
            Some(FunctionDef { syntax })
        } else {
            None
        }
    }

    fn syntax(&self) -> &SyntaxNode {
        proof {
            use_type_invariant(self);
        }
        &self.syntax
    }
}

impl NameOwner for FunctionDef {
}

impl VisibilityOwner for FunctionDef {
}

impl DocCommentsOwner for FunctionDef {
}

impl FunctionDef {
    /// The parameters of the function.
    pub fn param_list(&self) -> (r: Option<ParamList>)
        ensures
            is_first_child::<ParamList>(self.node(), r),
    {
        child_opt(self)
    }

    /// The body of the function.
    pub fn body(&self) -> (r: Option<BlockExpr>)
        ensures
            is_first_child::<BlockExpr>(self.node(), r),
    {
        child_opt(self)
    }

    /// The declared return type.
    pub fn ret_type(&self) -> (r: Option<RetType>)
        ensures
            is_first_child::<RetType>(self.node(), r),
    {
        child_opt(self)
    }
}

// IfExpr

/// An `if`, with an optional `else`.
#[derive(Debug, PartialEq, Eq, Hash)]
pub struct IfExpr {
    pub(crate) syntax: SyntaxNode,
}

impl IfExpr {
    #[verifier::type_invariant]
    spec fn well_formed(self) -> bool {
        Self::castable(self.syntax@.kind())
    }
}

impl Clone for IfExpr {
    fn clone(&self) -> (r: Self)
        ensures
            r == *self,
    {
        proof {
            use_type_invariant(self);
        }
        IfExpr { syntax: self.syntax.clone() }
    }
}

impl AstNode for IfExpr {
    open spec fn castable(kind: SyntaxKind) -> bool {
        kind == SyntaxKind::IF_EXPR
    }

    closed spec fn node(&self) -> Cursor {
        self.syntax@
    }

    fn can_cast(kind: SyntaxKind) -> bool {
        match kind {
            SyntaxKind::IF_EXPR => true,
            _ => false,
        }
    }

    fn cast(syntax: SyntaxNode) -> Option<Self> {
        if Self::can_cast(syntax.kind()) {
            Some(IfExpr { syntax })
        } else {
            None
        }
    }

    fn syntax(&self) -> &SyntaxNode {
        proof {
            use_type_invariant(self);
        }
        &self.syntax
    }
}

impl IfExpr {
    /// The condition that picks the branch.
    pub fn condition(&self) -> (r: Option<Condition>)
        ensures
            is_first_child::<Condition>(self.node(), r),
    {
        child_opt(self)
    }
}

// LetStmt

/// A `let` statement.
#[derive(Debug, PartialEq, Eq, Hash)]
pub struct LetStmt {
    pub(crate) syntax: SyntaxNode,
}

impl LetStmt {
    #[verifier::type_invariant]
    spec fn well_formed(self) -> bool {
        Self::castable(self.syntax@.kind())
    }
}

impl Clone for LetStmt {
    fn clone(&self) -> (r: Self)
        ensures
            r == *self,
    {
        proof {
            use_type_invariant(self);
        }
        LetStmt { syntax: self.syntax.clone() }
    }
}

impl AstNode for LetStmt {
    open spec fn castable(kind: SyntaxKind) -> bool {
        kind == SyntaxKind::LET_STMT
    }

    closed spec fn node(&self) -> Cursor {
        self.syntax@
    }

    fn can_cast(kind: SyntaxKind) -> bool {
        match kind {
            SyntaxKind::LET_STMT => true,
            _ => false,
        }
    }

    fn cast(syntax: SyntaxNode) -> Option<Self> {
        if Self::can_cast(syntax.kind()) {
            Some(LetStmt { syntax })
        } else {
            None
        }
    }

    fn syntax(&self) -> &SyntaxNode {
        proof {
            use_type_invariant(self);
        }
        &self.syntax
    }
}

impl TypeAscriptionOwner for LetStmt {
}

impl LetStmt {
    /// The pattern that is bound.
    pub fn pat(&self) -> (r: Option<Pat>)
        ensures
            is_first_child::<Pat>(self.node(), r),
    {
        child_opt(self)
    }

    /// The expression whose value is bound.
    pub fn initializer(&self) -> (r: Option<Expr>)
        ensures
            is_first_child::<Expr>(self.node(), r),
    {
        child_opt(self)
    }
}

// Literal

/// A literal value.
#[derive(Debug, PartialEq, Eq, Hash)]
pub struct Literal {
    pub(crate) syntax: SyntaxNode,
}

impl Literal {
    #[verifier::type_invariant]
    spec fn well_formed(self) -> bool {
        Self::castable(self.syntax@.kind())
    }
}

impl Clone for Literal {
    fn clone(&self) -> (r: Self)
        ensures
            r == *self,
    {
        proof {
            use_type_invariant(self);
        }
        Literal { syntax: self.syntax.clone() }
    }
}

impl AstNode for Literal {
    open spec fn castable(kind: SyntaxKind) -> bool {
        kind == SyntaxKind::LITERAL
    }

    closed spec fn node(&self) -> Cursor {
        self.syntax@
    }

    fn can_cast(kind: SyntaxKind) -> bool {
        match kind {
            SyntaxKind::LITERAL => true,
            _ => false,
        }
    }

    fn cast(syntax: SyntaxNode) -> Option<Self> {
        if Self::can_cast(syntax.kind()) {
            Some(Literal { syntax })
        } else {
            None
        }
    }

    fn syntax(&self) -> &SyntaxNode {
        proof {
            use_type_invariant(self);
        }
        &self.syntax
    }
}

// LoopExpr

/// An endless `loop`.
#[derive(Debug, PartialEq, Eq, Hash)]
pub struct LoopExpr {
    pub(crate) syntax: SyntaxNode,
}

impl LoopExpr {
    #[verifier::type_invariant]
    spec fn well_formed(self) -> bool {
        Self::castable(self.syntax@.kind())
    }
}

impl Clone for LoopExpr {
    fn clone(&self) -> (r: Self)
        ensures
            r == *self,
    {
        proof {
            use_type_invariant(self);
        }
        LoopExpr { syntax: self.syntax.clone() }
    }
}

impl AstNode for LoopExpr {
    open spec fn castable(kind: SyntaxKind) -> bool {
        kind == SyntaxKind::LOOP_EXPR
    }

    closed spec fn node(&self) -> Cursor {
        self.syntax@
    }

    fn can_cast(kind: SyntaxKind) -> bool {
        match kind {
            SyntaxKind::LOOP_EXPR => true,
            _ => false,
        }
    }

    fn cast(syntax: SyntaxNode) -> Option<Self> {
        if Self::can_cast(syntax.kind()) {
            Some(LoopExpr { syntax })
        } else {
            None
        }
    }

    fn syntax(&self) -> &SyntaxNode {
        proof {
            use_type_invariant(self);
        }
        &self.syntax
    }
}

impl LoopBodyOwner for LoopExpr {
}

// ModuleItem

/// Any item at the top level of a file.
#[derive(Debug, PartialEq, Eq, Hash)]
pub struct ModuleItem {
    pub(crate) syntax: SyntaxNode,
}

impl ModuleItem {
    #[verifier::type_invariant]
    spec fn well_formed(self) -> bool {
        Self::castable(self.syntax@.kind())
    }
}

impl Clone for ModuleItem {
    fn clone(&self) -> (r: Self)
        ensures
            r == *self,
    {
        proof {
            use_type_invariant(self);
        }
        ModuleItem { syntax: self.syntax.clone() }
    }
}

impl AstNode for ModuleItem {
    open spec fn castable(kind: SyntaxKind) -> bool {
        kind == SyntaxKind::FUNCTION_DEF
            || kind == SyntaxKind::STRUCT_DEF
    }

    closed spec fn node(&self) -> Cursor {
        self.syntax@
    }

    fn can_cast(kind: SyntaxKind) -> bool {
        match kind {
            SyntaxKind::FUNCTION_DEF
            | SyntaxKind::STRUCT_DEF => true,
            _ => false,
        }
    }

    fn cast(syntax: SyntaxNode) -> Option<Self> {
        if Self::can_cast(syntax.kind()) {
            Some(ModuleItem { syntax })
        } else {
            None
        }
    }

    fn syntax(&self) -> &SyntaxNode {
        proof {
            use_type_invariant(self);
        }
        &self.syntax
    }
}

/// The alternatives of [`ModuleItem`].
#[derive(Debug, Clone, PartialEq, Eq)]
pub enum ModuleItemKind {
    FunctionDef(FunctionDef),
    StructDef(StructDef),
}

impl ModuleItemKind {
    /// The node under the view that the alternative holds.
    pub open spec fn node(self) -> Cursor {
        match self {
            ModuleItemKind::FunctionDef(n) => n.node(),
            ModuleItemKind::StructDef(n) => n.node(),
        }
    }

    /// The kind of node that the alternative stands for.
    pub open spec fn tag(self) -> SyntaxKind {
        match self {
            ModuleItemKind::FunctionDef(_) => SyntaxKind::FUNCTION_DEF,
            ModuleItemKind::StructDef(_) => SyntaxKind::STRUCT_DEF,
        }
    }
}

impl From<FunctionDef> for ModuleItem {
    fn from(n: FunctionDef) -> (r: ModuleItem)
        ensures
            r.node() == n.node(),
    {
        proof {
            use_type_invariant(&n);
        }
        ModuleItem { syntax: n.syntax }
    }
}

impl vstd::std_specs::convert::FromSpecImpl<FunctionDef> for ModuleItem {
    open spec fn obeys_from_spec() -> bool {
        true
    }

    closed spec fn from_spec(n: FunctionDef) -> ModuleItem {
        ModuleItem { syntax: n.syntax }
    }
}

impl From<StructDef> for ModuleItem {
    fn from(n: StructDef) -> (r: ModuleItem)
        ensures
            r.node() == n.node(),
    {
        proof {
            use_type_invariant(&n);
        }
        ModuleItem { syntax: n.syntax }
    }
}

impl vstd::std_specs::convert::FromSpecImpl<StructDef> for ModuleItem {
    open spec fn obeys_from_spec() -> bool {
        true
    }

    closed spec fn from_spec(n: StructDef) -> ModuleItem {
        ModuleItem { syntax: n.syntax }
    }
}

impl ModuleItem {
    /// Tells the alternatives apart: the view of the same node as the
    /// one type among them that accepts its kind.
    pub fn kind(&self) -> (r: ModuleItemKind)
        ensures
            r.node() == self.node(),
            r.tag() == self.node().kind(),
    {
        proof {
            use_type_invariant(self);
        }
        match self.syntax.kind() {
            SyntaxKind::FUNCTION_DEF => {
                ModuleItemKind::FunctionDef(FunctionDef::cast(self.syntax.clone()).unwrap())
            },
            SyntaxKind::STRUCT_DEF => {
                ModuleItemKind::StructDef(StructDef::cast(self.syntax.clone()).unwrap())
            },
            _ => unreached(),
        }
    }
}

// Name

/// A name where it is introduced.
#[derive(Debug, PartialEq, Eq, Hash)]
pub struct Name {
    pub(crate) syntax: SyntaxNode,
}

impl Name {
    #[verifier::type_invariant]
    spec fn well_formed(self) -> bool {
        Self::castable(self.syntax@.kind())
    }
}

impl Clone for Name {
    fn clone(&self) -> (r: Self)
        ensures
            r == *self,
    {
        proof {
            use_type_invariant(self);
        }
        Name { syntax: self.syntax.clone() }
    }
}

impl AstNode for Name {
    open spec fn castable(kind: SyntaxKind) -> bool {
        kind == SyntaxKind::NAME
    }

    closed spec fn node(&self) -> Cursor {
        self.syntax@
    }

    fn can_cast(kind: SyntaxKind) -> bool {
        match kind {
            SyntaxKind::NAME => true,
            _ => false,
        }
    }

    fn cast(syntax: SyntaxNode) -> Option<Self> {
        if Self::can_cast(syntax.kind()) {
            Some(Name { syntax })
        } else {
            None
        }
    }

    fn syntax(&self) -> &SyntaxNode {
        proof {
            use_type_invariant(self);
        }
        &self.syntax
    }
}

// NameRef

/// A name where it is used.
#[derive(Debug, PartialEq, Eq, Hash)]
pub struct NameRef {
    pub(crate) syntax: SyntaxNode,
}

impl NameRef {
    #[verifier::type_invariant]
    spec fn well_formed(self) -> bool {
        Self::castable(self.syntax@.kind())
    }
}

impl Clone for NameRef {
    fn clone(&self) -> (r: Self)
        ensures
            r == *self,
    {
        proof {
            use_type_invariant(self);
        }
        NameRef { syntax: self.syntax.clone() }
    }
}

impl AstNode for NameRef {
    open spec fn castable(kind: SyntaxKind) -> bool {
        kind == SyntaxKind::NAME_REF
    }

    closed spec fn node(&self) -> Cursor {
        self.syntax@
    }

    fn can_cast(kind: SyntaxKind) -> bool {
        match kind {
            SyntaxKind::NAME_REF => true,
            _ => false,
        }
    }

    fn cast(syntax: SyntaxNode) -> Option<Self> {
        if Self::can_cast(syntax.kind()) {
            Some(NameRef { syntax })
        } else {
            None
        }
    }

    fn syntax(&self) -> &SyntaxNode {
        proof {
            use_type_invariant(self);
        }
        &self.syntax
    }
}

// NeverType

/// The type of expressions that never give a value.
#[derive(Debug, PartialEq, Eq, Hash)]
pub struct NeverType {
    pub(crate) syntax: SyntaxNode,
}

impl NeverType {
    #[verifier::type_invariant]
    spec fn well_formed(self) -> bool {
        Self::castable(self.syntax@.kind())
    }
}

impl Clone for NeverType {
    fn clone(&self) -> (r: Self)
        ensures
            r == *self,
    {
        proof {
            use_type_invariant(self);
        }
        NeverType { syntax: self.syntax.clone() }
    }
}

impl AstNode for NeverType {
    open spec fn castable(kind: SyntaxKind) -> bool {
        kind == SyntaxKind::NEVER_TYPE
    }

    closed spec fn node(&self) -> Cursor {
        self.syntax@
    }

    fn can_cast(kind: SyntaxKind) -> bool {
        match kind {
            SyntaxKind::NEVER_TYPE => true,
            _ => false,
        }
    }

    fn cast(syntax: SyntaxNode) -> Option<Self> {
        if Self::can_cast(syntax.kind()) {
            Some(NeverType { syntax })
        } else {
            None
        }
    }

    fn syntax(&self) -> &SyntaxNode {
        proof {
            use_type_invariant(self);
        }
        &self.syntax
    }
}

// Param

/// One parameter of a function.
#[derive(Debug, PartialEq, Eq, Hash)]
pub struct Param {
    pub(crate) syntax: SyntaxNode,
}

impl Param {
    #[verifier::type_invariant]
    spec fn well_formed(self) -> bool {
        Self::castable(self.syntax@.kind())
    }
}

impl Clone for Param {
    fn clone(&self) -> (r: Self)
        ensures
            r == *self,
    {
        proof {
            use_type_invariant(self);
        }
        Param { syntax: self.syntax.clone() }
    }
}

impl AstNode for Param {
    open spec fn castable(kind: SyntaxKind) -> bool {
        kind == SyntaxKind::PARAM
    }

    closed spec fn node(&self) -> Cursor {
        self.syntax@
    }

    fn can_cast(kind: SyntaxKind) -> bool {
        match kind {
            SyntaxKind::PARAM => true,
            _ => false,
        }
    }

    fn cast(syntax: SyntaxNode) -> Option<Self> {
        if Self::can_cast(syntax.kind()) {
            Some(Param { syntax })
        } else {
            None
        }
    }

    fn syntax(&self) -> &SyntaxNode {
        proof {
            use_type_invariant(self);
        }
        &self.syntax
    }
}

impl TypeAscriptionOwner for Param {
}

impl Param {
    /// The pattern that the argument is bound to.
    pub fn pat(&self) -> (r: Option<Pat>)
        ensures
            is_first_child::<Pat>(self.node(), r),
    {
        child_opt(self)
    }
}

// ParamList

/// The parameters of a function, between parentheses.
#[derive(Debug, PartialEq, Eq, Hash)]
pub struct ParamList {
    pub(crate) syntax: SyntaxNode,
}

impl ParamList {
    #[verifier::type_invariant]
    spec fn well_formed(self) -> bool {
        Self::castable(self.syntax@.kind())
    }
}

impl Clone for ParamList {
    fn clone(&self) -> (r: Self)
        ensures
            r == *self,
    {
        proof {
            use_type_invariant(self);
        }
        ParamList { syntax: self.syntax.clone() }
    }
}

impl AstNode for ParamList {
    open spec fn castable(kind: SyntaxKind) -> bool {
        kind == SyntaxKind::PARAM_LIST
    }

    closed spec fn node(&self) -> Cursor {
        self.syntax@
    }

    fn can_cast(kind: SyntaxKind) -> bool {
        match kind {
            SyntaxKind::PARAM_LIST => true,
            _ => false,
        }
    }

    fn cast(syntax: SyntaxNode) -> Option<Self> {
        if Self::can_cast(syntax.kind()) {
            Some(ParamList { syntax })
        } else {
            None
        }
    }

    fn syntax(&self) -> &SyntaxNode {
        proof {
            use_type_invariant(self);
        }
        &self.syntax
    }
}

impl ParamList {
    /// The parameters, in source order.
    pub fn params(&self) -> (r: Vec<Param>)
        ensures
            are_children::<Param>(self.node(), r@),
    {
        children(self)
    }
}

// ParenExpr

/// An expression between parentheses.
#[derive(Debug, PartialEq, Eq, Hash)]
pub struct ParenExpr {
    pub(crate) syntax: SyntaxNode,
}

impl ParenExpr {
    #[verifier::type_invariant]
    spec fn well_formed(self) -> bool {
        Self::castable(self.syntax@.kind())
    }
}

impl Clone for ParenExpr {
    fn clone(&self) -> (r: Self)
        ensures
            r == *self,
    {
        proof {
            use_type_invariant(self);
        }
        ParenExpr { syntax: self.syntax.clone() }
    }
}

impl AstNode for ParenExpr {
    open spec fn castable(kind: SyntaxKind) -> bool {
        kind == SyntaxKind::PAREN_EXPR
    }

    closed spec fn node(&self) -> Cursor {
        self.syntax@
    }

    fn can_cast(kind: SyntaxKind) -> bool {
        match kind {
            SyntaxKind::PAREN_EXPR => true,
            _ => false,
        }
    }

    fn cast(syntax: SyntaxNode) -> Option<Self> {
        if Self::can_cast(syntax.kind()) {
            Some(ParenExpr { syntax })
        } else {
            None
        }
    }

    fn syntax(&self) -> &SyntaxNode {
        proof {
            use_type_invariant(self);
        }
        &self.syntax
    }
}

impl ParenExpr {
    /// The expression between the parentheses.
    pub fn expr(&self) -> (r: Option<Expr>)
        ensures
            is_first_child::<Expr>(self.node(), r),
    {
        child_opt(self)
    }
}

// Pat

/// Any pattern.
#[derive(Debug, PartialEq, Eq, Hash)]
pub struct Pat {
    pub(crate) syntax: SyntaxNode,
}

impl Pat {
    #[verifier::type_invariant]
    spec fn well_formed(self) -> bool {
        Self::castable(self.syntax@.kind())
    }
}

impl Clone for Pat {
    fn clone(&self) -> (r: Self)
        ensures
            r == *self,
    {
        proof {
            use_type_invariant(self);
        }
        Pat { syntax: self.syntax.clone() }
    }
}

impl AstNode for Pat {
    open spec fn castable(kind: SyntaxKind) -> bool {
        kind == SyntaxKind::BIND_PAT
            || kind == SyntaxKind::PLACEHOLDER_PAT
    }

    closed spec fn node(&self) -> Cursor {
        self.syntax@
    }

    fn can_cast(kind: SyntaxKind) -> bool {
        match kind {
            SyntaxKind::BIND_PAT
            | SyntaxKind::PLACEHOLDER_PAT => true,
            _ => false,
        }
    }

    fn cast(syntax: SyntaxNode) -> Option<Self> {
        if Self::can_cast(syntax.kind()) {
            Some(Pat { syntax })
        } else {
            None
        }
    }

    fn syntax(&self) -> &SyntaxNode {
        proof {
            use_type_invariant(self);
        }
        &self.syntax
    }
}

/// The alternatives of [`Pat`].
#[derive(Debug, Clone, PartialEq, Eq)]
pub enum PatKind {
    BindPat(BindPat),
    PlaceholderPat(PlaceholderPat),
}

impl PatKind {
    /// The node under the view that the alternative holds.
    pub open spec fn node(self) -> Cursor {
        match self {
            PatKind::BindPat(n) => n.node(),
            PatKind::PlaceholderPat(n) => n.node(),
        }
    }

    /// The kind of node that the alternative stands for.
    pub open spec fn tag(self) -> SyntaxKind {
        match self {
            PatKind::BindPat(_) => SyntaxKind::BIND_PAT,
            PatKind::PlaceholderPat(_) => SyntaxKind::PLACEHOLDER_PAT,
        }
    }
}

impl From<BindPat> for Pat {
    fn from(n: BindPat) -> (r: Pat)
        ensures
            r.node() == n.node(),
    {
        proof {
            use_type_invariant(&n);
        }
        Pat { syntax: n.syntax }
    }
}

impl vstd::std_specs::convert::FromSpecImpl<BindPat> for Pat {
    open spec fn obeys_from_spec() -> bool {
        true
    }

    closed spec fn from_spec(n: BindPat) -> Pat {
        Pat { syntax: n.syntax }
    }
}

impl From<PlaceholderPat> for Pat {
    fn from(n: PlaceholderPat) -> (r: Pat)
        ensures
            r.node() == n.node(),
    {
        proof {
            use_type_invariant(&n);
        }
        Pat { syntax: n.syntax }
    }
}

impl vstd::std_specs::convert::FromSpecImpl<PlaceholderPat> for Pat {
    open spec fn obeys_from_spec() -> bool {
        true
    }

    closed spec fn from_spec(n: PlaceholderPat) -> Pat {
        Pat { syntax: n.syntax }
    }
}

impl Pat {
    /// Tells the alternatives apart: the view of the same node as the
    /// one type among them that accepts its kind.
    pub fn kind(&self) -> (r: PatKind)
        ensures
            r.node() == self.node(),
            r.tag() == self.node().kind(),
    {
        proof {
            use_type_invariant(self);
        }
        match self.syntax.kind() {
            SyntaxKind::BIND_PAT => PatKind::BindPat(BindPat::cast(self.syntax.clone()).unwrap()),
            SyntaxKind::PLACEHOLDER_PAT => {
                PatKind::PlaceholderPat(PlaceholderPat::cast(self.syntax.clone()).unwrap())
            },
            _ => unreached(),
        }
    }
}

// Path

/// A path: segments separated by `::`.
#[derive(Debug, PartialEq, Eq, Hash)]
pub struct Path {
    pub(crate) syntax: SyntaxNode,
}

impl Path {
    #[verifier::type_invariant]
    spec fn well_formed(self) -> bool {
        Self::castable(self.syntax@.kind())
    }
}

impl Clone for Path {
    fn clone(&self) -> (r: Self)
        ensures
            r == *self,
    {
        proof {
            use_type_invariant(self);
        }
        Path { syntax: self.syntax.clone() }
    }
}

impl AstNode for Path {
    open spec fn castable(kind: SyntaxKind) -> bool {
        kind == SyntaxKind::PATH
    }

    closed spec fn node(&self) -> Cursor {
        self.syntax@
    }

    fn can_cast(kind: SyntaxKind) -> bool {
        match kind {
            SyntaxKind::PATH => true,
            _ => false,
        }
    }

    fn cast(syntax: SyntaxNode) -> Option<Self> {
        if Self::can_cast(syntax.kind()) {
            Some(Path { syntax })
        } else {
            None
        }
    }

    fn syntax(&self) -> &SyntaxNode {
        proof {
            use_type_invariant(self);
        }
        &self.syntax
    }
}

impl Path {
    /// The last segment of the path.
    pub fn segment(&self) -> (r: Option<PathSegment>)
        ensures
            is_first_child::<PathSegment>(self.node(), r),
    {
        child_opt(self)
    }

    /// The path before the last segment.
    pub fn qualifier(&self) -> (r: Option<Path>)
        ensures
            is_first_child::<Path>(self.node(), r),
    {
        child_opt(self)
    }
}

// PathExpr

/// A path in expression position.
#[derive(Debug, PartialEq, Eq, Hash)]
pub struct PathExpr {
    pub(crate) syntax: SyntaxNode,
}

impl PathExpr {
    #[verifier::type_invariant]
    spec fn well_formed(self) -> bool {
        Self::castable(self.syntax@.kind())
    }
}

impl Clone for PathExpr {
    fn clone(&self) -> (r: Self)
        ensures
            r == *self,
    {
        proof {
            use_type_invariant(self);
        }
        PathExpr { syntax: self.syntax.clone() }
    }
}

impl AstNode for PathExpr {
    open spec fn castable(kind: SyntaxKind) -> bool {
        kind == SyntaxKind::PATH_EXPR
    }

    closed spec fn node(&self) -> Cursor {
        self.syntax@
    }

    fn can_cast(kind: SyntaxKind) -> bool {
        match kind {
            SyntaxKind::PATH_EXPR => true,
            _ => false,
        }
    }

    fn cast(syntax: SyntaxNode) -> Option<Self> {
        if Self::can_cast(syntax.kind()) {
            Some(PathExpr { syntax })
        } else {
            None
        }
    }

    fn syntax(&self) -> &SyntaxNode {
        proof {
            use_type_invariant(self);
        }
        &self.syntax
    }
}

impl PathExpr {
    /// The path that is referred to.
    pub fn path(&self) -> (r: Option<Path>)
        ensures
            is_first_child::<Path>(self.node(), r),
    {
        child_opt(self)
    }
}

// PathSegment

/// One segment of a path.
#[derive(Debug, PartialEq, Eq, Hash)]
pub struct PathSegment {
    pub(crate) syntax: SyntaxNode,
}

impl PathSegment {
    #[verifier::type_invariant]
    spec fn well_formed(self) -> bool {
        Self::castable(self.syntax@.kind())
    }
}

impl Clone for PathSegment {
    fn clone(&self) -> (r: Self)
        ensures
            r == *self,
    {
        proof {
            use_type_invariant(self);
        }
        PathSegment { syntax: self.syntax.clone() }
    }
}

impl AstNode for PathSegment {
    open spec fn castable(kind: SyntaxKind) -> bool {
        kind == SyntaxKind::PATH_SEGMENT
    }

    closed spec fn node(&self) -> Cursor {
        self.syntax@
    }

    fn can_cast(kind: SyntaxKind) -> bool {
        match kind {
            SyntaxKind::PATH_SEGMENT => true,
            _ => false,
        }
    }

    fn cast(syntax: SyntaxNode) -> Option<Self> {
        if Self::can_cast(syntax.kind()) {
            Some(PathSegment { syntax })
        } else {
            None
        }
    }

    fn syntax(&self) -> &SyntaxNode {
        proof {
            use_type_invariant(self);
        }
        &self.syntax
    }
}

impl PathSegment {
    /// The name that the segment uses.
    pub fn name_ref(&self) -> (r: Option<NameRef>)
        ensures
            is_first_child::<NameRef>(self.node(), r),
    {
        child_opt(self)
    }
}

// PathType

/// A type given by its path.
#[derive(Debug, PartialEq, Eq, Hash)]
pub struct PathType {
    pub(crate) syntax: SyntaxNode,
}

impl PathType {
    #[verifier::type_invariant]
    spec fn well_formed(self) -> bool {
        Self::castable(self.syntax@.kind())
    }
}

impl Clone for PathType {
    fn clone(&self) -> (r: Self)
        ensures
            r == *self,
    {
        proof {
            use_type_invariant(self);
        }
        PathType { syntax: self.syntax.clone() }
    }
}

impl AstNode for PathType {
    open spec fn castable(kind: SyntaxKind) -> bool {
        kind == SyntaxKind::PATH_TYPE
    }

    closed spec fn node(&self) -> Cursor {
        self.syntax@
    }

    fn can_cast(kind: SyntaxKind) -> bool {
        match kind {
            SyntaxKind::PATH_TYPE => true,
            _ => false,
        }
    }

    fn cast(syntax: SyntaxNode) -> Option<Self> {
        if Self::can_cast(syntax.kind()) {
            Some(PathType { syntax })
        } else {
            None
        }
    }

    fn syntax(&self) -> &SyntaxNode {
        proof {
            use_type_invariant(self);
        }
        &self.syntax
    }
}

impl PathType {
    /// The path of the type.
    pub fn path(&self) -> (r: Option<Path>)
        ensures
            is_first_child::<Path>(self.node(), r),
    {
        child_opt(self)
    }
}

// PlaceholderPat

/// The pattern `_`, which binds nothing.
#[derive(Debug, PartialEq, Eq, Hash)]
pub struct PlaceholderPat {
    pub(crate) syntax: SyntaxNode,
}

impl PlaceholderPat {
    #[verifier::type_invariant]
    spec fn well_formed(self) -> bool {
        Self::castable(self.syntax@.kind())
    }
}

impl Clone for PlaceholderPat {
    fn clone(&self) -> (r: Self)
        ensures
            r == *self,
    {
        proof {
            use_type_invariant(self);
        }
        PlaceholderPat { syntax: self.syntax.clone() }
    }
}

impl AstNode for PlaceholderPat {
    open spec fn castable(kind: SyntaxKind) -> bool {
        kind == SyntaxKind::PLACEHOLDER_PAT
    }

    closed spec fn node(&self) -> Cursor {
        self.syntax@
    }

    fn can_cast(kind: SyntaxKind) -> bool {
        match kind {
            SyntaxKind::PLACEHOLDER_PAT => true,
            _ => false,
        }
    }

    fn cast(syntax: SyntaxNode) -> Option<Self> {
        if Self::can_cast(syntax.kind()) {
            Some(PlaceholderPat { syntax })
        } else {
            None
        }
    }

    fn syntax(&self) -> &SyntaxNode {
        proof {
            use_type_invariant(self);
        }
        &self.syntax
    }
}

// PrefixExpr

/// An operator followed by its operand.
#[derive(Debug, PartialEq, Eq, Hash)]
pub struct PrefixExpr {
    pub(crate) syntax: SyntaxNode,
}

impl PrefixExpr {
    #[verifier::type_invariant]
    spec fn well_formed(self) -> bool {
        Self::castable(self.syntax@.kind())
    }
}

impl Clone for PrefixExpr {
    fn clone(&self) -> (r: Self)
        ensures
            r == *self,
    {
        proof {
            use_type_invariant(self);
        }
        PrefixExpr { syntax: self.syntax.clone() }
    }
}

impl AstNode for PrefixExpr {
    open spec fn castable(kind: SyntaxKind) -> bool {
        kind == SyntaxKind::PREFIX_EXPR
    }

    closed spec fn node(&self) -> Cursor {
        self.syntax@
    }

    fn can_cast(kind: SyntaxKind) -> bool {
        match kind {
            SyntaxKind::PREFIX_EXPR => true,
            _ => false,
        }
    }

    fn cast(syntax: SyntaxNode) -> Option<Self> {
        if Self::can_cast(syntax.kind()) {
            Some(PrefixExpr { syntax })
        } else {
            None
        }
    }

    fn syntax(&self) -> &SyntaxNode {
        proof {
            use_type_invariant(self);
        }
        &self.syntax
    }
}

impl PrefixExpr {
    /// The operand.
    pub fn expr(&self) -> (r: Option<Expr>)
        ensures
            is_first_child::<Expr>(self.node(), r),
    {
        child_opt(self)
    }
}

// RecordFieldDef

/// One named field of a struct.
#[derive(Debug, PartialEq, Eq, Hash)]
pub struct RecordFieldDef {
    pub(crate) syntax: SyntaxNode,
}

impl RecordFieldDef {
    #[verifier::type_invariant]
    spec fn well_formed(self) -> bool {
        Self::castable(self.syntax@.kind())
    }
}

impl Clone for RecordFieldDef {
    fn clone(&self) -> (r: Self)
        ensures
            r == *self,
    {
        proof {
            use_type_invariant(self);
        }
        RecordFieldDef { syntax: self.syntax.clone() }
    }
}

impl AstNode for RecordFieldDef {
    open spec fn castable(kind: SyntaxKind) -> bool {
        kind == SyntaxKind::RECORD_FIELD_DEF
    }

    closed spec fn node(&self) -> Cursor {
        self.syntax@
    }

    fn can_cast(kind: SyntaxKind) -> bool {
        match kind {
            SyntaxKind::RECORD_FIELD_DEF => true,
            _ => false,
        }
    }

    fn cast(syntax: SyntaxNode) -> Option<Self> {
        if Self::can_cast(syntax.kind()) {
            Some(RecordFieldDef { syntax })
        } else {
            None
        }
    }

    fn syntax(&self) -> &SyntaxNode {
        proof {
            use_type_invariant(self);
        }
        &self.syntax
    }
}

impl NameOwner for RecordFieldDef {
}

impl VisibilityOwner for RecordFieldDef {
}

impl DocCommentsOwner for RecordFieldDef {
}

impl TypeAscriptionOwner for RecordFieldDef {
}

// RecordFieldDefList

/// The named fields of a struct, between braces.
#[derive(Debug, PartialEq, Eq, Hash)]
pub struct RecordFieldDefList {
    pub(crate) syntax: SyntaxNode,
}

impl RecordFieldDefList {
    #[verifier::type_invariant]
    spec fn well_formed(self) -> bool {
        Self::castable(self.syntax@.kind())
    }
}

impl Clone for RecordFieldDefList {
    fn clone(&self) -> (r: Self)
        ensures
            r == *self,
    {
        proof {
            use_type_invariant(self);
        }
        RecordFieldDefList { syntax: self.syntax.clone() }
    }
}

impl AstNode for RecordFieldDefList {
    open spec fn castable(kind: SyntaxKind) -> bool {
        kind == SyntaxKind::RECORD_FIELD_DEF_LIST
    }

    closed spec fn node(&self) -> Cursor {
        self.syntax@
    }

    fn can_cast(kind: SyntaxKind) -> bool {
        match kind {
            SyntaxKind::RECORD_FIELD_DEF_LIST => true,
            _ => false,
        }
    }

    fn cast(syntax: SyntaxNode) -> Option<Self> {
        if Self::can_cast(syntax.kind()) {
            Some(RecordFieldDefList { syntax })
        } else {
            None
        }
    }

    fn syntax(&self) -> &SyntaxNode {
        proof {
            use_type_invariant(self);
        }
        &self.syntax
    }
}

impl RecordFieldDefList {
    /// The fields, in source order.
    pub fn fields(&self) -> (r: Vec<RecordFieldDef>)
        ensures
            are_children::<RecordFieldDef>(self.node(), r@),
    {
        children(self)
    }
}

// RetType

/// The return type of a function, behind `->`.
#[derive(Debug, PartialEq, Eq, Hash)]
pub struct RetType {
    pub(crate) syntax: SyntaxNode,
}

impl RetType {
    #[verifier::type_invariant]
    spec fn well_formed(self) -> bool {
        Self::castable(self.syntax@.kind())
    }
}

impl Clone for RetType {
    fn clone(&self) -> (r: Self)
        ensures
            r == *self,
    {
        proof {
            use_type_invariant(self);
        }
        RetType { syntax: self.syntax.clone() }
    }
}

impl AstNode for RetType {
    open spec fn castable(kind: SyntaxKind) -> bool {
        kind == SyntaxKind::RET_TYPE
    }

    closed spec fn node(&self) -> Cursor {
        self.syntax@
    }

    fn can_cast(kind: SyntaxKind) -> bool {
        match kind {
            SyntaxKind::RET_TYPE => true,
            _ => false,
        }
    }

    fn cast(syntax: SyntaxNode) -> Option<Self> {
        if Self::can_cast(syntax.kind()) {
            Some(RetType { syntax })
        } else {
            None
        }
    }

    fn syntax(&self) -> &SyntaxNode {
        proof {
            use_type_invariant(self);
        }
        &self.syntax
    }
}

impl RetType {
    /// The type that is returned.
    pub fn type_ref(&self) -> (r: Option<TypeRef>)
        ensures
            is_first_child::<TypeRef>(self.node(), r),
    {
        child_opt(self)
    }
}

// ReturnExpr

/// A `return`, with an optional value.
#[derive(Debug, PartialEq, Eq, Hash)]
pub struct ReturnExpr {
    pub(crate) syntax: SyntaxNode,
}

impl ReturnExpr {
    #[verifier::type_invariant]
    spec fn well_formed(self) -> bool {
        Self::castable(self.syntax@.kind())
    }
}

impl Clone for ReturnExpr {
    fn clone(&self) -> (r: Self)
        ensures
            r == *self,
    {
        proof {
            use_type_invariant(self);
        }
        ReturnExpr { syntax: self.syntax.clone() }
    }
}

impl AstNode for ReturnExpr {
    open spec fn castable(kind: SyntaxKind) -> bool {
        kind == SyntaxKind::RETURN_EXPR
    }

    closed spec fn node(&self) -> Cursor {
        self.syntax@
    }

    fn can_cast(kind: SyntaxKind) -> bool {
        match kind {
            SyntaxKind::RETURN_EXPR => true,
            _ => false,
        }
    }

    fn cast(syntax: SyntaxNode) -> Option<Self> {
        if Self::can_cast(syntax.kind()) {
            Some(ReturnExpr { syntax })
        } else {
            None
        }
    }

    fn syntax(&self) -> &SyntaxNode {
        proof {
            use_type_invariant(self);
        }
        &self.syntax
    }
}

impl ReturnExpr {
    /// The value that is returned.
    pub fn expr(&self) -> (r: Option<Expr>)
        ensures
            is_first_child::<Expr>(self.node(), r),
    {
        child_opt(self)
    }
}

// SourceFile

/// A whole source file.
#[derive(Debug, PartialEq, Eq, Hash)]
pub struct SourceFile {
    pub(crate) syntax: SyntaxNode,
}

impl SourceFile {
    #[verifier::type_invariant]
    spec fn well_formed(self) -> bool {
        Self::castable(self.syntax@.kind())
    }
}

impl Clone for SourceFile {
    fn clone(&self) -> (r: Self)
        ensures
            r == *self,
    {
        proof {
            use_type_invariant(self);
        }
        SourceFile { syntax: self.syntax.clone() }
    }
}

impl AstNode for SourceFile {
    open spec fn castable(kind: SyntaxKind) -> bool {
        kind == SyntaxKind::SOURCE_FILE
    }

    closed spec fn node(&self) -> Cursor {
        self.syntax@
    }

    fn can_cast(kind: SyntaxKind) -> bool {
        match kind {
            SyntaxKind::SOURCE_FILE => true,
            _ => false,
        }
    }

    fn cast(syntax: SyntaxNode) -> Option<Self> {
        if Self::can_cast(syntax.kind()) {
            Some(SourceFile { syntax })
        } else {
            None
        }
    }

    fn syntax(&self) -> &SyntaxNode {
        proof {
            use_type_invariant(self);
        }
        &self.syntax
    }
}

impl ModuleItemOwner for SourceFile {
}

impl FunctionDefOwner for SourceFile {
}

// Stmt

/// Any statement.
#[derive(Debug, PartialEq, Eq, Hash)]
pub struct Stmt {
    pub(crate) syntax: SyntaxNode,
}

impl Stmt {
    #[verifier::type_invariant]
    spec fn well_formed(self) -> bool {
        Self::castable(self.syntax@.kind())
    }
}

impl Clone for Stmt {
    fn clone(&self) -> (r: Self)
        ensures
            r == *self,
    {
        proof {
            use_type_invariant(self);
        }
        Stmt { syntax: self.syntax.clone() }
    }
}

impl AstNode for Stmt {
    open spec fn castable(kind: SyntaxKind) -> bool {
        kind == SyntaxKind::LET_STMT
            || kind == SyntaxKind::EXPR_STMT
    }

    closed spec fn node(&self) -> Cursor {
        self.syntax@
    }

    fn can_cast(kind: SyntaxKind) -> bool {
        match kind {
            SyntaxKind::LET_STMT
            | SyntaxKind::EXPR_STMT => true,
            _ => false,
        }
    }

    fn cast(syntax: SyntaxNode) -> Option<Self> {
        if Self::can_cast(syntax.kind()) {
            Some(Stmt { syntax })
        } else {
            None
        }
    }

    fn syntax(&self) -> &SyntaxNode {
        proof {
            use_type_invariant(self);
        }
        &self.syntax
    }
}

/// The alternatives of [`Stmt`].
#[derive(Debug, Clone, PartialEq, Eq)]
pub enum StmtKind {
    LetStmt(LetStmt),
    ExprStmt(ExprStmt),
}

impl StmtKind {
    /// The node under the view that the alternative holds.
    pub open spec fn node(self) -> Cursor {
        match self {
            StmtKind::LetStmt(n) => n.node(),
            StmtKind::ExprStmt(n) => n.node(),
        }
    }

    /// The kind of node that the alternative stands for.
    pub open spec fn tag(self) -> SyntaxKind {
        match self {
            StmtKind::LetStmt(_) => SyntaxKind::LET_STMT,
            StmtKind::ExprStmt(_) => SyntaxKind::EXPR_STMT,
        }
    }
}

impl From<LetStmt> for Stmt {
    fn from(n: LetStmt) -> (r: Stmt)
        ensures
            r.node() == n.node(),
    {
        proof {
            use_type_invariant(&n);
        }
        Stmt { syntax: n.syntax }
    }
}

impl vstd::std_specs::convert::FromSpecImpl<LetStmt> for Stmt {
    open spec fn obeys_from_spec() -> bool {
        true
    }

    closed spec fn from_spec(n: LetStmt) -> Stmt {
        Stmt { syntax: n.syntax }
    }
}

impl From<ExprStmt> for Stmt {
    fn from(n: ExprStmt) -> (r: Stmt)
        ensures
            r.node() == n.node(),
    {
        proof {
            use_type_invariant(&n);
        }
        Stmt { syntax: n.syntax }
    }
}

impl vstd::std_specs::convert::FromSpecImpl<ExprStmt> for Stmt {
    open spec fn obeys_from_spec() -> bool {
        true
    }

    closed spec fn from_spec(n: ExprStmt) -> Stmt {
        Stmt { syntax: n.syntax }
    }
}

impl Stmt {
    /// Tells the alternatives apart: the view of the same node as the
    /// one type among them that accepts its kind.
    pub fn kind(&self) -> (r: StmtKind)
        ensures
            r.node() == self.node(),
            r.tag() == self.node().kind(),
    {
        proof {
            use_type_invariant(self);
        }
        match self.syntax.kind() {
            SyntaxKind::LET_STMT => StmtKind::LetStmt(LetStmt::cast(self.syntax.clone()).unwrap()),
            SyntaxKind::EXPR_STMT => {
                StmtKind::ExprStmt(ExprStmt::cast(self.syntax.clone()).unwrap())
            },
            _ => unreached(),
        }
    }
}

// StructDef

/// The definition of a struct.
#[derive(Debug, PartialEq, Eq, Hash)]
pub struct StructDef {
    pub(crate) syntax: SyntaxNode,
}

impl StructDef {
    #[verifier::type_invariant]
    spec fn well_formed(self) -> bool {
        Self::castable(self.syntax@.kind())
    }
}

impl Clone for StructDef {
    fn clone(&self) -> (r: Self)
        ensures
            r == *self,
    {
        proof {
            use_type_invariant(self);
        }
        StructDef { syntax: self.syntax.clone() }
    }
}

impl AstNode for StructDef {
    open spec fn castable(kind: SyntaxKind) -> bool {
        kind == SyntaxKind::STRUCT_DEF
    }

    closed spec fn node(&self) -> Cursor {
        self.syntax@
    }

    fn can_cast(kind: SyntaxKind) -> bool {
        match kind {
            SyntaxKind::STRUCT_DEF => true,
            _ => false,
        }
    }

    fn cast(syntax: SyntaxNode) -> Option<Self> {
        if Self::can_cast(syntax.kind()) {
            Some(StructDef { syntax })
        } else {
            None
        }
    }

    fn syntax(&self) -> &SyntaxNode {
        proof {
            use_type_invariant(self);
        }
        &self.syntax
    }
}

impl NameOwner for StructDef {
}

impl VisibilityOwner for StructDef {
}

impl DocCommentsOwner for StructDef {
}

// TupleFieldDef

/// One positional field of a struct.
#[derive(Debug, PartialEq, Eq, Hash)]
pub struct TupleFieldDef {
    pub(crate) syntax: SyntaxNode,
}

impl TupleFieldDef {
    #[verifier::type_invariant]
    spec fn well_formed(self) -> bool {
        Self::castable(self.syntax@.kind())
    }
}

impl Clone for TupleFieldDef {
    fn clone(&self) -> (r: Self)
        ensures
            r == *self,
    {
        proof {
            use_type_invariant(self);
        }
        TupleFieldDef { syntax: self.syntax.clone() }
    }
}

impl AstNode for TupleFieldDef {
    open spec fn castable(kind: SyntaxKind) -> bool {
        kind == SyntaxKind::TUPLE_FIELD_DEF
    }

    closed spec fn node(&self) -> Cursor {
        self.syntax@
    }

    fn can_cast(kind: SyntaxKind) -> bool {
        match kind {
            SyntaxKind::TUPLE_FIELD_DEF => true,
            _ => false,
        }
    }

    fn cast(syntax: SyntaxNode) -> Option<Self> {
        if Self::can_cast(syntax.kind()) {
            Some(TupleFieldDef { syntax })
        } else {
            None
        }
    }

    fn syntax(&self) -> &SyntaxNode {
        proof {
            use_type_invariant(self);
        }
        &self.syntax
    }
}

impl VisibilityOwner for TupleFieldDef {
}

impl TupleFieldDef {
    /// The type of the field.
    pub fn type_ref(&self) -> (r: Option<TypeRef>)
        ensures
            is_first_child::<TypeRef>(self.node(), r),
    {
        child_opt(self)
    }
}

// TupleFieldDefList

/// The positional fields of a struct, between parentheses.
#[derive(Debug, PartialEq, Eq, Hash)]
pub struct TupleFieldDefList {
    pub(crate) syntax: SyntaxNode,
}

impl TupleFieldDefList {
    #[verifier::type_invariant]
    spec fn well_formed(self) -> bool {
        Self::castable(self.syntax@.kind())
    }
}

impl Clone for TupleFieldDefList {
    fn clone(&self) -> (r: Self)
        ensures
            r == *self,
    {
        proof {
            use_type_invariant(self);
        }
        TupleFieldDefList { syntax: self.syntax.clone() }
    }
}

impl AstNode for TupleFieldDefList {
    open spec fn castable(kind: SyntaxKind) -> bool {
        kind == SyntaxKind::TUPLE_FIELD_DEF_LIST
    }

    closed spec fn node(&self) -> Cursor {
        self.syntax@
    }

    fn can_cast(kind: SyntaxKind) -> bool {
        match kind {
            SyntaxKind::TUPLE_FIELD_DEF_LIST => true,
            _ => false,
        }
    }

    fn cast(syntax: SyntaxNode) -> Option<Self> {
        if Self::can_cast(syntax.kind()) {
            Some(TupleFieldDefList { syntax })
        } else {
            None
        }
    }

    fn syntax(&self) -> &SyntaxNode {
        proof {
            use_type_invariant(self);
        }
        &self.syntax
    }
}

impl TupleFieldDefList {
    /// The fields, in source order.
    pub fn fields(&self) -> (r: Vec<TupleFieldDef>)
        ensures
            are_children::<TupleFieldDef>(self.node(), r@),
    {
        children(self)
    }
}

// TypeRef

/// Any type.
#[derive(Debug, PartialEq, Eq, Hash)]
pub struct TypeRef {
    pub(crate) syntax: SyntaxNode,
}

impl TypeRef {
    #[verifier::type_invariant]
    spec fn well_formed(self) -> bool {
        Self::castable(self.syntax@.kind())
    }
}

impl Clone for TypeRef {
    fn clone(&self) -> (r: Self)
        ensures
            r == *self,
    {
        proof {
            use_type_invariant(self);
        }
        TypeRef { syntax: self.syntax.clone() }
    }
}

impl AstNode for TypeRef {
    open spec fn castable(kind: SyntaxKind) -> bool {
        kind == SyntaxKind::PATH_TYPE
            || kind == SyntaxKind::NEVER_TYPE
    }

    closed spec fn node(&self) -> Cursor {
        self.syntax@
    }

    fn can_cast(kind: SyntaxKind) -> bool {
        match kind {
            SyntaxKind::PATH_TYPE
            | SyntaxKind::NEVER_TYPE => true,
            _ => false,
        }
    }

    fn cast(syntax: SyntaxNode) -> Option<Self> {
        if Self::can_cast(syntax.kind()) {
            Some(TypeRef { syntax })
        } else {
            None
        }
    }

    fn syntax(&self) -> &SyntaxNode {
        proof {
            use_type_invariant(self);
        }
        &self.syntax
    }
}

/// The alternatives of [`TypeRef`].
#[derive(Debug, Clone, PartialEq, Eq)]
pub enum TypeRefKind {
    PathType(PathType),
    NeverType(NeverType),
}

impl TypeRefKind {
    /// The node under the view that the alternative holds.
    pub open spec fn node(self) -> Cursor {
        match self {
            TypeRefKind::PathType(n) => n.node(),
            TypeRefKind::NeverType(n) => n.node(),
        }
    }

    /// The kind of node that the alternative stands for.
    pub open spec fn tag(self) -> SyntaxKind {
        match self {
            TypeRefKind::PathType(_) => SyntaxKind::PATH_TYPE,
            TypeRefKind::NeverType(_) => SyntaxKind::NEVER_TYPE,
        }
    }
}

impl From<PathType> for TypeRef {
    fn from(n: PathType) -> (r: TypeRef)
        ensures
            r.node() == n.node(),
    {
        proof {
            use_type_invariant(&n);
        }
        TypeRef { syntax: n.syntax }
    }
}

impl vstd::std_specs::convert::FromSpecImpl<PathType> for TypeRef {
    open spec fn obeys_from_spec() -> bool {
        true
    }

    closed spec fn from_spec(n: PathType) -> TypeRef {
        TypeRef { syntax: n.syntax }
    }
}

impl From<NeverType> for TypeRef {
    fn from(n: NeverType) -> (r: TypeRef)
        ensures
            r.node() == n.node(),
    {
        proof {
            use_type_invariant(&n);
        }
        TypeRef { syntax: n.syntax }
    }
}

impl vstd::std_specs::convert::FromSpecImpl<NeverType> for TypeRef {
    open spec fn obeys_from_spec() -> bool {
        true
    }

    closed spec fn from_spec(n: NeverType) -> TypeRef {
        TypeRef { syntax: n.syntax }
    }
}

impl TypeRef {
    /// Tells the alternatives apart: the view of the same node as the
    /// one type among them that accepts its kind.
    pub fn kind(&self) -> (r: TypeRefKind)
        ensures
            r.node() == self.node(),
            r.tag() == self.node().kind(),
    {
        proof {
            use_type_invariant(self);
        }
        match self.syntax.kind() {
            SyntaxKind::PATH_TYPE => {
                TypeRefKind::PathType(PathType::cast(self.syntax.clone()).unwrap())
            },
            SyntaxKind::NEVER_TYPE => {
                TypeRefKind::NeverType(NeverType::cast(self.syntax.clone()).unwrap())
            },
            _ => unreached(),
        }
    }
}

// Visibility

/// A visibility marker.
#[derive(Debug, PartialEq, Eq, Hash)]
pub struct Visibility {
    pub(crate) syntax: SyntaxNode,
}

impl Visibility {
    #[verifier::type_invariant]
    spec fn well_formed(self) -> bool {
        Self::castable(self.syntax@.kind())
    }
}

impl Clone for Visibility {
    fn clone(&self) -> (r: Self)
        ensures
            r == *self,
    {
        proof {
            use_type_invariant(self);
        }
        Visibility { syntax: self.syntax.clone() }
    }
}

impl AstNode for Visibility {
    open spec fn castable(kind: SyntaxKind) -> bool {
        kind == SyntaxKind::VISIBILITY
    }

    closed spec fn node(&self) -> Cursor {
        self.syntax@
    }

    fn can_cast(kind: SyntaxKind) -> bool {
        match kind {
            SyntaxKind::VISIBILITY => true,
            _ => false,
        }
    }

    fn cast(syntax: SyntaxNode) -> Option<Self> {
        if Self::can_cast(syntax.kind()) {
            Some(Visibility { syntax })
        } else {
            None
        }
    }

    fn syntax(&self) -> &SyntaxNode {
        proof {
            use_type_invariant(self);
        }
        &self.syntax
    }
}

// WhileExpr

/// A `while` loop.
#[derive(Debug, PartialEq, Eq, Hash)]
pub struct WhileExpr {
    pub(crate) syntax: SyntaxNode,
}

impl WhileExpr {
    #[verifier::type_invariant]
    spec fn well_formed(self) -> bool {
        Self::castable(self.syntax@.kind())
    }
}

impl Clone for WhileExpr {
    fn clone(&self) -> (r: Self)
        ensures
            r == *self,
    {
        proof {
            use_type_invariant(self);
        }
        WhileExpr { syntax: self.syntax.clone() }
    }
}

impl AstNode for WhileExpr {
    open spec fn castable(kind: SyntaxKind) -> bool {
        kind == SyntaxKind::WHILE_EXPR
    }

    closed spec fn node(&self) -> Cursor {
        self.syntax@
    }

    fn can_cast(kind: SyntaxKind) -> bool {
        match kind {
            SyntaxKind::WHILE_EXPR => true,
            _ => false,
        }
    }

    fn cast(syntax: SyntaxNode) -> Option<Self> {
        if Self::can_cast(syntax.kind()) {
            Some(WhileExpr { syntax })
        } else {
            None
        }
    }

    fn syntax(&self) -> &SyntaxNode {
        proof {
            use_type_invariant(self);
        }
        &self.syntax
    }
}

impl LoopBodyOwner for WhileExpr {
}

impl WhileExpr {
    /// The condition that keeps the loop going.
    pub fn condition(&self) -> (r: Option<Condition>)
        ensures
            is_first_child::<Condition>(self.node(), r),
    {
        child_opt(self)
    }
}

} // verus!
