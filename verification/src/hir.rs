//! The bodies of functions as expressions, patterns and statements in
//! arenas, with names left unresolved.

pub mod lower;

use crate::arena::map::ArenaMap;
use crate::arena::{Arena, Idx};
use crate::ast::extensions::{BinOp, LiteralKind, PrefixOp};
use crate::text::TextRange;
use vstd::prelude::*;

verus! {

pub type ExprId = Idx<Expr>;

pub type PatId = Idx<Pat>;

pub type StmtId = Idx<Stmt>;

/// An expression of a body. Operands are given by their handles.
#[allow(inconsistent_fields)]
#[derive(Debug, PartialEq, Eq)]
pub enum Expr {
    /// Stands where the source lacks an expression, or has one that could
    /// not be lowered.
    Missing,
    Literal(LiteralKind),
    Prefix { op: Option<PrefixOp>, expr: ExprId },
    /// A path, as it stands in the source; it is resolved later.
    Path(Vec<u8>),
    Bin { lhs: ExprId, rhs: ExprId, op: Option<BinOp> },
    Paren(ExprId),
    Call { callee: ExprId, args: Vec<ExprId> },
    If { condition: ExprId, then_branch: ExprId, else_branch: ExprId },
    Loop { body: ExprId },
    Return { expr: Option<ExprId> },
    Break { expr: Option<ExprId> },
    /// A block; one without statements and without a last expression is the
    /// unit expression.
    Block { statements: Vec<StmtId>, tail: Option<ExprId> },
}

/// A pattern of a body.
#[derive(Debug, PartialEq, Eq)]
pub enum Pat {
    /// Stands where the source lacks a pattern.
    Missing,
    /// Binds a name for the rest of the enclosing block.
    Bind { name: Vec<u8> },
    /// Binds nothing.
    Placeholder,
}

/// A statement of a body.
#[derive(Debug, PartialEq, Eq)]
pub enum Stmt {
    /// Binds a pattern; without an initializer what it binds is not yet set.
    Let { pat: PatId, initializer: Option<ExprId> },
    Expr(ExprId),
}

/// What lowering finds wrong with a body.
#[derive(Clone, Copy, Debug, PartialEq, Eq, Structural, Hash)]
pub enum LowerErrorKind {
    /// A `break` stands outside of any loop.
    BreakOutsideLoop,
    /// The body has more expressions than handles can tell apart.
    TooLarge,
    /// The body nests deeper than lowering follows.
    TooDeep,
}

/// The mathematical content of an expression.
#[allow(inconsistent_fields)]
pub enum ExprModel {
    Missing,
    Literal(LiteralKind),
    Prefix { op: Option<PrefixOp>, expr: nat },
    Path(Seq<u8>),
    Bin { lhs: nat, rhs: nat, op: Option<BinOp> },
    Paren(nat),
    Call { callee: nat, args: Seq<nat> },
    If { condition: nat, then_branch: nat, else_branch: nat },
    Loop { body: nat },
    Return { expr: Option<nat> },
    Break { expr: Option<nat> },
    Block { statements: Seq<nat>, tail: Option<nat> },
}

/// The mathematical content of a pattern.
pub enum PatModel {
    Missing,
    Bind { name: Seq<u8> },
    Placeholder,
}

/// The mathematical content of a statement.
pub enum StmtModel {
    Let { pat: nat, initializer: Option<nat> },
    Expr(nat),
}

/// The number of a handle that may be missing.
pub open spec fn number<T>(id: Option<Idx<T>>) -> Option<nat> {
    match id {
        Some(i) => Some(i@),
        None => None,
    }
}

/// The numbers of a run of handles.
pub open spec fn numbers<T>(ids: Seq<Idx<T>>) -> Seq<nat> {
    ids.map_values(|i: Idx<T>| i@)
}

impl View for Expr {
    type V = ExprModel;

    open spec fn view(&self) -> ExprModel {
        match *self {
            Expr::Missing => ExprModel::Missing,
            Expr::Literal(kind) => ExprModel::Literal(kind),
            Expr::Prefix { op, expr } => ExprModel::Prefix { op, expr: expr@ },
            Expr::Path(path) => ExprModel::Path(path@),
            Expr::Bin { lhs, rhs, op } => ExprModel::Bin { lhs: lhs@, rhs: rhs@, op },
            Expr::Paren(inner) => ExprModel::Paren(inner@),
            Expr::Call { callee, args } => ExprModel::Call {
                callee: callee@,
                args: numbers(args@),
            },
            Expr::If { condition, then_branch, else_branch } => ExprModel::If {
                condition: condition@,
                then_branch: then_branch@,
                else_branch: else_branch@,
            },
            Expr::Loop { body } => ExprModel::Loop { body: body@ },
            Expr::Return { expr } => ExprModel::Return { expr: number(expr) },
            Expr::Break { expr } => ExprModel::Break { expr: number(expr) },
            Expr::Block { statements, tail } => ExprModel::Block {
                statements: numbers(statements@),
                tail: number(tail),
            },
        }
    }
}

impl View for Pat {
    type V = PatModel;

    open spec fn view(&self) -> PatModel {
        match *self {
            Pat::Missing => PatModel::Missing,
            Pat::Bind { name } => PatModel::Bind { name: name@ },
            Pat::Placeholder => PatModel::Placeholder,
        }
    }
}

impl View for Stmt {
    type V = StmtModel;

    open spec fn view(&self) -> StmtModel {
        match *self {
            Stmt::Let { pat, initializer } => StmtModel::Let {
                pat: pat@,
                initializer: number(initializer),
            },
            Stmt::Expr(expr) => StmtModel::Expr(expr@),
        }
    }
}

/// The mathematical content of a body: its expressions, patterns and
/// statements, each at the position one below its handle; for each
/// expression the range of the source that it was made of; and what was
/// found wrong, with the range where.
pub struct BodyModel {
    pub exprs: Seq<ExprModel>,
    pub pats: Seq<PatModel>,
    pub stmts: Seq<StmtModel>,
    pub ranges: Seq<(nat, nat)>,
    pub errors: Seq<(LowerErrorKind, (nat, nat))>,
}

impl BodyModel {
    /// The body that holds nothing.
    pub open spec fn empty() -> BodyModel {
        BodyModel {
            exprs: Seq::empty(),
            pats: Seq::empty(),
            stmts: Seq::empty(),
            ranges: Seq::empty(),
            errors: Seq::empty(),
        }
    }

    /// The body with one more expression made of the source at `range`, and
    /// the handle of that expression. A body that is full takes no more: it
    /// notes that it is too large and answers with its last handle.
    pub open spec fn with_expr(self, expr: ExprModel, range: (nat, nat)) -> (BodyModel, nat) {
        if self.exprs.len() < u32::MAX {
            (
                BodyModel {
                    exprs: self.exprs.push(expr),
                    ranges: self.ranges.push(range),
                    ..self
                },
                self.exprs.len() + 1,
            )
        } else {
            (self.with_error(LowerErrorKind::TooLarge, range), self.exprs.len())
        }
    }

    /// The body with one more pattern, and the handle of that pattern.
    pub open spec fn with_pat(self, pat: PatModel, range: (nat, nat)) -> (BodyModel, nat) {
        if self.pats.len() < u32::MAX {
            (BodyModel { pats: self.pats.push(pat), ..self }, self.pats.len() + 1)
        } else {
            (self.with_error(LowerErrorKind::TooLarge, range), self.pats.len())
        }
    }

    /// The body with one more statement, and the handle of that statement.
    pub open spec fn with_stmt(self, stmt: StmtModel, range: (nat, nat)) -> (BodyModel, nat) {
        if self.stmts.len() < u32::MAX {
            (BodyModel { stmts: self.stmts.push(stmt), ..self }, self.stmts.len() + 1)
        } else {
            (self.with_error(LowerErrorKind::TooLarge, range), self.stmts.len())
        }
    }

    /// The body with one more thing noted as wrong.
    pub open spec fn with_error(self, kind: LowerErrorKind, range: (nat, nat)) -> BodyModel {
        BodyModel { errors: self.errors.push((kind, range)), ..self }
    }
}

/// Whether `id` is the handle of one of `len` things.
pub open spec fn within(id: nat, len: nat) -> bool {
    1 <= id <= len
}

/// Whether `id`, where there is one, is the handle of one of `len` things.
pub open spec fn within_or_none(id: Option<nat>, len: nat) -> bool {
    id matches Some(i) ==> within(i, len)
}

/// Whether every handle in `ids` is the handle of one of `len` things.
pub open spec fn all_within(ids: Seq<nat>, len: nat) -> bool {
    forall|i: int| 0 <= i < ids.len() ==> within(#[trigger] ids[i], len)
}

impl ExprModel {
    /// Whether every handle in the expression is the handle of one of
    /// `exprs` expressions or of `stmts` statements.
    pub open spec fn closed_in(self, exprs: nat, stmts: nat) -> bool {
        match self {
            ExprModel::Missing => true,
            ExprModel::Literal(_) => true,
            ExprModel::Path(_) => true,
            ExprModel::Prefix { expr, .. } => within(expr, exprs),
            ExprModel::Bin { lhs, rhs, .. } => within(lhs, exprs) && within(rhs, exprs),
            ExprModel::Paren(inner) => within(inner, exprs),
            ExprModel::Call { callee, args } => within(callee, exprs) && all_within(args, exprs),
            ExprModel::If { condition, then_branch, else_branch } => within(condition, exprs)
                && within(then_branch, exprs) && within(else_branch, exprs),
            ExprModel::Loop { body } => within(body, exprs),
            ExprModel::Return { expr } => within_or_none(expr, exprs),
            ExprModel::Break { expr } => within_or_none(expr, exprs),
            ExprModel::Block { statements, tail } => all_within(statements, stmts)
                && within_or_none(tail, exprs),
        }
    }
}

impl StmtModel {
    /// Whether every handle in the statement is the handle of one of `exprs`
    /// expressions or of `pats` patterns.
    pub open spec fn closed_in(self, exprs: nat, pats: nat) -> bool {
        match self {
            StmtModel::Let { pat, initializer } => within(pat, pats) && within_or_none(
                initializer,
                exprs,
            ),
            StmtModel::Expr(expr) => within(expr, exprs),
        }
    }
}

impl BodyModel {
    /// Whether the body is closed: every handle in it is the handle of
    /// something in it, and every expression has its range.
    pub open spec fn closed(self) -> bool {
        &&& self.ranges.len() == self.exprs.len()
        &&& forall|i: int|
            0 <= i < self.exprs.len() ==> (#[trigger] self.exprs[i]).closed_in(
                self.exprs.len(),
                self.stmts.len(),
            )
        &&& forall|i: int|
            0 <= i < self.stmts.len() ==> (#[trigger] self.stmts[i]).closed_in(
                self.exprs.len(),
                self.pats.len(),
            )
    }

    /// Whether `later` holds at least as much of everything as this body.
    pub open spec fn grown_to(self, later: BodyModel) -> bool {
        self.exprs.len() <= later.exprs.len() && self.pats.len() <= later.pats.len()
            && self.stmts.len() <= later.stmts.len()
    }
}

/// An expression that is closed among fewer things is closed among more.
pub proof fn lemma_closed_in_more(
    e: ExprModel,
    exprs: nat,
    stmts: nat,
    more_exprs: nat,
    more_stmts: nat,
)
    requires
        e.closed_in(exprs, stmts),
        exprs <= more_exprs,
        stmts <= more_stmts,
    ensures
        e.closed_in(more_exprs, more_stmts),
{
    match e {
        ExprModel::Call { callee, args } => {
            assert forall|i: int| 0 <= i < args.len() implies within(
                #[trigger] args[i],
                more_exprs,
            ) by {
                assert(within(args[i], exprs));
            }
        },
        ExprModel::Block { statements, tail } => {
            assert forall|i: int| 0 <= i < statements.len() implies within(
                #[trigger] statements[i],
                more_stmts,
            ) by {
                assert(within(statements[i], stmts));
            }
        },
        _ => {},
    }
}

/// A closed body stays closed when an expression is added whose handles are
/// handles of the body, and the handle of the new expression is one of the
/// body that results.
pub proof fn lemma_with_expr_closed(st: BodyModel, e: ExprModel, range: (nat, nat))
    requires
        st.closed(),
        e.closed_in(st.exprs.len(), st.stmts.len()),
    ensures
        st.with_expr(e, range).0.closed(),
        st.grown_to(st.with_expr(e, range).0),
        within(st.with_expr(e, range).1, st.with_expr(e, range).0.exprs.len()),
{
    let out = st.with_expr(e, range).0;
    if st.exprs.len() < u32::MAX {
        assert forall|i: int| 0 <= i < out.exprs.len() implies (#[trigger] out.exprs[i]).closed_in(
            out.exprs.len(),
            out.stmts.len(),
        ) by {
            if i < st.exprs.len() {
                lemma_closed_in_more(
                    st.exprs[i],
                    st.exprs.len(),
                    st.stmts.len(),
                    out.exprs.len(),
                    out.stmts.len(),
                );
            } else {
                lemma_closed_in_more(
                    e,
                    st.exprs.len(),
                    st.stmts.len(),
                    out.exprs.len(),
                    out.stmts.len(),
                );
            }
        }
        assert forall|i: int| 0 <= i < out.stmts.len() implies (#[trigger] out.stmts[i]).closed_in(
            out.exprs.len(),
            out.pats.len(),
        ) by {
            assert(st.stmts[i].closed_in(st.exprs.len(), st.pats.len()));
        }
    }
}

/// A closed body stays closed when a pattern is added.
pub proof fn lemma_with_pat_closed(st: BodyModel, p: PatModel, range: (nat, nat))
    requires
        st.closed(),
    ensures
        st.with_pat(p, range).0.closed(),
        st.grown_to(st.with_pat(p, range).0),
        within(st.with_pat(p, range).1, st.with_pat(p, range).0.pats.len()),
{
    let out = st.with_pat(p, range).0;
    assert forall|i: int| 0 <= i < out.stmts.len() implies (#[trigger] out.stmts[i]).closed_in(
        out.exprs.len(),
        out.pats.len(),
    ) by {
        assert(st.stmts[i].closed_in(st.exprs.len(), st.pats.len()));
    }
}

/// A closed body stays closed when a statement is added whose handles are
/// handles of the body.
pub proof fn lemma_with_stmt_closed(st: BodyModel, s: StmtModel, range: (nat, nat))
    requires
        st.closed(),
        s.closed_in(st.exprs.len(), st.pats.len()),
    ensures
        st.with_stmt(s, range).0.closed(),
        st.grown_to(st.with_stmt(s, range).0),
        within(st.with_stmt(s, range).1, st.with_stmt(s, range).0.stmts.len()),
{
    let out = st.with_stmt(s, range).0;
    if st.stmts.len() < u32::MAX {
        assert forall|i: int| 0 <= i < out.exprs.len() implies (#[trigger] out.exprs[i]).closed_in(
            out.exprs.len(),
            out.stmts.len(),
        ) by {
            lemma_closed_in_more(
                st.exprs[i],
                st.exprs.len(),
                st.stmts.len(),
                out.exprs.len(),
                out.stmts.len(),
            );
        }
        assert forall|i: int| 0 <= i < out.stmts.len() implies (#[trigger] out.stmts[i]).closed_in(
            out.exprs.len(),
            out.pats.len(),
        ) by {
            if i < st.stmts.len() {
                assert(st.stmts[i].closed_in(st.exprs.len(), st.pats.len()));
            }
        }
    }
}

/// Something that lowering found wrong, and where.
#[derive(Clone, Copy, Debug, PartialEq, Eq)]
pub struct LowerError {
    pub kind: LowerErrorKind,
    pub range: TextRange,
}

/// The body of a function.
#[derive(Debug, PartialEq, Eq)]
pub struct Body {
    exprs: Arena<Expr>,
    pats: Arena<Pat>,
    stmts: Arena<Stmt>,
    source_map: ArenaMap<ExprId, TextRange>,
    errors: Vec<LowerError>,
    params: Vec<PatId>,
    root: ExprId,
}

/// The bounds of a range.
pub open spec fn bounds(range: TextRange) -> (nat, nat) {
    (range.lo(), range.hi())
}

impl View for Body {
    type V = BodyModel;

    closed spec fn view(&self) -> BodyModel {
        BodyModel {
            exprs: self.exprs@.map_values(|e: Expr| e@),
            pats: self.pats@.map_values(|p: Pat| p@),
            stmts: self.stmts@.map_values(|s: Stmt| s@),
            ranges: Seq::new(self.exprs@.len(), |i: int| bounds(self.source_map@[(i + 1) as nat])),
            errors: self.errors@.map_values(|e: LowerError| (e.kind, bounds(e.range))),
        }
    }
}

impl Body {
    #[verifier::type_invariant]
    spec fn well_formed(self) -> bool {
        forall|k: nat| 1 <= k <= self.exprs@.len() <==> #[trigger] self.source_map@.contains_key(k)
    }

    /// The handles of the parameters, as numbers.
    pub closed spec fn params_model(&self) -> Seq<nat> {
        numbers(self.params@)
    }

    /// The handle of the root, as a number.
    pub closed spec fn root_model(&self) -> nat {
        self.root@
    }

    /// Puts a body together from its parts.
    pub(crate) fn assemble(
        exprs: Arena<Expr>,
        pats: Arena<Pat>,
        stmts: Arena<Stmt>,
        ranges: Vec<TextRange>,
        errors: Vec<LowerError>,
        params: Vec<PatId>,
        root: ExprId,
    ) -> (r: Body)
        requires
            ranges@.len() == exprs@.len() <= u32::MAX,
        ensures
            r@ == (BodyModel {
                exprs: exprs@.map_values(|e: Expr| e@),
                pats: pats@.map_values(|p: Pat| p@),
                stmts: stmts@.map_values(|s: Stmt| s@),
                ranges: ranges@.map_values(|r: TextRange| bounds(r)),
                errors: errors@.map_values(|e: LowerError| (e.kind, bounds(e.range))),
            }),
            r.params_model() == numbers(params@),
            r.root_model() == root@,
    {
        let mut source_map: ArenaMap<ExprId, TextRange> = ArenaMap::default();
        let mut i: usize = 0;
        while i < ranges.len()
            invariant
                i <= ranges@.len() <= u32::MAX,
                forall|k: nat| 1 <= k <= i <==> #[trigger] source_map@.contains_key(k),
                forall|k: nat| 1 <= k <= i ==> source_map@[k] == ranges@[k - 1],
            decreases ranges.len() - i,
        {
            let id: ExprId = Idx::from_raw(crate::arena::RawId((i + 1) as u32));
            source_map.insert(id, ranges[i]);
            i = i + 1;
        }
        let r = Body { exprs, pats, stmts, source_map, errors, params, root };
        assert(r@.ranges =~= ranges@.map_values(|r: TextRange| bounds(r)));
        r
    }

    /// The expressions of the body.
    pub fn exprs(&self) -> (r: &Arena<Expr>)
        ensures
            r@.map_values(|e: Expr| e@) == self@.exprs,
    {
        &self.exprs
    }

    /// The patterns of the body.
    pub fn pats(&self) -> (r: &Arena<Pat>)
        ensures
            r@.map_values(|p: Pat| p@) == self@.pats,
    {
        &self.pats
    }

    /// The statements of the body.
    pub fn stmts(&self) -> (r: &Arena<Stmt>)
        ensures
            r@.map_values(|s: Stmt| s@) == self@.stmts,
    {
        &self.stmts
    }

    /// The patterns of the parameters, in order.
    pub fn params(&self) -> (r: &Vec<PatId>)
        ensures
            numbers(r@) == self.params_model(),
    {
        &self.params
    }

    /// The expression that the body is.
    pub fn root(&self) -> (r: ExprId)
        ensures
            r@ == self.root_model(),
    {
        self.root
    }

    /// What lowering found wrong, in the order in which it was found.
    pub fn errors(&self) -> (r: &Vec<LowerError>)
        ensures
            r@.map_values(|e: LowerError| (e.kind, bounds(e.range))) == self@.errors,
    {
        &self.errors
    }

    /// For each expression, the range of the source that it was made of.
    pub fn source_map(&self) -> (r: &ArenaMap<ExprId, TextRange>)
        ensures
            forall|k: nat| 1 <= k <= self@.exprs.len() <==> #[trigger] r@.contains_key(k),
            forall|k: nat|
                1 <= k <= self@.exprs.len() ==> bounds(#[trigger] r@[k]) == self@.ranges[k - 1],
    {
        proof {
            use_type_invariant(self);
        }
        &self.source_map
    }
}

} // verus!
