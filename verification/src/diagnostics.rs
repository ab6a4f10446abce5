//! What is wrong with a file: the errors of its parse, the names that it
//! defines twice, and what lowering finds wrong with its functions.

use crate::ast::nodes::{ModuleItem, ModuleItemKind, Name};
use crate::hir::lower::{function_body, lower_function};
use crate::hir::{bounds, LowerError, LowerErrorKind};
use crate::ast::traits::ModuleItemOwner;
use crate::ast::{all_castable, child_opt, first_castable, AstNode};
use crate::ids::FileId;
use crate::parser::{Parse, ParseError, ParseErrorKind};
use crate::syntax_kind::SyntaxKind;
use crate::syntax_node::Cursor;
use crate::text::{TextRange, TextSize};
use vstd::prelude::*;

verus! {

/// How much a diagnostic matters.
#[derive(Clone, Copy, Debug, PartialEq, Eq, Structural, Hash)]
pub enum Severity {
    Error,
    Warning,
    Hint,
}

/// What a diagnostic is about.
#[derive(Clone, Copy, Debug, PartialEq, Eq, Structural, Hash)]
pub enum DiagnosticKind {
    /// The parser met an error.
    Syntax(ParseErrorKind),
    /// An item has the name of an earlier item of the same file.
    DuplicateDefinition,
    /// Lowering found something wrong with the body of a function.
    Lowering(LowerErrorKind),
}

/// The mathematical content of a diagnostic.
pub struct DiagnosticModel {
    pub file_id: FileId,
    pub range: (nat, nat),
    pub severity: Severity,
    pub kind: DiagnosticKind,
}

/// A diagnostic: something that is wrong at a place of a file.
#[derive(Clone, Copy, Debug, PartialEq, Eq)]
pub struct Diagnostic {
    pub file_id: FileId,
    pub range: TextRange,
    pub severity: Severity,
    pub kind: DiagnosticKind,
}

impl View for Diagnostic {
    type V = DiagnosticModel;

    open spec fn view(&self) -> DiagnosticModel {
        DiagnosticModel {
            file_id: self.file_id,
            range: (self.range.lo(), self.range.hi()),
            severity: self.severity,
            kind: self.kind,
        }
    }
}

impl Diagnostic {
    /// The number by which tools tell kinds of diagnostics apart: 1 for an
    /// error of the parse, 100 for a name that is defined twice, 200 for
    /// what lowering found.
    pub fn code(&self) -> (r: Option<u32>)
        ensures
            r == match self.kind {
                DiagnosticKind::Syntax(_) => Some(1u32),
                DiagnosticKind::DuplicateDefinition => Some(100u32),
                DiagnosticKind::Lowering(_) => Some(200u32),
            },
    {
        match self.kind {
            DiagnosticKind::Syntax(_) => Some(1),
            DiagnosticKind::DuplicateDefinition => Some(100),
            DiagnosticKind::Lowering(_) => Some(200),
        }
    }

    /// What is wrong, in words.
    pub fn message(&self) -> (r: String)
        ensures
            r@ == message_of(self.kind),
    {
        match self.kind {
            DiagnosticKind::Syntax(kind) => match kind {
                ParseErrorKind::ExpectedItem => "expected a function or a struct".to_owned(),
                ParseErrorKind::ExpectedName => "expected a name".to_owned(),
                ParseErrorKind::ExpectedType => "expected a type".to_owned(),
                ParseErrorKind::ExpectedPattern => "expected a pattern".to_owned(),
                ParseErrorKind::ExpectedExpression => "expected an expression".to_owned(),
                ParseErrorKind::ExpectedBlock => "expected a block".to_owned(),
                ParseErrorKind::ExpectedParameters => "expected parameters".to_owned(),
                ParseErrorKind::ExpectedFields => "expected fields or a semicolon".to_owned(),
                ParseErrorKind::ExpectedToken(_) => "expected another token".to_owned(),
                ParseErrorKind::NestingTooDeep => "nesting is too deep".to_owned(),
            },
            DiagnosticKind::DuplicateDefinition => "the name is defined more than once".to_owned(),
            DiagnosticKind::Lowering(kind) => match kind {
                LowerErrorKind::BreakOutsideLoop => "`break` outside of a loop".to_owned(),
                LowerErrorKind::TooLarge => "the function is too large".to_owned(),
                LowerErrorKind::TooDeep => "the function nests too deep".to_owned(),
            },
        }
    }
}

/// What a diagnostic of `kind` says.
pub open spec fn message_of(kind: DiagnosticKind) -> Seq<char> {
    match kind {
        DiagnosticKind::Syntax(kind) => match kind {
            ParseErrorKind::ExpectedItem => "expected a function or a struct"@,
            ParseErrorKind::ExpectedName => "expected a name"@,
            ParseErrorKind::ExpectedType => "expected a type"@,
            ParseErrorKind::ExpectedPattern => "expected a pattern"@,
            ParseErrorKind::ExpectedExpression => "expected an expression"@,
            ParseErrorKind::ExpectedBlock => "expected a block"@,
            ParseErrorKind::ExpectedParameters => "expected parameters"@,
            ParseErrorKind::ExpectedFields => "expected fields or a semicolon"@,
            ParseErrorKind::ExpectedToken(_) => "expected another token"@,
            ParseErrorKind::NestingTooDeep => "nesting is too deep"@,
        },
        DiagnosticKind::DuplicateDefinition => "the name is defined more than once"@,
        DiagnosticKind::Lowering(kind) => match kind {
            LowerErrorKind::BreakOutsideLoop => "`break` outside of a loop"@,
            LowerErrorKind::TooLarge => "the function is too large"@,
            LowerErrorKind::TooDeep => "the function nests too deep"@,
        },
    }
}

/// The diagnostic that a parse error becomes: an error at the offset of the
/// parse error.
pub open spec fn syntax_diagnostic(file_id: FileId, error: ParseError) -> DiagnosticModel {
    DiagnosticModel {
        file_id,
        range: (error.offset as nat, error.offset as nat),
        severity: Severity::Error,
        kind: DiagnosticKind::Syntax(error.kind),
    }
}

/// The name of the item under `item`, where it has one.
pub open spec fn item_name(item: Cursor) -> Option<Cursor> {
    first_castable::<Name>(item.child_nodes(), 0)
}

/// Whether item `j` has a name that an earlier one of `items` has too.
pub open spec fn repeats_name(items: Seq<Cursor>, j: int) -> bool {
    item_name(items[j]) is Some && exists|i: int|
        0 <= i < j && item_name(#[trigger] items[i]) is Some && item_name(items[i])->0.green.text()
            == item_name(items[j])->0.green.text()
}

/// The diagnostics for the first `k` of `items`: one for each whose name an
/// earlier item has, at that name.
pub open spec fn duplicates(file_id: FileId, items: Seq<Cursor>, k: nat) -> Seq<DiagnosticModel>
    decreases k,
{
    if k == 0 || k > items.len() {
        Seq::empty()
    } else if repeats_name(items, k - 1) {
        duplicates(file_id, items, (k - 1) as nat).push(
            DiagnosticModel {
                file_id,
                range: (item_name(items[k - 1])->0.offset, item_name(items[k - 1])->0.end()),
                severity: Severity::Error,
                kind: DiagnosticKind::DuplicateDefinition,
            },
        )
    } else {
        duplicates(file_id, items, (k - 1) as nat)
    }
}

/// The diagnostic that something that lowering found wrong becomes.
pub open spec fn lowering_diagnostic(
    file_id: FileId,
    error: (LowerErrorKind, (nat, nat)),
) -> DiagnosticModel {
    DiagnosticModel {
        file_id,
        range: error.1,
        severity: Severity::Error,
        kind: DiagnosticKind::Lowering(error.0),
    }
}

/// The diagnostics for the bodies of the first `k` of `items`: for each
/// function, what lowering finds wrong with it.
pub open spec fn body_diagnostics(file_id: FileId, items: Seq<Cursor>, k: nat) -> Seq<
    DiagnosticModel,
>
    decreases k,
{
    if k == 0 || k > items.len() {
        Seq::empty()
    } else if items[k - 1].kind() == SyntaxKind::FUNCTION_DEF {
        body_diagnostics(file_id, items, (k - 1) as nat) + function_body(
            items[k - 1],
        ).0.errors.map_values(|e: (LowerErrorKind, (nat, nat))| lowering_diagnostic(file_id, e))
    } else {
        body_diagnostics(file_id, items, (k - 1) as nat)
    }
}

/// The diagnostics of a file that parsed to the tree under `root` with
/// `errors`: first the errors of the parse, in source order, then the names
/// that are defined twice, in source order, then what lowering finds wrong
/// with the functions, function by function.
pub open spec fn diagnostics_for(file_id: FileId, root: Cursor, errors: Seq<ParseError>) -> Seq<
    DiagnosticModel,
> {
    let items = all_castable::<ModuleItem>(root.child_nodes());
    errors.map_values(|e: ParseError| syntax_diagnostic(file_id, e)) + duplicates(
        file_id,
        items,
        items.len(),
    ) + body_diagnostics(file_id, items, items.len())
}

/// Whether two runs of bytes are the same.
fn same_bytes(a: &Vec<u8>, b: &Vec<u8>) -> (r: bool)
    ensures
        r == (a@ == b@),
{
    if a.len() != b.len() {
        return false;
    }
    let mut i: usize = 0;
    while i < a.len()
        invariant
            i <= a@.len(),
            a@.len() == b@.len(),
            forall|j: int| 0 <= j < i ==> a@[j] == b@[j],
        decreases a.len() - i,
    {
        if a[i] != b[i] {
            return false;
        }
        i = i + 1;
    }
    assert(a@ =~= b@);
    true
}

/// The diagnostics of the file `file_id`, which parsed to `parse`.
pub fn diagnostics(file_id: FileId, parse: &Parse) -> (r: Vec<Diagnostic>)
    ensures
        r@.map_values(|d: Diagnostic| d@) == diagnostics_for(
            file_id,
            Cursor::root(parse.tree_model()),
            parse.errors_model(),
        ),
{
    let ghost view = |d: Diagnostic| d@;
    let ghost convert = |e: ParseError| syntax_diagnostic(file_id, e);
    let mut out: Vec<Diagnostic> = Vec::new();
    let errors = parse.errors();
    let mut i: usize = 0;
    while i < errors.len()
        invariant
            i <= errors@.len(),
            view == (|d: Diagnostic| d@),
            convert == (|e: ParseError| syntax_diagnostic(file_id, e)),
            out@.map_values(view) == errors@.take(i as int).map_values(convert),
        decreases errors.len() - i,
    {
        let at = TextSize::new(errors[i].offset);
        let entry = Diagnostic {
            file_id,
            range: TextRange::new(at, at),
            severity: Severity::Error,
            kind: DiagnosticKind::Syntax(errors[i].kind),
        };
        let ghost before = out@;
        out.push(entry);
        assert(out@.map_values(view) =~= before.map_values(view).push(entry@));
        assert(errors@.take(i + 1).map_values(convert) =~= errors@.take(i as int).map_values(
            convert,
        ).push(syntax_diagnostic(file_id, errors@[i as int])));
        i = i + 1;
    }
    assert(errors@.take(i as int) =~= errors@);
    let ghost syntax = out@.map_values(view);

    let file = parse.tree();
    let items = file.items();
    let ghost cursors = all_castable::<ModuleItem>(file.node().child_nodes());
    assert(items@.len() == cursors.len()) by {
        assert(items@.map_values(|c: ModuleItem| c.node()).len() == cursors.len());
    }
    // The names of the items met so far; none for an item without a name.
    let mut names: Vec<Option<Vec<u8>>> = Vec::new();
    let mut j: usize = 0;
    while j < items.len()
        invariant
            j <= items@.len(),
            items@.len() == cursors.len(),
            items@.map_values(|c: ModuleItem| c.node()) == cursors,
            view == (|d: Diagnostic| d@),
            names@.len() == j,
            forall|i: int|
                0 <= i < j ==> match (#[trigger] names@[i]) {
                    Some(n) => item_name(cursors[i]) is Some && n@ == item_name(
                        cursors[i],
                    )->0.green.text(),
                    None => item_name(cursors[i]) is None,
                },
            out@.map_values(view) == syntax + duplicates(file_id, cursors, j as nat),
        decreases items.len() - j,
    {
        assert(items@.map_values(|c: ModuleItem| c.node())[j as int] == cursors[j as int]);
        let name: Option<Name> = child_opt(&items[j]);
        match name {
            Some(name) => {
                let text = name.syntax().text();
                let mut seen = false;
                let mut i: usize = 0;
                while i < j
                    invariant
                        i <= j,
                        j < cursors.len(),
                        names@.len() == j,
                        item_name(cursors[j as int]) is Some,
                        text@ == item_name(cursors[j as int])->0.green.text(),
                        forall|i: int|
                            0 <= i < j ==> match (#[trigger] names@[i]) {
                                Some(n) => item_name(cursors[i]) is Some && n@ == item_name(
                                    cursors[i],
                                )->0.green.text(),
                                None => item_name(cursors[i]) is None,
                            },
                        seen == exists|k: int|
                            0 <= k < i && item_name(#[trigger] cursors[k]) is Some && item_name(
                                cursors[k],
                            )->0.green.text() == text@,
                    decreases j - i,
                {
                    let ghost probe = names@[i as int];
                    match &names[i] {
                        Some(earlier) => {
                            if same_bytes(earlier, &text) {
                                seen = true;
                            }
                        },
                        None => {},
                    }
                    i = i + 1;
                }
                if seen {
                    let entry = Diagnostic {
                        file_id,
                        range: name.syntax().text_range(),
                        severity: Severity::Error,
                        kind: DiagnosticKind::DuplicateDefinition,
                    };
                    let ghost before = out@;
                    out.push(entry);
                    assert(out@.map_values(view) =~= before.map_values(view).push(entry@));
                }
                names.push(Some(text));
            },
            None => {
                names.push(None);
            },
        }
        j = j + 1;
    }
    let ghost named = out@.map_values(view);
    let ghost lowered = |e: (LowerErrorKind, (nat, nat))| lowering_diagnostic(file_id, e);
    let mut k: usize = 0;
    assert(out@.map_values(view) =~= named + body_diagnostics(file_id, cursors, 0));
    while k < items.len()
        invariant
            k <= items@.len(),
            items@.len() == cursors.len(),
            items@.map_values(|c: ModuleItem| c.node()) == cursors,
            view == (|d: Diagnostic| d@),
            lowered == (|e: (LowerErrorKind, (nat, nat))| lowering_diagnostic(file_id, e)),
            out@.map_values(view) == named + body_diagnostics(file_id, cursors, k as nat),
        decreases items.len() - k,
    {
        assert(items@.map_values(|c: ModuleItem| c.node())[k as int] == cursors[k as int]);
        match items[k].kind() {
            ModuleItemKind::FunctionDef(function) => {
                let body = lower_function(&function);
                let errors = body.errors();
                let ghost models = function_body(cursors[k as int]).0.errors;
                let ghost start = out@.map_values(view);
                let mut e: usize = 0;
                assert(out@.map_values(view) =~= start + models.take(0).map_values(lowered));
                while e < errors.len()
                    invariant
                        e <= errors@.len(),
                        view == (|d: Diagnostic| d@),
                        lowered == (|e: (LowerErrorKind, (nat, nat))|
                            lowering_diagnostic(file_id, e)),
                        errors@.map_values(|e: LowerError| (e.kind, bounds(e.range))) == models,
                        out@.map_values(view) == start + models.take(e as int).map_values(lowered),
                    decreases errors.len() - e,
                {
                    let entry = Diagnostic {
                        file_id,
                        range: errors[e].range,
                        severity: Severity::Error,
                        kind: DiagnosticKind::Lowering(errors[e].kind),
                    };
                    assert(errors@.map_values(|e: LowerError| (e.kind, bounds(e.range)))[e as int]
                        == models[e as int]);
                    let ghost before = out@;
                    out.push(entry);
                    assert(out@.map_values(view) =~= before.map_values(view).push(entry@));
                    assert(models.take(e + 1).map_values(lowered) =~= models.take(
                        e as int,
                    ).map_values(lowered).push(lowering_diagnostic(file_id, models[e as int])));
                    e = e + 1;
                }
                assert(models.take(e as int) =~= models);
                assert(out@.map_values(view) =~= named + (body_diagnostics(
                    file_id,
                    cursors,
                    k as nat,
                ) + models.map_values(lowered)));
            },
            ModuleItemKind::StructDef(_) => {},
        }
        k = k + 1;
    }
    out
}

} // verus!
