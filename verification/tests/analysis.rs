use mun_frontend::analysis::Analysis;
use mun_frontend::cancelation::Canceled;
use mun_frontend::change::{AnalysisChange, PackageInfo, PackageSet, SourceRoot};
use mun_frontend::diagnostics::{DiagnosticKind, Severity};
use mun_frontend::ids::{FileId, PackageId, SourceRootId};
use mun_frontend::line_index::LineCol;
use mun_frontend::memo::Memo;
use mun_frontend::parser::ParseErrorKind;
use mun_frontend::symbol_kind::SymbolKind;
use mun_frontend::text::TextSize;

fn analysis_with(files: &[(u32, &str)]) -> Analysis {
    let mut change = AnalysisChange::new();
    let mut root = SourceRoot { files: Vec::new() };
    for (id, text) in files {
        root.files.push(FileId(*id));
        change = change.replace_file(FileId(*id), Some(text.to_string()));
    }
    change = change.set_roots(vec![root]);
    change = change.set_packages(PackageSet {
        packages: vec![PackageInfo { source_root: SourceRootId(0) }],
    });
    let mut analysis = Analysis::new();
    analysis.apply_change(change);
    analysis
}

#[test]
fn snapshot_answers_queries() {
    let analysis = analysis_with(&[(1, "fn main() {}\nstruct Foo;\n"), (2, "fn other() {}")]);
    let snapshot = analysis.snapshot();
    assert!(snapshot.has_file(FileId(1)));
    assert!(!snapshot.has_file(FileId(7)));
    assert!(snapshot.has_package(PackageId(0)));
    assert!(!snapshot.has_package(PackageId(1)));
    assert_eq!(snapshot.diagnostics(FileId(1)), Ok(Vec::new()));
    assert_eq!(
        snapshot.package_source_files(PackageId(0)),
        Ok(vec![FileId(1), FileId(2)])
    );
    let structure = snapshot.file_structure(FileId(1)).unwrap();
    assert_eq!(structure.len(), 2);
    assert_eq!(structure[0].label(), "main");
    assert_eq!(structure[0].kind, SymbolKind::Function);
    assert_eq!(structure[0].detail(), Some("fn()".to_string()));
    assert_eq!(structure[0].parent, None);
    assert_eq!(structure[1].label(), "Foo");
    assert_eq!(structure[1].kind, SymbolKind::Struct);
    assert_eq!(structure[1].detail(), None);
    let index = snapshot.file_line_index(FileId(1)).unwrap();
    assert_eq!(index.line_col(TextSize::new(13)), LineCol { line: 1, col_utf16: 0 });
    assert_eq!(index.line_col(TextSize::new(19)), LineCol { line: 1, col_utf16: 6 });
}

#[test]
fn snapshot_is_consistent() {
    let analysis = analysis_with(&[(1, "fn f( { let x = ; }\nfn f() {}")]);
    let snapshot = analysis.snapshot();
    let first = snapshot.diagnostics(FileId(1));
    let second = snapshot.diagnostics(FileId(1));
    assert!(first.is_ok());
    assert_eq!(first, second);
    assert_eq!(snapshot.file_structure(FileId(1)), snapshot.file_structure(FileId(1)));
}

#[test]
fn diagnostics_list_syntax_errors_then_duplicates() {
    let analysis = analysis_with(&[(3, "fn a() {}\nfn b( {}\nfn a() {}\nstruct b;")]);
    let diagnostics = analysis.snapshot().diagnostics(FileId(3)).unwrap();
    let kinds: Vec<DiagnosticKind> = diagnostics.iter().map(|d| d.kind).collect();
    assert_eq!(
        kinds,
        vec![
            DiagnosticKind::Syntax(ParseErrorKind::ExpectedToken(
                mun_frontend::syntax_kind::SyntaxKind::R_PAREN
            )),
            DiagnosticKind::DuplicateDefinition,
            DiagnosticKind::DuplicateDefinition,
        ]
    );
    assert!(diagnostics.iter().all(|d| d.file_id == FileId(3)));
    assert!(diagnostics.iter().all(|d| d.severity == Severity::Error));
    assert_eq!(diagnostics[1].range.start().to_u32(), 22);
    assert_eq!(diagnostics[1].range.end().to_u32(), 23);
    assert_eq!(diagnostics[1].message(), "the name is defined more than once");
    assert_eq!(diagnostics[0].message(), "expected another token");
    assert_eq!(diagnostics[0].code(), Some(1));
    assert_eq!(diagnostics[1].code(), Some(100));
}

#[test]
fn request_cancelation_cancels_outstanding_snapshots() {
    let mut analysis = analysis_with(&[(1, "fn main() {}")]);
    let snapshot = analysis.snapshot();
    assert!(!snapshot.is_canceled());
    assert!(snapshot.diagnostics(FileId(1)).is_ok());
    analysis.request_cancelation();
    assert!(snapshot.is_canceled());
    assert_eq!(snapshot.diagnostics(FileId(1)), Err(Canceled));
    assert_eq!(snapshot.file_structure(FileId(1)), Err(Canceled));
    assert_eq!(snapshot.package_source_files(PackageId(0)), Err(Canceled));
    assert!(snapshot.file_line_index(FileId(1)).is_err());
    // Asking again changes nothing: the snapshot stays canceled.
    analysis.request_cancelation();
    assert_eq!(snapshot.diagnostics(FileId(1)), Err(Canceled));
    // A fresh snapshot answers in full.
    let fresh = analysis.snapshot();
    assert_eq!(fresh.diagnostics(FileId(1)), Ok(Vec::new()));
}

#[test]
fn apply_change_cancels_and_shows_in_new_snapshots() {
    let mut analysis = analysis_with(&[(1, "fn main() {}")]);
    let stale = analysis.snapshot();
    analysis.apply_change(
        AnalysisChange::new().replace_file(FileId(1), Some("fn () {}".to_string())),
    );
    assert_eq!(stale.diagnostics(FileId(1)), Err(Canceled));
    let fresh = analysis.snapshot().diagnostics(FileId(1)).unwrap();
    assert_eq!(fresh.len(), 1);
    assert_eq!(fresh[0].kind, DiagnosticKind::Syntax(ParseErrorKind::ExpectedName));
    // A file that is taken away becomes empty.
    analysis.apply_change(AnalysisChange::new().replace_file(FileId(1), None));
    let snapshot = analysis.snapshot();
    assert_eq!(snapshot.diagnostics(FileId(1)), Ok(Vec::new()));
    assert_eq!(snapshot.file_structure(FileId(1)), Ok(Vec::new()));
}

#[test]
fn empty_change_keeps_what_queries_answer() {
    let mut analysis = analysis_with(&[(1, "fn a() {}\nfn a() {}"), (2, "struct S(int);")]);
    let before = analysis.snapshot();
    let diagnostics = before.diagnostics(FileId(1));
    let structure = before.file_structure(FileId(2));
    let files = before.package_source_files(PackageId(0));
    analysis.apply_change(AnalysisChange::new());
    let after = analysis.snapshot();
    assert_eq!(after.diagnostics(FileId(1)), diagnostics);
    assert_eq!(after.file_structure(FileId(2)), structure);
    assert_eq!(after.package_source_files(PackageId(0)), files);
    assert_eq!(before.diagnostics(FileId(1)), Err(Canceled));
}

#[test]
fn memo_answers_again_without_computing_again() {
    let mut analysis = analysis_with(&[(1, "fn a() { break; }"), (2, "fn b() {}")]);
    let snapshot = analysis.snapshot();
    let mut memo = Memo::new();
    assert_eq!(memo.count(), 0);
    let first = snapshot.diagnostics_once(&mut memo, FileId(1)).unwrap();
    assert_eq!(first.len(), 1);
    assert_eq!(
        first[0].kind,
        DiagnosticKind::Lowering(mun_frontend::hir::LowerErrorKind::BreakOutsideLoop)
    );
    assert_eq!(first[0].message(), "`break` outside of a loop");
    assert_eq!(first[0].code(), Some(200));
    assert_eq!(memo.count(), 1);
    let second = snapshot.diagnostics_once(&mut memo, FileId(1)).unwrap();
    assert_eq!(second, first);
    assert_eq!(memo.count(), 1);
    assert_eq!(snapshot.diagnostics_once(&mut memo, FileId(2)), Ok(Vec::new()));
    assert_eq!(memo.count(), 2);
    assert_eq!(memo.get(1), Some(&first));
    assert_eq!(memo.get(3), None);
    assert_eq!(snapshot.diagnostics(FileId(1)), Ok(first.clone()));
    // What was answered stays answered, even when the analysis has moved on;
    // what was not is then given up.
    let mut other = Memo::new();
    analysis.request_cancelation();
    assert_eq!(snapshot.diagnostics_once(&mut memo, FileId(1)), Ok(first));
    assert_eq!(snapshot.diagnostics_once(&mut other, FileId(1)), Err(Canceled));
    assert_eq!(other.count(), 0);
}

#[test]
fn diagnostics_depend_on_the_text_alone() {
    let text = "fn a() { break; }\nfn a( {}";
    let one = analysis_with(&[(5, text)]);
    let mut other = analysis_with(&[(5, "struct Other;"), (6, "fn unrelated() {}")]);
    other.apply_change(AnalysisChange::new().replace_file(FileId(5), Some(text.to_string())));
    other.apply_change(AnalysisChange::new().set_packages(PackageSet { packages: Vec::new() }));
    let first = one.snapshot().diagnostics(FileId(5)).unwrap();
    let second = other.snapshot().diagnostics(FileId(5)).unwrap();
    assert_eq!(first, second);
    assert_eq!(first.len(), 3);
    assert_eq!(
        one.snapshot().file_structure(FileId(5)),
        other.snapshot().file_structure(FileId(5))
    );
}

#[test]
fn placeholder_pattern_has_no_diagnostics() {
    let analysis = analysis_with(&[(1, "fn f() { let _ = 1; }")]);
    assert_eq!(analysis.snapshot().diagnostics(FileId(1)), Ok(Vec::new()));
}

#[test]
fn empty_file_has_an_empty_outline_and_one_empty_line() {
    let analysis = analysis_with(&[(1, "")]);
    let snapshot = analysis.snapshot();
    assert_eq!(snapshot.diagnostics(FileId(1)), Ok(Vec::new()));
    assert_eq!(snapshot.file_structure(FileId(1)), Ok(Vec::new()));
    let index = snapshot.file_line_index(FileId(1)).unwrap();
    assert_eq!(index.line_col(TextSize::new(0)), LineCol { line: 0, col_utf16: 0 });
}

#[test]
fn answers_go_by_the_revision_that_is_seen() {
    // One change was applied, so the snapshot is taken at revision 1.
    let analysis = analysis_with(&[(1, "fn a() {}\nfn a() {}"), (2, "struct S;")]);
    let snapshot = analysis.snapshot();
    let diagnostics = snapshot.diagnostics_at(1, FileId(1)).unwrap();
    assert_eq!(diagnostics.len(), 1);
    assert_eq!(diagnostics[0].kind, DiagnosticKind::DuplicateDefinition);
    assert_eq!(snapshot.diagnostics(FileId(1)), Ok(diagnostics));
    assert_eq!(snapshot.diagnostics_at(2, FileId(1)), Err(Canceled));
    assert_eq!(snapshot.diagnostics_at(0, FileId(1)), Err(Canceled));
    assert_eq!(
        snapshot.package_source_files_at(1, PackageId(0)),
        Ok(vec![FileId(1), FileId(2)])
    );
    assert_eq!(snapshot.package_source_files_at(7, PackageId(0)), Err(Canceled));
    let outline = snapshot.file_structure_at(1, FileId(2)).unwrap();
    assert_eq!(outline.len(), 1);
    assert_eq!(outline[0].label(), "S");
    assert_eq!(snapshot.file_structure_at(3, FileId(2)), Err(Canceled));
    let index = snapshot.file_line_index_at(1, FileId(1)).unwrap();
    assert_eq!(index.line_col(TextSize::new(10)), LineCol { line: 1, col_utf16: 0 });
    assert!(snapshot.file_line_index_at(2, FileId(1)).is_err());
}
