use mun_frontend::cancelation::{checked, is_stale, Canceled};
use mun_frontend::capabilities::{
    server_capabilities, ClientCapabilities, ServerCapabilities, TextDocumentSyncKind,
};
use mun_frontend::interner::{Interner, NameId};
use mun_frontend::line_index::{LineCol, LineIndex};
use mun_frontend::symbol_kind::SymbolKind;
use mun_frontend::text::{TextRange, TextSize};
use mun_frontend::to_lsp::{
    has_windows_drive, is_drive_prefix, lowercase_drive, position, range, rewritten_address,
    settled_address, symbol_kind,
    url_from_path_with_drive_lowercasing, LspRange, LspSymbolKind, Position, PrefixKind, UrlError,
};

fn range_of(start: u32, end: u32) -> TextRange {
    TextRange::new(TextSize::new(start), TextSize::new(end))
}

#[test]
fn text_range_knows_its_bounds() {
    let r = range_of(3, 8);
    assert_eq!(r.start().to_u32(), 3);
    assert_eq!(r.end().to_u32(), 8);
    assert_eq!(r.len().to_u32(), 5);
    assert!(!r.is_empty());
    assert!(range_of(4, 4).is_empty());
    assert!(r.contains(TextSize::new(3)));
    assert!(r.contains(TextSize::new(7)));
    assert!(!r.contains(TextSize::new(8)));
    assert!(!r.contains(TextSize::new(2)));
    assert!(r.contains_range(range_of(3, 8)));
    assert!(r.contains_range(range_of(4, 5)));
    assert!(!r.contains_range(range_of(2, 5)));
    assert!(!r.contains_range(range_of(4, 9)));
    assert_eq!(TextRange::at(TextSize::new(3), TextSize::new(5)), r);
}

#[test]
fn line_index_of_empty_text_is_one_empty_line() {
    let index = LineIndex::new("");
    assert_eq!(index.line_col(TextSize::new(0)), LineCol { line: 0, col_utf16: 0 });
}

#[test]
fn line_index_counts_lines_and_columns() {
    let index = LineIndex::new("hello\nworld\n\nend");
    let at = |offset: u32| {
        let lc = index.line_col(TextSize::new(offset));
        (lc.line, lc.col_utf16)
    };
    assert_eq!(at(0), (0, 0));
    assert_eq!(at(5), (0, 5));
    assert_eq!(at(6), (1, 0));
    assert_eq!(at(11), (1, 5));
    assert_eq!(at(12), (2, 0));
    assert_eq!(at(13), (3, 0));
    assert_eq!(at(16), (3, 3));
    assert_eq!(index.clone(), index);
}

#[test]
fn line_index_counts_columns_in_utf16_units() {
    // a (1 byte), ä (2 bytes), € (3 bytes), 😀 (4 bytes, 2 units), b
    let text = "a\u{e4}\u{20ac}\u{1F600}b\nx";
    let index = LineIndex::new(text);
    let at = |offset: u32| {
        let lc = index.line_col(TextSize::new(offset));
        (lc.line, lc.col_utf16)
    };
    assert_eq!(at(0), (0, 0));
    assert_eq!(at(1), (0, 1));
    assert_eq!(at(3), (0, 2));
    assert_eq!(at(6), (0, 3));
    assert_eq!(at(10), (0, 5));
    assert_eq!(at(11), (0, 6));
    assert_eq!(at(12), (1, 0));
}

#[test]
fn position_and_range_follow_the_line_index() {
    let index = LineIndex::new("fn main() {\n    1\n}\n");
    assert_eq!(position(TextSize::new(16), &index), Position { line: 1, character: 4 });
    assert_eq!(
        range(range_of(3, 19), &index),
        LspRange {
            start: Position { line: 0, character: 3 },
            end: Position { line: 2, character: 1 },
        }
    );
}

#[test]
fn symbol_kinds_map_to_editor_kinds() {
    assert_eq!(symbol_kind(SymbolKind::Function), LspSymbolKind::Function);
    assert_eq!(symbol_kind(SymbolKind::Struct), LspSymbolKind::Struct);
    assert_eq!(symbol_kind(SymbolKind::TypeAlias), LspSymbolKind::TypeParameter);
}

#[test]
fn server_offers_incremental_sync_and_document_symbols() {
    assert_eq!(
        server_capabilities(&ClientCapabilities {}),
        ServerCapabilities {
            text_document_sync: Some(TextDocumentSyncKind::Incremental),
            document_symbol_provider: Some(true),
        }
    );
}

#[test]
fn drive_prefixes_are_told_apart() {
    assert!(is_drive_prefix(Some(PrefixKind::Disk)));
    assert!(is_drive_prefix(Some(PrefixKind::VerbatimDisk)));
    assert!(!is_drive_prefix(Some(PrefixKind::Unc)));
    assert!(!is_drive_prefix(Some(PrefixKind::Verbatim)));
    assert!(!is_drive_prefix(Some(PrefixKind::VerbatimUnc)));
    assert!(!is_drive_prefix(Some(PrefixKind::DeviceNs)));
    assert!(!is_drive_prefix(None));
    assert!(has_windows_drive(&vec![None, Some(PrefixKind::Disk)]));
    assert!(!has_windows_drive(&vec![None, Some(PrefixKind::Unc), None]));
    assert!(!has_windows_drive(&Vec::new()));
}

#[test]
fn drive_letter_is_lowercased_before_the_last_colon() {
    assert_eq!(
        lowercase_drive(b"file:///C:/Users/Me/Main.mun"),
        Some(b"file:///c:/Users/Me/Main.mun".to_vec())
    );
    assert_eq!(lowercase_drive(b"FILE:///C:/X"), Some(b"file:///c:/X".to_vec()));
    assert_eq!(lowercase_drive(b"no colon here"), None);
    assert_eq!(lowercase_drive(b""), None);
    assert_eq!(lowercase_drive(b":"), Some(b":".to_vec()));
    assert_eq!(lowercase_drive(b"A@Z[:Q"), Some(b"a@z[:Q".to_vec()));
    assert_eq!(rewritten_address(true, b"file:///C:/X"), Some(b"file:///c:/X".to_vec()));
    assert_eq!(rewritten_address(false, b"file:///C:/X"), None);
    assert_eq!(rewritten_address(true, b"file"), None);
}

#[test]
fn file_paths_become_file_addresses() {
    let url = url_from_path_with_drive_lowercasing("/home/user/Project/main.mun").unwrap();
    assert_eq!(url.as_str(), "file:///home/user/Project/main.mun");
    let spaced = url_from_path_with_drive_lowercasing("/tmp/a b.mun").unwrap();
    assert_eq!(spaced.as_str(), "file:///tmp/a%20b.mun");
    assert_eq!(
        url_from_path_with_drive_lowercasing("relative/path.mun"),
        Err(UrlError::NotAFilePath)
    );
}

#[test]
fn stale_snapshots_answer_canceled() {
    assert_eq!(checked(3, 3, "value"), Ok("value"));
    assert_eq!(checked(3, 4, "value"), Err(Canceled));
    assert_eq!(checked(3, 2, "value"), Err(Canceled));
    assert!(!is_stale(3, 3));
    assert!(is_stale(3, 4));
    assert!(is_stale(3, 2));
}

#[test]
fn addresses_are_settled_by_what_the_parts_gave() {
    let plain = lsp_types::Url::parse("file:///C:/Dir/a.mun").unwrap();
    let lowered = lsp_types::Url::parse("file:///c:/Dir/a.mun").unwrap();
    assert_eq!(settled_address(None, None), Err(UrlError::NotAFilePath));
    assert_eq!(settled_address(None, Some(Some(lowered.clone()))), Err(UrlError::NotAFilePath));
    assert_eq!(settled_address(Some(plain.clone()), None), Ok(plain.clone()));
    assert_eq!(
        settled_address(Some(plain.clone()), Some(Some(lowered.clone()))),
        Ok(lowered)
    );
    assert_eq!(settled_address(Some(plain), Some(None)), Err(UrlError::NotAnAddress));
}

#[test]
fn equal_names_get_equal_handles() {
    let mut names = Interner::new();
    let a = names.intern(b"alpha");
    let b = names.intern(b"beta");
    let a_again = names.intern(b"alpha");
    let empty = names.intern(b"");
    assert_eq!(a, NameId(0));
    assert_eq!(b, NameId(1));
    assert_eq!(a_again, a);
    assert_eq!(empty, NameId(2));
    assert_eq!(names.len(), 3);
    assert_eq!(names.lookup(a), b"alpha");
    assert_eq!(names.lookup(b), b"beta");
    assert_eq!(names.lookup(empty), b"");
}
