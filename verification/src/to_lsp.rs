//! Conversions from the values of this library to what an editor is told:
//! places, ranges, symbol kinds and file addresses.

use crate::line_index::LineIndex;
use crate::symbol_kind::SymbolKind;
use crate::text::{TextRange, TextSize};
use vstd::prelude::*;

verus! {

/// `lsp_types::Url`: an address. It is handed on as it is; nothing is known
/// of what it holds.
#[verifier::external_type_specification]
#[verifier::external_body]
pub struct ExUrl(lsp_types::Url);

/// `std::path::Component`: one component of a path.
#[verifier::external_type_specification]
#[verifier::external_body]
pub struct ExComponent<'a>(std::path::Component<'a>);

/// `std::path::Components`: what hands out the components of a path.
#[verifier::external_type_specification]
#[verifier::external_body]
pub struct ExComponents<'a>(std::path::Components<'a>);

/// A place in a document as an editor counts it.
#[derive(Clone, Copy, Debug, PartialEq, Eq, Structural)]
pub struct Position {
    /// The line, counted from zero.
    pub line: u32,
    /// The column on that line, in UTF-16 code units.
    pub character: u32,
}

/// A stretch of a document as an editor counts it.
#[derive(Clone, Copy, Debug, PartialEq, Eq, Structural)]
pub struct LspRange {
    pub start: Position,
    pub end: Position,
}

/// The kinds of symbol that an editor knows and this library uses.
#[derive(Clone, Copy, Debug, PartialEq, Eq, Structural)]
pub enum LspSymbolKind {
    Function,
    Struct,
    TypeParameter,
}

/// The place of `offset` in the text that `line_index` was built for.
pub fn position(offset: TextSize, line_index: &LineIndex) -> (r: Position)
    ensures
        r.line == line_index@.line(offset.raw as nat),
        r.character == if line_index@.column(offset.raw as nat) <= u32::MAX {
            line_index@.column(offset.raw as nat)
        } else {
            u32::MAX as int
        },
{
    let line_col = line_index.line_col(offset);
    Position { line: line_col.line, character: line_col.col_utf16 }
}

/// The places of the two ends of `text_range`.
pub fn range(text_range: TextRange, line_index: &LineIndex) -> (r: LspRange)
    ensures
        r.start.line == line_index@.line(text_range.lo()),
        r.end.line == line_index@.line(text_range.hi()),
        r.start.character == if line_index@.column(text_range.lo()) <= u32::MAX {
            line_index@.column(text_range.lo())
        } else {
            u32::MAX as int
        },
        r.end.character == if line_index@.column(text_range.hi()) <= u32::MAX {
            line_index@.column(text_range.hi())
        } else {
            u32::MAX as int
        },
{
    LspRange {
        start: position(text_range.start(), line_index),
        end: position(text_range.end(), line_index),
    }
}

/// Converts a symbol kind of this library to the one an editor is told.
pub fn symbol_kind(kind: SymbolKind) -> (r: LspSymbolKind)
    ensures
        r == match kind {
            SymbolKind::Function => LspSymbolKind::Function,
            SymbolKind::Struct => LspSymbolKind::Struct,
            SymbolKind::TypeAlias => LspSymbolKind::TypeParameter,
        },
{
    match kind {
        SymbolKind::Function => LspSymbolKind::Function,
        SymbolKind::Struct => LspSymbolKind::Struct,
        SymbolKind::TypeAlias => LspSymbolKind::TypeParameter,
    }
}

/// The forms that the prefix of a Windows path can take.
#[derive(Clone, Copy, Debug, PartialEq, Eq, Structural)]
pub enum PrefixKind {
    Verbatim,
    VerbatimUnc,
    VerbatimDisk,
    DeviceNs,
    Unc,
    Disk,
}

/// Why a path could not be turned into an address.
#[derive(Clone, Copy, Debug, PartialEq, Eq, Structural)]
pub enum UrlError {
    /// The path cannot stand in a `file` address.
    NotAFilePath,
    /// The address with its drive letter lowercased is no address.
    NotAnAddress,
}

/// `Path::components`: what hands out the components that the path `path`
/// is made of, one after the other.
#[verifier::external_body]
fn path_components<'a>(path: &'a str) -> (components: std::path::Components<'a>) {
    std::path::Path::new(path).components()
}

/// `Components::next`: the next component, or none where all were handed
/// out. How a path is cut up depends on the platform, so nothing is claimed
/// of what comes.
#[verifier::external_body]
fn next_component<'a>(components: &mut std::path::Components<'a>) -> (component: Option<
    std::path::Component<'a>,
>) {
    components.next()
}

/// `Prefix::kind` of a component that is a prefix, by its form; none for any
/// other component.
#[verifier::external_body]
fn component_prefix(component: &std::path::Component<'_>) -> (kind: Option<PrefixKind>) {
    match component {
        std::path::Component::Prefix(p) => Some(
            match p.kind() {
                std::path::Prefix::Verbatim(_) => PrefixKind::Verbatim,
                std::path::Prefix::VerbatimUNC(_, _) => PrefixKind::VerbatimUnc,
                std::path::Prefix::VerbatimDisk(_) => PrefixKind::VerbatimDisk,
                std::path::Prefix::DeviceNS(_) => PrefixKind::DeviceNs,
                std::path::Prefix::UNC(_, _) => PrefixKind::Unc,
                std::path::Prefix::Disk(_) => PrefixKind::Disk,
            },
        ),
        _ => None,
    }
}

/// `Url::from_file_path`: the `file` address of the path `path`, or none
/// where the path is not absolute or cannot stand in an address. The outcome
/// depends on the platform, so nothing is claimed of it.
#[verifier::external_body]
fn file_url(path: &str) -> (url: Option<lsp_types::Url>) {
    lsp_types::Url::from_file_path(path).ok()
}

/// `Url::as_str`: the address as text.
#[verifier::external_body]
fn url_text(url: &lsp_types::Url) -> (text: String) {
    url.as_str().to_owned()
}

/// `Url::parse`: the address that `text` spells, if it spells one.
#[verifier::external_body]
fn parse_url(text: &str) -> (url: Option<lsp_types::Url>) {
    lsp_types::Url::parse(text).ok()
}

/// `String::from_utf8`: the text that `bytes` encode, if they encode one;
/// the bytes of that text are `bytes`.
#[verifier::external_body]
fn text_of_bytes(bytes: Vec<u8>) -> (text: Option<String>)
    ensures
        text matches Some(t) ==> vstd::utf8::encode_utf8(t@) == bytes@,
{
    String::from_utf8(bytes).ok()
}

/// Whether a prefix of this form names a drive.
pub open spec fn names_drive(kind: Option<PrefixKind>) -> bool {
    kind == Some(PrefixKind::Disk) || kind == Some(PrefixKind::VerbatimDisk)
}

/// The position of the last `wanted` among the first `upto` bytes of `text`.
pub open spec fn last_index_of(text: Seq<u8>, wanted: u8, upto: nat) -> Option<nat>
    decreases upto,
{
    if upto == 0 || upto > text.len() {
        None
    } else if text[upto - 1] == wanted {
        Some((upto - 1) as nat)
    } else {
        last_index_of(text, wanted, (upto - 1) as nat)
    }
}

/// The lower-case form of an upper-case ASCII letter; any other byte as it
/// is.
pub open spec fn ascii_lower(b: u8) -> u8 {
    if 0x41 <= b <= 0x5a {
        (b + 0x20) as u8
    } else {
        b
    }
}

/// The text of an address with all that stands before its last colon in
/// lower case; none where the text holds no colon.
pub open spec fn drive_lowercased(text: Seq<u8>) -> Option<Seq<u8>> {
    match last_index_of(text, 0x3a, text.len()) {
        None => None,
        Some(i) => Some(
            text.take(i as int).map_values(|b: u8| ascii_lower(b)) + seq![0x3au8] + text.skip(
                i as int + 1,
            ),
        ),
    }
}

/// Returns whether a prefix of this form names a drive.
pub fn is_drive_prefix(kind: Option<PrefixKind>) -> (r: bool)
    ensures
        r == names_drive(kind),
{
    match kind {
        Some(PrefixKind::Disk) | Some(PrefixKind::VerbatimDisk) => true,
        _ => false,
    }
}

/// Returns whether any of the prefixes of the components of a path names a
/// drive.
pub fn has_windows_drive(prefixes: &Vec<Option<PrefixKind>>) -> (r: bool)
    ensures
        r == exists|i: int| 0 <= i < prefixes@.len() && names_drive(#[trigger] prefixes@[i]),
{
    let mut i: usize = 0;
    while i < prefixes.len()
        invariant
            i <= prefixes@.len(),
            forall|j: int| 0 <= j < i ==> !names_drive(#[trigger] prefixes@[j]),
        decreases prefixes.len() - i,
    {
        if is_drive_prefix(prefixes[i]) {
            return true;
        }
        i = i + 1;
    }
    false
}

/// The text of an address with all that stands before its last colon in
/// lower case; none where the text holds no colon.
pub fn lowercase_drive(text: &[u8]) -> (r: Option<Vec<u8>>)
    ensures
        match drive_lowercased(text@) {
            Some(joined) => r matches Some(v) && v@ == joined,
            None => r is None,
        },
{
    let mut colon: usize = text.len();
    while colon > 0 && text[colon - 1] != 0x3a
        invariant
            colon <= text@.len(),
            last_index_of(text@, 0x3a, text@.len()) == last_index_of(text@, 0x3a, colon as nat),
        decreases colon,
    {
        colon = colon - 1;
    }
    if colon == 0 {
        return None;
    }
    let at = colon - 1;
    let ghost lower = |b: u8| ascii_lower(b);
    let mut out: Vec<u8> = Vec::new();
    let mut i: usize = 0;
    while i < at
        invariant
            i <= at < text@.len(),
            lower == (|b: u8| ascii_lower(b)),
            out@ == text@.take(i as int).map_values(lower),
        decreases at - i,
    {
        let b = text[i];
        if 0x41 <= b && b <= 0x5a {
            out.push(b + 0x20);
        } else {
            out.push(b);
        }
        i = i + 1;
        assert(out@ =~= text@.take(i as int).map_values(lower));
    }
    let ghost head = out@;
    out.push(0x3a);
    let mut j: usize = colon;
    while j < text.len()
        invariant
            colon <= j <= text@.len(),
            out@ == head + seq![0x3au8] + text@.subrange(colon as int, j as int),
        decreases text.len() - j,
    {
        out.push(text[j]);
        j = j + 1;
        assert(out@ =~= head + seq![0x3au8] + text@.subrange(colon as int, j as int));
    }
    assert(text@.subrange(colon as int, j as int) =~= text@.skip(at + 1));
    Some(out)
}

/// The text that takes the place of the address `address` of a path, given
/// whether the path begins with a drive: with a drive, the address with its
/// drive letter in lower case; none where the address stays as it is, because
/// the path has no drive or the address holds no colon.
pub fn rewritten_address(has_drive: bool, address: &[u8]) -> (r: Option<Vec<u8>>)
    ensures
        match (if has_drive {
            drive_lowercased(address@)
        } else {
            None
        }) {
            Some(joined) => r matches Some(v) && v@ == joined,
            None => r is None,
        },
{
    if has_drive {
        lowercase_drive(address)
    } else {
        None
    }
}

/// What a path comes to, given `plain`, the address that the path got, if
/// it could get one, and `rewritten`: none where that address stays as it is,
/// and else what the rewritten text spells, if it spells an address. A path
/// without an address is no file path; an address that stays is the answer;
/// of a rewritten text, what it spells is the answer, and one that spells
/// nothing is an error.
pub fn settled_address(
    plain: Option<lsp_types::Url>,
    rewritten: Option<Option<lsp_types::Url>>,
) -> (r: Result<lsp_types::Url, UrlError>)
    ensures
        r == match plain {
            None => Err::<lsp_types::Url, UrlError>(UrlError::NotAFilePath),
            Some(url) => match rewritten {
                None => Ok::<lsp_types::Url, UrlError>(url),
                Some(Some(spelled)) => Ok::<lsp_types::Url, UrlError>(spelled),
                Some(None) => Err::<lsp_types::Url, UrlError>(UrlError::NotAnAddress),
            },
        },
{
    match plain {
        None => Err(UrlError::NotAFilePath),
        Some(url) => match rewritten {
            None => Ok(url),
            Some(Some(spelled)) => Ok(spelled),
            Some(None) => Err(UrlError::NotAnAddress),
        },
    }
}

/// The `file` address of the path `path`. Where the path begins with a
/// Windows drive, all that stands before the last colon of the address is put
/// in lower case: editors expect lower-case drive letters.
///
/// How a path is cut up, which address it gets and what a text spells is
/// the matter of the platform and of the address library, so the outcome is
/// not stated here. What is done with what they give is stated where it is
/// done: `has_windows_drive` says whether the path has a drive,
/// `rewritten_address` which text takes the place of the address, and
/// `settled_address` what the answer is.
pub fn url_from_path_with_drive_lowercasing(path: &str) -> (r: Result<lsp_types::Url, UrlError>) {
    let mut components = path_components(path);
    let mut prefixes: Vec<Option<PrefixKind>> = Vec::new();
    // A path has no more components than bytes.
    let mut left: usize = path.len();
    while left > 0
        decreases left,
    {
        match next_component(&mut components) {
            Some(component) => {
                prefixes.push(component_prefix(&component));
            },
            None => {
                left = 1;
            },
        }
        left = left - 1;
    }
    let component_has_windows_drive = has_windows_drive(&prefixes);
    let url_plain = file_url(path);
    let rewritten = match &url_plain {
        Some(url) => {
            let text = url_text(url);
            match rewritten_address(component_has_windows_drive, text.as_str().as_bytes()) {
                Some(joined) => Some(
                    match text_of_bytes(joined) {
                        Some(joined) => parse_url(joined.as_str()),
                        None => None,
                    },
                ),
                None => None,
            }
        },
        None => None,
    };
    settled_address(url_plain, rewritten)
}

} // verus!
