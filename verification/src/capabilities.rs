//! What the language server offers to an editor.

use vstd::prelude::*;

verus! {

/// How an editor sends a changed document to the server.
#[derive(Clone, Copy, Debug, PartialEq, Eq, Structural)]
pub enum TextDocumentSyncKind {
    /// Documents are not sent.
    NoSync,
    /// The whole document is sent after each change.
    Full,
    /// Only the changed ranges are sent.
    Incremental,
}

/// What an editor says it can do. The server offers the same whatever the
/// editor says, so nothing of it is kept.
#[derive(Clone, Copy, Debug, PartialEq, Eq, Structural)]
pub struct ClientCapabilities {}

/// What the server offers; what is not listed here is not offered.
#[derive(Clone, Copy, Debug, PartialEq, Eq, Structural)]
pub struct ServerCapabilities {
    /// How documents are kept in step, if they are.
    pub text_document_sync: Option<TextDocumentSyncKind>,
    /// Whether the server lists the symbols of a document.
    pub document_symbol_provider: Option<bool>,
}

/// Returns the capabilities of this server given the capabilities of the
/// client: documents are sent change by change, and the symbols of a
/// document can be asked for.
pub fn server_capabilities(_client_caps: &ClientCapabilities) -> (r: ServerCapabilities)
    ensures
        r == (ServerCapabilities {
            text_document_sync: Some(TextDocumentSyncKind::Incremental),
            document_symbol_provider: Some(true),
        }),
{
    ServerCapabilities {
        text_document_sync: Some(TextDocumentSyncKind::Incremental),
        document_symbol_provider: Some(true),
    }
}

} // verus!
