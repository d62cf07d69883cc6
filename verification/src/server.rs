//! What the server announces to the client.

use vstd::prelude::*;

verus! {

/// How the client sends the changes of a document.
#[derive(Clone, Copy, Debug, PartialEq, Eq, Structural)]
pub enum TextDocumentSyncKind {
    /// Not at all.
    Off,
    /// The whole text each time.
    Full,
    /// The edited ranges.
    Incremental,
}

/// What the client is to send about open documents.
#[derive(Clone, Copy, Debug, PartialEq, Eq, Structural)]
pub struct TextDocumentSyncOptions {
    pub open_close: Option<bool>,
    pub change: Option<TextDocumentSyncKind>,
}

/// The token types and modifiers that semantic tokens refer to by index.
#[derive(Clone, Debug, PartialEq, Eq)]
pub struct SemanticTokensLegend {
    pub token_types: Vec<String>,
    pub token_modifiers: Vec<String>,
}

/// Semantic tokens, offered outright or on registration.
#[derive(Clone, Debug, PartialEq, Eq)]
pub enum SemanticTokensServerCapabilities {
    SemanticTokensOptions { legend: SemanticTokensLegend },
    SemanticTokensRegistrationOptions { legend: SemanticTokensLegend },
}

/// What the server can do.
#[derive(Clone, Debug, PartialEq, Eq)]
pub struct ServerCapabilities {
    pub text_document_sync: Option<TextDocumentSyncOptions>,
    pub document_symbol_provider: Option<bool>,
    pub semantic_tokens_provider: Option<SemanticTokensServerCapabilities>,
}

/// The capabilities of this server: it wants open and close notifications
/// and the whole text on each change, and it lists document symbols.
pub open spec fn announced() -> ServerCapabilities {
    ServerCapabilities {
        text_document_sync: Some(
            TextDocumentSyncOptions {
                open_close: Some(true),
                change: Some(TextDocumentSyncKind::Full),
            },
        ),
        document_symbol_provider: Some(true),
        semantic_tokens_provider: None,
    }
}

/// The capabilities of this server.
pub fn capabilities() -> (offered: ServerCapabilities)
    ensures
        offered == announced(),
{
    let document_symbol_provider = Some(true);
    let text_document_sync = Some(
        TextDocumentSyncOptions { open_close: Some(true), change: Some(TextDocumentSyncKind::Full) },
    );
    ServerCapabilities {
        text_document_sync,
        document_symbol_provider,
        semantic_tokens_provider: None,
    }
}

/// The legend of the semantic tokens that the capabilities offer, if any.
pub open spec fn legend_of(offered: ServerCapabilities) -> Option<SemanticTokensLegend> {
    match offered.semantic_tokens_provider {
        Some(SemanticTokensServerCapabilities::SemanticTokensOptions { legend }) => Some(legend),
        Some(SemanticTokensServerCapabilities::SemanticTokensRegistrationOptions { legend }) => Some(
            legend,
        ),
        None => None,
    }
}

} // verus!
