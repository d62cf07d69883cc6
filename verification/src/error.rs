//! The failures that a request can end in, and what the protocol is told of
//! them.

use crate::session::SessionResourceKind;
use vstd::prelude::*;
use vstd::string::StringExecFns;

verus! {

/// A failure scoped to one request.
#[derive(Clone, Debug, PartialEq, Eq)]
pub enum Error {
    /// A notification was attempted before a client channel existed.
    ClientNotInitialized,
    /// The URI has no live resource of the given kind.
    SessionResourceNotFound { kind: SessionResourceKind, uri: String },
    /// The URI is already open.
    DuplicateDocument { uri: String },
    /// No parser could be bound to the session's grammar.
    ParserInit,
    /// The grammar rejected the declaration patterns.
    QueryInit,
}

/// The name of a resource kind in messages.
pub open spec fn kind_name(kind: SessionResourceKind) -> Seq<char> {
    match kind {
        SessionResourceKind::Document => "Document"@,
        SessionResourceKind::Parser => "Parser"@,
        SessionResourceKind::Tree => "Tree"@,
    }
}

impl Error {
    /// This is the not-found failure for `kind` and `uri`.
    pub open spec fn is_not_found(self, kind: SessionResourceKind, uri: Seq<char>) -> bool {
        self matches Error::SessionResourceNotFound { kind: k, uri: u } && k == kind && u@ == uri
    }

    /// This is the duplicate-document failure for `uri`.
    pub open spec fn is_duplicate(self, uri: Seq<char>) -> bool {
        self matches Error::DuplicateDocument { uri: u } && u@ == uri
    }

    /// The message of the failure: its name and, where it has them, the
    /// resource kind and the URI between double quotes.
    pub open spec fn message_text(self) -> Seq<char> {
        match self {
            Error::ClientNotInitialized => "ClientNotInitialzed"@,
            Error::SessionResourceNotFound { kind, uri } => "core::SessionResourceNotFound: kind="@
                + kind_name(kind) + ", uri=\""@ + uri@ + "\""@,
            Error::DuplicateDocument { uri } => "core::DuplicateDocument: uri=\""@ + uri@ + "\""@,
            Error::ParserInit => "core::ParserInit"@,
            Error::QueryInit => "core::QueryInit"@,
        }
    }

    /// The message of the failure, for a human reader.
    pub fn message(&self) -> (text: String)
        ensures
            text@ == self.message_text(),
    {
        match self {
            Error::ClientNotInitialized => String::from_str("ClientNotInitialzed"),
            Error::SessionResourceNotFound { kind, uri } => {
                let mut text = String::from_str("core::SessionResourceNotFound: kind=");
                match kind {
                    SessionResourceKind::Document => text.append("Document"),
                    SessionResourceKind::Parser => text.append("Parser"),
                    SessionResourceKind::Tree => text.append("Tree"),
                }
                text.append(", uri=\"");
                text.append(uri.as_str());
                text.append("\"");
                text
            },
            Error::DuplicateDocument { uri } => {
                let mut text = String::from_str("core::DuplicateDocument: uri=\"");
                text.append(uri.as_str());
                text.append("\"");
                text
            },
            Error::ParserInit => String::from_str("core::ParserInit"),
            Error::QueryInit => String::from_str("core::QueryInit"),
        }
    }
}

/// The code of an internal error in JSON-RPC.
pub const INTERNAL_ERROR_CODE: i64 = -32603;

/// A failure as the response to a request carries it.
#[derive(Clone, Debug, PartialEq, Eq)]
pub struct JsonRpcError {
    pub code: i64,
    pub message: String,
    pub data: Option<String>,
}

/// A failure on its way to the protocol boundary, where every failure
/// becomes an internal error that carries the failure's message.
#[derive(Clone, Debug, PartialEq, Eq)]
pub struct IntoJsonRpcError(pub Error);

impl IntoJsonRpcError {
    /// The internal error that carries the failure's message as its data.
    pub fn into_json_rpc_error(self) -> (response: JsonRpcError)
        ensures
            response.code == INTERNAL_ERROR_CODE,
            response.message@ == "Internal error"@,
            response.data matches Some(data) && data@ == self.0.message_text(),
    {
        JsonRpcError {
            code: INTERNAL_ERROR_CODE,
            message: String::from_str("Internal error"),
            data: Some(self.0.message()),
        }
    }
}

} // verus!
