//! Session and document core of a language server: the registry of open
//! documents, each with its text, parser and syntax tree, and the symbols
//! that a document declares.

pub mod document;
pub mod error;
pub mod handler;
pub mod parser;
pub mod server;
pub mod session;
pub mod sexp;
pub mod symbol;
pub mod syntax;
pub mod text;

pub use document::{Document, DocumentState, Opening, Parsed};
pub use error::{Error, IntoJsonRpcError};
pub use server::capabilities;
pub use session::{Session, SessionResourceKind};
pub use sexp::{format_sexp, format_sexp_indented, try_format_sexp};
pub use text::Text;
