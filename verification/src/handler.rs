//! What the server does on each notification and request of the protocol.

pub mod text_document;
