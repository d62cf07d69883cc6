use demo_lsp_server::error::{JsonRpcError, INTERNAL_ERROR_CODE};
use demo_lsp_server::session::SessionResourceKind;
use demo_lsp_server::{Error, IntoJsonRpcError};

#[test]
fn from() {
    let error = Error::ClientNotInitialized;

    let expected = JsonRpcError {
        code: -32603,
        message: "Internal error".to_string(),
        data: Some(error.message()),
    };

    let actual: JsonRpcError = IntoJsonRpcError(error).into_json_rpc_error();

    assert_eq!(expected, actual);
}

#[test]
fn internal_error_matches_the_protocol_crate() {
    let error = Error::ClientNotInitialized;
    let mut expected = tower_lsp::jsonrpc::Error::internal_error();
    expected.data = Some(serde_json::to_value(error.message()).unwrap());

    let made = IntoJsonRpcError(error).into_json_rpc_error();
    let actual = tower_lsp::jsonrpc::Error {
        code: tower_lsp::jsonrpc::ErrorCode::from(made.code),
        message: made.message,
        data: made.data.map(serde_json::Value::String),
    };

    assert_eq!(expected, actual);
    assert_eq!(INTERNAL_ERROR_CODE, tower_lsp::jsonrpc::ErrorCode::InternalError.code());
}

#[test]
fn message_of_client_not_initialized() {
    assert_eq!(Error::ClientNotInitialized.message(), "ClientNotInitialzed");
}

#[test]
fn message_of_not_found_names_kind_and_uri() {
    let document = Error::SessionResourceNotFound {
        kind: SessionResourceKind::Document,
        uri: "file:///a.js".to_string(),
    };
    assert_eq!(
        document.message(),
        "core::SessionResourceNotFound: kind=Document, uri=\"file:///a.js\""
    );
    let parser = Error::SessionResourceNotFound {
        kind: SessionResourceKind::Parser,
        uri: String::new(),
    };
    assert_eq!(parser.message(), "core::SessionResourceNotFound: kind=Parser, uri=\"\"");
    let tree = Error::SessionResourceNotFound {
        kind: SessionResourceKind::Tree,
        uri: "u".to_string(),
    };
    assert_eq!(tree.message(), "core::SessionResourceNotFound: kind=Tree, uri=\"u\"");
}

#[test]
fn message_of_the_other_failures() {
    assert_eq!(
        Error::DuplicateDocument { uri: "u".to_string() }.message(),
        "core::DuplicateDocument: uri=\"u\""
    );
    assert_eq!(Error::ParserInit.message(), "core::ParserInit");
    assert_eq!(Error::QueryInit.message(), "core::QueryInit");
}

#[test]
fn json_rpc_error_carries_the_message_as_data() {
    let error = Error::DuplicateDocument { uri: "u".to_string() };
    let made = IntoJsonRpcError(error.clone()).into_json_rpc_error();
    assert_eq!(made.code, -32603);
    assert_eq!(made.message, "Internal error");
    assert_eq!(made.data, Some(error.message()));
}
