use demo_lsp_server::capabilities;
use demo_lsp_server::server::{
    SemanticTokensLegend, SemanticTokensServerCapabilities, ServerCapabilities,
    TextDocumentSyncKind, TextDocumentSyncOptions,
};
use demo_lsp_server::document::Parsed;
use demo_lsp_server::handler::text_document::{did_change, did_open};
use demo_lsp_server::session::Session;
use demo_lsp_server::syntax::{channel_update, update_channel, ChannelColor, ChannelUpdate};

fn legend() -> SemanticTokensLegend {
    SemanticTokensLegend {
        token_types: vec!["function".to_string(), "class".to_string()],
        token_modifiers: vec!["declaration".to_string()],
    }
}

#[test]
fn capabilities_ask_for_full_sync_and_offer_symbols() {
    assert_eq!(
        capabilities(),
        ServerCapabilities {
            text_document_sync: Some(TextDocumentSyncOptions {
                open_close: Some(true),
                change: Some(TextDocumentSyncKind::Full),
            }),
            document_symbol_provider: Some(true),
            semantic_tokens_provider: None,
        }
    );
}

#[test]
fn new_session_announces_the_capabilities() {
    let session: Session<u8> = Session::new(None, tree_sitter_javascript::language());
    assert_eq!(*session.server_capabilities(), capabilities());
    assert_eq!(session.semantic_tokens_legend(), None);
}

#[test]
fn semantic_tokens_legend_is_read_from_either_form() {
    let mut session: Session<u8> = Session::new(None, tree_sitter_javascript::language());
    let mut offered = capabilities();
    offered.semantic_tokens_provider =
        Some(SemanticTokensServerCapabilities::SemanticTokensOptions { legend: legend() });
    session.set_server_capabilities(offered.clone());
    assert_eq!(session.semantic_tokens_legend(), Some(&legend()));
    assert_eq!(*session.server_capabilities(), offered);
    let mut registered = capabilities();
    registered.semantic_tokens_provider = Some(
        SemanticTokensServerCapabilities::SemanticTokensRegistrationOptions { legend: legend() },
    );
    session.set_server_capabilities(registered);
    assert_eq!(session.semantic_tokens_legend(), Some(&legend()));
}

#[test]
fn channel_is_red_without_a_tree() {
    let expected = Some(ChannelUpdate { value: None, color: ChannelColor::Red });
    assert_eq!(channel_update(None, false), expected);
    assert_eq!(channel_update(None, true), expected);
    assert_eq!(update_channel(None), expected);
}

#[test]
fn channel_is_green_only_for_a_tree_without_errors() {
    let layout = Some("(program\n  (a))".to_string());
    assert_eq!(
        channel_update(Some("(program (a))"), false),
        Some(ChannelUpdate { value: layout.clone(), color: ChannelColor::Green })
    );
    assert_eq!(
        channel_update(Some("(program (a))"), true),
        Some(ChannelUpdate { value: layout, color: ChannelColor::Red })
    );
}

#[test]
fn channel_has_no_update_for_an_expression_without_layout() {
    assert_eq!(channel_update(Some("(program))"), false), None);
    assert_eq!(channel_update(Some(""), true), None);
}

#[test]
fn channel_colors_as_the_style_sheet_writes_them() {
    assert_eq!(ChannelColor::Red.css(), "rgb(255, 87, 51)");
    assert_eq!(ChannelColor::Green.css(), "rgb(218, 247, 166)");
}

#[test]
fn update_channel_shows_the_tree_of_a_parse() {
    let mut made = tree_sitter::Parser::new();
    made.set_language(tree_sitter_javascript::language()).unwrap();
    let clean = made.parse("let a = 1;", None).unwrap();
    assert_eq!(
        update_channel(Some(&clean)),
        Some(ChannelUpdate {
            value: Some(
                "(program\n  (lexical_declaration\n    (variable_declarator\n      name: (identifier)\n      value: (number))))"
                    .to_string()
            ),
            color: ChannelColor::Green,
        })
    );
    let broken = made.parse("let = ;", None).unwrap();
    let shown = update_channel(Some(&broken)).unwrap();
    assert_eq!(shown.color, ChannelColor::Red);
    assert!(shown.value.unwrap().starts_with("(program"));
}

#[test]
fn parse_notifications_carry_the_channel_update() {
    let mut session: Session<u8> = Session::new(None, tree_sitter_javascript::language());
    let opened = did_open(&mut session, "u".to_string(), "let a;").unwrap();
    assert_eq!(
        opened.channel,
        Some(ChannelUpdate {
            value: Some(
                "(program\n  (lexical_declaration\n    (variable_declarator\n      name: (identifier))))"
                    .to_string()
            ),
            color: ChannelColor::Green,
        })
    );
    let changed = did_change(&mut session, "u", "let = ;").unwrap();
    let shown = changed.channel.unwrap();
    assert_eq!(shown.color, ChannelColor::Red);
    assert_eq!(shown.value, update_channel(changed.tree.as_ref()).unwrap().value);
    let stored = session.get_tree("u").unwrap();
    assert_eq!(update_channel(Some(&stored)).unwrap(), shown);
    let silent = Parsed::new(None);
    assert!(silent.tree.is_none());
    assert_eq!(silent.channel, Some(ChannelUpdate { value: None, color: ChannelColor::Red }));
}
