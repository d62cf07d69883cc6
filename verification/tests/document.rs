use demo_lsp_server::document::{Document, DocumentState};
use demo_lsp_server::document::Parsed;
use demo_lsp_server::handler::text_document::{did_change, did_open, document_symbol};
use demo_lsp_server::parser;
use demo_lsp_server::session::{Session, SessionResourceKind};
use demo_lsp_server::syntax::{ChannelColor, ChannelUpdate};
use demo_lsp_server::text::Text;
use demo_lsp_server::Error;

fn entered(result: Result<Parsed, Error>) -> Result<bool, Error> {
    result.map(|parsed| parsed.tree.is_some())
}

fn new_session() -> Session<u8> {
    Session::new(None, tree_sitter_javascript::language())
}

#[test]
fn open_holds_the_text_and_its_tree() {
    let session = new_session();
    let document = Document::open(&session, "let a = 1;").unwrap().document.unwrap();
    assert_eq!(document.text().to_string(), "let a = 1;");
    assert_eq!(document.content.to_string(), "let a = 1;");
    assert_eq!(document.tree.root_node().start_byte(), 0);
    assert_eq!(document.tree.root_node().end_byte(), 10);
    assert!(!document.tree.root_node().has_error());
}

#[test]
fn open_gives_a_tree_for_text_with_syntax_errors() {
    let session = new_session();
    let document = Document::open(&session, "function (").unwrap().document.unwrap();
    assert!(document.tree.root_node().has_error());
    assert_eq!(document.text().to_string(), "function (");
}

#[test]
fn open_parses_text_longer_than_one_chunk() {
    let session = new_session();
    let mut text = String::new();
    for index in 0..3000 {
        text.push_str(&format!("let v{} = {}; // \u{e9}\n", index, index));
    }
    let document = Document::open(&session, &text).unwrap().document.unwrap();
    let root = document.tree.root_node();
    assert!(!root.has_error());
    assert_eq!(root.end_byte(), text.len());
    assert_eq!(root.named_child_count(), 6000);
}

#[test]
fn assemble_needs_a_tree() {
    let session = new_session();
    let opened = Document::open(&session, "1;").unwrap().document.unwrap();
    let Document { content, parser, tree } = opened;
    let spare = parser::javascript(session.language()).unwrap();
    assert!(Document::assemble(content.clone(), spare, None).is_none());
    let made = Document::assemble(content, parser, Some(tree)).unwrap();
    assert_eq!(made.text().to_string(), "1;");
    assert_eq!(made.tree.root_node().to_sexp(), "(program (expression_statement (number)))");
}

#[test]
fn change_stores_the_new_tree_and_hands_it_back() {
    let mut session = new_session();
    assert_eq!(entered(did_open(&mut session, "u".to_string(), "let a;")), Ok(true));
    let content = Text::new("class C {}").unwrap().content;
    let tree = Document::change(&mut session, "u", &content).unwrap().tree.unwrap();
    let expected = "(program (class_declaration name: (identifier) body: (class_body)))";
    assert_eq!(tree.root_node().to_sexp(), expected);
    assert_eq!(session.get_tree("u").unwrap().root_node().to_sexp(), expected);
    assert_eq!(session.get_text("u").unwrap().to_string(), "let a;");
}

#[test]
fn change_of_unknown_uri_is_not_found_for_the_parser() {
    let mut session = new_session();
    let content = Text::new("class C {}").unwrap().content;
    assert_eq!(
        Document::change(&mut session, "u", &content).err(),
        Some(Error::SessionResourceNotFound {
            kind: SessionResourceKind::Parser,
            uri: "u".to_string(),
        })
    );
    assert_eq!(session.document_state("u"), DocumentState::Closed);
}

#[test]
fn did_change_of_unknown_uri_is_not_found_for_the_document() {
    let mut session = new_session();
    assert_eq!(
        did_change(&mut session, "u", "let a;").err(),
        Some(Error::SessionResourceNotFound {
            kind: SessionResourceKind::Document,
            uri: "u".to_string(),
        })
    );
}

#[test]
fn tree_spans_the_text_after_every_change() {
    let mut session = new_session();
    assert_eq!(entered(did_open(&mut session, "u".to_string(), "let a = 1;")), Ok(true));
    let texts = [
        "function f() { return 1; }",
        "",
        "class K {}\nlet \u{e9}t\u{e9} = '\u{1F600}';\n",
        "let broken = (",
        "x",
        "// only a comment, then blank lines\n\n\n",
    ];
    for text in texts {
        let returned = did_change(&mut session, "u", text).unwrap().tree.unwrap();
        assert_eq!(returned.root_node().end_byte(), text.len());
        let stored = session.get_tree("u").unwrap();
        assert_eq!(stored.root_node().start_byte(), 0);
        assert_eq!(stored.root_node().end_byte(), text.len());
        assert_eq!(stored.root_node().to_sexp(), returned.root_node().to_sexp());
        assert_eq!(session.get_text("u").unwrap().to_string(), text);
    }
}

#[test]
fn store_without_a_tree_changes_nothing() {
    let mut session = new_session();
    let source = "function foo(){}\nlet bar = 1;\n";
    assert_eq!(entered(did_open(&mut session, "u".to_string(), source)), Ok(true));
    let tree_before = session.get_tree("u").unwrap().root_node().to_sexp();
    let symbols_before = document_symbol(&session, "u").unwrap();
    assert_eq!(Document::store(&mut session, "u", None).map(|tree| tree.is_none()), Ok(true));
    assert_eq!(Document::store(&mut session, "v", None).map(|tree| tree.is_none()), Ok(true));
    assert_eq!(session.get_tree("u").unwrap().root_node().to_sexp(), tree_before);
    assert_eq!(session.get_text("u").unwrap().to_string(), source);
    assert_eq!(document_symbol(&session, "u").unwrap(), symbols_before);
    assert_eq!(session.document_state("v"), DocumentState::Closed);
}

#[test]
fn store_with_a_tree_needs_an_open_uri() {
    let mut session = new_session();
    let tree = Document::open(&session, "1;").unwrap().document.unwrap().tree;
    assert_eq!(
        Document::store(&mut session, "u", Some(tree)).err(),
        Some(Error::SessionResourceNotFound {
            kind: SessionResourceKind::Tree,
            uri: "u".to_string(),
        })
    );
}

#[test]
fn parser_for_javascript_parses() {
    let mut made = parser::javascript(&tree_sitter_javascript::language()).unwrap();
    let tree = made.parse("let a;", None).unwrap();
    assert_eq!(tree.root_node().kind(), "program");
}

#[test]
fn text_new_holds_the_text() {
    let text = Text::new("a\r\nb\u{2028}c").unwrap();
    assert_eq!(text.to_string(), "a\r\nb\u{2028}c");
    assert_eq!(text.content.len_bytes(), 8);
}

#[test]
fn text_from_document_is_its_text() {
    let session = new_session();
    let document = Document::open(&session, "let caf\u{e9};").unwrap().document.unwrap();
    let text = Text::from(document);
    assert_eq!(text.to_string(), "let caf\u{e9};");
}

#[test]
fn bound_hands_the_parser_on_where_the_grammar_was_taken() {
    let mut made = tree_sitter::Parser::new();
    let outcome = made.set_language(tree_sitter_javascript::language());
    let mut kept = parser::bound(made, outcome).unwrap();
    assert_eq!(kept.language(), Some(tree_sitter_javascript::language()));
    assert_eq!(kept.parse("1;", None).unwrap().root_node().kind(), "program");
}

#[test]
fn bound_is_parser_init_where_the_grammar_was_refused() {
    let refused: Result<(), &str> = Err("version 12");
    assert_eq!(parser::bound(tree_sitter::Parser::new(), refused).err(), Some(Error::ParserInit));
    let empty: Result<(), ()> = Err(());
    assert_eq!(parser::bound(tree_sitter::Parser::new(), empty).err(), Some(Error::ParserInit));
}

#[test]
fn did_change_without_a_tree_changes_no_text_and_no_tree() {
    let mut session = new_session();
    let source = "function foo(){}\nlet bar = 1;\n";
    let Document { content, mut parser, tree } = Document::open(&session, source).unwrap().document.unwrap();
    parser.set_timeout_micros(1);
    assert_eq!(session.insert_document("u".to_string(), Document { content, parser, tree }), Ok(()));
    let tree_before = session.get_tree("u").unwrap().root_node().to_sexp();
    let symbols_before = document_symbol(&session, "u").unwrap();
    let mut long = String::new();
    for index in 0..20000 {
        long.push_str(&format!("class C{} {{ m() {{ return [{}, {}]; }} }}\n", index, index, index));
    }
    let parsed = did_change(&mut session, "u", &long).unwrap();
    assert!(parsed.tree.is_none());
    let shown = parsed.channel.unwrap();
    assert_eq!(shown.value, None);
    assert_eq!(session.get_text("u").unwrap().to_string(), source);
    assert_eq!(session.get_tree("u").unwrap().root_node().to_sexp(), tree_before);
    assert_eq!(document_symbol(&session, "u").unwrap(), symbols_before);
    assert_eq!(session.document_state("u"), DocumentState::Opened);
}

#[test]
fn did_change_with_a_tree_stores_text_and_tree_together() {
    let mut session = new_session();
    assert!(did_open(&mut session, "u".to_string(), "let a;").unwrap().tree.is_some());
    let parsed = did_change(&mut session, "u", "class K {}").unwrap();
    let returned = parsed.tree.unwrap().root_node().to_sexp();
    assert_eq!(session.get_text("u").unwrap().to_string(), "class K {}");
    assert_eq!(session.get_tree("u").unwrap().root_node().to_sexp(), returned);
    let symbols = document_symbol(&session, "u").unwrap().unwrap();
    assert_eq!(symbols.len(), 1);
    assert_eq!(symbols[0].name, "K");
}

#[test]
fn insert_document_stores_the_parser_of_the_document() {
    let mut session = new_session();
    let Document { content, mut parser, tree } = Document::open(&session, "1;").unwrap().document.unwrap();
    parser.set_timeout_micros(1);
    assert_eq!(session.insert_document("slow".to_string(), Document { content, parser, tree }), Ok(()));
    assert!(did_open(&mut session, "fast".to_string(), "2;").unwrap().tree.is_some());
    let mut long = String::new();
    for index in 0..20000 {
        long.push_str(&format!("function f{}(a, b) {{ return a + b * {}; }}\n", index, index));
    }
    let content = Text::new(&long).unwrap().content;
    assert!(session.get_mut_parser("slow", &content).unwrap().is_none());
    assert!(session.get_mut_parser("fast", &content).unwrap().is_some());
}

#[test]
fn open_binds_the_parser_to_the_grammar_of_the_session() {
    let session = new_session();
    let document = Document::open(&session, "1;").unwrap().document.unwrap();
    assert_eq!(document.parser.language(), Some(tree_sitter_javascript::language()));
    let other: Session<u8> = Session::new(None, tree_sitter_rust::language());
    let document = Document::open(&other, "fn f() {}").unwrap().document.unwrap();
    assert_eq!(document.parser.language(), Some(tree_sitter_rust::language()));
    assert_eq!(document.tree.root_node().kind(), "source_file");
}

#[test]
fn open_hands_back_the_channel_update_of_its_parse() {
    let session = new_session();
    let clean = Document::open(&session, "let a;").unwrap();
    let shown = clean.channel.unwrap();
    assert_eq!(shown.color, ChannelColor::Green);
    assert_eq!(
        shown.value.unwrap(),
        "(program\n  (lexical_declaration\n    (variable_declarator\n      name: (identifier))))"
    );
    let broken = Document::open(&session, "let = ;").unwrap();
    assert!(broken.document.is_some());
    assert_eq!(broken.channel.unwrap().color, ChannelColor::Red);
}

#[test]
fn change_hands_back_the_channel_update_of_its_parse() {
    let mut session = new_session();
    assert!(did_open(&mut session, "u".to_string(), "let a;").unwrap().tree.is_some());
    let content = Text::new("class C {}").unwrap().content;
    let parsed = Document::change(&mut session, "u", &content).unwrap();
    assert_eq!(
        parsed.channel,
        Some(ChannelUpdate {
            value: Some(
                "(program\n  (class_declaration\n    name: (identifier)\n    body: (class_body)))"
                    .to_string()
            ),
            color: ChannelColor::Green,
        })
    );
    assert!(parsed.tree.is_some());
}
