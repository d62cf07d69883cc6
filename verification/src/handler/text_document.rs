//! The notifications and requests about one text document.

use crate::document::{Document, DocumentState, Opening, Parsed};
use crate::error::Error;
use crate::session::{Registry, Session, SessionResourceKind};
use crate::symbol::{
    collect_symbols, lemma_patterns_end_with_line_break, symbols_of, views_of, SymbolInfo,
    SymbolInfoView, DECLARATION_PATTERNS,
};
use crate::syntax::{
    grammar_accepted, language_of, matches_of, query_matches, query_new, query_of, shows,
    tree_clone,
};
use crate::text::{rope_clone, Text};
use vstd::prelude::*;

verus! {

/// The document was opened with `text`. A URI that is open already is
/// `DuplicateDocument`, and a grammar that the engine refuses is
/// `ParserInit`; in both cases nothing is parsed and nothing changes. Else
/// the text is parsed, and the engine decides whether the parse gives a
/// tree. With a tree the document is entered under the URI, and the tree is
/// handed back; with none the session stays as it was. Either way the update
/// of the status channel for the parse is handed back too.
pub fn did_open<C>(session: &mut Session<C>, uri: String, text: &str) -> (result: Result<
    Parsed,
    Error,
>)
    ensures
        old(session).wf() ==> final(session).wf(),
        final(session).settings() == old(session).settings(),
        old(session)@.contains(uri@) ==> final(session)@ == old(session)@ && (result matches Err(
            error,
        ) && error.is_duplicate(uri@)),
        !old(session)@.contains(uri@) && !grammar_accepted(old(session).grammar())
            ==> final(session)@ == old(session)@ && result == Err::<Parsed, Error>(
            Error::ParserInit,
        ),
        !old(session)@.contains(uri@) && grammar_accepted(old(session).grammar()) ==> result is Ok
            && shows(result->Ok_0.channel, result->Ok_0.tree) && match result->Ok_0.tree {
            Some(tree) => final(session)@.has_parser(uri@) && language_of(
                final(session)@.parsers[uri@],
            ) == Some(old(session).grammar()) && final(session)@ == old(session)@.inserted(
                uri@,
                text@,
                final(session)@.parsers[uri@],
                tree,
            ),
            None => final(session)@ == old(session)@,
        },
{
    match session.document_state(uri.as_str()) {
        DocumentState::Opened => {
            return Err(Error::DuplicateDocument { uri });
        },
        DocumentState::Closed => {},
    }
    match Document::open(session, text) {
        Ok(opening) => {
            let Opening { document, channel } = opening;
            match document {
                Some(document) => {
                    let tree = tree_clone(&document.tree);
                    match session.insert_document(uri, document) {
                        Ok(_) => Ok(Parsed { tree: Some(tree), channel }),
                        Err(error) => Err(error),
                    }
                },
                None => Ok(Parsed { tree: None, channel }),
            }
        },
        Err(error) => Err(error),
    }
}

/// The document now reads `text`, the whole of it: the text is parsed anew
/// with the URI's parser, and the engine decides whether the parse gives a
/// tree. With a tree, the text and the tree are stored together and the tree
/// is handed back; with none, every text and tree stays as it was. Either
/// way the update of the status channel for the parse is handed back too,
/// and the parser that ran may be in another state. A URI that is not open
/// is `SessionResourceNotFound` for the document, and nothing changes.
pub fn did_change<C>(session: &mut Session<C>, uri: &str, text: &str) -> (result: Result<
    Parsed,
    Error,
>)
    ensures
        old(session).wf() ==> final(session).wf(),
        final(session).settings() == old(session).settings(),
        !old(session)@.contains(uri@) ==> final(session)@ == old(session)@ && (result matches Err(
            error,
        ) && error.is_not_found(SessionResourceKind::Document, uri@)),
        old(session)@.has_parser(uri@) ==> language_of(final(session)@.parsers[uri@])
            == language_of(old(session)@.parsers[uri@]),
        old(session)@.contains(uri@) ==> match result {
            Ok(parsed) => shows(parsed.channel, parsed.tree) && final(session)@ == old(
                session,
            )@.reparsed(final(session)@, uri@).after_change(uri@, text@, parsed.tree),
            Err(error) => final(session)@ == old(session)@.reparsed(final(session)@, uri@) && (
            error.is_not_found(SessionResourceKind::Parser, uri@) || error.is_not_found(
                SessionResourceKind::Tree,
                uri@,
            )),
        },
        old(session).wf() && old(session)@.contains(uri@) ==> result is Ok,
{
    match session.document_state(uri) {
        DocumentState::Opened => {},
        DocumentState::Closed => {
            return Err(
                Error::SessionResourceNotFound {
                    kind: SessionResourceKind::Document,
                    uri: uri.to_owned(),
                },
            );
        },
    }
    let stored = match Text::new(text) {
        Ok(stored) => stored,
        Err(error) => {
            return Err(error);
        },
    };
    let content = rope_clone(&stored.content);
    match Document::change(session, uri, &content) {
        Ok(parsed) => {
            if parsed.tree.is_some() {
                match session.get_mut_text(uri, stored) {
                    Ok(_) => Ok(parsed),
                    Err(error) => Err(error),
                }
            } else {
                Ok(parsed)
            }
        },
        Err(error) => Err(error),
    }
}

/// The document was closed: its text, parser and tree leave the session.
/// A URI that is not open is `SessionResourceNotFound` for the document, and
/// nothing changes. After the removal, a session without a channel to the
/// client is `ClientNotInitialized`: over the channel the caller clears the
/// diagnostics published for the URI.
pub fn did_close<C>(session: &mut Session<C>, uri: &str) -> (result: Result<(), Error>)
    ensures
        old(session).wf() ==> final(session).wf(),
        final(session).settings() == old(session).settings(),
        old(session)@.contains(uri@) ==> final(session)@ == old(session)@.removed(uri@) && result
            == (if old(session).channel() is Some {
            Ok::<(), Error>(())
        } else {
            Err::<(), Error>(Error::ClientNotInitialized)
        }),
        !old(session)@.contains(uri@) ==> final(session)@ == old(session)@ && (result matches Err(
            error,
        ) && error.is_not_found(SessionResourceKind::Document, uri@)),
{
    match session.remove_document(uri) {
        Ok(_) => {},
        Err(error) => {
            return Err(error);
        },
    }
    match session.client() {
        Ok(_) => Ok(()),
        Err(error) => Err(error),
    }
}

/// The symbols that the URI's stored tree and text declare: the matches of
/// the declaration patterns in the tree, read against the text. `None` where
/// the grammar does not know the patterns.
pub open spec fn declared(registry: Registry, grammar: tree_sitter::Language, uri: Seq<char>) -> Option<
    Seq<SymbolInfoView>,
> {
    match query_of(grammar, DECLARATION_PATTERNS@) {
        Some(query) => Some(
            symbols_of(
                uri,
                registry.texts[uri],
                matches_of(query, registry.trees[uri], registry.texts[uri]),
            ),
        ),
        None => None,
    }
}

/// A change whose parse gives no tree leaves the symbols of every URI as
/// they were: they are read off the stored texts and trees, and the parse
/// touched only the state of the parser that ran.
pub proof fn lemma_failed_change_keeps_symbols(
    before: Registry,
    after: Registry,
    grammar: tree_sitter::Language,
    uri: Seq<char>,
    text: Seq<char>,
    any: Seq<char>,
)
    ensures
        declared(before.reparsed(after, uri).after_change(uri, text, None), grammar, any)
            == declared(before, grammar, any),
        declared(before.reparsed(after, uri).after_parse(uri, None), grammar, any) == declared(
            before,
            grammar,
            any,
        ),
{
}

/// The symbols that the document declares, as a flat list: the declaration
/// patterns are matched against the stored tree, and the matches are read
/// against the stored text, one symbol for each match that counts, in the
/// engine's order. A URI without a text is `SessionResourceNotFound` for the
/// document, one without a tree for the tree, and a grammar that does not
/// know the patterns is `QueryInit`.
pub fn document_symbol<C>(session: &Session<C>, uri: &str) -> (result: Result<
    Option<Vec<SymbolInfo>>,
    Error,
>)
    ensures
        session@.text_of(uri@) is None ==> (result matches Err(error) && error.is_not_found(
            SessionResourceKind::Document,
            uri@,
        )),
        session@.text_of(uri@) is Some && session@.tree_of(uri@) is None ==> (result matches Err(
            error,
        ) && error.is_not_found(SessionResourceKind::Tree, uri@)),
        session@.text_of(uri@) is Some && session@.tree_of(uri@) is Some ==> match declared(
            session@,
            session.grammar(),
            uri@,
        ) {
            Some(listed) => result matches Ok(Some(symbols)) && views_of(symbols@) == listed,
            None => result == Err::<Option<Vec<SymbolInfo>>, Error>(Error::QueryInit),
        },
{
    let text = match session.get_text(uri) {
        Ok(text) => text,
        Err(error) => {
            return Err(error);
        },
    };
    let tree = match session.get_tree(uri) {
        Ok(tree) => tree,
        Err(error) => {
            return Err(error);
        },
    };
    proof {
        lemma_patterns_end_with_line_break();
    }
    let query = match query_new(session.language(), DECLARATION_PATTERNS) {
        Ok(query) => query,
        Err(_) => {
            return Err(Error::QueryInit);
        },
    };
    let source = text.to_string();
    assert(query_of(session.grammar(), DECLARATION_PATTERNS@) == Some(query));
    let matches = query_matches(&query, &tree, source.as_str());
    let symbols = collect_symbols(uri, &text.content, &matches);
    Ok(Some(symbols))
}

} // verus!
