//! One open document: its text, its parser and its current syntax tree.

use crate::error::Error;
use crate::parser;
use crate::session::{Session, SessionResourceKind};
use crate::syntax::{
    grammar_accepted, language_of, parser_parse, shows, tree_clone, update_channel, ChannelUpdate,
};
use crate::text::{rope_chars, rope_clone, rope_from_str, Text};
use vstd::prelude::*;

verus! {

/// Whether a URI is open.
#[derive(Clone, Copy, Debug, Eq, Ord, PartialEq, PartialOrd, Structural)]
pub enum DocumentState {
    Closed,
    Opened,
}

/// The text of a document with the parser bound to it and the tree that the
/// parser last gave.
pub struct Document {
    pub content: ropey::Rope,
    pub parser: tree_sitter::Parser,
    pub tree: tree_sitter::Tree,
}

/// What a parse for an open document hands back: the tree, where the parse
/// gave one, and what the status channel is to show after the parse.
#[derive(Clone, Debug)]
pub struct Parsed {
    pub tree: Option<tree_sitter::Tree>,
    pub channel: Option<ChannelUpdate>,
}

impl Parsed {
    /// The outcome of a parse with the update of the channel for it.
    pub fn new(tree: Option<tree_sitter::Tree>) -> (parsed: Self)
        ensures
            parsed.tree == tree,
            shows(parsed.channel, tree),
    {
        let channel = update_channel(tree.as_ref());
        Parsed { tree, channel }
    }
}

/// What the first parse of a text hands back: the document, where the parse
/// gave a tree, and what the status channel is to show after the parse.
pub struct Opening {
    pub document: Option<Document>,
    pub channel: Option<ChannelUpdate>,
}

impl Opening {
    /// The tree that the parse gave, if it gave one.
    pub open spec fn tree(self) -> Option<tree_sitter::Tree> {
        match self.document {
            Some(document) => Some(document.tree),
            None => None,
        }
    }
}

impl View for Document {
    type V = Seq<char>;

    open spec fn view(&self) -> Seq<char> {
        rope_chars(self.content)
    }
}

impl Document {
    /// The document of a first parse: one only where the parse gave a tree.
    pub fn assemble(
        content: ropey::Rope,
        parser: tree_sitter::Parser,
        parsed: Option<tree_sitter::Tree>,
    ) -> (document: Option<Self>)
        ensures
            document is Some <==> parsed is Some,
            document matches Some(made) ==> made.content == content && made.parser == parser
                && made.tree == parsed->0,
    {
        match parsed {
            Some(tree) => Some(Document { content, parser, tree }),
            None => None,
        }
    }

    /// Binds a fresh parser to the session's grammar and parses `text` from
    /// scratch: `ParserInit` exactly where the engine refuses the grammar.
    /// Else the engine decides whether the parse gives a tree: no document
    /// where it gives none, and else the document, which holds exactly
    /// `text` and the parser, bound to the session's grammar. Either way the
    /// update of the status channel for the parse is handed back too.
    pub fn open<C>(session: &Session<C>, text: &str) -> (result: Result<Opening, Error>)
        ensures
            result is Err <==> !grammar_accepted(session.grammar()),
            result matches Err(error) ==> error == Error::ParserInit,
            result matches Ok(opening) ==> shows(opening.channel, opening.tree()) && (
            opening.document matches Some(document) ==> document@ == text@ && language_of(
                document.parser,
            ) == Some(session.grammar())),
    {
        let mut parser = parser::javascript(session.language())?;
        let content = rope_from_str(text);
        let parsed = parser_parse(&mut parser, text);
        let channel = update_channel(parsed.as_ref());
        Ok(Opening { document: Document::assemble(content, parser, parsed), channel })
    }

    /// Takes the outcome of a parse for the URI: a tree replaces the stored
    /// one and is handed back, and no tree leaves the session as it was.
    /// `SessionResourceNotFound` for the tree where there is a tree to store
    /// and the URI has none.
    pub fn store<C>(
        session: &mut Session<C>,
        uri: &str,
        parsed: Option<tree_sitter::Tree>,
    ) -> (result: Result<Option<tree_sitter::Tree>, Error>)
        ensures
            old(session).wf() ==> final(session).wf(),
            final(session).settings() == old(session).settings(),
            parsed is None || old(session)@.tree_of(uri@) is Some ==> result == Ok::<
                Option<tree_sitter::Tree>,
                Error,
            >(parsed) && final(session)@ == old(session)@.after_parse(uri@, parsed),
            parsed is Some && old(session)@.tree_of(uri@) is None ==> final(session)@ == old(
                session,
            )@ && (result matches Err(error) && error.is_not_found(SessionResourceKind::Tree, uri@)),
    {
        match parsed {
            Some(tree) => {
                let copy = tree_clone(&tree);
                match session.get_mut_tree(uri, copy) {
                    Ok(_) => Ok(Some(tree)),
                    Err(error) => Err(error),
                }
            },
            None => Ok(None),
        }
    }

    /// Parses the whole of `content` anew with the URI's parser and, only if
    /// that gives a tree, stores the tree for the URI and hands it back;
    /// where it gives none, every text and tree stays as it was. Either way
    /// the update of the status channel for the parse is handed back too,
    /// and the parser that ran, still bound to its grammar, may be in
    /// another state. A URI that is not open is `SessionResourceNotFound`
    /// for the parser.
    pub fn change<C>(session: &mut Session<C>, uri: &str, content: &ropey::Rope) -> (result: Result<
        Parsed,
        Error,
    >)
        ensures
            old(session).wf() ==> final(session).wf(),
            final(session).settings() == old(session).settings(),
            !old(session)@.has_parser(uri@) ==> final(session)@ == old(session)@ && (
            result matches Err(error) && error.is_not_found(SessionResourceKind::Parser, uri@)),
            old(session)@.has_parser(uri@) ==> language_of(final(session)@.parsers[uri@])
                == language_of(old(session)@.parsers[uri@]),
            old(session)@.has_parser(uri@) ==> match result {
                Ok(parsed) => shows(parsed.channel, parsed.tree) && final(session)@ == old(
                    session,
                )@.reparsed(final(session)@, uri@).after_parse(uri@, parsed.tree),
                Err(error) => final(session)@ == old(session)@.reparsed(final(session)@, uri@)
                    && old(session)@.tree_of(uri@) is None && error.is_not_found(
                    SessionResourceKind::Tree,
                    uri@,
                ),
            },
            old(session)@.has_parser(uri@) && old(session)@.tree_of(uri@) is Some ==> result is Ok,
    {
        let parsed = session.get_mut_parser(uri, content)?;
        match Document::store(session, uri, parsed) {
            Ok(tree) => Ok(Parsed::new(tree)),
            Err(error) => Err(error),
        }
    }

    /// The text of the document.
    pub fn text(&self) -> (text: Text)
        ensures
            text@ == self@,
    {
        Text { content: rope_clone(&self.content) }
    }
}

} // verus!
