//! The registry of open documents: for each URI a text, a parser and a
//! syntax tree, entered and removed together.

use crate::document::{Document, DocumentState};
use crate::error::Error;
use crate::server::{
    announced, capabilities, legend_of, SemanticTokensLegend, SemanticTokensServerCapabilities,
    ServerCapabilities,
};
use crate::syntax::{language_of, parser_parse};
use crate::text::{rope_chars, rope_to_string, Text};
use vstd::prelude::*;

verus! {

/// `dashmap::DashMap`, a concurrent hash map; only the wrappers below look
/// inside.
#[verifier::external_type_specification]
#[verifier::external_body]
#[verifier::reject_recursive_types(K)]
#[verifier::reject_recursive_types(V)]
#[verifier::reject_recursive_types(S)]
pub struct ExDashMap<K, V, S>(dashmap::DashMap<K, V, S>);

/// The texts that the map holds, by URI.
pub uninterp spec fn text_entries(map: dashmap::DashMap<String, ropey::Rope>) -> Map<
    Seq<char>,
    Seq<char>,
>;

/// The parsers that the map holds, by URI.
pub uninterp spec fn parser_entries(map: dashmap::DashMap<String, tree_sitter::Parser>) -> Map<
    Seq<char>,
    tree_sitter::Parser,
>;

/// The trees that the map holds, by URI.
pub uninterp spec fn tree_entries(map: dashmap::DashMap<String, tree_sitter::Tree>) -> Map<
    Seq<char>,
    tree_sitter::Tree,
>;

/// `dashmap::DashMap::new`: a map without entries.
#[verifier::external_body]
fn texts_new() -> (made: dashmap::DashMap<String, ropey::Rope>)
    ensures
        text_entries(made).dom() == Set::<Seq<char>>::empty(),
{
    dashmap::DashMap::new()
}

/// `dashmap::DashMap::contains_key`.
#[verifier::external_body]
fn texts_contains_key(map: &dashmap::DashMap<String, ropey::Rope>, key: &str) -> (found: bool)
    ensures
        found == text_entries(*map).contains_key(key@),
{
    map.contains_key(key)
}

/// `dashmap::DashMap::get`, handing out a copy of the rope found: the entry
/// under the key, if there is one.
#[verifier::external_body]
fn texts_get(map: &dashmap::DashMap<String, ropey::Rope>, key: &str) -> (found: Option<ropey::Rope>)
    ensures
        found is Some <==> text_entries(*map).contains_key(key@),
        found matches Some(rope) ==> rope_chars(rope) == text_entries(*map)[key@],
{
    map.get(key).map(|entry| entry.value().clone())
}

/// `dashmap::DashMap::insert`: the key now leads to the value, whatever it
/// led to before; the other entries stay.
#[verifier::external_body]
fn texts_insert(map: &mut dashmap::DashMap<String, ropey::Rope>, key: String, value: ropey::Rope)
    ensures
        text_entries(*final(map)) == text_entries(*old(map)).insert(key@, rope_chars(value)),
{
    map.insert(key, value);
}

/// `dashmap::DashMap::remove`: the key leads nowhere; the other entries stay.
#[verifier::external_body]
fn texts_remove(map: &mut dashmap::DashMap<String, ropey::Rope>, key: &str)
    ensures
        text_entries(*final(map)) == text_entries(*old(map)).remove(key@),
{
    map.remove(key);
}

/// `dashmap::DashMap::new`: a map without entries.
#[verifier::external_body]
fn parsers_new() -> (made: dashmap::DashMap<String, tree_sitter::Parser>)
    ensures
        parser_entries(made).dom() == Set::<Seq<char>>::empty(),
{
    dashmap::DashMap::new()
}

/// `dashmap::DashMap::insert`: the key now leads to the value, whatever it
/// led to before; the other entries stay.
#[verifier::external_body]
fn parsers_insert(
    map: &mut dashmap::DashMap<String, tree_sitter::Parser>,
    key: String,
    value: tree_sitter::Parser,
)
    ensures
        parser_entries(*final(map)) == parser_entries(*old(map)).insert(key@, value),
{
    map.insert(key, value);
}

/// `dashmap::DashMap::remove`, handing out the parser removed: the key leads
/// nowhere; the other entries stay.
#[verifier::external_body]
fn parsers_remove(map: &mut dashmap::DashMap<String, tree_sitter::Parser>, key: &str) -> (removed:
    Option<tree_sitter::Parser>)
    ensures
        parser_entries(*final(map)) == parser_entries(*old(map)).remove(key@),
        removed is Some <==> parser_entries(*old(map)).contains_key(key@),
        removed matches Some(parser) ==> parser == parser_entries(*old(map))[key@],
{
    map.remove(key).map(|entry| entry.1)
}

/// `dashmap::DashMap::new`: a map without entries.
#[verifier::external_body]
fn trees_new() -> (made: dashmap::DashMap<String, tree_sitter::Tree>)
    ensures
        tree_entries(made).dom() == Set::<Seq<char>>::empty(),
{
    dashmap::DashMap::new()
}

/// `dashmap::DashMap::contains_key`.
#[verifier::external_body]
fn trees_contains_key(map: &dashmap::DashMap<String, tree_sitter::Tree>, key: &str) -> (found: bool)
    ensures
        found == tree_entries(*map).contains_key(key@),
{
    map.contains_key(key)
}

/// `dashmap::DashMap::get`, handing out a copy of the tree found: the entry
/// under the key, if there is one.
#[verifier::external_body]
fn trees_get(map: &dashmap::DashMap<String, tree_sitter::Tree>, key: &str) -> (found: Option<
    tree_sitter::Tree,
>)
    ensures
        found is Some <==> tree_entries(*map).contains_key(key@),
        found matches Some(tree) ==> tree == tree_entries(*map)[key@],
{
    map.get(key).map(|entry| entry.value().clone())
}

/// `dashmap::DashMap::insert`: the key now leads to the value, whatever it
/// led to before; the other entries stay.
#[verifier::external_body]
fn trees_insert(
    map: &mut dashmap::DashMap<String, tree_sitter::Tree>,
    key: String,
    value: tree_sitter::Tree,
)
    ensures
        tree_entries(*final(map)) == tree_entries(*old(map)).insert(key@, value),
{
    map.insert(key, value);
}

/// `dashmap::DashMap::remove`: the key leads nowhere; the other entries stay.
#[verifier::external_body]
fn trees_remove(map: &mut dashmap::DashMap<String, tree_sitter::Tree>, key: &str)
    ensures
        tree_entries(*final(map)) == tree_entries(*old(map)).remove(key@),
{
    map.remove(key);
}

/// The three resources that the session keeps for each open document.
#[derive(Clone, Copy, Debug, PartialEq, Eq, Structural)]
pub enum SessionResourceKind {
    Document,
    Parser,
    Tree,
}

/// What a session holds: the text, the parser and the tree of each open URI.
pub ghost struct Registry {
    pub texts: Map<Seq<char>, Seq<char>>,
    pub parsers: Map<Seq<char>, tree_sitter::Parser>,
    pub trees: Map<Seq<char>, tree_sitter::Tree>,
}

impl Registry {
    /// The registry of a session in which nothing is open.
    pub open spec fn empty() -> Registry {
        Registry { texts: Map::empty(), parsers: Map::empty(), trees: Map::empty() }
    }

    /// Every open URI has all three resources: no URI has only some.
    pub open spec fn wf(self) -> bool {
        &&& self.texts.dom() == self.parsers.dom()
        &&& self.trees.dom() == self.parsers.dom()
    }

    /// The URI is open.
    pub open spec fn contains(self, uri: Seq<char>) -> bool {
        self.texts.contains_key(uri)
    }

    /// The text stored for the URI.
    pub open spec fn text_of(self, uri: Seq<char>) -> Option<Seq<char>> {
        if self.texts.contains_key(uri) {
            Some(self.texts[uri])
        } else {
            None
        }
    }

    /// The tree stored for the URI.
    pub open spec fn tree_of(self, uri: Seq<char>) -> Option<tree_sitter::Tree> {
        if self.trees.contains_key(uri) {
            Some(self.trees[uri])
        } else {
            None
        }
    }

    /// The URI has a parser.
    pub open spec fn has_parser(self, uri: Seq<char>) -> bool {
        self.parsers.contains_key(uri)
    }

    /// The parser stored for the URI.
    pub open spec fn parser_of(self, uri: Seq<char>) -> Option<tree_sitter::Parser> {
        if self.parsers.contains_key(uri) {
            Some(self.parsers[uri])
        } else {
            None
        }
    }

    /// The registry with the URI opened on `text`, `parser` and `tree`.
    pub open spec fn inserted(
        self,
        uri: Seq<char>,
        text: Seq<char>,
        parser: tree_sitter::Parser,
        tree: tree_sitter::Tree,
    ) -> Registry {
        Registry {
            texts: self.texts.insert(uri, text),
            parsers: self.parsers.insert(uri, parser),
            trees: self.trees.insert(uri, tree),
        }
    }

    /// The registry with the URI closed.
    pub open spec fn removed(self, uri: Seq<char>) -> Registry {
        Registry {
            texts: self.texts.remove(uri),
            parsers: self.parsers.remove(uri),
            trees: self.trees.remove(uri),
        }
    }

    /// The registry with `text` stored for the URI.
    pub open spec fn with_text(self, uri: Seq<char>, text: Seq<char>) -> Registry {
        Registry { texts: self.texts.insert(uri, text), ..self }
    }

    /// The registry with `tree` stored for the URI.
    pub open spec fn with_tree(self, uri: Seq<char>, tree: tree_sitter::Tree) -> Registry {
        Registry { trees: self.trees.insert(uri, tree), ..self }
    }

    /// The registry with the URI's parser, if it has one, in the state in
    /// which `after` holds it: a parse changes the state of the parser that
    /// runs it, and nothing else.
    pub open spec fn reparsed(self, after: Registry, uri: Seq<char>) -> Registry {
        if self.parsers.contains_key(uri) {
            Registry { parsers: self.parsers.insert(uri, after.parsers[uri]), ..self }
        } else {
            self
        }
    }

    /// The registry after a change of the URI to `text` whose parse gave
    /// `parsed`: with a tree, the text and the tree are stored together, and
    /// with no tree everything stays as it was.
    pub open spec fn after_change(
        self,
        uri: Seq<char>,
        text: Seq<char>,
        parsed: Option<tree_sitter::Tree>,
    ) -> Registry {
        match parsed {
            Some(tree) => self.with_text(uri, text).with_tree(uri, tree),
            None => self,
        }
    }

    /// The registry after a parse for the URI gave `parsed`: a tree replaces
    /// the stored one, and no tree leaves everything as it was.
    pub open spec fn after_parse(self, uri: Seq<char>, parsed: Option<tree_sitter::Tree>) -> Registry {
        match parsed {
            Some(tree) => self.with_tree(uri, tree),
            None => self,
        }
    }

    /// Whether the URI is open or closed.
    pub open spec fn state_of(self, uri: Seq<char>) -> DocumentState {
        if self.contains(uri) {
            DocumentState::Opened
        } else {
            DocumentState::Closed
        }
    }
}

/// Where no URI has only some of the three resources, a URI with one of
/// them is open and has them all.
pub proof fn lemma_one_resource_means_all(registry: Registry, uri: Seq<char>)
    requires
        registry.wf(),
    ensures
        registry.contains(uri) <==> registry.text_of(uri) is Some,
        registry.contains(uri) <==> registry.has_parser(uri),
        registry.contains(uri) <==> registry.tree_of(uri) is Some,
{
}

/// A URI that was opened on a document has exactly its text, its parser and
/// its tree.
pub proof fn lemma_text_after_open(
    before: Registry,
    uri: Seq<char>,
    text: Seq<char>,
    parser: tree_sitter::Parser,
    tree: tree_sitter::Tree,
)
    ensures
        before.inserted(uri, text, parser, tree).text_of(uri) == Some(text),
        before.inserted(uri, text, parser, tree).parser_of(uri) == Some(parser),
        before.inserted(uri, text, parser, tree).tree_of(uri) == Some(tree),
        before.inserted(uri, text, parser, tree).state_of(uri) == DocumentState::Opened,
{
}

/// Opening, closing, changing and parsing keep the three resources of every
/// URI together.
pub proof fn lemma_resources_stay_together(
    before: Registry,
    after: Registry,
    uri: Seq<char>,
    text: Seq<char>,
    parser: tree_sitter::Parser,
    tree: tree_sitter::Tree,
    parsed: Option<tree_sitter::Tree>,
)
    requires
        before.wf(),
    ensures
        Registry::empty().wf(),
        before.inserted(uri, text, parser, tree).wf(),
        before.removed(uri).wf(),
        before.reparsed(after, uri).wf(),
        before.contains(uri) ==> before.with_text(uri, text).wf(),
        before.contains(uri) ==> before.with_tree(uri, tree).wf(),
        before.contains(uri) ==> before.after_change(uri, text, parsed).wf(),
{
    let keys = before.parsers.dom();
    assert(before.inserted(uri, text, parser, tree).texts.dom() =~= keys.insert(uri));
    assert(before.inserted(uri, text, parser, tree).parsers.dom() =~= keys.insert(uri));
    assert(before.inserted(uri, text, parser, tree).trees.dom() =~= keys.insert(uri));
    assert(before.removed(uri).texts.dom() =~= keys.remove(uri));
    assert(before.removed(uri).parsers.dom() =~= keys.remove(uri));
    assert(before.removed(uri).trees.dom() =~= keys.remove(uri));
    assert(before.reparsed(after, uri).parsers.dom() =~= keys);
    if before.contains(uri) {
        assert(before.with_text(uri, text).texts.dom() =~= keys);
        assert(before.with_tree(uri, tree).trees.dom() =~= keys);
        assert(before.with_text(uri, text).with_tree(uri, tree).trees.dom() =~= keys);
    }
}

/// A URI that was closed has no text, no parser and no tree.
pub proof fn lemma_nothing_after_close(before: Registry, uri: Seq<char>)
    ensures
        !before.removed(uri).contains(uri),
        before.removed(uri).text_of(uri) is None,
        before.removed(uri).tree_of(uri) is None,
        !before.removed(uri).has_parser(uri),
        before.removed(uri).state_of(uri) == DocumentState::Closed,
{
}

/// A URI stays open until it is closed: through an opening, a closing of
/// another URI, a new text, a parse and its outcome, for whatever URI.
pub proof fn lemma_open_until_closed(
    before: Registry,
    after: Registry,
    uri: Seq<char>,
    other: Seq<char>,
    text: Seq<char>,
    parser: tree_sitter::Parser,
    tree: tree_sitter::Tree,
    parsed: Option<tree_sitter::Tree>,
)
    requires
        before.contains(uri),
    ensures
        before.inserted(other, text, parser, tree).contains(uri),
        other != uri ==> before.removed(other).contains(uri),
        before.with_text(other, text).contains(uri),
        before.reparsed(after, other).contains(uri),
        before.after_parse(other, parsed).contains(uri),
        before.after_change(other, text, parsed).contains(uri),
{
}

/// A parse that gives no tree leaves every text and every tree as it was,
/// whether it was asked for alone or by a change of the text; only the
/// parser that ran may be in another state.
pub proof fn lemma_failed_parse_keeps_all(
    before: Registry,
    after: Registry,
    uri: Seq<char>,
    text: Seq<char>,
)
    ensures
        before.after_parse(uri, None) == before,
        before.after_change(uri, text, None) == before,
        before.reparsed(after, uri).texts == before.texts,
        before.reparsed(after, uri).trees == before.trees,
        before.reparsed(after, uri).parsers.dom() == before.parsers.dom(),
{
    assert(before.reparsed(after, uri).parsers.dom() =~= before.parsers.dom());
}

/// After a change whose parse gave a tree, the URI's text is the text of the
/// change and its tree is the tree of that parse; the other URIs keep theirs.
pub proof fn lemma_change_pairs_text_and_tree(
    before: Registry,
    uri: Seq<char>,
    other: Seq<char>,
    text: Seq<char>,
    tree: tree_sitter::Tree,
)
    requires
        other != uri,
    ensures
        before.after_change(uri, text, Some(tree)).text_of(uri) == Some(text),
        before.after_change(uri, text, Some(tree)).tree_of(uri) == Some(tree),
        before.after_change(uri, text, Some(tree)).text_of(other) == before.text_of(other),
        before.after_change(uri, text, Some(tree)).tree_of(other) == before.tree_of(other),
        before.after_change(uri, text, Some(tree)).parsers == before.parsers,
{
}

/// The state of one running server: the channel to the client, if there is
/// one, the grammar, and the open documents.
pub struct Session<C> {
    server_capabilities: ServerCapabilities,
    client: Option<C>,
    language: tree_sitter::Language,
    document_texts: dashmap::DashMap<String, ropey::Rope>,
    document_parsers: dashmap::DashMap<String, tree_sitter::Parser>,
    document_trees: dashmap::DashMap<String, tree_sitter::Tree>,
}

impl<C> View for Session<C> {
    type V = Registry;

    closed spec fn view(&self) -> Registry {
        Registry {
            texts: text_entries(self.document_texts),
            parsers: parser_entries(self.document_parsers),
            trees: tree_entries(self.document_trees),
        }
    }
}

impl<C> Session<C> {
    /// Every open URI has all three resources.
    pub open spec fn wf(&self) -> bool {
        self@.wf()
    }

    /// What the session holds besides its documents: the channel to the
    /// client, the grammar, and what the server announces.
    pub closed spec fn settings(&self) -> (Option<C>, tree_sitter::Language, ServerCapabilities) {
        (self.client, self.language, self.server_capabilities)
    }

    /// The channel to the client, if the session has one.
    pub open spec fn channel(&self) -> Option<C> {
        self.settings().0
    }

    /// The grammar that the session's parsers are bound to.
    pub open spec fn grammar(&self) -> tree_sitter::Language {
        self.settings().1
    }

    /// What the server announces to the client.
    pub open spec fn offered(&self) -> ServerCapabilities {
        self.settings().2
    }

    /// A session in which nothing is open.
    pub fn new(client: Option<C>, language: tree_sitter::Language) -> (session: Self)
        ensures
            session.wf(),
            session@ == Registry::empty(),
            session.channel() == client,
            session.grammar() == language,
            session.offered() == announced(),
    {
        let session = Session {
            server_capabilities: capabilities(),
            client,
            language,
            document_texts: texts_new(),
            document_parsers: parsers_new(),
            document_trees: trees_new(),
        };
        assert(session@.texts =~= Registry::empty().texts);
        assert(session@.parsers =~= Registry::empty().parsers);
        assert(session@.trees =~= Registry::empty().trees);
        session
    }

    /// The channel to the client; `ClientNotInitialized` where there is none.
    pub fn client(&self) -> (result: Result<&C, Error>)
        ensures
            match self.channel() {
                Some(channel) => result == Ok::<&C, Error>(&channel),
                None => result == Err::<&C, Error>(Error::ClientNotInitialized),
            },
    {
        match &self.client {
            Some(channel) => Ok(channel),
            None => Err(Error::ClientNotInitialized),
        }
    }

    /// What the server announces to the client.
    pub fn server_capabilities(&self) -> (offered: &ServerCapabilities)
        ensures
            *offered == self.offered(),
    {
        &self.server_capabilities
    }

    /// Announces `offered` from now on; the documents stay as they are.
    pub fn set_server_capabilities(&mut self, offered: ServerCapabilities)
        ensures
            final(self).offered() == offered,
            final(self)@ == old(self)@,
            final(self).channel() == old(self).channel(),
            final(self).grammar() == old(self).grammar(),
    {
        self.server_capabilities = offered;
    }

    /// The legend of the semantic tokens that the server offers, if it
    /// offers any.
    pub fn semantic_tokens_legend(&self) -> (legend: Option<&SemanticTokensLegend>)
        ensures
            match legend_of(self.offered()) {
                Some(offered) => legend == Some(&offered),
                None => legend is None,
            },
    {
        match &self.server_capabilities.semantic_tokens_provider {
            Some(SemanticTokensServerCapabilities::SemanticTokensOptions { legend }) => Some(legend),
            Some(SemanticTokensServerCapabilities::SemanticTokensRegistrationOptions { legend }) => Some(
                legend,
            ),
            None => None,
        }
    }

    /// The grammar that the session's parsers are bound to.
    pub fn language(&self) -> (language: &tree_sitter::Language)
        ensures
            *language == self.grammar(),
    {
        &self.language
    }

    /// Whether the URI is open.
    pub fn document_state(&self, uri: &str) -> (state: DocumentState)
        ensures
            state == self@.state_of(uri@),
    {
        if texts_contains_key(&self.document_texts, uri) {
            DocumentState::Opened
        } else {
            DocumentState::Closed
        }
    }

    /// Opens the URI on the document: its text, parser and tree are entered
    /// together. An open URI is refused with `DuplicateDocument`, and nothing
    /// changes.
    pub fn insert_document(&mut self, uri: String, document: Document) -> (result: Result<(), Error>)
        ensures
            old(self).wf() ==> final(self).wf(),
            final(self).settings() == old(self).settings(),
            old(self)@.contains(uri@) ==> final(self)@ == old(self)@ && (result matches Err(error)
                && error.is_duplicate(uri@)),
            !old(self)@.contains(uri@) ==> result is Ok && final(self)@ == old(self)@.inserted(
                uri@,
                document@,
                document.parser,
                document.tree,
            ),
    {
        if texts_contains_key(&self.document_texts, uri.as_str()) {
            return Err(Error::DuplicateDocument { uri });
        }
        let Document { content, parser, tree } = document;
        texts_insert(&mut self.document_texts, uri.clone(), content);
        parsers_insert(&mut self.document_parsers, uri.clone(), parser);
        trees_insert(&mut self.document_trees, uri, tree);
        Ok(())
    }

    /// Closes the URI: its text, parser and tree leave together. A URI that
    /// is not open is `SessionResourceNotFound` for the document, and nothing
    /// changes.
    pub fn remove_document(&mut self, uri: &str) -> (result: Result<(), Error>)
        ensures
            old(self).wf() ==> final(self).wf(),
            final(self).settings() == old(self).settings(),
            old(self)@.contains(uri@) ==> result is Ok && final(self)@ == old(self)@.removed(uri@),
            !old(self)@.contains(uri@) ==> final(self)@ == old(self)@ && (result matches Err(error)
                && error.is_not_found(SessionResourceKind::Document, uri@)),
    {
        if !texts_contains_key(&self.document_texts, uri) {
            return Err(
                Error::SessionResourceNotFound {
                    kind: SessionResourceKind::Document,
                    uri: uri.to_owned(),
                },
            );
        }
        texts_remove(&mut self.document_texts, uri);
        let _ = parsers_remove(&mut self.document_parsers, uri);
        trees_remove(&mut self.document_trees, uri);
        Ok(())
    }

    /// The text stored for the URI; `SessionResourceNotFound` for the
    /// document where the URI is not open.
    pub fn get_text(&self, uri: &str) -> (result: Result<Text, Error>)
        ensures
            match self@.text_of(uri@) {
                Some(text) => result matches Ok(found) && found@ == text,
                None => result matches Err(error) && error.is_not_found(
                    SessionResourceKind::Document,
                    uri@,
                ),
            },
    {
        match texts_get(&self.document_texts, uri) {
            Some(content) => Ok(Text { content }),
            None => Err(
                Error::SessionResourceNotFound {
                    kind: SessionResourceKind::Document,
                    uri: uri.to_owned(),
                },
            ),
        }
    }

    /// Stores `text` for the URI; `SessionResourceNotFound` for the document
    /// where the URI is not open, and nothing changes.
    pub fn get_mut_text(&mut self, uri: &str, text: Text) -> (result: Result<(), Error>)
        ensures
            old(self).wf() ==> final(self).wf(),
            final(self).settings() == old(self).settings(),
            old(self)@.contains(uri@) ==> result is Ok && final(self)@ == old(self)@.with_text(
                uri@,
                text@,
            ),
            !old(self)@.contains(uri@) ==> final(self)@ == old(self)@ && (result matches Err(error)
                && error.is_not_found(SessionResourceKind::Document, uri@)),
    {
        if !texts_contains_key(&self.document_texts, uri) {
            return Err(
                Error::SessionResourceNotFound {
                    kind: SessionResourceKind::Document,
                    uri: uri.to_owned(),
                },
            );
        }
        texts_insert(&mut self.document_texts, uri.to_owned(), text.content);
        assert(final(self)@.texts.dom() =~= old(self)@.texts.dom());
        Ok(())
    }

    /// Runs the URI's parser, to which nothing else has access meanwhile, on
    /// the whole of `content`; `SessionResourceNotFound` for the parser where
    /// the URI has none. The engine decides whether a tree comes back. The
    /// registry holds afterwards what it held before, but for the state of
    /// the parser that ran, which stays bound to its grammar.
    pub fn get_mut_parser(&mut self, uri: &str, content: &ropey::Rope) -> (result: Result<
        Option<tree_sitter::Tree>,
        Error,
    >)
        ensures
            old(self).wf() ==> final(self).wf(),
            final(self).settings() == old(self).settings(),
            final(self)@ == old(self)@.reparsed(final(self)@, uri@),
            old(self)@.has_parser(uri@) ==> result is Ok && language_of(final(self)@.parsers[uri@])
                == language_of(old(self)@.parsers[uri@]),
            !old(self)@.has_parser(uri@) ==> (result matches Err(error) && error.is_not_found(
                SessionResourceKind::Parser,
                uri@,
            )),
    {
        match parsers_remove(&mut self.document_parsers, uri) {
            Some(parser) => {
                let mut parser = parser;
                let text = rope_to_string(content);
                let parsed = parser_parse(&mut parser, text.as_str());
                parsers_insert(&mut self.document_parsers, uri.to_owned(), parser);
                assert(final(self)@.parsers =~= old(self)@.reparsed(final(self)@, uri@).parsers);
                Ok(parsed)
            },
            None => {
                assert(final(self)@.parsers =~= old(self)@.parsers);
                Err(
                    Error::SessionResourceNotFound {
                        kind: SessionResourceKind::Parser,
                        uri: uri.to_owned(),
                    },
                )
            },
        }
    }

    /// The tree stored for the URI; `SessionResourceNotFound` for the tree
    /// where the URI has none.
    pub fn get_tree(&self, uri: &str) -> (result: Result<tree_sitter::Tree, Error>)
        ensures
            match self@.tree_of(uri@) {
                Some(tree) => result matches Ok(found) && found == tree,
                None => result matches Err(error) && error.is_not_found(
                    SessionResourceKind::Tree,
                    uri@,
                ),
            },
    {
        match trees_get(&self.document_trees, uri) {
            Some(tree) => Ok(tree),
            None => Err(
                Error::SessionResourceNotFound {
                    kind: SessionResourceKind::Tree,
                    uri: uri.to_owned(),
                },
            ),
        }
    }

    /// Stores `tree` for the URI; `SessionResourceNotFound` for the tree
    /// where the URI has none, and nothing changes.
    pub fn get_mut_tree(&mut self, uri: &str, tree: tree_sitter::Tree) -> (result: Result<(), Error>)
        ensures
            old(self).wf() ==> final(self).wf(),
            final(self).settings() == old(self).settings(),
            old(self)@.tree_of(uri@) is Some ==> result is Ok && final(self)@ == old(self)@.with_tree(
                uri@,
                tree,
            ),
            old(self)@.tree_of(uri@) is None ==> final(self)@ == old(self)@ && (result matches Err(
                error,
            ) && error.is_not_found(SessionResourceKind::Tree, uri@)),
    {
        if !trees_contains_key(&self.document_trees, uri) {
            return Err(
                Error::SessionResourceNotFound {
                    kind: SessionResourceKind::Tree,
                    uri: uri.to_owned(),
                },
            );
        }
        trees_insert(&mut self.document_trees, uri.to_owned(), tree);
        assert(final(self)@.trees.dom() =~= old(self)@.trees.dom());
        Ok(())
    }
}

} // verus!
