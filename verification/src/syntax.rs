//! The parse engine and what the status channel is told after each parse.

use crate::sexp::{formattable, formatted, try_format_sexp};
use crate::symbol::{Capture, DECLARATION_PATTERNS};
use vstd::prelude::*;

verus! {

/// `tree_sitter::Language`, a grammar.
#[verifier::external_type_specification]
#[verifier::external_body]
pub struct ExLanguage(tree_sitter::Language);

/// `tree_sitter::Parser`, the state of one parse engine.
#[verifier::external_type_specification]
#[verifier::external_body]
pub struct ExParser(tree_sitter::Parser);

/// `tree_sitter::Tree`, the outcome of a parse.
#[verifier::external_type_specification]
#[verifier::external_body]
pub struct ExTree(tree_sitter::Tree);

/// `tree_sitter::Query`, a compiled set of patterns.
#[verifier::external_type_specification]
#[verifier::external_body]
pub struct ExQuery(tree_sitter::Query);

/// `tree_sitter::LanguageError`, the refusal of a grammar.
#[verifier::external_type_specification]
#[verifier::external_body]
pub struct ExLanguageError(tree_sitter::LanguageError);

/// `tree_sitter::QueryError`, the refusal of a set of patterns.
#[verifier::external_type_specification]
#[verifier::external_body]
pub struct ExQueryError(tree_sitter::QueryError);

/// The grammar that the parser is bound to, if it is bound to one.
pub uninterp spec fn language_of(parser: tree_sitter::Parser) -> Option<tree_sitter::Language>;

/// `tree_sitter::Parser::new`: a parser with no grammar yet.
#[verifier::external_body]
pub(crate) fn parser_new() -> (made: tree_sitter::Parser)
    ensures
        language_of(made) is None,
{
    tree_sitter::Parser::new()
}

/// Whether the engine takes the grammar: it refuses one that was generated
/// for another version of the engine.
pub uninterp spec fn grammar_accepted(language: tree_sitter::Language) -> bool;

/// `tree_sitter::Parser::set_language`, which refuses a grammar generated
/// for another version of the engine, whatever the parser: the parser is
/// bound to the grammar where the engine takes it, and to what it was bound
/// to before where the engine refuses.
#[verifier::external_body]
pub(crate) fn parser_set_language(
    parser: &mut tree_sitter::Parser,
    language: &tree_sitter::Language,
) -> (outcome: Result<(), tree_sitter::LanguageError>)
    ensures
        outcome is Ok <==> grammar_accepted(*language),
        outcome is Ok ==> language_of(*final(parser)) == Some(*language),
        outcome is Err ==> language_of(*final(parser)) == language_of(*old(parser)),
{
    parser.set_language(*language)
}

/// `tree_sitter::Parser::parse` with no earlier tree. The engine decides
/// whether a tree comes back; the parser stays bound to its grammar.
#[verifier::external_body]
pub(crate) fn parser_parse(parser: &mut tree_sitter::Parser, text: &str) -> (parsed: Option<
    tree_sitter::Tree,
>)
    ensures
        language_of(*final(parser)) == language_of(*old(parser)),
{
    parser.parse(text, None)
}

/// `tree_sitter::Tree::clone`: the copy is the same tree.
#[verifier::external_body]
pub(crate) fn tree_clone(tree: &tree_sitter::Tree) -> (copy: tree_sitter::Tree)
    ensures
        copy == *tree,
{
    tree.clone()
}

/// The S-expression of the tree's root, on one line.
pub uninterp spec fn sexp_of(tree: tree_sitter::Tree) -> Seq<char>;

/// Whether the tree holds syntax errors.
pub uninterp spec fn has_error_of(tree: tree_sitter::Tree) -> bool;

/// The patterns of `source` compiled for the grammar; `None` where the
/// engine refuses them.
pub uninterp spec fn query_of(language: tree_sitter::Language, source: Seq<char>) -> Option<
    tree_sitter::Query,
>;

/// The matches of the patterns in the tree, in the order in which the engine
/// finds them.
pub uninterp spec fn matches_of(
    query: tree_sitter::Query,
    tree: tree_sitter::Tree,
    text: Seq<char>,
) -> Seq<Vec<Capture>>;

/// `tree_sitter::Node::to_sexp` on the root of the tree: a function of the
/// tree alone.
#[verifier::external_body]
pub(crate) fn tree_sexp(tree: &tree_sitter::Tree) -> (sexp: String)
    ensures
        sexp@ == sexp_of(*tree),
{
    tree.root_node().to_sexp()
}

/// `tree_sitter::Node::has_error` on the root of the tree: a function of the
/// tree alone.
#[verifier::external_body]
pub(crate) fn tree_has_error(tree: &tree_sitter::Tree) -> (found: bool)
    ensures
        found == has_error_of(*tree),
{
    tree.root_node().has_error()
}

/// `tree_sitter::Query::new`, which refuses patterns that the grammar does
/// not know: a function of the grammar and the patterns alone. Where it
/// refuses a name, it cuts the name out of the patterns for its message and
/// panics on a name that runs to the very end of them: so the patterns end
/// with a line break.
#[verifier::external_body]
pub(crate) fn query_new(language: &tree_sitter::Language, source: &str) -> (made: Result<
    tree_sitter::Query,
    tree_sitter::QueryError,
>)
    requires
        source@.len() > 0,
        source@.last() == '\n',
    ensures
        made is Ok <==> query_of(*language, source@) is Some,
        made matches Ok(compiled) ==> query_of(*language, source@) == Some(compiled),
{
    tree_sitter::Query::new(*language, source)
}

/// `tree_sitter::QueryCursor::matches` from the root of the tree: the matches
/// in the order in which the engine finds them, each as its captures in the
/// engine's order, each capture as its name and its node's byte range. For a
/// predicate on the text of a node the engine cuts the node's byte range out
/// of `text` and panics where the text is shorter: so the query is the one
/// of the declaration patterns, which hold no predicate.
#[verifier::external_body]
pub(crate) fn query_matches(query: &tree_sitter::Query, tree: &tree_sitter::Tree, text: &str) -> (found:
    Vec<Vec<Capture>>)
    requires
        exists|language: tree_sitter::Language| #[trigger]
            query_of(language, DECLARATION_PATTERNS@) == Some(*query),
    ensures
        found@ == matches_of(*query, *tree, text@),
{
    let mut cursor = tree_sitter::QueryCursor::new();
    let names = query.capture_names();
    cursor.matches(query, tree.root_node(), text.as_bytes()).map(
        |found|
            found.captures.iter().map(
                |capture|
                    Capture {
                        name: names[capture.index as usize].clone(),
                        start_byte: capture.node.start_byte(),
                        end_byte: capture.node.end_byte(),
                    },
            ).collect(),
    ).collect()
}

/// The background of the status channel.
#[derive(Clone, Copy, Debug, PartialEq, Eq, Structural)]
pub enum ChannelColor {
    /// No tree, or a tree with syntax errors.
    Red,
    /// A tree without syntax errors.
    Green,
}

impl ChannelColor {
    /// The color as the style sheet writes it.
    pub fn css(&self) -> (value: &'static str)
        ensures
            value@ == match *self {
                ChannelColor::Red => "rgb(255, 87, 51)"@,
                ChannelColor::Green => "rgb(218, 247, 166)"@,
            },
    {
        match self {
            ChannelColor::Red => "rgb(255, 87, 51)",
            ChannelColor::Green => "rgb(218, 247, 166)",
        }
    }
}

/// What the status channel is to show after a parse: a new text, if there is
/// a tree, and a background.
#[derive(Clone, Debug, PartialEq, Eq)]
pub struct ChannelUpdate {
    pub value: Option<String>,
    pub color: ChannelColor,
}

/// The background after a parse that gave a tree or none.
pub open spec fn color_after(has_tree: bool, has_error: bool) -> ChannelColor {
    if has_tree && !has_error {
        ChannelColor::Green
    } else {
        ChannelColor::Red
    }
}

/// What the channel shows after a parse, given the S-expression of the tree,
/// if there is a tree, and whether the tree holds syntax errors: the
/// expression over indented lines, and green only for a tree without errors.
/// `None` where the expression has no layout.
pub fn channel_update(sexp: Option<&str>, has_error: bool) -> (update: Option<ChannelUpdate>)
    ensures
        update is Some <==> (sexp matches Some(text) ==> formattable(text@, 0)),
        update matches Some(shown) ==> shown.color == color_after(sexp is Some, has_error) && (
        shown.value is Some <==> sexp is Some),
        update matches Some(shown) ==> (sexp matches Some(text) ==> shown.value->0@ == formatted(
            text@,
            0,
        )),
{
    match sexp {
        Some(text) => {
            match try_format_sexp(text, 0) {
                Some(value) => {
                    let color = if has_error {
                        ChannelColor::Red
                    } else {
                        ChannelColor::Green
                    };
                    Some(ChannelUpdate { value: Some(value), color })
                },
                None => None,
            }
        },
        None => Some(ChannelUpdate { value: None, color: ChannelColor::Red }),
    }
}

/// The update is what the channel shows for the outcome of a parse. For a
/// tree it is the tree's S-expression over indented lines, on green only if
/// the tree holds no errors, and there is none where the expression has no
/// layout. For no tree it is red and leaves the text as it is.
pub open spec fn shows(update: Option<ChannelUpdate>, tree: Option<tree_sitter::Tree>) -> bool {
    match tree {
        Some(parsed) => match update {
            Some(shown) => {
                &&& formattable(sexp_of(parsed), 0)
                &&& shown.color == color_after(true, has_error_of(parsed))
                &&& shown.value is Some
                &&& shown.value->0@ == formatted(sexp_of(parsed), 0)
            },
            None => !formattable(sexp_of(parsed), 0),
        },
        None => update matches Some(shown) && shown.value is None && shown.color
            == ChannelColor::Red,
    }
}

/// What the channel shows for the outcome of a parse.
pub fn update_channel(tree: Option<&tree_sitter::Tree>) -> (update: Option<ChannelUpdate>)
    ensures
        shows(
            update,
            match tree {
                Some(parsed) => Some(*parsed),
                None => None,
            },
        ),
{
    match tree {
        Some(tree) => {
            let sexp = tree_sexp(tree);
            let has_error = tree_has_error(tree);
            channel_update(Some(sexp.as_str()), has_error)
        },
        None => channel_update(None, false),
    }
}

} // verus!
