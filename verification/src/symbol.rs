//! The symbols that a document declares, read off the captures of a fixed
//! set of declaration patterns.

use crate::text::{
    char_index_at_byte, lemma_char_index_bounded, lemma_char_index_monotonic, lsp_position_at,
    rope_byte_to_char, rope_chars, rope_len_bytes, rope_lsp_position, rope_slice, utf8_len,
};
use vstd::prelude::*;

verus! {

/// What a symbol declares.
#[derive(Clone, Copy, Debug, PartialEq, Eq, Structural)]
pub enum SymbolKind {
    Function,
    Variable,
    Class,
}

/// A place in a text: a zero-based line and a column in UTF-16 code units.
#[derive(Clone, Copy, Debug, PartialEq, Eq, Structural)]
pub struct TextPosition {
    pub line: u32,
    pub character: u32,
}

/// The stretch of text between two positions.
#[derive(Clone, Copy, Debug, PartialEq, Eq, Structural)]
pub struct TextRange {
    pub start: TextPosition,
    pub end: TextPosition,
}

/// One node bound by a pattern: the capture's name and the node's byte range.
#[derive(Clone, Debug, PartialEq, Eq)]
pub struct Capture {
    pub name: String,
    pub start_byte: usize,
    pub end_byte: usize,
}

/// A declaration found in a document.
#[derive(Clone, Debug, PartialEq, Eq)]
pub struct SymbolInfo {
    pub name: String,
    pub kind: SymbolKind,
    pub range: TextRange,
    pub uri: String,
}

/// A symbol as plain values.
pub ghost struct SymbolInfoView {
    pub name: Seq<char>,
    pub kind: SymbolKind,
    pub range: TextRange,
    pub uri: Seq<char>,
}

impl View for SymbolInfo {
    type V = SymbolInfoView;

    open spec fn view(&self) -> SymbolInfoView {
        SymbolInfoView { name: self.name@, kind: self.kind, range: self.range, uri: self.uri@ }
    }
}

/// The declaration shapes that are looked for: each pattern binds the
/// declaration, under the name of its shape, and then the identifier in it.
pub const DECLARATION_PATTERNS: &'static str =
    "(function_declaration name: (identifier) @identifier) @function_declaration\n\
     (lexical_declaration (variable_declarator name: (identifier) @identifier)) @lexical_declaration\n\
     (variable_declaration (variable_declarator name: (identifier) @identifier)) @variable_declaration\n\
     (class_declaration name: (identifier) @identifier) @class_declaration\n";

/// The declaration patterns end with a line break.
pub proof fn lemma_patterns_end_with_line_break()
    ensures
        DECLARATION_PATTERNS@.len() > 0,
        DECLARATION_PATTERNS@.last() == '\n',
{
    reveal_strlit(
        "(function_declaration name: (identifier) @identifier) @function_declaration\n\
     (lexical_declaration (variable_declarator name: (identifier) @identifier)) @lexical_declaration\n\
     (variable_declaration (variable_declarator name: (identifier) @identifier)) @variable_declaration\n\
     (class_declaration name: (identifier) @identifier) @class_declaration\n",
    );
}

/// The capture's byte range is well-formed and lies within `text`.
pub open spec fn in_bounds(text: Seq<char>, capture: Capture) -> bool {
    capture.start_byte <= capture.end_byte <= utf8_len(text)
}

/// The kind that a declaration capture of this name stands for, if any.
pub open spec fn kind_of(name: Seq<char>) -> Option<SymbolKind> {
    if name == "function_declaration"@ {
        Some(SymbolKind::Function)
    } else if name == "lexical_declaration"@ {
        Some(SymbolKind::Variable)
    } else if name == "variable_declaration"@ {
        Some(SymbolKind::Variable)
    } else if name == "class_declaration"@ {
        Some(SymbolKind::Class)
    } else {
        None
    }
}

/// The characters of `text` that the capture's byte range covers.
pub open spec fn text_of(text: Seq<char>, capture: Capture) -> Seq<char> {
    text.subrange(
        char_index_at_byte(text, capture.start_byte as int),
        char_index_at_byte(text, capture.end_byte as int),
    )
}

/// The position of the byte offset `byte` in `text`.
pub open spec fn position_of(text: Seq<char>, byte: nat) -> TextPosition {
    TextPosition { line: lsp_position_at(text, byte).0, character: lsp_position_at(text, byte).1 }
}

/// The line and column range that the capture's byte range covers in `text`.
pub open spec fn range_of(text: Seq<char>, capture: Capture) -> TextRange {
    TextRange {
        start: position_of(text, capture.start_byte as nat),
        end: position_of(text, capture.end_byte as nat),
    }
}

/// The symbol that a declaration and the identifier in it give.
pub open spec fn symbol_of(
    uri: Seq<char>,
    text: Seq<char>,
    declaration: Capture,
    identifier: Capture,
    kind: SymbolKind,
) -> SymbolInfoView {
    SymbolInfoView {
        name: text_of(text, identifier),
        kind,
        range: range_of(text, declaration),
        uri,
    }
}

/// The symbol that one match gives: a match counts when it binds exactly a
/// declaration of a known shape and an identifier, both within `text`.
pub open spec fn symbol_of_match(uri: Seq<char>, text: Seq<char>, captures: Seq<Capture>) -> Option<
    SymbolInfoView,
> {
    if captures.len() == 2 && kind_of(captures[0].name@) is Some && in_bounds(text, captures[0])
        && in_bounds(text, captures[1]) {
        Some(symbol_of(uri, text, captures[0], captures[1], kind_of(captures[0].name@)->0))
    } else {
        None
    }
}

/// The symbols that a list of matches gives, in the order of the matches.
pub open spec fn symbols_of(uri: Seq<char>, text: Seq<char>, matches: Seq<Vec<Capture>>) -> Seq<
    SymbolInfoView,
>
    decreases matches.len(),
{
    if matches.len() == 0 {
        Seq::empty()
    } else {
        let before = symbols_of(uri, text, matches.drop_last());
        match symbol_of_match(uri, text, matches.last()@) {
            Some(symbol) => before.push(symbol),
            None => before,
        }
    }
}

/// The symbols of a list as plain values.
pub open spec fn views_of(symbols: Seq<SymbolInfo>) -> Seq<SymbolInfoView> {
    symbols.map_values(|symbol: SymbolInfo| symbol@)
}

/// Every symbol listed is the symbol of one of the matches, and the byte
/// ranges of that match lie within the text.
pub proof fn lemma_symbols_lie_within_text(
    uri: Seq<char>,
    text: Seq<char>,
    matches: Seq<Vec<Capture>>,
    index: int,
)
    requires
        0 <= index < symbols_of(uri, text, matches).len(),
    ensures
        exists|at: int|
            0 <= at < matches.len() && #[trigger] symbol_of_match(uri, text, matches[at]@) == Some(
                symbols_of(uri, text, matches)[index],
            ) && in_bounds(text, matches[at]@[0]) && in_bounds(text, matches[at]@[1]),
    decreases matches.len(),
{
    let before = symbols_of(uri, text, matches.drop_last());
    if index < before.len() {
        lemma_symbols_lie_within_text(uri, text, matches.drop_last(), index);
        let at = choose|at: int|
            0 <= at < matches.drop_last().len() && #[trigger] symbol_of_match(
                uri,
                text,
                matches.drop_last()[at]@,
            ) == Some(before[index]) && in_bounds(text, matches.drop_last()[at]@[0]) && in_bounds(
                text,
                matches.drop_last()[at]@[1],
            );
        assert(matches.drop_last()[at] == matches[at]);
        assert(symbol_of_match(uri, text, matches[at]@) == Some(
            symbols_of(uri, text, matches)[index],
        ));
    } else {
        let at = matches.len() - 1;
        assert(symbol_of_match(uri, text, matches[at]@) == Some(
            symbols_of(uri, text, matches)[index],
        ));
    }
}

/// The kind for a declaration capture named `name`.
pub fn classify(name: &str) -> (kind: Option<SymbolKind>)
    ensures
        kind == kind_of(name@),
{
    let name = name.to_owned();
    if name == "function_declaration".to_owned() {
        Some(SymbolKind::Function)
    } else if name == "lexical_declaration".to_owned() {
        Some(SymbolKind::Variable)
    } else if name == "variable_declaration".to_owned() {
        Some(SymbolKind::Variable)
    } else if name == "class_declaration".to_owned() {
        Some(SymbolKind::Class)
    } else {
        None
    }
}

/// Whether the capture's byte range is well-formed and lies within `content`.
pub fn capture_in_bounds(content: &ropey::Rope, capture: &Capture) -> (within: bool)
    ensures
        within == in_bounds(rope_chars(*content), *capture),
{
    capture.start_byte <= capture.end_byte && capture.end_byte <= rope_len_bytes(content)
}

/// The symbol for a declaration: its name is the text of `identifier`, its
/// range the line and column span of `declaration`.
pub fn make_symbol(
    uri: &str,
    content: &ropey::Rope,
    declaration: &Capture,
    identifier: &Capture,
    kind: SymbolKind,
) -> (symbol: SymbolInfo)
    requires
        in_bounds(rope_chars(*content), *declaration),
        in_bounds(rope_chars(*content), *identifier),
    ensures
        symbol@ == symbol_of(uri@, rope_chars(*content), *declaration, *identifier, kind),
{
    let start_char = rope_byte_to_char(content, identifier.start_byte);
    let end_char = rope_byte_to_char(content, identifier.end_byte);
    proof {
        let text = rope_chars(*content);
        lemma_char_index_monotonic(text, identifier.start_byte as int, identifier.end_byte as int);
        lemma_char_index_bounded(text, identifier.end_byte as int);
    }
    let name = rope_slice(content, start_char, end_char);
    let start = rope_lsp_position(content, declaration.start_byte);
    let end = rope_lsp_position(content, declaration.end_byte);
    SymbolInfo { name, kind, range: TextRange { start, end }, uri: uri.to_owned() }
}

/// The symbols that `matches` give for the document `uri` with text
/// `content`, in the order of the matches. A match that does not bind
/// exactly a declaration of a known shape and an identifier is skipped, and
/// so is one whose byte ranges do not lie within the text.
pub fn collect_symbols(uri: &str, content: &ropey::Rope, matches: &Vec<Vec<Capture>>) -> (symbols:
    Vec<SymbolInfo>)
    ensures
        views_of(symbols@) == symbols_of(uri@, rope_chars(*content), matches@),
{
    let ghost text = rope_chars(*content);
    let mut symbols: Vec<SymbolInfo> = Vec::new();
    let mut index: usize = 0;
    assert(matches@.take(0) =~= Seq::empty());
    while index < matches.len()
        invariant
            index <= matches.len(),
            text == rope_chars(*content),
            views_of(symbols@) == symbols_of(uri@, text, matches@.take(index as int)),
        decreases matches.len() - index,
    {
        let captures = &matches[index];
        let ghost before = symbols@;
        proof {
            let next = matches@.take(index + 1);
            assert(next.drop_last() =~= matches@.take(index as int));
            assert(next.last() == matches@[index as int]);
        }
        if captures.len() == 2 {
            let declaration = &captures[0];
            let identifier = &captures[1];
            match classify(declaration.name.as_str()) {
                Some(kind) => {
                    if capture_in_bounds(content, declaration) && capture_in_bounds(
                        content,
                        identifier,
                    ) {
                        let symbol = make_symbol(uri, content, declaration, identifier, kind);
                        symbols.push(symbol);
                        assert(views_of(symbols@) =~= views_of(before).push(symbol@));
                    }
                },
                None => {},
            }
        }
        index += 1;
    }
    assert(matches@.take(index as int) =~= matches@);
    symbols
}

} // verus!
