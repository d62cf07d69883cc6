//! The text of a document, held in a rope, and byte-offset arithmetic on it.

use crate::document::Document;
use crate::error::Error;
use crate::symbol::TextPosition;
use lsp_text::RopeExt;
use vstd::prelude::*;
use vstd::utf8::{encode_scalar, encode_utf8};

verus! {

/// `ropey::Rope`, a text held in chunks; only the wrappers below look inside.
#[verifier::external_type_specification]
#[verifier::external_body]
pub struct ExRope(ropey::Rope);

/// The characters that a rope holds, in order.
pub uninterp spec fn rope_chars(rope: ropey::Rope) -> Seq<char>;

/// The line and UTF-16 column, as `lsp_text` computes them, of the byte
/// offset `byte` in `text`.
pub uninterp spec fn lsp_position_at(text: Seq<char>, byte: nat) -> (u32, u32);

/// The number of bytes that `c` takes in UTF-8.
pub open spec fn char_width(c: char) -> nat {
    encode_scalar(c as u32).len()
}

/// The number of bytes that `text` takes in UTF-8.
pub open spec fn utf8_len(text: Seq<char>) -> nat {
    encode_utf8(text).len()
}

/// The index of the character that the byte offset `byte` falls in; an offset
/// at or past the end of `text` gives the number of characters.
pub open spec fn char_index_at_byte(text: Seq<char>, byte: int) -> int
    decreases text.len(),
{
    if text.len() == 0 || byte < char_width(text[0]) {
        0
    } else {
        1 + char_index_at_byte(text.drop_first(), byte - char_width(text[0]))
    }
}

/// A character index computed from a byte offset lies within the text.
pub proof fn lemma_char_index_bounded(text: Seq<char>, byte: int)
    ensures
        0 <= char_index_at_byte(text, byte) <= text.len(),
    decreases text.len(),
{
    if text.len() != 0 && byte >= char_width(text[0]) {
        lemma_char_index_bounded(text.drop_first(), byte - char_width(text[0]));
    }
}

/// A later byte offset never falls in an earlier character.
pub proof fn lemma_char_index_monotonic(text: Seq<char>, first: int, second: int)
    requires
        first <= second,
    ensures
        char_index_at_byte(text, first) <= char_index_at_byte(text, second),
    decreases text.len(),
{
    if text.len() != 0 && first >= char_width(text[0]) {
        lemma_char_index_monotonic(
            text.drop_first(),
            first - char_width(text[0]),
            second - char_width(text[0]),
        );
    } else {
        lemma_char_index_bounded(text, second);
    }
}

/// `ropey::Rope::from_str`: the rope holds the characters of `text`.
#[verifier::external_body]
pub(crate) fn rope_from_str(text: &str) -> (rope: ropey::Rope)
    ensures
        rope_chars(rope) == text@,
{
    ropey::Rope::from_str(text)
}

/// `ropey::Rope::clone`: the copy holds the same characters.
#[verifier::external_body]
pub(crate) fn rope_clone(rope: &ropey::Rope) -> (copy: ropey::Rope)
    ensures
        rope_chars(copy) == rope_chars(*rope),
{
    rope.clone()
}

/// `String::from` on a rope: the string holds the rope's characters.
#[verifier::external_body]
pub(crate) fn rope_to_string(rope: &ropey::Rope) -> (text: String)
    ensures
        text@ == rope_chars(*rope),
{
    String::from(rope)
}

/// `ropey::Rope::len_bytes`: the length of the rope's text in UTF-8.
#[verifier::external_body]
pub(crate) fn rope_len_bytes(rope: &ropey::Rope) -> (len: usize)
    ensures
        len == utf8_len(rope_chars(*rope)),
{
    rope.len_bytes()
}

/// `ropey::Rope::byte_to_char`, which panics past the end of the rope: the
/// index of the character that holds the byte, or the number of characters
/// for the offset one past the end.
#[verifier::external_body]
pub(crate) fn rope_byte_to_char(rope: &ropey::Rope, byte: usize) -> (index: usize)
    requires
        byte <= utf8_len(rope_chars(*rope)),
    ensures
        index == char_index_at_byte(rope_chars(*rope), byte as int),
{
    rope.byte_to_char(byte)
}

/// `ropey::Rope::slice` over character indices, which panics on a reversed
/// range or one that ends past the rope, turned into a `String`.
#[verifier::external_body]
pub(crate) fn rope_slice(rope: &ropey::Rope, start: usize, end: usize) -> (text: String)
    requires
        start <= end <= rope_chars(*rope).len(),
    ensures
        text@ == rope_chars(*rope).subrange(start as int, end as int),
{
    String::from(rope.slice(start..end))
}

/// `lsp_text::RopeExt::byte_to_lsp_position`, which panics past the end of
/// the rope: the zero-based line of the byte and its distance from the start
/// of that line in UTF-16 code units.
#[verifier::external_body]
pub(crate) fn rope_lsp_position(rope: &ropey::Rope, byte: usize) -> (position: TextPosition)
    requires
        byte <= utf8_len(rope_chars(*rope)),
    ensures
        (position.line, position.character) == lsp_position_at(rope_chars(*rope), byte as nat),
{
    let position = rope.byte_to_lsp_position(byte);
    TextPosition { line: position.line, character: position.character }
}

/// The text of one document.
pub struct Text {
    pub content: ropey::Rope,
}

impl View for Text {
    type V = Seq<char>;

    open spec fn view(&self) -> Seq<char> {
        rope_chars(self.content)
    }
}

impl Text {
    /// A text that holds the characters of `text`.
    pub fn new(text: &str) -> (result: Result<Self, Error>)
        ensures
            result matches Ok(made) && made@ == text@,
    {
        let content = rope_from_str(text);
        Ok(Text { content })
    }

    /// The text as one string.
    pub fn to_string(&self) -> (text: String)
        ensures
            text@ == self@,
    {
        rope_to_string(&self.content)
    }
}

/// The text of a document, without its parser and tree.
impl From<Document> for Text {
    fn from(value: Document) -> (text: Text) {
        Text { content: value.content }
    }
}

impl vstd::std_specs::convert::FromSpecImpl<Document> for Text {
    open spec fn obeys_from_spec() -> bool {
        true
    }

    open spec fn from_spec(value: Document) -> Text {
        Text { content: value.content }
    }
}

} // verus!
