//! Layout of a syntax tree's one-line S-expression over indented lines.
//!
//! The expression is cut at every space and closing parenthesis. An empty
//! piece stands for a closing parenthesis, a piece that starts with `(` opens
//! a node, and a piece that ends with `:` names a field. A node starts a new
//! line, one level deeper than its parent, unless it is the value of a field:
//! then it follows the field's name on the same line.

use vstd::prelude::*;

verus! {

/// The characters at which an S-expression is cut into pieces.
pub open spec fn is_delimiter(c: char) -> bool {
    c == ' ' || c == ')'
}

/// The pieces of `text` between delimiters, empty ones included: one more
/// than there are delimiters.
pub open spec fn pieces_of(text: Seq<char>) -> Seq<Seq<char>>
    decreases text.len(),
{
    if text.len() == 0 {
        seq![Seq::<char>::empty()]
    } else {
        let before = pieces_of(text.drop_last());
        if is_delimiter(text.last()) {
            before.push(Seq::<char>::empty())
        } else {
            before.drop_last().push(before.last().push(text.last()))
        }
    }
}

/// The piece opens a node.
pub open spec fn opens_node(piece: Seq<char>) -> bool {
    piece.len() > 0 && piece[0] == '('
}

/// The piece opens a `MISSING` or `UNEXPECTED` node, which takes the piece
/// after it as its operand.
pub open spec fn takes_operand(piece: Seq<char>) -> bool {
    piece.len() > 1 && (piece[1] == 'M' || piece[1] == 'U')
}

/// The piece names a field.
pub open spec fn names_field(piece: Seq<char>) -> bool {
    piece.len() > 0 && piece.last() == ':'
}

/// Two spaces for each level.
pub open spec fn indentation(level: int) -> Seq<char>
    decreases level,
{
    if level <= 0 {
        Seq::<char>::empty()
    } else {
        indentation(level - 1).push(' ').push(' ')
    }
}

/// What has been laid out so far: the text, the depth of the next line, and
/// whether a field's name was just written.
pub ghost struct Layout {
    pub text: Seq<char>,
    pub indent: int,
    pub after_field: bool,
}

/// The layout before the first piece.
pub open spec fn initial_layout(initial_indent_level: u32) -> Layout {
    Layout { text: Seq::<char>::empty(), indent: initial_indent_level as int, after_field: false }
}

/// The layout after a closing parenthesis.
pub open spec fn closed(layout: Layout) -> Layout {
    Layout { text: layout.text.push(')'), indent: layout.indent - 1, ..layout }
}

/// The layout after the piece that opens a node.
pub open spec fn opened(layout: Layout, piece: Seq<char>) -> Layout {
    if layout.after_field {
        Layout { text: layout.text + piece, indent: layout.indent, after_field: false }
    } else if layout.indent > 0 {
        Layout {
            text: layout.text.push('\n') + indentation(layout.indent) + piece,
            indent: layout.indent + 1,
            after_field: false,
        }
    } else {
        Layout { text: layout.text + piece, indent: layout.indent + 1, after_field: false }
    }
}

/// The layout after the operand of a `MISSING` or `UNEXPECTED` node.
pub open spec fn with_operand(layout: Layout, operand: Seq<char>) -> Layout {
    Layout { text: layout.text.push(' ') + operand, ..layout }
}

/// The layout after the piece that names a field.
pub open spec fn field_named(layout: Layout, piece: Seq<char>) -> Layout {
    Layout {
        text: (layout.text.push('\n') + indentation(layout.indent) + piece).push(' '),
        indent: layout.indent + 1,
        after_field: true,
    }
}

/// The layout after the pieces from `at` on, starting from `layout`; `None`
/// where a parenthesis closes at depth zero, a `MISSING` or `UNEXPECTED` node
/// is the last piece, or the depth leaves the range of `u32`.
pub open spec fn layout_from(pieces: Seq<Seq<char>>, at: int, layout: Layout) -> Option<Layout>
    decreases pieces.len() - at,
{
    if at < 0 || at >= pieces.len() {
        Some(layout)
    } else if pieces[at].len() == 0 {
        if layout.indent <= 0 {
            None
        } else {
            layout_from(pieces, at + 1, closed(layout))
        }
    } else if opens_node(pieces[at]) {
        if !layout.after_field && layout.indent >= u32::MAX {
            None
        } else if !takes_operand(pieces[at]) {
            layout_from(pieces, at + 1, opened(layout, pieces[at]))
        } else if at + 1 >= pieces.len() {
            None
        } else {
            layout_from(pieces, at + 2, with_operand(opened(layout, pieces[at]), pieces[at + 1]))
        }
    } else if names_field(pieces[at]) {
        if layout.indent >= u32::MAX {
            None
        } else {
            layout_from(pieces, at + 1, field_named(layout, pieces[at]))
        }
    } else {
        layout_from(pieces, at + 1, layout)
    }
}

/// The whole layout of `sexp`, if it has one.
pub open spec fn layout_of(sexp: Seq<char>, initial_indent_level: u32) -> Option<Layout> {
    layout_from(pieces_of(sexp), 0, initial_layout(initial_indent_level))
}

/// `sexp` can be laid out starting at depth `initial_indent_level`.
pub open spec fn formattable(sexp: Seq<char>, initial_indent_level: u32) -> bool {
    layout_of(sexp, initial_indent_level) is Some
}

/// The text that `sexp` is laid out to.
pub open spec fn formatted(sexp: Seq<char>, initial_indent_level: u32) -> Seq<char>
    recommends
        formattable(sexp, initial_indent_level),
{
    layout_of(sexp, initial_indent_level)->0.text
}

/// The pieces of a list as sequences.
pub open spec fn piece_views(pieces: Seq<Vec<char>>) -> Seq<Seq<char>> {
    pieces.map_values(|piece: Vec<char>| piece@)
}

/// `String::push`: the character is added at the end.
#[verifier::external_body]
fn string_push(text: &mut String, c: char)
    ensures
        final(text)@ == old(text)@.push(c),
{
    text.push(c)
}

/// The characters of `text`.
fn chars_of(text: &str) -> (chars: Vec<char>)
    ensures
        chars@ == text@,
{
    let mut chars: Vec<char> = Vec::new();
    for c in it: text.chars()
        invariant
            it.seq() == text@,
            chars@ == it.seq().take(it.index() as int),
    {
        chars.push(c);
        assert(chars@ =~= it.seq().take(it.index() + 1));
    }
    assert(text@.take(text@.len() as int) =~= text@);
    chars
}

/// The string of `chars`.
fn string_of(chars: &Vec<char>) -> (text: String)
    ensures
        text@ == chars@,
{
    let mut text = String::new();
    let mut index: usize = 0;
    while index < chars.len()
        invariant
            index <= chars.len(),
            text@ == chars@.take(index as int),
        decreases chars.len() - index,
    {
        string_push(&mut text, chars[index]);
        assert(text@ =~= chars@.take(index + 1));
        index += 1;
    }
    assert(chars@.take(index as int) =~= chars@);
    text
}

/// Cuts `chars` at every delimiter.
fn split_pieces(chars: &Vec<char>) -> (pieces: Vec<Vec<char>>)
    ensures
        piece_views(pieces@) == pieces_of(chars@),
{
    let mut pieces: Vec<Vec<char>> = Vec::new();
    let mut current: Vec<char> = Vec::new();
    let mut index: usize = 0;
    assert(chars@.take(0) =~= Seq::<char>::empty());
    assert(piece_views(pieces@).push(current@) =~= pieces_of(chars@.take(0)));
    while index < chars.len()
        invariant
            index <= chars.len(),
            piece_views(pieces@).push(current@) == pieces_of(chars@.take(index as int)),
        decreases chars.len() - index,
    {
        let c = chars[index];
        let ghost done = piece_views(pieces@);
        let ghost open = current@;
        proof {
            let next = chars@.take(index + 1);
            assert(next.drop_last() =~= chars@.take(index as int));
            assert(next.last() == c);
        }
        if c == ' ' || c == ')' {
            pieces.push(current);
            current = Vec::new();
            assert(piece_views(pieces@) =~= done.push(open));
        } else {
            current.push(c);
            assert(done.push(open).drop_last() =~= done);
        }
        index += 1;
    }
    assert(chars@.take(index as int) =~= chars@);
    let ghost done = piece_views(pieces@);
    pieces.push(current);
    assert(piece_views(pieces@) =~= done.push(current@));
    pieces
}

/// Adds two spaces for each level.
fn push_indentation(text: &mut Vec<char>, level: u32)
    ensures
        final(text)@ == old(text)@ + indentation(level as int),
{
    let mut written: u32 = 0;
    assert(text@ + indentation(0) =~= text@);
    while written < level
        invariant
            written <= level,
            text@ == old(text)@ + indentation(written as int),
        decreases level - written,
    {
        text.push(' ');
        text.push(' ');
        written += 1;
        assert(text@ =~= old(text)@ + indentation(written as int));
    }
}

/// Adds the characters of `piece`.
fn push_piece(text: &mut Vec<char>, piece: &Vec<char>)
    ensures
        final(text)@ == old(text)@ + piece@,
{
    let mut index: usize = 0;
    assert(text@ + piece@.take(0) =~= text@);
    while index < piece.len()
        invariant
            index <= piece.len(),
            text@ == old(text)@ + piece@.take(index as int),
        decreases piece.len() - index,
    {
        text.push(piece[index]);
        assert(text@ =~= old(text)@ + piece@.take(index + 1));
        index += 1;
    }
    assert(piece@.take(index as int) =~= piece@);
}

/// Lays the pieces out, or finds that they have no layout.
fn lay_out(pieces: &Vec<Vec<char>>, initial_indent_level: u32) -> (text: Option<Vec<char>>)
    ensures
        match layout_from(piece_views(pieces@), 0, initial_layout(initial_indent_level)) {
            Some(layout) => text matches Some(laid) && laid@ == layout.text,
            None => text is None,
        },
{
    let ghost views = piece_views(pieces@);
    let ghost whole = layout_from(views, 0, initial_layout(initial_indent_level));
    let mut text: Vec<char> = Vec::new();
    let mut indent_level: u32 = initial_indent_level;
    let mut has_field = false;
    let mut at: usize = 0;
    while at < pieces.len()
        invariant
            at <= pieces.len(),
            views == piece_views(pieces@),
            whole == layout_from(views, 0, initial_layout(initial_indent_level)),
            whole == layout_from(
                views,
                at as int,
                Layout { text: text@, indent: indent_level as int, after_field: has_field },
            ),
        decreases pieces.len() - at,
    {
        let piece = &pieces[at];
        let ghost layout = Layout {
            text: text@,
            indent: indent_level as int,
            after_field: has_field,
        };
        assert(views[at as int] == piece@);
        if piece.len() == 0 {
            if indent_level == 0 {
                return None;
            }
            indent_level -= 1;
            text.push(')');
            at += 1;
        } else if piece[0] == '(' {
            if has_field {
                has_field = false;
            } else {
                if indent_level == u32::MAX {
                    return None;
                }
                if indent_level > 0 {
                    text.push('\n');
                    push_indentation(&mut text, indent_level);
                }
                indent_level += 1;
            }
            push_piece(&mut text, piece);
            assert(Layout { text: text@, indent: indent_level as int, after_field: has_field }
                == opened(layout, piece@));
            if piece.len() > 1 && (piece[1] == 'M' || piece[1] == 'U') {
                if at + 1 >= pieces.len() {
                    return None;
                }
                let operand = &pieces[at + 1];
                assert(views[at + 1] == operand@);
                text.push(' ');
                push_piece(&mut text, operand);
                at += 2;
            } else {
                at += 1;
            }
        } else if piece[piece.len() - 1] == ':' {
            if indent_level == u32::MAX {
                return None;
            }
            text.push('\n');
            push_indentation(&mut text, indent_level);
            push_piece(&mut text, piece);
            text.push(' ');
            has_field = true;
            indent_level += 1;
            at += 1;
        } else {
            at += 1;
        }
    }
    Some(text)
}

/// The layout of `sexp` over indented lines, starting at depth
/// `initial_indent_level`; `None` where it has none.
pub fn try_format_sexp(sexp: &str, initial_indent_level: u32) -> (text: Option<String>)
    ensures
        text is Some <==> formattable(sexp@, initial_indent_level),
        text matches Some(laid) ==> laid@ == formatted(sexp@, initial_indent_level),
{
    let chars = chars_of(sexp);
    let pieces = split_pieces(&chars);
    match lay_out(&pieces, initial_indent_level) {
        Some(laid) => Some(string_of(&laid)),
        None => None,
    }
}

/// The layout of `sexp` over indented lines, starting at depth zero.
pub fn format_sexp(sexp: &str) -> (text: String)
    requires
        formattable(sexp@, 0),
    ensures
        text@ == formatted(sexp@, 0),
{
    format_sexp_indented(sexp, 0)
}

/// The layout of `sexp` over indented lines, starting at depth
/// `initial_indent_level`.
pub fn format_sexp_indented(sexp: &str, initial_indent_level: u32) -> (text: String)
    requires
        formattable(sexp@, initial_indent_level),
    ensures
        text@ == formatted(sexp@, initial_indent_level),
{
    let chars = chars_of(sexp);
    let pieces = split_pieces(&chars);
    let laid = lay_out(&pieces, initial_indent_level);
    string_of(&laid.unwrap())
}

} // verus!
