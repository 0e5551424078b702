//! The inline flattener: collapses a run of inline nodes into one plain
//! display string, inserting a single space between adjacent styled tokens.

use vstd::prelude::*;
use crate::node::Node;
use crate::strutil::{all_ws, ends_with_space, has_trailing_space, is_blank};

verus! {

/// The OSC-8 clickable-hyperlink escape sequence around `display_text`,
/// pointing at `url`. The string terminator form (`ESC \`) is used.
pub open spec fn clickable_spec(url: Seq<char>, display_text: Seq<char>) -> Seq<char> {
    "\x1b]8;;"@ + url + "\x1b\\"@ + display_text + "\x1b]8;;"@ + "\x1b\\"@
}

/// Builds the OSC-8 clickable-link escape sequence for `url` around
/// `display_text`.
pub fn make_clickable_link(url: &str, display_text: &str) -> (r: String)
    ensures
        r@ == clickable_spec(url@, display_text@),
{
    let mut s = String::from_str("\x1b]8;;");
    s.append(url);
    s.append("\x1b\\");
    s.append(display_text);
    s.append("\x1b]8;;");
    s.append("\x1b\\");
    assert(s@ =~= clickable_spec(url@, display_text@));
    s
}

/// What a link contributes to flattened text: a link glyph and the
/// clickable sequence; an all-white display text falls back to the URL.
pub open spec fn link_piece_spec(text: Seq<char>, url: Seq<char>) -> Seq<char> {
    if all_ws(text) {
        "🔗 "@ + clickable_spec(url, url)
    } else {
        "🔗 "@ + clickable_spec(url, text)
    }
}

/// Whether the flattener puts a space before this node when the
/// accumulated text does not already end in one.
pub open spec fn needs_space_spec(node: Node) -> bool {
    match node {
        Node::Link { .. } => true,
        Node::Strong { .. } => true,
        Node::Emphasis { .. } => true,
        Node::CodeInline { .. } => true,
        _ => false,
    }
}

/// Tests whether a space belongs before `node` in flattened output.
pub fn needs_space_before(node: &Node) -> (r: bool)
    ensures
        r == needs_space_spec(*node),
{
    match node {
        Node::Link { .. } => true,
        Node::Strong { .. } => true,
        Node::Emphasis { .. } => true,
        Node::CodeInline { .. } => true,
        _ => false,
    }
}

/// What one node contributes to flattened text. Text contributes its
/// value, inline code its value in backticks, strong and emphasis their
/// flattened children (styling dropped), links the link glyph plus the
/// clickable sequence; every other kind contributes nothing.
pub open spec fn inline_piece_spec(node: Node) -> Seq<char>
    decreases node,
{
    match node {
        Node::Text { value } => value@,
        Node::CodeInline { value } => "`"@ + value@ + "`"@,
        Node::Strong { values } => flatten_spec(values@),
        Node::Emphasis { values } => flatten_spec(values@),
        Node::Link { values, url } => link_piece_spec(flatten_spec(values@), url@),
        _ => Seq::empty(),
    }
}

/// The flattened display string of a run of inline nodes: pieces are
/// concatenated in order, and a single space is inserted before a
/// spacing token (link, strong, emphasis, inline code) that is not the
/// first token, unless the text so far already ends in a space.
pub open spec fn flatten_spec(nodes: Seq<Node>) -> Seq<char>
    decreases nodes,
{
    if nodes.len() == 0 {
        Seq::empty()
    } else {
        let pre = flatten_spec(nodes.drop_last());
        let piece = inline_piece_spec(nodes.last());
        if nodes.len() > 1 && needs_space_spec(nodes.last()) && !ends_with_space(pre) {
            pre + " "@ + piece
        } else {
            pre + piece
        }
    }
}

/// Law: the flattener never inserts a space before the very first token —
/// the flattening of a single leading node is exactly that node's piece.
pub proof fn lemma_flatten_no_leading_space(nodes: Seq<Node>)
    requires
        nodes.len() > 0,
    ensures
        flatten_spec(nodes.take(1)) == inline_piece_spec(nodes[0]),
{
    let one = nodes.take(1);
    assert(one.drop_last() =~= Seq::<Node>::empty());
    assert(flatten_spec(Seq::<Node>::empty()) =~= Seq::<char>::empty());
    assert(one.last() == nodes[0]);
    assert(flatten_spec(one) =~= inline_piece_spec(nodes[0]));
}

/// Law: a spacing token (link, strong, emphasis, inline code) that is not
/// the first token is always separated from the text before it. If the
/// flattened prefix does not already end in a space, exactly one space is
/// inserted; either way, when both sides are non-empty, the character
/// immediately before the token's piece is a space.
pub proof fn lemma_flatten_spacing(nodes: Seq<Node>, i: int)
    requires
        0 < i < nodes.len(),
        needs_space_spec(nodes[i]),
    ensures
        ({
            let pre = flatten_spec(nodes.take(i));
            let piece = inline_piece_spec(nodes[i]);
            let out = flatten_spec(nodes.take(i + 1));
            &&& (ends_with_space(pre) ==> out == pre + piece)
            &&& (!ends_with_space(pre) ==> out == pre + " "@ + piece)
            &&& (pre.len() > 0 ==> out[out.len() - piece.len() - 1] == ' ')
        }),
{
    let pre = flatten_spec(nodes.take(i));
    let piece = inline_piece_spec(nodes[i]);
    let cur = nodes.take(i + 1);
    assert(cur.drop_last() =~= nodes.take(i));
    assert(cur.last() == nodes[i]);
    reveal_strlit(" ");
    if ends_with_space(pre) {
        assert(flatten_spec(cur) =~= pre + piece);
        assert(pre.len() > 0 ==> (pre + piece)[pre.len() - 1] == ' ');
    } else {
        assert(flatten_spec(cur) =~= pre + " "@ + piece);
        assert((pre + " "@ + piece)[pre.len() as int] == ' ');
    }
}

/// Renders the flattened form of a single inline node.
pub fn render_inline_piece(node: &Node) -> (r: String)
    ensures
        r@ == inline_piece_spec(*node),
    decreases *node,
{
    match node {
        Node::Text { value } => value.clone(),
        Node::CodeInline { value } => {
            let mut s = String::from_str("`");
            s.append(value.as_str());
            s.append("`");
            assert(s@ =~= inline_piece_spec(*node));
            s
        },
        Node::Strong { values } => render_inline_content(values),
        Node::Emphasis { values } => render_inline_content(values),
        Node::Link { values, url } => {
            let text = render_inline_content(values);
            let mut s = String::from_str("🔗 ");
            if is_blank(text.as_str()) {
                let link = make_clickable_link(url.as_str(), url.as_str());
                s.append(link.as_str());
            } else {
                let link = make_clickable_link(url.as_str(), text.as_str());
                s.append(link.as_str());
            }
            assert(s@ =~= inline_piece_spec(*node));
            s
        },
        _ => String::new(),
    }
}

/// Flattens a run of inline nodes into one display string.
pub fn render_inline_content(nodes: &Vec<Node>) -> (r: String)
    ensures
        r@ == flatten_spec(nodes@),
    decreases nodes@,
{
    let mut result = String::new();
    let mut i: usize = 0;
    while i < nodes.len()
        invariant
            i <= nodes@.len(),
            result@ == flatten_spec(nodes@.take(i as int)),
        decreases nodes@.len() - i,
    {
        let node = &nodes[i];
        if i > 0 && needs_space_before(node) && !has_trailing_space(&result) {
            result.append(" ");
        }
        proof {
            assert(decreases_to!(nodes@ => nodes@[i as int]));
        }
        let piece = render_inline_piece(node);
        result.append(piece.as_str());
        proof {
            let pre = nodes@.take(i as int);
            let cur = nodes@.take(i as int + 1);
            assert(cur.drop_last() =~= pre);
            assert(cur.last() == nodes@[i as int]);
            assert(result@ =~= flatten_spec(cur));
        }
        i = i + 1;
    }
    proof {
        assert(nodes@.take(nodes@.len() as int) =~= nodes@);
    }
    result
}

} // verus!
