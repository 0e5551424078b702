//! The node dispatcher and the document renderer.
//!
//! `render_node_spec` states, per node kind, exactly what text is
//! emitted; the executable renderer is proved to produce it. The
//! document walk hands contiguous table runs to the table layout engine
//! and every other node to the dispatcher.

use vstd::prelude::*;
use crate::callout::{
    after_marker_spec, detect_callout_spec, CalloutKind, after_marker, detect_callout,
};
use crate::flatten::{
    clickable_spec, flatten_spec, inline_piece_spec, make_clickable_link, render_inline_content,
    render_inline_piece,
};
use crate::highlight::{highlight_spec, SyntaxHighlighter};
use crate::node::{AlignKind, Document, Node};
use crate::strutil::{
    all_ws, decimal_spec, repeat_spec, append_repeated, is_blank, to_decimal,
};
use crate::style::{
    bullet_glyph_spec, header_symbol_spec, wrap_spec, append_wrapped, bullet_glyph, header_symbol,
};
use crate::table::{
    header_sep_spec, top_border_spec, bottom_border_spec, width_at, render_table_bottom_border,
    render_table_header, render_table_top_border,
};
use crate::widths::{calculate_column_widths, cell_width_spec, col_width_spec, width_count_spec};

verus! {

/// One deeper nesting level; the depth counter saturates instead of
/// wrapping, which no reachable document depth ever approaches.
pub open spec fn sat_inc(depth: nat) -> nat {
    if depth < usize::MAX {
        depth + 1
    } else {
        depth
    }
}

/// A heading depth clamped to 1 through 6.
pub open spec fn clamp_depth(depth: u8) -> int {
    if depth < 1 {
        1
    } else if depth > 6 {
        6
    } else {
        depth as int
    }
}

/// The banner for a heading: a double-ruled box for depth 1, a single
/// rule below for depth 2, and a colored glyph-plus-text line for the
/// rest, each depth in its own color.
pub open spec fn heading_spec(text: Seq<char>, dc: int, inline: bool) -> Seq<char> {
    let lead = if inline {
        Seq::<char>::empty()
    } else {
        "\n"@
    };
    let sym = header_symbol_spec(dc);
    if dc == 1 {
        let line = wrap_spec("\x1b[94m"@, repeat_spec("═"@, text.len()) + "════"@) + "\n"@;
        lead + line + wrap_spec("\x1b[1;94m"@, sym) + " "@ + wrap_spec("\x1b[1;94m"@, text) + "\n"@
            + line + "\n"@
    } else if dc == 2 {
        let line = wrap_spec("\x1b[36m"@, repeat_spec("─"@, text.len()) + "────"@) + "\n"@;
        lead + wrap_spec("\x1b[1;36m"@, sym) + " "@ + wrap_spec("\x1b[1;36m"@, text) + "\n"@ + line
            + "\n"@
    } else {
        let code = if dc == 3 {
            "\x1b[1;33m"@
        } else if dc == 4 {
            "\x1b[1;32m"@
        } else if dc == 5 {
            "\x1b[1;35m"@
        } else {
            "\x1b[1;37m"@
        };
        lead + wrap_spec(code, sym) + " "@ + wrap_spec(code, text) + "\n"@ + "\n"@
    }
}

/// The open of a table cell: a cyan `│ `.
pub open spec fn cell_open() -> Seq<char> {
    wrap_spec("\x1b[96m"@, "│ "@)
}

/// A cell's inline content padded with spaces to the column width.
pub open spec fn cell_body_spec(values: Seq<Node>, width: nat) -> Seq<char>
    decreases values, 2int,
{
    let pad = if cell_width_spec(values) < width {
        (width - cell_width_spec(values)) as nat
    } else {
        0
    };
    render_nodes_spec(values, 0, true) + repeat_spec(" "@, pad)
}

/// What the dispatcher emits for one node.
pub open spec fn render_node_spec(node: Node, depth: nat, inline: bool) -> Seq<char>
    decreases node, 0int,
{
    match node {
        Node::Heading { depth: d, values } => heading_spec(
            flatten_spec(values@),
            clamp_depth(d),
            inline,
        ),
        Node::Text { value } => if all_ws(value@) {
            Seq::empty()
        } else if inline {
            value@
        } else {
            value@ + "\n"@
        },
        Node::List { ordered, index, checked, values } => render_list_spec(
            ordered,
            index,
            checked,
            values@,
            depth,
        ),
        Node::Code { value, lang } => wrap_spec("\x1b[90m"@, "```"@) + (match lang {
            Option::Some(l) => wrap_spec("\x1b[90m"@, l@),
            Option::None => Seq::<char>::empty(),
        }) + "\n"@ + highlight_spec(
            value@,
            match lang {
                Option::Some(l) => Some(l@),
                Option::None => None,
            },
        ) + "\n"@ + wrap_spec("\x1b[90m"@, "```"@) + "\n"@ + "\n"@,
        Node::CodeInline { value } => wrap_spec("\x1b[93m"@, "`"@ + value@ + "`"@),
        Node::Strong { values } => wrap_spec("\x1b[1m"@, flatten_spec(values@)),
        Node::Emphasis { values } => wrap_spec("\x1b[3m"@, flatten_spec(values@)),
        Node::Link { values, url } => {
            let text = flatten_spec(values@);
            if all_ws(text) {
                " "@ + wrap_spec("\x1b[94m"@, "🔗"@) + " "@ + clickable_spec(url@, url@)
            } else {
                " "@ + wrap_spec("\x1b[94m"@, "🔗"@) + " "@ + wrap_spec(
                    "\x1b[4;94m"@,
                    clickable_spec(url@, text),
                )
            }
        },
        Node::Image { alt, url } => if all_ws(alt@) {
            wrap_spec("\x1b[92m"@, "🖼️ "@) + " "@ + wrap_spec("\x1b[4;92m"@, url@) + "\n"@
        } else {
            wrap_spec("\x1b[92m"@, "🖼️ "@) + " "@ + wrap_spec("\x1b[92m"@, alt@) + " ("@
                + wrap_spec("\x1b[90m"@, url@) + ")"@ + "\n"@
        },
        Node::HorizontalRule => wrap_spec("\x1b[90m"@, repeat_spec("─"@, 80)) + "\n"@ + "\n"@,
        Node::Blockquote { values } => {
            let lead = if inline {
                Seq::<char>::empty()
            } else {
                "\n"@
            };
            let body = match find_callout_spec(values@) {
                Option::Some(_) => render_callout_spec(values@),
                Option::None => regular_quote_spec(values@, depth),
            };
            lead + body + "\n"@
        },
        Node::Html { value } => highlight_spec(value@, Some("html"@)) + "\n"@,
        Node::Break => if inline {
            " "@
        } else {
            "\n"@
        },
        Node::Fragment { values } => render_nodes_spec(values@, depth, true) + (if inline {
            Seq::<char>::empty()
        } else {
            "\n"@
        }),
        Node::TableHeader { .. } => Seq::empty(),
        Node::TableRow { .. } => Seq::empty(),
        Node::TableCell { values, last_cell_in_row, .. } => cell_open() + cell_body_spec(
            values@,
            cell_width_spec(values@),
        ) + " "@ + (if last_cell_in_row {
            wrap_spec("\x1b[96m"@, "│"@) + "\n"@
        } else {
            Seq::<char>::empty()
        }),
        Node::Other { values } => render_nodes_spec(values@, depth, inline),
    }
}

/// The concatenation of rendering each node in order.
pub open spec fn render_nodes_spec(nodes: Seq<Node>, depth: nat, inline: bool) -> Seq<char>
    decreases nodes, 1int,
{
    if nodes.len() == 0 {
        Seq::empty()
    } else {
        render_node_spec(nodes[0], depth, inline) + render_nodes_spec(
            nodes.drop_first(),
            depth,
            inline,
        )
    }
}

/// One list item: indentation, the bullet (a number for ordered lists, a
/// depth-cycled glyph otherwise), the checkbox glyph, the children, and
/// a closing line break.
pub open spec fn render_list_spec(
    ordered: bool,
    index: u64,
    checked: Option<bool>,
    values: Seq<Node>,
    depth: nat,
) -> Seq<char>
    decreases values, 4int,
{
    let indent = repeat_spec("  "@, depth);
    let bullet = if ordered {
        decimal_spec(index as nat + 1) + "."@
    } else {
        bullet_glyph_spec((depth % 4) as int)
    };
    let checkbox = match checked {
        Option::Some(true) => "☑️ "@,
        Option::Some(false) => "☐ "@,
        Option::None => Seq::<char>::empty(),
    };
    indent + wrap_spec("\x1b[95m"@, bullet) + " "@ + checkbox + list_children_spec(
        values,
        depth,
        false,
    ) + "\n"@
}

/// A list item's children: nested lists recurse one level deeper (with
/// a line break first if the item already produced content), paragraph
/// children continue the same display line, and anything else renders
/// inline one level deeper.
pub open spec fn list_children_spec(values: Seq<Node>, depth: nat, has_content: bool) -> Seq<char>
    decreases values, 3int,
{
    if values.len() == 0 {
        Seq::empty()
    } else {
        match values[0] {
            Node::List { ordered, index, checked, values: nv } => (if has_content {
                "\n"@
            } else {
                Seq::<char>::empty()
            }) + render_list_spec(ordered, index, checked, nv@, sat_inc(depth))
                + list_children_spec(values.drop_first(), depth, has_content),
            Node::Fragment { values: fv } => render_nodes_spec(fv@, sat_inc(depth), true)
                + list_children_spec(values.drop_first(), depth, true),
            _ => render_node_spec(values[0], sat_inc(depth), true) + list_children_spec(
                values.drop_first(),
                depth,
                true,
            ),
        }
    }
}

/// Scans a paragraph's children for the first text child carrying a
/// callout marker; yields the kind and the text after the marker.
pub open spec fn fragment_scan_spec(children: Seq<Node>) -> Option<(CalloutKind, Seq<char>)>
    decreases children, 0int,
{
    if children.len() == 0 {
        None
    } else {
        match children[0] {
            Node::Text { value } => match detect_callout_spec(value@) {
                Option::Some(k) => Some((k, after_marker_spec(value@))),
                Option::None => fragment_scan_spec(children.drop_first()),
            },
            _ => fragment_scan_spec(children.drop_first()),
        }
    }
}

/// Scans a blockquote's children, in document order, for the first
/// callout marker: paragraph children are scanned inside, text children
/// directly; the first match wins.
pub open spec fn find_callout_spec(values: Seq<Node>) -> Option<(CalloutKind, Seq<char>)>
    decreases values, 1int,
{
    if values.len() == 0 {
        None
    } else {
        match values[0] {
            Node::Fragment { values: fv } => match fragment_scan_spec(fv@) {
                Option::Some(p) => Some(p),
                Option::None => find_callout_spec(values.drop_first()),
            },
            Node::Text { value } => match detect_callout_spec(value@) {
                Option::Some(k) => Some((k, after_marker_spec(value@))),
                Option::None => find_callout_spec(values.drop_first()),
            },
            _ => find_callout_spec(values.drop_first()),
        }
    }
}

/// One body line of a callout, folded over a paragraph's children. The
/// first text child carrying the marker (while none was seen yet) is
/// stripped to the text after the marker; links contribute a plain link
/// glyph and the clickable sequence; everything else its flattened form.
/// Yields the line and whether the marker has been seen.
pub open spec fn fragment_line_spec(children: Seq<Node>, found: bool) -> (Seq<char>, bool)
    decreases children, 0int,
{
    if children.len() == 0 {
        (Seq::empty(), found)
    } else {
        let step: (Seq<char>, bool) = match children[0] {
            Node::Text { value } => if !found && detect_callout_spec(value@) is Some {
                (after_marker_spec(value@), true)
            } else {
                (value@, found)
            },
            Node::Link { values: lv, url } => (
                {
                    let text = flatten_spec(lv@);
                    " 🔗 "@ + clickable_spec(url@, if all_ws(text) {
                        url@
                    } else {
                        text
                    })
                },
                found,
            ),
            _ => (inline_piece_spec(children[0]), found),
        };
        let rest = fragment_line_spec(children.drop_first(), step.1);
        (step.0 + rest.0, rest.1)
    }
}

/// The body of a callout after its header: paragraph children become
/// `│ `-prefixed lines once the marker has been seen (the marker itself
/// stripped a second time where present), and any other child after the
/// marker renders in block mode behind a `│ ` prefix.
pub open spec fn callout_rest_spec(values: Seq<Node>, found: bool) -> Seq<char>
    decreases values, 1int,
{
    if values.len() == 0 {
        Seq::empty()
    } else {
        match values[0] {
            Node::Fragment { values: fv } => {
                let lt = fragment_line_spec(fv@, found);
                (if !all_ws(lt.0) && lt.1 {
                    "│ "@ + lt.0 + "\n"@
                } else {
                    Seq::<char>::empty()
                }) + callout_rest_spec(values.drop_first(), lt.1)
            },
            _ => (if found {
                "│ "@ + render_node_spec(values[0], 0, false)
            } else {
                Seq::<char>::empty()
            }) + callout_rest_spec(values.drop_first(), found),
        }
    }
}

/// A callout panel: the `┌─` header with the icon and the bold colored
/// name, the marker line's own text as the first body line, the body,
/// and the `└─` closing line.
pub open spec fn render_callout_spec(values: Seq<Node>) -> Seq<char>
    decreases values, 2int,
{
    match find_callout_spec(values) {
        Option::None => Seq::empty(),
        Option::Some(p) => {
            let k = p.0;
            let ctext = p.1;
            "┌─ "@ + wrap_spec(k.style_spec(), k.icon_spec() + " "@ + k.name_spec()) + "\n"@ + (
            if ctext.len() > 0 {
                "│ "@ + ctext + "\n"@
            } else {
                Seq::<char>::empty()
            }) + callout_rest_spec(values, false) + "└─\n"@
        },
    }
}

/// An unmatched blockquote: every child behind a quote-bar glyph,
/// rendered in block mode.
pub open spec fn regular_quote_spec(values: Seq<Node>, depth: nat) -> Seq<char>
    decreases values, 1int,
{
    if values.len() == 0 {
        Seq::empty()
    } else {
        wrap_spec("\x1b[90m"@, "▌"@) + " "@ + render_node_spec(values[0], depth, false)
            + regular_quote_spec(values.drop_first(), depth)
    }
}

/// The alignments of the first table header in a run, if one occurs.
pub open spec fn first_header_align(run: Seq<Node>) -> Option<Seq<AlignKind>>
    decreases run, 0int,
{
    if run.len() == 0 {
        None
    } else {
        match run[0] {
            Node::TableHeader { align } => Some(align@),
            _ => first_header_align(run.drop_first()),
        }
    }
}

/// The width vector a run determines: per column its maximum cell width.
pub open spec fn widths_of(run: Seq<Node>) -> Seq<usize> {
    Seq::new(width_count_spec(run), |c: int| col_width_spec(run, c) as usize)
}

/// The cells of one row, emitted left to right: each cell's padded
/// content closed by a cyan `│ `; non-cell children take part in the
/// position count but emit nothing.
pub open spec fn row_body_spec(children: Seq<Node>, widths: Seq<usize>, p: int) -> Seq<char>
    decreases children, 0int,
{
    if children.len() == 0 {
        Seq::empty()
    } else {
        (match children[0] {
            Node::TableCell { values: cv, .. } => cell_body_spec(cv@, width_at(widths, p, 0))
                + " "@ + cell_open(),
            _ => Seq::<char>::empty(),
        }) + row_body_spec(children.drop_first(), widths, p + 1)
    }
}

/// The streamed rows of a table run. `at_row_start` opens the next flat
/// cell with a cyan `│ `; a row-end cell closes its line, and a header
/// marker right after a row end becomes the separator row. Wrapped rows
/// are self-contained lines.
pub open spec fn run_cells_spec(
    run: Seq<Node>,
    widths: Seq<usize>,
    at_row_start: bool,
    prev_row_end: bool,
) -> Seq<char>
    decreases run, 3int,
{
    if run.len() == 0 {
        Seq::empty()
    } else {
        match run[0] {
            Node::TableCell { values: cv, column, last_cell_in_row, .. } => (if at_row_start {
                cell_open()
            } else {
                Seq::<char>::empty()
            }) + cell_body_spec(cv@, width_at(widths, column as int, 0)) + " "@ + cell_open() + (
            if last_cell_in_row {
                "\n"@
            } else {
                Seq::<char>::empty()
            }) + run_cells_spec(run.drop_first(), widths, last_cell_in_row, last_cell_in_row),
            Node::TableHeader { align } => (if prev_row_end {
                header_sep_spec(align@, widths)
            } else {
                Seq::<char>::empty()
            }) + run_cells_spec(run.drop_first(), widths, at_row_start, false),
            Node::TableRow { values: rv } => cell_open() + row_body_spec(rv@, widths, 0) + "\n"@
                + run_cells_spec(run.drop_first(), widths, at_row_start, false),
            _ => run_cells_spec(run.drop_first(), widths, at_row_start, false),
        }
    }
}

/// A whole table run: a blank line, the top border, the streamed rows
/// (with the separator row where the header marker stands), the bottom
/// border, and a closing blank line. The column count comes from the
/// header's alignments where a header occurs, else from the width
/// vector.
pub open spec fn render_table_spec(run: Seq<Node>) -> Seq<char>
    decreases run, 4int,
{
    if run.len() == 0 {
        Seq::empty()
    } else {
        let widths = widths_of(run);
        let n: int = match first_header_align(run) {
            Option::Some(a) => a.len() as int,
            Option::None => widths.len() as int,
        };
        "\n"@ + top_border_spec(widths, n) + run_cells_spec(run, widths, true, false)
            + bottom_border_spec(widths, n) + "\n"@
    }
}

/// The length of the table run starting at `i`: how many contiguous
/// table-shaped nodes follow.
pub open spec fn run_len_spec(nodes: Seq<Node>, i: int) -> nat
    decreases nodes.len() - i,
{
    if i < 0 || i >= nodes.len() || !nodes[i].is_table_node() {
        0
    } else {
        1 + run_len_spec(nodes, i + 1)
    }
}

/// The run starting inside the document is at least one node long and
/// ends within the document.
pub proof fn lemma_run_len_bounds(nodes: Seq<Node>, i: int)
    requires
        0 <= i <= nodes.len(),
    ensures
        run_len_spec(nodes, i) <= nodes.len() - i,
        i < nodes.len() && nodes[i].is_table_node() ==> run_len_spec(nodes, i) >= 1,
    decreases nodes.len() - i,
{
    if i < nodes.len() && nodes[i].is_table_node() {
        lemma_run_len_bounds(nodes, i + 1);
    }
}

/// The rendering of a document from position `i` on: a flat table cell
/// starts a table run, which is rendered whole and skipped; every other
/// node goes through the dispatcher in block mode.
pub open spec fn doc_spec(nodes: Seq<Node>, i: int) -> Seq<char>
    decreases nodes.len() - i,
    via doc_spec_decreases
{
    if i < 0 || i >= nodes.len() {
        Seq::empty()
    } else if nodes[i] is TableCell {
        let n = run_len_spec(nodes, i);
        render_table_spec(nodes.subrange(i, i + n)) + doc_spec(nodes, i + n)
    } else {
        render_node_spec(nodes[i], 0, false) + doc_spec(nodes, i + 1)
    }
}

/// The rendering of a whole document.
pub open spec fn document_spec(nodes: Seq<Node>) -> Seq<char> {
    doc_spec(nodes, 0)
}

#[via_fn]
proof fn doc_spec_decreases(nodes: Seq<Node>, i: int) {
    if 0 <= i < nodes.len() && nodes[i] is TableCell {
        lemma_run_len_bounds(nodes, i);
    }
}

fn sat_inc_usize(depth: usize) -> (r: usize)
    ensures
        r as nat == sat_inc(depth as nat),
{
    if depth < usize::MAX {
        depth + 1
    } else {
        depth
    }
}

/// Renders one node in block mode.
pub fn render_node(node: &Node, depth: usize, highlighter: &mut SyntaxHighlighter) -> (r: String)
    ensures
        r@ == render_node_spec(*node, depth as nat, false),
{
    render_node_inline(node, depth, false, highlighter)
}

/// The node dispatcher: emits the text for one node, in inline or block
/// mode.
#[verifier::rlimit(100)]
#[verifier::spinoff_prover]
pub fn render_node_inline(
    node: &Node,
    depth: usize,
    inline: bool,
    highlighter: &mut SyntaxHighlighter,
) -> (r: String)
    ensures
        r@ == render_node_spec(*node, depth as nat, inline),
    decreases *node, 0int,
{
    match node {
        Node::Heading { depth: hdepth, values } => {
            let text = render_inline_content(values);
            let tlen = text.as_str().unicode_len();
            let dc: u8 = if *hdepth < 1 {
                1
            } else if *hdepth > 6 {
                6
            } else {
                *hdepth
            };
            let sym = header_symbol(dc);
            let mut out = String::new();
            if !inline {
                out.append("\n");
            }
            if dc == 1 {
                out.append("\x1b[94m");
                append_repeated(&mut out, "═", tlen);
                out.append("════");
                out.append("\x1b[0m");
                out.append("\n");
                append_wrapped(&mut out, "\x1b[1;94m", sym);
                out.append(" ");
                append_wrapped(&mut out, "\x1b[1;94m", text.as_str());
                out.append("\n");
                out.append("\x1b[94m");
                append_repeated(&mut out, "═", tlen);
                out.append("════");
                out.append("\x1b[0m");
                out.append("\n");
            } else if dc == 2 {
                append_wrapped(&mut out, "\x1b[1;36m", sym);
                out.append(" ");
                append_wrapped(&mut out, "\x1b[1;36m", text.as_str());
                out.append("\n");
                out.append("\x1b[36m");
                append_repeated(&mut out, "─", tlen);
                out.append("────");
                out.append("\x1b[0m");
                out.append("\n");
            } else {
                let code: &str = if dc == 3 {
                    "\x1b[1;33m"
                } else if dc == 4 {
                    "\x1b[1;32m"
                } else if dc == 5 {
                    "\x1b[1;35m"
                } else {
                    "\x1b[1;37m"
                };
                append_wrapped(&mut out, code, sym);
                out.append(" ");
                append_wrapped(&mut out, code, text.as_str());
                out.append("\n");
            }
            out.append("\n");
            proof {
                assert(out@ =~= render_node_spec(*node, depth as nat, inline));
            }
            out
        },
        Node::Text { value } => {
            if is_blank(value.as_str()) {
                String::new()
            } else if inline {
                value.clone()
            } else {
                let mut out = value.clone();
                out.append("\n");
                out
            }
        },
        Node::List { ordered, index, checked, values } => {
            render_list(*ordered, *index, *checked, values, depth, highlighter)
        },
        Node::Code { value, lang } => {
            let mut out = String::new();
            append_wrapped(&mut out, "\x1b[90m", "```");
            match lang {
                Option::Some(l) => {
                    append_wrapped(&mut out, "\x1b[90m", l.as_str());
                },
                Option::None => {},
            }
            out.append("\n");
            let highlighted = match lang {
                Option::Some(l) => highlighter.highlight(value.as_str(), Some(l.as_str())),
                Option::None => highlighter.highlight(value.as_str(), None),
            };
            out.append(highlighted.as_str());
            out.append("\n");
            append_wrapped(&mut out, "\x1b[90m", "```");
            out.append("\n");
            out.append("\n");
            proof {
                assert(out@ =~= render_node_spec(*node, depth as nat, inline));
            }
            out
        },
        Node::CodeInline { value } => {
            let mut inner = String::from_str("`");
            inner.append(value.as_str());
            inner.append("`");
            let mut out = String::new();
            append_wrapped(&mut out, "\x1b[93m", inner.as_str());
            proof {
                assert(out@ =~= render_node_spec(*node, depth as nat, inline));
            }
            out
        },
        Node::Strong { values } => {
            let text = render_inline_content(values);
            let mut out = String::new();
            append_wrapped(&mut out, "\x1b[1m", text.as_str());
            proof {
                assert(out@ =~= render_node_spec(*node, depth as nat, inline));
            }
            out
        },
        Node::Emphasis { values } => {
            let text = render_inline_content(values);
            let mut out = String::new();
            append_wrapped(&mut out, "\x1b[3m", text.as_str());
            proof {
                assert(out@ =~= render_node_spec(*node, depth as nat, inline));
            }
            out
        },
        Node::Link { values, url } => {
            let text = render_inline_content(values);
            let mut out = String::from_str(" ");
            append_wrapped(&mut out, "\x1b[94m", "🔗");
            out.append(" ");
            if is_blank(text.as_str()) {
                let link = make_clickable_link(url.as_str(), url.as_str());
                out.append(link.as_str());
            } else {
                let link = make_clickable_link(url.as_str(), text.as_str());
                out.append("\x1b[4;94m");
                out.append(link.as_str());
                out.append("\x1b[0m");
            }
            proof {
                assert(out@ =~= render_node_spec(*node, depth as nat, inline));
            }
            out
        },
        Node::Image { alt, url } => {
            let mut out = String::new();
            append_wrapped(&mut out, "\x1b[92m", "🖼️ ");
            out.append(" ");
            if is_blank(alt.as_str()) {
                out.append("\x1b[4;92m");
                out.append(url.as_str());
                out.append("\x1b[0m");
            } else {
                append_wrapped(&mut out, "\x1b[92m", alt.as_str());
                out.append(" (");
                append_wrapped(&mut out, "\x1b[90m", url.as_str());
                out.append(")");
            }
            out.append("\n");
            proof {
                assert(out@ =~= render_node_spec(*node, depth as nat, inline));
            }
            out
        },
        Node::HorizontalRule => {
            let mut out = String::from_str("\x1b[90m");
            append_repeated(&mut out, "─", 80);
            out.append("\x1b[0m");
            out.append("\n");
            out.append("\n");
            proof {
                assert(out@ =~= render_node_spec(*node, depth as nat, inline));
            }
            out
        },
        Node::Blockquote { values } => {
            let mut out = String::new();
            if !inline {
                out.append("\n");
            }
            let detected = find_callout(values);
            match detected {
                Option::Some(_) => {
                    let body = render_callout_blockquote(values, highlighter);
                    out.append(body.as_str());
                },
                Option::None => {
                    let body = render_regular_blockquote(values, depth, highlighter);
                    out.append(body.as_str());
                },
            }
            out.append("\n");
            proof {
                assert(out@ =~= render_node_spec(*node, depth as nat, inline));
            }
            out
        },
        Node::Html { value } => {
            let mut out = highlighter.highlight(value.as_str(), Some("html"));
            out.append("\n");
            proof {
                assert(out@ =~= render_node_spec(*node, depth as nat, inline));
            }
            out
        },
        Node::Break => {
            if inline {
                String::from_str(" ")
            } else {
                String::from_str("\n")
            }
        },
        Node::Fragment { values } => {
            let mut out = render_nodes_inline(values, depth, true, highlighter);
            if !inline {
                out.append("\n");
            }
            proof {
                assert(out@ =~= render_node_spec(*node, depth as nat, inline));
            }
            out
        },
        Node::TableHeader { .. } => String::new(),
        Node::TableRow { .. } => String::new(),
        Node::TableCell { values, last_cell_in_row, .. } => {
            let mut out = String::new();
            out.append("\x1b[96m");
            out.append("│ ");
            out.append("\x1b[0m");
            let content = render_inline_content(values);
            let cw = content.as_str().unicode_len();
            let body = render_cell_body(values, cw, highlighter);
            out.append(body.as_str());
            out.append(" ");
            if *last_cell_in_row {
                append_wrapped(&mut out, "\x1b[96m", "│");
                out.append("\n");
            }
            proof {
                assert(out@ =~= render_node_spec(*node, depth as nat, inline));
            }
            out
        },
        Node::Other { values } => render_nodes_inline(values, depth, inline, highlighter),
    }
}

/// Renders a run of nodes, concatenated in order.
pub fn render_nodes_inline(
    nodes: &Vec<Node>,
    depth: usize,
    inline: bool,
    highlighter: &mut SyntaxHighlighter,
) -> (r: String)
    ensures
        r@ == render_nodes_spec(nodes@, depth as nat, inline),
    decreases nodes@, 1int,
{
    let ghost total = render_nodes_spec(nodes@, depth as nat, inline);
    let mut out = String::new();
    proof {
        assert(nodes@.skip(0) =~= nodes@);
    }
    let mut i: usize = 0;
    while i < nodes.len()
        invariant
            i <= nodes@.len(),
            total == render_nodes_spec(nodes@, depth as nat, inline),
            out@ + render_nodes_spec(nodes@.skip(i as int), depth as nat, inline) == total,
        decreases nodes@.len() - i,
    {
        proof {
            assert(nodes@.skip(i as int).drop_first() =~= nodes@.skip(i as int + 1));
            assert(nodes@.skip(i as int)[0] == nodes@[i as int]);
            assert(decreases_to!(nodes@ => nodes@[i as int]));
        }
        let piece = render_node_inline(&nodes[i], depth, inline, highlighter);
        out.append(piece.as_str());
        proof {
            assert(out@ + render_nodes_spec(nodes@.skip(i as int + 1), depth as nat, inline)
                =~= total);
        }
        i = i + 1;
    }
    proof {
        assert(nodes@.skip(nodes@.len() as int) =~= Seq::<Node>::empty());
        assert(out@ =~= total);
    }
    out
}

/// Renders one list item with its bullet, checkbox and children.
pub fn render_list(
    ordered: bool,
    index: u64,
    checked: Option<bool>,
    values: &Vec<Node>,
    depth: usize,
    highlighter: &mut SyntaxHighlighter,
) -> (r: String)
    ensures
        r@ == render_list_spec(ordered, index, checked, values@, depth as nat),
    decreases values@, 4int,
{
    let mut out = String::new();
    append_repeated(&mut out, "  ", depth);
    out.append("\x1b[95m");
    if ordered {
        let num = to_decimal(index as u128 + 1);
        out.append(num.as_str());
        out.append(".");
    } else {
        out.append(bullet_glyph(depth % 4));
    }
    out.append("\x1b[0m");
    out.append(" ");
    match checked {
        Option::Some(true) => out.append("☑️ "),
        Option::Some(false) => out.append("☐ "),
        Option::None => {},
    }
    let ghost head = out@;
    let ghost total = list_children_spec(values@, depth as nat, false);
    proof {
        assert(values@.skip(0) =~= values@);
    }
    let mut has_content = false;
    let mut i: usize = 0;
    while i < values.len()
        invariant
            i <= values@.len(),
            total == list_children_spec(values@, depth as nat, false),
            out@ + list_children_spec(values@.skip(i as int), depth as nat, has_content) == head
                + total,
        decreases values@.len() - i,
    {
        proof {
            assert(values@.skip(i as int).drop_first() =~= values@.skip(i as int + 1));
            assert(values@.skip(i as int)[0] == values@[i as int]);
            assert(decreases_to!(values@ => values@[i as int]));
        }
        match &values[i] {
            Node::List { ordered: o2, index: i2, checked: c2, values: nv } => {
                if has_content {
                    out.append("\n");
                }
                let d1 = sat_inc_usize(depth);
                let sub = render_list(*o2, *i2, *c2, nv, d1, highlighter);
                out.append(sub.as_str());
            },
            Node::Fragment { values: fv } => {
                let d1 = sat_inc_usize(depth);
                let sub = render_nodes_inline(fv, d1, true, highlighter);
                out.append(sub.as_str());
                has_content = true;
            },
            _ => {
                let d1 = sat_inc_usize(depth);
                let sub = render_node_inline(&values[i], d1, true, highlighter);
                out.append(sub.as_str());
                has_content = true;
            },
        }
        proof {
            assert(out@ + list_children_spec(
                values@.skip(i as int + 1),
                depth as nat,
                has_content,
            ) =~= head + total);
        }
        i = i + 1;
    }
    out.append("\n");
    proof {
        assert(values@.skip(values@.len() as int) =~= Seq::<Node>::empty());
        assert(out@ =~= render_list_spec(ordered, index, checked, values@, depth as nat));
    }
    out
}

/// Scans a paragraph's children for a callout marker.
fn fragment_scan(children: &Vec<Node>) -> (r: Option<(CalloutKind, String)>)
    ensures
        match r {
            Option::Some(p) => fragment_scan_spec(children@) == Some((p.0, p.1@)),
            Option::None => fragment_scan_spec(children@) is None,
        },
{
    proof {
        assert(children@.skip(0) =~= children@);
    }
    let mut i: usize = 0;
    while i < children.len()
        invariant
            i <= children@.len(),
            fragment_scan_spec(children@.skip(i as int)) == fragment_scan_spec(children@),
        decreases children@.len() - i,
    {
        proof {
            assert(children@.skip(i as int).drop_first() =~= children@.skip(i as int + 1));
            assert(children@.skip(i as int)[0] == children@[i as int]);
        }
        match &children[i] {
            Node::Text { value } => {
                match detect_callout(value.as_str()) {
                    Option::Some(k) => {
                        let body = after_marker(value.as_str());
                        return Some((k, body.to_owned()));
                    },
                    Option::None => {},
                }
            },
            _ => {},
        }
        i = i + 1;
    }
    proof {
        assert(children@.skip(children@.len() as int) =~= Seq::<Node>::empty());
    }
    None
}

/// Finds the first callout marker among a blockquote's children, with
/// the text that follows it on its line.
pub fn find_callout(values: &Vec<Node>) -> (r: Option<(CalloutKind, String)>)
    ensures
        match r {
            Option::Some(p) => find_callout_spec(values@) == Some((p.0, p.1@)),
            Option::None => find_callout_spec(values@) is None,
        },
{
    proof {
        assert(values@.skip(0) =~= values@);
    }
    let mut i: usize = 0;
    while i < values.len()
        invariant
            i <= values@.len(),
            find_callout_spec(values@.skip(i as int)) == find_callout_spec(values@),
        decreases values@.len() - i,
    {
        proof {
            assert(values@.skip(i as int).drop_first() =~= values@.skip(i as int + 1));
            assert(values@.skip(i as int)[0] == values@[i as int]);
        }
        match &values[i] {
            Node::Fragment { values: fv } => {
                match fragment_scan(fv) {
                    Option::Some(p) => {
                        return Some(p);
                    },
                    Option::None => {},
                }
            },
            Node::Text { value } => {
                match detect_callout(value.as_str()) {
                    Option::Some(k) => {
                        let body = after_marker(value.as_str());
                        return Some((k, body.to_owned()));
                    },
                    Option::None => {},
                }
            },
            _ => {},
        }
        i = i + 1;
    }
    proof {
        assert(values@.skip(values@.len() as int) =~= Seq::<Node>::empty());
    }
    None
}

/// Builds one callout body line from a paragraph's children, stripping
/// the marker from its first carrying text child.
fn fragment_line(children: &Vec<Node>, found: bool) -> (r: (String, bool))
    ensures
        r.0@ == fragment_line_spec(children@, found).0,
        r.1 == fragment_line_spec(children@, found).1,
{
    let ghost total = fragment_line_spec(children@, found);
    let mut line = String::new();
    let mut f = found;
    proof {
        assert(children@.skip(0) =~= children@);
    }
    let mut i: usize = 0;
    while i < children.len()
        invariant
            i <= children@.len(),
            total == fragment_line_spec(children@, found),
            line@ + fragment_line_spec(children@.skip(i as int), f).0 == total.0,
            fragment_line_spec(children@.skip(i as int), f).1 == total.1,
        decreases children@.len() - i,
    {
        proof {
            assert(children@.skip(i as int).drop_first() =~= children@.skip(i as int + 1));
            assert(children@.skip(i as int)[0] == children@[i as int]);
        }
        match &children[i] {
            Node::Text { value } => {
                let hit = if f {
                    false
                } else {
                    match detect_callout(value.as_str()) {
                        Option::Some(_) => true,
                        Option::None => false,
                    }
                };
                if hit {
                    let rest = after_marker(value.as_str());
                    line.append(rest);
                    f = true;
                } else {
                    line.append(value.as_str());
                }
            },
            Node::Link { values: lv, url } => {
                let text = render_inline_content(lv);
                line.append(" 🔗 ");
                if is_blank(text.as_str()) {
                    let link = make_clickable_link(url.as_str(), url.as_str());
                    line.append(link.as_str());
                } else {
                    let link = make_clickable_link(url.as_str(), text.as_str());
                    line.append(link.as_str());
                }
            },
            _ => {
                let piece = render_inline_piece(&children[i]);
                line.append(piece.as_str());
            },
        }
        proof {
            assert(line@ + fragment_line_spec(children@.skip(i as int + 1), f).0 =~= total.0);
        }
        i = i + 1;
    }
    proof {
        assert(children@.skip(children@.len() as int) =~= Seq::<Node>::empty());
        assert(line@ =~= total.0);
    }
    (line, f)
}

/// Renders a matched callout blockquote as a bordered panel.
pub fn render_callout_blockquote(values: &Vec<Node>, highlighter: &mut SyntaxHighlighter) -> (r:
    String)
    ensures
        r@ == render_callout_spec(values@),
    decreases values@, 6int,
{
    let detected = find_callout(values);
    match detected {
        Option::None => String::new(),
        Option::Some((kind, ctext)) => {
            let mut out = String::from_str("┌─ ");
            out.append(kind.style());
            out.append(kind.icon());
            out.append(" ");
            out.append(kind.name());
            out.append("\x1b[0m");
            out.append("\n");
            if ctext.as_str().unicode_len() > 0 {
                out.append("│ ");
                out.append(ctext.as_str());
                out.append("\n");
            }
            let ghost head = out@;
            let ghost total = callout_rest_spec(values@, false);
            proof {
                assert(values@.skip(0) =~= values@);
            }
            let mut f = false;
            let mut i: usize = 0;
            while i < values.len()
                invariant
                    i <= values@.len(),
                    total == callout_rest_spec(values@, false),
                    out@ + callout_rest_spec(values@.skip(i as int), f) == head + total,
                decreases values@.len() - i,
            {
                proof {
                    assert(values@.skip(i as int).drop_first() =~= values@.skip(i as int + 1));
                    assert(values@.skip(i as int)[0] == values@[i as int]);
                    assert(decreases_to!(values@ => values@[i as int]));
                }
                match &values[i] {
                    Node::Fragment { values: fv } => {
                        let (line, f2) = fragment_line(fv, f);
                        if !is_blank(line.as_str()) && f2 {
                            out.append("│ ");
                            out.append(line.as_str());
                            out.append("\n");
                        }
                        f = f2;
                    },
                    _ => {
                        if f {
                            out.append("│ ");
                            let sub = render_node_inline(&values[i], 0, false, highlighter);
                            out.append(sub.as_str());
                        }
                    },
                }
                proof {
                    assert(out@ + callout_rest_spec(values@.skip(i as int + 1), f) =~= head
                        + total);
                }
                i = i + 1;
            }
            out.append("└─\n");
            proof {
                assert(values@.skip(values@.len() as int) =~= Seq::<Node>::empty());
                assert(out@ =~= render_callout_spec(values@));
            }
            out
        },
    }
}

/// Renders an unmatched blockquote: each child behind a quote bar.
pub fn render_regular_blockquote(
    values: &Vec<Node>,
    depth: usize,
    highlighter: &mut SyntaxHighlighter,
) -> (r: String)
    ensures
        r@ == regular_quote_spec(values@, depth as nat),
    decreases values@, 5int,
{
    let ghost total = regular_quote_spec(values@, depth as nat);
    let mut out = String::new();
    proof {
        assert(values@.skip(0) =~= values@);
    }
    let mut i: usize = 0;
    while i < values.len()
        invariant
            i <= values@.len(),
            total == regular_quote_spec(values@, depth as nat),
            out@ + regular_quote_spec(values@.skip(i as int), depth as nat) == total,
        decreases values@.len() - i,
    {
        proof {
            assert(values@.skip(i as int).drop_first() =~= values@.skip(i as int + 1));
            assert(values@.skip(i as int)[0] == values@[i as int]);
            assert(decreases_to!(values@ => values@[i as int]));
        }
        append_wrapped(&mut out, "\x1b[90m", "▌");
        out.append(" ");
        let sub = render_node_inline(&values[i], depth, false, highlighter);
        out.append(sub.as_str());
        proof {
            assert(out@ + regular_quote_spec(values@.skip(i as int + 1), depth as nat) =~= total);
        }
        i = i + 1;
    }
    proof {
        assert(values@.skip(values@.len() as int) =~= Seq::<Node>::empty());
        assert(out@ =~= total);
    }
    out
}

/// Renders a cell's inline content padded to the column width.
pub fn render_cell_body(
    values: &Vec<Node>,
    width: usize,
    highlighter: &mut SyntaxHighlighter,
) -> (r: String)
    ensures
        r@ == cell_body_spec(values@, width as nat),
    decreases values@, 2int,
{
    let mut out = render_nodes_inline(values, 0, true, highlighter);
    let content = render_inline_content(values);
    let cw = content.as_str().unicode_len();
    if cw < width {
        append_repeated(&mut out, " ", width - cw);
    }
    proof {
        assert(out@ =~= cell_body_spec(values@, width as nat));
    }
    out
}

/// Renders one wrapped table row as a self-contained line.
pub fn render_table_row(
    children: &Vec<Node>,
    widths: &Vec<usize>,
    highlighter: &mut SyntaxHighlighter,
) -> (r: String)
    ensures
        r@ == cell_open() + row_body_spec(children@, widths@, 0) + "\n"@,
{
    let mut out = String::new();
    out.append("\x1b[96m");
    out.append("│ ");
    out.append("\x1b[0m");
    let ghost head = out@;
    let ghost total = row_body_spec(children@, widths@, 0);
    proof {
        assert(children@.skip(0) =~= children@);
    }
    let mut j: usize = 0;
    while j < children.len()
        invariant
            j <= children@.len(),
            total == row_body_spec(children@, widths@, 0),
            head == cell_open(),
            out@ + row_body_spec(children@.skip(j as int), widths@, j as int) == head + total,
        decreases children@.len() - j,
    {
        proof {
            assert(children@.skip(j as int).drop_first() =~= children@.skip(j as int + 1));
            assert(children@.skip(j as int)[0] == children@[j as int]);
        }
        match &children[j] {
            Node::TableCell { values: cv, .. } => {
                let w = crate::table::width_for(widths, j, 0);
                let body = render_cell_body(cv, w, highlighter);
                out.append(body.as_str());
                out.append(" ");
                out.append("\x1b[96m");
                out.append("│ ");
                out.append("\x1b[0m");
            },
            _ => {},
        }
        proof {
            assert(out@ + row_body_spec(children@.skip(j as int + 1), widths@, j as int + 1) =~=
                head + total);
        }
        j = j + 1;
    }
    out.append("\n");
    proof {
        assert(children@.skip(children@.len() as int) =~= Seq::<Node>::empty());
        assert(out@ =~= cell_open() + row_body_spec(children@, widths@, 0) + "\n"@);
    }
    out
}

/// Renders a whole table run: borders, streamed rows and the separator.
#[verifier::rlimit(100)]
#[verifier::spinoff_prover]
pub fn render_table(table_nodes: &[Node], highlighter: &mut SyntaxHighlighter) -> (r: String)
    ensures
        r@ == render_table_spec(table_nodes@),
{
    if table_nodes.len() == 0 {
        return String::new();
    }
    let widths = calculate_column_widths(table_nodes);
    proof {
        assert forall|c: int| 0 <= c < widths@.len() implies widths@[c] == widths_of(
            table_nodes@,
        )[c] by {
            assert(widths@[c] as nat == col_width_spec(table_nodes@, c));
        }
        assert(widths@ =~= widths_of(table_nodes@));
    }
    let mut col_count = widths.len();
    let ghost run = table_nodes@;
    proof {
        assert(run.skip(0) =~= run);
    }
    let mut k: usize = 0;
    let mut found_header = false;
    while k < table_nodes.len() && !found_header
        invariant
            k <= run.len(),
            run == table_nodes@,
            widths@ == widths_of(run),
            !found_header ==> first_header_align(run.skip(k as int)) == first_header_align(run),
            !found_header ==> col_count == widths@.len(),
            found_header ==> (match first_header_align(run) {
                Option::Some(a) => col_count as int == a.len(),
                Option::None => false,
            }),
        decreases run.len() - k,
    {
        proof {
            assert(run.skip(k as int).drop_first() =~= run.skip(k as int + 1));
            assert(run.skip(k as int)[0] == run[k as int]);
        }
        match &table_nodes[k] {
            Node::TableHeader { align } => {
                col_count = align.len();
                found_header = true;
            },
            _ => {},
        }
        k = k + 1;
    }
    proof {
        if !found_header {
            assert(run.skip(run.len() as int) =~= Seq::<Node>::empty());
        }
    }
    let mut out = String::from_str("\n");
    let top = render_table_top_border(&widths, col_count);
    out.append(top.as_str());
    let ghost head = out@;
    let ghost total = run_cells_spec(run, widths@, true, false);
    let mut at_row_start = true;
    let mut prev_row_end = false;
    let mut i: usize = 0;
    while i < table_nodes.len()
        invariant
            i <= run.len(),
            run == table_nodes@,
            widths@ == widths_of(run),
            total == run_cells_spec(run, widths@, true, false),
            out@ + run_cells_spec(run.skip(i as int), widths@, at_row_start, prev_row_end) == head
                + total,
        decreases run.len() - i,
    {
        proof {
            assert(run.skip(i as int).drop_first() =~= run.skip(i as int + 1));
            assert(run.skip(i as int)[0] == run[i as int]);
        }
        match &table_nodes[i] {
            Node::TableCell { values: cv, column, last_cell_in_row, .. } => {
                if at_row_start {
                    out.append("\x1b[96m");
                    out.append("│ ");
                    out.append("\x1b[0m");
                }
                let w = crate::table::width_for(&widths, *column, 0);
                let body = render_cell_body(cv, w, highlighter);
                out.append(body.as_str());
                out.append(" ");
                out.append("\x1b[96m");
                out.append("│ ");
                out.append("\x1b[0m");
                if *last_cell_in_row {
                    out.append("\n");
                }
                at_row_start = *last_cell_in_row;
                prev_row_end = *last_cell_in_row;
            },
            Node::TableHeader { align } => {
                if prev_row_end {
                    let sep = render_table_header(align, &widths);
                    out.append(sep.as_str());
                }
                prev_row_end = false;
            },
            Node::TableRow { values: rv } => {
                let row = render_table_row(rv, &widths, highlighter);
                out.append(row.as_str());
                prev_row_end = false;
            },
            _ => {
                prev_row_end = false;
            },
        }
        proof {
            assert(out@ + run_cells_spec(run.skip(i as int + 1), widths@, at_row_start,
                prev_row_end) =~= head + total);
        }
        i = i + 1;
    }
    let bottom = render_table_bottom_border(&widths, col_count);
    out.append(bottom.as_str());
    out.append("\n");
    proof {
        assert(run.skip(run.len() as int) =~= Seq::<Node>::empty());
        assert(out@ =~= render_table_spec(run));
    }
    out
}

/// Renders a whole document to ANSI-decorated text: contiguous table
/// runs go through the table layout engine, everything else through the
/// node dispatcher, in document order.
pub fn render_markdown_to_string(markdown: &Document) -> (r: String)
    ensures
        r@ == document_spec(markdown.nodes@),
{
    let mut highlighter = SyntaxHighlighter::new();
    let nodes = &markdown.nodes;
    let mut out = String::new();
    let mut i: usize = 0;
    while i < nodes.len()
        invariant
            i <= nodes@.len(),
            out@ + doc_spec(nodes@, i as int) == doc_spec(nodes@, 0),
        decreases nodes@.len() - i,
    {
        let starts_table = match &nodes[i] {
            Node::TableCell { .. } => true,
            _ => false,
        };
        if starts_table {
            let mut j: usize = i;
            while j < nodes.len() && nodes[j].table_node()
                invariant
                    i <= j <= nodes@.len(),
                    run_len_spec(nodes@, i as int) == j - i + run_len_spec(nodes@, j as int),
                decreases nodes@.len() - j,
            {
                j = j + 1;
            }
            proof {
                assert(run_len_spec(nodes@, j as int) == 0);
                assert(run_len_spec(nodes@, i as int) == j - i);
            }
            let run = vstd::slice::slice_subrange(nodes.as_slice(), i, j);
            let piece = render_table(run, &mut highlighter);
            out.append(piece.as_str());
            proof {
                assert(run@ =~= nodes@.subrange(i as int, i as int + run_len_spec(
                    nodes@,
                    i as int,
                )));
                assert(out@ + doc_spec(nodes@, j as int) =~= doc_spec(nodes@, 0));
            }
            i = j;
        } else {
            let piece = render_node_inline(&nodes[i], 0, false, &mut highlighter);
            out.append(piece.as_str());
            proof {
                assert(out@ + doc_spec(nodes@, i as int + 1) =~= doc_spec(nodes@, 0));
            }
            i = i + 1;
        }
    }
    proof {
        assert(out@ =~= doc_spec(nodes@, 0));
    }
    out
}

} // verus!
