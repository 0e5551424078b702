//! Table borders: the top and bottom box-drawing lines and the
//! header-separator row with its alignment glyphs.

use vstd::prelude::*;
use crate::node::AlignKind;
use crate::strutil::{append_repeated, repeat_spec};
use crate::style::wrap_spec;

verus! {

/// The width used for column `i`, falling back to `default` where the
/// width vector is shorter than the column count.
pub open spec fn width_at(widths: Seq<usize>, i: int, default: nat) -> nat {
    if 0 <= i < widths.len() {
        widths[i] as nat
    } else {
        default
    }
}

/// One border segment: a horizontal rule two wider than the column.
pub open spec fn rule_seg(w: nat) -> Seq<char> {
    repeat_spec("─"@, w) + "──"@
}

/// The inner part of a border: one rule per column, joined by `mid`.
pub open spec fn border_body_spec(widths: Seq<usize>, n: int, mid: Seq<char>) -> Seq<char>
    decreases n,
{
    if n <= 0 {
        Seq::empty()
    } else if n == 1 {
        rule_seg(width_at(widths, 0, 4))
    } else {
        border_body_spec(widths, n - 1, mid) + mid + rule_seg(width_at(widths, n - 1, 4))
    }
}

/// The top border line of a table.
pub open spec fn top_border_spec(widths: Seq<usize>, n: int) -> Seq<char> {
    wrap_spec("\x1b[90m"@, "┌"@ + border_body_spec(widths, n, "┬"@) + "┐"@) + "\n"@
}

/// The bottom border line of a table.
pub open spec fn bottom_border_spec(widths: Seq<usize>, n: int) -> Seq<char> {
    wrap_spec("\x1b[90m"@, "└"@ + border_body_spec(widths, n, "┴"@) + "┘"@) + "\n"@
}

/// The glyph on the left end of one header-separator segment.
pub open spec fn align_left_glyph(a: AlignKind) -> Seq<char> {
    match a {
        AlignKind::Left => ":"@,
        AlignKind::Right => "─"@,
        AlignKind::Center => ":"@,
        AlignKind::Unspecified => "─"@,
    }
}

/// The glyph on the right end of one header-separator segment.
pub open spec fn align_right_glyph(a: AlignKind) -> Seq<char> {
    match a {
        AlignKind::Left => "─"@,
        AlignKind::Right => ":"@,
        AlignKind::Center => ":"@,
        AlignKind::Unspecified => "─"@,
    }
}

/// The inner part of the header separator: per column an alignment
/// glyph, a rule as wide as the column, and the closing glyph, joined
/// by `┼`.
pub open spec fn sep_body_spec(align: Seq<AlignKind>, widths: Seq<usize>, n: int) -> Seq<char>
    decreases n,
{
    if n <= 0 || n > align.len() {
        Seq::empty()
    } else {
        let seg = align_left_glyph(align[n - 1]) + repeat_spec("─"@, width_at(widths, n - 1, 4))
            + align_right_glyph(align[n - 1]);
        if n == 1 {
            seg
        } else {
            sep_body_spec(align, widths, n - 1) + "┼"@ + seg
        }
    }
}

/// The header-separator line under a table's first row.
pub open spec fn header_sep_spec(align: Seq<AlignKind>, widths: Seq<usize>) -> Seq<char> {
    wrap_spec("\x1b[90m"@, "├"@ + sep_body_spec(align, widths, align.len() as int) + "┤"@) + "\n"@
}

pub(crate) fn width_for(widths: &Vec<usize>, i: usize, default: usize) -> (r: usize)
    ensures
        r as nat == width_at(widths@, i as int, default as nat),
{
    if i < widths.len() {
        widths[i]
    } else {
        default
    }
}

/// Appends one border rule segment for a column of width `w`.
fn append_rule_seg(out: &mut String, w: usize)
    ensures
        final(out)@ == old(out)@ + rule_seg(w as nat),
{
    append_repeated(out, "─", w);
    out.append("──");
    assert(out@ =~= old(out)@ + rule_seg(w as nat));
}

/// Appends the inner part of a border: `n` rules joined by `mid`.
fn append_border_body(out: &mut String, widths: &Vec<usize>, n: usize, mid: &str)
    ensures
        final(out)@ == old(out)@ + border_body_spec(widths@, n as int, mid@),
{
    let mut i: usize = 0;
    while i < n
        invariant
            i <= n,
            out@ == old(out)@ + border_body_spec(widths@, i as int, mid@),
        decreases n - i,
    {
        if i > 0 {
            out.append(mid);
        }
        let w = width_for(widths, i, 4);
        append_rule_seg(out, w);
        i = i + 1;
    }
}

/// Renders a table's top border.
pub fn render_table_top_border(widths: &Vec<usize>, col_count: usize) -> (r: String)
    ensures
        r@ == top_border_spec(widths@, col_count as int),
{
    let mut out = String::from_str("\x1b[90m");
    out.append("┌");
    append_border_body(&mut out, widths, col_count, "┬");
    out.append("┐");
    out.append("\x1b[0m");
    out.append("\n");
    assert(out@ =~= top_border_spec(widths@, col_count as int));
    out
}

/// Renders a table's bottom border.
pub fn render_table_bottom_border(widths: &Vec<usize>, col_count: usize) -> (r: String)
    ensures
        r@ == bottom_border_spec(widths@, col_count as int),
{
    let mut out = String::from_str("\x1b[90m");
    out.append("└");
    append_border_body(&mut out, widths, col_count, "┴");
    out.append("┘");
    out.append("\x1b[0m");
    out.append("\n");
    assert(out@ =~= bottom_border_spec(widths@, col_count as int));
    out
}

fn align_glyphs(a: &AlignKind) -> (r: (&'static str, &'static str))
    ensures
        r.0@ == align_left_glyph(*a),
        r.1@ == align_right_glyph(*a),
{
    match a {
        AlignKind::Left => (":", "─"),
        AlignKind::Right => ("─", ":"),
        AlignKind::Center => (":", ":"),
        AlignKind::Unspecified => ("─", "─"),
    }
}

/// Renders the header-separator row for the given column alignments.
pub fn render_table_header(align: &Vec<AlignKind>, widths: &Vec<usize>) -> (r: String)
    ensures
        r@ == header_sep_spec(align@, widths@),
{
    let mut out = String::from_str("\x1b[90m");
    out.append("├");
    let mut i: usize = 0;
    while i < align.len()
        invariant
            i <= align@.len(),
            out@ == "\x1b[90m"@ + "├"@ + sep_body_spec(align@, widths@, i as int),
        decreases align@.len() - i,
    {
        if i > 0 {
            out.append("┼");
        }
        let (left, right) = align_glyphs(&align[i]);
        out.append(left);
        let w = width_for(widths, i, 4);
        append_repeated(&mut out, "─", w);
        out.append(right);
        i = i + 1;
    }
    out.append("┤");
    out.append("\x1b[0m");
    out.append("\n");
    assert(out@ =~= header_sep_spec(align@, widths@));
    out
}

} // verus!
