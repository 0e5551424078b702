//! Fixed ANSI styling: SGR color codes, the style mapper for highlight
//! categories, and the glyph tables for headings and list bullets.

use vstd::prelude::*;

verus! {

/// The SGR reset sequence that closes every styled span.
pub open spec fn sgr_reset() -> Seq<char> {
    "\x1b[0m"@
}

/// `code`, then `text`, then the reset sequence.
pub open spec fn wrap_spec(code: Seq<char>, text: Seq<char>) -> Seq<char> {
    code + text + sgr_reset()
}

/// Appends `code`, `text` and the reset sequence to `out`.
pub fn append_wrapped(out: &mut String, code: &str, text: &str)
    ensures
        final(out)@ == old(out)@ + wrap_spec(code@, text@),
{
    out.append(code);
    out.append(text);
    out.append("\x1b[0m");
    assert(out@ =~= old(out)@ + wrap_spec(code@, text@));
}

/// The SGR code for one semantic highlight category; anything outside
/// the 26 known categories maps to the reset code.
pub open spec fn color_for_index_spec(idx: int) -> Seq<char> {
    if idx == 0 {
        "\x1b[36m"@  // attribute
    } else if idx == 1 {
        "\x1b[35m"@  // constant
    } else if idx == 2 {
        "\x1b[33m"@  // function.builtin
    } else if idx == 3 {
        "\x1b[34m"@  // function
    } else if idx == 4 {
        "\x1b[95m"@  // keyword
    } else if idx == 5 {
        "\x1b[37m"@  // operator
    } else if idx == 6 {
        "\x1b[36m"@  // property
    } else if idx == 7 {
        "\x1b[90m"@  // punctuation
    } else if idx == 8 {
        "\x1b[90m"@  // punctuation.bracket
    } else if idx == 9 {
        "\x1b[90m"@  // punctuation.delimiter
    } else if idx == 10 {
        "\x1b[32m"@  // string
    } else if idx == 11 {
        "\x1b[92m"@  // string.special
    } else if idx == 12 {
        "\x1b[34m"@  // tag
    } else if idx == 13 {
        "\x1b[33m"@  // type
    } else if idx == 14 {
        "\x1b[93m"@  // type.builtin
    } else if idx == 15 {
        "\x1b[37m"@  // variable
    } else if idx == 16 {
        "\x1b[35m"@  // variable.builtin
    } else if idx == 17 {
        "\x1b[36m"@  // variable.parameter
    } else if idx == 18 {
        "\x1b[90m"@  // comment
    } else if idx == 19 {
        "\x1b[35m"@  // number
    } else if idx == 20 {
        "\x1b[35m"@  // boolean
    } else if idx == 21 {
        "\x1b[36m"@  // escape
    } else if idx == 22 {
        "\x1b[33m"@  // label
    } else if idx == 23 {
        "\x1b[36m"@  // namespace
    } else if idx == 24 {
        "\x1b[33m"@  // constructor
    } else if idx == 25 {
        "\x1b[37m"@  // embedded
    } else {
        "\x1b[0m"@
    }
}

/// The style mapper: highlight category index to ANSI color code.
pub fn color_for_index(idx: usize) -> (r: &'static str)
    ensures
        r@ == color_for_index_spec(idx as int),
{
    if idx == 0 {
        "\x1b[36m"
    } else if idx == 1 {
        "\x1b[35m"
    } else if idx == 2 {
        "\x1b[33m"
    } else if idx == 3 {
        "\x1b[34m"
    } else if idx == 4 {
        "\x1b[95m"
    } else if idx == 5 {
        "\x1b[37m"
    } else if idx == 6 {
        "\x1b[36m"
    } else if idx == 7 {
        "\x1b[90m"
    } else if idx == 8 {
        "\x1b[90m"
    } else if idx == 9 {
        "\x1b[90m"
    } else if idx == 10 {
        "\x1b[32m"
    } else if idx == 11 {
        "\x1b[92m"
    } else if idx == 12 {
        "\x1b[34m"
    } else if idx == 13 {
        "\x1b[33m"
    } else if idx == 14 {
        "\x1b[93m"
    } else if idx == 15 {
        "\x1b[37m"
    } else if idx == 16 {
        "\x1b[35m"
    } else if idx == 17 {
        "\x1b[36m"
    } else if idx == 18 {
        "\x1b[90m"
    } else if idx == 19 {
        "\x1b[35m"
    } else if idx == 20 {
        "\x1b[35m"
    } else if idx == 21 {
        "\x1b[36m"
    } else if idx == 22 {
        "\x1b[33m"
    } else if idx == 23 {
        "\x1b[36m"
    } else if idx == 24 {
        "\x1b[33m"
    } else if idx == 25 {
        "\x1b[37m"
    } else {
        "\x1b[0m"
    }
}

/// The numeral glyph for a heading of the given depth (1 through 6);
/// anything deeper falls back to the last glyph.
pub open spec fn header_symbol_spec(depth: int) -> Seq<char> {
    if depth == 1 {
        "①"@
    } else if depth == 2 {
        "②"@
    } else if depth == 3 {
        "③"@
    } else if depth == 4 {
        "④"@
    } else if depth == 5 {
        "⑤"@
    } else {
        "⑥"@
    }
}

/// Picks the numeral glyph for one heading depth.
pub fn header_symbol(depth: u8) -> (r: &'static str)
    ensures
        r@ == header_symbol_spec(depth as int),
{
    if depth == 1 {
        "①"
    } else if depth == 2 {
        "②"
    } else if depth == 3 {
        "③"
    } else if depth == 4 {
        "④"
    } else if depth == 5 {
        "⑤"
    } else {
        "⑥"
    }
}

/// The bullet glyph palette for unordered lists, cycled by depth.
pub open spec fn bullet_glyph_spec(rem: int) -> Seq<char> {
    if rem == 0 {
        "●"@
    } else if rem == 1 {
        "○"@
    } else if rem == 2 {
        "◆"@
    } else {
        "◇"@
    }
}

/// Picks the bullet glyph for one nesting depth (`rem` is `depth % 4`).
pub fn bullet_glyph(rem: usize) -> (r: &'static str)
    ensures
        r@ == bullet_glyph_spec(rem as int),
{
    if rem == 0 {
        "●"
    } else if rem == 1 {
        "○"
    } else if rem == 2 {
        "◆"
    } else {
        "◇"
    }
}

} // verus!
