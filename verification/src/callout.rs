//! GitHub-style callout detection: a blockquote whose text begins with a
//! `[!TAG]` marker, for one of five known tags, becomes a bordered panel.

use vstd::prelude::*;
use crate::strutil::{
    find_spec, lemma_find_spec, lemma_find_spec_at, lemma_ws_prefix, str_eq_ign, trim_start_spec,
    eq_ignore_case, find_char, trim_start,
};

verus! {

/// The five recognized callout kinds.
#[derive(Debug, Clone, Copy, PartialEq, Eq, Structural)]
pub enum CalloutKind {
    Note,
    Tip,
    Important,
    Warning,
    Caution,
}

impl CalloutKind {
    /// The icon glyph shown in the callout's top border.
    pub open spec fn icon_spec(self) -> Seq<char> {
        match self {
            CalloutKind::Note => "\u{2139}\u{fe0f}"@,
            CalloutKind::Tip => "💡"@,
            CalloutKind::Important => "❗"@,
            CalloutKind::Warning => "\u{26a0}\u{fe0f}"@,
            CalloutKind::Caution => "🔥"@,
        }
    }

    /// Picks the icon glyph.
    pub fn icon(self) -> (r: &'static str)
        ensures
            r@ == self.icon_spec(),
    {
        match self {
            CalloutKind::Note => "\u{2139}\u{fe0f}",
            CalloutKind::Tip => "💡",
            CalloutKind::Important => "❗",
            CalloutKind::Warning => "\u{26a0}\u{fe0f}",
            CalloutKind::Caution => "🔥",
        }
    }

    /// The SGR code (bold plus a color) styling the callout's header.
    pub open spec fn style_spec(self) -> Seq<char> {
        match self {
            CalloutKind::Note => "\x1b[1;34m"@,
            CalloutKind::Tip => "\x1b[1;32m"@,
            CalloutKind::Important => "\x1b[1;35m"@,
            CalloutKind::Warning => "\x1b[1;33m"@,
            CalloutKind::Caution => "\x1b[1;31m"@,
        }
    }

    /// Picks the header style code.
    pub fn style(self) -> (r: &'static str)
        ensures
            r@ == self.style_spec(),
    {
        match self {
            CalloutKind::Note => "\x1b[1;34m",
            CalloutKind::Tip => "\x1b[1;32m",
            CalloutKind::Important => "\x1b[1;35m",
            CalloutKind::Warning => "\x1b[1;33m",
            CalloutKind::Caution => "\x1b[1;31m",
        }
    }

    /// The display name shown in the callout's header.
    pub open spec fn name_spec(self) -> Seq<char> {
        match self {
            CalloutKind::Note => "Note"@,
            CalloutKind::Tip => "Tip"@,
            CalloutKind::Important => "Important"@,
            CalloutKind::Warning => "Warning"@,
            CalloutKind::Caution => "Caution"@,
        }
    }

    /// Picks the display name.
    pub fn name(self) -> (r: &'static str)
        ensures
            r@ == self.name_spec(),
    {
        match self {
            CalloutKind::Note => "Note",
            CalloutKind::Tip => "Tip",
            CalloutKind::Important => "Important",
            CalloutKind::Warning => "Warning",
            CalloutKind::Caution => "Caution",
        }
    }
}

/// The kind whose tag the bracketed word matches, ignoring ASCII case.
pub open spec fn tag_kind_spec(tag: Seq<char>) -> Option<CalloutKind> {
    if str_eq_ign(tag, "NOTE"@) {
        Some(CalloutKind::Note)
    } else if str_eq_ign(tag, "TIP"@) {
        Some(CalloutKind::Tip)
    } else if str_eq_ign(tag, "IMPORTANT"@) {
        Some(CalloutKind::Important)
    } else if str_eq_ign(tag, "WARNING"@) {
        Some(CalloutKind::Warning)
    } else if str_eq_ign(tag, "CAUTION"@) {
        Some(CalloutKind::Caution)
    } else {
        None
    }
}

fn tag_kind(tag: &str) -> (r: Option<CalloutKind>)
    ensures
        r == tag_kind_spec(tag@),
{
    if eq_ignore_case(tag, "NOTE") {
        Some(CalloutKind::Note)
    } else if eq_ignore_case(tag, "TIP") {
        Some(CalloutKind::Tip)
    } else if eq_ignore_case(tag, "IMPORTANT") {
        Some(CalloutKind::Important)
    } else if eq_ignore_case(tag, "WARNING") {
        Some(CalloutKind::Warning)
    } else if eq_ignore_case(tag, "CAUTION") {
        Some(CalloutKind::Caution)
    } else {
        None
    }
}

/// What callout a text line announces: after leading white space it must
/// start with `[`, then `!`, contain a closing `]`, and the word between
/// `[!` and the first `]` must match one of the five tags, ignoring ASCII
/// case. Anything else announces no callout.
pub open spec fn detect_callout_spec(text: Seq<char>) -> Option<CalloutKind> {
    let t = trim_start_spec(text);
    if t.len() >= 2 && t[0] == '[' && t[1] == '!' && find_spec(t, ']') >= 0 {
        tag_kind_spec(t.subrange(2, find_spec(t, ']')))
    } else {
        None
    }
}

/// Inspects one line of text for a leading callout marker.
pub fn detect_callout(text: &str) -> (r: Option<CalloutKind>)
    ensures
        r == detect_callout_spec(text@),
{
    let trimmed = trim_start(text);
    let len = trimmed.unicode_len();
    if len >= 2 && trimmed.get_char(0) == '[' && trimmed.get_char(1) == '!' {
        match find_char(trimmed, ']') {
            Some(end) => {
                proof {
                    lemma_find_spec(trimmed@, ']');
                }
                let tag = trimmed.substring_char(2, end);
                tag_kind(tag)
            },
            None => None,
        }
    } else {
        None
    }
}

/// The callout body a marker line carries: everything after the first
/// `]`, without leading white space; nothing when no `]` occurs.
pub open spec fn after_marker_spec(text: Seq<char>) -> Seq<char> {
    if find_spec(text, ']') >= 0 {
        trim_start_spec(text.skip(find_spec(text, ']') + 1))
    } else {
        Seq::empty()
    }
}

/// Extracts the text after a marker's closing bracket.
pub fn after_marker(text: &str) -> (r: &str)
    ensures
        r@ == after_marker_spec(text@),
{
    let len = text.unicode_len();
    match find_char(text, ']') {
        Some(end) => {
            proof {
                lemma_find_spec(text@, ']');
            }
            let tail = text.substring_char(end + 1, len);
            proof {
                assert(tail@ =~= text@.skip(find_spec(text@, ']') + 1));
            }
            trim_start(tail)
        },
        None => {
            proof {
                reveal_strlit("");
                assert(""@ =~= Seq::<char>::empty());
            }
            ""
        },
    }
}

/// Law: tag matching ignores ASCII case — texts whose tags agree up to
/// case are detected as the same callout kind.
pub proof fn lemma_callout_case_insensitive(tag1: Seq<char>, tag2: Seq<char>)
    requires
        str_eq_ign(tag1, tag2),
    ensures
        tag_kind_spec(tag1) == tag_kind_spec(tag2),
{
    assert forall|other: Seq<char>| str_eq_ign(tag1, other) == str_eq_ign(tag2, other) by {
        if str_eq_ign(tag1, other) {
            assert forall|i: int| 0 <= i < tag2.len() implies crate::strutil::char_eq_ign(
                tag2[i],
                other[i],
            ) by {
                assert(crate::strutil::char_eq_ign(tag1[i], tag2[i]));
                assert(crate::strutil::char_eq_ign(tag1[i], other[i]));
            }
        }
        if str_eq_ign(tag2, other) {
            assert forall|i: int| 0 <= i < tag1.len() implies crate::strutil::char_eq_ign(
                tag1[i],
                other[i],
            ) by {
                assert(crate::strutil::char_eq_ign(tag1[i], tag2[i]));
                assert(crate::strutil::char_eq_ign(tag2[i], other[i]));
            }
        }
    }
}

/// Law: for a marker `[!tag]rest` with no white space before it and no
/// `]` inside the tag, detection returns exactly what the tag matches:
/// one of the five kinds when the tag matches it up to ASCII case, and
/// nothing for any other bracketed tag.
pub proof fn lemma_callout_marker(tag: Seq<char>, rest: Seq<char>)
    requires
        forall|j: int| 0 <= j < tag.len() ==> tag[j] != ']',
    ensures
        detect_callout_spec("[!"@ + tag + "]"@ + rest) == tag_kind_spec(tag),
{
    reveal_strlit("[!");
    reveal_strlit("]");
    let text = "[!"@ + tag + "]"@ + rest;
    assert(text.len() == tag.len() + rest.len() + 3);
    assert(text[0] == '[');
    assert(text[1] == '!');
    assert(!crate::strutil::is_ws('['));
    lemma_ws_prefix(text, 0);
    assert(trim_start_spec(text) =~= text);
    let close = 2 + tag.len() as int;
    assert(text[close] == ']');
    assert forall|j: int| 0 <= j < close implies text[j] != ']' by {
        if j >= 2 {
            assert(text[j] == tag[j - 2]);
        }
    }
    lemma_find_spec_at(text, ']', close);
    assert(find_spec(text, ']') == close);
    assert(text.subrange(2, close) =~= tag);
}

/// Law: a marker without the leading `!` (or without the opening `[`)
/// is never detected as a callout.
pub proof fn lemma_callout_needs_bang(text: Seq<char>)
    requires
        trim_start_spec(text).len() < 2 || trim_start_spec(text)[0] != '[' || trim_start_spec(
            text,
        )[1] != '!',
    ensures
        detect_callout_spec(text) is None,
{
}

} // verus!
