//! Syntax highlighting for fenced code blocks and raw HTML.
//!
//! Tag recognition, the capture-name table and the assembly of the final
//! colored string are verified here; only the tree-sitter parse itself is
//! trusted. Each grammar wrapper names its event stream with `pieces_of`,
//! since parsing and query matching depend on nothing but the code and
//! the recognized capture names.

use vstd::prelude::*;
use crate::strutil::{eq_ignore_case, str_eq_ign};
use crate::style::{color_for_index, color_for_index_spec, sgr_reset};
use tree_sitter_highlight::{HighlightConfiguration, HighlightEvent, Highlighter};

verus! {

/// The languages the highlighter recognizes.
#[derive(Debug, Clone, Copy, PartialEq, Eq, Structural)]
pub enum Lang {
    Rust,
    Javascript,
    Typescript,
    Tsx,
    Python,
    Go,
    Html,
    Css,
    Json,
    Bash,
    C,
    Cpp,
    Java,
    Haskell,
    Elm,
    Mq,
}

/// The language a tag names, matched ignoring ASCII case.
pub open spec fn lang_of_spec(tag: Seq<char>) -> Option<Lang> {
    if str_eq_ign(tag, "rust"@) || str_eq_ign(tag, "rs"@) {
        Some(Lang::Rust)
    } else if str_eq_ign(tag, "javascript"@) || str_eq_ign(tag, "js"@) {
        Some(Lang::Javascript)
    } else if str_eq_ign(tag, "typescript"@) || str_eq_ign(tag, "ts"@) {
        Some(Lang::Typescript)
    } else if str_eq_ign(tag, "tsx"@) {
        Some(Lang::Tsx)
    } else if str_eq_ign(tag, "python"@) || str_eq_ign(tag, "py"@) {
        Some(Lang::Python)
    } else if str_eq_ign(tag, "go"@) {
        Some(Lang::Go)
    } else if str_eq_ign(tag, "html"@) {
        Some(Lang::Html)
    } else if str_eq_ign(tag, "css"@) {
        Some(Lang::Css)
    } else if str_eq_ign(tag, "json"@) {
        Some(Lang::Json)
    } else if str_eq_ign(tag, "bash"@) || str_eq_ign(tag, "sh"@) {
        Some(Lang::Bash)
    } else if str_eq_ign(tag, "c"@) {
        Some(Lang::C)
    } else if str_eq_ign(tag, "cpp"@) || str_eq_ign(tag, "c++"@) || str_eq_ign(tag, "cxx"@) {
        Some(Lang::Cpp)
    } else if str_eq_ign(tag, "java"@) {
        Some(Lang::Java)
    } else if str_eq_ign(tag, "hs"@) || str_eq_ign(tag, "haskell"@) {
        Some(Lang::Haskell)
    } else if str_eq_ign(tag, "elm"@) {
        Some(Lang::Elm)
    } else if str_eq_ign(tag, "mq"@) {
        Some(Lang::Mq)
    } else {
        None
    }
}

/// Recognizes a language tag, ignoring ASCII case.
pub fn lang_of(tag: &str) -> (r: Option<Lang>)
    ensures
        r == lang_of_spec(tag@),
{
    if eq_ignore_case(tag, "rust") || eq_ignore_case(tag, "rs") {
        Some(Lang::Rust)
    } else if eq_ignore_case(tag, "javascript") || eq_ignore_case(tag, "js") {
        Some(Lang::Javascript)
    } else if eq_ignore_case(tag, "typescript") || eq_ignore_case(tag, "ts") {
        Some(Lang::Typescript)
    } else if eq_ignore_case(tag, "tsx") {
        Some(Lang::Tsx)
    } else if eq_ignore_case(tag, "python") || eq_ignore_case(tag, "py") {
        Some(Lang::Python)
    } else if eq_ignore_case(tag, "go") {
        Some(Lang::Go)
    } else if eq_ignore_case(tag, "html") {
        Some(Lang::Html)
    } else if eq_ignore_case(tag, "css") {
        Some(Lang::Css)
    } else if eq_ignore_case(tag, "json") {
        Some(Lang::Json)
    } else if eq_ignore_case(tag, "bash") || eq_ignore_case(tag, "sh") {
        Some(Lang::Bash)
    } else if eq_ignore_case(tag, "c") {
        Some(Lang::C)
    } else if eq_ignore_case(tag, "cpp") || eq_ignore_case(tag, "c++") || eq_ignore_case(
        tag,
        "cxx",
    ) {
        Some(Lang::Cpp)
    } else if eq_ignore_case(tag, "java") {
        Some(Lang::Java)
    } else if eq_ignore_case(tag, "hs") || eq_ignore_case(tag, "haskell") {
        Some(Lang::Haskell)
    } else if eq_ignore_case(tag, "elm") {
        Some(Lang::Elm)
    } else if eq_ignore_case(tag, "mq") {
        Some(Lang::Mq)
    } else {
        None
    }
}

/// One step of a highlighted rendering: a span of source text, the start
/// of a colored region (by capture index), or the end of one.
#[derive(Debug)]
pub enum Piece {
    Text { text: String },
    Start { category: usize },
    End,
}

/// The mathematical shape of a [`Piece`].
pub enum PieceView {
    Text { text: Seq<char> },
    Start { category: usize },
    End,
}

impl View for Piece {
    type V = PieceView;

    open spec fn view(&self) -> PieceView {
        match self {
            Piece::Text { text } => PieceView::Text { text: text@ },
            Piece::Start { category } => PieceView::Start { category: *category },
            Piece::End => PieceView::End,
        }
    }
}

/// The views of a sequence of pieces.
pub open spec fn pieces_view(s: Seq<Piece>) -> Seq<PieceView> {
    Seq::new(s.len(), |i: int| s[i]@)
}

/// The colored output a piece sequence renders to: text verbatim, region
/// starts as their category's color code, region ends as the reset code.
pub open spec fn render_pieces_spec(ps: Seq<PieceView>) -> Seq<char>
    decreases ps.len(),
{
    if ps.len() == 0 {
        Seq::empty()
    } else {
        render_pieces_spec(ps.drop_last()) + (match ps.last() {
            PieceView::Text { text } => text,
            PieceView::Start { category } => color_for_index_spec(category as int),
            PieceView::End => sgr_reset(),
        })
    }
}

/// The source text carried by a piece sequence, in order.
pub open spec fn concat_texts_spec(ps: Seq<PieceView>) -> Seq<char>
    decreases ps.len(),
{
    if ps.len() == 0 {
        Seq::empty()
    } else {
        concat_texts_spec(ps.drop_last()) + (match ps.last() {
            PieceView::Text { text } => text,
            _ => Seq::empty(),
        })
    }
}

/// The capture names the highlighter is configured with; their order
/// defines the category indices of the style mapper.
pub open spec fn capture_names_spec() -> Seq<Seq<char>> {
    seq![
        "attribute"@,
        "constant"@,
        "function.builtin"@,
        "function"@,
        "keyword"@,
        "operator"@,
        "property"@,
        "punctuation"@,
        "punctuation.bracket"@,
        "punctuation.delimiter"@,
        "string"@,
        "string.special"@,
        "tag"@,
        "type"@,
        "type.builtin"@,
        "variable"@,
        "variable.builtin"@,
        "variable.parameter"@,
        "comment"@,
        "number"@,
        "boolean"@,
        "escape"@,
        "label"@,
        "namespace"@,
        "constructor"@,
        "embedded"@,
    ]
}

/// Builds the capture-name table.
fn capture_names() -> (r: Vec<String>)
    ensures
        r.deep_view() == capture_names_spec(),
{
    let mut v: Vec<String> = Vec::new();
    v.push(String::from_str("attribute"));
    v.push(String::from_str("constant"));
    v.push(String::from_str("function.builtin"));
    v.push(String::from_str("function"));
    v.push(String::from_str("keyword"));
    v.push(String::from_str("operator"));
    v.push(String::from_str("property"));
    v.push(String::from_str("punctuation"));
    v.push(String::from_str("punctuation.bracket"));
    v.push(String::from_str("punctuation.delimiter"));
    v.push(String::from_str("string"));
    v.push(String::from_str("string.special"));
    v.push(String::from_str("tag"));
    v.push(String::from_str("type"));
    v.push(String::from_str("type.builtin"));
    v.push(String::from_str("variable"));
    v.push(String::from_str("variable.builtin"));
    v.push(String::from_str("variable.parameter"));
    v.push(String::from_str("comment"));
    v.push(String::from_str("number"));
    v.push(String::from_str("boolean"));
    v.push(String::from_str("escape"));
    v.push(String::from_str("label"));
    v.push(String::from_str("namespace"));
    v.push(String::from_str("constructor"));
    v.push(String::from_str("embedded"));
    assert(v.deep_view() =~~= capture_names_spec());
    v
}

/// What the tree-sitter highlighter hands back for one language, set of
/// capture names and piece of code: `None` where the grammar, the query
/// or the parse fails, else the event stream as piece views. Parsing is
/// a function of these arguments alone.
pub uninterp spec fn pieces_of(lang: Lang, names: Seq<Seq<char>>, code: Seq<char>) -> Option<
    Seq<PieceView>,
>;

/// Declares tree_sitter_highlight::Highlighter so the library can hold
/// one; the value stays opaque.
#[verifier::external_type_specification]
#[verifier::external_body]
pub struct ExHighlighter(tree_sitter_highlight::Highlighter);

/// Relies on tree_sitter_highlight::Highlighter::new, which only
/// allocates reusable parsing resources; nothing is promised of the
/// value.
pub assume_specification[ tree_sitter_highlight::Highlighter::new ]() -> tree_sitter_highlight::Highlighter;

/// Relies on tree_sitter_highlight::{HighlightConfiguration::new,
/// Highlighter::highlight} with the tree_sitter_rust grammar (LANGUAGE,
/// HIGHLIGHTS_QUERY): the parse and the query matches are functions of
/// the code and the configured capture names alone, so the event stream
/// is the one `pieces_of` names. Every failure is `None`.
#[verifier::external_body]
fn run_rust(hl: &mut Highlighter, names: &Vec<String>, code: &str) -> (r:
    Option<Vec<Piece>>)
    ensures
        pieces_of(Lang::Rust, names.deep_view(), code@) == (match r {
            Option::Some(v) => Some(pieces_view(v@)),
            Option::None => None::<Seq<PieceView>>,
        }),
{
    let grammar = tree_sitter_rust::LANGUAGE.into();
    let mut cfg = HighlightConfiguration::new(grammar, "", tree_sitter_rust::HIGHLIGHTS_QUERY, "", "").ok()?;
    cfg.configure(&names.iter().map(|s| s.as_str()).collect::<Vec<&str>>());
    let events = hl.highlight(&cfg, code.as_bytes(), None, None, |_| None).ok()?;
    events.map(|ev| match ev.ok()? {
        HighlightEvent::Source { start, end } => Some(Piece::Text { text: code.get(start..end)?.to_string() }),
        HighlightEvent::HighlightStart(h) => Some(Piece::Start { category: h.0 }),
        HighlightEvent::HighlightEnd => Some(Piece::End),
    }).collect()
}

/// Relies on tree_sitter_highlight with the tree_sitter_javascript grammar
/// (LANGUAGE, HIGHLIGHT_QUERY), as `run_rust` does for the rust grammar.
#[verifier::external_body]
fn run_javascript(hl: &mut Highlighter, names: &Vec<String>, code: &str) -> (r:
    Option<Vec<Piece>>)
    ensures
        pieces_of(Lang::Javascript, names.deep_view(), code@) == (match r {
            Option::Some(v) => Some(pieces_view(v@)),
            Option::None => None::<Seq<PieceView>>,
        }),
{
    let grammar = tree_sitter_javascript::LANGUAGE.into();
    let mut cfg = HighlightConfiguration::new(grammar, "", tree_sitter_javascript::HIGHLIGHT_QUERY, "", "").ok()?;
    cfg.configure(&names.iter().map(|s| s.as_str()).collect::<Vec<&str>>());
    let events = hl.highlight(&cfg, code.as_bytes(), None, None, |_| None).ok()?;
    events.map(|ev| match ev.ok()? {
        HighlightEvent::Source { start, end } => Some(Piece::Text { text: code.get(start..end)?.to_string() }),
        HighlightEvent::HighlightStart(h) => Some(Piece::Start { category: h.0 }),
        HighlightEvent::HighlightEnd => Some(Piece::End),
    }).collect()
}

/// Relies on tree_sitter_highlight with the tree_sitter_typescript grammar
/// (LANGUAGE_TYPESCRIPT, HIGHLIGHTS_QUERY), as `run_rust` does for the rust grammar.
#[verifier::external_body]
fn run_typescript(hl: &mut Highlighter, names: &Vec<String>, code: &str) -> (r:
    Option<Vec<Piece>>)
    ensures
        pieces_of(Lang::Typescript, names.deep_view(), code@) == (match r {
            Option::Some(v) => Some(pieces_view(v@)),
            Option::None => None::<Seq<PieceView>>,
        }),
{
    let grammar = tree_sitter_typescript::LANGUAGE_TYPESCRIPT.into();
    let mut cfg = HighlightConfiguration::new(grammar, "", tree_sitter_typescript::HIGHLIGHTS_QUERY, "", "").ok()?;
    cfg.configure(&names.iter().map(|s| s.as_str()).collect::<Vec<&str>>());
    let events = hl.highlight(&cfg, code.as_bytes(), None, None, |_| None).ok()?;
    events.map(|ev| match ev.ok()? {
        HighlightEvent::Source { start, end } => Some(Piece::Text { text: code.get(start..end)?.to_string() }),
        HighlightEvent::HighlightStart(h) => Some(Piece::Start { category: h.0 }),
        HighlightEvent::HighlightEnd => Some(Piece::End),
    }).collect()
}

/// Relies on tree_sitter_highlight with the tree_sitter_typescript grammar
/// (LANGUAGE_TSX, HIGHLIGHTS_QUERY), as `run_rust` does for the rust grammar.
#[verifier::external_body]
fn run_tsx(hl: &mut Highlighter, names: &Vec<String>, code: &str) -> (r:
    Option<Vec<Piece>>)
    ensures
        pieces_of(Lang::Tsx, names.deep_view(), code@) == (match r {
            Option::Some(v) => Some(pieces_view(v@)),
            Option::None => None::<Seq<PieceView>>,
        }),
{
    let grammar = tree_sitter_typescript::LANGUAGE_TSX.into();
    let mut cfg = HighlightConfiguration::new(grammar, "", tree_sitter_typescript::HIGHLIGHTS_QUERY, "", "").ok()?;
    cfg.configure(&names.iter().map(|s| s.as_str()).collect::<Vec<&str>>());
    let events = hl.highlight(&cfg, code.as_bytes(), None, None, |_| None).ok()?;
    events.map(|ev| match ev.ok()? {
        HighlightEvent::Source { start, end } => Some(Piece::Text { text: code.get(start..end)?.to_string() }),
        HighlightEvent::HighlightStart(h) => Some(Piece::Start { category: h.0 }),
        HighlightEvent::HighlightEnd => Some(Piece::End),
    }).collect()
}

/// Relies on tree_sitter_highlight with the tree_sitter_python grammar
/// (LANGUAGE, HIGHLIGHTS_QUERY), as `run_rust` does for the rust grammar.
#[verifier::external_body]
fn run_python(hl: &mut Highlighter, names: &Vec<String>, code: &str) -> (r:
    Option<Vec<Piece>>)
    ensures
        pieces_of(Lang::Python, names.deep_view(), code@) == (match r {
            Option::Some(v) => Some(pieces_view(v@)),
            Option::None => None::<Seq<PieceView>>,
        }),
{
    let grammar = tree_sitter_python::LANGUAGE.into();
    let mut cfg = HighlightConfiguration::new(grammar, "", tree_sitter_python::HIGHLIGHTS_QUERY, "", "").ok()?;
    cfg.configure(&names.iter().map(|s| s.as_str()).collect::<Vec<&str>>());
    let events = hl.highlight(&cfg, code.as_bytes(), None, None, |_| None).ok()?;
    events.map(|ev| match ev.ok()? {
        HighlightEvent::Source { start, end } => Some(Piece::Text { text: code.get(start..end)?.to_string() }),
        HighlightEvent::HighlightStart(h) => Some(Piece::Start { category: h.0 }),
        HighlightEvent::HighlightEnd => Some(Piece::End),
    }).collect()
}

/// Relies on tree_sitter_highlight with the tree_sitter_go grammar
/// (LANGUAGE, HIGHLIGHTS_QUERY), as `run_rust` does for the rust grammar.
#[verifier::external_body]
fn run_go(hl: &mut Highlighter, names: &Vec<String>, code: &str) -> (r:
    Option<Vec<Piece>>)
    ensures
        pieces_of(Lang::Go, names.deep_view(), code@) == (match r {
            Option::Some(v) => Some(pieces_view(v@)),
            Option::None => None::<Seq<PieceView>>,
        }),
{
    let grammar = tree_sitter_go::LANGUAGE.into();
    let mut cfg = HighlightConfiguration::new(grammar, "", tree_sitter_go::HIGHLIGHTS_QUERY, "", "").ok()?;
    cfg.configure(&names.iter().map(|s| s.as_str()).collect::<Vec<&str>>());
    let events = hl.highlight(&cfg, code.as_bytes(), None, None, |_| None).ok()?;
    events.map(|ev| match ev.ok()? {
        HighlightEvent::Source { start, end } => Some(Piece::Text { text: code.get(start..end)?.to_string() }),
        HighlightEvent::HighlightStart(h) => Some(Piece::Start { category: h.0 }),
        HighlightEvent::HighlightEnd => Some(Piece::End),
    }).collect()
}

/// Relies on tree_sitter_highlight with the tree_sitter_html grammar
/// (LANGUAGE, HIGHLIGHTS_QUERY), as `run_rust` does for the rust grammar.
#[verifier::external_body]
fn run_html(hl: &mut Highlighter, names: &Vec<String>, code: &str) -> (r:
    Option<Vec<Piece>>)
    ensures
        pieces_of(Lang::Html, names.deep_view(), code@) == (match r {
            Option::Some(v) => Some(pieces_view(v@)),
            Option::None => None::<Seq<PieceView>>,
        }),
{
    let grammar = tree_sitter_html::LANGUAGE.into();
    let mut cfg = HighlightConfiguration::new(grammar, "", tree_sitter_html::HIGHLIGHTS_QUERY, "", "").ok()?;
    cfg.configure(&names.iter().map(|s| s.as_str()).collect::<Vec<&str>>());
    let events = hl.highlight(&cfg, code.as_bytes(), None, None, |_| None).ok()?;
    events.map(|ev| match ev.ok()? {
        HighlightEvent::Source { start, end } => Some(Piece::Text { text: code.get(start..end)?.to_string() }),
        HighlightEvent::HighlightStart(h) => Some(Piece::Start { category: h.0 }),
        HighlightEvent::HighlightEnd => Some(Piece::End),
    }).collect()
}

/// Relies on tree_sitter_highlight with the tree_sitter_css grammar
/// (LANGUAGE, HIGHLIGHTS_QUERY), as `run_rust` does for the rust grammar.
#[verifier::external_body]
fn run_css(hl: &mut Highlighter, names: &Vec<String>, code: &str) -> (r:
    Option<Vec<Piece>>)
    ensures
        pieces_of(Lang::Css, names.deep_view(), code@) == (match r {
            Option::Some(v) => Some(pieces_view(v@)),
            Option::None => None::<Seq<PieceView>>,
        }),
{
    let grammar = tree_sitter_css::LANGUAGE.into();
    let mut cfg = HighlightConfiguration::new(grammar, "", tree_sitter_css::HIGHLIGHTS_QUERY, "", "").ok()?;
    cfg.configure(&names.iter().map(|s| s.as_str()).collect::<Vec<&str>>());
    let events = hl.highlight(&cfg, code.as_bytes(), None, None, |_| None).ok()?;
    events.map(|ev| match ev.ok()? {
        HighlightEvent::Source { start, end } => Some(Piece::Text { text: code.get(start..end)?.to_string() }),
        HighlightEvent::HighlightStart(h) => Some(Piece::Start { category: h.0 }),
        HighlightEvent::HighlightEnd => Some(Piece::End),
    }).collect()
}

/// Relies on tree_sitter_highlight with the tree_sitter_json grammar
/// (LANGUAGE, HIGHLIGHTS_QUERY), as `run_rust` does for the rust grammar.
#[verifier::external_body]
fn run_json(hl: &mut Highlighter, names: &Vec<String>, code: &str) -> (r:
    Option<Vec<Piece>>)
    ensures
        pieces_of(Lang::Json, names.deep_view(), code@) == (match r {
            Option::Some(v) => Some(pieces_view(v@)),
            Option::None => None::<Seq<PieceView>>,
        }),
{
    let grammar = tree_sitter_json::LANGUAGE.into();
    let mut cfg = HighlightConfiguration::new(grammar, "", tree_sitter_json::HIGHLIGHTS_QUERY, "", "").ok()?;
    cfg.configure(&names.iter().map(|s| s.as_str()).collect::<Vec<&str>>());
    let events = hl.highlight(&cfg, code.as_bytes(), None, None, |_| None).ok()?;
    events.map(|ev| match ev.ok()? {
        HighlightEvent::Source { start, end } => Some(Piece::Text { text: code.get(start..end)?.to_string() }),
        HighlightEvent::HighlightStart(h) => Some(Piece::Start { category: h.0 }),
        HighlightEvent::HighlightEnd => Some(Piece::End),
    }).collect()
}

/// Relies on tree_sitter_highlight with the tree_sitter_bash grammar
/// (LANGUAGE, HIGHLIGHT_QUERY), as `run_rust` does for the rust grammar.
#[verifier::external_body]
fn run_bash(hl: &mut Highlighter, names: &Vec<String>, code: &str) -> (r:
    Option<Vec<Piece>>)
    ensures
        pieces_of(Lang::Bash, names.deep_view(), code@) == (match r {
            Option::Some(v) => Some(pieces_view(v@)),
            Option::None => None::<Seq<PieceView>>,
        }),
{
    let grammar = tree_sitter_bash::LANGUAGE.into();
    let mut cfg = HighlightConfiguration::new(grammar, "", tree_sitter_bash::HIGHLIGHT_QUERY, "", "").ok()?;
    cfg.configure(&names.iter().map(|s| s.as_str()).collect::<Vec<&str>>());
    let events = hl.highlight(&cfg, code.as_bytes(), None, None, |_| None).ok()?;
    events.map(|ev| match ev.ok()? {
        HighlightEvent::Source { start, end } => Some(Piece::Text { text: code.get(start..end)?.to_string() }),
        HighlightEvent::HighlightStart(h) => Some(Piece::Start { category: h.0 }),
        HighlightEvent::HighlightEnd => Some(Piece::End),
    }).collect()
}

/// Relies on tree_sitter_highlight with the tree_sitter_c grammar
/// (LANGUAGE, HIGHLIGHT_QUERY), as `run_rust` does for the rust grammar.
#[verifier::external_body]
fn run_c(hl: &mut Highlighter, names: &Vec<String>, code: &str) -> (r:
    Option<Vec<Piece>>)
    ensures
        pieces_of(Lang::C, names.deep_view(), code@) == (match r {
            Option::Some(v) => Some(pieces_view(v@)),
            Option::None => None::<Seq<PieceView>>,
        }),
{
    let grammar = tree_sitter_c::LANGUAGE.into();
    let mut cfg = HighlightConfiguration::new(grammar, "", tree_sitter_c::HIGHLIGHT_QUERY, "", "").ok()?;
    cfg.configure(&names.iter().map(|s| s.as_str()).collect::<Vec<&str>>());
    let events = hl.highlight(&cfg, code.as_bytes(), None, None, |_| None).ok()?;
    events.map(|ev| match ev.ok()? {
        HighlightEvent::Source { start, end } => Some(Piece::Text { text: code.get(start..end)?.to_string() }),
        HighlightEvent::HighlightStart(h) => Some(Piece::Start { category: h.0 }),
        HighlightEvent::HighlightEnd => Some(Piece::End),
    }).collect()
}

/// Relies on tree_sitter_highlight with the tree_sitter_cpp grammar
/// (LANGUAGE, HIGHLIGHT_QUERY), as `run_rust` does for the rust grammar.
#[verifier::external_body]
fn run_cpp(hl: &mut Highlighter, names: &Vec<String>, code: &str) -> (r:
    Option<Vec<Piece>>)
    ensures
        pieces_of(Lang::Cpp, names.deep_view(), code@) == (match r {
            Option::Some(v) => Some(pieces_view(v@)),
            Option::None => None::<Seq<PieceView>>,
        }),
{
    let grammar = tree_sitter_cpp::LANGUAGE.into();
    let mut cfg = HighlightConfiguration::new(grammar, "", tree_sitter_cpp::HIGHLIGHT_QUERY, "", "").ok()?;
    cfg.configure(&names.iter().map(|s| s.as_str()).collect::<Vec<&str>>());
    let events = hl.highlight(&cfg, code.as_bytes(), None, None, |_| None).ok()?;
    events.map(|ev| match ev.ok()? {
        HighlightEvent::Source { start, end } => Some(Piece::Text { text: code.get(start..end)?.to_string() }),
        HighlightEvent::HighlightStart(h) => Some(Piece::Start { category: h.0 }),
        HighlightEvent::HighlightEnd => Some(Piece::End),
    }).collect()
}

/// Relies on tree_sitter_highlight with the tree_sitter_java grammar
/// (LANGUAGE, HIGHLIGHTS_QUERY), as `run_rust` does for the rust grammar.
#[verifier::external_body]
fn run_java(hl: &mut Highlighter, names: &Vec<String>, code: &str) -> (r:
    Option<Vec<Piece>>)
    ensures
        pieces_of(Lang::Java, names.deep_view(), code@) == (match r {
            Option::Some(v) => Some(pieces_view(v@)),
            Option::None => None::<Seq<PieceView>>,
        }),
{
    let grammar = tree_sitter_java::LANGUAGE.into();
    let mut cfg = HighlightConfiguration::new(grammar, "", tree_sitter_java::HIGHLIGHTS_QUERY, "", "").ok()?;
    cfg.configure(&names.iter().map(|s| s.as_str()).collect::<Vec<&str>>());
    let events = hl.highlight(&cfg, code.as_bytes(), None, None, |_| None).ok()?;
    events.map(|ev| match ev.ok()? {
        HighlightEvent::Source { start, end } => Some(Piece::Text { text: code.get(start..end)?.to_string() }),
        HighlightEvent::HighlightStart(h) => Some(Piece::Start { category: h.0 }),
        HighlightEvent::HighlightEnd => Some(Piece::End),
    }).collect()
}

/// Relies on tree_sitter_highlight with the tree_sitter_haskell grammar
/// (LANGUAGE, HIGHLIGHTS_QUERY), as `run_rust` does for the rust grammar.
#[verifier::external_body]
fn run_haskell(hl: &mut Highlighter, names: &Vec<String>, code: &str) -> (r:
    Option<Vec<Piece>>)
    ensures
        pieces_of(Lang::Haskell, names.deep_view(), code@) == (match r {
            Option::Some(v) => Some(pieces_view(v@)),
            Option::None => None::<Seq<PieceView>>,
        }),
{
    let grammar = tree_sitter_haskell::LANGUAGE.into();
    let mut cfg = HighlightConfiguration::new(grammar, "", tree_sitter_haskell::HIGHLIGHTS_QUERY, "", "").ok()?;
    cfg.configure(&names.iter().map(|s| s.as_str()).collect::<Vec<&str>>());
    let events = hl.highlight(&cfg, code.as_bytes(), None, None, |_| None).ok()?;
    events.map(|ev| match ev.ok()? {
        HighlightEvent::Source { start, end } => Some(Piece::Text { text: code.get(start..end)?.to_string() }),
        HighlightEvent::HighlightStart(h) => Some(Piece::Start { category: h.0 }),
        HighlightEvent::HighlightEnd => Some(Piece::End),
    }).collect()
}

/// Relies on tree_sitter_highlight with the tree_sitter_elm grammar
/// (LANGUAGE, HIGHLIGHTS_QUERY), as `run_rust` does for the rust grammar.
#[verifier::external_body]
fn run_elm(hl: &mut Highlighter, names: &Vec<String>, code: &str) -> (r:
    Option<Vec<Piece>>)
    ensures
        pieces_of(Lang::Elm, names.deep_view(), code@) == (match r {
            Option::Some(v) => Some(pieces_view(v@)),
            Option::None => None::<Seq<PieceView>>,
        }),
{
    let grammar = tree_sitter_elm::LANGUAGE.into();
    let mut cfg = HighlightConfiguration::new(grammar, "", tree_sitter_elm::HIGHLIGHTS_QUERY, "", "").ok()?;
    cfg.configure(&names.iter().map(|s| s.as_str()).collect::<Vec<&str>>());
    let events = hl.highlight(&cfg, code.as_bytes(), None, None, |_| None).ok()?;
    events.map(|ev| match ev.ok()? {
        HighlightEvent::Source { start, end } => Some(Piece::Text { text: code.get(start..end)?.to_string() }),
        HighlightEvent::HighlightStart(h) => Some(Piece::Start { category: h.0 }),
        HighlightEvent::HighlightEnd => Some(Piece::End),
    }).collect()
}

/// Relies on tree_sitter_highlight with the tree_sitter_mq grammar
/// (LANGUAGE, HIGHLIGHTS_QUERY), as `run_rust` does for the rust grammar.
#[verifier::external_body]
fn run_mq(hl: &mut Highlighter, names: &Vec<String>, code: &str) -> (r:
    Option<Vec<Piece>>)
    ensures
        pieces_of(Lang::Mq, names.deep_view(), code@) == (match r {
            Option::Some(v) => Some(pieces_view(v@)),
            Option::None => None::<Seq<PieceView>>,
        }),
{
    let grammar = tree_sitter_mq::LANGUAGE.into();
    let mut cfg = HighlightConfiguration::new(grammar, "", tree_sitter_mq::HIGHLIGHTS_QUERY, "", "").ok()?;
    cfg.configure(&names.iter().map(|s| s.as_str()).collect::<Vec<&str>>());
    let events = hl.highlight(&cfg, code.as_bytes(), None, None, |_| None).ok()?;
    events.map(|ev| match ev.ok()? {
        HighlightEvent::Source { start, end } => Some(Piece::Text { text: code.get(start..end)?.to_string() }),
        HighlightEvent::HighlightStart(h) => Some(Piece::Start { category: h.0 }),
        HighlightEvent::HighlightEnd => Some(Piece::End),
    }).collect()
}

/// Runs the grammar wrapper for one recognized language.
fn run_lang(
    hl: &mut Highlighter,
    lang: Lang,
    names: &Vec<String>,
    code: &str,
) -> (r: Option<Vec<Piece>>)
    ensures
        pieces_of(lang, names.deep_view(), code@) == (match r {
            Option::Some(v) => Some(pieces_view(v@)),
            Option::None => None::<Seq<PieceView>>,
        }),
{
    match lang {
        Lang::Rust => run_rust(hl, names, code),
        Lang::Javascript => run_javascript(hl, names, code),
        Lang::Typescript => run_typescript(hl, names, code),
        Lang::Tsx => run_tsx(hl, names, code),
        Lang::Python => run_python(hl, names, code),
        Lang::Go => run_go(hl, names, code),
        Lang::Html => run_html(hl, names, code),
        Lang::Css => run_css(hl, names, code),
        Lang::Json => run_json(hl, names, code),
        Lang::Bash => run_bash(hl, names, code),
        Lang::C => run_c(hl, names, code),
        Lang::Cpp => run_cpp(hl, names, code),
        Lang::Java => run_java(hl, names, code),
        Lang::Haskell => run_haskell(hl, names, code),
        Lang::Elm => run_elm(hl, names, code),
        Lang::Mq => run_mq(hl, names, code),
    }
}

/// Assembles the colored output of a piece stream — provided the stream
/// really carries the original code, in order; any other stream falls
/// back to the code unchanged, so no event stream can lose or reorder
/// source text.
fn apply_pieces(code: &str, ps: &Vec<Piece>) -> (r: String)
    ensures
        r@ == (if concat_texts_spec(pieces_view(ps@)) == code@ {
            render_pieces_spec(pieces_view(ps@))
        } else {
            code@
        }),
{
    let ghost pv = pieces_view(ps@);
    let mut out = String::new();
    let mut plain = String::new();
    let mut i: usize = 0;
    while i < ps.len()
        invariant
            pv == pieces_view(ps@),
            i <= ps@.len(),
            out@ == render_pieces_spec(pv.take(i as int)),
            plain@ == concat_texts_spec(pv.take(i as int)),
        decreases ps@.len() - i,
    {
        proof {
            assert(pv.take(i as int + 1).drop_last() =~= pv.take(i as int));
            assert(pv.take(i as int + 1).last() == ps@[i as int]@);
        }
        match &ps[i] {
            Piece::Text { text } => {
                out.append(text.as_str());
                plain.append(text.as_str());
            },
            Piece::Start { category } => {
                out.append(color_for_index(*category));
            },
            Piece::End => {
                out.append("\x1b[0m");
            },
        }
        i = i + 1;
    }
    proof {
        assert(pv.take(ps@.len() as int) =~= pv);
    }
    let code_owned = code.to_owned();
    if plain == code_owned {
        out
    } else {
        code.to_owned()
    }
}

/// What `highlight` returns: the code itself when no language is given,
/// the tag is unrecognized, the code is empty, the parse fails or the
/// event stream does not carry the code; otherwise the colored assembly
/// of the event stream.
pub open spec fn highlight_spec(code: Seq<char>, lang: Option<Seq<char>>) -> Seq<char> {
    match lang {
        Option::None => code,
        Option::Some(tag) => match lang_of_spec(tag) {
            Option::None => code,
            Option::Some(l) => if code.len() == 0 {
                code
            } else {
                match pieces_of(l, capture_names_spec(), code) {
                    Option::None => code,
                    Option::Some(ps) => if concat_texts_spec(ps) == code {
                        render_pieces_spec(ps)
                    } else {
                        code
                    },
                }
            },
        },
    }
}

/// Law: a missing or unrecognized language tag leaves the code exactly
/// as it came.
pub proof fn lemma_highlight_unrecognized(code: Seq<char>, lang: Option<Seq<char>>)
    requires
        lang is None || lang_of_spec(lang->0) is None,
    ensures
        highlight_spec(code, lang) == code,
{
}

/// Law: highlighting the empty string gives the empty string, whatever
/// the tag.
pub proof fn lemma_highlight_empty(lang: Option<Seq<char>>)
    ensures
        highlight_spec(Seq::empty(), lang) == Seq::<char>::empty(),
{
}

/// Law: highlighted output never loses or reorders source text — it is
/// either the code unchanged, or the rendering of an event stream whose
/// text spans concatenate to exactly the code.
pub proof fn lemma_highlight_preserves_text(code: Seq<char>, lang: Option<Seq<char>>)
    ensures
        highlight_spec(code, lang) == code || exists|ps: Seq<PieceView>|
            concat_texts_spec(ps) == code && highlight_spec(code, lang) == render_pieces_spec(ps),
{
}

/// Syntax highlighter for fenced code and raw HTML. One instance is
/// created per render call and threaded through the whole traversal; it
/// only amortizes tree-sitter setup and carries no state that affects
/// any result.
pub struct SyntaxHighlighter {
    hl: tree_sitter_highlight::Highlighter,
}

impl SyntaxHighlighter {
    /// Creates a fresh highlighter.
    pub fn new() -> SyntaxHighlighter {
        SyntaxHighlighter { hl: tree_sitter_highlight::Highlighter::new() }
    }

    /// Highlights `code` for the language `lang` names. An absent or
    /// unrecognized tag, empty code, or any highlighter failure returns
    /// the code unchanged; otherwise color codes from the fixed palette
    /// are laid around the lexical spans of the code, all of whose
    /// characters stay present and in order.
    pub fn highlight(&mut self, code: &str, lang: Option<&str>) -> (r: String)
        ensures
            r@ == highlight_spec(code@, match lang {
                Option::Some(t) => Some(t@),
                Option::None => None::<Seq<char>>,
            }),
    {
        match lang {
            Option::None => code.to_owned(),
            Option::Some(tag) => {
                match lang_of(tag) {
                    Option::None => code.to_owned(),
                    Option::Some(l) => {
                        if code.unicode_len() == 0 {
                            code.to_owned()
                        } else {
                            let names = capture_names();
                            match run_lang(&mut self.hl, l, &names, code) {
                                Option::None => code.to_owned(),
                                Option::Some(ps) => apply_pieces(code, &ps),
                            }
                        }
                    },
                }
            },
        }
    }
}

} // verus!
