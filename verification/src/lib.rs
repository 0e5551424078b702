//! Terminal renderer for parsed Markdown documents.
//!
//! The library turns a document tree of [`node::Node`] values into
//! ANSI-decorated text: headings become banners, lists are drawn with
//! bullets and checkboxes, tables are laid out with box-drawing borders,
//! GitHub-style callouts become bordered panels, code blocks are fenced
//! and syntax-colored, and links become OSC-8 clickable hyperlinks.

pub mod args;
pub mod callout;
pub mod flatten;
pub mod highlight;
pub mod node;
pub mod render;
pub mod strutil;
pub mod style;
pub mod table;
pub mod widths;

pub use crate::highlight::SyntaxHighlighter;
pub use crate::render::render_markdown_to_string;
