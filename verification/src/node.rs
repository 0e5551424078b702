//! The document model: a document is an ordered sequence of nodes.

use vstd::prelude::*;

verus! {

/// Alignment of one table column, as declared by a table's header marker.
#[derive(Debug, Clone, Copy, PartialEq, Eq, Structural)]
pub enum AlignKind {
    Left,
    Right,
    Center,
    Unspecified,
}

/// One node of a parsed Markdown document.
///
/// A document is an ordered `Vec<Node>`; order is significant, since
/// table detection and callout detection read contiguous runs of nodes.
/// Text is Unicode and all widths are measured in codepoints.
#[derive(Debug)]
pub enum Node {
    /// A heading of the given depth (clamped to 1..=6 when rendered).
    Heading { depth: u8, values: Vec<Node> },
    /// Plain text.
    Text { value: String },
    /// Strongly emphasised (bold) inline content.
    Strong { values: Vec<Node> },
    /// Emphasised (italic) inline content.
    Emphasis { values: Vec<Node> },
    /// Inline code span.
    CodeInline { value: String },
    /// A fenced code block with an optional language tag.
    Code { value: String, lang: Option<String> },
    /// A link with display content and a target URL.
    Link { values: Vec<Node>, url: String },
    /// An image with alternative text and a URL.
    Image { alt: String, url: String },
    /// One list item; nested lists appear among its children.
    List { ordered: bool, index: u64, checked: Option<bool>, values: Vec<Node> },
    /// A quoted block; may turn out to be a callout panel.
    Blockquote { values: Vec<Node> },
    /// A thematic break.
    HorizontalRule,
    /// Raw HTML, rendered through the highlighter as markup.
    Html { value: String },
    /// A soft or hard line break.
    Break,
    /// A paragraph-equivalent grouping rendered as one inline run.
    Fragment { values: Vec<Node> },
    /// One table cell, either flat in a run or wrapped in a `TableRow`.
    TableCell {
        values: Vec<Node>,
        column: usize,
        row: usize,
        last_cell_in_row: bool,
        last_cell_of_in_table: bool,
    },
    /// The table header marker carrying the per-column alignments.
    TableHeader { align: Vec<AlignKind> },
    /// A row of table cells.
    TableRow { values: Vec<Node> },
    /// Any other node kind: rendering is deferred to its children.
    Other { values: Vec<Node> },
}

impl Node {
    /// Whether this node belongs to a table run.
    pub open spec fn is_table_node(&self) -> bool {
        match *self {
            Node::TableCell { .. } => true,
            Node::TableHeader { .. } => true,
            Node::TableRow { .. } => true,
            _ => false,
        }
    }

    /// Executable form of [`Node::is_table_node`].
    pub fn table_node(&self) -> (r: bool)
        ensures
            r == self.is_table_node(),
    {
        match self {
            Node::TableCell { .. } => true,
            Node::TableHeader { .. } => true,
            Node::TableRow { .. } => true,
            _ => false,
        }
    }
}

/// A parsed document: an ordered sequence of nodes.
#[derive(Debug)]
pub struct Document {
    pub nodes: Vec<Node>,
}

} // verus!
