use mq_markdown::Markdown;
use mqv::node::{AlignKind, Document, Node};
use mqv::render::render_markdown_to_string;

fn conv_align(a: &mq_markdown::TableAlignKind) -> AlignKind {
    match a {
        mq_markdown::TableAlignKind::Left => AlignKind::Left,
        mq_markdown::TableAlignKind::Right => AlignKind::Right,
        mq_markdown::TableAlignKind::Center => AlignKind::Center,
        mq_markdown::TableAlignKind::None => AlignKind::Unspecified,
    }
}

fn conv_nodes(nodes: &[mq_markdown::Node]) -> Vec<Node> {
    nodes.iter().map(conv_node).collect()
}

fn conv_node(n: &mq_markdown::Node) -> Node {
    match n {
        mq_markdown::Node::Heading(h) => Node::Heading {
            depth: h.depth,
            values: conv_nodes(&h.values),
        },
        mq_markdown::Node::Text(t) => Node::Text { value: t.value.clone() },
        mq_markdown::Node::Strong(s) => Node::Strong { values: conv_nodes(&s.values) },
        mq_markdown::Node::Emphasis(e) => Node::Emphasis { values: conv_nodes(&e.values) },
        mq_markdown::Node::CodeInline(c) => Node::CodeInline { value: c.value.to_string() },
        mq_markdown::Node::Code(c) => Node::Code {
            value: c.value.clone(),
            lang: c.lang.clone(),
        },
        mq_markdown::Node::Link(l) => Node::Link {
            values: conv_nodes(&l.values),
            url: l.url.as_str().to_string(),
        },
        mq_markdown::Node::Image(im) => Node::Image {
            alt: im.alt.clone(),
            url: im.url.clone(),
        },
        mq_markdown::Node::List(l) => Node::List {
            ordered: l.ordered,
            index: l.index as u64,
            checked: l.checked,
            values: conv_nodes(&l.values),
        },
        mq_markdown::Node::Blockquote(b) => Node::Blockquote { values: conv_nodes(&b.values) },
        mq_markdown::Node::HorizontalRule(_) => Node::HorizontalRule,
        mq_markdown::Node::Html(h) => Node::Html { value: h.value.clone() },
        mq_markdown::Node::Break(_) => Node::Break,
        mq_markdown::Node::Fragment(f) => Node::Fragment { values: conv_nodes(&f.values) },
        mq_markdown::Node::TableRow(r) => Node::TableRow { values: conv_nodes(&r.values) },
        mq_markdown::Node::TableAlign(a) => Node::TableHeader {
            align: a.align.iter().map(conv_align).collect(),
        },
        mq_markdown::Node::TableCell(c) => Node::TableCell {
            values: conv_nodes(&c.values),
            column: c.column,
            row: c.row,
            last_cell_in_row: false,
            last_cell_of_in_table: false,
        },
        mq_markdown::Node::Delete(d) => Node::Other { values: conv_nodes(&d.values) },
        mq_markdown::Node::Footnote(f) => Node::Other { values: conv_nodes(&f.values) },
        _ => Node::Other { values: vec![] },
    }
}

fn is_table_node(n: &Node) -> bool {
    matches!(
        n,
        Node::TableCell { .. } | Node::TableHeader { .. } | Node::TableRow { .. }
    )
}

fn cell_row(n: &Node) -> Option<usize> {
    match n {
        Node::TableCell { row, .. } => Some(*row),
        _ => None,
    }
}

/// Converts a parsed document, synthesizing the row- and table-boundary
/// flags on flat table cells from the row indices in each table run.
fn to_document(md: &Markdown) -> Document {
    let mut nodes = conv_nodes(&md.nodes);
    let len = nodes.len();
    let mut i = 0;
    while i < len {
        if !is_table_node(&nodes[i]) {
            i += 1;
            continue;
        }
        let mut j = i;
        while j < len && is_table_node(&nodes[j]) {
            j += 1;
        }
        let last_cell = (i..j).rev().find(|&k| cell_row(&nodes[k]).is_some());
        for k in i..j {
            let this_row = match cell_row(&nodes[k]) {
                Some(r) => r,
                None => continue,
            };
            let row_ends = if k + 1 >= j {
                true
            } else {
                match cell_row(&nodes[k + 1]) {
                    Some(next_row) => next_row != this_row,
                    None => true,
                }
            };
            let table_ends = last_cell == Some(k);
            if let Node::TableCell {
                last_cell_in_row,
                last_cell_of_in_table,
                ..
            } = &mut nodes[k]
            {
                *last_cell_in_row = row_ends;
                *last_cell_of_in_table = table_ends;
            }
        }
        i = j;
    }
    Document { nodes }
}

fn render(input: &str) -> String {
    let markdown: Markdown = input.parse().unwrap();
    render_markdown_to_string(&to_document(&markdown))
}

/// Removes ANSI SGR sequences (`ESC [ ... m`).
fn strip_sgr(s: &str) -> String {
    let mut out = String::new();
    let mut chars = s.chars().peekable();
    while let Some(c) = chars.next() {
        if c == '\u{1b}' && chars.peek() == Some(&'[') {
            chars.next();
            for d in chars.by_ref() {
                if d == 'm' {
                    break;
                }
            }
        } else {
            out.push(c);
        }
    }
    out
}

#[test]
fn test_render_markdown_to_string_simple_text() {
    let result = render("Hello World");
    assert!(result.contains("Hello World"));
}

#[test]
fn test_render_markdown_to_string_heading() {
    let result = render(
        "# Heading 1\n## Heading 2\n### Heading 3\n#### Heading 4\n##### Heading 5\n###### Heading 6\n",
    );
    assert!(result.contains("Heading 1"));
    assert!(result.contains("Heading 2"));
    assert!(result.contains("Heading 3"));
    assert!(result.contains("Heading 4"));
    assert!(result.contains("Heading 5"));
    assert!(result.contains("Heading 6"));
}

#[test]
fn test_render_markdown_to_string_list() {
    let result = render("- Item 1\n- Item 2\n- Item 3");
    assert!(result.contains("Item 1"));
    assert!(result.contains("Item 2"));
    assert!(result.contains("Item 3"));
}

#[test]
fn test_render_markdown_to_string_code_block() {
    let result = render("```rust\nfn main() {}\n```");
    // Code blocks may be syntax highlighted, so just check for the function name
    assert!(result.contains("main"));
}

#[test]
fn test_render_markdown_to_string_inline_code() {
    let result = render("This is `inline code` text");
    assert!(result.contains("inline code"));
}

#[test]
fn test_render_markdown_to_string_bold() {
    let result = render("This is **bold** text");
    assert!(result.contains("bold"));
}

#[test]
fn test_render_markdown_to_string_italic() {
    let result = render("This is *italic* text");
    assert!(result.contains("italic"));
}

#[test]
fn test_render_markdown_to_string_link() {
    let result = render("[Link Text](https://example.com)");
    assert!(result.contains("Link Text"));
}

#[test]
fn test_render_markdown_to_string_blockquote() {
    let result = render("> This is a quote");
    assert!(result.contains("This is a quote"));
}

#[test]
fn test_render_markdown_to_string_horizontal_rule() {
    let result = render("---");
    // Check that some separator is rendered
    assert!(!result.is_empty());
}

#[test]
fn test_render_markdown_ordered_list() {
    let result = render("1. First\n2. Second\n3. Third");
    assert!(result.contains("First"));
    assert!(result.contains("Second"));
    assert!(result.contains("Third"));
}

#[test]
fn test_render_markdown_checkbox_list() {
    let result = render("- [x] Done\n- [ ] Todo");
    assert!(result.contains("Done"));
    assert!(result.contains("Todo"));
}

#[test]
fn test_render_markdown_table() {
    let result = render("| Header 1 | Header 2 |\n|----------|----------|\n| Cell 1   | Cell 2   |");
    assert!(result.contains("Header 1"));
    assert!(result.contains("Header 2"));
    assert!(result.contains("Cell 1"));
    assert!(result.contains("Cell 2"));
}

#[test]
fn test_render_markdown_nested_list() {
    let result = render("- Item 1\n  - Nested 1\n  - Nested 2\n- Item 2");
    assert!(result.contains("Item 1"));
    assert!(result.contains("Nested 1"));
    assert!(result.contains("Nested 2"));
    assert!(result.contains("Item 2"));
}

#[test]
fn test_render_markdown_mixed_formatting() {
    let result = render("**Bold** and *italic* with `code`");
    assert!(result.contains("Bold"));
    assert!(result.contains("italic"));
    assert!(result.contains("code"));
}

#[test]
fn test_render_callout_blockquote_note() {
    let result = render("> [!NOTE] This is a note callout\n> Additional info");
    // The callout icon and name should be present
    assert!(result.contains("ℹ️"));
    assert!(result.contains("Note"));
    assert!(result.contains("This is a note callout"));
    assert!(result.contains("Additional info"));
    // Should have box drawing characters
    assert!(result.contains("┌─"));
    assert!(result.contains("└─"));
}

#[test]
fn test_render_callout_blockquote_tip() {
    let result = render("> [!TIP] This is a tip callout");
    assert!(result.contains("💡"));
    assert!(result.contains("Tip"));
    assert!(result.contains("This is a tip callout"));
    assert!(result.contains("┌─"));
    assert!(result.contains("└─"));
}

#[test]
fn test_render_callout_blockquote_important() {
    let result = render("> [!IMPORTANT] Important info");
    assert!(result.contains("❗"));
    assert!(result.contains("Important"));
    assert!(result.contains("Important info"));
    assert!(result.contains("┌─"));
    assert!(result.contains("└─"));
}

#[test]
fn test_render_callout_blockquote_warning() {
    let result = render("> [!WARNING] Warning info");
    assert!(result.contains("⚠️"));
    assert!(result.contains("Warning"));
    assert!(result.contains("Warning info"));
    assert!(result.contains("┌─"));
    assert!(result.contains("└─"));
}

#[test]
fn test_render_callout_blockquote_caution() {
    let result = render("> [!CAUTION] Caution info");
    assert!(result.contains("🔥"));
    assert!(result.contains("Caution"));
    assert!(result.contains("Caution info"));
    assert!(result.contains("┌─"));
    assert!(result.contains("└─"));
}

#[test]
fn test_render_callout_blockquote_case_insensitive() {
    let result = render("> [!note] lower case note\n\n> [!Tip] mixed case tip");
    assert!(result.contains("ℹ️"));
    assert!(result.contains("Note"));
    assert!(result.contains("lower case note"));
    assert!(result.contains("💡"));
    assert!(result.contains("Tip"));
    assert!(result.contains("mixed case tip"));
}

#[test]
fn test_render_markdown_html_block() {
    let result = render("<div>Hello HTML</div>");
    // Should contain the HTML content
    assert!(result.contains("Hello HTML"));
    // Should contain some syntax highlighting (colored output)
    assert!(result.contains("\x1b"));
}

#[test]
fn test_render_markdown_inline_html() {
    let result = render("Text <span>inline html</span> more text");
    assert!(result.contains("inline html"));
    assert!(result.contains("Text"));
    assert!(result.contains("more text"));
}

#[test]
fn test_render_markdown_image_with_alt() {
    let result = render("![Alt text](image.png)");
    assert!(result.contains("🖼️"));
    assert!(result.contains("Alt text"));
    assert!(result.contains("image.png"));
}

#[test]
fn test_render_markdown_image_without_alt() {
    let result = render("![](image.png)");
    assert!(result.contains("🖼️"));
    assert!(result.contains("image.png"));
}

#[test]
fn test_render_markdown_remote_image() {
    let result = render("![Remote](https://example.com/image.png)");
    assert!(result.contains("🖼️"));
    assert!(result.contains("Remote"));
    assert!(result.contains("https://example.com/image.png"));
}

#[test]
fn test_render_markdown_table_with_alignment() {
    let result = render(
        "\n| Left | Center | Right |\n|:-----|:------:|------:|\n| L1   | C1     | R1    |\n| L2   | C2     | R2    |\n",
    );
    assert!(result.contains("Left"));
    assert!(result.contains("Center"));
    assert!(result.contains("Right"));
    assert!(result.contains("L1"));
    assert!(result.contains("C1"));
    assert!(result.contains("R1"));
    assert!(result.contains("L2"));
    assert!(result.contains("C2"));
    assert!(result.contains("R2"));
    // Check for alignment markers in header border
    assert!(result.contains(":"));
}

#[test]
fn test_render_markdown_table_with_inline_formatting() {
    let result =
        render("\n| **Bold** | *Italic* | `Code` |\n|----------|----------|--------|\n| A        | B        | C      |\n");
    assert!(result.contains("Bold"));
    assert!(result.contains("Italic"));
    assert!(result.contains("Code"));
    assert!(result.contains("A"));
    assert!(result.contains("B"));
    assert!(result.contains("C"));
}

#[test]
fn test_render_markdown_table_with_links_and_images() {
    let result = render(
        "\n| Link | Image |\n|------|-------|\n| [Google](https://google.com) | ![Alt](img.png) |\n",
    );
    assert!(result.contains("Google"));
    assert!(result.contains("https://google.com"));
    assert!(result.contains("🖼️"));
    assert!(result.contains("Alt"));
    assert!(result.contains("img.png"));
}

#[test]
fn test_render_markdown_table_empty_cells() {
    let result = render("\n| A | B | C |\n|---|---|---|\n|   | 1 |   |\n| 2 |   | 3 |\n");
    assert!(result.contains("A"));
    assert!(result.contains("B"));
    assert!(result.contains("C"));
    assert!(result.contains("1"));
    assert!(result.contains("2"));
    assert!(result.contains("3"));
}

#[test]
fn test_render_markdown_table_with_multiple_rows_and_columns() {
    let result = render(
        "\n| Col1 | Col2 | Col3 | Col4 |\n|------|------|------|------|\n| A    | B    | C    | D    |\n| E    | F    | G    | H    |\n| I    | J    | K    | L    |\n",
    );
    for val in &[
        "Col1", "Col2", "Col3", "Col4", "A", "B", "C", "D", "E", "F", "G", "H", "I", "J", "K", "L",
    ] {
        assert!(result.contains(val));
    }
}

#[test]
fn test_render_markdown_table_with_rowspan_and_colspan_like_content() {
    // Markdown tables do not support rowspan/colspan, but test for cells with multiline content
    let result = render("\n| Header |\n|--------|\n| Line 1<br>Line 2 |\n");
    assert!(result.contains("Header"));
    assert!(result.contains("Line 1"));
    assert!(result.contains("Line 2"));
}

#[test]
fn test_needs_space_before() {
    // Test with actual parsed markdown to avoid manual construction
    let markdown: Markdown = "[link](url) **bold** *italic* `code` text".parse().unwrap();
    let doc = to_document(&markdown);

    // Extract nodes from parsed markdown
    if let Some(Node::Fragment { values }) = doc.nodes.first() {
        for node in values {
            match node {
                Node::Link { .. } => assert!(mqv::flatten::needs_space_before(node)),
                Node::Strong { .. } => assert!(mqv::flatten::needs_space_before(node)),
                Node::Emphasis { .. } => assert!(mqv::flatten::needs_space_before(node)),
                Node::CodeInline { .. } => assert!(mqv::flatten::needs_space_before(node)),
                Node::Text { .. } => assert!(!mqv::flatten::needs_space_before(node)),
                _ => {}
            }
        }
    }
}

#[test]
fn heading_banners_have_full_width_rules() {
    let result = render("# Heading 1\n## Heading 2\n");
    assert!(result.contains("Heading 1"));
    assert!(result.contains("Heading 2"));
    // depth 1: a double rule as wide as the text plus four, above and below
    let h1_rule: String = std::iter::repeat('═').take("Heading 1".chars().count() + 4).collect();
    assert_eq!(result.matches(&h1_rule).count(), 2);
    // depth 2: a single rule below, as wide as the text plus four
    let h2_rule: String = std::iter::repeat('─').take("Heading 2".chars().count() + 4).collect();
    assert!(result.contains(&h2_rule));
}

#[test]
fn checkbox_glyphs_precede_their_items() {
    let result = render("- [x] Done\n- [ ] Todo");
    assert!(result.contains("☑️ Done"));
    assert!(result.contains("☐ Todo"));
}

#[test]
fn table_columns_align_with_header() {
    let result = render("| H1 | H2 |\n|----|----|\n| A | B |\n| C | D |");
    assert!(result.contains("┌"));
    assert!(result.contains("┼"));
    assert!(result.contains("└"));
    let plain = strip_sgr(&result);
    let mut separator_columns: Option<Vec<usize>> = None;
    for line in plain.lines() {
        let cols: Vec<usize> = line
            .chars()
            .enumerate()
            .filter(|(_, c)| *c == '│')
            .map(|(i, _)| i)
            .collect();
        if cols.is_empty() {
            continue;
        }
        match &separator_columns {
            None => separator_columns = Some(cols),
            Some(first) => assert_eq!(first, &cols),
        }
    }
    assert!(separator_columns.is_some());
}

#[test]
fn links_emit_clickable_escape_sequence() {
    let result = render("[Google](https://google.com)");
    assert!(result.contains("https://google.com"));
    assert!(result.contains("\x1b]8;;https://google.com\x1b\\Google\x1b]8;;\x1b\\"));
}

#[test]
fn warning_callout_has_icon_name_body_and_borders() {
    let result = render("> [!WARNING] Be careful");
    assert!(result.contains("⚠️"));
    assert!(result.contains("Warning"));
    assert!(result.contains("Be careful"));
    assert!(result.contains("┌─"));
    assert!(result.contains("└─"));
}

#[test]
fn plain_paragraph_renders_exactly() {
    assert_eq!(render("Hello World"), "Hello World\n");
}

#[test]
fn horizontal_rule_renders_exactly() {
    let rule: String = std::iter::repeat('─').take(80).collect();
    assert_eq!(render("---"), format!("\x1b[90m{}\x1b[0m\n\n", rule));
}

#[test]
fn ordered_list_item_renders_exactly() {
    assert_eq!(render("1. First"), "\x1b[95m1.\x1b[0m First\n");
}

#[test]
fn nested_list_as_only_content_adds_no_blank_line() {
    let inner = Node::List {
        ordered: false,
        index: 0,
        checked: None,
        values: vec![Node::Text { value: "Inner".to_string() }],
    };
    let outer = Node::List { ordered: false, index: 0, checked: None, values: vec![inner] };
    let out = render_markdown_to_string(&Document { nodes: vec![outer] });
    assert_eq!(strip_sgr(&out), "●   ○ Inner\n\n");
}

#[test]
fn nested_list_after_content_starts_its_own_line() {
    let inner = Node::List {
        ordered: false,
        index: 0,
        checked: None,
        values: vec![Node::Text { value: "Inner".to_string() }],
    };
    let outer = Node::List {
        ordered: false,
        index: 0,
        checked: None,
        values: vec![Node::Text { value: "Item".to_string() }, inner],
    };
    let out = render_markdown_to_string(&Document { nodes: vec![outer] });
    assert_eq!(strip_sgr(&out), "● Item\n  ○ Inner\n\n");
}

#[test]
fn standalone_cell_in_quote_renders_degenerate_single_cell() {
    let cell = Node::TableCell {
        values: vec![Node::Text { value: "X".to_string() }],
        column: 0,
        row: 0,
        last_cell_in_row: true,
        last_cell_of_in_table: true,
    };
    let doc = Document { nodes: vec![Node::Blockquote { values: vec![cell] }] };
    let out = render_markdown_to_string(&doc);
    assert!(strip_sgr(&out).contains("│ X │"));
}

#[test]
fn single_cell_table_run_draws_borders() {
    let cell = Node::TableCell {
        values: vec![Node::Text { value: "X".to_string() }],
        column: 0,
        row: 0,
        last_cell_in_row: true,
        last_cell_of_in_table: true,
    };
    let out = render_markdown_to_string(&Document { nodes: vec![cell] });
    let plain = strip_sgr(&out);
    assert!(plain.contains("┌───┐"));
    assert!(plain.contains("│ X │"));
    assert!(plain.contains("└───┘"));
}
