use mqv::callout::{detect_callout, CalloutKind};
use mqv::flatten::{make_clickable_link, render_inline_content};
use mqv::node::Node;
use mqv::widths::calculate_column_widths;

#[test]
fn test_detect_callout_note() {
    assert!(detect_callout("[!NOTE] Test").is_some());
}

#[test]
fn test_detect_callout_tip() {
    assert!(detect_callout("[!TIP] Test").is_some());
}

#[test]
fn test_detect_callout_important() {
    assert!(detect_callout("[!IMPORTANT] Test").is_some());
}

#[test]
fn test_detect_callout_warning() {
    assert!(detect_callout("[!WARNING] Test").is_some());
}

#[test]
fn test_detect_callout_caution() {
    assert!(detect_callout("[!CAUTION] Test").is_some());
}

#[test]
fn test_detect_callout_case_insensitive() {
    assert!(detect_callout("[!note] Test").is_some());
    assert!(detect_callout("[!Note] Test").is_some());
}

#[test]
fn test_detect_callout_none() {
    assert!(detect_callout("Regular text").is_none());
    assert!(detect_callout("[NOTE] No exclamation").is_none());
}

#[test]
fn detect_callout_rejects_unknown_bracketed_tags() {
    assert!(detect_callout("[!DANGER] Test").is_none());
    assert!(detect_callout("[!NOTES] Test").is_none());
    assert!(detect_callout("[!] Test").is_none());
    assert!(detect_callout("[!NOTE Test").is_none());
}

#[test]
fn detect_callout_each_kind() {
    assert_eq!(detect_callout("[!note] x"), Some(CalloutKind::Note));
    assert_eq!(detect_callout("[!tIp] x"), Some(CalloutKind::Tip));
    assert_eq!(detect_callout("  [!important] x"), Some(CalloutKind::Important));
    assert_eq!(detect_callout("[!Warning] x"), Some(CalloutKind::Warning));
    assert_eq!(detect_callout("[!CAUTION]"), Some(CalloutKind::Caution));
}

#[test]
fn test_make_clickable_link() {
    let link = make_clickable_link("https://example.com", "Example");
    assert!(link.contains("https://example.com"));
    assert!(link.contains("Example"));
}

#[test]
fn clickable_link_is_bit_exact() {
    let link = make_clickable_link("https://example.com", "Example");
    assert_eq!(link, "\x1b]8;;https://example.com\x1b\\Example\x1b]8;;\x1b\\");
}

#[test]
fn test_render_inline_content_text() {
    let nodes = vec![Node::Text { value: "Hello".to_string() }];
    let result = render_inline_content(&nodes);
    assert_eq!(result, "Hello");
}

#[test]
fn test_render_inline_content_inline_code() {
    let nodes = vec![Node::CodeInline { value: "code".to_string() }];
    let result = render_inline_content(&nodes);
    assert_eq!(result, "`code`");
}

#[test]
fn test_render_inline_content_strong() {
    let nodes = vec![Node::Strong {
        values: vec![Node::Text { value: "bold".to_string() }],
    }];
    let result = render_inline_content(&nodes);
    assert_eq!(result, "bold");
}

#[test]
fn test_render_inline_content_emphasis() {
    let nodes = vec![Node::Emphasis {
        values: vec![Node::Text { value: "italic".to_string() }],
    }];
    let result = render_inline_content(&nodes);
    assert_eq!(result, "italic");
}

#[test]
fn flattening_separates_adjacent_styled_tokens() {
    let nodes = vec![
        Node::Strong { values: vec![Node::Text { value: "a".to_string() }] },
        Node::Emphasis { values: vec![Node::Text { value: "b".to_string() }] },
        Node::CodeInline { value: "c".to_string() },
    ];
    let result = render_inline_content(&nodes);
    assert_eq!(result, "a b `c`");
}

#[test]
fn flattening_never_starts_with_inserted_space() {
    let nodes = vec![Node::CodeInline { value: "c".to_string() }];
    assert_eq!(render_inline_content(&nodes), "`c`");
    let nodes = vec![Node::Strong { values: vec![Node::Text { value: "x".to_string() }] }];
    assert_eq!(render_inline_content(&nodes), "x");
}

#[test]
fn flattening_keeps_existing_trailing_space() {
    let nodes = vec![
        Node::Text { value: "lead ".to_string() },
        Node::CodeInline { value: "c".to_string() },
    ];
    assert_eq!(render_inline_content(&nodes), "lead `c`");
}

#[test]
fn test_calculate_column_widths() {
    let nodes = vec![
        Node::TableCell {
            values: vec![Node::Text { value: "Short".to_string() }],
            column: 0,
            row: 0,
            last_cell_in_row: false,
            last_cell_of_in_table: false,
        },
        Node::TableCell {
            values: vec![Node::Text { value: "Very Long Text".to_string() }],
            column: 1,
            row: 0,
            last_cell_in_row: true,
            last_cell_of_in_table: true,
        },
    ];
    let widths = calculate_column_widths(&nodes);
    assert_eq!(widths[0], 5); // "Short"
    assert_eq!(widths[1], 14); // "Very Long Text"
}

#[test]
fn column_width_is_max_over_flat_and_wrapped_cells() {
    let cell = |text: &str, column: usize| Node::TableCell {
        values: vec![Node::Text { value: text.to_string() }],
        column,
        row: 0,
        last_cell_in_row: false,
        last_cell_of_in_table: false,
    };
    let nodes = vec![
        cell("ab", 0),
        Node::TableRow { values: vec![cell("wider", 9), cell("x", 1)] },
        cell("abcd", 1),
    ];
    let widths = calculate_column_widths(&nodes);
    // the row's first child sits at position 0 whatever its column field says
    assert_eq!(widths[0], 5); // max("ab", "wider")
    assert_eq!(widths[1], 4); // max("x", "abcd")
    assert_eq!(widths.len(), 2);
}

#[test]
fn column_width_counts_codepoints_not_bytes() {
    let nodes = vec![Node::TableCell {
        values: vec![Node::Text { value: "héllo".to_string() }],
        column: 0,
        row: 0,
        last_cell_in_row: true,
        last_cell_of_in_table: true,
    }];
    let widths = calculate_column_widths(&nodes);
    assert_eq!(widths[0], 5);
}
