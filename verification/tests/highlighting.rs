use mqv::highlight::SyntaxHighlighter;

#[test]
fn test_highlighting_empty_code() {
    let mut highlighter = SyntaxHighlighter::new();
    let result = highlighter.highlight("", Some("rust"));
    assert_eq!(result, "");
}

#[test]
fn test_highlighting_with_invalid_code() {
    let mut highlighter = SyntaxHighlighter::new();
    // Intentionally malformed code for rust
    let code = "fn {";
    let result = highlighter.highlight(code, Some("rust"));
    // Should not panic, may or may not contain ANSI codes
    assert!(!result.is_empty());
}

#[test]
fn highlighting_supported_languages_emits_color_codes() {
    let cases: &[(&str, &str)] = &[
        ("rust", r#"fn main() { println!("Hello, world!"); }"#),
        ("python", r#"def main(): print("Hello, world!")"#),
        ("javascript", r#"function main() { console.log('Hello, world!'); }"#),
        ("typescript", r#"function main(): void { console.log('Hello, world!'); }"#),
        ("tsx", r#"function main(): void { console.log('Hello, world!'); }"#),
        ("go", r#"func main() { fmt.Println("Hello, world!") }"#),
        ("html", r#"<h1>Hello</h1>"#),
        ("css", r#"body { color: red; }"#),
        ("json", r#"{ "hello": "world" }"#),
        ("bash", r#"echo 'Hello, world!'"#),
        ("c", r#"int main() { printf("Hello, world!"); }"#),
        ("cpp", r#"class Foo { public: int x; };"#),
        (
            "java",
            r#"public class Main { public static void main(String[] args) { System.out.println("Hello, world!"); } }"#,
        ),
        ("haskell", r#"main = putStrLn "Hello, world!""#),
        ("elm", r#"main = text "Hello, world!""#),
        ("mq", r#"fn(): "Hello, world!""#),
    ];
    for (lang, code) in cases {
        let mut highlighter = SyntaxHighlighter::new();
        let result = highlighter.highlight(code, Some(lang));
        assert!(
            result.contains("\x1b["),
            "expected ANSI escape codes for language: {}",
            lang
        );
    }
}

#[test]
fn highlighting_tags_match_case_insensitively() {
    let mut highlighter = SyntaxHighlighter::new();
    let code = r#"fn main() { println!("Hello"); }"#;
    let lower = highlighter.highlight(code, Some("rust"));
    let upper = highlighter.highlight(code, Some("RUST"));
    let short = highlighter.highlight(code, Some("Rs"));
    assert_eq!(lower, upper);
    assert_eq!(lower, short);
    assert!(lower.contains("\x1b["));
}

#[test]
fn highlighting_unsupported_language_returns_input_exactly() {
    let mut highlighter = SyntaxHighlighter::new();
    for (lang, code) in &[("unknown", "some code"), ("unsupported", "another code")] {
        let result = highlighter.highlight(code, Some(lang));
        assert_eq!(
            &result, code,
            "should return original code for unsupported language: {}",
            lang
        );
    }
}

#[test]
fn highlighting_without_language_returns_input_exactly() {
    let mut highlighter = SyntaxHighlighter::new();
    let code = "plain text body";
    assert_eq!(highlighter.highlight(code, None), code);
}

#[test]
fn highlighting_keeps_all_characters_in_order() {
    let mut highlighter = SyntaxHighlighter::new();
    let code = "fn main() { let x = 1 + 2; }";
    let result = highlighter.highlight(code, Some("rust"));
    // Removing the color escapes recovers the code exactly.
    let mut plain = String::new();
    let mut chars = result.chars().peekable();
    while let Some(c) = chars.next() {
        if c == '\u{1b}' && chars.peek() == Some(&'[') {
            chars.next();
            for d in chars.by_ref() {
                if d == 'm' {
                    break;
                }
            }
        } else {
            plain.push(c);
        }
    }
    assert_eq!(plain, code);
}
