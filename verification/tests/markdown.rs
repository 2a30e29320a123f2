use tonguetoquill_typst_writer::markdown_to_typst;

fn convert_markdown(input: &str) -> String {
    markdown_to_typst(input)
}

#[test]
fn test_simple_paragraph() {
    let input = "Hello world!";
    let output = convert_markdown(input);
    assert_eq!(output.trim(), "Hello world!");
}

#[test]
fn test_emphasis() {
    let input = "This is _italic_ text.";
    let output = convert_markdown(input);
    assert!(output.contains("_italic_"));
}

#[test]
fn test_strong() {
    let input = "This is **bold** text.";
    let output = convert_markdown(input);
    assert!(output.contains("*bold*"));
}

#[test]
fn test_link() {
    let input = "Check out [this link](https://example.com).";
    let output = convert_markdown(input);
    assert!(output.contains("#link(\"https://example.com\")[this link]"));
}

#[test]
fn test_simple_list() {
    let input = "- Item 1\n- Item 2\n- Item 3";
    let output = convert_markdown(input);
    assert!(output.contains("- Item 1"));
    assert!(output.contains("- Item 2"));
    assert!(output.contains("- Item 3"));
}

#[test]
fn test_nested_list() {
    let input = "- Item 1\n  - Nested item\n- Item 2";
    let output = convert_markdown(input);
    assert!(output.contains("- Item 1"));
    assert!(output.contains("  + Nested item"));
    assert!(output.contains("- Item 2"));
}

#[test]
fn test_escaping() {
    let input = "Text with *special* #characters and $math$.";
    let output = convert_markdown(input);
    // The asterisks around "special" should be handled as emphasis
    assert!(output.contains("\\#characters"));
    assert!(output.contains("\\$math\\$"));
}

#[test]
fn test_headings() {
    let input = "# Heading 1\n\n## Heading 2\n\n### Heading 3";
    let output = convert_markdown(input);
    assert!(output.contains("= Heading 1"));
    assert!(output.contains("== Heading 2"));
    assert!(output.contains("=== Heading 3"));
}

#[test]
fn test_strikethrough() {
    let input = "This text has ~~strikethrough~~ formatting.";
    let output = convert_markdown(input);
    assert!(output.contains("#strike[strikethrough]"));
}

#[test]
fn test_inline_code() {
    let input = "Use the `print()` function.";
    let output = convert_markdown(input);
    assert!(output.contains("#raw(\"print()\")"));
}

#[test]
fn test_code_escaping() {
    let input = r#"Use `"quotes"` and `\backslashes`."#;
    let output = convert_markdown(input);
    assert!(output.contains(r#"#raw("\"quotes\"")"#));
    assert!(output.contains(r#"#raw("\\backslashes")"#));
}
