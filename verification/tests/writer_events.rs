use tonguetoquill_typst_writer::escape::escape_typst_string;
use tonguetoquill_typst_writer::escape_typst;
use tonguetoquill_typst_writer::Event;
use tonguetoquill_typst_writer::TagEndKind;
use tonguetoquill_typst_writer::TagKind;
use tonguetoquill_typst_writer::TypstWriter;

fn run_events(events: Vec<Event>) -> String {
    TypstWriter::new(String::new()).run(&events)
}

#[test]
fn test_escape_each_special_character() {
    assert_eq!(escape_typst("\\"), "\\\\");
    assert_eq!(escape_typst("*"), "\\*");
    assert_eq!(escape_typst("_"), "\\_");
    assert_eq!(escape_typst("#"), "\\#");
    assert_eq!(escape_typst("<"), "\\<");
    assert_eq!(escape_typst(">"), "\\>");
    assert_eq!(escape_typst("@"), "\\@");
    assert_eq!(escape_typst("$"), "\\$");
    assert_eq!(escape_typst("`"), "\\`");
}

#[test]
fn test_escape_keeps_other_characters() {
    assert_eq!(escape_typst("plain text 123"), "plain text 123");
    assert_eq!(escape_typst("a*b_c"), "a\\*b\\_c");
    assert_eq!(escape_typst(""), "");
}

#[test]
fn test_escape_string_literal() {
    assert_eq!(escape_typst_string(r#"a"b"#), r#"a\"b"#);
    assert_eq!(escape_typst_string(r"a\b"), r"a\\b");
    assert_eq!(escape_typst_string("plain"), "plain");
}

#[test]
fn test_heading_levels_start_on_a_fresh_line() {
    for level in 1..=6u8 {
        let events = vec![
            Event::Text(String::from("before")),
            Event::Start(TagKind::Heading(level)),
            Event::Text(String::from("Title")),
            Event::End(TagEndKind::Heading),
        ];
        let output = run_events(events);
        let expected = format!("before\n{} Title\n\n", "=".repeat(level as usize));
        assert_eq!(output, expected);
    }
}

#[test]
fn test_item_prefix_by_depth() {
    // depth 1: no indent, bullet; depth 2: two spaces, numbered;
    // depth 3: four spaces, bullet again
    let events = vec![
        Event::Start(TagKind::List),
        Event::Start(TagKind::Item),
        Event::Text(String::from("a")),
        Event::Start(TagKind::List),
        Event::Start(TagKind::Item),
        Event::Text(String::from("b")),
        Event::Start(TagKind::List),
        Event::Start(TagKind::Item),
        Event::Text(String::from("c")),
        Event::End(TagEndKind::Item),
        Event::End(TagEndKind::List),
        Event::End(TagEndKind::Item),
        Event::End(TagEndKind::List),
        Event::End(TagEndKind::Item),
        Event::End(TagEndKind::List),
    ];
    let output = run_events(events);
    assert!(output.contains("- a"));
    assert!(output.contains("  + b"));
    assert!(output.contains("    - c"));
}

#[test]
fn test_list_close_newlines() {
    // Closing the inner list emits no newline of its own; closing the
    // outer one (depth reaches zero) emits exactly one.
    let inner_events = vec![
        Event::Start(TagKind::List),
        Event::Start(TagKind::Item),
        Event::Text(String::from("x")),
        Event::Start(TagKind::List),
        Event::End(TagEndKind::List),
    ];
    let nested = run_events(inner_events);
    assert_eq!(nested, "- x\n");
    let closed_events = vec![
        Event::Start(TagKind::List),
        Event::Start(TagKind::Item),
        Event::Text(String::from("x")),
        Event::End(TagEndKind::Item),
        Event::End(TagEndKind::List),
    ];
    let closed = run_events(closed_events);
    assert_eq!(closed, "- x\n\n");
}

#[test]
fn test_paragraphs_separated_by_one_blank_line() {
    let events = vec![
        Event::Start(TagKind::Paragraph),
        Event::Text(String::from("first")),
        Event::End(TagEndKind::Paragraph),
        Event::Start(TagKind::Paragraph),
        Event::Text(String::from("second")),
        Event::End(TagEndKind::Paragraph),
    ];
    let output = run_events(events);
    assert_eq!(output, "first\n\nsecond\n\n");
}

#[test]
fn test_inline_markup_events() {
    let events = vec![
        Event::Start(TagKind::Emphasis),
        Event::Text(String::from("i")),
        Event::End(TagEndKind::Emphasis),
        Event::Start(TagKind::Strong),
        Event::Text(String::from("b")),
        Event::End(TagEndKind::Strong),
        Event::Start(TagKind::Strikethrough),
        Event::Text(String::from("s")),
        Event::End(TagEndKind::Strikethrough),
        Event::SoftBreak,
        Event::HardBreak,
        Event::Code(String::from("f()")),
        Event::Other,
    ];
    let output = run_events(events);
    assert_eq!(output, "_i_*b*#strike[s] \\\n#raw(\"f()\")");
}

#[test]
fn test_link_event_escapes_url() {
    let events = vec![
        Event::Start(TagKind::Link(String::from("https://e.com/\"q\""))),
        Event::Text(String::from("t")),
        Event::End(TagEndKind::Link),
    ];
    let output = run_events(events);
    assert_eq!(output, "#link(\"https://e.com/\\\"q\\\"\")[t]");
}

#[test]
fn test_write_tracks_newlines() {
    let mut w = TypstWriter::new(String::new());
    w.write("abc");
    w.ensure_newline();
    w.ensure_newline();
    w.write("d\n");
    w.ensure_newline();
    assert_eq!(w.writer, "abc\nd\n");
}

#[test]
fn test_write_text_escapes() {
    let mut w = TypstWriter::new(String::from("pre:"));
    w.write_text("a#b");
    w.write_escaped_url("x\"y");
    assert_eq!(w.writer, "pre:a\\#bx\\\"y");
}

#[test]
fn test_unknown_tags_are_ignored() {
    let events = vec![
        Event::Start(TagKind::Other),
        Event::Text(String::from("kept")),
        Event::End(TagEndKind::Other),
    ];
    let output = run_events(events);
    assert_eq!(output, "kept");
}
