use vstd::prelude::*;
use crate::emit::typst_output;
use crate::events::Event;
use crate::writer::TypstWriter;

verus! {

#[verifier::external_type_specification]
#[verifier::external_body]
pub struct ExTag<'a>(pulldown_cmark::Tag<'a>);

#[verifier::external_type_specification]
#[verifier::external_body]
pub struct ExTagEnd(pulldown_cmark::TagEnd);

/// The event sequence the Markdown parser produces for a given input, with
/// the strikethrough extension enabled, rendered in this library's event
/// type. Parsing is deterministic: the events are a function of the input
/// text alone.
pub uninterp spec fn parsed_events(s: Seq<char>) -> Seq<Event>;

/// Relies on pulldown_cmark::Tag: each variant the writer renders is moved
/// to the library's tag of the same name, carrying the heading level and
/// the link destination; every other variant becomes TagKind::Other.
#[verifier::external_body]
fn tag_of(tag: pulldown_cmark::Tag<'_>) -> crate::events::TagKind {
    match tag {
        pulldown_cmark::Tag::Paragraph => crate::events::TagKind::Paragraph,
        pulldown_cmark::Tag::Heading { level, .. } => crate::events::TagKind::Heading(level as u8),
        pulldown_cmark::Tag::List(_) => crate::events::TagKind::List,
        pulldown_cmark::Tag::Item => crate::events::TagKind::Item,
        pulldown_cmark::Tag::Emphasis => crate::events::TagKind::Emphasis,
        pulldown_cmark::Tag::Strong => crate::events::TagKind::Strong,
        pulldown_cmark::Tag::Strikethrough => crate::events::TagKind::Strikethrough,
        pulldown_cmark::Tag::Link { dest_url, .. } => crate::events::TagKind::Link(dest_url.into_string()),
        _ => crate::events::TagKind::Other,
    }
}

/// Relies on pulldown_cmark::TagEnd: each variant the writer renders is
/// moved to the library's tag end of the same name; every other variant
/// becomes TagEndKind::Other.
#[verifier::external_body]
fn tag_end_of(tag_end: pulldown_cmark::TagEnd) -> crate::events::TagEndKind {
    match tag_end {
        pulldown_cmark::TagEnd::Paragraph => crate::events::TagEndKind::Paragraph,
        pulldown_cmark::TagEnd::Heading(_) => crate::events::TagEndKind::Heading,
        pulldown_cmark::TagEnd::List(_) => crate::events::TagEndKind::List,
        pulldown_cmark::TagEnd::Item => crate::events::TagEndKind::Item,
        pulldown_cmark::TagEnd::Emphasis => crate::events::TagEndKind::Emphasis,
        pulldown_cmark::TagEnd::Strong => crate::events::TagEndKind::Strong,
        pulldown_cmark::TagEnd::Strikethrough => crate::events::TagEndKind::Strikethrough,
        pulldown_cmark::TagEnd::Link => crate::events::TagEndKind::Link,
        _ => crate::events::TagEndKind::Other,
    }
}

/// Relies on pulldown_cmark::Parser::new_ext: parsing is a pure, total
/// function of the input text and the options, here with
/// ENABLE_STRIKETHROUGH set; the events come back in document order and
/// are moved one for one into the library's event type (text and inline
/// code payloads by CowStr::into_string, tags by tag_of and tag_end_of).
#[verifier::external_body]
fn parse_markdown(input: &str) -> (r: Vec<Event>)
    ensures
        r@ == parsed_events(input@),
{
    let opts = pulldown_cmark::Options::ENABLE_STRIKETHROUGH;
    let mut out = Vec::new();
    for ev in pulldown_cmark::Parser::new_ext(input, opts) {
        out.push(match ev {
            pulldown_cmark::Event::Start(t) => Event::Start(tag_of(t)),
            pulldown_cmark::Event::End(t) => Event::End(tag_end_of(t)),
            pulldown_cmark::Event::Text(s) => Event::Text(s.into_string()),
            pulldown_cmark::Event::Code(s) => Event::Code(s.into_string()),
            pulldown_cmark::Event::SoftBreak => Event::SoftBreak,
            pulldown_cmark::Event::HardBreak => Event::HardBreak,
            _ => Event::Other,
        });
    }
    out
}

/// Convert a Markdown string to Typst markup: parse it (with strikethrough
/// enabled) and feed the events through a fresh TypstWriter.
pub fn markdown_to_typst(markdown: &str) -> (r: String)
    ensures
        r@ == typst_output(parsed_events(markdown@)),
{
    let events = parse_markdown(markdown);
    proof {
        vstd::std_specs::vec::axiom_spec_len(&events);
    }
    let writer = TypstWriter::new(String::new());
    let out = writer.run(&events);
    proof {
        assert(Seq::<char>::empty() + typst_output(parsed_events(markdown@)) =~= typst_output(
            parsed_events(markdown@),
        ));
    }
    out
}

} // verus!
