use vstd::prelude::*;

verus! {

/// A structural marker opening a span of document content.
///
/// Only the constructs the writer renders are distinguished; every other
/// construct a parser may produce is collapsed into `Other`, which the
/// writer silently ignores.
pub enum TagKind {
    Paragraph,
    /// A heading with its level (1 to 6 as parsers produce them).
    Heading(u8),
    List,
    /// One item of the innermost open list.
    Item,
    Emphasis,
    Strong,
    Strikethrough,
    /// A link with its destination URL.
    Link(String),
    Other,
}

/// The closing counterpart of a [`TagKind`].
pub enum TagEndKind {
    Paragraph,
    Heading,
    List,
    Item,
    Emphasis,
    Strong,
    Strikethrough,
    Link,
    Other,
}

/// One unit of parsed document structure.
pub enum Event {
    Start(TagKind),
    End(TagEndKind),
    /// A run of literal text.
    Text(String),
    /// An inline code span.
    Code(String),
    SoftBreak,
    HardBreak,
    /// Any event kind the writer does not render.
    Other,
}

} // verus!
