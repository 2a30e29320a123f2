//! A minimal Typst writer: converts a stream of parsed Markdown events
//! (headings, paragraphs, nested lists, emphasis, strong, strikethrough,
//! links, inline code, line breaks, plain text) into Typst markup, with
//! character-level escaping so literal text cannot be read as Typst syntax.

pub mod emit;
pub mod escape;
pub mod events;
pub mod laws;
pub mod parse;
pub mod strings;
pub mod writer;

pub use escape::escape_typst;
pub use events::Event;
pub use events::TagKind;
pub use events::TagEndKind;
pub use parse::markdown_to_typst;
pub use writer::TypstWriter;
