use vstd::prelude::*;
use vstd::string::StringExecFns;
use crate::emit::end_tag_output;
use crate::emit::event_next;
use crate::emit::event_output;
use crate::emit::init_state;
use crate::emit::item_indent;
use crate::emit::item_marker;
use crate::emit::lemma_newline_after_concat;
use crate::emit::lemma_run_snoc;
use crate::emit::newline_after;
use crate::emit::newline_unless;
use crate::emit::run_output;
use crate::emit::run_state;
use crate::emit::start_tag_output;
use crate::emit::WriterState;
use crate::escape::escape_typst;
use crate::escape::escape_typst_string;
use crate::escape::escaped_string;
use crate::escape::escaped_text;
use crate::events::Event;
use crate::events::TagKind;
use crate::events::TagEndKind;
use crate::strings::char_repeat;
use crate::strings::ends_with_newline;
use crate::strings::repeat_char;

verus! {

/// A writer that renders document events as Typst markup into an owned
/// string sink.
pub struct TypstWriter {
    /// The accumulated output.
    pub writer: String,
    /// Whether the last write ended with a newline.
    pub end_newline: bool,
    /// Current list nesting level.
    pub list_level: usize,
}

impl TypstWriter {
    /// The run-scoped state this writer is in.
    pub open spec fn state(self) -> WriterState {
        WriterState { end_newline: self.end_newline, list_level: self.list_level as nat }
    }

    /// Create a new TypstWriter appending to the given sink.
    pub fn new(writer: String) -> (r: Self)
        ensures
            r.writer == writer,
            r.state() == init_state(),
    {
        TypstWriter { writer, end_newline: true, list_level: 0 }
    }

    /// Write a string to the output, tracking newlines.
    pub fn write(&mut self, s: &str)
        ensures
            final(self).writer@ == old(self).writer@ + s@,
            final(self).end_newline == newline_after(old(self).end_newline, s@),
            final(self).list_level == old(self).list_level,
    {
        self.writer.append(s);
        if !s.is_empty() {
            self.end_newline = ends_with_newline(s);
        }
    }

    /// Write a newline if the last output didn't end with one.
    pub fn ensure_newline(&mut self)
        ensures
            final(self).writer@ == old(self).writer@ + newline_unless(old(self).end_newline),
            final(self).end_newline == true,
            final(self).list_level == old(self).list_level,
    {
        proof {
            reveal_strlit("\n");
        }
        if !self.end_newline {
            self.write("\n");
            proof {
                assert("\n"@ =~= seq!['\n']);
            }
        } else {
            proof {
                assert(old(self).writer@ + newline_unless(old(self).end_newline) =~= old(
                    self,
                ).writer@);
            }
        }
    }

    /// Write text, escaping special Typst characters.
    pub fn write_text(&mut self, text: &str)
        ensures
            final(self).writer@ == old(self).writer@ + escaped_text(text@),
            final(self).end_newline == newline_after(old(self).end_newline, escaped_text(text@)),
            final(self).list_level == old(self).list_level,
    {
        let escaped = escape_typst(text);
        self.write(escaped.as_str());
    }

    /// Write a URL, escaped for a Typst string literal.
    pub fn write_escaped_url(&mut self, url: &str)
        ensures
            final(self).writer@ == old(self).writer@ + escaped_string(url@),
            final(self).end_newline == newline_after(old(self).end_newline, escaped_string(url@)),
            final(self).list_level == old(self).list_level,
    {
        let escaped = escape_typst_string(url);
        self.write(escaped.as_str());
    }

    /// Write the indent of a list item: two spaces for each enclosing list
    /// beyond the innermost one.
    fn write_indent(&mut self)
        ensures
            final(self).writer@ == old(self).writer@ + item_indent(old(self).state().list_level),
            final(self).end_newline == newline_after(
                old(self).end_newline,
                item_indent(old(self).state().list_level),
            ),
            final(self).list_level == old(self).list_level,
    {
        let k: usize = self.list_level.saturating_sub(1);
        let mut indent = String::new();
        let mut j: usize = 0;
        while j < k
            invariant
                j <= k,
                indent@ == char_repeat(' ', (2 * j) as nat),
            decreases k - j,
        {
            indent.push(' ');
            indent.push(' ');
            proof {
                assert(char_repeat(' ', (2 * j) as nat).push(' ').push(' ') =~= char_repeat(
                    ' ',
                    (2 * (j + 1)) as nat,
                ));
            }
            j = j + 1;
        }
        proof {
            assert(char_repeat(' ', (2 * k) as nat) =~= item_indent(old(self).state().list_level));
        }
        self.write(indent.as_str());
    }

    /// Handle the start of a tag.
    fn start_tag(&mut self, tag: &TagKind)
        requires
            old(self).list_level < usize::MAX,
        ensures
            final(self).writer@ == old(self).writer@ + start_tag_output(*tag, old(self).state()),
            final(self).state() == event_next(Event::Start(*tag), old(self).state()),
    {
        match tag {
            TagKind::Paragraph => {
                self.ensure_newline();
            },
            TagKind::Heading(level) => {
                self.ensure_newline();
                let marker = repeat_char('=', *level as usize);
                self.write(marker.as_str());
                self.write(" ");
                proof {
                    reveal_strlit(" ");
                    let st = old(self).state();
                    let out = start_tag_output(*tag, st);
                    assert(out =~= newline_unless(st.end_newline) + char_repeat(
                        '=',
                        *level as nat,
                    ) + " "@);
                    assert(self.writer@ =~= old(self).writer@ + out);
                    lemma_newline_after_concat(
                        st.end_newline,
                        newline_unless(st.end_newline) + char_repeat('=', *level as nat),
                        " "@,
                    );
                    lemma_newline_after_concat(
                        st.end_newline,
                        newline_unless(st.end_newline),
                        char_repeat('=', *level as nat),
                    );
                }
            },
            TagKind::List => {
                self.ensure_newline();
                self.list_level = self.list_level + 1;
            },
            TagKind::Item => {
                self.write_indent();
                if self.list_level % 2 == 1 {
                    self.write("- ");
                } else {
                    self.write("+ ");
                }
                proof {
                    reveal_strlit("- ");
                    reveal_strlit("+ ");
                    let st = old(self).state();
                    assert(self.writer@ =~= old(self).writer@ + start_tag_output(*tag, st));
                    lemma_newline_after_concat(
                        st.end_newline,
                        item_indent(st.list_level),
                        item_marker(st.list_level),
                    );
                }
            },
            TagKind::Emphasis => {
                self.write("_");
            },
            TagKind::Strong => {
                self.write("*");
            },
            TagKind::Strikethrough => {
                self.write("#strike[");
            },
            TagKind::Link(url) => {
                self.write("#link(\"");
                self.write_escaped_url(url.as_str());
                self.write("\")[");
                proof {
                    reveal_strlit("\")[");
                    let st = old(self).state();
                    assert(self.writer@ =~= old(self).writer@ + start_tag_output(*tag, st));
                    lemma_newline_after_concat(
                        st.end_newline,
                        "#link(\""@ + escaped_string(url@),
                        "\")["@,
                    );
                    lemma_newline_after_concat(st.end_newline, "#link(\""@, escaped_string(url@));
                }
            },
            TagKind::Other => {
                proof {
                    assert(old(self).writer@ + start_tag_output(*tag, old(self).state()) =~= old(
                        self,
                    ).writer@);
                }
            },
        }
    }

    /// Handle the end of a tag.
    fn end_tag(&mut self, tag_end: &TagEndKind)
        ensures
            final(self).writer@ == old(self).writer@ + end_tag_output(
                *tag_end,
                old(self).state(),
            ),
            final(self).state() == event_next(Event::End(*tag_end), old(self).state()),
    {
        match tag_end {
            TagEndKind::Paragraph => {
                self.write("\n\n");
            },
            TagEndKind::Heading => {
                self.write("\n\n");
            },
            TagEndKind::List => {
                self.list_level = self.list_level.saturating_sub(1);
                if self.list_level == 0 {
                    self.write("\n");
                } else {
                    proof {
                        assert(old(self).writer@ + end_tag_output(*tag_end, old(self).state())
                            =~= old(self).writer@);
                    }
                }
            },
            TagEndKind::Item => {
                self.write("\n");
            },
            TagEndKind::Emphasis => {
                self.write("_");
            },
            TagEndKind::Strong => {
                self.write("*");
            },
            TagEndKind::Strikethrough => {
                self.write("]");
            },
            TagEndKind::Link => {
                self.write("]");
            },
            TagEndKind::Other => {
                proof {
                    assert(old(self).writer@ + end_tag_output(*tag_end, old(self).state()) =~= old(
                        self,
                    ).writer@);
                }
            },
        }
    }

    /// Process a single event.
    fn process_event(&mut self, event: &Event)
        requires
            old(self).list_level < usize::MAX,
        ensures
            final(self).writer@ == old(self).writer@ + event_output(*event, old(self).state()),
            final(self).state() == event_next(*event, old(self).state()),
    {
        match event {
            Event::Start(tag) => {
                self.start_tag(tag);
            },
            Event::End(tag_end) => {
                self.end_tag(tag_end);
            },
            Event::Text(text) => {
                self.write_text(text.as_str());
            },
            Event::SoftBreak => {
                self.write(" ");
            },
            Event::HardBreak => {
                self.write("\\\n");
            },
            Event::Code(code) => {
                self.write("#raw(\"");
                let escaped = escape_typst_string(code.as_str());
                self.write(escaped.as_str());
                self.write("\")");
                proof {
                    reveal_strlit("\")");
                    let st = old(self).state();
                    assert(self.writer@ =~= old(self).writer@ + event_output(*event, st));
                    lemma_newline_after_concat(
                        st.end_newline,
                        "#raw(\""@ + escaped_string(code@),
                        "\")"@,
                    );
                    lemma_newline_after_concat(st.end_newline, "#raw(\""@, escaped_string(code@));
                }
            },
            Event::Other => {
                proof {
                    assert(old(self).writer@ + event_output(*event, old(self).state()) =~= old(
                        self,
                    ).writer@);
                }
            },
        }
    }

    /// Feed every event, in order, through the writer and hand back the
    /// accumulated output.
    pub fn run(self, events: &Vec<Event>) -> (r: String)
        requires
            self.list_level + events@.len() <= usize::MAX,
        ensures
            r@ == self.writer@ + run_output(events@, self.state()),
    {
        let ghost init_writer: Seq<char> = self.writer@;
        let ghost st0: WriterState = self.state();
        let ghost lvl0: nat = self.list_level as nat;
        let mut w = self;
        let mut i: usize = 0;
        while i < events.len()
            invariant
                i <= events@.len(),
                lvl0 + events@.len() <= usize::MAX,
                lvl0 == st0.list_level,
                w.writer@ == init_writer + run_output(events@.take(i as int), st0),
                w.state() == run_state(events@.take(i as int), st0),
                w.list_level <= lvl0 + i,
            decreases events@.len() - i,
        {
            proof {
                assert(events@.take(i as int).push(events@[i as int]) =~= events@.take(i + 1));
                lemma_run_snoc(events@.take(i as int), events@[i as int], st0);
            }
            w.process_event(&events[i]);
            i = i + 1;
        }
        proof {
            assert(events@.take(events@.len() as int) =~= events@);
        }
        w.writer
    }
}

} // verus!
