use vstd::prelude::*;
use crate::escape::escaped_string;
use crate::escape::escaped_text;
use crate::events::Event;
use crate::events::TagKind;
use crate::events::TagEndKind;
use crate::strings::char_repeat;

verus! {

/// The writer's run-scoped state: whether everything emitted so far ends
/// with a newline (true at the start, so no spurious leading newline), and
/// how many list contexts are currently open.
pub struct WriterState {
    pub end_newline: bool,
    pub list_level: nat,
}

/// The state a translation run starts from.
pub open spec fn init_state() -> WriterState {
    WriterState { end_newline: true, list_level: 0 }
}

/// What "ensure newline" emits: one newline, unless the output already
/// ends with one.
pub open spec fn newline_unless(end_newline: bool) -> Seq<char> {
    if end_newline {
        Seq::empty()
    } else {
        seq!['\n']
    }
}

/// The indent of a list item: two spaces per enclosing list beyond the
/// innermost one.
pub open spec fn item_indent(level: nat) -> Seq<char> {
    if level == 0 {
        Seq::empty()
    } else {
        char_repeat(' ', (2 * (level - 1)) as nat)
    }
}

/// The marker of a list item: a bullet at odd nesting levels, a numbered
/// marker at even ones. The choice goes by nesting parity alone; the
/// ordered/unordered kind of the source list is deliberately not consulted.
pub open spec fn item_marker(level: nat) -> Seq<char> {
    if level % 2 == 1 {
        "- "@
    } else {
        "+ "@
    }
}

/// What the writer emits at the start of a tag, given its current state.
pub open spec fn start_tag_output(tag: TagKind, st: WriterState) -> Seq<char> {
    match tag {
        TagKind::Paragraph => newline_unless(st.end_newline),
        TagKind::Heading(level) => newline_unless(st.end_newline) + char_repeat('=', level as nat)
            + " "@,
        TagKind::List => newline_unless(st.end_newline),
        TagKind::Item => item_indent(st.list_level) + item_marker(st.list_level),
        TagKind::Emphasis => "_"@,
        TagKind::Strong => "*"@,
        TagKind::Strikethrough => "#strike["@,
        TagKind::Link(url) => "#link(\""@ + escaped_string(url@) + "\")["@,
        TagKind::Other => Seq::empty(),
    }
}

/// What the writer emits at the end of a tag, given its current state.
/// Closing the outermost list (or an unmatched list end) emits one trailing
/// newline; closing a list that stays nested emits none.
pub open spec fn end_tag_output(tag: TagEndKind, st: WriterState) -> Seq<char> {
    match tag {
        TagEndKind::Paragraph => "\n\n"@,
        TagEndKind::Heading => "\n\n"@,
        TagEndKind::List => if st.list_level <= 1 {
            "\n"@
        } else {
            Seq::empty()
        },
        TagEndKind::Item => "\n"@,
        TagEndKind::Emphasis => "_"@,
        TagEndKind::Strong => "*"@,
        TagEndKind::Strikethrough => "]"@,
        TagEndKind::Link => "]"@,
        TagEndKind::Other => Seq::empty(),
    }
}

/// What the writer emits for one event, given its current state.
pub open spec fn event_output(ev: Event, st: WriterState) -> Seq<char> {
    match ev {
        Event::Start(tag) => start_tag_output(tag, st),
        Event::End(tag) => end_tag_output(tag, st),
        Event::Text(s) => escaped_text(s@),
        Event::Code(s) => "#raw(\""@ + escaped_string(s@) + "\")"@,
        Event::SoftBreak => " "@,
        Event::HardBreak => "\\\n"@,
        Event::Other => Seq::empty(),
    }
}

/// The list nesting level after one event: a list start opens a context,
/// a list end closes one (floored at zero), everything else keeps it.
pub open spec fn next_level(ev: Event, level: nat) -> nat {
    match ev {
        Event::Start(TagKind::List) => level + 1,
        Event::End(TagEndKind::List) => if level == 0 {
            0
        } else {
            (level - 1) as nat
        },
        _ => level,
    }
}

/// The newline flag after emitting `out`: unchanged if nothing was
/// emitted, else exactly whether the emitted text ends with a newline.
pub open spec fn newline_after(prev: bool, out: Seq<char>) -> bool {
    if out.len() == 0 {
        prev
    } else {
        out.last() == '\n'
    }
}

/// The writer's state after one event.
pub open spec fn event_next(ev: Event, st: WriterState) -> WriterState {
    WriterState {
        end_newline: newline_after(st.end_newline, event_output(ev, st)),
        list_level: next_level(ev, st.list_level),
    }
}

/// Everything the writer emits for an event sequence, from a given state.
pub open spec fn run_output(evs: Seq<Event>, st: WriterState) -> Seq<char>
    decreases evs.len(),
{
    if evs.len() == 0 {
        Seq::empty()
    } else {
        event_output(evs[0], st) + run_output(evs.drop_first(), event_next(evs[0], st))
    }
}

/// The writer's state after an event sequence.
pub open spec fn run_state(evs: Seq<Event>, st: WriterState) -> WriterState
    decreases evs.len(),
{
    if evs.len() == 0 {
        st
    } else {
        run_state(evs.drop_first(), event_next(evs[0], st))
    }
}

/// The Typst text for a whole event sequence, from the initial state.
pub open spec fn typst_output(evs: Seq<Event>) -> Seq<char> {
    run_output(evs, init_state())
}

/// Processing one more event appends that event's output, computed in the
/// state the earlier events left behind.
pub proof fn lemma_run_snoc(evs: Seq<Event>, ev: Event, st: WriterState)
    ensures
        run_output(evs.push(ev), st) == run_output(evs, st) + event_output(
            ev,
            run_state(evs, st),
        ),
        run_state(evs.push(ev), st) == event_next(ev, run_state(evs, st)),
    decreases evs.len(),
{
    if evs.len() == 0 {
        assert(evs.push(ev).drop_first() =~= Seq::<Event>::empty());
        assert(run_output(Seq::<Event>::empty(), event_next(ev, st)) =~= Seq::<char>::empty());
        assert(run_state(Seq::<Event>::empty(), event_next(ev, st)) == event_next(ev, st));
        assert(run_output(evs.push(ev), st) =~= run_output(evs, st) + event_output(
            ev,
            run_state(evs, st),
        ));
    } else {
        assert(evs.push(ev).drop_first() =~= evs.drop_first().push(ev));
        lemma_run_snoc(evs.drop_first(), ev, event_next(evs[0], st));
        assert(run_output(evs.push(ev), st) =~= run_output(evs, st) + event_output(
            ev,
            run_state(evs, st),
        ));
    }
}

/// Tracking the newline flag write by write is the same as tracking it
/// through the concatenation of the writes.
pub proof fn lemma_newline_after_concat(prev: bool, a: Seq<char>, b: Seq<char>)
    ensures
        newline_after(prev, a + b) == newline_after(newline_after(prev, a), b),
{
    if b.len() == 0 {
        assert(a + b =~= a);
    } else {
        assert((a + b).last() == b.last());
    }
}

} // verus!
