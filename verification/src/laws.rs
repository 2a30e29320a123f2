use vstd::prelude::*;
use crate::emit::end_tag_output;
use crate::emit::event_next;
use crate::emit::event_output;
use crate::emit::newline_unless;
use crate::emit::run_output;
use crate::emit::start_tag_output;
use crate::emit::WriterState;
use crate::escape::escaped_char;
use crate::escape::escaped_text;
use crate::escape::is_markup_special;
use crate::escape::lemma_escaped_text_concat;
use crate::escape::lemma_escaped_text_singleton;
use crate::events::Event;
use crate::events::TagKind;
use crate::events::TagEndKind;
use crate::strings::char_repeat;

verus! {

/// Escaping keeps every character of a literal-text run, in order: around
/// any position, the escape of the whole run is the escape of what comes
/// before, then the character itself — preceded by exactly one backslash
/// when Typst treats it specially, bare otherwise — then the escape of
/// what comes after.
pub proof fn lemma_escape_keeps_characters(s: Seq<char>, i: int)
    requires
        0 <= i < s.len(),
    ensures
        escaped_text(s) == escaped_text(s.take(i)) + escaped_char(s[i]) + escaped_text(
            s.skip(i + 1),
        ),
        is_markup_special(s[i]) ==> escaped_char(s[i]) == seq!['\\', s[i]],
        !is_markup_special(s[i]) ==> escaped_char(s[i]) == seq![s[i]],
{
    assert(s =~= (s.take(i) + seq![s[i]]) + s.skip(i + 1));
    lemma_escaped_text_concat(s.take(i) + seq![s[i]], s.skip(i + 1));
    lemma_escaped_text_concat(s.take(i), seq![s[i]]);
    lemma_escaped_text_singleton(s[i]);
    assert(escaped_text(s) =~= escaped_text(s.take(i)) + escaped_char(s[i]) + escaped_text(
        s.skip(i + 1),
    ));
}

/// A heading always begins on a fresh line: whatever the output held, the
/// start of a heading of level L extends it to a line start — a newline is
/// added exactly when one is missing — followed by L copies of `=` and a
/// space.
pub proof fn lemma_heading_starts_line(w: Seq<char>, st: WriterState, level: u8)
    requires
        1 <= level <= 6,
        st.end_newline == (w.len() == 0 || w.last() == '\n'),
    ensures
        ({
            let line_start = w + newline_unless(st.end_newline);
            &&& w + start_tag_output(TagKind::Heading(level), st) == line_start + char_repeat(
                '=',
                level as nat,
            ) + " "@
            &&& line_start.len() == 0 || line_start.last() == '\n'
        }),
{
    assert(w + start_tag_output(TagKind::Heading(level), st) =~= (w + newline_unless(
        st.end_newline,
    )) + char_repeat('=', level as nat) + " "@);
    if !st.end_newline {
        assert((w + newline_unless(st.end_newline)).last() == '\n');
    }
}

/// An item at nesting depth D is prefixed by exactly 2*(D-1) spaces,
/// then `- ` at odd depth and `+ ` at even depth. The parity rule is
/// deliberate: the marker does not consult the source list's kind.
pub proof fn lemma_item_prefix(st: WriterState)
    requires
        st.list_level >= 1,
    ensures
        st.list_level % 2 == 1 ==> start_tag_output(TagKind::Item, st) == char_repeat(
            ' ',
            (2 * (st.list_level - 1)) as nat,
        ) + "- "@,
        st.list_level % 2 == 0 ==> start_tag_output(TagKind::Item, st) == char_repeat(
            ' ',
            (2 * (st.list_level - 1)) as nat,
        ) + "+ "@,
{
}

/// Closing a list whose depth reaches zero emits exactly one newline;
/// closing a list that stays nested emits nothing. Either way the depth
/// goes down by one, floored at zero.
pub proof fn lemma_list_close(st: WriterState)
    ensures
        st.list_level <= 1 ==> end_tag_output(TagEndKind::List, st) == seq!['\n'],
        st.list_level > 1 ==> end_tag_output(TagEndKind::List, st) == Seq::<char>::empty(),
        event_next(Event::End(TagEndKind::List), st).list_level == (if st.list_level == 0 {
            0
        } else {
            (st.list_level - 1) as nat
        }),
{
    reveal_strlit("\n");
    assert("\n"@ =~= seq!['\n']);
}

/// Ending a paragraph or a heading emits exactly one blank line — two
/// newlines — and leaves the output ending in a newline.
pub proof fn lemma_block_end(st: WriterState, end: TagEndKind)
    requires
        end == TagEndKind::Paragraph || end == TagEndKind::Heading,
    ensures
        event_output(Event::End(end), st) == seq!['\n', '\n'],
        event_next(Event::End(end), st).end_newline,
{
    reveal_strlit("\n\n");
    assert("\n\n"@ =~= seq!['\n', '\n']);
}

/// A block construct that starts when the output already ends in a
/// newline adds no newline of its own: the blank line between two blocks
/// is exactly the one the earlier block's end emitted, never more.
pub proof fn lemma_block_start_adds_no_newline(st: WriterState, start: TagKind)
    requires
        st.end_newline,
        start == TagKind::Paragraph || start == TagKind::List || start matches TagKind::Heading(_),
    ensures
        start == TagKind::Paragraph ==> start_tag_output(start, st) == Seq::<char>::empty(),
        start == TagKind::List ==> start_tag_output(start, st) == Seq::<char>::empty(),
        start matches TagKind::Heading(level) ==> start_tag_output(start, st) == char_repeat(
            '=',
            level as nat,
        ) + " "@,
{
    match start {
        TagKind::Heading(level) => {
            assert(newline_unless(st.end_newline) + char_repeat('=', level as nat) =~= char_repeat(
                '=',
                level as nat,
            ));
        },
        _ => {
            assert(start_tag_output(start, st) =~= Seq::<char>::empty());
        },
    }
}

/// Between the text of one paragraph and the text of the next the writer
/// emits exactly one blank line: the paragraph end's two newlines, with
/// the following paragraph start adding nothing.
pub proof fn lemma_paragraph_separation(st: WriterState)
    ensures
        run_output(
            seq![Event::End(TagEndKind::Paragraph), Event::Start(TagKind::Paragraph)],
            st,
        ) == seq!['\n', '\n'],
{
    reveal_strlit("\n\n");
    let evs = seq![Event::End(TagEndKind::Paragraph), Event::Start(TagKind::Paragraph)];
    let st1 = event_next(evs[0], st);
    assert(evs[0] == Event::End(TagEndKind::Paragraph));
    assert(st1.end_newline);
    let tail = evs.drop_first();
    assert(tail[0] == Event::Start(TagKind::Paragraph));
    assert(run_output(tail, st1) == event_output(tail[0], st1) + run_output(
        tail.drop_first(),
        event_next(tail[0], st1),
    ));
    assert(event_output(tail[0], st1) =~= Seq::<char>::empty());
    assert(tail.drop_first() =~= Seq::<Event>::empty());
    assert(run_output(tail.drop_first(), event_next(tail[0], st1)) =~= Seq::<char>::empty());
    assert(run_output(evs, st) == event_output(evs[0], st) + run_output(tail, st1));
    assert(run_output(evs, st) =~= seq!['\n', '\n']);
}

} // verus!
