use vstd::prelude::*;
use vstd::string::StrSliceExecFns;

verus! {

/// The characters Typst treats specially in literal markup text.
pub open spec fn is_markup_special(c: char) -> bool {
    ||| c == '\\'
    ||| c == '*'
    ||| c == '_'
    ||| c == '#'
    ||| c == '<'
    ||| c == '>'
    ||| c == '@'
    ||| c == '$'
    ||| c == '`'
}

/// The escape of one literal-text character: a special character gets
/// exactly one leading backslash, every other character stands unchanged.
pub open spec fn escaped_char(c: char) -> Seq<char> {
    if is_markup_special(c) {
        seq!['\\', c]
    } else {
        seq![c]
    }
}

/// The escape of a whole run of literal text, character by character.
pub open spec fn escaped_text(s: Seq<char>) -> Seq<char>
    decreases s.len(),
{
    if s.len() == 0 {
        Seq::empty()
    } else {
        escaped_char(s[0]) + escaped_text(s.drop_first())
    }
}

/// The characters that are special inside a Typst string literal.
pub open spec fn is_string_special(c: char) -> bool {
    c == '\\' || c == '"'
}

/// The escape of one character of a Typst string-literal payload.
pub open spec fn escaped_string_char(c: char) -> Seq<char> {
    if is_string_special(c) {
        seq!['\\', c]
    } else {
        seq![c]
    }
}

/// The escape of a whole Typst string-literal payload (inline code and
/// link destinations), character by character.
pub open spec fn escaped_string(s: Seq<char>) -> Seq<char>
    decreases s.len(),
{
    if s.len() == 0 {
        Seq::empty()
    } else {
        escaped_string_char(s[0]) + escaped_string(s.drop_first())
    }
}

/// Escaping literal text distributes over concatenation.
pub proof fn lemma_escaped_text_concat(a: Seq<char>, b: Seq<char>)
    ensures
        escaped_text(a + b) == escaped_text(a) + escaped_text(b),
    decreases a.len(),
{
    if a.len() == 0 {
        assert(a + b =~= b);
        assert(escaped_text(a) + escaped_text(b) =~= escaped_text(b));
    } else {
        assert((a + b).drop_first() =~= a.drop_first() + b);
        lemma_escaped_text_concat(a.drop_first(), b);
        assert(escaped_text(a + b) =~= escaped_text(a) + escaped_text(b));
    }
}

/// Escaping a string-literal payload distributes over concatenation.
pub proof fn lemma_escaped_string_concat(a: Seq<char>, b: Seq<char>)
    ensures
        escaped_string(a + b) == escaped_string(a) + escaped_string(b),
    decreases a.len(),
{
    if a.len() == 0 {
        assert(a + b =~= b);
        assert(escaped_string(a) + escaped_string(b) =~= escaped_string(b));
    } else {
        assert((a + b).drop_first() =~= a.drop_first() + b);
        lemma_escaped_string_concat(a.drop_first(), b);
        assert(escaped_string(a + b) =~= escaped_string(a) + escaped_string(b));
    }
}

/// The escape of a single character, as a one-element run.
pub proof fn lemma_escaped_text_singleton(c: char)
    ensures
        escaped_text(seq![c]) == escaped_char(c),
{
    assert(seq![c].drop_first() =~= Seq::<char>::empty());
    assert(escaped_text(Seq::<char>::empty()) =~= Seq::<char>::empty());
    assert(escaped_text(seq![c]) =~= escaped_char(c));
}

proof fn lemma_escaped_string_singleton(c: char)
    ensures
        escaped_string(seq![c]) == escaped_string_char(c),
{
    assert(seq![c].drop_first() =~= Seq::<char>::empty());
    assert(escaped_string(Seq::<char>::empty()) =~= Seq::<char>::empty());
    assert(escaped_string(seq![c]) =~= escaped_string_char(c));
}

/// Extending the input by one character extends the escape by that
/// character's escape.
pub proof fn lemma_escaped_text_snoc(s: Seq<char>, i: int)
    requires
        0 <= i < s.len(),
    ensures
        escaped_text(s.take(i + 1)) == escaped_text(s.take(i)) + escaped_char(s[i]),
{
    assert(s.take(i + 1) =~= s.take(i) + seq![s[i]]);
    lemma_escaped_text_concat(s.take(i), seq![s[i]]);
    lemma_escaped_text_singleton(s[i]);
}

proof fn lemma_escaped_string_snoc(s: Seq<char>, i: int)
    requires
        0 <= i < s.len(),
    ensures
        escaped_string(s.take(i + 1)) == escaped_string(s.take(i)) + escaped_string_char(s[i]),
{
    assert(s.take(i + 1) =~= s.take(i) + seq![s[i]]);
    lemma_escaped_string_concat(s.take(i), seq![s[i]]);
    lemma_escaped_string_singleton(s[i]);
}

/// Escape the characters Typst treats specially in literal markup text.
pub fn escape_typst(text: &str) -> (r: String)
    ensures
        r@ == escaped_text(text@),
{
    let n: usize = text.unicode_len();
    let mut out = String::new();
    let mut i: usize = 0;
    while i < n
        invariant
            i <= n,
            n == text@.len(),
            out@ == escaped_text(text@.take(i as int)),
        decreases n - i,
    {
        let c = text.get_char(i);
        if c == '\\' || c == '*' || c == '_' || c == '#' || c == '<' || c == '>' || c == '@'
            || c == '$' || c == '`' {
            out.push('\\');
        }
        out.push(c);
        proof {
            lemma_escaped_text_snoc(text@, i as int);
            assert(out@ =~= escaped_text(text@.take(i + 1)));
        }
        i = i + 1;
    }
    proof {
        assert(text@.take(n as int) =~= text@);
    }
    out
}

/// Escape a payload for a Typst string literal: backslash and double quote
/// get a leading backslash.
pub fn escape_typst_string(text: &str) -> (r: String)
    ensures
        r@ == escaped_string(text@),
{
    let n: usize = text.unicode_len();
    let mut out = String::new();
    let mut i: usize = 0;
    while i < n
        invariant
            i <= n,
            n == text@.len(),
            out@ == escaped_string(text@.take(i as int)),
        decreases n - i,
    {
        let c = text.get_char(i);
        if c == '\\' || c == '"' {
            out.push('\\');
        }
        out.push(c);
        proof {
            lemma_escaped_string_snoc(text@, i as int);
            assert(out@ =~= escaped_string(text@.take(i + 1)));
        }
        i = i + 1;
    }
    proof {
        assert(text@.take(n as int) =~= text@);
    }
    out
}

} // verus!
