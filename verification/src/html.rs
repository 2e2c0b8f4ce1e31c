//! Escaping of dynamic text placed in HTML reports and share pages.
use vstd::prelude::*;
use crate::text::{chars_of, push_chars, string_of};

verus! {

broadcast use vstd::seq_lib::group_seq_properties;

/// The HTML form of one character: `&`, `<`, `>`, `"` and `'` become
/// entities, every other character stays.
pub open spec fn escape_char(c: char) -> Seq<char> {
    if c == '&' {
        seq!['&', 'a', 'm', 'p', ';']
    } else if c == '<' {
        seq!['&', 'l', 't', ';']
    } else if c == '>' {
        seq!['&', 'g', 't', ';']
    } else if c == '"' {
        seq!['&', 'q', 'u', 'o', 't', ';']
    } else if c == '\'' {
        seq!['&', '#', '3', '9', ';']
    } else {
        seq![c]
    }
}

/// `s` with every character replaced by its HTML form.
pub open spec fn html_escaped(s: Seq<char>) -> Seq<char>
    decreases s.len(),
{
    if s.len() == 0 {
        Seq::empty()
    } else {
        escape_char(s[0]) + html_escaped(s.drop_first())
    }
}

proof fn lemma_html_escaped_push(s: Seq<char>, c: char)
    ensures
        html_escaped(s.push(c)) =~= html_escaped(s) + escape_char(c),
    decreases s.len(),
{
    if s.len() == 0 {
        assert(s.push(c).drop_first() =~= Seq::<char>::empty());
    } else {
        lemma_html_escaped_push(s.drop_first(), c);
        assert(s.push(c).drop_first() =~= s.drop_first().push(c));
    }
}

fn escape_into(out: &mut Vec<char>, c: char)
    ensures
        final(out)@ == old(out)@ + escape_char(c),
{
    let e: Vec<char> = if c == '&' {
        vec!['&', 'a', 'm', 'p', ';']
    } else if c == '<' {
        vec!['&', 'l', 't', ';']
    } else if c == '>' {
        vec!['&', 'g', 't', ';']
    } else if c == '"' {
        vec!['&', 'q', 'u', 'o', 't', ';']
    } else if c == '\'' {
        vec!['&', '#', '3', '9', ';']
    } else {
        vec![c]
    };
    assert(e@ =~= escape_char(c));
    push_chars(out, &e);
}

/// Escapes the HTML-sensitive characters `&`, `<`, `>`, `"` and `'`.
pub fn html_escape(input: &str) -> (r: String)
    ensures
        r@ == html_escaped(input@),
{
    let cs = chars_of(input);
    let mut out: Vec<char> = Vec::new();
    let mut i: usize = 0;
    while i < cs.len()
        invariant
            i <= cs.len(),
            out@ == html_escaped(cs@.take(i as int)),
        decreases cs.len() - i,
    {
        proof {
            lemma_html_escaped_push(cs@.take(i as int), cs@[i as int]);
            assert(cs@.take(i as int).push(cs@[i as int]) =~= cs@.take(i + 1));
        }
        escape_into(&mut out, cs[i]);
        i += 1;
    }
    assert(cs@.take(cs.len() as int) =~= cs@);
    string_of(&out)
}

/// Reads HTML text back: the five entities produced by `html_escaped` become
/// their characters again.
pub open spec fn html_unescaped(s: Seq<char>) -> Seq<char>
    decreases s.len(),
{
    if s.len() == 0 {
        Seq::empty()
    } else if s.len() >= 5 && s.take(5) == seq!['&', 'a', 'm', 'p', ';'] {
        seq!['&'] + html_unescaped(s.skip(5))
    } else if s.len() >= 4 && s.take(4) == seq!['&', 'l', 't', ';'] {
        seq!['<'] + html_unescaped(s.skip(4))
    } else if s.len() >= 4 && s.take(4) == seq!['&', 'g', 't', ';'] {
        seq!['>'] + html_unescaped(s.skip(4))
    } else if s.len() >= 6 && s.take(6) == seq!['&', 'q', 'u', 'o', 't', ';'] {
        seq!['"'] + html_unescaped(s.skip(6))
    } else if s.len() >= 5 && s.take(5) == seq!['&', '#', '3', '9', ';'] {
        seq!['\''] + html_unescaped(s.skip(5))
    } else {
        seq![s[0]] + html_unescaped(s.drop_first())
    }
}

/// Unescaping gives back the original text: escaping loses nothing, and two
/// different texts never escape to the same HTML.
pub proof fn lemma_html_escape_round_trip(s: Seq<char>)
    ensures
        html_unescaped(html_escaped(s)) == s,
    decreases s.len(),
{
    if s.len() > 0 {
        let c = s[0];
        let e = escape_char(c);
        let rest = html_escaped(s.drop_first());
        let all = html_escaped(s);
        assert(all == e + rest);
        lemma_html_escape_round_trip(s.drop_first());
        assert(all.take(e.len() as int) =~= e);
        assert(all.skip(e.len() as int) =~= rest);
        if c != '&' && c != '<' && c != '>' && c != '"' && c != '\'' {
            assert(all[0] == c);
            assert(all.drop_first() =~= rest);
        }
        assert(html_unescaped(all) =~= seq![c] + s.drop_first());
        assert(seq![c] + s.drop_first() =~= s);
    }
}

/// Escaped text is safe inside HTML elements and quoted attributes: it holds
/// no `<`, `>`, `"` or `'`.
pub proof fn lemma_html_escape_safe(s: Seq<char>)
    ensures
        forall|k: int|
            0 <= k < html_escaped(s).len() ==> html_escaped(s)[k] != '<' && html_escaped(s)[k]
                != '>' && html_escaped(s)[k] != '"' && html_escaped(s)[k] != '\'',
    decreases s.len(),
{
    if s.len() > 0 {
        lemma_html_escape_safe(s.drop_first());
        let e = escape_char(s[0]);
        let rest = html_escaped(s.drop_first());
        assert forall|k: int|
            0 <= k < html_escaped(s).len() implies html_escaped(s)[k] != '<' && html_escaped(s)[k]
                != '>' && html_escaped(s)[k] != '"' && html_escaped(s)[k] != '\'' by {
            if k < e.len() {
                assert(html_escaped(s)[k] == e[k]);
            } else {
                assert(html_escaped(s)[k] == rest[k - e.len()]);
            }
        }
    }
}

} // verus!
