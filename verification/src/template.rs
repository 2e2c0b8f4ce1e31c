//! Filling page templates: `{name}` placeholders take the value of the
//! field of that name, and `{{` and `}}` stand for literal braces.
use vstd::prelude::*;
use crate::reports::{first_index_of, lemma_first_index_of, lemma_first_index_of_bounds};
use crate::text::{chars_equal, chars_of, push_chars, slice_chars, string_of};

verus! {

broadcast use vstd::seq_lib::group_seq_properties;

/// The names of a list of template fields.
pub open spec fn field_names(fields: Seq<(String, String)>) -> Seq<Seq<char>> {
    Seq::new(fields.len(), |i: int| fields[i].0@)
}

/// The values of a list of template fields.
pub open spec fn field_values(fields: Seq<(String, String)>) -> Seq<Seq<char>> {
    Seq::new(fields.len(), |i: int| fields[i].1@)
}

/// The position of the first field named `name`, or the number of fields.
pub open spec fn first_field(names: Seq<Seq<char>>, name: Seq<char>) -> int
    decreases names.len(),
{
    if names.len() == 0 {
        0
    } else if names[0] == name {
        0
    } else {
        1 + first_field(names.drop_first(), name)
    }
}

proof fn lemma_first_field(names: Seq<Seq<char>>, name: Seq<char>, j: int)
    requires
        0 <= j <= names.len(),
        forall|k: int| 0 <= k < j ==> #[trigger] names[k] != name,
        j == names.len() || names[j] == name,
    ensures
        first_field(names, name) == j,
    decreases j,
{
    if j > 0 {
        let d = names.drop_first();
        assert(names[0] != name);
        assert forall|k: int| 0 <= k < j - 1 implies #[trigger] d[k] != name by {
            assert(d[k] == names[k + 1]);
        }
        lemma_first_field(d, name, j - 1);
    }
}

/// The value of the first field named `name`, if any.
pub open spec fn field_value(names: Seq<Seq<char>>, values: Seq<Seq<char>>, name: Seq<char>) -> Option<
    Seq<char>,
> {
    let j = first_field(names, name);
    if 0 <= j < names.len() {
        Some(values[j])
    } else {
        None
    }
}

/// A template with its placeholders filled: `{{` and `}}` give one brace;
/// `{name}` (up to the first `}`) gives the value of the first field of that
/// name; a `{` that opens no known placeholder, and any other character,
/// stays as it is.
pub open spec fn expanded(t: Seq<char>, names: Seq<Seq<char>>, values: Seq<Seq<char>>) -> Seq<char>
    decreases t.len(),
{
    if t.len() == 0 {
        t
    } else if t.len() >= 2 && t[0] == '{' && t[1] == '{' {
        seq!['{'] + expanded(t.skip(2), names, values)
    } else if t.len() >= 2 && t[0] == '}' && t[1] == '}' {
        seq!['}'] + expanded(t.skip(2), names, values)
    } else if t[0] == '{' {
        let rest = t.drop_first();
        let k = first_index_of(rest, '}');
        proof {
            lemma_first_index_of_bounds(rest, '}');
        }
        if k < rest.len() {
            match field_value(names, values, rest.take(k)) {
                Some(v) => v + expanded(rest.skip(k + 1), names, values),
                None => seq!['{'] + expanded(rest, names, values),
            }
        } else {
            seq!['{'] + expanded(rest, names, values)
        }
    } else {
        seq![t[0]] + expanded(t.drop_first(), names, values)
    }
}

/// The value of the field named `name`, found as [`field_value`] says.
fn lookup(fields: &Vec<(String, String)>, name: &Vec<char>) -> (r: Option<Vec<char>>)
    ensures
        match r {
            Some(v) => field_value(field_names(fields@), field_values(fields@), name@) == Some(v@),
            None => field_value(field_names(fields@), field_values(fields@), name@) is None,
        },
{
    let ghost names = field_names(fields@);
    let mut j: usize = 0;
    while j < fields.len()
        invariant
            j <= fields.len(),
            names == field_names(fields@),
            forall|k: int| 0 <= k < j ==> #[trigger] names[k] != name@,
        decreases fields.len() - j,
    {
        let candidate = chars_of(fields[j].0.as_str());
        if chars_equal(&candidate, name) {
            proof {
                lemma_first_field(names, name@, j as int);
            }
            return Some(chars_of(fields[j].1.as_str()));
        }
        j += 1;
    }
    proof {
        lemma_first_field(names, name@, j as int);
    }
    None
}

proof fn lemma_expand_open_open(s: Seq<char>, names: Seq<Seq<char>>, values: Seq<Seq<char>>)
    requires
        s.len() >= 2,
        s[0] == '{',
        s[1] == '{',
    ensures
        expanded(s, names, values) == seq!['{'] + expanded(s.skip(2), names, values),
{
}

proof fn lemma_expand_close_close(s: Seq<char>, names: Seq<Seq<char>>, values: Seq<Seq<char>>)
    requires
        s.len() >= 2,
        s[0] == '}',
        s[1] == '}',
    ensures
        expanded(s, names, values) == seq!['}'] + expanded(s.skip(2), names, values),
{
}

proof fn lemma_expand_field(
    s: Seq<char>,
    names: Seq<Seq<char>>,
    values: Seq<Seq<char>>,
    k: int,
    v: Seq<char>,
)
    requires
        s.len() >= 1,
        s[0] == '{',
        !(s.len() >= 2 && s[1] == '{'),
        k == first_index_of(s.drop_first(), '}'),
        k < s.len() - 1,
        field_value(names, values, s.drop_first().take(k)) == Some(v),
    ensures
        expanded(s, names, values) == v + expanded(s.drop_first().skip(k + 1), names, values),
{
}

proof fn lemma_expand_open(s: Seq<char>, names: Seq<Seq<char>>, values: Seq<Seq<char>>)
    requires
        s.len() >= 1,
        s[0] == '{',
        !(s.len() >= 2 && s[1] == '{'),
        first_index_of(s.drop_first(), '}') >= s.len() - 1 || field_value(
            names,
            values,
            s.drop_first().take(first_index_of(s.drop_first(), '}')),
        ) is None,
    ensures
        expanded(s, names, values) == seq!['{'] + expanded(s.drop_first(), names, values),
{
    lemma_first_index_of_bounds(s.drop_first(), '}');
}

proof fn lemma_expand_plain(s: Seq<char>, names: Seq<Seq<char>>, values: Seq<Seq<char>>)
    requires
        s.len() >= 1,
        s[0] != '{',
        !(s.len() >= 2 && s[0] == '}' && s[1] == '}'),
    ensures
        expanded(s, names, values) == seq![s[0]] + expanded(s.drop_first(), names, values),
{
}

/// One step of filling: the text from `i` on is consumed up to the returned
/// position, and what it expands to is appended to `out`.
fn fill_step(t: &Vec<char>, fields: &Vec<(String, String)>, i: usize, out: &mut Vec<char>) -> (next: usize)
    requires
        i < t.len(),
    ensures
        i < next <= t.len(),
        final(out)@ + expanded(t@.skip(next as int), field_names(fields@), field_values(fields@))
            == old(out)@ + expanded(t@.skip(i as int), field_names(fields@), field_values(fields@)),
{
    let ghost names = field_names(fields@);
    let ghost values = field_values(fields@);
    let ghost s = t@.skip(i as int);
    let c = t[i];
    if c == '{' && i + 1 < t.len() && t[i + 1] == '{' {
        proof {
            lemma_expand_open_open(s, names, values);
            assert(s.skip(2) =~= t@.skip(i + 2));
        }
        out.push('{');
        return i + 2;
    }
    if c == '}' && i + 1 < t.len() && t[i + 1] == '}' {
        proof {
            lemma_expand_close_close(s, names, values);
            assert(s.skip(2) =~= t@.skip(i + 2));
        }
        out.push('}');
        return i + 2;
    }
    if c != '{' {
        proof {
            lemma_expand_plain(s, names, values);
            assert(s.drop_first() =~= t@.skip(i + 1));
        }
        out.push(c);
        return i + 1;
    }
    let ghost rest = s.drop_first();
    assert(rest =~= t@.skip(i + 1));
    let mut j: usize = i + 1;
    while j < t.len() && t[j] != '}'
        invariant
            i + 1 <= j <= t.len(),
            forall|k: int| i + 1 <= k < j ==> t@[k] != '}',
        decreases t.len() - j,
    {
        j += 1;
    }
    proof {
        assert forall|k: int| 0 <= k < j - (i + 1) implies rest[k] != '}' by {
            assert(rest[k] == t@[k + i + 1]);
        }
        if j < t.len() {
            assert(rest[j - (i + 1)] == t@[j as int]);
        }
        lemma_first_index_of(rest, '}', j - (i + 1));
    }
    if j < t.len() {
        let name = slice_chars(t, i + 1, j);
        assert(name@ =~= rest.take(j - (i + 1)));
        match lookup(fields, &name) {
            Some(v) => {
                proof {
                    lemma_expand_field(s, names, values, j - (i + 1), v@);
                    assert(rest.skip(j - (i + 1) + 1) =~= t@.skip(j + 1));
                }
                let ghost before = out@;
                push_chars(out, &v);
                assert(out@ + expanded(t@.skip(j + 1), names, values) =~= before + (v@ + expanded(
                    rest.skip(j - (i + 1) + 1),
                    names,
                    values,
                )));
                return j + 1;
            },
            None => {},
        }
    }
    proof {
        lemma_expand_open(s, names, values);
    }
    out.push('{');
    i + 1
}

/// Fills the placeholders of `template` with `fields` (see [`expanded`]).
pub fn fill_template(template: &str, fields: &Vec<(String, String)>) -> (r: String)
    ensures
        r@ == expanded(template@, field_names(fields@), field_values(fields@)),
{
    let ghost names = field_names(fields@);
    let ghost values = field_values(fields@);
    let t = chars_of(template);
    let mut out: Vec<char> = Vec::new();
    let mut i: usize = 0;
    assert(t@.skip(0) =~= t@);
    while i < t.len()
        invariant
            t@ == template@,
            names == field_names(fields@),
            values == field_values(fields@),
            i <= t.len(),
            out@ + expanded(t@.skip(i as int), names, values) == expanded(t@, names, values),
        decreases t.len() - i,
    {
        let ghost before = out@;
        let next = fill_step(&t, fields, i, &mut out);
        assert(out@ + expanded(t@.skip(next as int), names, values) == before + expanded(t@.skip(i as int), names, values));
        i = next;
    }
    assert(t@.skip(i as int) =~= Seq::<char>::empty());
    assert(out@ + Seq::<char>::empty() =~= out@);
    string_of(&out)
}

/// Doubles every brace of `s`, so that a template shows it as it is.
pub open spec fn braces_escaped(s: Seq<char>) -> Seq<char>
    decreases s.len(),
{
    if s.len() == 0 {
        s
    } else if s[0] == '{' {
        seq!['{', '{'] + braces_escaped(s.drop_first())
    } else if s[0] == '}' {
        seq!['}', '}'] + braces_escaped(s.drop_first())
    } else {
        seq![s[0]] + braces_escaped(s.drop_first())
    }
}

/// Text whose braces are doubled comes out of a template unchanged,
/// whatever the fields.
pub proof fn lemma_escaped_text_expands_to_itself(
    s: Seq<char>,
    names: Seq<Seq<char>>,
    values: Seq<Seq<char>>,
)
    ensures
        expanded(braces_escaped(s), names, values) == s,
    decreases s.len(),
{
    if s.len() > 0 {
        let e = braces_escaped(s);
        let d = s.drop_first();
        lemma_escaped_text_expands_to_itself(d, names, values);
        if s[0] == '{' || s[0] == '}' {
            assert(e.skip(2) =~= braces_escaped(d));
        } else {
            assert(e.drop_first() =~= braces_escaped(d));
        }
        assert(s =~= seq![s[0]] + d);
    }
}

} // verus!
