//! File-name friendly slugs and the names given to battles and their saved
//! artifacts.
use vstd::prelude::*;
use vstd::utf8::encode_utf8;
use crate::reports::{entry_group, is_protected, lemma_first_index_of};
use crate::text::{
    chars_of, is_ascii_alnum, is_ascii_alnum_spec, is_ascii_digit_spec, lemma_leading_count,
    lemma_leading_count_bounds, lemma_trailing_count, lemma_trailing_count_bounds, leading_count,
    push_str_chars, slice_chars, string_of, to_lowercase, trailing_count, trim_char, trim_char_spec,
    unicode_lowercase,
};

verus! {

broadcast use vstd::seq_lib::group_seq_properties;

/// Runs of characters other than ASCII letters and digits collapsed to one
/// `-` each; the flag tells whether the last character written was such a `-`.
pub open spec fn slug_collapse(s: Seq<char>) -> (Seq<char>, bool)
    decreases s.len(),
{
    if s.len() == 0 {
        (Seq::empty(), false)
    } else {
        let (out, dash) = slug_collapse(s.drop_last());
        if is_ascii_alnum_spec(s.last()) {
            (out.push(s.last()), false)
        } else if !dash {
            (out.push('-'), true)
        } else {
            (out, dash)
        }
    }
}


/// The slug of a text: lowercased, every run of characters other than ASCII
/// letters and digits turned into one `-`, dashes trimmed from both ends, and
/// cut to at most 48 characters.
pub open spec fn slug_of(input: Seq<char>) -> Seq<char> {
    let t = trim_char_spec(slug_collapse(unicode_lowercase(input)).0, '-');
    if t.len() <= 48 {
        t
    } else {
        t.take(48)
    }
}

/// A slug of `input` for file names and battle ids.
pub fn slugify(input: &str) -> (r: String)
    ensures
        r@ == slug_of(input@),
{
    let lower = to_lowercase(input);
    let cs = chars_of(lower.as_str());
    let mut out: Vec<char> = Vec::new();
    let mut dash = false;
    let mut i: usize = 0;
    while i < cs.len()
        invariant
            i <= cs.len(),
            (out@, dash) == slug_collapse(cs@.take(i as int)),
        decreases cs.len() - i,
    {
        assert(cs@.take(i + 1).drop_last() =~= cs@.take(i as int));
        let c = cs[i];
        if is_ascii_alnum(c) {
            out.push(c);
            dash = false;
        } else if !dash {
            out.push('-');
            dash = true;
        }
        i += 1;
    }
    assert(cs@.take(cs.len() as int) =~= cs@);
    let t = trim_char(&out, '-');
    let end = if t.len() <= 48 {
        t.len()
    } else {
        48
    };
    let r = slice_chars(&t, 0, end);
    assert(r@ =~= (if t@.len() <= 48 {
        t@
    } else {
        t@.take(48)
    }));
    string_of(&r)
}

proof fn lemma_slug_collapse_shape(s: Seq<char>)
    ensures
        forall|k: int|
            0 <= k < slug_collapse(s).0.len() ==> is_ascii_alnum_spec(
                #[trigger] slug_collapse(s).0[k],
            ) || slug_collapse(s).0[k] == '-',
        forall|k: int|
            0 <= k < slug_collapse(s).0.len() - 1 ==> !(#[trigger] slug_collapse(s).0[k] == '-'
                && slug_collapse(s).0[k + 1] == '-'),
        slug_collapse(s).1 <==> (slug_collapse(s).0.len() > 0 && slug_collapse(s).0.last()
            == '-'),
    decreases s.len(),
{
    if s.len() > 0 {
        lemma_slug_collapse_shape(s.drop_last());
    }
}

/// A slug holds only ASCII letters, digits and `-`, never starts with `-`,
/// never holds two `-` in a row and is at most 48 characters long.
pub proof fn lemma_slug_shape(input: Seq<char>)
    ensures
        slug_of(input).len() <= 48,
        forall|k: int|
            0 <= k < slug_of(input).len() ==> is_ascii_alnum_spec(#[trigger] slug_of(input)[k])
                || slug_of(input)[k] == '-',
        slug_of(input).len() > 0 ==> slug_of(input)[0] != '-',
        forall|k: int|
            0 <= k < slug_of(input).len() - 1 ==> !(#[trigger] slug_of(input)[k] == '-'
                && slug_of(input)[k + 1] == '-'),
{
    let c = slug_collapse(unicode_lowercase(input)).0;
    lemma_slug_collapse_shape(unicode_lowercase(input));
    let lc = leading_count(c, '-');
    lemma_leading_count_bounds(c, '-');
    let t = c.skip(lc);
    lemma_trailing_count_bounds(t, '-');
    let u = t.take(t.len() - trailing_count(t, '-'));
    assert forall|k: int| 0 <= k < u.len() implies u[k] == c[k + lc] by {}
    if u.len() > 0 {
        assert(u[0] == c[lc]);
    }
}

/// Concatenation of the views of the given parts.
pub open spec fn joined(parts: Seq<Seq<char>>) -> Seq<char>
    decreases parts.len(),
{
    if parts.len() == 0 {
        Seq::empty()
    } else {
        joined(parts.drop_last()) + parts.last()
    }
}

/// The id of a battle: its creation stamp, `-`, and the slug of
/// `"{left}-{right}"`.
pub open spec fn battle_id_text(stamp: Seq<char>, left: Seq<char>, right: Seq<char>) -> Seq<char> {
    stamp + seq!['-'] + slug_of(left + seq!['-'] + right)
}

/// The id of a battle between `left` and `right` created at `stamp`
/// (`%Y-%m-%dt%H-%M-%S-%3fz` in UTC).
pub fn battle_id(stamp: &str, left_label: &str, right_label: &str) -> (r: String)
    ensures
        r@ == battle_id_text(stamp@, left_label@, right_label@),
{
    let mut pair: Vec<char> = Vec::new();
    push_str_chars(&mut pair, left_label);
    pair.push('-');
    push_str_chars(&mut pair, right_label);
    let pair_text = string_of(&pair);
    let slug = slugify(pair_text.as_str());
    let mut out: Vec<char> = Vec::new();
    push_str_chars(&mut out, stamp);
    out.push('-');
    push_str_chars(&mut out, slug.as_str());
    assert(pair@ =~= left_label@ + seq!['-'] + right_label@);
    assert(out@ =~= stamp@ + seq!['-'] + slug@);
    string_of(&out)
}

/// The file stem of a battle's saved reports: `battle-{stamp}`, so that the
/// HTML and JSON reports are `battle-{stamp}.html` and `battle-{stamp}.json`.
pub open spec fn artifact_stem_text(stamp: Seq<char>) -> Seq<char> {
    "battle-"@ + stamp
}

/// The file stem under which a battle's HTML and JSON reports are saved.
pub fn artifact_stem(stamp: &str) -> (r: String)
    ensures
        r@ == artifact_stem_text(stamp@),
{
    let mut out: Vec<char> = Vec::new();
    push_str_chars(&mut out, "battle-");
    push_str_chars(&mut out, stamp);
    string_of(&out)
}

/// A creation stamp as written by the battle clock: 24 characters, four
/// ASCII digits and a `-` first, and its only `z` at the very end
/// (e.g. `2026-04-27t18-45-02-338z`).
pub open spec fn well_formed_stamp(stamp: Seq<char>) -> bool {
    &&& stamp.len() == 24
    &&& is_ascii_digit_spec(stamp[0]) && is_ascii_digit_spec(stamp[1]) && is_ascii_digit_spec(
        stamp[2],
    ) && is_ascii_digit_spec(stamp[3]) && stamp[4] == '-'
    &&& stamp[23] == 'z'
    &&& forall|k: int| 0 <= k < 23 ==> stamp[k] != 'z'
}

proof fn lemma_encode_utf8_len_ge(s: Seq<char>)
    ensures
        encode_utf8(s).len() >= s.len(),
    decreases s.len(),
{
    if s.len() > 0 {
        lemma_encode_utf8_len_ge(s.drop_first());
    }
}

/// Every file saved under an artifact stem (with any extension) is grouped
/// by housekeeping under the battle stamp it was saved with.
pub proof fn lemma_saved_artifacts_group_by_stamp(stamp: Seq<char>, extension: Seq<char>)
    requires
        well_formed_stamp(stamp),
    ensures
        entry_group(artifact_stem_text(stamp) + extension) == Some(stamp),
{
    reveal_strlit("battle-");
    reveal_strlit("latest-battle.html");
    reveal_strlit("latest-battle.json");
    reveal_strlit("latest-published.json");
    reveal_strlit(".gitkeep");
    reveal_strlit(".gitignore");
    reveal_strlit(".DS_Store");
    let name = artifact_stem_text(stamp) + extension;
    let rest = stamp + extension;
    assert(name.len() >= 31);
    assert(!is_protected(name));
    assert(name.subrange(0, 7) =~= "battle-"@);
    assert(name.skip(7) =~= rest);
    assert forall|k: int| 0 <= k < 24 implies rest[k] == stamp[k] by {}
    lemma_encode_utf8_len_ge(rest);
    lemma_first_index_of(rest, 'z', 23);
    assert(rest.take(24) =~= stamp);
}

} // verus!
