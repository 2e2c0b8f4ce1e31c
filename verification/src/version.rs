//! Release version comparison used by the update check.
use vstd::prelude::*;
use crate::reports::{first_index_of, lemma_first_index_of};
use crate::text::{chars_of, slice_chars, string_of};

verus! {

broadcast use vstd::seq_lib::group_seq_properties;

/// Index of the first `-` or `+` in `s`, or `s.len()`.
pub open spec fn index_of_suffix_mark(s: Seq<char>) -> int
    decreases s.len(),
{
    if s.len() == 0 {
        0
    } else if s[0] == '-' || s[0] == '+' {
        0
    } else {
        1 + index_of_suffix_mark(s.drop_first())
    }
}

proof fn lemma_index_of_suffix_mark(s: Seq<char>, i: int)
    requires
        0 <= i <= s.len(),
        forall|k: int| 0 <= k < i ==> s[k] != '-' && s[k] != '+',
        i == s.len() || s[i] == '-' || s[i] == '+',
    ensures
        index_of_suffix_mark(s) == i,
    decreases i,
{
    if i > 0 {
        let d = s.drop_first();
        assert(s[0] != '-' && s[0] != '+');
        assert forall|k: int| 0 <= k < i - 1 implies d[k] != '-' && d[k] != '+' by {
            assert(d[k] == s[k + 1]);
        }
        lemma_index_of_suffix_mark(d, i - 1);
    }
}

/// Number of leading `v` characters of `s`.
pub open spec fn leading_v_count(s: Seq<char>) -> int
    decreases s.len(),
{
    if s.len() > 0 && s[0] == 'v' {
        1 + leading_v_count(s.drop_first())
    } else {
        0
    }
}

proof fn lemma_leading_v_count(s: Seq<char>, i: int)
    requires
        0 <= i <= s.len(),
        forall|k: int| 0 <= k < i ==> s[k] == 'v',
        i == s.len() || s[i] != 'v',
    ensures
        leading_v_count(s) == i,
    decreases i,
{
    if i > 0 {
        let d = s.drop_first();
        assert(s[0] == 'v');
        assert forall|k: int| 0 <= k < i - 1 implies d[k] == 'v' by {
            assert(d[k] == s[k + 1]);
        }
        lemma_leading_v_count(d, i - 1);
    }
}

/// The part of `s` before the first `c` (all of `s` when there is none).
pub open spec fn before_char(s: Seq<char>, c: char) -> Seq<char> {
    s.take(first_index_of(s, c))
}

/// The part of `s` after the first `c` (empty when there is none).
pub open spec fn after_char(s: Seq<char>, c: char) -> Seq<char> {
    if first_index_of(s, c) < s.len() {
        s.skip(first_index_of(s, c) + 1)
    } else {
        Seq::empty()
    }
}

/// The version with any pre-release or build suffix (from the first `-` or
/// `+`) removed.
pub open spec fn version_core(s: Seq<char>) -> Seq<char> {
    s.take(index_of_suffix_mark(s))
}

/// Value of a string of decimal digits.
pub open spec fn decimal_value(s: Seq<char>) -> nat
    decreases s.len(),
{
    if s.len() == 0 {
        0
    } else {
        decimal_value(s.drop_last()) * 10 + ((s.last() as u32) - ('0' as u32)) as nat
    }
}

/// A number component as std `u32::from_str` reads one that has no sign:
/// one or more ASCII digits whose value fits in a `u32`.
pub open spec fn parse_u32_spec(s: Seq<char>) -> Option<u32> {
    if s.len() > 0 && (forall|k: int| 0 <= k < s.len() ==> '0' <= #[trigger] s[k] <= '9')
        && decimal_value(s) <= u32::MAX {
        Some(decimal_value(s) as u32)
    } else {
        None
    }
}

/// Major, minor and patch of a version such as `1.4.2` or `0.9-rc.1`: the
/// version needs at least a major and a minor number; a missing or
/// unreadable patch counts as 0.
pub open spec fn version_triple(s: Seq<char>) -> Option<(u32, u32, u32)> {
    let core = version_core(s);
    if first_index_of(core, '.') >= core.len() {
        None
    } else {
        let rest1 = after_char(core, '.');
        match (parse_u32_spec(before_char(core, '.')), parse_u32_spec(before_char(rest1, '.'))) {
            (Some(major), Some(minor)) => {
                let patch = if first_index_of(rest1, '.') < rest1.len() {
                    match parse_u32_spec(before_char(after_char(rest1, '.'), '.')) {
                        Some(p) => p,
                        None => 0,
                    }
                } else {
                    0
                };
                Some((major, minor, patch))
            },
            _ => None,
        }
    }
}

/// Lexicographic order on version triples.
pub open spec fn triple_gt(a: (u32, u32, u32), b: (u32, u32, u32)) -> bool {
    a.0 > b.0 || (a.0 == b.0 && (a.1 > b.1 || (a.1 == b.1 && a.2 > b.2)))
}

/// `latest` is strictly newer than `current`; unreadable versions are never newer.
pub open spec fn newer_version(latest: Seq<char>, current: Seq<char>) -> bool {
    match (version_triple(latest), version_triple(current)) {
        (Some(l), Some(c)) => triple_gt(l, c),
        _ => false,
    }
}

fn index_of(s: &Vec<char>, c: char) -> (r: usize)
    ensures
        r == first_index_of(s@, c),
        r <= s.len(),
{
    let mut i: usize = 0;
    while i < s.len() && s[i] != c
        invariant
            i <= s.len(),
            forall|k: int| 0 <= k < i ==> s@[k] != c,
        decreases s.len() - i,
    {
        i += 1;
    }
    proof {
        lemma_first_index_of(s@, c, i as int);
    }
    i
}

proof fn lemma_decimal_prefix_le(s: Seq<char>, i: int)
    requires
        0 <= i <= s.len(),
        forall|k: int| 0 <= k < s.len() ==> '0' <= #[trigger] s[k] <= '9',
    ensures
        decimal_value(s.take(i)) <= decimal_value(s),
    decreases s.len() - i,
{
    if i < s.len() {
        lemma_decimal_prefix_le(s, i + 1);
        assert(s.take(i + 1).drop_last() =~= s.take(i));
    } else {
        assert(s.take(i) =~= s);
    }
}

/// Reads a version number component (see `parse_u32_spec`).
fn parse_u32_component(s: &Vec<char>) -> (r: Option<u32>)
    ensures
        r == parse_u32_spec(s@),
{
    if s.len() == 0 {
        return None;
    }
    let mut i: usize = 0;
    let mut value: u64 = 0;
    while i < s.len()
        invariant
            i <= s.len(),
            forall|k: int| 0 <= k < i ==> '0' <= #[trigger] s@[k] <= '9',
            value == decimal_value(s@.take(i as int)),
            value <= u32::MAX,
        decreases s.len() - i,
    {
        let c = s[i];
        if !('0' <= c && c <= '9') {
            return None;
        }
        let digit = (c as u32 - '0' as u32) as u64;
        assert(s@.take(i + 1).drop_last() =~= s@.take(i as int));
        let next = value * 10 + digit;
        if next > u32::MAX as u64 {
            proof {
                lemma_decimal_prefix_le_partial(s@, (i + 1) as int);
            }
            return None;
        }
        value = next;
        i += 1;
    }
    assert(s@.take(s.len() as int) =~= s@);
    Some(value as u32)
}

/// When every character up to `i` is a digit but the prefix of length `i`
/// already exceeds `u32::MAX`, the whole string is no `u32` component.
proof fn lemma_decimal_prefix_le_partial(s: Seq<char>, i: int)
    requires
        0 < i <= s.len(),
        forall|k: int| 0 <= k < i ==> '0' <= #[trigger] s[k] <= '9',
        decimal_value(s.take(i)) > u32::MAX,
    ensures
        parse_u32_spec(s) is None,
{
    if forall|k: int| 0 <= k < s.len() ==> '0' <= #[trigger] s[k] <= '9' {
        lemma_decimal_prefix_le(s, i);
    }
}

/// The triple of a version string (see `version_triple`).
fn parse_version(s: &Vec<char>) -> (r: Option<(u32, u32, u32)>)
    ensures
        r == version_triple(s@),
{
    // Cut at the first '-' or '+'.
    let mut cut: usize = 0;
    while cut < s.len() && s[cut] != '-' && s[cut] != '+'
        invariant
            cut <= s.len(),
            forall|k: int| 0 <= k < cut ==> s@[k] != '-' && s@[k] != '+',
        decreases s.len() - cut,
    {
        cut += 1;
    }
    proof {
        lemma_index_of_suffix_mark(s@, cut as int);
    }
    let core = slice_chars(s, 0, cut);
    let d1 = index_of(&core, '.');
    if d1 >= core.len() {
        return None;
    }
    let major_text = slice_chars(&core, 0, d1);
    let rest1 = slice_chars(&core, d1 + 1, core.len());
    assert(rest1@ =~= after_char(core@, '.'));
    let d2 = index_of(&rest1, '.');
    let minor_text = slice_chars(&rest1, 0, d2);
    let major = parse_u32_component(&major_text);
    let minor = parse_u32_component(&minor_text);
    match (major, minor) {
        (Some(ma), Some(mi)) => {
            let patch = if d2 < rest1.len() {
                let rest2 = slice_chars(&rest1, d2 + 1, rest1.len());
                assert(rest2@ =~= after_char(rest1@, '.'));
                let d3 = index_of(&rest2, '.');
                let patch_text = slice_chars(&rest2, 0, d3);
                match parse_u32_component(&patch_text) {
                    Some(p) => p,
                    None => 0,
                }
            } else {
                0
            };
            Some((ma, mi, patch))
        },
        _ => None,
    }
}

/// Whether `latest` is strictly newer than `current`, comparing major,
/// minor and patch numerically; pre-release and build suffixes are ignored
/// and an unreadable version is never newer.
pub fn is_newer_version(latest: &str, current: &str) -> (r: bool)
    ensures
        r == newer_version(latest@, current@),
{
    let l = parse_version(&chars_of(latest));
    let c = parse_version(&chars_of(current));
    match (l, c) {
        (Some(a), Some(b)) => a.0 > b.0 || (a.0 == b.0 && (a.1 > b.1 || (a.1 == b.1 && a.2 > b.2))),
        _ => false,
    }
}

/// A release tag with leading `v` characters removed (std
/// `trim_start_matches('v')`), e.g. `v0.8.0` gives `0.8.0`.
pub fn strip_version_prefix(tag: &str) -> (r: String)
    ensures
        r@ == tag@.skip(leading_v_count(tag@)),
{
    let cs = chars_of(tag);
    let mut i: usize = 0;
    while i < cs.len() && cs[i] == 'v'
        invariant
            i <= cs.len(),
            forall|k: int| 0 <= k < i ==> cs@[k] == 'v',
        decreases cs.len() - i,
    {
        i += 1;
    }
    proof {
        lemma_leading_v_count(cs@, i as int);
    }
    let rest = slice_chars(&cs, i, cs.len());
    assert(rest@ =~= cs@.skip(i as int));
    string_of(&rest)
}

/// No version is newer than itself.
pub proof fn lemma_newer_irreflexive(v: Seq<char>)
    ensures
        !newer_version(v, v),
{
}

/// If `a` is newer than `b`, then `b` is not newer than `a`.
pub proof fn lemma_newer_asymmetric(a: Seq<char>, b: Seq<char>)
    ensures
        newer_version(a, b) ==> !newer_version(b, a),
{
}

/// Being newer is transitive.
pub proof fn lemma_newer_transitive(a: Seq<char>, b: Seq<char>, c: Seq<char>)
    requires
        newer_version(a, b),
        newer_version(b, c),
    ensures
        newer_version(a, c),
{
}

/// A pre-release or build suffix does not change how a version compares:
/// `v + "-" + suffix` reads as `v` when `v` itself holds no `-` or `+`.
pub proof fn lemma_suffix_ignored(v: Seq<char>, sep: char, suffix: Seq<char>)
    requires
        sep == '-' || sep == '+',
        forall|k: int| 0 <= k < v.len() ==> v[k] != '-' && v[k] != '+',
    ensures
        version_triple(v + seq![sep] + suffix) == version_triple(v),
{
    let w = v + seq![sep] + suffix;
    assert forall|k: int| 0 <= k < v.len() implies w[k] != '-' && w[k] != '+' by {
        assert(w[k] == v[k]);
    }
    assert(w[v.len() as int] == sep);
    lemma_index_of_suffix_mark(w, v.len() as int);
    lemma_index_of_suffix_mark(v, v.len() as int);
    assert(w.take(v.len() as int) =~= v);
    assert(v.take(v.len() as int) =~= v);
}

} // verus!
