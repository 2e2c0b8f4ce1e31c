//! Housekeeping of the reports directory: which saved battle artifacts are
//! removed by "clear history" and by the automatic pruning that keeps only the
//! most recent battles.
//!
//! The directory itself is read and changed by the caller; the functions here
//! decide, from the entry names (and modification times), which entries go.
use vstd::prelude::*;
use vstd::utf8::encode_utf8;
use crate::text::{chars_equal, chars_of, has_prefix, is_ascii_digit, is_ascii_digit_spec, slice_chars, starts_with, str_eq, string_of, utf8_len_at_least};

verus! {

broadcast use {vstd::string::group_string_axioms, vstd::seq_lib::group_seq_properties};

/// How many recent battles' artifacts the automatic pruning keeps.
pub const REPORTS_KEEP_RECENT: usize = 5;

/// File names in the reports directory that housekeeping never deletes.
pub open spec fn is_protected(name: Seq<char>) -> bool {
    name == "latest-battle.html"@ || name == "latest-battle.json"@ || name
        == "latest-published.json"@ || name == ".gitkeep"@ || name == ".gitignore"@ || name
        == ".DS_Store"@
}

/// Whether `name` is one of the protected file names.
pub fn is_protected_name(name: &str) -> (r: bool)
    ensures
        r == is_protected(name@),
{
    str_eq(name, "latest-battle.html") || str_eq(name, "latest-battle.json") || str_eq(
        name,
        "latest-published.json",
    ) || str_eq(name, ".gitkeep") || str_eq(name, ".gitignore") || str_eq(name, ".DS_Store")
}

/// Index of the first occurrence of `c` in `s`, or `s.len()` when absent.
pub open spec fn first_index_of(s: Seq<char>, c: char) -> int
    decreases s.len(),
{
    if s.len() == 0 {
        0
    } else if s[0] == c {
        0
    } else {
        1 + first_index_of(s.drop_first(), c)
    }
}

/// `first_index_of` is the position `i` when `c` first occurs at `i`, or is
/// `s.len()` when `i` is the end and `c` does not occur.
pub proof fn lemma_first_index_of(s: Seq<char>, c: char, i: int)
    requires
        0 <= i <= s.len(),
        forall|k: int| 0 <= k < i ==> s[k] != c,
        i == s.len() || s[i] == c,
    ensures
        first_index_of(s, c) == i,
    decreases i,
{
    if i > 0 {
        assert(s[0] != c);
        let d = s.drop_first();
        assert forall|k: int| 0 <= k < i - 1 implies d[k] != c by {
            assert(d[k] == s[k + 1]);
        }
        lemma_first_index_of(d, c, i - 1);
    }
}

/// `first_index_of` is within `0..=s.len()`, finds `c` when below the
/// length, and nothing before it is `c`.
pub proof fn lemma_first_index_of_bounds(s: Seq<char>, c: char)
    ensures
        0 <= first_index_of(s, c) <= s.len(),
        first_index_of(s, c) < s.len() ==> s[first_index_of(s, c)] == c,
        forall|k: int| 0 <= k < first_index_of(s, c) ==> s[k] != c,
    decreases s.len(),
{
    if s.len() > 0 && s[0] != c {
        let d = s.drop_first();
        lemma_first_index_of_bounds(d, c);
        assert forall|k: int| 0 <= k < first_index_of(s, c) implies s[k] != c by {
            if k > 0 {
                assert(s[k] == d[k - 1]);
            }
        }
    }
}

/// The battle id at the start of an artifact name: the name must be at least
/// 24 bytes long in UTF-8, begin with four ASCII digits and a `-`, and the id
/// runs up to and including the first `z`
/// (e.g. `2026-04-27t18-45-02-338z-img-0674-trax.html` gives
/// `2026-04-27t18-45-02-338z`).
pub open spec fn battle_prefix(name: Seq<char>) -> Option<Seq<char>> {
    if encode_utf8(name).len() < 24 || name.len() < 5 {
        None
    } else if !(is_ascii_digit_spec(name[0]) && is_ascii_digit_spec(name[1]) && is_ascii_digit_spec(
        name[2],
    ) && is_ascii_digit_spec(name[3]) && name[4] == '-') {
        None
    } else if first_index_of(name, 'z') < name.len() {
        Some(name.take(first_index_of(name, 'z') + 1))
    } else {
        None
    }
}

/// The battle id that groups the `.html`, `.json` and `-share/` artifacts of
/// one battle, if `name` starts with one.
pub fn extract_battle_prefix(name: &str) -> (r: Option<String>)
    ensures
        match r {
            Some(p) => battle_prefix(name@) == Some(p@),
            None => battle_prefix(name@) is None,
        },
{
    let cs = chars_of(name);
    if !utf8_len_at_least(&cs, 24) {
        return None;
    }
    if cs.len() < 5 {
        return None;
    }
    if !(is_ascii_digit(cs[0]) && is_ascii_digit(cs[1]) && is_ascii_digit(cs[2]) && is_ascii_digit(
        cs[3],
    ) && cs[4] == '-') {
        return None;
    }
    let mut i: usize = 0;
    while i < cs.len() && cs[i] != 'z'
        invariant
            i <= cs.len(),
            forall|k: int| 0 <= k < i ==> cs@[k] != 'z',
        decreases cs.len() - i,
    {
        i += 1;
    }
    proof {
        lemma_first_index_of(cs@, 'z', i as int);
    }
    if i == cs.len() {
        return None;
    }
    let p = slice_chars(&cs, 0, i + 1);
    assert(p@ =~= cs@.take(i + 1));
    Some(string_of(&p))
}

/// The battle a directory entry belongs to, or `None` when housekeeping
/// leaves it alone (protected names and names without a battle id). Saved
/// reports are named `battle-{id}.html` and `battle-{id}.json`; other
/// artifacts, such as share directories, begin with the id itself.
pub open spec fn entry_group(name: Seq<char>) -> Option<Seq<char>> {
    if is_protected(name) {
        None
    } else if has_prefix(name, "battle-"@) {
        battle_prefix(name.skip(7))
    } else {
        battle_prefix(name)
    }
}

/// The battle a directory entry belongs to, as characters.
pub fn report_group(name: &str) -> (r: Option<Vec<char>>)
    ensures
        match r {
            Some(p) => entry_group(name@) == Some(p@),
            None => entry_group(name@) is None,
        },
{
    if is_protected_name(name) {
        return None;
    }
    let cs = chars_of(name);
    let found = if starts_with(&cs, "battle-") {
        proof {
            reveal_strlit("battle-");
        }
        let rest = string_of(&slice_chars(&cs, 7, cs.len()));
        assert(rest@ =~= name@.skip(7));
        extract_battle_prefix(rest.as_str())
    } else {
        extract_battle_prefix(name)
    };
    match found {
        Some(p) => Some(chars_of(p.as_str())),
        None => None,
    }
}

/// `d` lists, in increasing order, exactly the indices of `names` whose entry
/// belongs to a battle outside `kept`.
pub open spec fn deletes_exactly(names: Seq<Seq<char>>, kept: Set<Seq<char>>, d: Seq<usize>) -> bool {
    &&& forall|a: int, b: int| 0 <= a < b < d.len() ==> d[a] < d[b]
    &&& forall|k: int|
        0 <= k < d.len() ==> d[k] < names.len() && (entry_group(names[d[k] as int]) matches Some(
            g,
        ) && !kept.contains(g))
    &&& forall|i: int|
        #![trigger names[i]]
        0 <= i < names.len() && (entry_group(names[i]) matches Some(g) && !kept.contains(g))
            ==> d.contains(i as usize)
}

/// Indices of the entries that "clear history" deletes: every entry that
/// belongs to a battle; protected names and other files stay.
pub fn plan_clear(names: &Vec<String>) -> (d: Vec<usize>)
    ensures
        deletes_exactly(names@.map_values(|n: String| n@), Set::empty(), d@),
{
    let ghost ns = names@.map_values(|n: String| n@);
    let mut d: Vec<usize> = Vec::new();
    let mut i: usize = 0;
    while i < names.len()
        invariant
            ns == names@.map_values(|n: String| n@),
            i <= names.len(),
            forall|a: int, b: int| 0 <= a < b < d.len() ==> d[a] < d[b],
            forall|k: int| 0 <= k < d.len() ==> d[k] < i && entry_group(ns[d[k] as int]) is Some,
            forall|j: int| 0 <= j < i && entry_group(ns[j]) is Some ==> d@.contains(j as usize),
        decreases names.len() - i,
    {
        let g = report_group(names[i].as_str());
        assert(ns[i as int] == names@[i as int]@);
        if g.is_some() {
            d.push(i);
            assert(d@[d.len() - 1] == i);
        }
        i += 1;
    }
    d
}

/// Entry names of a reports directory together with their modification times.
pub struct ReportEntry {
    pub name: String,
    /// Modification time in nanoseconds since the Unix epoch.
    pub modified: u128,
}

/// The names of `es`.
pub open spec fn entry_names(es: Seq<ReportEntry>) -> Seq<Seq<char>> {
    es.map_values(|e: ReportEntry| e.name@)
}

/// Entry `i` of `es` belongs to battle `g`.
pub open spec fn in_group(es: Seq<ReportEntry>, i: int, g: Seq<char>) -> bool {
    0 <= i < es.len() && entry_group(es[i].name@) == Some(g)
}

/// The battles that have at least one entry in `es`.
pub open spec fn battle_groups(es: Seq<ReportEntry>) -> Set<Seq<char>> {
    Set::new(|g: Seq<char>| exists|i: int| in_group(es, i, g))
}

/// The newest entry of battle `a` is at least as new as every entry of battle `b`.
pub open spec fn newer_or_same(es: Seq<ReportEntry>, a: Seq<char>, b: Seq<char>) -> bool {
    forall|i: int|
        #![trigger in_group(es, i, b)]
        in_group(es, i, b) ==> exists|j: int|
            #![trigger in_group(es, j, a)]
            in_group(es, j, a) && es[j].modified >= es[i].modified
}

/// `kept` is a choice of the `keep` most recent battles of `es` (all of them
/// when there are no more than `keep`), and `d` lists exactly the entries of
/// the other battles.
pub open spec fn prune_plan(es: Seq<ReportEntry>, keep: nat, kept: Set<Seq<char>>, d: Seq<usize>) -> bool {
    &&& kept.subset_of(battle_groups(es))
    &&& kept.finite()
    &&& if battle_groups(es).len() <= keep {
        kept == battle_groups(es)
    } else {
        kept.len() == keep
    }
    &&& forall|a: Seq<char>, b: Seq<char>|
        kept.contains(a) && battle_groups(es).contains(b) && !kept.contains(b) ==> newer_or_same(
            es,
            a,
            b,
        )
    &&& deletes_exactly(entry_names(es), kept, d)
}

/// The views of a sequence of character vectors.
pub open spec fn char_views(v: Seq<Vec<char>>) -> Seq<Seq<char>> {
    v.map_values(|x: Vec<char>| x@)
}

/// Position of `key` in `groups`, if present.
fn find_group(groups: &Vec<Vec<char>>, key: &Vec<char>) -> (r: Option<usize>)
    ensures
        match r {
            Some(g) => g < groups.len() && groups@[g as int]@ == key@,
            None => forall|g: int| 0 <= g < groups.len() ==> groups@[g]@ != key@,
        },
{
    let mut g: usize = 0;
    while g < groups.len()
        invariant
            g <= groups.len(),
            forall|h: int| 0 <= h < g ==> groups@[h]@ != key@,
        decreases groups.len() - g,
    {
        if chars_equal(&groups[g], key) {
            return Some(g);
        }
        g += 1;
    }
    None
}

proof fn lemma_battle_groups_finite(es: Seq<ReportEntry>)
    ensures
        battle_groups(es).finite(),
    decreases es.len(),
{
    if es.len() == 0 {
        assert(battle_groups(es) =~= Set::empty());
    } else {
        let init = es.drop_last();
        lemma_battle_groups_finite(init);
        let last = es.len() - 1;
        let extra = match entry_group(es[last].name@) {
            Some(g) => Set::empty().insert(g),
            None => Set::empty(),
        };
        assert forall|g: Seq<char>| battle_groups(es).contains(g) implies battle_groups(
            init,
        ).union(extra).contains(g) by {
            let i = choose|i: int| in_group(es, i, g);
            if i < last {
                assert(in_group(init, i, g));
            }
        }
        assert(battle_groups(es).subset_of(battle_groups(init).union(extra)));
        vstd::set_lib::lemma_set_subset_finite(battle_groups(init).union(extra), battle_groups(es));
    }
}

/// Indices of the entries that automatic pruning deletes: the battles are
/// ordered by their newest entry, the `keep_recent` most recent battles stay
/// and every entry of the others goes. Protected names and names without a
/// battle id are never listed.
///
/// Battles are gathered in vectors of their ids and newest times rather than
/// in maps keyed by id: the ids are strings, and over string keys the map
/// specifications at hand prove nothing about what a lookup returns, so the
/// grouping is done by a verified linear search instead.
pub fn plan_prune(entries: &Vec<ReportEntry>, keep_recent: usize) -> (d: Vec<usize>)
    ensures
        exists|kept: Set<Seq<char>>| prune_plan(entries@, keep_recent as nat, kept, d@),
{
    let ghost es = entries@;
    let n = entries.len();
    // Battles seen so far, the newest modification time of each, and the
    // battle of every entry.
    let mut groups: Vec<Vec<char>> = Vec::new();
    let mut newest: Vec<u128> = Vec::new();
    let mut member: Vec<Option<usize>> = Vec::new();
    // For every battle, an entry that carries its newest time.
    let mut witness: Vec<usize> = Vec::new();
    let mut i: usize = 0;
    while i < n
        invariant
            es == entries@,
            n == es.len(),
            i <= n,
            groups.len() == newest.len(),
            member.len() == i,
            char_views(groups@).no_duplicates(),
            witness.len() == groups.len(),
            forall|g: int|
                #![trigger witness@[g]]
                0 <= g < groups.len() ==> witness@[g] < i && in_group(
                    es,
                    witness@[g] as int,
                    groups@[g]@,
                ) && es[witness@[g] as int].modified == newest@[g],
            forall|g: int, j: int|
                0 <= g < groups.len() && 0 <= j < i && in_group(es, j, groups@[g]@)
                    ==> es[j].modified <= newest@[g],
            forall|j: int|
                #![trigger member@[j]]
                0 <= j < i ==> match member@[j] {
                    Some(g) => g < groups.len() && entry_group(es[j].name@) == Some(
                        groups@[g as int]@,
                    ),
                    None => entry_group(es[j].name@) is None,
                },
        decreases n - i,
    {
        let key = report_group(entries[i].name.as_str());
        match key {
            None => {
                member.push(None);
            },
            Some(k) => {
                match find_group(&groups, &k) {
                    Some(g) => {
                        let ghost old_newest = newest@;
                        assert(in_group(es, i as int, groups@[g as int]@));
                        if entries[i].modified > newest[g] {
                            newest.set(g, entries[i].modified);
                            witness.set(g, i);
                        }
                        member.push(Some(g));
                        proof {
                            assert forall|h: int, j: int|
                                0 <= h < groups.len() && 0 <= j < i + 1 && in_group(
                                    es,
                                    j,
                                    groups@[h]@,
                                ) implies es[j].modified <= newest@[h] by {
                                if j < i {
                                    assert(es[j].modified <= old_newest[h]);
                                }
                                if j == i {
                                    assert(groups@[h]@ == groups@[g as int]@);
                                    if h != g {
                                        assert(char_views(groups@)[h] == char_views(groups@)[g as int]);
                                    }
                                }
                            }
                        }
                    },
                    None => {
                        let ghost old_groups = groups@;
                        let ghost old_newest = newest@;
                        groups.push(k);
                        newest.push(entries[i].modified);
                        witness.push(i);
                        member.push(Some(groups.len() - 1));
                        proof {
                            assert(char_views(groups@) =~= char_views(old_groups).push(k@));
                            assert forall|a: int, b: int|
                                0 <= a < b < char_views(groups@).len() implies char_views(
                                    groups@,
                                )[a] != char_views(groups@)[b] by {
                                if b == groups.len() - 1 {
                                    assert(old_groups[a]@ != k@);
                                } else {
                                    assert(char_views(old_groups)[a] != char_views(
                                        old_groups,
                                    )[b]);
                                }
                            }

                            assert forall|h: int, j: int|
                                0 <= h < groups.len() && 0 <= j < i + 1 && in_group(
                                    es,
                                    j,
                                    groups@[h]@,
                                ) implies es[j].modified <= newest@[h] by {
                                if h == groups.len() - 1 && j < i {
                                    match member@[j] {
                                        Some(g) => {
                                            assert(old_groups[g as int]@ == k@);
                                        },
                                        None => {},
                                    }
                                }
                            }
                        }
                    },
                }
            },
        }
        i += 1;
    }
    let ghost gs = char_views(groups@);
    proof {
        assert forall|g: Seq<char>| battle_groups(es).contains(g) <==> gs.to_set().contains(g) by {
            if battle_groups(es).contains(g) {
                let j = choose|j: int| in_group(es, j, g);
                match member@[j] {
                    Some(h) => {
                        assert(gs[h as int] == g);
                    },
                    None => {},
                }
            }
            if gs.to_set().contains(g) {
                let h = choose|h: int| 0 <= h < gs.len() && gs[h] == g;
                assert(groups@[h]@ == g);
                assert(in_group(es, witness@[h] as int, g));
            }
        }
        assert(battle_groups(es) =~= gs.to_set());
        gs.unique_seq_to_set();
    }
    if groups.len() <= keep_recent {
        let d: Vec<usize> = Vec::new();
        proof {
            lemma_battle_groups_finite(es);
            let kept = battle_groups(es);
            assert(deletes_exactly(entry_names(es), kept, d@)) by {
                assert forall|j: int|
                    #![trigger entry_names(es)[j]]
                    0 <= j < entry_names(es).len() && (entry_group(entry_names(es)[j]) matches Some(
                        g,
                    ) && !kept.contains(g)) implies d@.contains(j as usize) by {
                    assert(entry_names(es)[j] == es[j].name@);
                    let g = entry_group(es[j].name@)->0;
                    assert(in_group(es, j, g));
                }
            }
            assert(prune_plan(es, keep_recent as nat, kept, d@));
        }
        return d;
    }
    // Choose the `keep_recent` battles with the newest entries.
    let ng = groups.len();
    let mut chosen: Vec<bool> = Vec::new();
    let mut c: usize = 0;
    while c < ng
        invariant
            c <= ng,
            chosen.len() == c,
            forall|g: int| 0 <= g < c ==> !chosen@[g],
        decreases ng - c,
    {
        chosen.push(false);
        c += 1;
    }
    let mut order: Vec<usize> = Vec::new();
    let mut r: usize = 0;
    while r < keep_recent
        invariant
            ng == groups.len() == newest.len() == chosen.len(),
            keep_recent < ng,
            r <= keep_recent,
            order.len() == r,
            order@.no_duplicates(),
            forall|k: int| 0 <= k < r ==> order@[k] < ng,
            forall|g: int| 0 <= g < ng ==> (chosen@[g] <==> order@.contains(g as usize)),
            forall|a: int, b: int|
                0 <= a < ng && 0 <= b < ng && chosen@[a] && !chosen@[b] ==> newest@[a]
                    >= newest@[b],
        decreases keep_recent - r,
    {
        // Some battle is still unchosen: `order` holds `r < ng` distinct indices.
        let mut best: Option<usize> = None;
        let mut g: usize = 0;
        while g < ng
            invariant
                ng == groups.len() == newest.len() == chosen.len(),
                g <= ng,
                match best {
                    Some(b) => b < g && !chosen@[b as int] && forall|h: int|
                        0 <= h < g && !chosen@[h] ==> newest@[h] <= newest@[b as int],
                    None => forall|h: int| 0 <= h < g ==> chosen@[h],
                },
            decreases ng - g,
        {
            if !chosen[g] {
                match best {
                    None => {
                        best = Some(g);
                    },
                    Some(b) => {
                        if newest[g] > newest[b] {
                            best = Some(g);
                        }
                    },
                }
            }
            g += 1;
        }
        match best {
            None => {
                proof {
                    // Every index is chosen, so `order` would hold `ng > r` distinct values.
                    let s = Set::new(|x: usize| x < ng);
                    assert forall|x: usize| s.contains(x) implies order@.to_set().contains(x) by {
                        assert(chosen@[x as int]);
                    }
                    vstd::set_lib::lemma_int_range(0, ng as int);
                    assert(s =~= Set::new(|x: usize| x < ng));
                    lemma_usize_range_len(ng);
                    order@.unique_seq_to_set();
                    vstd::set_lib::lemma_len_subset(s, order@.to_set());
                }
                assert(false);
            },
            Some(b) => {
                let ghost old_order = order@;
                let ghost old_chosen = chosen@;
                chosen.set(b, true);
                order.push(b);
                proof {
                    assert forall|x: int, y: int|
                        0 <= x < y < order@.len() implies order@[x] != order@[y] by {
                        if y == order@.len() - 1 {
                            assert(old_order.contains(order@[x]));
                        }
                    }
                    assert forall|h: int|
                        0 <= h < ng implies (chosen@[h] <==> order@.contains(h as usize)) by {
                        if h == b {
                            assert(order@[order@.len() - 1] == b);
                        } else {
                            if order@.contains(h as usize) {
                                let k = choose|k: int| 0 <= k < order@.len() && order@[k] == h;
                                if k < old_order.len() {
                                    assert(old_order[k] == h);
                                }
                            }
                            if old_order.contains(h as usize) {
                                let k = choose|k: int| 0 <= k < old_order.len() && old_order[k] == h;
                                assert(order@[k] == h);
                            }
                        }
                    }
                }
            },
        }
        r += 1;
    }
    // Delete every entry whose battle was not chosen.
    let mut d: Vec<usize> = Vec::new();
    let mut j: usize = 0;
    while j < n
        invariant
            es == entries@,
            n == es.len(),
            j <= n,
            member.len() == n,
            ng == groups.len() == chosen.len(),
            gs == char_views(groups@),
            gs.no_duplicates(),
            forall|x: int|
                #![trigger member@[x]]
                0 <= x < n ==> match member@[x] {
                    Some(g) => g < groups.len() && entry_group(es[x].name@) == Some(
                        groups@[g as int]@,
                    ),
                    None => entry_group(es[x].name@) is None,
                },
            forall|a: int, b: int| 0 <= a < b < d.len() ==> d[a] < d[b],
            forall|k: int|
                #![trigger d[k]]
                0 <= k < d.len() ==> d[k] < j && (member@[d[k] as int] matches Some(g)
                    && !chosen@[g as int]),
            forall|x: int|
                #![trigger member@[x]]
                0 <= x < j && (member@[x] matches Some(g) && !chosen@[g as int]) ==> d@.contains(
                    x as usize,
                ),
        decreases n - j,
    {
        match member[j] {
            Some(g) => {
                if !chosen[g] {
                    d.push(j);
                    assert(d@[d.len() - 1] == j);
                }
            },
            None => {},
        }
        j += 1;
    }
    proof {
        let kept_seq = order@.map_values(|g: usize| gs[g as int]);
        let kept = kept_seq.to_set();
        assert forall|g: int| 0 <= g < ng implies (kept.contains(gs[g]) <==> chosen@[g]) by {
            if chosen@[g] {
                let k = choose|k: int| 0 <= k < order@.len() && order@[k] == g;
                assert(kept_seq[k] == gs[g]);
            }
            if kept.contains(gs[g]) {
                let k = choose|k: int| 0 <= k < kept_seq.len() && kept_seq[k] == gs[g];
                assert(gs[order@[k] as int] == gs[g]);
                assert(order@[k] == g);
                assert(order@.contains(g as usize));
            }
        }
        assert(kept_seq.no_duplicates()) by {
            assert forall|x: int, y: int|
                0 <= x < y < kept_seq.len() implies kept_seq[x] != kept_seq[y] by {
                assert(order@[x] != order@[y]);
            }
        }
        kept_seq.unique_seq_to_set();
        assert(kept.subset_of(battle_groups(es))) by {
            assert forall|g: Seq<char>| kept.contains(g) implies battle_groups(es).contains(g) by {
                let k = choose|k: int| 0 <= k < kept_seq.len() && kept_seq[k] == g;
                assert(gs.to_set().contains(gs[order@[k] as int]));
            }
        }
        assert forall|a: Seq<char>, b: Seq<char>|
            kept.contains(a) && battle_groups(es).contains(b) && !kept.contains(b) implies newer_or_same(
            es,
            a,
            b,
        ) by {
            let ka = choose|k: int| 0 <= k < kept_seq.len() && kept_seq[k] == a;
            let ga = order@[ka] as int;
            let gb = choose|h: int| 0 <= h < gs.len() && gs[h] == b;
            assert(chosen@[ga]);
            assert(!chosen@[gb]);
            assert(newest@[ga] >= newest@[gb]);
            let w = witness@[ga] as int;
            assert forall|x: int| in_group(es, x, b) implies exists|y: int|
                in_group(es, y, a) && es[y].modified >= es[x].modified by {
                assert(groups@[gb]@ == b);
                assert(es[x].modified <= newest@[gb]);
                assert(in_group(es, w, a));
            }
        }
        let names = entry_names(es);
        assert forall|k: int| 0 <= k < d.len() implies d@[k] < names.len() && (entry_group(
            names[d@[k] as int],
        ) matches Some(g) && !kept.contains(g)) by {
            let x = d@[k] as int;
            assert(names[x] == es[x].name@);
            let g = member@[x]->0 as int;
            assert(gs[g] == groups@[g]@);
        }
        assert forall|x: int|
            #![trigger names[x]]
            0 <= x < names.len() && (entry_group(names[x]) matches Some(g) && !kept.contains(g))
                implies d@.contains(x as usize) by {
            assert(names[x] == es[x].name@);
            let g = member@[x]->0 as int;
            assert(gs[g] == groups@[g]@);
        }
        assert(prune_plan(es, keep_recent as nat, kept, d@));
    }
    d
}

proof fn lemma_usize_range_len(n: usize)
    ensures
        Set::new(|x: usize| x < n).finite(),
        Set::new(|x: usize| x < n).len() == n,
    decreases n,
{
    if n == 0 {
        assert(Set::new(|x: usize| x < n) =~= Set::<usize>::empty());
    } else {
        let m = (n - 1) as usize;
        lemma_usize_range_len(m);
        assert(Set::new(|x: usize| x < n) =~= Set::new(|x: usize| x < m).insert(m));
    }
}

/// The elements of `s` whose index is not listed in `d`, in their order.
pub open spec fn remaining<A>(s: Seq<A>, d: Seq<usize>) -> Seq<A>
    decreases s.len(),
{
    if s.len() == 0 {
        s
    } else {
        let rest = remaining(s.drop_last(), d);
        if d.contains((s.len() - 1) as usize) {
            rest
        } else {
            rest.push(s.last())
        }
    }
}

proof fn lemma_remaining_origin<A>(s: Seq<A>, d: Seq<usize>, k: int)
    requires
        0 <= k < remaining(s, d).len(),
    ensures
        exists|i: int| 0 <= i < s.len() && !d.contains(i as usize) && remaining(s, d)[k] == s[i],
    decreases s.len(),
{
    if s.len() > 0 {
        let rest = remaining(s.drop_last(), d);
        if k < rest.len() {
            lemma_remaining_origin(s.drop_last(), d, k);
            let i = choose|i: int|
                0 <= i < s.drop_last().len() && !d.contains(i as usize) && rest[k]
                    == s.drop_last()[i];
            assert(s[i] == s.drop_last()[i]);
        } else {
            assert(remaining(s, d)[k] == s[s.len() - 1]);
        }
    }
}

/// Pruning is idempotent: once the planned entries are gone, pruning the
/// rest with the same limit deletes nothing.
pub proof fn lemma_prune_idempotent(
    es: Seq<ReportEntry>,
    keep: nat,
    kept: Set<Seq<char>>,
    d: Seq<usize>,
    kept2: Set<Seq<char>>,
    d2: Seq<usize>,
)
    requires
        prune_plan(es, keep, kept, d),
        prune_plan(remaining(es, d), keep, kept2, d2),
    ensures
        d2.len() == 0,
{
    let rest = remaining(es, d);
    assert forall|g: Seq<char>| battle_groups(rest).contains(g) implies kept.contains(g) by {
        let k = choose|k: int| in_group(rest, k, g);
        lemma_remaining_origin(es, d, k);
        let i = choose|i: int| 0 <= i < es.len() && !d.contains(i as usize) && rest[k] == es[i];
        assert(entry_names(es)[i] == es[i].name@);
        if !kept.contains(g) {
            assert(d.contains(i as usize));
        }
    }
    assert(battle_groups(rest).subset_of(kept));
    vstd::set_lib::lemma_len_subset(battle_groups(rest), kept);
    lemma_battle_groups_finite(es);
    assert(kept.len() <= keep);
    assert(kept2 == battle_groups(rest));
    if d2.len() > 0 {
        let x = d2[0] as int;
        assert(entry_names(rest)[x] == rest[x].name@);
        let g = entry_group(rest[x].name@)->0;
        assert(in_group(rest, x, g));
        assert(battle_groups(rest).contains(g));
    }
}

/// Clearing is idempotent: once the planned entries are gone, clearing the
/// rest deletes nothing.
pub proof fn lemma_clear_idempotent(names: Seq<Seq<char>>, d: Seq<usize>, d2: Seq<usize>)
    requires
        deletes_exactly(names, Set::empty(), d),
        deletes_exactly(remaining(names, d), Set::empty(), d2),
    ensures
        d2.len() == 0,
{
    if d2.len() > 0 {
        let x = d2[0] as int;
        lemma_remaining_origin(names, d, x);
        let i = choose|i: int|
            0 <= i < names.len() && !d.contains(i as usize) && remaining(names, d)[x] == names[i];
        assert(entry_group(names[i]) is Some);
        assert(d.contains(i as usize));
    }
}

/// Pruning only ever deletes entries that clearing would delete too; in
/// particular protected names and names without a battle id are never pruned.
pub proof fn lemma_prune_within_clear(
    es: Seq<ReportEntry>,
    keep: nat,
    kept: Set<Seq<char>>,
    d: Seq<usize>,
    k: int,
)
    requires
        prune_plan(es, keep, kept, d),
        0 <= k < d.len(),
    ensures
        d[k] < es.len(),
        !is_protected(es[d[k] as int].name@),
        entry_group(es[d[k] as int].name@) is Some,
{
    assert(entry_names(es)[d[k] as int] == es[d[k] as int].name@);
}

} // verus!
