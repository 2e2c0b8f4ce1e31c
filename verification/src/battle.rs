//! The records a battle produces and the parts of a verdict that do not
//! depend on the scores' arithmetic: who wins a tie, how the engine is
//! named, how weight overrides apply, and how a failed judge is reported.
use vstd::prelude::*;
use crate::axes::{axis_key_of, parse_axis_key, AxisKey};
use crate::i18n::{JudgeMode, Language};
use crate::text::{
    chars_of, is_white_space, is_whitespace, owned, push_str_chars, str_eq, string_of,
    to_uppercase, unicode_uppercase,
};

verus! {

broadcast use vstd::seq_lib::group_seq_properties;

/// The product name recorded in every result.
pub const PRODUCT_NAME: &'static str = "BetterThanYou";

/// The version of the local scoring engine.
pub const ENGINE_VERSION: &'static str = "deterministic-heuristic-v1";

/// The OpenAI model used when none is chosen.
pub const DEFAULT_OPENAI_MODEL: &'static str = "gpt-5.4-mini";

/// One portrait of a battle, as recorded in the result.
#[derive(Clone, Debug)]
pub struct PortraitRef {
    pub id: String,
    pub label: String,
    pub source_type: String,
    pub width: u32,
    pub height: u32,
    pub hash: String,
    pub image_data_url: String,
}

/// The two portraits of a battle.
#[derive(Clone, Debug)]
pub struct BattleInputs {
    pub left: PortraitRef,
    pub right: PortraitRef,
}

/// A text for each side of a battle.
#[derive(Clone, Debug)]
pub struct SideTexts {
    pub left: String,
    pub right: String,
}

/// The written part of a verdict.
#[derive(Clone, Debug)]
pub struct BattleSections {
    pub overall_take: String,
    pub strengths: SideTexts,
    pub weaknesses: SideTexts,
    pub why_this_won: String,
    pub model_jury_notes: String,
}

/// How a verdict was reached.
#[derive(Clone, Debug)]
pub struct EngineMeta {
    pub version: String,
    pub qualitative_sections: Vec<String>,
    pub judge_mode: String,
    pub provider: String,
    pub model: Option<String>,
}

/// Credentials and endpoint of an OpenAI-compatible judge.
#[derive(Clone, Debug)]
pub struct OpenAiConfig {
    pub api_key: Option<String>,
    pub base_url: Option<String>,
}

impl Default for OpenAiConfig {
    /// No key and no endpoint: both come from the environment then.
    fn default() -> (r: Self)
        ensures
            r.api_key is None,
            r.base_url is None,
    {
        OpenAiConfig { api_key: None, base_url: None }
    }
}

/// A share image made for one platform.
#[derive(Clone, Debug)]
pub struct ShareAsset {
    pub platform: String,
    pub image_path: String,
    pub caption: String,
    pub open_url: Option<String>,
    pub note: String,
}

/// The share images of a battle and where they were written.
#[derive(Clone, Debug)]
pub struct ShareBundle {
    pub directory: String,
    pub assets: Vec<ShareAsset>,
    pub manifest_path: String,
}

/// A battle published on the web with its share page.
#[derive(Clone, Debug)]
pub struct PublishedShareBundle {
    pub share_page_url: String,
    pub report_url: String,
    pub preview_image_url: String,
    pub provider: String,
    pub qr_ascii: String,
    pub caption: String,
    pub social_links: Vec<crate::share::SocialShareLink>,
}

/// The sections every verdict writes, in order.
pub open spec fn section_names() -> Seq<Seq<char>> {
    seq!["overall_take"@, "strengths"@, "weaknesses"@, "why_this_won"@, "model_jury_notes"@]
}

/// The sections every verdict writes, in order.
pub fn qualitative_sections() -> (r: Vec<String>)
    ensures
        r@.len() == 5,
        forall|i: int| 0 <= i < 5 ==> #[trigger] r@[i]@ == section_names()[i],
{
    vec![
        owned("overall_take"),
        owned("strengths"),
        owned("weaknesses"),
        owned("why_this_won"),
        owned("model_jury_notes"),
    ]
}

/// The engine a verdict names: the local engine's version for heuristic
/// judging (and for automatic judging that stayed local), else the provider
/// (`openai`, `anthropic`, `gemini`, or the one automatic judging picked),
/// `-` and the model (empty when unknown).
pub open spec fn engine_version_text(
    mode: JudgeMode,
    provider: Seq<char>,
    model: Option<Seq<char>>,
) -> Seq<char> {
    let m = match model {
        Some(s) => s,
        None => Seq::empty(),
    };
    match mode {
        JudgeMode::Heuristic => ENGINE_VERSION@,
        JudgeMode::Auto => if provider == "local"@ {
            ENGINE_VERSION@
        } else {
            provider + "-"@ + m
        },
        JudgeMode::Openai => "openai-"@ + m,
        JudgeMode::Anthropic => "anthropic-"@ + m,
        JudgeMode::Gemini => "gemini-"@ + m,
    }
}

/// The engine a verdict names (see [`engine_version_text`]).
pub fn engine_version(mode: JudgeMode, provider: &str, model: Option<&str>) -> (r: String)
    ensures
        r@ == engine_version_text(
            mode,
            provider@,
            match model {
                Some(s) => Some(s@),
                None => None,
            },
        ),
{
    let mut m: Vec<char> = Vec::new();
    match model {
        Some(s) => push_str_chars(&mut m, s),
        None => {},
    }
    let head = match mode {
        JudgeMode::Heuristic => {
            return owned(ENGINE_VERSION);
        },
        JudgeMode::Auto => {
            if str_eq(provider, "local") {
                return owned(ENGINE_VERSION);
            }
            let mut h = chars_of(provider);
            h.push('-');
            assert(h@ =~= provider@ + "-"@) by {
                reveal_strlit("-");
            }
            h
        },
        JudgeMode::Openai => chars_of("openai-"),
        JudgeMode::Anthropic => chars_of("anthropic-"),
        JudgeMode::Gemini => chars_of("gemini-"),
    };
    let mut out = head;
    crate::text::push_chars(&mut out, &m);
    string_of(&out)
}

/// The text of `s` outside `<...>` tags, and whether `s` ends inside one.
pub open spec fn untagged(s: Seq<char>) -> (Seq<char>, bool)
    decreases s.len(),
{
    if s.len() == 0 {
        (Seq::empty(), false)
    } else {
        let (out, in_tag) = untagged(s.drop_last());
        let c = s.last();
        if c == '<' {
            (out, true)
        } else if c == '>' {
            (out, false)
        } else if !in_tag {
            (out.push(c), in_tag)
        } else {
            (out, in_tag)
        }
    }
}

/// The words of `s` joined by single spaces, and whether a space is owed
/// before the next word.
pub open spec fn collapsed(s: Seq<char>) -> (Seq<char>, bool)
    decreases s.len(),
{
    if s.len() == 0 {
        (Seq::empty(), false)
    } else {
        let (out, pending) = collapsed(s.drop_last());
        let c = s.last();
        if is_white_space(c) {
            (out, out.len() > 0)
        } else if pending {
            (out.push(' ').push(c), false)
        } else {
            (out.push(c), false)
        }
    }
}

/// A judge's error made fit for a report: tags removed, white space
/// collapsed to single spaces between words, and, when longer than 240
/// characters, cut to 237 characters and an ellipsis.
pub open spec fn sanitized_reason(raw: Seq<char>) -> Seq<char> {
    let c = collapsed(untagged(raw).0).0;
    if c.len() > 240 {
        c.take(237).push('\u{2026}')
    } else {
        c
    }
}

/// A judge's error made fit for a report (see [`sanitized_reason`]).
pub fn sanitize_fallback_reason(raw: &str) -> (r: String)
    ensures
        r@ == sanitized_reason(raw@),
{
    let cs = chars_of(raw);
    let mut text: Vec<char> = Vec::new();
    let mut in_tag = false;
    let mut i: usize = 0;
    while i < cs.len()
        invariant
            i <= cs.len(),
            (text@, in_tag) == untagged(cs@.take(i as int)),
        decreases cs.len() - i,
    {
        assert(cs@.take(i + 1).drop_last() =~= cs@.take(i as int));
        let c = cs[i];
        if c == '<' {
            in_tag = true;
        } else if c == '>' {
            in_tag = false;
        } else if !in_tag {
            text.push(c);
        }
        i += 1;
    }
    assert(cs@.take(cs.len() as int) =~= cs@);
    let mut out: Vec<char> = Vec::new();
    let mut pending = false;
    let mut j: usize = 0;
    while j < text.len()
        invariant
            j <= text.len(),
            (out@, pending) == collapsed(text@.take(j as int)),
        decreases text.len() - j,
    {
        assert(text@.take(j + 1).drop_last() =~= text@.take(j as int));
        let c = text[j];
        if is_whitespace(c) {
            pending = out.len() > 0;
        } else {
            if pending {
                out.push(' ');
            }
            out.push(c);
            pending = false;
        }
        j += 1;
    }
    assert(text@.take(text.len() as int) =~= text@);
    if out.len() > 240 {
        let mut cut = crate::text::slice_chars(&out, 0, 237);
        cut.push('\u{2026}');
        assert(cut@ =~= out@.take(237).push('\u{2026}'));
        string_of(&cut)
    } else {
        string_of(&out)
    }
}

proof fn lemma_untagged_no_brackets(s: Seq<char>)
    ensures
        forall|k: int|
            0 <= k < untagged(s).0.len() ==> #[trigger] untagged(s).0[k] != '<' && untagged(s).0[k]
                != '>',
    decreases s.len(),
{
    if s.len() > 0 {
        let d = s.drop_last();
        lemma_untagged_no_brackets(d);
        let out = untagged(d).0;
        let o2 = untagged(s).0;
        assert forall|k: int| 0 <= k < o2.len() implies #[trigger] o2[k] != '<' && o2[k] != '>' by {
            if k < out.len() {
                assert(o2[k] == out[k]);
            }
        }
    }
}

/// The text collapsed from `s` keeps only single spaces between words and
/// no other white space, and its other characters come from `s`.
proof fn lemma_collapsed_shape(s: Seq<char>)
    ensures
        ({
            let (out, pending) = collapsed(s);
            &&& pending ==> out.len() > 0
            &&& forall|k: int| 0 <= k < out.len() && is_white_space(#[trigger] out[k]) ==> out[k] == ' '
            &&& forall|k: int| 0 <= k < out.len() ==> #[trigger] out[k] == ' ' || s.contains(out[k])
            &&& out.len() > 0 ==> out[0] != ' ' && out.last() != ' '
            &&& forall|k: int| 0 <= k < out.len() - 1 ==> !(#[trigger] out[k] == ' ' && out[k + 1] == ' ')
        }),
    decreases s.len(),
{
    if s.len() > 0 {
        let d = s.drop_last();
        lemma_collapsed_shape(d);
        let (out, pending) = collapsed(d);
        let c = s.last();
        assert forall|k: int| 0 <= k < out.len() && d.contains(#[trigger] out[k]) implies s.contains(out[k]) by {
            let j = choose|j: int| 0 <= j < d.len() && d[j] == out[k];
            assert(s[j] == d[j]);
        }
        assert(s[s.len() - 1] == c);
        if !is_white_space(c) {
            assert(c != ' ');
            let o2 = collapsed(s).0;
            assert forall|k: int| 0 <= k < o2.len() implies #[trigger] o2[k] == ' ' || s.contains(o2[k]) by {
                if k < out.len() {
                    assert(o2[k] == out[k]);
                    if out[k] != ' ' {
                        assert(d.contains(out[k]));
                    }
                }
            }
        }
    }
}

/// A judge's error as put in a report is at most 240 characters long, holds
/// no `<` or `>`, no white space but single spaces between words, and does
/// not start or end with a space.
pub proof fn lemma_sanitized_reason_shape(raw: Seq<char>)
    ensures
        ({
            let r = sanitized_reason(raw);
            &&& r.len() <= 240
            &&& forall|k: int| 0 <= k < r.len() ==> #[trigger] r[k] != '<' && r[k] != '>'
            &&& forall|k: int| 0 <= k < r.len() && is_white_space(#[trigger] r[k]) ==> r[k] == ' '
            &&& forall|k: int| 0 <= k < r.len() - 1 ==> !(#[trigger] r[k] == ' ' && r[k + 1] == ' ')
            &&& r.len() > 0 ==> r[0] != ' ' && r.last() != ' '
        }),
{
    let u = untagged(raw).0;
    lemma_untagged_no_brackets(raw);
    lemma_collapsed_shape(u);
    let c = collapsed(u).0;
    assert forall|k: int| 0 <= k < c.len() implies #[trigger] c[k] != '<' && c[k] != '>' by {
        if c[k] != ' ' {
            assert(u.contains(c[k]));
            let j = choose|j: int| 0 <= j < u.len() && u[j] == c[k];
            assert(u[j] != '<' && u[j] != '>');
        }
    }
    if c.len() > 240 {
        let n: int = 237;
        let r = c.take(n).push('\u{2026}');
        assert(r == sanitized_reason(raw));
        assert forall|k: int| 0 <= k < r.len() - 1 implies !(#[trigger] r[k] == ' ' && r[k + 1] == ' ') by {
            if k + 1 < n {
                assert(r[k] == c[k] && r[k + 1] == c[k + 1]);
            }
        }
        assert forall|k: int| 0 <= k < r.len() implies #[trigger] r[k] != '<' && r[k] != '>' by {
            if k < n {
                assert(r[k] == c[k]);
            }
        }
        assert forall|k: int| 0 <= k < r.len() && is_white_space(#[trigger] r[k]) implies r[k] == ' ' by {
            if k < n {
                assert(r[k] == c[k]);
            }
        }
        if n > 0 {
            assert(r[0] == c[0]);
        }
    }
}

/// The jury notes of a verdict whose judge failed: the notes, then that the
/// judge fell back to the heuristic one, and the cleaned-up reason.
pub fn notes_with_fallback(notes: &str, reason: &str) -> (r: String)
    ensures
        r@ == notes@ + " VLM judge unavailable \u{2014} fell back to heuristic. Reason: "@
            + sanitized_reason(reason@),
{
    let cleaned = sanitize_fallback_reason(reason);
    let mut out = chars_of(notes);
    push_str_chars(&mut out, " VLM judge unavailable \u{2014} fell back to heuristic. Reason: ");
    push_str_chars(&mut out, cleaned.as_str());
    string_of(&out)
}

/// Number of entries of `leaders` equal to `side`.
pub open spec fn lead_count(leaders: Seq<Seq<char>>, side: Seq<char>) -> nat
    decreases leaders.len(),
{
    if leaders.len() == 0 {
        0
    } else {
        lead_count(leaders.drop_last(), side) + if leaders.last() == side {
            1nat
        } else {
            0nat
        }
    }
}

/// Whether `a` comes after `b` in lexicographic order of code points (the
/// order of `String` comparison, since UTF-8 keeps code point order).
pub open spec fn lex_greater(a: Seq<char>, b: Seq<char>) -> bool
    decreases a.len(),
{
    if a.len() == 0 {
        false
    } else if b.len() == 0 {
        true
    } else if a[0] != b[0] {
        (a[0] as u32) > (b[0] as u32)
    } else {
        lex_greater(a.drop_first(), b.drop_first())
    }
}

fn greater(a: &Vec<char>, b: &Vec<char>) -> (r: bool)
    ensures
        r == lex_greater(a@, b@),
{
    let mut i: usize = 0;
    while i < a.len() && i < b.len() && a[i] == b[i]
        invariant
            i <= a.len(),
            i <= b.len(),
            lex_greater(a@, b@) == lex_greater(a@.skip(i as int), b@.skip(i as int)),
        decreases a.len() - i,
    {
        assert(a@.skip(i as int).drop_first() =~= a@.skip(i + 1));
        assert(b@.skip(i as int).drop_first() =~= b@.skip(i + 1));
        i += 1;
    }
    if i == a.len() {
        false
    } else if i == b.len() {
        true
    } else {
        (a[i] as u32) > (b[i] as u32)
    }
}

/// The winner of a battle whose totals are level: the side leading more
/// axes, or, when they lead as many, the side whose portrait hash sorts
/// higher (the right one when the hashes are equal).
pub open spec fn tie_winner(leaders: Seq<Seq<char>>, left_hash: Seq<char>, right_hash: Seq<
    char,
>) -> Seq<char> {
    let l = lead_count(leaders, "left"@);
    let r = lead_count(leaders, "right"@);
    if l == r {
        if lex_greater(left_hash, right_hash) {
            "left"@
        } else {
            "right"@
        }
    } else if l > r {
        "left"@
    } else {
        "right"@
    }
}

/// The winner of a battle whose totals are level (see [`tie_winner`]);
/// `leaders` holds the leader of each axis (`left`, `right` or `tie`).
pub fn tie_break_winner(leaders: &Vec<String>, left_hash: &str, right_hash: &str) -> (r:
    &'static str)
    ensures
        r@ == tie_winner(
            Seq::new(leaders@.len(), |i: int| leaders@[i]@),
            left_hash@,
            right_hash@,
        ),
{
    let ghost views = Seq::new(leaders@.len(), |i: int| leaders@[i]@);
    let mut l: usize = 0;
    let mut r: usize = 0;
    let mut i: usize = 0;
    while i < leaders.len()
        invariant
            i <= leaders.len(),
            views == Seq::new(leaders@.len(), |k: int| leaders@[k]@),
            l == lead_count(views.take(i as int), "left"@),
            r == lead_count(views.take(i as int), "right"@),
            l <= i,
            r <= i,
        decreases leaders.len() - i,
    {
        assert(views.take(i + 1).drop_last() =~= views.take(i as int));
        assert(views.take(i + 1).last() == leaders@[i as int]@);
        if str_eq(leaders[i].as_str(), "left") {
            l += 1;
        }
        if str_eq(leaders[i].as_str(), "right") {
            r += 1;
        }
        i += 1;
    }
    assert(views.take(leaders.len() as int) =~= views);
    if l == r {
        let a = chars_of(left_hash);
        let b = chars_of(right_hash);
        if greater(&a, &b) {
            "left"
        } else {
            "right"
        }
    } else if l > r {
        "left"
    } else {
        "right"
    }
}

/// The side a judge asked for, when it named one of the two sides.
pub fn preferred_side(preferred: Option<&str>) -> (r: Option<&'static str>)
    ensures
        match preferred {
            Some(p) => if p@ == "left"@ {
                r == Some("left")
            } else if p@ == "right"@ {
                r == Some("right")
            } else {
                r is None
            },
            None => r is None,
        },
{
    match preferred {
        Some(p) => {
            if str_eq(p, "left") {
                Some("left")
            } else if str_eq(p, "right") {
                Some("right")
            } else {
                None
            }
        },
        None => None,
    }
}

/// Why a list of axis weight overrides was refused: the position of the
/// first override with a weight that is not a finite non-negative number,
/// or that names no axis.
#[derive(Clone, Copy, Debug, PartialEq, Eq, Structural)]
pub enum OverrideError {
    InvalidWeight(usize),
    UnknownKey(usize),
}

/// Weights of the axes in their standard order after applying overrides in
/// order: each override sets the weight of the axis it names; the first
/// override with an invalid weight, or naming no axis, refuses the list.
pub open spec fn overridden<W>(
    base: Seq<W>,
    keys: Seq<Seq<char>>,
    weights: Seq<W>,
    valid: Seq<bool>,
    n: int,
) -> Result<Seq<W>, OverrideError>
    decreases n,
{
    if n <= 0 {
        Ok(base)
    } else {
        match overridden(base, keys, weights, valid, n - 1) {
            Err(e) => Err(e),
            Ok(w) => if !valid[n - 1] {
                Err(OverrideError::InvalidWeight((n - 1) as usize))
            } else {
                match axis_key_of(keys[n - 1]) {
                    Some(a) => Ok(w.update(axis_position(a), weights[n - 1])),
                    None => Err(OverrideError::UnknownKey((n - 1) as usize)),
                }
            },
        }
    }
}

proof fn lemma_overridden_error_stays<W>(
    base: Seq<W>,
    keys: Seq<Seq<char>>,
    weights: Seq<W>,
    valid: Seq<bool>,
    m: int,
    n: int,
)
    requires
        0 <= m <= n,
        overridden(base, keys, weights, valid, m) is Err,
    ensures
        overridden(base, keys, weights, valid, n) == overridden(base, keys, weights, valid, m),
    decreases n - m,
{
    if n > m {
        lemma_overridden_error_stays(base, keys, weights, valid, m, n - 1);
    }
}

/// The position of an axis in the standard order.
pub open spec fn axis_position(a: AxisKey) -> int {
    match a {
        AxisKey::FacialSymmetry => 0,
        AxisKey::FacialProportions => 1,
        AxisKey::SkinQuality => 2,
        AxisKey::EyeExpression => 3,
        AxisKey::HairGrooming => 4,
        AxisKey::BoneStructure => 5,
        AxisKey::ExpressionCharisma => 6,
        AxisKey::LightingColor => 7,
        AxisKey::BackgroundFraming => 8,
        AxisKey::PhotogenicImpact => 9,
    }
}

fn axis_slot(a: AxisKey) -> (i: usize)
    ensures
        i == axis_position(a),
{
    match a {
        AxisKey::FacialSymmetry => 0,
        AxisKey::FacialProportions => 1,
        AxisKey::SkinQuality => 2,
        AxisKey::EyeExpression => 3,
        AxisKey::HairGrooming => 4,
        AxisKey::BoneStructure => 5,
        AxisKey::ExpressionCharisma => 6,
        AxisKey::LightingColor => 7,
        AxisKey::BackgroundFraming => 8,
        AxisKey::PhotogenicImpact => 9,
    }
}

/// Applies axis weight overrides to the weights of the ten axes, kept in
/// their standard order (see [`overridden`]); `valid[i]` tells whether the
/// weight of override `i` is a finite non-negative number.
pub fn apply_axis_overrides<W: Copy>(
    weights: &Vec<W>,
    overrides: &Vec<(String, W)>,
    valid: &Vec<bool>,
) -> (r: Result<Vec<W>, OverrideError>)
    requires
        weights@.len() == 10,
        valid@.len() == overrides@.len(),
    ensures
        match r {
            Ok(w) => overridden(
                weights@,
                Seq::new(overrides@.len(), |i: int| overrides@[i].0@),
                Seq::new(overrides@.len(), |i: int| overrides@[i].1),
                valid@,
                overrides@.len() as int,
            ) == Ok::<Seq<W>, OverrideError>(w@),
            Err(e) => overridden(
                weights@,
                Seq::new(overrides@.len(), |i: int| overrides@[i].0@),
                Seq::new(overrides@.len(), |i: int| overrides@[i].1),
                valid@,
                overrides@.len() as int,
            ) == Err::<Seq<W>, OverrideError>(e),
        },
{
    let ghost keys = Seq::new(overrides@.len(), |i: int| overrides@[i].0@);
    let ghost ws = Seq::new(overrides@.len(), |i: int| overrides@[i].1);
    let mut out: Vec<W> = Vec::new();
    let mut k: usize = 0;
    while k < weights.len()
        invariant
            k <= weights.len(),
            out@ == weights@.take(k as int),
        decreases weights.len() - k,
    {
        out.push(weights[k]);
        assert(out@ =~= weights@.take(k + 1));
        k += 1;
    }
    assert(out@ =~= weights@);
    let mut i: usize = 0;
    while i < overrides.len()
        invariant
            i <= overrides.len(),
            valid@.len() == overrides@.len(),
            out@.len() == 10,
            keys == Seq::new(overrides@.len(), |j: int| overrides@[j].0@),
            ws == Seq::new(overrides@.len(), |j: int| overrides@[j].1),
            overridden(weights@, keys, ws, valid@, i as int) == Ok::<Seq<W>, OverrideError>(out@),
        decreases overrides.len() - i,
    {
        if !valid[i] {
            proof {
                lemma_overridden_error_stays(weights@, keys, ws, valid@, i + 1, overrides@.len() as int);
            }
            return Err(OverrideError::InvalidWeight(i));
        }
        match parse_axis_key(overrides[i].0.as_str()) {
            Some(a) => {
                let slot = axis_slot(a);
                out.set(slot, overrides[i].1);
            },
            None => {
                proof {
                    lemma_overridden_error_stays(weights@, keys, ws, valid@, i + 1, overrides@.len() as int);
                }
                return Err(OverrideError::UnknownKey(i));
            },
        }
        i += 1;
    }
    Ok(out)
}

/// The vision-language judge a battle asks: the one chosen, or, for
/// automatic judging, the first whose API key is present among OpenAI,
/// Anthropic and Gemini; none for heuristic judging or when automatic
/// judging finds no key.
pub open spec fn vlm_mode_for(mode: JudgeMode, openai_key: bool, anthropic_key: bool, gemini_key: bool) -> Option<JudgeMode> {
    match mode {
        JudgeMode::Openai => Some(JudgeMode::Openai),
        JudgeMode::Anthropic => Some(JudgeMode::Anthropic),
        JudgeMode::Gemini => Some(JudgeMode::Gemini),
        JudgeMode::Auto => if openai_key {
            Some(JudgeMode::Openai)
        } else if anthropic_key {
            Some(JudgeMode::Anthropic)
        } else if gemini_key {
            Some(JudgeMode::Gemini)
        } else {
            None
        },
        JudgeMode::Heuristic => None,
    }
}

/// The vision-language judge a battle asks (see [`vlm_mode_for`]); the
/// flags tell which API keys are present.
pub fn select_vlm_mode(mode: JudgeMode, openai_key: bool, anthropic_key: bool, gemini_key: bool) -> (r: Option<JudgeMode>)
    ensures
        r == vlm_mode_for(mode, openai_key, anthropic_key, gemini_key),
{
    match mode {
        JudgeMode::Openai => Some(JudgeMode::Openai),
        JudgeMode::Anthropic => Some(JudgeMode::Anthropic),
        JudgeMode::Gemini => Some(JudgeMode::Gemini),
        JudgeMode::Auto => {
            if openai_key {
                Some(JudgeMode::Openai)
            } else if anthropic_key {
                Some(JudgeMode::Anthropic)
            } else if gemini_key {
                Some(JudgeMode::Gemini)
            } else {
                None
            }
        },
        JudgeMode::Heuristic => None,
    }
}

/// What a battle does when its vision-language judge fails: automatic
/// judging falls back to the heuristic verdict and records why; a judge
/// chosen explicitly makes the battle fail.
pub fn falls_back_on_judge_error(mode: JudgeMode) -> (r: bool)
    ensures
        r == (mode == JudgeMode::Auto),
{
    match mode {
        JudgeMode::Auto => true,
        _ => false,
    }
}

/// The note recorded when automatic judging found no API key.
pub fn missing_key_note(mode: JudgeMode, vlm: Option<JudgeMode>) -> (r: Option<&'static str>)
    ensures
        match r {
            Some(n) => mode == JudgeMode::Auto && vlm is None && n@ == "No VLM API key detected. Using heuristic judge."@,
            None => !(mode == JudgeMode::Auto && vlm is None),
        },
{
    match (mode, vlm) {
        (JudgeMode::Auto, None) => Some("No VLM API key detected. Using heuristic judge."),
        _ => None,
    }
}

/// How far apart the totals of a battle are.
#[derive(Clone, Copy, Debug, PartialEq, Eq, Structural)]
pub enum Intensity {
    Crushing,
    Clear,
    Controlled,
    Narrow,
}

/// The one-line verdict summary for a winner and a loser, by language and
/// by how far apart their totals are.
pub open spec fn verdict_text(
    lang: Language,
    intensity: Intensity,
    winner: Seq<char>,
    loser: Seq<char>,
) -> Seq<char> {
    match lang {
        Language::Korean => match intensity {
            Intensity::Crushing => winner + "이(가) "@ + loser + "을(를) 압도적으로 이겼습니다"@,
            Intensity::Clear => winner + "이(가) "@ + loser + "보다 확실히 앞섰습니다"@,
            Intensity::Controlled => winner + "이(가) 안정적으로 "@ + loser + "을(를) 이겼습니다"@,
            Intensity::Narrow => winner + "이(가) 근소한 차이로 "@ + loser + "을(를) 이겼습니다"@,
        },
        Language::Japanese => match intensity {
            Intensity::Crushing => winner + "が"@ + loser + "を圧倒的に打ち破った"@,
            Intensity::Clear => winner + "が"@ + loser + "を明確に上回った"@,
            Intensity::Controlled => winner + "が"@ + loser + "を着実に制した"@,
            Intensity::Narrow => winner + "が"@ + loser + "をわずかに上回った"@,
        },
        Language::English => match intensity {
            Intensity::Crushing => unicode_uppercase(winner) + " CRUSHED "@ + unicode_uppercase(
                loser,
            ),
            Intensity::Clear => winner + " clearly outpaced "@ + loser,
            Intensity::Controlled => winner + " controlled the battle over "@ + loser,
            Intensity::Narrow => winner + " narrowly edged out "@ + loser,
        },
    }
}

fn join3(a: &str, b: &str, c: &str, d: &str) -> (r: String)
    ensures
        r@ == a@ + b@ + c@ + d@,
{
    let mut out = chars_of(a);
    push_str_chars(&mut out, b);
    push_str_chars(&mut out, c);
    push_str_chars(&mut out, d);
    string_of(&out)
}

fn join2(a: &str, b: &str, c: &str) -> (r: String)
    ensures
        r@ == a@ + b@ + c@,
{
    let mut out = chars_of(a);
    push_str_chars(&mut out, b);
    push_str_chars(&mut out, c);
    string_of(&out)
}

/// The one-line verdict summary (see [`verdict_text`]).
pub fn verdict_phrase(lang: Language, intensity: Intensity, winner_label: &str, loser_label: &str) -> (r:
    String)
    ensures
        r@ == verdict_text(lang, intensity, winner_label@, loser_label@),
{
    match lang {
        Language::Korean => match intensity {
            Intensity::Crushing => join3(winner_label, "이(가) ", loser_label, "을(를) 압도적으로 이겼습니다"),
            Intensity::Clear => join3(winner_label, "이(가) ", loser_label, "보다 확실히 앞섰습니다"),
            Intensity::Controlled => join3(winner_label, "이(가) 안정적으로 ", loser_label, "을(를) 이겼습니다"),
            Intensity::Narrow => join3(winner_label, "이(가) 근소한 차이로 ", loser_label, "을(를) 이겼습니다"),
        },
        Language::Japanese => match intensity {
            Intensity::Crushing => join3(winner_label, "が", loser_label, "を圧倒的に打ち破った"),
            Intensity::Clear => join3(winner_label, "が", loser_label, "を明確に上回った"),
            Intensity::Controlled => join3(winner_label, "が", loser_label, "を着実に制した"),
            Intensity::Narrow => join3(winner_label, "が", loser_label, "をわずかに上回った"),
        },
        Language::English => match intensity {
            Intensity::Crushing => {
                let w = to_uppercase(winner_label);
                let l = to_uppercase(loser_label);
                join2(w.as_str(), " CRUSHED ", l.as_str())
            },
            Intensity::Clear => join2(winner_label, " clearly outpaced ", loser_label),
            Intensity::Controlled => join2(winner_label, " controlled the battle over ", loser_label),
            Intensity::Narrow => join2(winner_label, " narrowly edged out ", loser_label),
        },
    }
}

/// How a battle's judge is chosen. An explicitly chosen vision judge is
/// always asked and the heuristic judge asks none. Automatic judging asks a
/// vision judge exactly when some API key is present, preferring OpenAI,
/// then Anthropic, then Gemini: it asks a judge only when that judge's key is
/// present and no preferred key is.
pub proof fn lemma_judge_choice(mode: JudgeMode, openai_key: bool, anthropic_key: bool, gemini_key: bool)
    ensures
        ({
            let r = vlm_mode_for(mode, openai_key, anthropic_key, gemini_key);
            &&& mode == JudgeMode::Heuristic ==> r is None
            &&& (mode == JudgeMode::Openai || mode == JudgeMode::Anthropic || mode == JudgeMode::Gemini)
                ==> r == Some(mode)
            &&& mode == JudgeMode::Auto ==> (r is None <==> !(openai_key || anthropic_key || gemini_key))
            &&& mode == JudgeMode::Auto ==> (r == Some(JudgeMode::Openai) <==> openai_key)
            &&& mode == JudgeMode::Auto ==> (r == Some(JudgeMode::Anthropic) <==> (!openai_key
                && anthropic_key))
            &&& mode == JudgeMode::Auto ==> (r == Some(JudgeMode::Gemini) <==> (!openai_key
                && !anthropic_key && gemini_key))
            &&& r != Some(JudgeMode::Auto) && r != Some(JudgeMode::Heuristic)
        }),
{
}

} // verus!
