//! The decisions of the interactive terminal app: menu navigation, what a
//! chosen menu entry means, settings values and the small rules of its
//! screens. The screens themselves are drawn by the application.
use vstd::prelude::*;
use crate::axes::{axis_key_of, parse_axis_key, AxisKey};
use crate::i18n::{Language, MessageKey};
use crate::reports::{first_index_of, lemma_first_index_of};
use crate::sources::{apply_paste, cleaned_path, clean_path, pasted_input};
use crate::text::{
    chars_of, ends_with, has_prefix, has_suffix, owned, slice_chars, starts_with, str_eq,
    string_of, to_lowercase, trim, trim_chars, trim_char, trim_spec, unicode_lowercase,
};

verus! {

broadcast use vstd::seq_lib::group_seq_properties;

/// The judge chosen on the command line or in the settings.
#[derive(Clone, Copy, Debug, PartialEq, Eq, Structural)]
pub enum JudgeCli {
    Auto,
    Heuristic,
    Openai,
    Anthropic,
    Gemini,
    Grok,
}

/// The name of a judge choice.
pub open spec fn judge_cli_name(j: JudgeCli) -> Seq<char> {
    match j {
        JudgeCli::Auto => "auto"@,
        JudgeCli::Heuristic => "heuristic"@,
        JudgeCli::Openai => "openai"@,
        JudgeCli::Anthropic => "anthropic"@,
        JudgeCli::Gemini => "gemini"@,
        JudgeCli::Grok => "grok"@,
    }
}

impl JudgeCli {
    /// The name of this judge choice.
    pub fn as_str(&self) -> (r: &'static str)
        ensures
            r@ == judge_cli_name(*self),
    {
        match self {
            JudgeCli::Auto => "auto",
            JudgeCli::Heuristic => "heuristic",
            JudgeCli::Openai => "openai",
            JudgeCli::Anthropic => "anthropic",
            JudgeCli::Gemini => "gemini",
            JudgeCli::Grok => "grok",
        }
    }
}

/// The judging mode of the engine a judge choice runs: every choice but
/// Grok, for which the engine has no judge.
pub open spec fn engine_mode_of(j: JudgeCli) -> Option<crate::i18n::JudgeMode> {
    match j {
        JudgeCli::Auto => Some(crate::i18n::JudgeMode::Auto),
        JudgeCli::Heuristic => Some(crate::i18n::JudgeMode::Heuristic),
        JudgeCli::Openai => Some(crate::i18n::JudgeMode::Openai),
        JudgeCli::Anthropic => Some(crate::i18n::JudgeMode::Anthropic),
        JudgeCli::Gemini => Some(crate::i18n::JudgeMode::Gemini),
        JudgeCli::Grok => None,
    }
}

/// The judging mode of the engine a judge choice runs (see
/// [`engine_mode_of`]).
pub fn judge_mode_of(j: JudgeCli) -> (r: Option<crate::i18n::JudgeMode>)
    ensures
        r == engine_mode_of(j),
{
    match j {
        JudgeCli::Auto => Some(crate::i18n::JudgeMode::Auto),
        JudgeCli::Heuristic => Some(crate::i18n::JudgeMode::Heuristic),
        JudgeCli::Openai => Some(crate::i18n::JudgeMode::Openai),
        JudgeCli::Anthropic => Some(crate::i18n::JudgeMode::Anthropic),
        JudgeCli::Gemini => Some(crate::i18n::JudgeMode::Gemini),
        JudgeCli::Grok => None,
    }
}

/// The position of a judge in the judge menu: auto, OpenAI, Anthropic,
/// Gemini, Grok, heuristic.
pub open spec fn judge_position(j: JudgeCli) -> usize {
    match j {
        JudgeCli::Auto => 0,
        JudgeCli::Openai => 1,
        JudgeCli::Anthropic => 2,
        JudgeCli::Gemini => 3,
        JudgeCli::Grok => 4,
        JudgeCli::Heuristic => 5,
    }
}

/// The position of `judge` in the judge menu.
pub fn judge_index(judge: &JudgeCli) -> (r: usize)
    ensures
        r == judge_position(*judge),
{
    match judge {
        JudgeCli::Auto => 0,
        JudgeCli::Openai => 1,
        JudgeCli::Anthropic => 2,
        JudgeCli::Gemini => 3,
        JudgeCli::Grok => 4,
        JudgeCli::Heuristic => 5,
    }
}

/// The judge picked at a position of the judge menu; positions past Grok
/// pick the heuristic judge.
pub open spec fn judge_at(choice: usize) -> JudgeCli {
    if choice == 0 {
        JudgeCli::Auto
    } else if choice == 1 {
        JudgeCli::Openai
    } else if choice == 2 {
        JudgeCli::Anthropic
    } else if choice == 3 {
        JudgeCli::Gemini
    } else if choice == 4 {
        JudgeCli::Grok
    } else {
        JudgeCli::Heuristic
    }
}

/// The judge picked at a position of the judge menu.
pub fn judge_from_choice(choice: usize) -> (r: JudgeCli)
    ensures
        r == judge_at(choice),
{
    if choice == 0 {
        JudgeCli::Auto
    } else if choice == 1 {
        JudgeCli::Openai
    } else if choice == 2 {
        JudgeCli::Anthropic
    } else if choice == 3 {
        JudgeCli::Gemini
    } else if choice == 4 {
        JudgeCli::Grok
    } else {
        JudgeCli::Heuristic
    }
}

/// Picking a judge at its own position in the judge menu gives it back, and
/// every position of the menu's six entries names a different judge.
pub proof fn lemma_judge_menu_round_trip(j: JudgeCli, choice: usize)
    ensures
        judge_at(judge_position(j)) == j,
        judge_position(j) < 6,
        choice < 6 ==> judge_position(judge_at(choice)) == choice,
{
}

/// The position of a language in the language menu: English, Korean,
/// Japanese.
pub open spec fn language_position(l: Language) -> usize {
    match l {
        Language::English => 0,
        Language::Korean => 1,
        Language::Japanese => 2,
    }
}

/// The position of `lang` in the language menu.
pub fn language_index(lang: Language) -> (r: usize)
    ensures
        r == language_position(lang),
{
    match lang {
        Language::English => 0,
        Language::Korean => 1,
        Language::Japanese => 2,
    }
}

/// The language picked at a position of the language menu; any other
/// position picks English.
pub open spec fn language_at(choice: usize) -> Language {
    if choice == 1 {
        Language::Korean
    } else if choice == 2 {
        Language::Japanese
    } else {
        Language::English
    }
}

/// The language picked at a position of the language menu.
pub fn language_from_choice(choice: usize) -> (r: Language)
    ensures
        r == language_at(choice),
{
    if choice == 1 {
        Language::Korean
    } else if choice == 2 {
        Language::Japanese
    } else {
        Language::English
    }
}

/// Picking a language at its own position in the language menu gives it
/// back.
pub proof fn lemma_language_menu_round_trip(l: Language)
    ensures
        language_at(language_position(l)) == l,
        language_position(l) < 3,
{
}

/// The entry a menu with `count` entries starts on: the requested one,
/// moved up to the last entry when past the end.
pub open spec fn menu_start_index(initial: usize, count: usize) -> usize {
    let last = if count > 0 {
        (count - 1) as usize
    } else {
        0
    };
    if initial < last {
        initial
    } else {
        last
    }
}

/// The entry a menu with `count` entries starts on.
pub fn menu_start(initial: usize, count: usize) -> (r: usize)
    ensures
        r == menu_start_index(initial, count),
{
    let last = count.saturating_sub(1);
    if initial < last {
        initial
    } else {
        last
    }
}

/// What a menu gives back: the menu drawn on screen answers with the chosen
/// entry, or with none when closed; when it could not be drawn at all
/// (`outcome` is `None`), the entry it would have started on is taken.
pub open spec fn menu_result(outcome: Option<Option<usize>>, initial: usize, count: usize) -> Option<
    usize,
> {
    match outcome {
        Some(r) => r,
        None => Some(menu_start_index(initial, count)),
    }
}

/// What a menu gives back, given what the screen answered (see
/// [`menu_result`]).
pub fn select_menu(outcome: Option<Option<usize>>, initial_index: usize, item_count: usize) -> (r:
    Option<usize>)
    ensures
        r == menu_result(outcome, initial_index, item_count),
{
    match outcome {
        Some(r) => r,
        None => Some(menu_start(initial_index, item_count)),
    }
}

/// A key pressed in a menu.
#[derive(Clone, Copy, Debug, PartialEq, Eq, Structural)]
pub enum MenuKey {
    /// Up arrow or `k`.
    Up,
    /// Down arrow or `j`.
    Down,
    /// Enter.
    Select,
    /// Escape or `q`.
    Close,
    /// Any other key.
    Other,
}

/// What a key does to a menu.
#[derive(Clone, Copy, Debug, PartialEq, Eq, Structural)]
pub enum MenuStep {
    /// The menu stays open with this entry highlighted.
    At(usize),
    /// This entry was chosen.
    Chosen(usize),
    /// The menu was closed without a choice.
    Closed,
}

/// What `key` does in a menu of `count` entries with entry `selected`
/// highlighted: up moves one entry up (stopping at the first), down one
/// entry down (stopping at the last), enter chooses, escape closes.
pub open spec fn menu_next(selected: usize, count: usize, key: MenuKey) -> MenuStep {
    match key {
        MenuKey::Up => MenuStep::At(
            if selected > 0 {
                (selected - 1) as usize
            } else {
                0
            },
        ),
        MenuKey::Down => MenuStep::At(
            if selected + 1 < count {
                (selected + 1) as usize
            } else {
                selected
            },
        ),
        MenuKey::Select => MenuStep::Chosen(selected),
        MenuKey::Close => MenuStep::Closed,
        MenuKey::Other => MenuStep::At(selected),
    }
}

/// What `key` does in a menu (see [`menu_next`]).
pub fn menu_step(selected: usize, count: usize, key: MenuKey) -> (r: MenuStep)
    ensures
        r == menu_next(selected, count, key),
{
    match key {
        MenuKey::Up => MenuStep::At(selected.saturating_sub(1)),
        MenuKey::Down => {
            if selected < usize::MAX && selected + 1 < count {
                MenuStep::At(selected + 1)
            } else {
                MenuStep::At(selected)
            }
        },
        MenuKey::Select => MenuStep::Chosen(selected),
        MenuKey::Close => MenuStep::Closed,
        MenuKey::Other => MenuStep::At(selected),
    }
}

/// Navigation never leaves a non-empty menu: from its starting entry on,
/// every highlighted or chosen entry is one of its entries.
pub proof fn lemma_menu_stays_in_range(initial: usize, count: usize, selected: usize, key: MenuKey)
    requires
        count > 0,
    ensures
        menu_start_index(initial, count) < count,
        selected < count ==> match menu_next(selected, count, key) {
            MenuStep::At(n) => n < count,
            MenuStep::Chosen(n) => n < count,
            MenuStep::Closed => true,
        },
{
}

/// Moving down and then up returns to the same entry, unless the first move
/// was stopped by the end of the menu.
pub proof fn lemma_menu_down_up(selected: usize, count: usize)
    requires
        selected + 1 < count,
    ensures
        menu_next(selected, count, MenuKey::Down) == MenuStep::At((selected + 1) as usize),
        menu_next((selected + 1) as usize, count, MenuKey::Up) == MenuStep::At(selected),
{
}

/// The icon shown before a menu entry, chosen by how its lowercased label
/// starts.
pub open spec fn icon_for_lowercase(l: Seq<char>) -> Seq<char> {
    if has_prefix(l, "start battle"@) || has_prefix(l, "rematch"@) {
        "\u{2694} "@
    } else if has_prefix(l, "choose new"@) {
        "\u{1F3AF} "@
    } else if has_prefix(l, "open"@) {
        "\u{1F4C4} "@
    } else if has_prefix(l, "share"@) {
        "\u{1F4E4} "@
    } else if has_prefix(l, "settings"@) {
        "\u{2699} "@
    } else if has_prefix(l, "star"@) {
        "\u{2B50} "@
    } else if has_prefix(l, "quit"@) || has_prefix(l, "back"@) {
        "\u{1F6AA} "@
    } else if has_prefix(l, "judge"@) {
        "\u{2696} "@
    } else if has_prefix(l, "openai"@) {
        "\u{1F511} "@
    } else if has_prefix(l, "labels"@) {
        "\u{1F3F7} "@
    } else if has_prefix(l, "paste"@) {
        "\u{1F4CB} "@
    } else if has_prefix(l, "output"@) {
        "\u{1F4C2} "@
    } else if has_prefix(l, "aesthetic"@) {
        "\u{1F3A8} "@
    } else if has_prefix(l, "enter"@) || has_prefix(l, "set"@) {
        "\u{270F} "@
    } else if has_prefix(l, "clear"@) {
        "\u{1F5D1} "@
    } else if has_prefix(l, "switch"@) {
        "\u{1F500} "@
    } else if has_prefix(l, "cancel"@) {
        "\u{274C} "@
    } else if has_prefix(l, "reset"@) {
        "\u{1F504} "@
    } else if has_prefix(l, "auto"@) {
        "\u{26A1} "@
    } else if has_prefix(l, "heuristic"@) {
        "\u{1F9EA} "@
    } else {
        "\u{25B8} "@
    }
}

/// The icon shown before a menu entry (see [`icon_for_lowercase`]).
pub fn icon_for_item(label: &str) -> (r: &'static str)
    ensures
        r@ == icon_for_lowercase(unicode_lowercase(label@)),
{
    let lower = to_lowercase(label);
    let l = chars_of(lower.as_str());
    if starts_with(&l, "start battle") || starts_with(&l, "rematch") {
        "\u{2694} "
    } else if starts_with(&l, "choose new") {
        "\u{1F3AF} "
    } else if starts_with(&l, "open") {
        "\u{1F4C4} "
    } else if starts_with(&l, "share") {
        "\u{1F4E4} "
    } else if starts_with(&l, "settings") {
        "\u{2699} "
    } else if starts_with(&l, "star") {
        "\u{2B50} "
    } else if starts_with(&l, "quit") || starts_with(&l, "back") {
        "\u{1F6AA} "
    } else if starts_with(&l, "judge") {
        "\u{2696} "
    } else if starts_with(&l, "openai") {
        "\u{1F511} "
    } else if starts_with(&l, "labels") {
        "\u{1F3F7} "
    } else if starts_with(&l, "paste") {
        "\u{1F4CB} "
    } else if starts_with(&l, "output") {
        "\u{1F4C2} "
    } else if starts_with(&l, "aesthetic") {
        "\u{1F3A8} "
    } else if starts_with(&l, "enter") || starts_with(&l, "set") {
        "\u{270F} "
    } else if starts_with(&l, "clear") {
        "\u{1F5D1} "
    } else if starts_with(&l, "switch") {
        "\u{1F500} "
    } else if starts_with(&l, "cancel") {
        "\u{274C} "
    } else if starts_with(&l, "reset") {
        "\u{1F504} "
    } else if starts_with(&l, "auto") {
        "\u{26A1} "
    } else if starts_with(&l, "heuristic") {
        "\u{1F9EA} "
    } else {
        "\u{25B8} "
    }
}

/// A GitHub star counts as given only when it was recorded together with
/// where it was given: through the `gh` command line tool or on the web.
pub open spec fn star_given(acknowledged: bool, source: Option<Seq<char>>) -> bool {
    acknowledged && match source {
        Some(s) => s == "gh"@ || s == "web"@,
        None => false,
    }
}

/// Whether the user has starred the project (see [`star_given`]).
pub fn star_acknowledged(acknowledged: bool, source: Option<&str>) -> (r: bool)
    ensures
        r == star_given(
            acknowledged,
            match source {
                Some(s) => Some(s@),
                None => None,
            },
        ),
{
    acknowledged && match source {
        Some(s) => str_eq(s, "gh") || str_eq(s, "web"),
        None => false,
    }
}

/// The public share service used when none is configured.
pub fn default_publish_url() -> (r: &'static str)
    ensures
        r@ == "https://better-than-you.nomadamas.org"@,
{
    "https://better-than-you.nomadamas.org"
}

/// Whether a setting holds more than white space.
pub open spec fn is_set(v: Option<Seq<char>>) -> bool {
    match v {
        Some(s) => trim_spec(s).len() > 0,
        None => false,
    }
}

fn blank(s: &str) -> (r: bool)
    ensures
        r == (trim_spec(s@).len() == 0),
{
    let t = trim(s);
    let cs = chars_of(t.as_str());
    cs.len() == 0
}

/// The public share URL in effect: the saved one when set, else the one
/// from the environment when set, else the default service.
pub open spec fn publish_url_in_effect(saved: Option<Seq<char>>, env: Option<Seq<char>>) -> Seq<
    char,
> {
    if is_set(saved) {
        saved->0
    } else if is_set(env) {
        env->0
    } else {
        "https://better-than-you.nomadamas.org"@
    }
}

/// The public share URL in effect always holds more than white space.
pub proof fn lemma_publish_url_never_blank(saved: Option<Seq<char>>, env: Option<Seq<char>>)
    ensures
        trim_spec(publish_url_in_effect(saved, env)).len() > 0,
{
    if !is_set(saved) && !is_set(env) {
        let d = "https://better-than-you.nomadamas.org"@;
        reveal_strlit("https://better-than-you.nomadamas.org");
        assert(crate::text::trim_start_spec(d) == d);
        assert(crate::text::trim_end_spec(d) == d);
    }
}

/// An optional string taken by its view.
pub open spec fn view_opt(o: Option<&str>) -> Option<Seq<char>> {
    match o {
        Some(s) => Some(s@),
        None => None,
    }
}

/// The public share URL in effect (see [`publish_url_in_effect`]); `env` is
/// the value of `BTYU_PUBLISH_URL`, if any.
pub fn effective_publish_url(saved: Option<&str>, env: Option<&str>) -> (r: String)
    ensures
        r@ == publish_url_in_effect(view_opt(saved), view_opt(env)),
{
    match saved {
        Some(s) => {
            if !blank(s) {
                return owned(s);
            }
        },
        None => {},
    }
    match env {
        Some(e) => {
            if !blank(e) {
                return owned(e);
            }
        },
        None => {},
    }
    owned(default_publish_url())
}

/// Whether a publish token is configured: the saved one, or one of the
/// token variables of the environment, holds more than white space.
pub open spec fn token_configured(saved: Option<Seq<char>>, env: Seq<Option<Seq<char>>>) -> bool {
    is_set(saved) || exists|i: int| 0 <= i < env.len() && is_set(#[trigger] env[i])
}

/// Views of optional strings.
pub open spec fn opt_string_views(v: Seq<Option<String>>) -> Seq<Option<Seq<char>>> {
    Seq::new(
        v.len(),
        |i: int|
            match v[i] {
                Some(s) => Some(s@),
                None => None,
            },
    )
}

/// Whether a publish token is configured (see [`token_configured`]); `env`
/// holds the values of the token variables of the environment.
pub fn publish_token_configured(saved: Option<&str>, env: &Vec<Option<String>>) -> (r: bool)
    ensures
        r == token_configured(view_opt(saved), opt_string_views(env@)),
{
    match saved {
        Some(s) => {
            if !blank(s) {
                return true;
            }
        },
        None => {},
    }
    let ghost ev = opt_string_views(env@);
    let mut i: usize = 0;
    while i < env.len()
        invariant
            i <= env.len(),
            ev == opt_string_views(env@),
            !is_set(view_opt(saved)),
            forall|k: int| 0 <= k < i ==> !is_set(#[trigger] ev[k]),
        decreases env.len() - i,
    {
        match &env[i] {
            Some(v) => {
                if !blank(v.as_str()) {
                    assert(is_set(ev[i as int]));
                    return true;
                }
            },
            None => {},
        }
        i += 1;
    }
    false
}

/// `s` with every trailing `/` removed.
pub open spec fn without_trailing_slashes(s: Seq<char>) -> Seq<char>
    decreases s.len(),
{
    if s.len() > 0 && s.last() == '/' {
        without_trailing_slashes(s.drop_last())
    } else {
        s
    }
}

fn strip_trailing_slashes(cs: &Vec<char>) -> (r: Vec<char>)
    ensures
        r@ == without_trailing_slashes(cs@),
{
    let mut n: usize = cs.len();
    while n > 0 && cs[n - 1] == '/'
        invariant
            n <= cs.len(),
            without_trailing_slashes(cs@.take(n as int)) == without_trailing_slashes(cs@),
        decreases n,
    {
        assert(cs@.take(n as int).drop_last() =~= cs@.take(n - 1));
        n -= 1;
    }
    assert(cs@.take(cs.len() as int) =~= cs@);
    slice_chars(cs, 0, n)
}

/// The share endpoint and token read from the environment: both must hold
/// more than white space; the endpoint loses its trailing slashes.
pub open spec fn publish_config_of(url: Option<Seq<char>>, token: Option<Seq<char>>) -> Option<
    (Seq<char>, Seq<char>),
> {
    if is_set(url) && is_set(token) {
        Some((without_trailing_slashes(url->0), token->0))
    } else {
        None
    }
}

/// The share endpoint and token to publish with (see [`publish_config_of`]);
/// `url` and `token` are the values of `BTYU_PUBLISH_URL` and
/// `BTYU_PUBLISH_TOKEN`, if any.
pub fn publish_config_from(url: Option<&str>, token: Option<&str>) -> (r: Option<(String, String)>)
    ensures
        match r {
            Some((u, t)) => publish_config_of(view_opt(url), view_opt(token)) == Some((u@, t@)),
            None => publish_config_of(view_opt(url), view_opt(token)) is None,
        },
{
    match (url, token) {
        (Some(u), Some(t)) => {
            if blank(u) || blank(t) {
                return None;
            }
            let uc = chars_of(u);
            let stripped = strip_trailing_slashes(&uc);
            Some((string_of(&stripped), owned(t)))
        },
        _ => None,
    }
}

/// A share URL as typed in the settings: trimmed, without trailing slashes;
/// `None` when only white space was typed.
pub fn normalize_publish_url(input: &str) -> (r: Option<String>)
    ensures
        match r {
            Some(u) => trim_spec(input@).len() > 0 && u@ == without_trailing_slashes(
                trim_spec(input@),
            ),
            None => trim_spec(input@).len() == 0,
        },
{
    let cs = chars_of(input);
    let t = trim_chars(&cs);
    if t.len() == 0 {
        return None;
    }
    let s = strip_trailing_slashes(&t);
    Some(string_of(&s))
}

/// A name or token as typed: trimmed, `None` when nothing is left.
pub fn optional_text(input: &str) -> (r: Option<String>)
    ensures
        match r {
            Some(t) => trim_spec(input@).len() > 0 && t@ == trim_spec(input@),
            None => trim_spec(input@).len() == 0,
        },
{
    let t = trim(input);
    let cs = chars_of(t.as_str());
    if cs.len() == 0 {
        None
    } else {
        Some(t)
    }
}

/// What the main menu offers, in order: start a battle, open the report,
/// share, settings, the star request while no star is recorded, and quit.
pub open spec fn main_menu_keys(star_ack: bool) -> Seq<MessageKey> {
    if star_ack {
        seq![
            MessageKey::StartBattle,
            MessageKey::OpenReport,
            MessageKey::ShareResult,
            MessageKey::Settings,
            MessageKey::Quit,
        ]
    } else {
        seq![
            MessageKey::StartBattle,
            MessageKey::OpenReport,
            MessageKey::ShareResult,
            MessageKey::Settings,
            MessageKey::StarGithub,
            MessageKey::Quit,
        ]
    }
}

/// What the menu shown after a battle offers, in order.
pub open spec fn next_menu_keys(star_ack: bool) -> Seq<MessageKey> {
    let head = seq![
        MessageKey::Rematch,
        MessageKey::NewPortraits,
        MessageKey::ShareResult,
        MessageKey::PublishWeb,
        MessageKey::ServeLan,
        MessageKey::OpenReport,
        MessageKey::Settings,
    ];
    if star_ack {
        head + seq![MessageKey::Back, MessageKey::Quit]
    } else {
        head + seq![MessageKey::StarGithub, MessageKey::Back, MessageKey::Quit]
    }
}

/// The entries of a menu, in order.
pub fn menu_keys(after_battle: bool, star_ack: bool) -> (r: Vec<MessageKey>)
    ensures
        r@ == if after_battle {
            next_menu_keys(star_ack)
        } else {
            main_menu_keys(star_ack)
        },
{
    let mut r: Vec<MessageKey> = Vec::new();
    if after_battle {
        r.push(MessageKey::Rematch);
        r.push(MessageKey::NewPortraits);
        r.push(MessageKey::ShareResult);
        r.push(MessageKey::PublishWeb);
        r.push(MessageKey::ServeLan);
        r.push(MessageKey::OpenReport);
        r.push(MessageKey::Settings);
        if !star_ack {
            r.push(MessageKey::StarGithub);
        }
        r.push(MessageKey::Back);
        r.push(MessageKey::Quit);
    } else {
        r.push(MessageKey::StartBattle);
        r.push(MessageKey::OpenReport);
        r.push(MessageKey::ShareResult);
        r.push(MessageKey::Settings);
        if !star_ack {
            r.push(MessageKey::StarGithub);
        }
        r.push(MessageKey::Quit);
    }
    assert(r@ =~= if after_battle {
        next_menu_keys(star_ack)
    } else {
        main_menu_keys(star_ack)
    });
    r
}

/// The action of a menu answer: the entry chosen, or quitting when the menu
/// was closed or the answer is past its entries.
pub open spec fn menu_action_of(keys: Seq<MessageKey>, choice: Option<usize>) -> MessageKey {
    match choice {
        Some(i) => if i < keys.len() {
            keys[i as int]
        } else {
            MessageKey::Quit
        },
        None => MessageKey::Quit,
    }
}

/// The action of a menu answer (see [`menu_action_of`]).
pub fn menu_action(keys: &Vec<MessageKey>, choice: Option<usize>) -> (r: MessageKey)
    ensures
        r == menu_action_of(keys@, choice),
{
    match choice {
        Some(i) => {
            if i < keys.len() {
                keys[i]
            } else {
                MessageKey::Quit
            }
        },
        None => MessageKey::Quit,
    }
}

/// The vertical offset of a bouncing face in an animation frame: the two
/// faces bounce two frames apart through 0, 0, -1, -1, 0, 0, 1, 1.
pub open spec fn bounce_at(frame: int, side: bool) -> int {
    let phase = (if side {
        frame
    } else {
        frame + 2
    }) % 8;
    if phase < 2 {
        0
    } else if phase < 4 {
        -1
    } else if phase < 6 {
        0
    } else {
        1
    }
}

/// The vertical offset of a bouncing face (see [`bounce_at`]).
pub fn face_bounce(frame: u64, side: bool) -> (r: i16)
    ensures
        r == bounce_at(frame as int, side),
{
    let phase: u64 = if side {
        frame % 8
    } else {
        (frame % 8 + 2) % 8
    };
    assert((frame as int % 8 + 2) % 8 == (frame as int + 2) % 8) by (nonlinear_arith);
    match phase {
        0 | 1 => 0,
        2 | 3 => -1,
        4 | 5 => 0,
        _ => 1,
    }
}

/// A colour as red, green and blue.
pub type Rgb = (u8, u8, u8);

/// Magenta.
pub const NEON_MAGENTA: Rgb = (255, 60, 200);

/// Gold.
pub const NEON_GOLD: Rgb = (255, 214, 107);

/// Cyan.
pub const NEON_CYAN: Rgb = (0, 255, 220);

/// Orange.
pub const NEON_ORANGE: Rgb = (255, 143, 66);

/// Blue.
pub const NEON_BLUE: Rgb = (100, 180, 255);

/// Green.
pub const NEON_GREEN: Rgb = (80, 255, 120);

/// Red.
pub const NEON_RED: Rgb = (255, 70, 70);

/// Purple.
pub const NEON_PURPLE: Rgb = (180, 120, 255);

/// The colour of the sparks around the VS sign, cycling every six frames.
pub open spec fn spark_rgb(frame: int) -> Rgb {
    let k = frame % 6;
    if k == 0 {
        NEON_MAGENTA
    } else if k == 1 {
        NEON_GOLD
    } else if k == 2 {
        NEON_CYAN
    } else if k == 3 {
        (255, 100, 100)
    } else if k == 4 {
        NEON_PURPLE
    } else {
        NEON_GREEN
    }
}

/// The colour of the sparks in an animation frame.
pub fn spark_color(frame: u64) -> (r: Rgb)
    ensures
        r == spark_rgb(frame as int),
{
    match frame % 6 {
        0 => NEON_MAGENTA,
        1 => NEON_GOLD,
        2 => NEON_CYAN,
        3 => (255, 100, 100),
        4 => NEON_PURPLE,
        _ => NEON_GREEN,
    }
}

/// The colour of the VS sign, changing every two frames through four colours.
pub open spec fn vs_rgb(frame: int) -> Rgb {
    let k = (frame / 2) % 4;
    if k == 0 {
        NEON_MAGENTA
    } else if k == 1 {
        (255, 255, 100)
    } else if k == 2 {
        NEON_CYAN
    } else {
        (255, 140, 50)
    }
}

/// The colour of the VS sign in an animation frame.
pub fn vs_color(frame: u64) -> (r: Rgb)
    ensures
        r == vs_rgb(frame as int),
{
    match (frame / 2) % 4 {
        0 => NEON_MAGENTA,
        1 => (255, 255, 100),
        2 => NEON_CYAN,
        _ => (255, 140, 50),
    }
}

/// The colour of a row of the logo, from magenta at the top to cyan.
pub open spec fn logo_rgb(row: int) -> Rgb {
    if row == 0 {
        (255, 60, 200)
    } else if row == 1 {
        (230, 80, 220)
    } else if row == 2 {
        (200, 120, 255)
    } else if row == 3 {
        (150, 160, 255)
    } else if row == 4 {
        (100, 200, 255)
    } else {
        (0, 255, 220)
    }
}

/// The colour of a row of the logo.
pub fn logo_gradient_color(row: usize) -> (r: Rgb)
    ensures
        r == logo_rgb(row as int),
{
    match row {
        0 => (255, 60, 200),
        1 => (230, 80, 220),
        2 => (200, 120, 255),
        3 => (150, 160, 255),
        4 => (100, 200, 255),
        _ => (0, 255, 220),
    }
}

/// How far a face's row glows in a frame: 0 to 19, moving two steps per
/// frame and three per row, on a byte that wraps.
pub open spec fn face_pulse(frame: int, row: int) -> int {
    (((frame % 256) * 2 + row * 3) % 256) % 20
}

/// The colour of a face's row: the challenger's warm orange, the
/// defender's cool blue, each brightened by the row's glow.
pub open spec fn face_rgb(frame: int, row: int, defender: bool) -> Rgb {
    let p = face_pulse(frame, row);
    let a = if p < 15 {
        p
    } else {
        15
    };
    let b = if p < 10 {
        p
    } else {
        10
    };
    if defender {
        ((160 + a) as u8, (190 + a) as u8, 255u8)
    } else {
        (255u8, (190 + a) as u8, (130 + b) as u8)
    }
}

/// The colour of a face's row (see [`face_rgb`]); the faces have far fewer
/// than 86 rows, past which the row's glow step no longer fits a byte.
pub fn face_color(frame: u64, row: usize, defender: bool) -> (r: Rgb)
    requires
        row < 86,
    ensures
        r == face_rgb(frame as int, row as int, defender),
{
    let p: u64 = (((frame % 256) * 2 + (row as u64) * 3) % 256) % 20;
    let a: u8 = if p < 15 {
        p as u8
    } else {
        15
    };
    let b: u8 = if p < 10 {
        p as u8
    } else {
        10
    };
    if defender {
        (160 + a, 190 + a, 255)
    } else {
        (255, 190 + a, 130 + b)
    }
}

/// The shade of the logo's row in a frame: the gradient moves down one row
/// every three frames.
pub open spec fn logo_row_rgb(frame: int, row: int) -> Rgb {
    logo_rgb((frame / 3 + row) % 6)
}

/// The colour of the logo's row in a frame (see [`logo_row_rgb`]).
pub fn logo_row_color(frame: u64, row: usize) -> (r: Rgb)
    requires
        frame / 3 + row <= usize::MAX,
    ensures
        r == logo_row_rgb(frame as int, row as int),
{
    let shift = ((frame / 3) as usize + row) % 6;
    logo_gradient_color(shift)
}

/// The colour of the star invitation, changing every two frames through
/// four golds.
pub open spec fn star_rgb(frame: int) -> Rgb {
    let k = (frame / 2) % 4;
    if k == 0 {
        (255, 215, 0)
    } else if k == 1 {
        (255, 235, 80)
    } else if k == 2 {
        (255, 200, 50)
    } else {
        (255, 245, 120)
    }
}

/// The colour of the star invitation (see [`star_rgb`]).
pub fn star_color(frame: u64) -> (r: Rgb)
    ensures
        r == star_rgb(frame as int),
{
    match (frame / 2) % 4 {
        0 => (255, 215, 0),
        1 => (255, 235, 80),
        2 => (255, 200, 50),
        _ => (255, 245, 120),
    }
}

/// The colour of the blinking start key: bright green and dark green in
/// turn, three frames each.
pub open spec fn enter_rgb(frame: int) -> Rgb {
    if (frame / 3) % 2 == 0 {
        NEON_GREEN
    } else {
        (40, 80, 40)
    }
}

/// The colour of the blinking start key (see [`enter_rgb`]).
pub fn enter_color(frame: u64) -> (r: Rgb)
    ensures
        r == enter_rgb(frame as int),
{
    if (frame / 3) % 2 == 0 {
        NEON_GREEN
    } else {
        (40, 80, 40)
    }
}

/// The phrase under the loading spinner, changing every eight frames.
pub open spec fn loading_phrase_text(frame: int) -> Seq<char> {
    let k = (frame / 8) % 8;
    if k == 0 {
        "Analyzing portraits..."@
    } else if k == 1 {
        "Measuring symmetry..."@
    } else if k == 2 {
        "Evaluating lighting..."@
    } else if k == 3 {
        "Judging composition..."@
    } else if k == 4 {
        "Comparing style aura..."@
    } else if k == 5 {
        "Scoring color vitality..."@
    } else if k == 6 {
        "Computing final scores..."@
    } else {
        "Rendering verdict..."@
    }
}

/// The phrase under the loading spinner in an animation frame.
pub fn loading_phrase(frame: u64) -> (r: &'static str)
    ensures
        r@ == loading_phrase_text(frame as int),
{
    match (frame / 8) % 8 {
        0 => "Analyzing portraits...",
        1 => "Measuring symmetry...",
        2 => "Evaluating lighting...",
        3 => "Judging composition...",
        4 => "Comparing style aura...",
        5 => "Scoring color vitality...",
        6 => "Computing final scores...",
        _ => "Rendering verdict...",
    }
}

/// The loading bar: filled cells sweep up to the full 30 and stay there,
/// in a cycle of 60 frames.
pub open spec fn loading_bar_text(frame: int) -> Seq<char> {
    let p = if frame % 60 < 30 {
        frame % 60
    } else {
        30
    };
    crate::text::repeat_char('\u{2588}', p as nat) + crate::text::repeat_char('\u{2591}', (30 - p) as nat)
}

/// The loading bar in an animation frame.
pub fn loading_bar(frame: u64) -> (r: String)
    ensures
        r@ == loading_bar_text(frame as int),
{
    let m = (frame % 60) as usize;
    let p: usize = if m < 30 {
        m
    } else {
        30
    };
    let mut out: Vec<char> = Vec::new();
    crate::text::push_repeat(&mut out, '\u{2588}', p);
    crate::text::push_repeat(&mut out, '\u{2591}', 30 - p);
    string_of(&out)
}

/// A key pressed on the splash screen.
#[derive(Clone, Copy, Debug, PartialEq, Eq, Structural)]
pub enum SplashKey {
    /// A character key.
    Char(char),
    /// Escape.
    Esc,
    /// Any other key.
    Other,
}

/// Whether a key pressed on the splash screen asks to star the project:
/// `s` or `S`, and only while no star is recorded. Any key leaves the screen.
pub fn splash_star_requested(key: SplashKey, star_acknowledged: bool) -> (r: bool)
    ensures
        r == (!star_acknowledged && (key == SplashKey::Char('s') || key == SplashKey::Char('S'))),
{
    match key {
        SplashKey::Char(c) => !star_acknowledged && (c == 's' || c == 'S'),
        _ => false,
    }
}

/// A key or paste in a text input.
#[derive(Clone, Debug)]
pub enum InputEvent {
    /// Enter.
    Enter,
    /// Escape.
    Esc,
    /// Backspace.
    Backspace,
    /// Tab or shift-tab.
    Tab,
    /// A typed character.
    Char(char),
    /// Pasted text.
    Paste(String),
    /// Anything else.
    Other,
}

/// What an event does to a single text input.
#[derive(Clone, Copy, Debug, PartialEq, Eq, Structural)]
pub enum TextStep {
    /// Keep editing.
    Editing,
    /// The input was confirmed.
    Confirmed,
    /// The input was cancelled.
    Cancelled,
}

/// The text after an edit: backspace drops the last character, a typed
/// character is appended, a paste is applied as [`pasted_input`] says.
pub open spec fn edited(text: Seq<char>, ev: InputEvent, quote_replaces: bool) -> Seq<char> {
    match ev {
        InputEvent::Backspace => if text.len() > 0 {
            text.drop_last()
        } else {
            text
        },
        InputEvent::Char(c) => text.push(c),
        InputEvent::Paste(p) => pasted_input(text, p@, quote_replaces),
        _ => text,
    }
}

fn edit(text: &mut String, ev: &InputEvent, quote_replaces: bool)
    ensures
        final(text)@ == edited(old(text)@, *ev, quote_replaces),
{
    match ev {
        InputEvent::Backspace => {
            let cs = chars_of(text.as_str());
            if cs.len() > 0 {
                let d = slice_chars(&cs, 0, cs.len() - 1);
                *text = string_of(&d);
            }
        },
        InputEvent::Char(c) => {
            crate::text::push_char(text, *c);
        },
        InputEvent::Paste(p) => {
            *text = apply_paste(text.as_str(), p.as_str(), quote_replaces);
        },
        _ => {},
    }
}

/// What an event does to a text input: enter confirms, escape cancels, and
/// anything else edits the text (see [`edited`]).
pub fn text_input_step(text: &mut String, ev: &InputEvent) -> (r: TextStep)
    ensures
        r == match *ev {
            InputEvent::Enter => TextStep::Confirmed,
            InputEvent::Esc => TextStep::Cancelled,
            _ => TextStep::Editing,
        },
        final(text)@ == match *ev {
            InputEvent::Enter | InputEvent::Esc => old(text)@,
            _ => edited(old(text)@, *ev, false),
        },
{
    match ev {
        InputEvent::Enter => TextStep::Confirmed,
        InputEvent::Esc => TextStep::Cancelled,
        _ => {
            edit(text, ev, false);
            TextStep::Editing
        },
    }
}

/// The two inputs of the battle setup screen and which one is active
/// (0 for the left portrait, 1 for the right one).
#[derive(Clone, Debug)]
pub struct BattleInput {
    pub left: String,
    pub right: String,
    pub active: usize,
}

/// What an event does on the battle setup screen.
#[derive(Clone, Debug)]
pub enum BattleInputStep {
    /// Keep editing.
    Editing,
    /// Both portraits are given: the cleaned-up left and right paths.
    Start(String, String),
    /// The screen was left without starting.
    Cancelled,
}

/// The other side.
pub open spec fn other_side(active: usize) -> usize {
    if active == 0 {
        1
    } else {
        0
    }
}

/// Whether the battle can start: both inputs hold more than white space.
pub open spec fn both_ready(left: Seq<char>, right: Seq<char>) -> bool {
    trim_spec(left).len() > 0 && trim_spec(right).len() > 0
}

/// The setup screen after an event, for events that do not end it: tab
/// switches sides, enter (with a side still empty) moves on from a filled
/// side, and other events edit the active side.
pub open spec fn battle_input_next(
    left: Seq<char>,
    right: Seq<char>,
    active: usize,
    ev: InputEvent,
) -> (Seq<char>, Seq<char>, usize) {
    match ev {
        InputEvent::Tab => (left, right, other_side(active)),
        InputEvent::Enter => if trim_spec(if active == 0 {
            left
        } else {
            right
        }).len() > 0 {
            (left, right, other_side(active))
        } else {
            (left, right, active)
        },
        InputEvent::Esc => (left, right, active),
        _ => if active == 0 {
            (edited(left, ev, true), right, active)
        } else {
            (left, edited(right, ev, true), active)
        },
    }
}

fn has_text(s: &String) -> (r: bool)
    ensures
        r == (trim_spec(s@).len() > 0),
{
    let t = trim(s.as_str());
    let cs = chars_of(t.as_str());
    cs.len() > 0
}

/// What an event does on the battle setup screen: escape leaves it; enter
/// starts the battle with both paths cleaned up (see
/// [`cleaned_path`]) once both are given; every other event changes the
/// screen as [`battle_input_next`] says.
pub fn battle_input_step(state: &mut BattleInput, ev: &InputEvent) -> (r: BattleInputStep)
    requires
        old(state).active <= 1,
    ensures
        final(state).active <= 1,
        match r {
            BattleInputStep::Cancelled => *ev is Esc && final(state).left@ == old(state).left@
                && final(state).right@ == old(state).right@ && final(state).active == old(state).active,
            BattleInputStep::Start(l, rt) => *ev is Enter && both_ready(
                old(state).left@,
                old(state).right@,
            ) && l@ == cleaned_path(old(state).left@) && rt@ == cleaned_path(old(state).right@),
            BattleInputStep::Editing => !(*ev is Esc) && !(*ev is Enter && both_ready(
                old(state).left@,
                old(state).right@,
            )) && (final(state).left@, final(state).right@, final(state).active)
                == battle_input_next(old(state).left@, old(state).right@, old(state).active, *ev),
        },
{
    match ev {
        InputEvent::Esc => BattleInputStep::Cancelled,
        InputEvent::Tab => {
            state.active = if state.active == 0 {
                1
            } else {
                0
            };
            BattleInputStep::Editing
        },
        InputEvent::Enter => {
            if has_text(&state.left) && has_text(&state.right) {
                return BattleInputStep::Start(
                    clean_path(state.left.as_str()),
                    clean_path(state.right.as_str()),
                );
            }
            let current = if state.active == 0 {
                has_text(&state.left)
            } else {
                has_text(&state.right)
            };
            if current {
                state.active = if state.active == 0 {
                    1
                } else {
                    0
                };
            }
            BattleInputStep::Editing
        },
        _ => {
            if state.active == 0 {
                edit(&mut state.left, ev, true);
            } else {
                edit(&mut state.right, ev, true);
            }
            BattleInputStep::Editing
        },
    }
}

/// A temporary preview image this app owns: `btyu-preview-*.png`.
pub fn is_preview_temp_name(name: &str) -> (r: bool)
    ensures
        r == (has_prefix(name@, "btyu-preview-"@) && has_suffix(name@, ".png"@)),
{
    let cs = chars_of(name);
    starts_with(&cs, "btyu-preview-") && ends_with(&cs, ".png")
}

/// Whether the update log is to be removed: older than a day, or larger
/// than 2 MiB. `age_secs` is its age when known.
pub fn update_log_expired(age_secs: Option<u64>, len: u64) -> (r: bool)
    ensures
        r == (match age_secs {
            Some(a) => a > 86400,
            None => false,
        } || len > 2097152),
{
    let old_enough = match age_secs {
        Some(a) => a > 24 * 60 * 60,
        None => false,
    };
    old_enough || len > 2 * 1024 * 1024
}

/// The index of the override for `key` in a list of axis weight overrides.
pub open spec fn override_index<W>(keys: Seq<(String, W)>, key: Seq<char>) -> int
    decreases keys.len(),
{
    if keys.len() == 0 {
        0
    } else if keys[0].0@ == key {
        0
    } else {
        1 + override_index(keys.drop_first(), key)
    }
}

proof fn lemma_override_index<W>(keys: Seq<(String, W)>, key: Seq<char>, i: int)
    requires
        0 <= i <= keys.len(),
        forall|k: int| 0 <= k < i ==> #[trigger] keys[k].0@ != key,
        i == keys.len() || keys[i].0@ == key,
    ensures
        override_index(keys, key) == i,
    decreases i,
{
    if i > 0 {
        let d = keys.drop_first();
        assert(keys[0].0@ != key);
        assert forall|k: int| 0 <= k < i - 1 implies #[trigger] d[k].0@ != key by {
            assert(d[k] == keys[k + 1]);
        }
        lemma_override_index(d, key, i - 1);
    }
}

/// The position of the first override for `key`, if there is one.
pub fn find_override<W>(overrides: &Vec<(String, W)>, key: &str) -> (r: Option<usize>)
    ensures
        match r {
            Some(i) => i == override_index(overrides@, key@) && i < overrides@.len()
                && overrides@[i as int].0@ == key@,
            None => override_index(overrides@, key@) == overrides@.len(),
        },
{
    let mut i: usize = 0;
    while i < overrides.len()
        invariant
            i <= overrides.len(),
            forall|k: int| 0 <= k < i ==> #[trigger] overrides@[k].0@ != key@,
        decreases overrides.len() - i,
    {
        if str_eq(overrides[i].0.as_str(), key) {
            proof {
                lemma_override_index(overrides@, key@, i as int);
            }
            return Some(i);
        }
        i += 1;
    }
    proof {
        lemma_override_index(overrides@, key@, i as int);
    }
    None
}

/// Sets the weight override of axis `key`: the first override for it gets
/// the new weight, or a new override is appended when there is none.
pub fn set_axis_weight<W>(overrides: &mut Vec<(String, W)>, key: &str, weight: W)
    ensures
        override_index(old(overrides)@, key@) < old(overrides)@.len() ==> {
            let i = override_index(old(overrides)@, key@);
            &&& final(overrides)@.len() == old(overrides)@.len()
            &&& final(overrides)@[i].0@ == key@
            &&& final(overrides)@[i].1 == weight
            &&& forall|k: int| 0 <= k < old(overrides)@.len() && k != i ==> #[trigger] final(overrides)@[k] == old(overrides)@[k]
        },
        override_index(old(overrides)@, key@) == old(overrides)@.len() ==> {
            &&& final(overrides)@.len() == old(overrides)@.len() + 1
            &&& final(overrides)@.last().0@ == key@
            &&& final(overrides)@.last().1 == weight
            &&& forall|k: int| 0 <= k < old(overrides)@.len() ==> #[trigger] final(overrides)@[k] == old(overrides)@[k]
        },
{
    match find_override(overrides, key) {
        Some(i) => {
            let name = overrides[i].0.clone();
            assert(name@ == key@);
            overrides.set(i, (name, weight));
        },
        None => {
            overrides.push((owned(key), weight));
        },
    }
}

/// An `--axis-weight` entry split at its first `=` into the axis key and
/// the weight text; `None` when there is no `=`.
pub fn split_axis_entry(entry: &str) -> (r: Option<(String, String)>)
    ensures
        match r {
            Some((k, v)) => first_index_of(entry@, '=') < entry@.len() && k@ == entry@.take(
                first_index_of(entry@, '='),
            ) && v@ == entry@.skip(first_index_of(entry@, '=') + 1),
            None => first_index_of(entry@, '=') == entry@.len(),
        },
{
    let cs = chars_of(entry);
    let mut i: usize = 0;
    while i < cs.len() && cs[i] != '='
        invariant
            i <= cs.len(),
            forall|k: int| 0 <= k < i ==> cs@[k] != '=',
        decreases cs.len() - i,
    {
        i += 1;
    }
    proof {
        lemma_first_index_of(cs@, '=', i as int);
    }
    if i == cs.len() {
        return None;
    }
    let k = slice_chars(&cs, 0, i);
    let v = slice_chars(&cs, i + 1, cs.len());
    assert(k@ =~= cs@.take(i as int));
    assert(v@ =~= cs@.skip(i + 1));
    Some((string_of(&k), string_of(&v)))
}

/// The position of the current model in a model list, or the first entry
/// when it is not listed.
pub fn model_index(models: &Vec<&str>, current: &str) -> (r: usize)
    ensures
        (exists|i: int| 0 <= i < models@.len() && models@[i]@ == current@) ==> r < models@.len()
            && models@[r as int]@ == current@ && forall|k: int|
            0 <= k < r ==> #[trigger] models@[k]@ != current@,
        !(exists|i: int| 0 <= i < models@.len() && models@[i]@ == current@) ==> r == 0,
{
    let mut i: usize = 0;
    while i < models.len()
        invariant
            i <= models.len(),
            forall|k: int| 0 <= k < i ==> #[trigger] models@[k]@ != current@,
        decreases models.len() - i,
    {
        if str_eq(models[i], current) {
            return i;
        }
        i += 1;
    }
    0
}

/// What the settings menu does for the entry picked in it.
#[derive(Clone, Copy, Debug, PartialEq, Eq, Structural)]
pub enum SettingsAction {
    JudgeMode,
    Model,
    Labels,
    PasteBoth,
    OutputDirectory,
    ApiKeys,
    PublicShare,
    AestheticTuning,
    Language,
    ClearReports,
    Back,
}

/// The settings menu's entries, in order: judge mode, model, labels, paste
/// both from the clipboard, output directory, API keys, public share,
/// aesthetic tuning, language, clear reports history and back. Leaving the
/// menu, or any other position, goes back.
pub open spec fn settings_action_of(choice: Option<usize>) -> SettingsAction {
    match choice {
        Some(0) => SettingsAction::JudgeMode,
        Some(1) => SettingsAction::Model,
        Some(2) => SettingsAction::Labels,
        Some(3) => SettingsAction::PasteBoth,
        Some(4) => SettingsAction::OutputDirectory,
        Some(5) => SettingsAction::ApiKeys,
        Some(6) => SettingsAction::PublicShare,
        Some(7) => SettingsAction::AestheticTuning,
        Some(8) => SettingsAction::Language,
        Some(9) => SettingsAction::ClearReports,
        _ => SettingsAction::Back,
    }
}

/// The action for the settings menu's outcome (see [`settings_action_of`]).
pub fn settings_step(choice: Option<usize>) -> (r: SettingsAction)
    ensures
        r == settings_action_of(choice),
{
    match choice {
        Some(0) => SettingsAction::JudgeMode,
        Some(1) => SettingsAction::Model,
        Some(2) => SettingsAction::Labels,
        Some(3) => SettingsAction::PasteBoth,
        Some(4) => SettingsAction::OutputDirectory,
        Some(5) => SettingsAction::ApiKeys,
        Some(6) => SettingsAction::PublicShare,
        Some(7) => SettingsAction::AestheticTuning,
        Some(8) => SettingsAction::Language,
        Some(9) => SettingsAction::ClearReports,
        _ => SettingsAction::Back,
    }
}

} // verus!
