//! The HTML report of a battle: which texts of the battle go into the page,
//! each escaped for HTML, and the markup of its rows and panels. The numbers
//! and rank letters come in already formatted; this module decides where
//! each goes and that nothing reaches the page unescaped.
use vstd::prelude::*;
use crate::axes::{axis_icon, axis_icon_text, axis_key_of};
use crate::battle::{verdict_phrase, verdict_text, Intensity, PRODUCT_NAME};
use crate::html::{html_escape, html_escaped};
use crate::i18n::{
    language_code_text, localized_axis_desc, localized_axis_label, localized_axis_short,
    message_text, t, t_text, Language, MessageKey,
};
use crate::pages::{
    report_page_template, report_page_template_text, share_page_template, share_page_template_text, REPORT_PAGE_PART_1, REPORT_PAGE_PART_2,
    REPORT_PAGE_PART_3, REPORT_PAGE_PART_4, REPORT_PAGE_PART_5, REPORT_PAGE_PART_6,
    REPORT_PAGE_PART_7, REPORT_PAGE_PART_8,
};
use crate::publish::{decimal_text, push_decimal};
use crate::template::{expanded, field_names, field_value, field_values, fill_template, first_field};
use crate::reports::{first_index_of, lemma_first_index_of_bounds};
use crate::text::{owned, push_chars, push_str_chars, replace_all, replace_spec, string_of};

verus! {

broadcast use vstd::seq_lib::group_seq_properties;

/// The side that leads an axis.
#[derive(Clone, Copy, Debug, PartialEq, Eq, Structural)]
pub enum Lead {
    Left,
    Right,
    Tie,
}

/// One axis of the report, its numbers already formatted.
pub struct ReportAxisRow {
    /// The axis key, such as `skin_quality`.
    pub key: String,
    /// Which side leads this axis.
    pub lead: Lead,
    /// Each side's score with no decimals, for the compact stats.
    pub left_score: String,
    pub right_score: String,
    /// Each side's score with one decimal.
    pub left_num: String,
    pub right_num: String,
    /// Each side's bar width in percent.
    pub left_pct: String,
    pub right_pct: String,
    /// Each side's rank letter and its class.
    pub left_rank: String,
    pub left_rank_class: String,
    pub right_rank: String,
    pub right_rank_class: String,
    /// The gap between the two scores with no decimals and with one.
    pub diff_whole: String,
    pub diff: String,
}

/// The texts of a battle that its report shows, numbers already formatted.
pub struct ReportTexts {
    pub left_label: String,
    pub right_label: String,
    pub winner_label: String,
    /// Whether the left portrait won.
    pub left_wins: bool,
    /// How far apart the totals are, which picks the verdict's wording.
    pub intensity: Intensity,
    pub decisive: bool,
    pub winner_total: String,
    pub loser_total: String,
    pub left_total: String,
    pub right_total: String,
    pub margin: String,
    pub winner_rank: String,
    pub winner_rank_class: String,
    pub loser_rank: String,
    pub loser_rank_class: String,
    pub left_rank: String,
    pub left_rank_class: String,
    pub right_rank: String,
    pub right_rank_class: String,
    /// The model that judged, or the judge mode.
    pub judge: String,
    pub overall: String,
    pub why: String,
    pub notes: String,
    pub strengths_left: String,
    pub strengths_right: String,
    pub weaknesses_left: String,
    pub weaknesses_right: String,
    /// The portraits as data URLs; they go into the page as they are.
    pub left_src: String,
    pub right_src: String,
    /// When the battle ran; it goes into the page as it is.
    pub created_at: String,
    /// Both totals by the heuristic judge, when both judges ran.
    pub heuristic_totals: Option<(String, String)>,
    /// Both totals by the vision-model judge, when it answered.
    pub vlm_totals: Option<(String, String)>,
}

fn push_esc(out: &mut Vec<char>, s: &str)
    ensures
        final(out)@ == old(out)@ + html_escaped(s@),
{
    let e = html_escape(s);
    push_str_chars(out, e.as_str());
}

/// The icon of the axis named `key`; empty for an unknown axis.
pub open spec fn icon_of(key: Seq<char>) -> Seq<char> {
    match axis_key_of(key) {
        Some(a) => axis_icon_text(a),
        None => ""@,
    }
}

/// The short localized label of the axis named `key`, or `key` itself.
pub open spec fn short_of(lang: Language, key: Seq<char>) -> Seq<char> {
    match axis_key_of(key) {
        Some(a) => message_text(lang, MessageKey::AxisShort(a)),
        None => key,
    }
}

/// The localized label of the axis named `key`, or `key` itself.
pub open spec fn label_of(lang: Language, key: Seq<char>) -> Seq<char> {
    match axis_key_of(key) {
        Some(a) => message_text(lang, MessageKey::AxisLabel(a)),
        None => key,
    }
}

/// What the axis named `key` measures, localized; empty for an unknown axis.
pub open spec fn desc_of(lang: Language, key: Seq<char>) -> Seq<char> {
    match axis_key_of(key) {
        Some(a) => message_text(lang, MessageKey::AxisDesc(a)),
        None => ""@,
    }
}

/// `a` for the left side, `b` for the right.
pub open spec fn side_text(left: bool, a: Seq<char>, b: Seq<char>) -> Seq<char> {
    if left {
        a
    } else {
        b
    }
}

fn side_str<'a>(left: bool, a: &'a String, b: &'a String) -> (r: &'a str)
    ensures
        r@ == side_text(left, a@, b@),
{
    if left {
        a.as_str()
    } else {
        b.as_str()
    }
}

/// The class of a portrait's card: marked when that side won.
pub open spec fn winner_class_text(left_wins: bool, left: bool) -> Seq<char> {
    if left_wins == left {
        "is-winner"@
    } else {
        ""@
    }
}

fn winner_class(left_wins: bool, left: bool) -> (r: &'static str)
    ensures
        r@ == winner_class_text(left_wins, left),
{
    proof {
        reveal_strlit("");
    }
    if left_wins == left {
        "is-winner"
    } else {
        ""
    }
}

/// The crown over the winning portrait.
pub open spec fn crown_text(left_wins: bool, left: bool) -> Seq<char> {
    if left_wins == left {
        "<div class=\"crown\">\u{1F451}</div>"@
    } else {
        ""@
    }
}

fn crown(left_wins: bool, left: bool) -> (r: &'static str)
    ensures
        r@ == crown_text(left_wins, left),
{
    proof {
        reveal_strlit("");
    }
    if left_wins == left {
        "<div class=\"crown\">\u{1F451}</div>"
    } else {
        ""
    }
}

/// How many of `rows` have `lead`.
pub open spec fn leads(rows: Seq<ReportAxisRow>, lead: Lead) -> nat
    decreases rows.len(),
{
    if rows.len() == 0 {
        0
    } else {
        leads(rows.drop_last(), lead) + if rows.last().lead == lead {
            1nat
        } else {
            0nat
        }
    }
}

proof fn lemma_leads_bound(rows: Seq<ReportAxisRow>, lead: Lead)
    ensures
        leads(rows, lead) <= rows.len(),
    decreases rows.len(),
{
    if rows.len() > 0 {
        lemma_leads_bound(rows.drop_last(), lead);
    }
}

fn lead_count(rows: &Vec<ReportAxisRow>, lead: Lead) -> (n: u64)
    ensures
        n == leads(rows@, lead),
{
    let mut n: u64 = 0;
    let mut i: usize = 0;
    while i < rows.len()
        invariant
            i <= rows.len(),
            n == leads(rows@.take(i as int), lead),
        decreases rows.len() - i,
    {
        assert(rows@.take(i + 1).drop_last() =~= rows@.take(i as int));
        proof {
            lemma_leads_bound(rows@.take(i as int), lead);
        }
        if rows[i].lead == lead {
            n = n + 1;
        }
        i += 1;
    }
    assert(rows@.take(rows.len() as int) =~= rows@);
    n
}

fn decimal(n: u64) -> (out: Vec<char>)
    ensures
        out@ == decimal_text(n as nat),
{
    let mut out: Vec<char> = Vec::new();
    push_decimal(&mut out, n);
    assert(out@ =~= decimal_text(n as nat));
    out
}

/// The class that marks the leading side's cell.
pub open spec fn lead_class_text(lead: Lead, left: bool, on: Seq<char>) -> Seq<char> {
    if (lead == Lead::Left && left) || (lead == Lead::Right && !left) {
        on
    } else {
        ""@
    }
}

fn lead_class(lead: Lead, left: bool, on: &'static str) -> (r: &'static str)
    ensures
        r@ == lead_class_text(lead, left, on@),
{
    proof {
        reveal_strlit("");
    }
    if (lead == Lead::Left && left) || (lead == Lead::Right && !left) {
        on
    } else {
        ""
    }
}

/// Whether the side that leads an axis is the battle's winner.
pub open spec fn winner_leads(lead: Lead, left_wins: bool) -> bool {
    (lead == Lead::Left && left_wins) || (lead == Lead::Right && !left_wins)
}

/// The gap shown beside an axis bar: `=` for a tie, the whole-point gap
/// with `+` when the winner leads and `-` when the loser does.
pub open spec fn gap_text(row: ReportAxisRow, left_wins: bool) -> Seq<char> {
    if row.lead == Lead::Tie {
        "="@
    } else if winner_leads(row.lead, left_wins) {
        "+"@ + html_escaped(row.diff_whole@)
    } else {
        "-"@ + html_escaped(row.diff_whole@)
    }
}

fn gap(row: &ReportAxisRow, left_wins: bool) -> (out: Vec<char>)
    ensures
        out@ == gap_text(*row, left_wins),
{
    let mut out: Vec<char> = Vec::new();
    if row.lead == Lead::Tie {
        push_str_chars(&mut out, "=");
    } else if (row.lead == Lead::Left && left_wins) || (row.lead == Lead::Right && !left_wins) {
        push_str_chars(&mut out, "+");
        push_esc(&mut out, row.diff_whole.as_str());
    } else {
        push_str_chars(&mut out, "-");
        push_esc(&mut out, row.diff_whole.as_str());
    }
    assert(out@ =~= gap_text(*row, left_wins));
    out
}

/// The class of the gap shown beside an axis bar.
pub open spec fn gap_class_text(lead: Lead, left_wins: bool) -> Seq<char> {
    if lead == Lead::Tie {
        "gap gap-tie"@
    } else if winner_leads(lead, left_wins) {
        "gap gap-win"@
    } else {
        "gap gap-lose"@
    }
}

fn gap_class(lead: Lead, left_wins: bool) -> (r: &'static str)
    ensures
        r@ == gap_class_text(lead, left_wins),
{
    if lead == Lead::Tie {
        "gap gap-tie"
    } else if (lead == Lead::Left && left_wins) || (lead == Lead::Right && !left_wins) {
        "gap gap-win"
    } else {
        "gap gap-lose"
    }
}

/// The cell of the summary table that points at the side leading an axis.
pub open spec fn winner_cell_text(lead: Lead) -> Seq<char> {
    match lead {
        Lead::Tie => "<td class=\"sum-winner sum-tie\">=</td>"@,
        Lead::Left => "<td class=\"sum-winner sum-left\">◀</td>"@,
        Lead::Right => "<td class=\"sum-winner sum-right\">▶</td>"@,
    }
}

fn winner_cell(lead: Lead) -> (r: &'static str)
    ensures
        r@ == winner_cell_text(lead),
{
    match lead {
        Lead::Tie => "<td class=\"sum-winner sum-tie\">=</td>",
        Lead::Left => "<td class=\"sum-winner sum-left\">◀</td>",
        Lead::Right => "<td class=\"sum-winner sum-right\">▶</td>",
    }
}

/// The gap column of the summary table: a dash for a tie, else the gap.
pub open spec fn summary_gap_text(row: ReportAxisRow) -> Seq<char> {
    if row.lead == Lead::Tie {
        "—"@
    } else {
        html_escaped(row.diff@)
    }
}

fn summary_gap(row: &ReportAxisRow) -> (out: Vec<char>)
    ensures
        out@ == summary_gap_text(*row),
{
    let mut out: Vec<char> = Vec::new();
    if row.lead == Lead::Tie {
        push_str_chars(&mut out, "—");
    } else {
        push_esc(&mut out, row.diff.as_str());
    }
    assert(out@ =~= summary_gap_text(*row));
    out
}

/// One side's compact stat for an axis, under its portrait.
pub open spec fn mini_cell_text(lang: Language, row: ReportAxisRow, left: bool) -> Seq<char> {
    "<div class=\"mini-stat "@
        + lead_class_text(row.lead, left, "mini-lead"@)
        + "\"><span class=\"mini-icon\">"@
        + icon_of(row.key@)
        + "</span><span class=\"mini-name\">"@
        + html_escaped(short_of(lang, row.key@))
        + "</span><span class=\"mini-score\">"@
        + html_escaped(side_text(left, row.left_score@, row.right_score@))
        + "</span><span class=\"mini-rank "@
        + html_escaped(side_text(left, row.left_rank_class@, row.right_rank_class@))
        + "\">"@
        + html_escaped(side_text(left, row.left_rank@, row.right_rank@))
        + "</span></div>"@
}

fn mini_cell(lang: Language, row: &ReportAxisRow, left: bool) -> (out: Vec<char>)
    ensures
        out@ == mini_cell_text(lang, *row, left),
{
    let mut out: Vec<char> = Vec::new();
    push_str_chars(&mut out, "<div class=\"mini-stat ");
    push_str_chars(&mut out, lead_class(row.lead, left, "mini-lead"));
    push_str_chars(&mut out, "\"><span class=\"mini-icon\">");
    push_str_chars(&mut out, axis_icon(row.key.as_str()));
    push_str_chars(&mut out, "</span><span class=\"mini-name\">");
    push_esc(&mut out, localized_axis_short(lang, row.key.as_str()).as_str());
    push_str_chars(&mut out, "</span><span class=\"mini-score\">");
    push_esc(&mut out, side_str(left, &row.left_score, &row.right_score));
    push_str_chars(&mut out, "</span><span class=\"mini-rank ");
    push_esc(&mut out, side_str(left, &row.left_rank_class, &row.right_rank_class));
    push_str_chars(&mut out, "\">");
    push_esc(&mut out, side_str(left, &row.left_rank, &row.right_rank));
    push_str_chars(&mut out, "</span></div>");
    assert(out@ =~= mini_cell_text(lang, *row, left));
    out
}

/// The class of one side's bar: highlighted when that side leads.
pub open spec fn bar_class_text(lead: Lead, left: bool) -> Seq<char> {
    if (lead == Lead::Left && left) || (lead == Lead::Right && !left) {
        "bar bar-lead"@
    } else {
        "bar"@
    }
}

fn bar_class(lead: Lead, left: bool) -> (r: &'static str)
    ensures
        r@ == bar_class_text(lead, left),
{
    if (lead == Lead::Left && left) || (lead == Lead::Right && !left) {
        "bar bar-lead"
    } else {
        "bar"
    }
}

/// The detailed comparison row of one axis.
pub open spec fn axis_bar_text(lang: Language, row: ReportAxisRow, left_wins: bool) -> Seq<char> {
    "<article class=\"axis-row\"><div class=\"axis-meta\"><div class=\"axis-head\"><span class=\"axis-icon\">"@
        + icon_of(row.key@)
        + "</span><span class=\"axis-name\">"@
        + html_escaped(label_of(lang, row.key@))
        + "</span></div><div class=\"axis-desc\">"@
        + html_escaped(desc_of(lang, row.key@))
        + "</div></div><div class=\"axis-track\"><div class=\"axis-side\"><span class=\"axis-rank "@
        + html_escaped(row.left_rank_class@)
        + "\">"@
        + html_escaped(row.left_rank@)
        + "</span><span class=\"axis-num\">"@
        + html_escaped(row.left_num@)
        + "</span><div class=\""@
        + bar_class_text(row.lead, true)
        + "\" style=\"width:"@
        + html_escaped(row.left_pct@)
        + "%\"></div></div><div class=\""@
        + gap_class_text(row.lead, left_wins)
        + "\">"@
        + gap_text(row, left_wins)
        + "</div><div class=\"axis-side axis-side-right\"><div class=\""@
        + bar_class_text(row.lead, false)
        + "\" style=\"width:"@
        + html_escaped(row.right_pct@)
        + "%\"></div><span class=\"axis-num\">"@
        + html_escaped(row.right_num@)
        + "</span><span class=\"axis-rank "@
        + html_escaped(row.right_rank_class@)
        + "\">"@
        + html_escaped(row.right_rank@)
        + "</span></div></div></article>"@
}

fn axis_bar(lang: Language, row: &ReportAxisRow, left_wins: bool) -> (out: Vec<char>)
    ensures
        out@ == axis_bar_text(lang, *row, left_wins),
{
    let mut out: Vec<char> = Vec::new();
    push_str_chars(&mut out, "<article class=\"axis-row\"><div class=\"axis-meta\"><div class=\"axis-head\"><span class=\"axis-icon\">");
    push_str_chars(&mut out, axis_icon(row.key.as_str()));
    push_str_chars(&mut out, "</span><span class=\"axis-name\">");
    push_esc(&mut out, localized_axis_label(lang, row.key.as_str()).as_str());
    push_str_chars(&mut out, "</span></div><div class=\"axis-desc\">");
    push_esc(&mut out, localized_axis_desc(lang, row.key.as_str()).as_str());
    push_str_chars(&mut out, "</div></div><div class=\"axis-track\"><div class=\"axis-side\"><span class=\"axis-rank ");
    push_esc(&mut out, row.left_rank_class.as_str());
    push_str_chars(&mut out, "\">");
    push_esc(&mut out, row.left_rank.as_str());
    push_str_chars(&mut out, "</span><span class=\"axis-num\">");
    push_esc(&mut out, row.left_num.as_str());
    push_str_chars(&mut out, "</span><div class=\"");
    push_str_chars(&mut out, bar_class(row.lead, true));
    push_str_chars(&mut out, "\" style=\"width:");
    push_esc(&mut out, row.left_pct.as_str());
    push_str_chars(&mut out, "%\"></div></div><div class=\"");
    push_str_chars(&mut out, gap_class(row.lead, left_wins));
    push_str_chars(&mut out, "\">");
    push_chars(&mut out, &gap(row, left_wins));
    push_str_chars(&mut out, "</div><div class=\"axis-side axis-side-right\"><div class=\"");
    push_str_chars(&mut out, bar_class(row.lead, false));
    push_str_chars(&mut out, "\" style=\"width:");
    push_esc(&mut out, row.right_pct.as_str());
    push_str_chars(&mut out, "%\"></div><span class=\"axis-num\">");
    push_esc(&mut out, row.right_num.as_str());
    push_str_chars(&mut out, "</span><span class=\"axis-rank ");
    push_esc(&mut out, row.right_rank_class.as_str());
    push_str_chars(&mut out, "\">");
    push_esc(&mut out, row.right_rank.as_str());
    push_str_chars(&mut out, "</span></div></div></article>");
    assert(out@ =~= axis_bar_text(lang, *row, left_wins));
    out
}

/// One row of the summary table.
pub open spec fn summary_row_text(lang: Language, row: ReportAxisRow) -> Seq<char> {
    "<tr><td class=\"sum-axis\"><span class=\"sum-icon\">"@
        + icon_of(row.key@)
        + "</span><span>"@
        + html_escaped(label_of(lang, row.key@))
        + "</span></td><td class=\"sum-num "@
        + lead_class_text(row.lead, true, "sum-lead"@)
        + "\">"@
        + html_escaped(row.left_num@)
        + " <span class=\"rank-mini "@
        + html_escaped(row.left_rank_class@)
        + "\">"@
        + html_escaped(row.left_rank@)
        + "</span></td>"@
        + winner_cell_text(row.lead)
        + "<td class=\"sum-num "@
        + lead_class_text(row.lead, false, "sum-lead"@)
        + "\">"@
        + html_escaped(row.right_num@)
        + " <span class=\"rank-mini "@
        + html_escaped(row.right_rank_class@)
        + "\">"@
        + html_escaped(row.right_rank@)
        + "</span></td><td class=\"sum-gap\">"@
        + summary_gap_text(row)
        + "</td></tr>"@
}

fn summary_row(lang: Language, row: &ReportAxisRow) -> (out: Vec<char>)
    ensures
        out@ == summary_row_text(lang, *row),
{
    let mut out: Vec<char> = Vec::new();
    push_str_chars(&mut out, "<tr><td class=\"sum-axis\"><span class=\"sum-icon\">");
    push_str_chars(&mut out, axis_icon(row.key.as_str()));
    push_str_chars(&mut out, "</span><span>");
    push_esc(&mut out, localized_axis_label(lang, row.key.as_str()).as_str());
    push_str_chars(&mut out, "</span></td><td class=\"sum-num ");
    push_str_chars(&mut out, lead_class(row.lead, true, "sum-lead"));
    push_str_chars(&mut out, "\">");
    push_esc(&mut out, row.left_num.as_str());
    push_str_chars(&mut out, " <span class=\"rank-mini ");
    push_esc(&mut out, row.left_rank_class.as_str());
    push_str_chars(&mut out, "\">");
    push_esc(&mut out, row.left_rank.as_str());
    push_str_chars(&mut out, "</span></td>");
    push_str_chars(&mut out, winner_cell(row.lead));
    push_str_chars(&mut out, "<td class=\"sum-num ");
    push_str_chars(&mut out, lead_class(row.lead, false, "sum-lead"));
    push_str_chars(&mut out, "\">");
    push_esc(&mut out, row.right_num.as_str());
    push_str_chars(&mut out, " <span class=\"rank-mini ");
    push_esc(&mut out, row.right_rank_class.as_str());
    push_str_chars(&mut out, "\">");
    push_esc(&mut out, row.right_rank.as_str());
    push_str_chars(&mut out, "</span></td><td class=\"sum-gap\">");
    push_chars(&mut out, &summary_gap(row));
    push_str_chars(&mut out, "</td></tr>");
    assert(out@ =~= summary_row_text(lang, *row));
    out
}

/// The block of one judge's two totals in the dual dashboard.
pub open spec fn dual_block_text(lang: Language, tx: ReportTexts, icon: Seq<char>, title_key: Seq<char>, l: Seq<char>, r: Seq<char>) -> Seq<char> {
    "<div class=\"dual-block\"><div class=\"dual-header\"><span class=\"dual-icon\">"@
        + icon
        + "</span><span>"@
        + html_escaped(t_text(lang, title_key))
        + "</span></div><div class=\"dual-scores\"><div class=\"dual-score\"><small>"@
        + html_escaped(tx.left_label@)
        + "</small><strong>"@
        + html_escaped(l)
        + "</strong></div><div class=\"dual-vs\">VS</div><div class=\"dual-score\"><small>"@
        + html_escaped(tx.right_label@)
        + "</small><strong>"@
        + html_escaped(r)
        + "</strong></div></div></div>"@
}

fn dual_block(lang: Language, tx: &ReportTexts, icon: &str, title_key: &str, l: &str, r: &str) -> (out: Vec<char>)
    ensures
        out@ == dual_block_text(lang, *tx, icon@, title_key@, l@, r@),
{
    let mut out: Vec<char> = Vec::new();
    push_str_chars(&mut out, "<div class=\"dual-block\"><div class=\"dual-header\"><span class=\"dual-icon\">");
    push_str_chars(&mut out, icon);
    push_str_chars(&mut out, "</span><span>");
    push_esc(&mut out, t(lang, title_key));
    push_str_chars(&mut out, "</span></div><div class=\"dual-scores\"><div class=\"dual-score\"><small>");
    push_esc(&mut out, tx.left_label.as_str());
    push_str_chars(&mut out, "</small><strong>");
    push_esc(&mut out, l);
    push_str_chars(&mut out, "</strong></div><div class=\"dual-vs\">VS</div><div class=\"dual-score\"><small>");
    push_esc(&mut out, tx.right_label.as_str());
    push_str_chars(&mut out, "</small><strong>");
    push_esc(&mut out, r);
    push_str_chars(&mut out, "</strong></div></div></div>");
    assert(out@ =~= dual_block_text(lang, *tx, icon@, title_key@, l@, r@));
    out
}

/// The strengths and weaknesses of both portraits.
pub open spec fn portrait_analysis_text(lang: Language, tx: ReportTexts) -> Seq<char> {
    "<section class=\"portrait-analysis\"><h2 class=\"section-title\">"@
        + html_escaped(t_text(lang, "report_portrait_analysis"@))
        + "</h2><div class=\"portrait-grid\"><article class=\"portrait-card "@
        + winner_class_text(tx.left_wins, true)
        + "\"><header class=\"portrait-header\"><span class=\"side-tag tag-left\">"@
        + html_escaped(t_text(lang, "report_left"@))
        + "</span><h3>"@
        + html_escaped(tx.left_label@)
        + "</h3></header><div class=\"pa-block\"><div class=\"pa-label\">✅ "@
        + html_escaped(t_text(lang, "report_strengths"@))
        + "</div><p>"@
        + html_escaped(tx.strengths_left@)
        + "</p></div><div class=\"pa-block\"><div class=\"pa-label\">⚠ "@
        + html_escaped(t_text(lang, "report_weaknesses"@))
        + "</div><p>"@
        + html_escaped(tx.weaknesses_left@)
        + "</p></div></article><article class=\"portrait-card "@
        + winner_class_text(tx.left_wins, false)
        + "\"><header class=\"portrait-header\"><span class=\"side-tag tag-right\">"@
        + html_escaped(t_text(lang, "report_right"@))
        + "</span><h3>"@
        + html_escaped(tx.right_label@)
        + "</h3></header><div class=\"pa-block\"><div class=\"pa-label\">✅ "@
        + html_escaped(t_text(lang, "report_strengths"@))
        + "</div><p>"@
        + html_escaped(tx.strengths_right@)
        + "</p></div><div class=\"pa-block\"><div class=\"pa-label\">⚠ "@
        + html_escaped(t_text(lang, "report_weaknesses"@))
        + "</div><p>"@
        + html_escaped(tx.weaknesses_right@)
        + "</p></div></article></div></section>"@
}

fn portrait_analysis(lang: Language, tx: &ReportTexts) -> (out: Vec<char>)
    ensures
        out@ == portrait_analysis_text(lang, *tx),
{
    let mut out: Vec<char> = Vec::new();
    push_str_chars(&mut out, "<section class=\"portrait-analysis\"><h2 class=\"section-title\">");
    push_esc(&mut out, t(lang, "report_portrait_analysis"));
    push_str_chars(&mut out, "</h2><div class=\"portrait-grid\"><article class=\"portrait-card ");
    push_str_chars(&mut out, winner_class(tx.left_wins, true));
    push_str_chars(&mut out, "\"><header class=\"portrait-header\"><span class=\"side-tag tag-left\">");
    push_esc(&mut out, t(lang, "report_left"));
    push_str_chars(&mut out, "</span><h3>");
    push_esc(&mut out, tx.left_label.as_str());
    push_str_chars(&mut out, "</h3></header><div class=\"pa-block\"><div class=\"pa-label\">✅ ");
    push_esc(&mut out, t(lang, "report_strengths"));
    push_str_chars(&mut out, "</div><p>");
    push_esc(&mut out, tx.strengths_left.as_str());
    push_str_chars(&mut out, "</p></div><div class=\"pa-block\"><div class=\"pa-label\">⚠ ");
    push_esc(&mut out, t(lang, "report_weaknesses"));
    push_str_chars(&mut out, "</div><p>");
    push_esc(&mut out, tx.weaknesses_left.as_str());
    push_str_chars(&mut out, "</p></div></article><article class=\"portrait-card ");
    push_str_chars(&mut out, winner_class(tx.left_wins, false));
    push_str_chars(&mut out, "\"><header class=\"portrait-header\"><span class=\"side-tag tag-right\">");
    push_esc(&mut out, t(lang, "report_right"));
    push_str_chars(&mut out, "</span><h3>");
    push_esc(&mut out, tx.right_label.as_str());
    push_str_chars(&mut out, "</h3></header><div class=\"pa-block\"><div class=\"pa-label\">✅ ");
    push_esc(&mut out, t(lang, "report_strengths"));
    push_str_chars(&mut out, "</div><p>");
    push_esc(&mut out, tx.strengths_right.as_str());
    push_str_chars(&mut out, "</p></div><div class=\"pa-block\"><div class=\"pa-label\">⚠ ");
    push_esc(&mut out, t(lang, "report_weaknesses"));
    push_str_chars(&mut out, "</div><p>");
    push_esc(&mut out, tx.weaknesses_right.as_str());
    push_str_chars(&mut out, "</p></div></article></div></section>");
    assert(out@ =~= portrait_analysis_text(lang, *tx));
    out
}

/// The summary table: every axis with both scores, the side that leads it
/// and the gap, under a count of each side's leads.
pub open spec fn summary_table_text(lang: Language, tx: ReportTexts, rows: Seq<ReportAxisRow>) -> Seq<char> {
    "<section><h2 class=\"section-title\">📊 "@
        + html_escaped(t_text(lang, "report_ability_comparison"@))
        + "</h2><table class=\"summary-table\"><thead><tr><th>Axis</th><th>"@
        + html_escaped(tx.left_label@)
        + " <small>"@
        + decimal_text(leads(rows, Lead::Left))
        + " wins</small></th><th></th><th>"@
        + html_escaped(tx.right_label@)
        + " <small>"@
        + decimal_text(leads(rows, Lead::Right))
        + " wins</small></th><th>Gap</th></tr></thead><tbody>"@
        + summary_rows_text(lang, rows)
        + "</tbody></table><p class=\"summary-caption\">"@
        + decimal_text(leads(rows, Lead::Tie))
        + " ties • Margin: "@
        + html_escaped(tx.margin@)
        + " points</p></section>"@
}

fn summary_table(lang: Language, tx: &ReportTexts, rows: &Vec<ReportAxisRow>) -> (out: Vec<char>)
    ensures
        out@ == summary_table_text(lang, *tx, rows@),
{
    let mut out: Vec<char> = Vec::new();
    push_str_chars(&mut out, "<section><h2 class=\"section-title\">📊 ");
    push_esc(&mut out, t(lang, "report_ability_comparison"));
    push_str_chars(&mut out, "</h2><table class=\"summary-table\"><thead><tr><th>Axis</th><th>");
    push_esc(&mut out, tx.left_label.as_str());
    push_str_chars(&mut out, " <small>");
    push_chars(&mut out, &decimal(lead_count(rows, Lead::Left)));
    push_str_chars(&mut out, " wins</small></th><th></th><th>");
    push_esc(&mut out, tx.right_label.as_str());
    push_str_chars(&mut out, " <small>");
    push_chars(&mut out, &decimal(lead_count(rows, Lead::Right)));
    push_str_chars(&mut out, " wins</small></th><th>Gap</th></tr></thead><tbody>");
    push_chars(&mut out, &summary_rows(lang, rows));
    push_str_chars(&mut out, "</tbody></table><p class=\"summary-caption\">");
    push_chars(&mut out, &decimal(lead_count(rows, Lead::Tie)));
    push_str_chars(&mut out, " ties • Margin: ");
    push_esc(&mut out, tx.margin.as_str());
    push_str_chars(&mut out, " points</p></section>");
    assert(out@ =~= summary_table_text(lang, *tx, rows@));
    out
}

/// One side's compact stats for every axis.
pub open spec fn mini_cells_text(lang: Language, rows: Seq<ReportAxisRow>, left: bool) -> Seq<char>
    decreases rows.len(),
{
    if rows.len() == 0 {
        Seq::empty()
    } else {
        mini_cells_text(lang, rows.drop_last(), left) + mini_cell_text(lang, rows.last(), left)
    }
}

fn mini_cells(lang: Language, rows: &Vec<ReportAxisRow>, left: bool) -> (out: Vec<char>)
    ensures
        out@ == mini_cells_text(lang, rows@, left),
{
    let mut out: Vec<char> = Vec::new();
    let mut i: usize = 0;
    while i < rows.len()
        invariant
            i <= rows.len(),
            out@ == mini_cells_text(lang, rows@.take(i as int), left),
        decreases rows.len() - i,
    {
        let piece = mini_cell(lang, &rows[i], left);
        push_chars(&mut out, &piece);
        assert(rows@.take(i + 1).drop_last() =~= rows@.take(i as int));
        i += 1;
    }
    assert(rows@.take(rows.len() as int) =~= rows@);
    out
}

/// The detailed comparison rows of every axis.
pub open spec fn axis_bars_text(lang: Language, rows: Seq<ReportAxisRow>, left_wins: bool) -> Seq<char>
    decreases rows.len(),
{
    if rows.len() == 0 {
        Seq::empty()
    } else {
        axis_bars_text(lang, rows.drop_last(), left_wins) + axis_bar_text(lang, rows.last(), left_wins)
    }
}

fn axis_bars(lang: Language, rows: &Vec<ReportAxisRow>, left_wins: bool) -> (out: Vec<char>)
    ensures
        out@ == axis_bars_text(lang, rows@, left_wins),
{
    let mut out: Vec<char> = Vec::new();
    let mut i: usize = 0;
    while i < rows.len()
        invariant
            i <= rows.len(),
            out@ == axis_bars_text(lang, rows@.take(i as int), left_wins),
        decreases rows.len() - i,
    {
        let piece = axis_bar(lang, &rows[i], left_wins);
        push_chars(&mut out, &piece);
        assert(rows@.take(i + 1).drop_last() =~= rows@.take(i as int));
        i += 1;
    }
    assert(rows@.take(rows.len() as int) =~= rows@);
    out
}

/// The rows of the summary table.
pub open spec fn summary_rows_text(lang: Language, rows: Seq<ReportAxisRow>) -> Seq<char>
    decreases rows.len(),
{
    if rows.len() == 0 {
        Seq::empty()
    } else {
        summary_rows_text(lang, rows.drop_last()) + summary_row_text(lang, rows.last())
    }
}

fn summary_rows(lang: Language, rows: &Vec<ReportAxisRow>) -> (out: Vec<char>)
    ensures
        out@ == summary_rows_text(lang, rows@),
{
    let mut out: Vec<char> = Vec::new();
    let mut i: usize = 0;
    while i < rows.len()
        invariant
            i <= rows.len(),
            out@ == summary_rows_text(lang, rows@.take(i as int)),
        decreases rows.len() - i,
    {
        let piece = summary_row(lang, &rows[i]);
        push_chars(&mut out, &piece);
        assert(rows@.take(i + 1).drop_last() =~= rows@.take(i as int));
        i += 1;
    }
    assert(rows@.take(rows.len() as int) =~= rows@);
    out
}

/// The dashboard of both judges' totals, shown when both judges ran.
pub open spec fn dual_dashboard_text(lang: Language, tx: ReportTexts) -> Seq<char> {
    match tx.heuristic_totals {
        Some(h) => "<section class=\"dual-dashboard\">"@ + dual_block_text(
            lang,
            tx,
            "\u{2699}"@,
            "report_heuristic"@,
            h.0@,
            h.1@,
        ) + match tx.vlm_totals {
            Some(v) => dual_block_text(lang, tx, "\u{2726}"@, "report_vlm"@, v.0@, v.1@),
            None => ""@,
        } + "</section>"@,
        None => ""@,
    }
}

fn dual_dashboard(lang: Language, tx: &ReportTexts) -> (out: Vec<char>)
    ensures
        out@ == dual_dashboard_text(lang, *tx),
{
    let mut out: Vec<char> = Vec::new();
    proof {
        reveal_strlit("");
    }
    match &tx.heuristic_totals {
        Some(h) => {
            push_str_chars(&mut out, "<section class=\"dual-dashboard\">");
            let hb = dual_block(lang, tx, "\u{2699}", "report_heuristic", h.0.as_str(), h.1.as_str());
            push_chars(&mut out, &hb);
            match &tx.vlm_totals {
                Some(v) => {
                    let vb = dual_block(lang, tx, "\u{2726}", "report_vlm", v.0.as_str(), v.1.as_str());
                    push_chars(&mut out, &vb);
                },
                None => {},
            }
            push_str_chars(&mut out, "</section>");
        },
        None => {},
    }
    assert(out@ =~= dual_dashboard_text(lang, *tx));
    out
}

/// The badge of a decisive win.
pub open spec fn decisive_text(lang: Language, decisive: bool) -> Seq<char> {
    if decisive {
        "<span class=\"decisive-badge\">"@ + html_escaped(t_text(lang, "report_decisive"@))
            + "</span>"@
    } else {
        ""@
    }
}

fn decisive_badge(lang: Language, decisive: bool) -> (out: Vec<char>)
    ensures
        out@ == decisive_text(lang, decisive),
{
    let mut out: Vec<char> = Vec::new();
    proof {
        reveal_strlit("");
    }
    if decisive {
        push_str_chars(&mut out, "<span class=\"decisive-badge\">");
        push_esc(&mut out, t(lang, "report_decisive"));
        push_str_chars(&mut out, "</span>");
    }
    assert(out@ =~= decisive_text(lang, decisive));
    out
}

/// The label of the losing portrait.
pub open spec fn loser_of(tx: ReportTexts) -> Seq<char> {
    if tx.left_wins {
        tx.right_label@
    } else {
        tx.left_label@
    }
}

/// Names of the report page's fields, part 1.
pub open spec fn report_field_names_1() -> Seq<Seq<char>> {
    seq![
        "lang_attr"@,
        "product"@,
        "left"@,
        "right"@,
        "winner_name"@,
        "loser_label"@,
        "winner_total"@,
        "loser_total"@,
        "wrank"@,
        "wrc"@,
    ]
}

/// Values of the report page's fields, part 1.
#[verifier::opaque]
pub open spec fn report_field_values_1(lang: Language, tx: ReportTexts, rows: Seq<ReportAxisRow>) -> Seq<Seq<char>> {
    seq![
        language_code_text(lang),
        PRODUCT_NAME@,
        html_escaped(tx.left_label@),
        html_escaped(tx.right_label@),
        html_escaped(tx.winner_label@),
        html_escaped(loser_of(tx)),
        html_escaped(tx.winner_total@),
        html_escaped(tx.loser_total@),
        html_escaped(tx.winner_rank@),
        html_escaped(tx.winner_rank_class@),
    ]
}

#[verifier::rlimit(40)]
fn report_fields_1(lang: Language, tx: &ReportTexts, rows: &Vec<ReportAxisRow>) -> (f: Vec<(String, String)>)
    ensures
        field_names(f@) == report_field_names_1(),
        field_values(f@) == report_field_values_1(lang, *tx, rows@),
{
    proof {
        reveal(report_field_values_1);
    }
    let loser: &str = if tx.left_wins {
        tx.right_label.as_str()
    } else {
        tx.left_label.as_str()
    };
    let mut fields: Vec<(String, String)> = Vec::new();
    fields.push((owned("lang_attr"), owned(lang.code())));
    fields.push((owned("product"), owned(PRODUCT_NAME)));
    fields.push((owned("left"), html_escape(tx.left_label.as_str())));
    fields.push((owned("right"), html_escape(tx.right_label.as_str())));
    fields.push((owned("winner_name"), html_escape(tx.winner_label.as_str())));
    fields.push((owned("loser_label"), html_escape(loser)));
    fields.push((owned("winner_total"), html_escape(tx.winner_total.as_str())));
    fields.push((owned("loser_total"), html_escape(tx.loser_total.as_str())));
    fields.push((owned("wrank"), html_escape(tx.winner_rank.as_str())));
    fields.push((owned("wrc"), html_escape(tx.winner_rank_class.as_str())));
    assert(field_names(fields@) =~= report_field_names_1());
    assert(field_values(fields@) =~= report_field_values_1(lang, *tx, rows@));
    fields
}

/// Names of the report page's fields, part 2.
pub open spec fn report_field_names_2() -> Seq<Seq<char>> {
    seq![
        "lrank"@,
        "lrc"@,
        "verdict"@,
        "winner_label_text"@,
        "score_label"@,
        "judge"@,
        "overall"@,
        "why"@,
        "notes"@,
        "left_total"@,
    ]
}

/// Values of the report page's fields, part 2.
#[verifier::opaque]
pub open spec fn report_field_values_2(lang: Language, tx: ReportTexts, rows: Seq<ReportAxisRow>) -> Seq<Seq<char>> {
    seq![
        html_escaped(tx.loser_rank@),
        html_escaped(tx.loser_rank_class@),
        html_escaped(verdict_text(lang, tx.intensity, tx.winner_label@, loser_of(tx))),
        html_escaped(t_text(lang, "report_winner"@)),
        html_escaped(t_text(lang, "report_score"@)),
        html_escaped(tx.judge@),
        html_escaped(tx.overall@),
        html_escaped(tx.why@),
        html_escaped(tx.notes@),
        html_escaped(tx.left_total@),
    ]
}

#[verifier::rlimit(40)]
fn report_fields_2(lang: Language, tx: &ReportTexts, rows: &Vec<ReportAxisRow>) -> (f: Vec<(String, String)>)
    ensures
        field_names(f@) == report_field_names_2(),
        field_values(f@) == report_field_values_2(lang, *tx, rows@),
{
    proof {
        reveal(report_field_values_2);
    }
    let loser: &str = if tx.left_wins {
        tx.right_label.as_str()
    } else {
        tx.left_label.as_str()
    };
    let verdict = verdict_phrase(lang, tx.intensity, tx.winner_label.as_str(), loser);
    let mut fields: Vec<(String, String)> = Vec::new();
    fields.push((owned("lrank"), html_escape(tx.loser_rank.as_str())));
    fields.push((owned("lrc"), html_escape(tx.loser_rank_class.as_str())));
    fields.push((owned("verdict"), html_escape(verdict.as_str())));
    fields.push((owned("winner_label_text"), html_escape(t(lang, "report_winner"))));
    fields.push((owned("score_label"), html_escape(t(lang, "report_score"))));
    fields.push((owned("judge"), html_escape(tx.judge.as_str())));
    fields.push((owned("overall"), html_escape(tx.overall.as_str())));
    fields.push((owned("why"), html_escape(tx.why.as_str())));
    fields.push((owned("notes"), html_escape(tx.notes.as_str())));
    fields.push((owned("left_total"), html_escape(tx.left_total.as_str())));
    assert(field_names(fields@) =~= report_field_names_2());
    assert(field_values(fields@) =~= report_field_values_2(lang, *tx, rows@));
    fields
}

/// Names of the report page's fields, part 3.
pub open spec fn report_field_names_3() -> Seq<Seq<char>> {
    seq![
        "right_total"@,
        "left_src"@,
        "right_src"@,
        "left_tag"@,
        "right_tag"@,
        "left_mini"@,
        "right_mini"@,
        "left_rank"@,
        "left_rank_class"@,
        "right_rank"@,
    ]
}

/// Values of the report page's fields, part 3.
#[verifier::opaque]
pub open spec fn report_field_values_3(lang: Language, tx: ReportTexts, rows: Seq<ReportAxisRow>) -> Seq<Seq<char>> {
    seq![
        html_escaped(tx.right_total@),
        tx.left_src@,
        tx.right_src@,
        html_escaped(t_text(lang, "report_left"@)),
        html_escaped(t_text(lang, "report_right"@)),
        mini_cells_text(lang, rows, true),
        mini_cells_text(lang, rows, false),
        html_escaped(tx.left_rank@),
        html_escaped(tx.left_rank_class@),
        html_escaped(tx.right_rank@),
    ]
}

#[verifier::rlimit(40)]
fn report_fields_3(lang: Language, tx: &ReportTexts, rows: &Vec<ReportAxisRow>) -> (f: Vec<(String, String)>)
    ensures
        field_names(f@) == report_field_names_3(),
        field_values(f@) == report_field_values_3(lang, *tx, rows@),
{
    proof {
        reveal(report_field_values_3);
    }
    let mut fields: Vec<(String, String)> = Vec::new();
    fields.push((owned("right_total"), html_escape(tx.right_total.as_str())));
    fields.push((owned("left_src"), owned(tx.left_src.as_str())));
    fields.push((owned("right_src"), owned(tx.right_src.as_str())));
    fields.push((owned("left_tag"), html_escape(t(lang, "report_left"))));
    fields.push((owned("right_tag"), html_escape(t(lang, "report_right"))));
    fields.push((owned("left_mini"), string_of(&mini_cells(lang, rows, true))));
    fields.push((owned("right_mini"), string_of(&mini_cells(lang, rows, false))));
    fields.push((owned("left_rank"), html_escape(tx.left_rank.as_str())));
    fields.push((owned("left_rank_class"), html_escape(tx.left_rank_class.as_str())));
    fields.push((owned("right_rank"), html_escape(tx.right_rank.as_str())));
    assert(field_names(fields@) =~= report_field_names_3());
    assert(field_values(fields@) =~= report_field_values_3(lang, *tx, rows@));
    fields
}

/// Names of the report page's fields, part 4.
pub open spec fn report_field_names_4() -> Seq<Seq<char>> {
    seq![
        "right_rank_class"@,
        "left_winner_class"@,
        "right_winner_class"@,
        "left_crown"@,
        "right_crown"@,
        "decisive"@,
        "dual_dashboard"@,
        "summary_table"@,
        "detail_title"@,
        "analysis_title"@,
    ]
}

/// Values of the report page's fields, part 4.
#[verifier::opaque]
pub open spec fn report_field_values_4(lang: Language, tx: ReportTexts, rows: Seq<ReportAxisRow>) -> Seq<Seq<char>> {
    seq![
        html_escaped(tx.right_rank_class@),
        winner_class_text(tx.left_wins, true),
        winner_class_text(tx.left_wins, false),
        crown_text(tx.left_wins, true),
        crown_text(tx.left_wins, false),
        decisive_text(lang, tx.decisive),
        dual_dashboard_text(lang, tx),
        summary_table_text(lang, tx, rows),
        html_escaped(t_text(lang, "report_ability_comparison"@)),
        html_escaped(t_text(lang, "report_jury_notes"@)),
    ]
}

#[verifier::rlimit(40)]
fn report_fields_4(lang: Language, tx: &ReportTexts, rows: &Vec<ReportAxisRow>) -> (f: Vec<(String, String)>)
    ensures
        field_names(f@) == report_field_names_4(),
        field_values(f@) == report_field_values_4(lang, *tx, rows@),
{
    proof {
        reveal(report_field_values_4);
    }
    let mut fields: Vec<(String, String)> = Vec::new();
    fields.push((owned("right_rank_class"), html_escape(tx.right_rank_class.as_str())));
    fields.push((owned("left_winner_class"), owned(winner_class(tx.left_wins, true))));
    fields.push((owned("right_winner_class"), owned(winner_class(tx.left_wins, false))));
    fields.push((owned("left_crown"), owned(crown(tx.left_wins, true))));
    fields.push((owned("right_crown"), owned(crown(tx.left_wins, false))));
    fields.push((owned("decisive"), string_of(&decisive_badge(lang, tx.decisive))));
    fields.push((owned("dual_dashboard"), string_of(&dual_dashboard(lang, tx))));
    fields.push((owned("summary_table"), string_of(&summary_table(lang, tx, rows))));
    fields.push((owned("detail_title"), html_escape(t(lang, "report_ability_comparison"))));
    fields.push((owned("analysis_title"), html_escape(t(lang, "report_jury_notes"))));
    assert(field_names(fields@) =~= report_field_names_4());
    assert(field_values(fields@) =~= report_field_values_4(lang, *tx, rows@));
    fields
}

/// Names of the report page's fields, part 5.
pub open spec fn report_field_names_5() -> Seq<Seq<char>> {
    seq![
        "overall_take_title"@,
        "why_title"@,
        "jury_title"@,
        "generated_label"@,
        "created_at"@,
        "axis_bars"@,
        "portrait_analysis"@,
    ]
}

/// Values of the report page's fields, part 5.
#[verifier::opaque]
pub open spec fn report_field_values_5(lang: Language, tx: ReportTexts, rows: Seq<ReportAxisRow>) -> Seq<Seq<char>> {
    seq![
        html_escaped(t_text(lang, "report_overall_take"@)),
        html_escaped(t_text(lang, "report_why_won"@)),
        html_escaped(t_text(lang, "report_jury_notes"@)),
        html_escaped(t_text(lang, "report_generated"@)),
        tx.created_at@,
        axis_bars_text(lang, rows, tx.left_wins),
        portrait_analysis_text(lang, tx),
    ]
}

#[verifier::rlimit(40)]
fn report_fields_5(lang: Language, tx: &ReportTexts, rows: &Vec<ReportAxisRow>) -> (f: Vec<(String, String)>)
    ensures
        field_names(f@) == report_field_names_5(),
        field_values(f@) == report_field_values_5(lang, *tx, rows@),
{
    proof {
        reveal(report_field_values_5);
    }
    let mut fields: Vec<(String, String)> = Vec::new();
    fields.push((owned("overall_take_title"), html_escape(t(lang, "report_overall_take"))));
    fields.push((owned("why_title"), html_escape(t(lang, "report_why_won"))));
    fields.push((owned("jury_title"), html_escape(t(lang, "report_jury_notes"))));
    fields.push((owned("generated_label"), html_escape(t(lang, "report_generated"))));
    fields.push((owned("created_at"), owned(tx.created_at.as_str())));
    fields.push((owned("axis_bars"), string_of(&axis_bars(lang, rows, tx.left_wins))));
    fields.push((owned("portrait_analysis"), string_of(&portrait_analysis(lang, tx))));
    assert(field_names(fields@) =~= report_field_names_5());
    assert(field_values(fields@) =~= report_field_values_5(lang, *tx, rows@));
    fields
}

/// The names of the report page's fields, in order.
pub open spec fn report_field_names() -> Seq<Seq<char>> {
    report_field_names_1() + report_field_names_2() + report_field_names_3() + report_field_names_4() + report_field_names_5()
}

/// The values of the report page's fields, in the order of
/// [`report_field_names`]: every text of the battle escaped for HTML but the
/// portraits' data URLs and the creation time, which go in as they are; the
/// language's code; and the markup of the rows and panels.
pub open spec fn report_field_values(lang: Language, tx: ReportTexts, rows: Seq<ReportAxisRow>) -> Seq<Seq<char>> {
    report_field_values_1(lang, tx, rows) + report_field_values_2(lang, tx, rows) + report_field_values_3(lang, tx, rows) + report_field_values_4(lang, tx, rows) + report_field_values_5(lang, tx, rows)
}

fn append_fields(dst: &mut Vec<(String, String)>, src: Vec<(String, String)>)
    ensures
        final(dst)@ == old(dst)@ + src@,
{
    let ghost start = dst@;
    let ghost orig = src@;
    let mut src = src;
    while src.len() > 0
        invariant
            dst@ + src@ == start + orig,
        decreases src.len(),
    {
        let ghost before = src@;
        let item = src.remove(0);
        dst.push(item);
        assert(before =~= seq![item] + src@);
        assert(dst@ + src@ =~= start + orig);
    }
    assert(dst@ =~= start + orig);
}

proof fn lemma_fields_concat(a: Seq<(String, String)>, b: Seq<(String, String)>)
    ensures
        field_names(a + b) == field_names(a) + field_names(b),
        field_values(a + b) == field_values(a) + field_values(b),
{
    assert(field_names(a + b) =~= field_names(a) + field_names(b));
    assert(field_values(a + b) =~= field_values(a) + field_values(b));
}

/// The HTML report of a battle: the report page with its fields filled by
/// [`report_field_values`]. Every text of the battle is escaped for HTML but
/// the portraits' data URLs and the creation time, which go in as they are.
pub fn report_page(lang: Language, tx: &ReportTexts, rows: &Vec<ReportAxisRow>) -> (r: String)
    ensures
        r@ == expanded(
            report_page_template_text(),
            report_field_names(),
            report_field_values(lang, *tx, rows@),
        ),
{
    let mut fields = report_fields_1(lang, tx, rows);
    let more = report_fields_2(lang, tx, rows);
    let ghost prev = fields@;
    append_fields(&mut fields, more);
    proof {
        lemma_fields_concat(prev, more@);
    }
    let more = report_fields_3(lang, tx, rows);
    let ghost prev = fields@;
    append_fields(&mut fields, more);
    proof {
        lemma_fields_concat(prev, more@);
    }
    let more = report_fields_4(lang, tx, rows);
    let ghost prev = fields@;
    append_fields(&mut fields, more);
    proof {
        lemma_fields_concat(prev, more@);
    }
    let more = report_fields_5(lang, tx, rows);
    let ghost prev = fields@;
    append_fields(&mut fields, more);
    proof {
        lemma_fields_concat(prev, more@);
    }
    let page = report_page_template();
    fill_template(page.as_str(), &fields)
}

/// The texts of a battle that its public share page shows.
pub struct ShareTexts {
    pub winner_label: String,
    pub loser_label: String,
    /// The caption written for the share; its line breaks become spaces.
    pub caption: String,
    pub why: String,
    pub preview_image_url: String,
    pub report_url: String,
    /// The winner's and the opponent's totals and the margin, formatted.
    pub winner_score: String,
    pub opponent_score: String,
    pub margin: String,
}

/// The title of a battle's public share page.
pub open spec fn share_title_text(sx: ShareTexts) -> Seq<char> {
    sx.winner_label@ + " wins the BetterThanYou battle over "@ + sx.loser_label@
}

/// The description of a battle's public share page: the caption on one
/// line, the margin and why the winner won.
pub open spec fn share_description_text(sx: ShareTexts) -> Seq<char> {
    replace_spec(sx.caption@, "\n"@, " "@) + " Margin +"@ + sx.margin@ + ". "@ + sx.why@
}

/// The names of the share page's fields, in order.
pub open spec fn share_field_names() -> Seq<Seq<char>> {
    seq![
        "title"@,
        "description"@,
        "preview_image_url"@,
        "report_url"@,
        "winner"@,
        "winner_score"@,
        "opponent_score"@,
        "margin"@,
    ]
}

/// The values of the share page's fields, in the order of
/// [`share_field_names`]: the title, description, links and winner escaped
/// for HTML, the formatted numbers as they are.
pub open spec fn share_field_values(sx: ShareTexts) -> Seq<Seq<char>> {
    seq![
        html_escaped(share_title_text(sx)),
        html_escaped(share_description_text(sx)),
        html_escaped(sx.preview_image_url@),
        html_escaped(sx.report_url@),
        html_escaped(sx.winner_label@),
        sx.winner_score@,
        sx.opponent_score@,
        sx.margin@,
    ]
}

/// The public share page of a battle: the share page with its fields filled
/// by [`share_field_values`].
pub fn share_page(sx: &ShareTexts) -> (r: String)
    ensures
        r@ == expanded(share_page_template_text(), share_field_names(), share_field_values(*sx)),
{
    let mut title: Vec<char> = Vec::new();
    push_str_chars(&mut title, sx.winner_label.as_str());
    push_str_chars(&mut title, " wins the BetterThanYou battle over ");
    push_str_chars(&mut title, sx.loser_label.as_str());
    assert(title@ =~= share_title_text(*sx));
    let caption = crate::text::chars_of(sx.caption.as_str());
    proof {
        reveal_strlit("\n");
    }
    let mut description = replace_all(&caption, "\n", " ");
    push_str_chars(&mut description, " Margin +");
    push_str_chars(&mut description, sx.margin.as_str());
    push_str_chars(&mut description, ". ");
    push_str_chars(&mut description, sx.why.as_str());
    assert(description@ =~= share_description_text(*sx));
    let title_text = string_of(&title);
    let description_text = string_of(&description);
    let mut fields: Vec<(String, String)> = Vec::new();
    fields.push((owned("title"), html_escape(title_text.as_str())));
    fields.push((owned("description"), html_escape(description_text.as_str())));
    fields.push((owned("preview_image_url"), html_escape(sx.preview_image_url.as_str())));
    fields.push((owned("report_url"), html_escape(sx.report_url.as_str())));
    fields.push((owned("winner"), html_escape(sx.winner_label.as_str())));
    fields.push((owned("winner_score"), owned(sx.winner_score.as_str())));
    fields.push((owned("opponent_score"), owned(sx.opponent_score.as_str())));
    fields.push((owned("margin"), owned(sx.margin.as_str())));
    assert(field_names(fields@) =~= share_field_names());
    assert(field_values(fields@) =~= share_field_values(*sx));
    let page = share_page_template();
    fill_template(page.as_str(), &fields)
}

} // verus!
verus! {

/// `c` is an `s` in either case.
pub open spec fn is_s(c: char) -> bool {
    c == 's' || c == 'S'
}

/// `c` is a `c` in either case.
pub open spec fn is_c(c: char) -> bool {
    c == 'c' || c == 'C'
}

/// Every `<` in `s` is followed by two more characters that do not begin a
/// `script` tag name in any case, so `s` holds no `<script`.
pub open spec fn opens_no_script(s: Seq<char>) -> bool {
    forall|i: int|
        0 <= i < s.len() && #[trigger] s[i] == '<' ==> i + 2 < s.len() && !(is_s(s[i + 1]) && is_c(
            s[i + 2],
        ))
}

/// Like [`opens_no_script`], and the two characters after each `<` are no
/// braces, so no placeholder of a template stands right after a `<`.
pub open spec fn plain_tags(s: Seq<char>) -> bool {
    forall|i: int|
        0 <= i < s.len() && #[trigger] s[i] == '<' ==> i + 2 < s.len() && s[i + 1] != '{' && s[i
            + 1] != '}' && s[i + 2] != '{' && s[i + 2] != '}' && !(is_s(s[i + 1]) && is_c(s[i + 2]))
}

proof fn lemma_concat_ons(a: Seq<char>, b: Seq<char>)
    requires
        opens_no_script(a),
        opens_no_script(b),
    ensures
        opens_no_script(a + b),
{
    let s = a + b;
    assert forall|i: int| 0 <= i < s.len() && #[trigger] s[i] == '<' implies i + 2 < s.len() && !(
    is_s(s[i + 1]) && is_c(s[i + 2])) by {
        if i < a.len() {
            assert(a[i] == '<');
        } else {
            assert(b[i - a.len()] == '<');
        }
    }
}

proof fn lemma_concat_plain(a: Seq<char>, b: Seq<char>)
    requires
        plain_tags(a),
        plain_tags(b),
    ensures
        plain_tags(a + b),
{
    let s = a + b;
    assert forall|i: int| 0 <= i < s.len() && #[trigger] s[i] == '<' implies i + 2 < s.len() && s[i
        + 1] != '{' && s[i + 1] != '}' && s[i + 2] != '{' && s[i + 2] != '}' && !(is_s(s[i + 1])
        && is_c(s[i + 2])) by {
        if i < a.len() {
            assert(a[i] == '<');
        } else {
            assert(b[i - a.len()] == '<');
        }
    }
}

proof fn lemma_plain_suffix(s: Seq<char>, k: int)
    requires
        plain_tags(s),
        0 <= k <= s.len(),
    ensures
        plain_tags(s.skip(k)),
{
    let r = s.skip(k);
    assert forall|i: int| 0 <= i < r.len() && #[trigger] r[i] == '<' implies i + 2 < r.len() && r[i
        + 1] != '{' && r[i + 1] != '}' && r[i + 2] != '{' && r[i + 2] != '}' && !(is_s(r[i + 1])
        && is_c(r[i + 2])) by {
        assert(s[i + k] == '<');
    }
}

/// Escaped text holds no `<`, so it opens no script.
proof fn lemma_escaped_ons(s: Seq<char>)
    ensures
        opens_no_script(html_escaped(s)),
{
    crate::html::lemma_html_escape_safe(s);
    let e = html_escaped(s);
    assert forall|i: int| 0 <= i < e.len() && #[trigger] e[i] == '<' implies i + 2 < e.len() && !(
    is_s(e[i + 1]) && is_c(e[i + 2])) by {
        assert(e[i] != '<');
    }
}

proof fn lemma_decimal_ons(n: nat)
    ensures
        opens_no_script(decimal_text(n)),
        forall|i: int| 0 <= i < decimal_text(n).len() ==> #[trigger] decimal_text(n)[i] != '<',
    decreases n,
{
    if n >= 10 {
        lemma_decimal_ons(n / 10);
        let d = decimal_text(n);
        assert forall|i: int| 0 <= i < d.len() implies #[trigger] d[i] != '<' by {
            if i < d.len() - 1 {
                assert(d[i] == decimal_text(n / 10)[i]);
            }
        }
    }
}

/// A filled template opens no script when its own tags are plain and none of
/// its field values opens one.
proof fn lemma_expanded_ons(t: Seq<char>, names: Seq<Seq<char>>, values: Seq<Seq<char>>)
    requires
        plain_tags(t),
        forall|j: int| 0 <= j < values.len() ==> opens_no_script(#[trigger] values[j]),
        names.len() == values.len(),
    ensures
        opens_no_script(expanded(t, names, values)),
    decreases t.len(),
{
    let out = expanded(t, names, values);
    if t.len() == 0 {
    } else if t.len() >= 2 && t[0] == '{' && t[1] == '{' {
        lemma_plain_suffix(t, 2);
        lemma_expanded_ons(t.skip(2), names, values);
        lemma_concat_ons(seq!['{'], expanded(t.skip(2), names, values));
    } else if t.len() >= 2 && t[0] == '}' && t[1] == '}' {
        lemma_plain_suffix(t, 2);
        lemma_expanded_ons(t.skip(2), names, values);
        lemma_concat_ons(seq!['}'], expanded(t.skip(2), names, values));
    } else if t[0] == '{' {
        let rest = t.drop_first();
        lemma_plain_suffix(t, 1);
        assert(rest =~= t.skip(1));
        let k = first_index_of(rest, '}');
        lemma_first_index_of_bounds(rest, '}');
        if k < rest.len() {
            lemma_plain_suffix(rest, k + 1);
            lemma_expanded_ons(rest.skip(k + 1), names, values);
            match field_value(names, values, rest.take(k)) {
                Some(v) => {
                    let j = first_field(names, rest.take(k));
                    assert(v == values[j]);
                    lemma_concat_ons(v, expanded(rest.skip(k + 1), names, values));
                },
                None => {
                    lemma_expanded_ons(rest, names, values);
                    lemma_concat_ons(seq!['{'], expanded(rest, names, values));
                },
            }
        } else {
            lemma_expanded_ons(rest, names, values);
            lemma_concat_ons(seq!['{'], expanded(rest, names, values));
        }
    } else {
        let d = t.drop_first();
        lemma_plain_suffix(t, 1);
        assert(d =~= t.skip(1));
        lemma_expanded_ons(d, names, values);
        let x = expanded(d, names, values);
        assert(out == seq![t[0]] + x);
        if t[0] == '<' {
            assert(t[0] == '<');
            let d2 = d.drop_first();
            lemma_plain_suffix(t, 2);
            assert(d2 =~= t.skip(2));
            assert(x == seq![d[0]] + expanded(d2, names, values));
            assert(expanded(d2, names, values) == seq![d2[0]] + expanded(d2.drop_first(), names, values));
            assert(out[1] == t[1] && out[2] == t[2]);
            assert forall|i: int| 0 <= i < out.len() && #[trigger] out[i] == '<' implies i + 2 < out.len()
                && !(is_s(out[i + 1]) && is_c(out[i + 2])) by {
                if i > 0 {
                    assert(x[i - 1] == '<');
                }
            }
        } else {
            lemma_concat_ons(seq![t[0]], x);
        }
    }
}

proof fn lemma_mini_cell_text_ons(lang: Language, row: ReportAxisRow, left: bool)
    ensures
        opens_no_script(mini_cell_text(lang, row, left)),
{
    reveal_strlit("<div class=\"mini-stat ");
    assert(opens_no_script("<div class=\"mini-stat "@));
    reveal_strlit("mini-lead");
    assert(opens_no_script("mini-lead"@));
    lemma_lead_class_text_ons(row.lead, left, "mini-lead"@);
    reveal_strlit("\"><span class=\"mini-icon\">");
    assert(opens_no_script("\"><span class=\"mini-icon\">"@));
    lemma_icon_of_ons(row.key@);
    reveal_strlit("</span><span class=\"mini-name\">");
    assert(opens_no_script("</span><span class=\"mini-name\">"@));
    lemma_escaped_ons(short_of(lang, row.key@));
    reveal_strlit("</span><span class=\"mini-score\">");
    assert(opens_no_script("</span><span class=\"mini-score\">"@));
    lemma_escaped_ons(side_text(left, row.left_score@, row.right_score@));
    reveal_strlit("</span><span class=\"mini-rank ");
    assert(opens_no_script("</span><span class=\"mini-rank "@));
    lemma_escaped_ons(side_text(left, row.left_rank_class@, row.right_rank_class@));
    reveal_strlit("\">");
    assert(opens_no_script("\">"@));
    lemma_escaped_ons(side_text(left, row.left_rank@, row.right_rank@));
    reveal_strlit("</span></div>");
    assert(opens_no_script("</span></div>"@));
    lemma_concat_ons("<div class=\"mini-stat "@, lead_class_text(row.lead, left, "mini-lead"@));
    lemma_concat_ons("<div class=\"mini-stat "@ + lead_class_text(row.lead, left, "mini-lead"@), "\"><span class=\"mini-icon\">"@);
    lemma_concat_ons("<div class=\"mini-stat "@ + lead_class_text(row.lead, left, "mini-lead"@) + "\"><span class=\"mini-icon\">"@, icon_of(row.key@));
    lemma_concat_ons("<div class=\"mini-stat "@ + lead_class_text(row.lead, left, "mini-lead"@) + "\"><span class=\"mini-icon\">"@ + icon_of(row.key@), "</span><span class=\"mini-name\">"@);
    lemma_concat_ons("<div class=\"mini-stat "@ + lead_class_text(row.lead, left, "mini-lead"@) + "\"><span class=\"mini-icon\">"@ + icon_of(row.key@) + "</span><span class=\"mini-name\">"@, html_escaped(short_of(lang, row.key@)));
    lemma_concat_ons("<div class=\"mini-stat "@ + lead_class_text(row.lead, left, "mini-lead"@) + "\"><span class=\"mini-icon\">"@ + icon_of(row.key@) + "</span><span class=\"mini-name\">"@ + html_escaped(short_of(lang, row.key@)), "</span><span class=\"mini-score\">"@);
    lemma_concat_ons("<div class=\"mini-stat "@ + lead_class_text(row.lead, left, "mini-lead"@) + "\"><span class=\"mini-icon\">"@ + icon_of(row.key@) + "</span><span class=\"mini-name\">"@ + html_escaped(short_of(lang, row.key@)) + "</span><span class=\"mini-score\">"@, html_escaped(side_text(left, row.left_score@, row.right_score@)));
    lemma_concat_ons("<div class=\"mini-stat "@ + lead_class_text(row.lead, left, "mini-lead"@) + "\"><span class=\"mini-icon\">"@ + icon_of(row.key@) + "</span><span class=\"mini-name\">"@ + html_escaped(short_of(lang, row.key@)) + "</span><span class=\"mini-score\">"@ + html_escaped(side_text(left, row.left_score@, row.right_score@)), "</span><span class=\"mini-rank "@);
    lemma_concat_ons("<div class=\"mini-stat "@ + lead_class_text(row.lead, left, "mini-lead"@) + "\"><span class=\"mini-icon\">"@ + icon_of(row.key@) + "</span><span class=\"mini-name\">"@ + html_escaped(short_of(lang, row.key@)) + "</span><span class=\"mini-score\">"@ + html_escaped(side_text(left, row.left_score@, row.right_score@)) + "</span><span class=\"mini-rank "@, html_escaped(side_text(left, row.left_rank_class@, row.right_rank_class@)));
    lemma_concat_ons("<div class=\"mini-stat "@ + lead_class_text(row.lead, left, "mini-lead"@) + "\"><span class=\"mini-icon\">"@ + icon_of(row.key@) + "</span><span class=\"mini-name\">"@ + html_escaped(short_of(lang, row.key@)) + "</span><span class=\"mini-score\">"@ + html_escaped(side_text(left, row.left_score@, row.right_score@)) + "</span><span class=\"mini-rank "@ + html_escaped(side_text(left, row.left_rank_class@, row.right_rank_class@)), "\">"@);
    lemma_concat_ons("<div class=\"mini-stat "@ + lead_class_text(row.lead, left, "mini-lead"@) + "\"><span class=\"mini-icon\">"@ + icon_of(row.key@) + "</span><span class=\"mini-name\">"@ + html_escaped(short_of(lang, row.key@)) + "</span><span class=\"mini-score\">"@ + html_escaped(side_text(left, row.left_score@, row.right_score@)) + "</span><span class=\"mini-rank "@ + html_escaped(side_text(left, row.left_rank_class@, row.right_rank_class@)) + "\">"@, html_escaped(side_text(left, row.left_rank@, row.right_rank@)));
    lemma_concat_ons("<div class=\"mini-stat "@ + lead_class_text(row.lead, left, "mini-lead"@) + "\"><span class=\"mini-icon\">"@ + icon_of(row.key@) + "</span><span class=\"mini-name\">"@ + html_escaped(short_of(lang, row.key@)) + "</span><span class=\"mini-score\">"@ + html_escaped(side_text(left, row.left_score@, row.right_score@)) + "</span><span class=\"mini-rank "@ + html_escaped(side_text(left, row.left_rank_class@, row.right_rank_class@)) + "\">"@ + html_escaped(side_text(left, row.left_rank@, row.right_rank@)), "</span></div>"@);
}

proof fn lemma_axis_bar_text_ons(lang: Language, row: ReportAxisRow, left_wins: bool)
    ensures
        opens_no_script(axis_bar_text(lang, row, left_wins)),
{
    reveal_strlit("<article class=\"axis-row\"><div class=\"axis-meta\"><div class=\"axis-head\"><span class=\"axis-icon\">");
    assert(opens_no_script("<article class=\"axis-row\"><div class=\"axis-meta\"><div class=\"axis-head\"><span class=\"axis-icon\">"@));
    lemma_icon_of_ons(row.key@);
    reveal_strlit("</span><span class=\"axis-name\">");
    assert(opens_no_script("</span><span class=\"axis-name\">"@));
    lemma_escaped_ons(label_of(lang, row.key@));
    reveal_strlit("</span></div><div class=\"axis-desc\">");
    assert(opens_no_script("</span></div><div class=\"axis-desc\">"@));
    lemma_escaped_ons(desc_of(lang, row.key@));
    reveal_strlit("</div></div><div class=\"axis-track\"><div class=\"axis-side\"><span class=\"axis-rank ");
    assert(opens_no_script("</div></div><div class=\"axis-track\"><div class=\"axis-side\"><span class=\"axis-rank "@));
    lemma_escaped_ons(row.left_rank_class@);
    reveal_strlit("\">");
    assert(opens_no_script("\">"@));
    lemma_escaped_ons(row.left_rank@);
    reveal_strlit("</span><span class=\"axis-num\">");
    assert(opens_no_script("</span><span class=\"axis-num\">"@));
    lemma_escaped_ons(row.left_num@);
    reveal_strlit("</span><div class=\"");
    assert(opens_no_script("</span><div class=\""@));
    lemma_bar_class_text_ons(row.lead, true);
    reveal_strlit("\" style=\"width:");
    assert(opens_no_script("\" style=\"width:"@));
    lemma_escaped_ons(row.left_pct@);
    reveal_strlit("%\"></div></div><div class=\"");
    assert(opens_no_script("%\"></div></div><div class=\""@));
    lemma_gap_class_text_ons(row.lead, left_wins);
    reveal_strlit("\">");
    assert(opens_no_script("\">"@));
    lemma_gap_text_ons(row, left_wins);
    reveal_strlit("</div><div class=\"axis-side axis-side-right\"><div class=\"");
    assert(opens_no_script("</div><div class=\"axis-side axis-side-right\"><div class=\""@));
    lemma_bar_class_text_ons(row.lead, false);
    reveal_strlit("\" style=\"width:");
    assert(opens_no_script("\" style=\"width:"@));
    lemma_escaped_ons(row.right_pct@);
    reveal_strlit("%\"></div><span class=\"axis-num\">");
    assert(opens_no_script("%\"></div><span class=\"axis-num\">"@));
    lemma_escaped_ons(row.right_num@);
    reveal_strlit("</span><span class=\"axis-rank ");
    assert(opens_no_script("</span><span class=\"axis-rank "@));
    lemma_escaped_ons(row.right_rank_class@);
    reveal_strlit("\">");
    assert(opens_no_script("\">"@));
    lemma_escaped_ons(row.right_rank@);
    reveal_strlit("</span></div></div></article>");
    assert(opens_no_script("</span></div></div></article>"@));
    lemma_concat_ons("<article class=\"axis-row\"><div class=\"axis-meta\"><div class=\"axis-head\"><span class=\"axis-icon\">"@, icon_of(row.key@));
    lemma_concat_ons("<article class=\"axis-row\"><div class=\"axis-meta\"><div class=\"axis-head\"><span class=\"axis-icon\">"@ + icon_of(row.key@), "</span><span class=\"axis-name\">"@);
    lemma_concat_ons("<article class=\"axis-row\"><div class=\"axis-meta\"><div class=\"axis-head\"><span class=\"axis-icon\">"@ + icon_of(row.key@) + "</span><span class=\"axis-name\">"@, html_escaped(label_of(lang, row.key@)));
    lemma_concat_ons("<article class=\"axis-row\"><div class=\"axis-meta\"><div class=\"axis-head\"><span class=\"axis-icon\">"@ + icon_of(row.key@) + "</span><span class=\"axis-name\">"@ + html_escaped(label_of(lang, row.key@)), "</span></div><div class=\"axis-desc\">"@);
    lemma_concat_ons("<article class=\"axis-row\"><div class=\"axis-meta\"><div class=\"axis-head\"><span class=\"axis-icon\">"@ + icon_of(row.key@) + "</span><span class=\"axis-name\">"@ + html_escaped(label_of(lang, row.key@)) + "</span></div><div class=\"axis-desc\">"@, html_escaped(desc_of(lang, row.key@)));
    lemma_concat_ons("<article class=\"axis-row\"><div class=\"axis-meta\"><div class=\"axis-head\"><span class=\"axis-icon\">"@ + icon_of(row.key@) + "</span><span class=\"axis-name\">"@ + html_escaped(label_of(lang, row.key@)) + "</span></div><div class=\"axis-desc\">"@ + html_escaped(desc_of(lang, row.key@)), "</div></div><div class=\"axis-track\"><div class=\"axis-side\"><span class=\"axis-rank "@);
    lemma_concat_ons("<article class=\"axis-row\"><div class=\"axis-meta\"><div class=\"axis-head\"><span class=\"axis-icon\">"@ + icon_of(row.key@) + "</span><span class=\"axis-name\">"@ + html_escaped(label_of(lang, row.key@)) + "</span></div><div class=\"axis-desc\">"@ + html_escaped(desc_of(lang, row.key@)) + "</div></div><div class=\"axis-track\"><div class=\"axis-side\"><span class=\"axis-rank "@, html_escaped(row.left_rank_class@));
    lemma_concat_ons("<article class=\"axis-row\"><div class=\"axis-meta\"><div class=\"axis-head\"><span class=\"axis-icon\">"@ + icon_of(row.key@) + "</span><span class=\"axis-name\">"@ + html_escaped(label_of(lang, row.key@)) + "</span></div><div class=\"axis-desc\">"@ + html_escaped(desc_of(lang, row.key@)) + "</div></div><div class=\"axis-track\"><div class=\"axis-side\"><span class=\"axis-rank "@ + html_escaped(row.left_rank_class@), "\">"@);
    lemma_concat_ons("<article class=\"axis-row\"><div class=\"axis-meta\"><div class=\"axis-head\"><span class=\"axis-icon\">"@ + icon_of(row.key@) + "</span><span class=\"axis-name\">"@ + html_escaped(label_of(lang, row.key@)) + "</span></div><div class=\"axis-desc\">"@ + html_escaped(desc_of(lang, row.key@)) + "</div></div><div class=\"axis-track\"><div class=\"axis-side\"><span class=\"axis-rank "@ + html_escaped(row.left_rank_class@) + "\">"@, html_escaped(row.left_rank@));
    lemma_concat_ons("<article class=\"axis-row\"><div class=\"axis-meta\"><div class=\"axis-head\"><span class=\"axis-icon\">"@ + icon_of(row.key@) + "</span><span class=\"axis-name\">"@ + html_escaped(label_of(lang, row.key@)) + "</span></div><div class=\"axis-desc\">"@ + html_escaped(desc_of(lang, row.key@)) + "</div></div><div class=\"axis-track\"><div class=\"axis-side\"><span class=\"axis-rank "@ + html_escaped(row.left_rank_class@) + "\">"@ + html_escaped(row.left_rank@), "</span><span class=\"axis-num\">"@);
    lemma_concat_ons("<article class=\"axis-row\"><div class=\"axis-meta\"><div class=\"axis-head\"><span class=\"axis-icon\">"@ + icon_of(row.key@) + "</span><span class=\"axis-name\">"@ + html_escaped(label_of(lang, row.key@)) + "</span></div><div class=\"axis-desc\">"@ + html_escaped(desc_of(lang, row.key@)) + "</div></div><div class=\"axis-track\"><div class=\"axis-side\"><span class=\"axis-rank "@ + html_escaped(row.left_rank_class@) + "\">"@ + html_escaped(row.left_rank@) + "</span><span class=\"axis-num\">"@, html_escaped(row.left_num@));
    lemma_concat_ons("<article class=\"axis-row\"><div class=\"axis-meta\"><div class=\"axis-head\"><span class=\"axis-icon\">"@ + icon_of(row.key@) + "</span><span class=\"axis-name\">"@ + html_escaped(label_of(lang, row.key@)) + "</span></div><div class=\"axis-desc\">"@ + html_escaped(desc_of(lang, row.key@)) + "</div></div><div class=\"axis-track\"><div class=\"axis-side\"><span class=\"axis-rank "@ + html_escaped(row.left_rank_class@) + "\">"@ + html_escaped(row.left_rank@) + "</span><span class=\"axis-num\">"@ + html_escaped(row.left_num@), "</span><div class=\""@);
    lemma_concat_ons("<article class=\"axis-row\"><div class=\"axis-meta\"><div class=\"axis-head\"><span class=\"axis-icon\">"@ + icon_of(row.key@) + "</span><span class=\"axis-name\">"@ + html_escaped(label_of(lang, row.key@)) + "</span></div><div class=\"axis-desc\">"@ + html_escaped(desc_of(lang, row.key@)) + "</div></div><div class=\"axis-track\"><div class=\"axis-side\"><span class=\"axis-rank "@ + html_escaped(row.left_rank_class@) + "\">"@ + html_escaped(row.left_rank@) + "</span><span class=\"axis-num\">"@ + html_escaped(row.left_num@) + "</span><div class=\""@, bar_class_text(row.lead, true));
    lemma_concat_ons("<article class=\"axis-row\"><div class=\"axis-meta\"><div class=\"axis-head\"><span class=\"axis-icon\">"@ + icon_of(row.key@) + "</span><span class=\"axis-name\">"@ + html_escaped(label_of(lang, row.key@)) + "</span></div><div class=\"axis-desc\">"@ + html_escaped(desc_of(lang, row.key@)) + "</div></div><div class=\"axis-track\"><div class=\"axis-side\"><span class=\"axis-rank "@ + html_escaped(row.left_rank_class@) + "\">"@ + html_escaped(row.left_rank@) + "</span><span class=\"axis-num\">"@ + html_escaped(row.left_num@) + "</span><div class=\""@ + bar_class_text(row.lead, true), "\" style=\"width:"@);
    lemma_concat_ons("<article class=\"axis-row\"><div class=\"axis-meta\"><div class=\"axis-head\"><span class=\"axis-icon\">"@ + icon_of(row.key@) + "</span><span class=\"axis-name\">"@ + html_escaped(label_of(lang, row.key@)) + "</span></div><div class=\"axis-desc\">"@ + html_escaped(desc_of(lang, row.key@)) + "</div></div><div class=\"axis-track\"><div class=\"axis-side\"><span class=\"axis-rank "@ + html_escaped(row.left_rank_class@) + "\">"@ + html_escaped(row.left_rank@) + "</span><span class=\"axis-num\">"@ + html_escaped(row.left_num@) + "</span><div class=\""@ + bar_class_text(row.lead, true) + "\" style=\"width:"@, html_escaped(row.left_pct@));
    lemma_concat_ons("<article class=\"axis-row\"><div class=\"axis-meta\"><div class=\"axis-head\"><span class=\"axis-icon\">"@ + icon_of(row.key@) + "</span><span class=\"axis-name\">"@ + html_escaped(label_of(lang, row.key@)) + "</span></div><div class=\"axis-desc\">"@ + html_escaped(desc_of(lang, row.key@)) + "</div></div><div class=\"axis-track\"><div class=\"axis-side\"><span class=\"axis-rank "@ + html_escaped(row.left_rank_class@) + "\">"@ + html_escaped(row.left_rank@) + "</span><span class=\"axis-num\">"@ + html_escaped(row.left_num@) + "</span><div class=\""@ + bar_class_text(row.lead, true) + "\" style=\"width:"@ + html_escaped(row.left_pct@), "%\"></div></div><div class=\""@);
    lemma_concat_ons("<article class=\"axis-row\"><div class=\"axis-meta\"><div class=\"axis-head\"><span class=\"axis-icon\">"@ + icon_of(row.key@) + "</span><span class=\"axis-name\">"@ + html_escaped(label_of(lang, row.key@)) + "</span></div><div class=\"axis-desc\">"@ + html_escaped(desc_of(lang, row.key@)) + "</div></div><div class=\"axis-track\"><div class=\"axis-side\"><span class=\"axis-rank "@ + html_escaped(row.left_rank_class@) + "\">"@ + html_escaped(row.left_rank@) + "</span><span class=\"axis-num\">"@ + html_escaped(row.left_num@) + "</span><div class=\""@ + bar_class_text(row.lead, true) + "\" style=\"width:"@ + html_escaped(row.left_pct@) + "%\"></div></div><div class=\""@, gap_class_text(row.lead, left_wins));
    lemma_concat_ons("<article class=\"axis-row\"><div class=\"axis-meta\"><div class=\"axis-head\"><span class=\"axis-icon\">"@ + icon_of(row.key@) + "</span><span class=\"axis-name\">"@ + html_escaped(label_of(lang, row.key@)) + "</span></div><div class=\"axis-desc\">"@ + html_escaped(desc_of(lang, row.key@)) + "</div></div><div class=\"axis-track\"><div class=\"axis-side\"><span class=\"axis-rank "@ + html_escaped(row.left_rank_class@) + "\">"@ + html_escaped(row.left_rank@) + "</span><span class=\"axis-num\">"@ + html_escaped(row.left_num@) + "</span><div class=\""@ + bar_class_text(row.lead, true) + "\" style=\"width:"@ + html_escaped(row.left_pct@) + "%\"></div></div><div class=\""@ + gap_class_text(row.lead, left_wins), "\">"@);
    lemma_concat_ons("<article class=\"axis-row\"><div class=\"axis-meta\"><div class=\"axis-head\"><span class=\"axis-icon\">"@ + icon_of(row.key@) + "</span><span class=\"axis-name\">"@ + html_escaped(label_of(lang, row.key@)) + "</span></div><div class=\"axis-desc\">"@ + html_escaped(desc_of(lang, row.key@)) + "</div></div><div class=\"axis-track\"><div class=\"axis-side\"><span class=\"axis-rank "@ + html_escaped(row.left_rank_class@) + "\">"@ + html_escaped(row.left_rank@) + "</span><span class=\"axis-num\">"@ + html_escaped(row.left_num@) + "</span><div class=\""@ + bar_class_text(row.lead, true) + "\" style=\"width:"@ + html_escaped(row.left_pct@) + "%\"></div></div><div class=\""@ + gap_class_text(row.lead, left_wins) + "\">"@, gap_text(row, left_wins));
    lemma_concat_ons("<article class=\"axis-row\"><div class=\"axis-meta\"><div class=\"axis-head\"><span class=\"axis-icon\">"@ + icon_of(row.key@) + "</span><span class=\"axis-name\">"@ + html_escaped(label_of(lang, row.key@)) + "</span></div><div class=\"axis-desc\">"@ + html_escaped(desc_of(lang, row.key@)) + "</div></div><div class=\"axis-track\"><div class=\"axis-side\"><span class=\"axis-rank "@ + html_escaped(row.left_rank_class@) + "\">"@ + html_escaped(row.left_rank@) + "</span><span class=\"axis-num\">"@ + html_escaped(row.left_num@) + "</span><div class=\""@ + bar_class_text(row.lead, true) + "\" style=\"width:"@ + html_escaped(row.left_pct@) + "%\"></div></div><div class=\""@ + gap_class_text(row.lead, left_wins) + "\">"@ + gap_text(row, left_wins), "</div><div class=\"axis-side axis-side-right\"><div class=\""@);
    lemma_concat_ons("<article class=\"axis-row\"><div class=\"axis-meta\"><div class=\"axis-head\"><span class=\"axis-icon\">"@ + icon_of(row.key@) + "</span><span class=\"axis-name\">"@ + html_escaped(label_of(lang, row.key@)) + "</span></div><div class=\"axis-desc\">"@ + html_escaped(desc_of(lang, row.key@)) + "</div></div><div class=\"axis-track\"><div class=\"axis-side\"><span class=\"axis-rank "@ + html_escaped(row.left_rank_class@) + "\">"@ + html_escaped(row.left_rank@) + "</span><span class=\"axis-num\">"@ + html_escaped(row.left_num@) + "</span><div class=\""@ + bar_class_text(row.lead, true) + "\" style=\"width:"@ + html_escaped(row.left_pct@) + "%\"></div></div><div class=\""@ + gap_class_text(row.lead, left_wins) + "\">"@ + gap_text(row, left_wins) + "</div><div class=\"axis-side axis-side-right\"><div class=\""@, bar_class_text(row.lead, false));
    lemma_concat_ons("<article class=\"axis-row\"><div class=\"axis-meta\"><div class=\"axis-head\"><span class=\"axis-icon\">"@ + icon_of(row.key@) + "</span><span class=\"axis-name\">"@ + html_escaped(label_of(lang, row.key@)) + "</span></div><div class=\"axis-desc\">"@ + html_escaped(desc_of(lang, row.key@)) + "</div></div><div class=\"axis-track\"><div class=\"axis-side\"><span class=\"axis-rank "@ + html_escaped(row.left_rank_class@) + "\">"@ + html_escaped(row.left_rank@) + "</span><span class=\"axis-num\">"@ + html_escaped(row.left_num@) + "</span><div class=\""@ + bar_class_text(row.lead, true) + "\" style=\"width:"@ + html_escaped(row.left_pct@) + "%\"></div></div><div class=\""@ + gap_class_text(row.lead, left_wins) + "\">"@ + gap_text(row, left_wins) + "</div><div class=\"axis-side axis-side-right\"><div class=\""@ + bar_class_text(row.lead, false), "\" style=\"width:"@);
    lemma_concat_ons("<article class=\"axis-row\"><div class=\"axis-meta\"><div class=\"axis-head\"><span class=\"axis-icon\">"@ + icon_of(row.key@) + "</span><span class=\"axis-name\">"@ + html_escaped(label_of(lang, row.key@)) + "</span></div><div class=\"axis-desc\">"@ + html_escaped(desc_of(lang, row.key@)) + "</div></div><div class=\"axis-track\"><div class=\"axis-side\"><span class=\"axis-rank "@ + html_escaped(row.left_rank_class@) + "\">"@ + html_escaped(row.left_rank@) + "</span><span class=\"axis-num\">"@ + html_escaped(row.left_num@) + "</span><div class=\""@ + bar_class_text(row.lead, true) + "\" style=\"width:"@ + html_escaped(row.left_pct@) + "%\"></div></div><div class=\""@ + gap_class_text(row.lead, left_wins) + "\">"@ + gap_text(row, left_wins) + "</div><div class=\"axis-side axis-side-right\"><div class=\""@ + bar_class_text(row.lead, false) + "\" style=\"width:"@, html_escaped(row.right_pct@));
    lemma_concat_ons("<article class=\"axis-row\"><div class=\"axis-meta\"><div class=\"axis-head\"><span class=\"axis-icon\">"@ + icon_of(row.key@) + "</span><span class=\"axis-name\">"@ + html_escaped(label_of(lang, row.key@)) + "</span></div><div class=\"axis-desc\">"@ + html_escaped(desc_of(lang, row.key@)) + "</div></div><div class=\"axis-track\"><div class=\"axis-side\"><span class=\"axis-rank "@ + html_escaped(row.left_rank_class@) + "\">"@ + html_escaped(row.left_rank@) + "</span><span class=\"axis-num\">"@ + html_escaped(row.left_num@) + "</span><div class=\""@ + bar_class_text(row.lead, true) + "\" style=\"width:"@ + html_escaped(row.left_pct@) + "%\"></div></div><div class=\""@ + gap_class_text(row.lead, left_wins) + "\">"@ + gap_text(row, left_wins) + "</div><div class=\"axis-side axis-side-right\"><div class=\""@ + bar_class_text(row.lead, false) + "\" style=\"width:"@ + html_escaped(row.right_pct@), "%\"></div><span class=\"axis-num\">"@);
    lemma_concat_ons("<article class=\"axis-row\"><div class=\"axis-meta\"><div class=\"axis-head\"><span class=\"axis-icon\">"@ + icon_of(row.key@) + "</span><span class=\"axis-name\">"@ + html_escaped(label_of(lang, row.key@)) + "</span></div><div class=\"axis-desc\">"@ + html_escaped(desc_of(lang, row.key@)) + "</div></div><div class=\"axis-track\"><div class=\"axis-side\"><span class=\"axis-rank "@ + html_escaped(row.left_rank_class@) + "\">"@ + html_escaped(row.left_rank@) + "</span><span class=\"axis-num\">"@ + html_escaped(row.left_num@) + "</span><div class=\""@ + bar_class_text(row.lead, true) + "\" style=\"width:"@ + html_escaped(row.left_pct@) + "%\"></div></div><div class=\""@ + gap_class_text(row.lead, left_wins) + "\">"@ + gap_text(row, left_wins) + "</div><div class=\"axis-side axis-side-right\"><div class=\""@ + bar_class_text(row.lead, false) + "\" style=\"width:"@ + html_escaped(row.right_pct@) + "%\"></div><span class=\"axis-num\">"@, html_escaped(row.right_num@));
    lemma_concat_ons("<article class=\"axis-row\"><div class=\"axis-meta\"><div class=\"axis-head\"><span class=\"axis-icon\">"@ + icon_of(row.key@) + "</span><span class=\"axis-name\">"@ + html_escaped(label_of(lang, row.key@)) + "</span></div><div class=\"axis-desc\">"@ + html_escaped(desc_of(lang, row.key@)) + "</div></div><div class=\"axis-track\"><div class=\"axis-side\"><span class=\"axis-rank "@ + html_escaped(row.left_rank_class@) + "\">"@ + html_escaped(row.left_rank@) + "</span><span class=\"axis-num\">"@ + html_escaped(row.left_num@) + "</span><div class=\""@ + bar_class_text(row.lead, true) + "\" style=\"width:"@ + html_escaped(row.left_pct@) + "%\"></div></div><div class=\""@ + gap_class_text(row.lead, left_wins) + "\">"@ + gap_text(row, left_wins) + "</div><div class=\"axis-side axis-side-right\"><div class=\""@ + bar_class_text(row.lead, false) + "\" style=\"width:"@ + html_escaped(row.right_pct@) + "%\"></div><span class=\"axis-num\">"@ + html_escaped(row.right_num@), "</span><span class=\"axis-rank "@);
    lemma_concat_ons("<article class=\"axis-row\"><div class=\"axis-meta\"><div class=\"axis-head\"><span class=\"axis-icon\">"@ + icon_of(row.key@) + "</span><span class=\"axis-name\">"@ + html_escaped(label_of(lang, row.key@)) + "</span></div><div class=\"axis-desc\">"@ + html_escaped(desc_of(lang, row.key@)) + "</div></div><div class=\"axis-track\"><div class=\"axis-side\"><span class=\"axis-rank "@ + html_escaped(row.left_rank_class@) + "\">"@ + html_escaped(row.left_rank@) + "</span><span class=\"axis-num\">"@ + html_escaped(row.left_num@) + "</span><div class=\""@ + bar_class_text(row.lead, true) + "\" style=\"width:"@ + html_escaped(row.left_pct@) + "%\"></div></div><div class=\""@ + gap_class_text(row.lead, left_wins) + "\">"@ + gap_text(row, left_wins) + "</div><div class=\"axis-side axis-side-right\"><div class=\""@ + bar_class_text(row.lead, false) + "\" style=\"width:"@ + html_escaped(row.right_pct@) + "%\"></div><span class=\"axis-num\">"@ + html_escaped(row.right_num@) + "</span><span class=\"axis-rank "@, html_escaped(row.right_rank_class@));
    lemma_concat_ons("<article class=\"axis-row\"><div class=\"axis-meta\"><div class=\"axis-head\"><span class=\"axis-icon\">"@ + icon_of(row.key@) + "</span><span class=\"axis-name\">"@ + html_escaped(label_of(lang, row.key@)) + "</span></div><div class=\"axis-desc\">"@ + html_escaped(desc_of(lang, row.key@)) + "</div></div><div class=\"axis-track\"><div class=\"axis-side\"><span class=\"axis-rank "@ + html_escaped(row.left_rank_class@) + "\">"@ + html_escaped(row.left_rank@) + "</span><span class=\"axis-num\">"@ + html_escaped(row.left_num@) + "</span><div class=\""@ + bar_class_text(row.lead, true) + "\" style=\"width:"@ + html_escaped(row.left_pct@) + "%\"></div></div><div class=\""@ + gap_class_text(row.lead, left_wins) + "\">"@ + gap_text(row, left_wins) + "</div><div class=\"axis-side axis-side-right\"><div class=\""@ + bar_class_text(row.lead, false) + "\" style=\"width:"@ + html_escaped(row.right_pct@) + "%\"></div><span class=\"axis-num\">"@ + html_escaped(row.right_num@) + "</span><span class=\"axis-rank "@ + html_escaped(row.right_rank_class@), "\">"@);
    lemma_concat_ons("<article class=\"axis-row\"><div class=\"axis-meta\"><div class=\"axis-head\"><span class=\"axis-icon\">"@ + icon_of(row.key@) + "</span><span class=\"axis-name\">"@ + html_escaped(label_of(lang, row.key@)) + "</span></div><div class=\"axis-desc\">"@ + html_escaped(desc_of(lang, row.key@)) + "</div></div><div class=\"axis-track\"><div class=\"axis-side\"><span class=\"axis-rank "@ + html_escaped(row.left_rank_class@) + "\">"@ + html_escaped(row.left_rank@) + "</span><span class=\"axis-num\">"@ + html_escaped(row.left_num@) + "</span><div class=\""@ + bar_class_text(row.lead, true) + "\" style=\"width:"@ + html_escaped(row.left_pct@) + "%\"></div></div><div class=\""@ + gap_class_text(row.lead, left_wins) + "\">"@ + gap_text(row, left_wins) + "</div><div class=\"axis-side axis-side-right\"><div class=\""@ + bar_class_text(row.lead, false) + "\" style=\"width:"@ + html_escaped(row.right_pct@) + "%\"></div><span class=\"axis-num\">"@ + html_escaped(row.right_num@) + "</span><span class=\"axis-rank "@ + html_escaped(row.right_rank_class@) + "\">"@, html_escaped(row.right_rank@));
    lemma_concat_ons("<article class=\"axis-row\"><div class=\"axis-meta\"><div class=\"axis-head\"><span class=\"axis-icon\">"@ + icon_of(row.key@) + "</span><span class=\"axis-name\">"@ + html_escaped(label_of(lang, row.key@)) + "</span></div><div class=\"axis-desc\">"@ + html_escaped(desc_of(lang, row.key@)) + "</div></div><div class=\"axis-track\"><div class=\"axis-side\"><span class=\"axis-rank "@ + html_escaped(row.left_rank_class@) + "\">"@ + html_escaped(row.left_rank@) + "</span><span class=\"axis-num\">"@ + html_escaped(row.left_num@) + "</span><div class=\""@ + bar_class_text(row.lead, true) + "\" style=\"width:"@ + html_escaped(row.left_pct@) + "%\"></div></div><div class=\""@ + gap_class_text(row.lead, left_wins) + "\">"@ + gap_text(row, left_wins) + "</div><div class=\"axis-side axis-side-right\"><div class=\""@ + bar_class_text(row.lead, false) + "\" style=\"width:"@ + html_escaped(row.right_pct@) + "%\"></div><span class=\"axis-num\">"@ + html_escaped(row.right_num@) + "</span><span class=\"axis-rank "@ + html_escaped(row.right_rank_class@) + "\">"@ + html_escaped(row.right_rank@), "</span></div></div></article>"@);
}

proof fn lemma_summary_row_text_ons(lang: Language, row: ReportAxisRow)
    ensures
        opens_no_script(summary_row_text(lang, row)),
{
    reveal_strlit("<tr><td class=\"sum-axis\"><span class=\"sum-icon\">");
    assert(opens_no_script("<tr><td class=\"sum-axis\"><span class=\"sum-icon\">"@));
    lemma_icon_of_ons(row.key@);
    reveal_strlit("</span><span>");
    assert(opens_no_script("</span><span>"@));
    lemma_escaped_ons(label_of(lang, row.key@));
    reveal_strlit("</span></td><td class=\"sum-num ");
    assert(opens_no_script("</span></td><td class=\"sum-num "@));
    reveal_strlit("sum-lead");
    assert(opens_no_script("sum-lead"@));
    lemma_lead_class_text_ons(row.lead, true, "sum-lead"@);
    reveal_strlit("\">");
    assert(opens_no_script("\">"@));
    lemma_escaped_ons(row.left_num@);
    reveal_strlit(" <span class=\"rank-mini ");
    assert(opens_no_script(" <span class=\"rank-mini "@));
    lemma_escaped_ons(row.left_rank_class@);
    reveal_strlit("\">");
    assert(opens_no_script("\">"@));
    lemma_escaped_ons(row.left_rank@);
    reveal_strlit("</span></td>");
    assert(opens_no_script("</span></td>"@));
    lemma_winner_cell_text_ons(row.lead);
    reveal_strlit("<td class=\"sum-num ");
    assert(opens_no_script("<td class=\"sum-num "@));
    reveal_strlit("sum-lead");
    assert(opens_no_script("sum-lead"@));
    lemma_lead_class_text_ons(row.lead, false, "sum-lead"@);
    reveal_strlit("\">");
    assert(opens_no_script("\">"@));
    lemma_escaped_ons(row.right_num@);
    reveal_strlit(" <span class=\"rank-mini ");
    assert(opens_no_script(" <span class=\"rank-mini "@));
    lemma_escaped_ons(row.right_rank_class@);
    reveal_strlit("\">");
    assert(opens_no_script("\">"@));
    lemma_escaped_ons(row.right_rank@);
    reveal_strlit("</span></td><td class=\"sum-gap\">");
    assert(opens_no_script("</span></td><td class=\"sum-gap\">"@));
    lemma_summary_gap_text_ons(row);
    reveal_strlit("</td></tr>");
    assert(opens_no_script("</td></tr>"@));
    lemma_concat_ons("<tr><td class=\"sum-axis\"><span class=\"sum-icon\">"@, icon_of(row.key@));
    lemma_concat_ons("<tr><td class=\"sum-axis\"><span class=\"sum-icon\">"@ + icon_of(row.key@), "</span><span>"@);
    lemma_concat_ons("<tr><td class=\"sum-axis\"><span class=\"sum-icon\">"@ + icon_of(row.key@) + "</span><span>"@, html_escaped(label_of(lang, row.key@)));
    lemma_concat_ons("<tr><td class=\"sum-axis\"><span class=\"sum-icon\">"@ + icon_of(row.key@) + "</span><span>"@ + html_escaped(label_of(lang, row.key@)), "</span></td><td class=\"sum-num "@);
    lemma_concat_ons("<tr><td class=\"sum-axis\"><span class=\"sum-icon\">"@ + icon_of(row.key@) + "</span><span>"@ + html_escaped(label_of(lang, row.key@)) + "</span></td><td class=\"sum-num "@, lead_class_text(row.lead, true, "sum-lead"@));
    lemma_concat_ons("<tr><td class=\"sum-axis\"><span class=\"sum-icon\">"@ + icon_of(row.key@) + "</span><span>"@ + html_escaped(label_of(lang, row.key@)) + "</span></td><td class=\"sum-num "@ + lead_class_text(row.lead, true, "sum-lead"@), "\">"@);
    lemma_concat_ons("<tr><td class=\"sum-axis\"><span class=\"sum-icon\">"@ + icon_of(row.key@) + "</span><span>"@ + html_escaped(label_of(lang, row.key@)) + "</span></td><td class=\"sum-num "@ + lead_class_text(row.lead, true, "sum-lead"@) + "\">"@, html_escaped(row.left_num@));
    lemma_concat_ons("<tr><td class=\"sum-axis\"><span class=\"sum-icon\">"@ + icon_of(row.key@) + "</span><span>"@ + html_escaped(label_of(lang, row.key@)) + "</span></td><td class=\"sum-num "@ + lead_class_text(row.lead, true, "sum-lead"@) + "\">"@ + html_escaped(row.left_num@), " <span class=\"rank-mini "@);
    lemma_concat_ons("<tr><td class=\"sum-axis\"><span class=\"sum-icon\">"@ + icon_of(row.key@) + "</span><span>"@ + html_escaped(label_of(lang, row.key@)) + "</span></td><td class=\"sum-num "@ + lead_class_text(row.lead, true, "sum-lead"@) + "\">"@ + html_escaped(row.left_num@) + " <span class=\"rank-mini "@, html_escaped(row.left_rank_class@));
    lemma_concat_ons("<tr><td class=\"sum-axis\"><span class=\"sum-icon\">"@ + icon_of(row.key@) + "</span><span>"@ + html_escaped(label_of(lang, row.key@)) + "</span></td><td class=\"sum-num "@ + lead_class_text(row.lead, true, "sum-lead"@) + "\">"@ + html_escaped(row.left_num@) + " <span class=\"rank-mini "@ + html_escaped(row.left_rank_class@), "\">"@);
    lemma_concat_ons("<tr><td class=\"sum-axis\"><span class=\"sum-icon\">"@ + icon_of(row.key@) + "</span><span>"@ + html_escaped(label_of(lang, row.key@)) + "</span></td><td class=\"sum-num "@ + lead_class_text(row.lead, true, "sum-lead"@) + "\">"@ + html_escaped(row.left_num@) + " <span class=\"rank-mini "@ + html_escaped(row.left_rank_class@) + "\">"@, html_escaped(row.left_rank@));
    lemma_concat_ons("<tr><td class=\"sum-axis\"><span class=\"sum-icon\">"@ + icon_of(row.key@) + "</span><span>"@ + html_escaped(label_of(lang, row.key@)) + "</span></td><td class=\"sum-num "@ + lead_class_text(row.lead, true, "sum-lead"@) + "\">"@ + html_escaped(row.left_num@) + " <span class=\"rank-mini "@ + html_escaped(row.left_rank_class@) + "\">"@ + html_escaped(row.left_rank@), "</span></td>"@);
    lemma_concat_ons("<tr><td class=\"sum-axis\"><span class=\"sum-icon\">"@ + icon_of(row.key@) + "</span><span>"@ + html_escaped(label_of(lang, row.key@)) + "</span></td><td class=\"sum-num "@ + lead_class_text(row.lead, true, "sum-lead"@) + "\">"@ + html_escaped(row.left_num@) + " <span class=\"rank-mini "@ + html_escaped(row.left_rank_class@) + "\">"@ + html_escaped(row.left_rank@) + "</span></td>"@, winner_cell_text(row.lead));
    lemma_concat_ons("<tr><td class=\"sum-axis\"><span class=\"sum-icon\">"@ + icon_of(row.key@) + "</span><span>"@ + html_escaped(label_of(lang, row.key@)) + "</span></td><td class=\"sum-num "@ + lead_class_text(row.lead, true, "sum-lead"@) + "\">"@ + html_escaped(row.left_num@) + " <span class=\"rank-mini "@ + html_escaped(row.left_rank_class@) + "\">"@ + html_escaped(row.left_rank@) + "</span></td>"@ + winner_cell_text(row.lead), "<td class=\"sum-num "@);
    lemma_concat_ons("<tr><td class=\"sum-axis\"><span class=\"sum-icon\">"@ + icon_of(row.key@) + "</span><span>"@ + html_escaped(label_of(lang, row.key@)) + "</span></td><td class=\"sum-num "@ + lead_class_text(row.lead, true, "sum-lead"@) + "\">"@ + html_escaped(row.left_num@) + " <span class=\"rank-mini "@ + html_escaped(row.left_rank_class@) + "\">"@ + html_escaped(row.left_rank@) + "</span></td>"@ + winner_cell_text(row.lead) + "<td class=\"sum-num "@, lead_class_text(row.lead, false, "sum-lead"@));
    lemma_concat_ons("<tr><td class=\"sum-axis\"><span class=\"sum-icon\">"@ + icon_of(row.key@) + "</span><span>"@ + html_escaped(label_of(lang, row.key@)) + "</span></td><td class=\"sum-num "@ + lead_class_text(row.lead, true, "sum-lead"@) + "\">"@ + html_escaped(row.left_num@) + " <span class=\"rank-mini "@ + html_escaped(row.left_rank_class@) + "\">"@ + html_escaped(row.left_rank@) + "</span></td>"@ + winner_cell_text(row.lead) + "<td class=\"sum-num "@ + lead_class_text(row.lead, false, "sum-lead"@), "\">"@);
    lemma_concat_ons("<tr><td class=\"sum-axis\"><span class=\"sum-icon\">"@ + icon_of(row.key@) + "</span><span>"@ + html_escaped(label_of(lang, row.key@)) + "</span></td><td class=\"sum-num "@ + lead_class_text(row.lead, true, "sum-lead"@) + "\">"@ + html_escaped(row.left_num@) + " <span class=\"rank-mini "@ + html_escaped(row.left_rank_class@) + "\">"@ + html_escaped(row.left_rank@) + "</span></td>"@ + winner_cell_text(row.lead) + "<td class=\"sum-num "@ + lead_class_text(row.lead, false, "sum-lead"@) + "\">"@, html_escaped(row.right_num@));
    lemma_concat_ons("<tr><td class=\"sum-axis\"><span class=\"sum-icon\">"@ + icon_of(row.key@) + "</span><span>"@ + html_escaped(label_of(lang, row.key@)) + "</span></td><td class=\"sum-num "@ + lead_class_text(row.lead, true, "sum-lead"@) + "\">"@ + html_escaped(row.left_num@) + " <span class=\"rank-mini "@ + html_escaped(row.left_rank_class@) + "\">"@ + html_escaped(row.left_rank@) + "</span></td>"@ + winner_cell_text(row.lead) + "<td class=\"sum-num "@ + lead_class_text(row.lead, false, "sum-lead"@) + "\">"@ + html_escaped(row.right_num@), " <span class=\"rank-mini "@);
    lemma_concat_ons("<tr><td class=\"sum-axis\"><span class=\"sum-icon\">"@ + icon_of(row.key@) + "</span><span>"@ + html_escaped(label_of(lang, row.key@)) + "</span></td><td class=\"sum-num "@ + lead_class_text(row.lead, true, "sum-lead"@) + "\">"@ + html_escaped(row.left_num@) + " <span class=\"rank-mini "@ + html_escaped(row.left_rank_class@) + "\">"@ + html_escaped(row.left_rank@) + "</span></td>"@ + winner_cell_text(row.lead) + "<td class=\"sum-num "@ + lead_class_text(row.lead, false, "sum-lead"@) + "\">"@ + html_escaped(row.right_num@) + " <span class=\"rank-mini "@, html_escaped(row.right_rank_class@));
    lemma_concat_ons("<tr><td class=\"sum-axis\"><span class=\"sum-icon\">"@ + icon_of(row.key@) + "</span><span>"@ + html_escaped(label_of(lang, row.key@)) + "</span></td><td class=\"sum-num "@ + lead_class_text(row.lead, true, "sum-lead"@) + "\">"@ + html_escaped(row.left_num@) + " <span class=\"rank-mini "@ + html_escaped(row.left_rank_class@) + "\">"@ + html_escaped(row.left_rank@) + "</span></td>"@ + winner_cell_text(row.lead) + "<td class=\"sum-num "@ + lead_class_text(row.lead, false, "sum-lead"@) + "\">"@ + html_escaped(row.right_num@) + " <span class=\"rank-mini "@ + html_escaped(row.right_rank_class@), "\">"@);
    lemma_concat_ons("<tr><td class=\"sum-axis\"><span class=\"sum-icon\">"@ + icon_of(row.key@) + "</span><span>"@ + html_escaped(label_of(lang, row.key@)) + "</span></td><td class=\"sum-num "@ + lead_class_text(row.lead, true, "sum-lead"@) + "\">"@ + html_escaped(row.left_num@) + " <span class=\"rank-mini "@ + html_escaped(row.left_rank_class@) + "\">"@ + html_escaped(row.left_rank@) + "</span></td>"@ + winner_cell_text(row.lead) + "<td class=\"sum-num "@ + lead_class_text(row.lead, false, "sum-lead"@) + "\">"@ + html_escaped(row.right_num@) + " <span class=\"rank-mini "@ + html_escaped(row.right_rank_class@) + "\">"@, html_escaped(row.right_rank@));
    lemma_concat_ons("<tr><td class=\"sum-axis\"><span class=\"sum-icon\">"@ + icon_of(row.key@) + "</span><span>"@ + html_escaped(label_of(lang, row.key@)) + "</span></td><td class=\"sum-num "@ + lead_class_text(row.lead, true, "sum-lead"@) + "\">"@ + html_escaped(row.left_num@) + " <span class=\"rank-mini "@ + html_escaped(row.left_rank_class@) + "\">"@ + html_escaped(row.left_rank@) + "</span></td>"@ + winner_cell_text(row.lead) + "<td class=\"sum-num "@ + lead_class_text(row.lead, false, "sum-lead"@) + "\">"@ + html_escaped(row.right_num@) + " <span class=\"rank-mini "@ + html_escaped(row.right_rank_class@) + "\">"@ + html_escaped(row.right_rank@), "</span></td><td class=\"sum-gap\">"@);
    lemma_concat_ons("<tr><td class=\"sum-axis\"><span class=\"sum-icon\">"@ + icon_of(row.key@) + "</span><span>"@ + html_escaped(label_of(lang, row.key@)) + "</span></td><td class=\"sum-num "@ + lead_class_text(row.lead, true, "sum-lead"@) + "\">"@ + html_escaped(row.left_num@) + " <span class=\"rank-mini "@ + html_escaped(row.left_rank_class@) + "\">"@ + html_escaped(row.left_rank@) + "</span></td>"@ + winner_cell_text(row.lead) + "<td class=\"sum-num "@ + lead_class_text(row.lead, false, "sum-lead"@) + "\">"@ + html_escaped(row.right_num@) + " <span class=\"rank-mini "@ + html_escaped(row.right_rank_class@) + "\">"@ + html_escaped(row.right_rank@) + "</span></td><td class=\"sum-gap\">"@, summary_gap_text(row));
    lemma_concat_ons("<tr><td class=\"sum-axis\"><span class=\"sum-icon\">"@ + icon_of(row.key@) + "</span><span>"@ + html_escaped(label_of(lang, row.key@)) + "</span></td><td class=\"sum-num "@ + lead_class_text(row.lead, true, "sum-lead"@) + "\">"@ + html_escaped(row.left_num@) + " <span class=\"rank-mini "@ + html_escaped(row.left_rank_class@) + "\">"@ + html_escaped(row.left_rank@) + "</span></td>"@ + winner_cell_text(row.lead) + "<td class=\"sum-num "@ + lead_class_text(row.lead, false, "sum-lead"@) + "\">"@ + html_escaped(row.right_num@) + " <span class=\"rank-mini "@ + html_escaped(row.right_rank_class@) + "\">"@ + html_escaped(row.right_rank@) + "</span></td><td class=\"sum-gap\">"@ + summary_gap_text(row), "</td></tr>"@);
}

proof fn lemma_dual_block_text_ons(lang: Language, tx: ReportTexts, icon: Seq<char>, title_key: Seq<char>, l: Seq<char>, r: Seq<char>)
    requires
        opens_no_script(icon),
    ensures
        opens_no_script(dual_block_text(lang, tx, icon, title_key, l, r)),
{
    reveal_strlit("<div class=\"dual-block\"><div class=\"dual-header\"><span class=\"dual-icon\">");
    assert(opens_no_script("<div class=\"dual-block\"><div class=\"dual-header\"><span class=\"dual-icon\">"@));
    reveal_strlit("</span><span>");
    assert(opens_no_script("</span><span>"@));
    lemma_escaped_ons(t_text(lang, title_key));
    reveal_strlit("</span></div><div class=\"dual-scores\"><div class=\"dual-score\"><small>");
    assert(opens_no_script("</span></div><div class=\"dual-scores\"><div class=\"dual-score\"><small>"@));
    lemma_escaped_ons(tx.left_label@);
    reveal_strlit("</small><strong>");
    assert(opens_no_script("</small><strong>"@));
    lemma_escaped_ons(l);
    reveal_strlit("</strong></div><div class=\"dual-vs\">VS</div><div class=\"dual-score\"><small>");
    assert(opens_no_script("</strong></div><div class=\"dual-vs\">VS</div><div class=\"dual-score\"><small>"@));
    lemma_escaped_ons(tx.right_label@);
    reveal_strlit("</small><strong>");
    assert(opens_no_script("</small><strong>"@));
    lemma_escaped_ons(r);
    reveal_strlit("</strong></div></div></div>");
    assert(opens_no_script("</strong></div></div></div>"@));
    lemma_concat_ons("<div class=\"dual-block\"><div class=\"dual-header\"><span class=\"dual-icon\">"@, icon);
    lemma_concat_ons("<div class=\"dual-block\"><div class=\"dual-header\"><span class=\"dual-icon\">"@ + icon, "</span><span>"@);
    lemma_concat_ons("<div class=\"dual-block\"><div class=\"dual-header\"><span class=\"dual-icon\">"@ + icon + "</span><span>"@, html_escaped(t_text(lang, title_key)));
    lemma_concat_ons("<div class=\"dual-block\"><div class=\"dual-header\"><span class=\"dual-icon\">"@ + icon + "</span><span>"@ + html_escaped(t_text(lang, title_key)), "</span></div><div class=\"dual-scores\"><div class=\"dual-score\"><small>"@);
    lemma_concat_ons("<div class=\"dual-block\"><div class=\"dual-header\"><span class=\"dual-icon\">"@ + icon + "</span><span>"@ + html_escaped(t_text(lang, title_key)) + "</span></div><div class=\"dual-scores\"><div class=\"dual-score\"><small>"@, html_escaped(tx.left_label@));
    lemma_concat_ons("<div class=\"dual-block\"><div class=\"dual-header\"><span class=\"dual-icon\">"@ + icon + "</span><span>"@ + html_escaped(t_text(lang, title_key)) + "</span></div><div class=\"dual-scores\"><div class=\"dual-score\"><small>"@ + html_escaped(tx.left_label@), "</small><strong>"@);
    lemma_concat_ons("<div class=\"dual-block\"><div class=\"dual-header\"><span class=\"dual-icon\">"@ + icon + "</span><span>"@ + html_escaped(t_text(lang, title_key)) + "</span></div><div class=\"dual-scores\"><div class=\"dual-score\"><small>"@ + html_escaped(tx.left_label@) + "</small><strong>"@, html_escaped(l));
    lemma_concat_ons("<div class=\"dual-block\"><div class=\"dual-header\"><span class=\"dual-icon\">"@ + icon + "</span><span>"@ + html_escaped(t_text(lang, title_key)) + "</span></div><div class=\"dual-scores\"><div class=\"dual-score\"><small>"@ + html_escaped(tx.left_label@) + "</small><strong>"@ + html_escaped(l), "</strong></div><div class=\"dual-vs\">VS</div><div class=\"dual-score\"><small>"@);
    lemma_concat_ons("<div class=\"dual-block\"><div class=\"dual-header\"><span class=\"dual-icon\">"@ + icon + "</span><span>"@ + html_escaped(t_text(lang, title_key)) + "</span></div><div class=\"dual-scores\"><div class=\"dual-score\"><small>"@ + html_escaped(tx.left_label@) + "</small><strong>"@ + html_escaped(l) + "</strong></div><div class=\"dual-vs\">VS</div><div class=\"dual-score\"><small>"@, html_escaped(tx.right_label@));
    lemma_concat_ons("<div class=\"dual-block\"><div class=\"dual-header\"><span class=\"dual-icon\">"@ + icon + "</span><span>"@ + html_escaped(t_text(lang, title_key)) + "</span></div><div class=\"dual-scores\"><div class=\"dual-score\"><small>"@ + html_escaped(tx.left_label@) + "</small><strong>"@ + html_escaped(l) + "</strong></div><div class=\"dual-vs\">VS</div><div class=\"dual-score\"><small>"@ + html_escaped(tx.right_label@), "</small><strong>"@);
    lemma_concat_ons("<div class=\"dual-block\"><div class=\"dual-header\"><span class=\"dual-icon\">"@ + icon + "</span><span>"@ + html_escaped(t_text(lang, title_key)) + "</span></div><div class=\"dual-scores\"><div class=\"dual-score\"><small>"@ + html_escaped(tx.left_label@) + "</small><strong>"@ + html_escaped(l) + "</strong></div><div class=\"dual-vs\">VS</div><div class=\"dual-score\"><small>"@ + html_escaped(tx.right_label@) + "</small><strong>"@, html_escaped(r));
    lemma_concat_ons("<div class=\"dual-block\"><div class=\"dual-header\"><span class=\"dual-icon\">"@ + icon + "</span><span>"@ + html_escaped(t_text(lang, title_key)) + "</span></div><div class=\"dual-scores\"><div class=\"dual-score\"><small>"@ + html_escaped(tx.left_label@) + "</small><strong>"@ + html_escaped(l) + "</strong></div><div class=\"dual-vs\">VS</div><div class=\"dual-score\"><small>"@ + html_escaped(tx.right_label@) + "</small><strong>"@ + html_escaped(r), "</strong></div></div></div>"@);
}

proof fn lemma_portrait_analysis_text_ons(lang: Language, tx: ReportTexts)
    ensures
        opens_no_script(portrait_analysis_text(lang, tx)),
{
    reveal_strlit("<section class=\"portrait-analysis\"><h2 class=\"section-title\">");
    assert(opens_no_script("<section class=\"portrait-analysis\"><h2 class=\"section-title\">"@));
    lemma_escaped_ons(t_text(lang, "report_portrait_analysis"@));
    reveal_strlit("</h2><div class=\"portrait-grid\"><article class=\"portrait-card ");
    assert(opens_no_script("</h2><div class=\"portrait-grid\"><article class=\"portrait-card "@));
    lemma_winner_class_text_ons(tx.left_wins, true);
    reveal_strlit("\"><header class=\"portrait-header\"><span class=\"side-tag tag-left\">");
    assert(opens_no_script("\"><header class=\"portrait-header\"><span class=\"side-tag tag-left\">"@));
    lemma_escaped_ons(t_text(lang, "report_left"@));
    reveal_strlit("</span><h3>");
    assert(opens_no_script("</span><h3>"@));
    lemma_escaped_ons(tx.left_label@);
    reveal_strlit("</h3></header><div class=\"pa-block\"><div class=\"pa-label\">✅ ");
    assert(opens_no_script("</h3></header><div class=\"pa-block\"><div class=\"pa-label\">✅ "@));
    lemma_escaped_ons(t_text(lang, "report_strengths"@));
    reveal_strlit("</div><p>");
    assert(opens_no_script("</div><p>"@));
    lemma_escaped_ons(tx.strengths_left@);
    reveal_strlit("</p></div><div class=\"pa-block\"><div class=\"pa-label\">⚠ ");
    assert(opens_no_script("</p></div><div class=\"pa-block\"><div class=\"pa-label\">⚠ "@));
    lemma_escaped_ons(t_text(lang, "report_weaknesses"@));
    reveal_strlit("</div><p>");
    assert(opens_no_script("</div><p>"@));
    lemma_escaped_ons(tx.weaknesses_left@);
    reveal_strlit("</p></div></article><article class=\"portrait-card ");
    assert(opens_no_script("</p></div></article><article class=\"portrait-card "@));
    lemma_winner_class_text_ons(tx.left_wins, false);
    reveal_strlit("\"><header class=\"portrait-header\"><span class=\"side-tag tag-right\">");
    assert(opens_no_script("\"><header class=\"portrait-header\"><span class=\"side-tag tag-right\">"@));
    lemma_escaped_ons(t_text(lang, "report_right"@));
    reveal_strlit("</span><h3>");
    assert(opens_no_script("</span><h3>"@));
    lemma_escaped_ons(tx.right_label@);
    reveal_strlit("</h3></header><div class=\"pa-block\"><div class=\"pa-label\">✅ ");
    assert(opens_no_script("</h3></header><div class=\"pa-block\"><div class=\"pa-label\">✅ "@));
    lemma_escaped_ons(t_text(lang, "report_strengths"@));
    reveal_strlit("</div><p>");
    assert(opens_no_script("</div><p>"@));
    lemma_escaped_ons(tx.strengths_right@);
    reveal_strlit("</p></div><div class=\"pa-block\"><div class=\"pa-label\">⚠ ");
    assert(opens_no_script("</p></div><div class=\"pa-block\"><div class=\"pa-label\">⚠ "@));
    lemma_escaped_ons(t_text(lang, "report_weaknesses"@));
    reveal_strlit("</div><p>");
    assert(opens_no_script("</div><p>"@));
    lemma_escaped_ons(tx.weaknesses_right@);
    reveal_strlit("</p></div></article></div></section>");
    assert(opens_no_script("</p></div></article></div></section>"@));
    lemma_concat_ons("<section class=\"portrait-analysis\"><h2 class=\"section-title\">"@, html_escaped(t_text(lang, "report_portrait_analysis"@)));
    lemma_concat_ons("<section class=\"portrait-analysis\"><h2 class=\"section-title\">"@ + html_escaped(t_text(lang, "report_portrait_analysis"@)), "</h2><div class=\"portrait-grid\"><article class=\"portrait-card "@);
    lemma_concat_ons("<section class=\"portrait-analysis\"><h2 class=\"section-title\">"@ + html_escaped(t_text(lang, "report_portrait_analysis"@)) + "</h2><div class=\"portrait-grid\"><article class=\"portrait-card "@, winner_class_text(tx.left_wins, true));
    lemma_concat_ons("<section class=\"portrait-analysis\"><h2 class=\"section-title\">"@ + html_escaped(t_text(lang, "report_portrait_analysis"@)) + "</h2><div class=\"portrait-grid\"><article class=\"portrait-card "@ + winner_class_text(tx.left_wins, true), "\"><header class=\"portrait-header\"><span class=\"side-tag tag-left\">"@);
    lemma_concat_ons("<section class=\"portrait-analysis\"><h2 class=\"section-title\">"@ + html_escaped(t_text(lang, "report_portrait_analysis"@)) + "</h2><div class=\"portrait-grid\"><article class=\"portrait-card "@ + winner_class_text(tx.left_wins, true) + "\"><header class=\"portrait-header\"><span class=\"side-tag tag-left\">"@, html_escaped(t_text(lang, "report_left"@)));
    lemma_concat_ons("<section class=\"portrait-analysis\"><h2 class=\"section-title\">"@ + html_escaped(t_text(lang, "report_portrait_analysis"@)) + "</h2><div class=\"portrait-grid\"><article class=\"portrait-card "@ + winner_class_text(tx.left_wins, true) + "\"><header class=\"portrait-header\"><span class=\"side-tag tag-left\">"@ + html_escaped(t_text(lang, "report_left"@)), "</span><h3>"@);
    lemma_concat_ons("<section class=\"portrait-analysis\"><h2 class=\"section-title\">"@ + html_escaped(t_text(lang, "report_portrait_analysis"@)) + "</h2><div class=\"portrait-grid\"><article class=\"portrait-card "@ + winner_class_text(tx.left_wins, true) + "\"><header class=\"portrait-header\"><span class=\"side-tag tag-left\">"@ + html_escaped(t_text(lang, "report_left"@)) + "</span><h3>"@, html_escaped(tx.left_label@));
    lemma_concat_ons("<section class=\"portrait-analysis\"><h2 class=\"section-title\">"@ + html_escaped(t_text(lang, "report_portrait_analysis"@)) + "</h2><div class=\"portrait-grid\"><article class=\"portrait-card "@ + winner_class_text(tx.left_wins, true) + "\"><header class=\"portrait-header\"><span class=\"side-tag tag-left\">"@ + html_escaped(t_text(lang, "report_left"@)) + "</span><h3>"@ + html_escaped(tx.left_label@), "</h3></header><div class=\"pa-block\"><div class=\"pa-label\">✅ "@);
    lemma_concat_ons("<section class=\"portrait-analysis\"><h2 class=\"section-title\">"@ + html_escaped(t_text(lang, "report_portrait_analysis"@)) + "</h2><div class=\"portrait-grid\"><article class=\"portrait-card "@ + winner_class_text(tx.left_wins, true) + "\"><header class=\"portrait-header\"><span class=\"side-tag tag-left\">"@ + html_escaped(t_text(lang, "report_left"@)) + "</span><h3>"@ + html_escaped(tx.left_label@) + "</h3></header><div class=\"pa-block\"><div class=\"pa-label\">✅ "@, html_escaped(t_text(lang, "report_strengths"@)));
    lemma_concat_ons("<section class=\"portrait-analysis\"><h2 class=\"section-title\">"@ + html_escaped(t_text(lang, "report_portrait_analysis"@)) + "</h2><div class=\"portrait-grid\"><article class=\"portrait-card "@ + winner_class_text(tx.left_wins, true) + "\"><header class=\"portrait-header\"><span class=\"side-tag tag-left\">"@ + html_escaped(t_text(lang, "report_left"@)) + "</span><h3>"@ + html_escaped(tx.left_label@) + "</h3></header><div class=\"pa-block\"><div class=\"pa-label\">✅ "@ + html_escaped(t_text(lang, "report_strengths"@)), "</div><p>"@);
    lemma_concat_ons("<section class=\"portrait-analysis\"><h2 class=\"section-title\">"@ + html_escaped(t_text(lang, "report_portrait_analysis"@)) + "</h2><div class=\"portrait-grid\"><article class=\"portrait-card "@ + winner_class_text(tx.left_wins, true) + "\"><header class=\"portrait-header\"><span class=\"side-tag tag-left\">"@ + html_escaped(t_text(lang, "report_left"@)) + "</span><h3>"@ + html_escaped(tx.left_label@) + "</h3></header><div class=\"pa-block\"><div class=\"pa-label\">✅ "@ + html_escaped(t_text(lang, "report_strengths"@)) + "</div><p>"@, html_escaped(tx.strengths_left@));
    lemma_concat_ons("<section class=\"portrait-analysis\"><h2 class=\"section-title\">"@ + html_escaped(t_text(lang, "report_portrait_analysis"@)) + "</h2><div class=\"portrait-grid\"><article class=\"portrait-card "@ + winner_class_text(tx.left_wins, true) + "\"><header class=\"portrait-header\"><span class=\"side-tag tag-left\">"@ + html_escaped(t_text(lang, "report_left"@)) + "</span><h3>"@ + html_escaped(tx.left_label@) + "</h3></header><div class=\"pa-block\"><div class=\"pa-label\">✅ "@ + html_escaped(t_text(lang, "report_strengths"@)) + "</div><p>"@ + html_escaped(tx.strengths_left@), "</p></div><div class=\"pa-block\"><div class=\"pa-label\">⚠ "@);
    lemma_concat_ons("<section class=\"portrait-analysis\"><h2 class=\"section-title\">"@ + html_escaped(t_text(lang, "report_portrait_analysis"@)) + "</h2><div class=\"portrait-grid\"><article class=\"portrait-card "@ + winner_class_text(tx.left_wins, true) + "\"><header class=\"portrait-header\"><span class=\"side-tag tag-left\">"@ + html_escaped(t_text(lang, "report_left"@)) + "</span><h3>"@ + html_escaped(tx.left_label@) + "</h3></header><div class=\"pa-block\"><div class=\"pa-label\">✅ "@ + html_escaped(t_text(lang, "report_strengths"@)) + "</div><p>"@ + html_escaped(tx.strengths_left@) + "</p></div><div class=\"pa-block\"><div class=\"pa-label\">⚠ "@, html_escaped(t_text(lang, "report_weaknesses"@)));
    lemma_concat_ons("<section class=\"portrait-analysis\"><h2 class=\"section-title\">"@ + html_escaped(t_text(lang, "report_portrait_analysis"@)) + "</h2><div class=\"portrait-grid\"><article class=\"portrait-card "@ + winner_class_text(tx.left_wins, true) + "\"><header class=\"portrait-header\"><span class=\"side-tag tag-left\">"@ + html_escaped(t_text(lang, "report_left"@)) + "</span><h3>"@ + html_escaped(tx.left_label@) + "</h3></header><div class=\"pa-block\"><div class=\"pa-label\">✅ "@ + html_escaped(t_text(lang, "report_strengths"@)) + "</div><p>"@ + html_escaped(tx.strengths_left@) + "</p></div><div class=\"pa-block\"><div class=\"pa-label\">⚠ "@ + html_escaped(t_text(lang, "report_weaknesses"@)), "</div><p>"@);
    lemma_concat_ons("<section class=\"portrait-analysis\"><h2 class=\"section-title\">"@ + html_escaped(t_text(lang, "report_portrait_analysis"@)) + "</h2><div class=\"portrait-grid\"><article class=\"portrait-card "@ + winner_class_text(tx.left_wins, true) + "\"><header class=\"portrait-header\"><span class=\"side-tag tag-left\">"@ + html_escaped(t_text(lang, "report_left"@)) + "</span><h3>"@ + html_escaped(tx.left_label@) + "</h3></header><div class=\"pa-block\"><div class=\"pa-label\">✅ "@ + html_escaped(t_text(lang, "report_strengths"@)) + "</div><p>"@ + html_escaped(tx.strengths_left@) + "</p></div><div class=\"pa-block\"><div class=\"pa-label\">⚠ "@ + html_escaped(t_text(lang, "report_weaknesses"@)) + "</div><p>"@, html_escaped(tx.weaknesses_left@));
    lemma_concat_ons("<section class=\"portrait-analysis\"><h2 class=\"section-title\">"@ + html_escaped(t_text(lang, "report_portrait_analysis"@)) + "</h2><div class=\"portrait-grid\"><article class=\"portrait-card "@ + winner_class_text(tx.left_wins, true) + "\"><header class=\"portrait-header\"><span class=\"side-tag tag-left\">"@ + html_escaped(t_text(lang, "report_left"@)) + "</span><h3>"@ + html_escaped(tx.left_label@) + "</h3></header><div class=\"pa-block\"><div class=\"pa-label\">✅ "@ + html_escaped(t_text(lang, "report_strengths"@)) + "</div><p>"@ + html_escaped(tx.strengths_left@) + "</p></div><div class=\"pa-block\"><div class=\"pa-label\">⚠ "@ + html_escaped(t_text(lang, "report_weaknesses"@)) + "</div><p>"@ + html_escaped(tx.weaknesses_left@), "</p></div></article><article class=\"portrait-card "@);
    lemma_concat_ons("<section class=\"portrait-analysis\"><h2 class=\"section-title\">"@ + html_escaped(t_text(lang, "report_portrait_analysis"@)) + "</h2><div class=\"portrait-grid\"><article class=\"portrait-card "@ + winner_class_text(tx.left_wins, true) + "\"><header class=\"portrait-header\"><span class=\"side-tag tag-left\">"@ + html_escaped(t_text(lang, "report_left"@)) + "</span><h3>"@ + html_escaped(tx.left_label@) + "</h3></header><div class=\"pa-block\"><div class=\"pa-label\">✅ "@ + html_escaped(t_text(lang, "report_strengths"@)) + "</div><p>"@ + html_escaped(tx.strengths_left@) + "</p></div><div class=\"pa-block\"><div class=\"pa-label\">⚠ "@ + html_escaped(t_text(lang, "report_weaknesses"@)) + "</div><p>"@ + html_escaped(tx.weaknesses_left@) + "</p></div></article><article class=\"portrait-card "@, winner_class_text(tx.left_wins, false));
    lemma_concat_ons("<section class=\"portrait-analysis\"><h2 class=\"section-title\">"@ + html_escaped(t_text(lang, "report_portrait_analysis"@)) + "</h2><div class=\"portrait-grid\"><article class=\"portrait-card "@ + winner_class_text(tx.left_wins, true) + "\"><header class=\"portrait-header\"><span class=\"side-tag tag-left\">"@ + html_escaped(t_text(lang, "report_left"@)) + "</span><h3>"@ + html_escaped(tx.left_label@) + "</h3></header><div class=\"pa-block\"><div class=\"pa-label\">✅ "@ + html_escaped(t_text(lang, "report_strengths"@)) + "</div><p>"@ + html_escaped(tx.strengths_left@) + "</p></div><div class=\"pa-block\"><div class=\"pa-label\">⚠ "@ + html_escaped(t_text(lang, "report_weaknesses"@)) + "</div><p>"@ + html_escaped(tx.weaknesses_left@) + "</p></div></article><article class=\"portrait-card "@ + winner_class_text(tx.left_wins, false), "\"><header class=\"portrait-header\"><span class=\"side-tag tag-right\">"@);
    lemma_concat_ons("<section class=\"portrait-analysis\"><h2 class=\"section-title\">"@ + html_escaped(t_text(lang, "report_portrait_analysis"@)) + "</h2><div class=\"portrait-grid\"><article class=\"portrait-card "@ + winner_class_text(tx.left_wins, true) + "\"><header class=\"portrait-header\"><span class=\"side-tag tag-left\">"@ + html_escaped(t_text(lang, "report_left"@)) + "</span><h3>"@ + html_escaped(tx.left_label@) + "</h3></header><div class=\"pa-block\"><div class=\"pa-label\">✅ "@ + html_escaped(t_text(lang, "report_strengths"@)) + "</div><p>"@ + html_escaped(tx.strengths_left@) + "</p></div><div class=\"pa-block\"><div class=\"pa-label\">⚠ "@ + html_escaped(t_text(lang, "report_weaknesses"@)) + "</div><p>"@ + html_escaped(tx.weaknesses_left@) + "</p></div></article><article class=\"portrait-card "@ + winner_class_text(tx.left_wins, false) + "\"><header class=\"portrait-header\"><span class=\"side-tag tag-right\">"@, html_escaped(t_text(lang, "report_right"@)));
    lemma_concat_ons("<section class=\"portrait-analysis\"><h2 class=\"section-title\">"@ + html_escaped(t_text(lang, "report_portrait_analysis"@)) + "</h2><div class=\"portrait-grid\"><article class=\"portrait-card "@ + winner_class_text(tx.left_wins, true) + "\"><header class=\"portrait-header\"><span class=\"side-tag tag-left\">"@ + html_escaped(t_text(lang, "report_left"@)) + "</span><h3>"@ + html_escaped(tx.left_label@) + "</h3></header><div class=\"pa-block\"><div class=\"pa-label\">✅ "@ + html_escaped(t_text(lang, "report_strengths"@)) + "</div><p>"@ + html_escaped(tx.strengths_left@) + "</p></div><div class=\"pa-block\"><div class=\"pa-label\">⚠ "@ + html_escaped(t_text(lang, "report_weaknesses"@)) + "</div><p>"@ + html_escaped(tx.weaknesses_left@) + "</p></div></article><article class=\"portrait-card "@ + winner_class_text(tx.left_wins, false) + "\"><header class=\"portrait-header\"><span class=\"side-tag tag-right\">"@ + html_escaped(t_text(lang, "report_right"@)), "</span><h3>"@);
    lemma_concat_ons("<section class=\"portrait-analysis\"><h2 class=\"section-title\">"@ + html_escaped(t_text(lang, "report_portrait_analysis"@)) + "</h2><div class=\"portrait-grid\"><article class=\"portrait-card "@ + winner_class_text(tx.left_wins, true) + "\"><header class=\"portrait-header\"><span class=\"side-tag tag-left\">"@ + html_escaped(t_text(lang, "report_left"@)) + "</span><h3>"@ + html_escaped(tx.left_label@) + "</h3></header><div class=\"pa-block\"><div class=\"pa-label\">✅ "@ + html_escaped(t_text(lang, "report_strengths"@)) + "</div><p>"@ + html_escaped(tx.strengths_left@) + "</p></div><div class=\"pa-block\"><div class=\"pa-label\">⚠ "@ + html_escaped(t_text(lang, "report_weaknesses"@)) + "</div><p>"@ + html_escaped(tx.weaknesses_left@) + "</p></div></article><article class=\"portrait-card "@ + winner_class_text(tx.left_wins, false) + "\"><header class=\"portrait-header\"><span class=\"side-tag tag-right\">"@ + html_escaped(t_text(lang, "report_right"@)) + "</span><h3>"@, html_escaped(tx.right_label@));
    lemma_concat_ons("<section class=\"portrait-analysis\"><h2 class=\"section-title\">"@ + html_escaped(t_text(lang, "report_portrait_analysis"@)) + "</h2><div class=\"portrait-grid\"><article class=\"portrait-card "@ + winner_class_text(tx.left_wins, true) + "\"><header class=\"portrait-header\"><span class=\"side-tag tag-left\">"@ + html_escaped(t_text(lang, "report_left"@)) + "</span><h3>"@ + html_escaped(tx.left_label@) + "</h3></header><div class=\"pa-block\"><div class=\"pa-label\">✅ "@ + html_escaped(t_text(lang, "report_strengths"@)) + "</div><p>"@ + html_escaped(tx.strengths_left@) + "</p></div><div class=\"pa-block\"><div class=\"pa-label\">⚠ "@ + html_escaped(t_text(lang, "report_weaknesses"@)) + "</div><p>"@ + html_escaped(tx.weaknesses_left@) + "</p></div></article><article class=\"portrait-card "@ + winner_class_text(tx.left_wins, false) + "\"><header class=\"portrait-header\"><span class=\"side-tag tag-right\">"@ + html_escaped(t_text(lang, "report_right"@)) + "</span><h3>"@ + html_escaped(tx.right_label@), "</h3></header><div class=\"pa-block\"><div class=\"pa-label\">✅ "@);
    lemma_concat_ons("<section class=\"portrait-analysis\"><h2 class=\"section-title\">"@ + html_escaped(t_text(lang, "report_portrait_analysis"@)) + "</h2><div class=\"portrait-grid\"><article class=\"portrait-card "@ + winner_class_text(tx.left_wins, true) + "\"><header class=\"portrait-header\"><span class=\"side-tag tag-left\">"@ + html_escaped(t_text(lang, "report_left"@)) + "</span><h3>"@ + html_escaped(tx.left_label@) + "</h3></header><div class=\"pa-block\"><div class=\"pa-label\">✅ "@ + html_escaped(t_text(lang, "report_strengths"@)) + "</div><p>"@ + html_escaped(tx.strengths_left@) + "</p></div><div class=\"pa-block\"><div class=\"pa-label\">⚠ "@ + html_escaped(t_text(lang, "report_weaknesses"@)) + "</div><p>"@ + html_escaped(tx.weaknesses_left@) + "</p></div></article><article class=\"portrait-card "@ + winner_class_text(tx.left_wins, false) + "\"><header class=\"portrait-header\"><span class=\"side-tag tag-right\">"@ + html_escaped(t_text(lang, "report_right"@)) + "</span><h3>"@ + html_escaped(tx.right_label@) + "</h3></header><div class=\"pa-block\"><div class=\"pa-label\">✅ "@, html_escaped(t_text(lang, "report_strengths"@)));
    lemma_concat_ons("<section class=\"portrait-analysis\"><h2 class=\"section-title\">"@ + html_escaped(t_text(lang, "report_portrait_analysis"@)) + "</h2><div class=\"portrait-grid\"><article class=\"portrait-card "@ + winner_class_text(tx.left_wins, true) + "\"><header class=\"portrait-header\"><span class=\"side-tag tag-left\">"@ + html_escaped(t_text(lang, "report_left"@)) + "</span><h3>"@ + html_escaped(tx.left_label@) + "</h3></header><div class=\"pa-block\"><div class=\"pa-label\">✅ "@ + html_escaped(t_text(lang, "report_strengths"@)) + "</div><p>"@ + html_escaped(tx.strengths_left@) + "</p></div><div class=\"pa-block\"><div class=\"pa-label\">⚠ "@ + html_escaped(t_text(lang, "report_weaknesses"@)) + "</div><p>"@ + html_escaped(tx.weaknesses_left@) + "</p></div></article><article class=\"portrait-card "@ + winner_class_text(tx.left_wins, false) + "\"><header class=\"portrait-header\"><span class=\"side-tag tag-right\">"@ + html_escaped(t_text(lang, "report_right"@)) + "</span><h3>"@ + html_escaped(tx.right_label@) + "</h3></header><div class=\"pa-block\"><div class=\"pa-label\">✅ "@ + html_escaped(t_text(lang, "report_strengths"@)), "</div><p>"@);
    lemma_concat_ons("<section class=\"portrait-analysis\"><h2 class=\"section-title\">"@ + html_escaped(t_text(lang, "report_portrait_analysis"@)) + "</h2><div class=\"portrait-grid\"><article class=\"portrait-card "@ + winner_class_text(tx.left_wins, true) + "\"><header class=\"portrait-header\"><span class=\"side-tag tag-left\">"@ + html_escaped(t_text(lang, "report_left"@)) + "</span><h3>"@ + html_escaped(tx.left_label@) + "</h3></header><div class=\"pa-block\"><div class=\"pa-label\">✅ "@ + html_escaped(t_text(lang, "report_strengths"@)) + "</div><p>"@ + html_escaped(tx.strengths_left@) + "</p></div><div class=\"pa-block\"><div class=\"pa-label\">⚠ "@ + html_escaped(t_text(lang, "report_weaknesses"@)) + "</div><p>"@ + html_escaped(tx.weaknesses_left@) + "</p></div></article><article class=\"portrait-card "@ + winner_class_text(tx.left_wins, false) + "\"><header class=\"portrait-header\"><span class=\"side-tag tag-right\">"@ + html_escaped(t_text(lang, "report_right"@)) + "</span><h3>"@ + html_escaped(tx.right_label@) + "</h3></header><div class=\"pa-block\"><div class=\"pa-label\">✅ "@ + html_escaped(t_text(lang, "report_strengths"@)) + "</div><p>"@, html_escaped(tx.strengths_right@));
    lemma_concat_ons("<section class=\"portrait-analysis\"><h2 class=\"section-title\">"@ + html_escaped(t_text(lang, "report_portrait_analysis"@)) + "</h2><div class=\"portrait-grid\"><article class=\"portrait-card "@ + winner_class_text(tx.left_wins, true) + "\"><header class=\"portrait-header\"><span class=\"side-tag tag-left\">"@ + html_escaped(t_text(lang, "report_left"@)) + "</span><h3>"@ + html_escaped(tx.left_label@) + "</h3></header><div class=\"pa-block\"><div class=\"pa-label\">✅ "@ + html_escaped(t_text(lang, "report_strengths"@)) + "</div><p>"@ + html_escaped(tx.strengths_left@) + "</p></div><div class=\"pa-block\"><div class=\"pa-label\">⚠ "@ + html_escaped(t_text(lang, "report_weaknesses"@)) + "</div><p>"@ + html_escaped(tx.weaknesses_left@) + "</p></div></article><article class=\"portrait-card "@ + winner_class_text(tx.left_wins, false) + "\"><header class=\"portrait-header\"><span class=\"side-tag tag-right\">"@ + html_escaped(t_text(lang, "report_right"@)) + "</span><h3>"@ + html_escaped(tx.right_label@) + "</h3></header><div class=\"pa-block\"><div class=\"pa-label\">✅ "@ + html_escaped(t_text(lang, "report_strengths"@)) + "</div><p>"@ + html_escaped(tx.strengths_right@), "</p></div><div class=\"pa-block\"><div class=\"pa-label\">⚠ "@);
    lemma_concat_ons("<section class=\"portrait-analysis\"><h2 class=\"section-title\">"@ + html_escaped(t_text(lang, "report_portrait_analysis"@)) + "</h2><div class=\"portrait-grid\"><article class=\"portrait-card "@ + winner_class_text(tx.left_wins, true) + "\"><header class=\"portrait-header\"><span class=\"side-tag tag-left\">"@ + html_escaped(t_text(lang, "report_left"@)) + "</span><h3>"@ + html_escaped(tx.left_label@) + "</h3></header><div class=\"pa-block\"><div class=\"pa-label\">✅ "@ + html_escaped(t_text(lang, "report_strengths"@)) + "</div><p>"@ + html_escaped(tx.strengths_left@) + "</p></div><div class=\"pa-block\"><div class=\"pa-label\">⚠ "@ + html_escaped(t_text(lang, "report_weaknesses"@)) + "</div><p>"@ + html_escaped(tx.weaknesses_left@) + "</p></div></article><article class=\"portrait-card "@ + winner_class_text(tx.left_wins, false) + "\"><header class=\"portrait-header\"><span class=\"side-tag tag-right\">"@ + html_escaped(t_text(lang, "report_right"@)) + "</span><h3>"@ + html_escaped(tx.right_label@) + "</h3></header><div class=\"pa-block\"><div class=\"pa-label\">✅ "@ + html_escaped(t_text(lang, "report_strengths"@)) + "</div><p>"@ + html_escaped(tx.strengths_right@) + "</p></div><div class=\"pa-block\"><div class=\"pa-label\">⚠ "@, html_escaped(t_text(lang, "report_weaknesses"@)));
    lemma_concat_ons("<section class=\"portrait-analysis\"><h2 class=\"section-title\">"@ + html_escaped(t_text(lang, "report_portrait_analysis"@)) + "</h2><div class=\"portrait-grid\"><article class=\"portrait-card "@ + winner_class_text(tx.left_wins, true) + "\"><header class=\"portrait-header\"><span class=\"side-tag tag-left\">"@ + html_escaped(t_text(lang, "report_left"@)) + "</span><h3>"@ + html_escaped(tx.left_label@) + "</h3></header><div class=\"pa-block\"><div class=\"pa-label\">✅ "@ + html_escaped(t_text(lang, "report_strengths"@)) + "</div><p>"@ + html_escaped(tx.strengths_left@) + "</p></div><div class=\"pa-block\"><div class=\"pa-label\">⚠ "@ + html_escaped(t_text(lang, "report_weaknesses"@)) + "</div><p>"@ + html_escaped(tx.weaknesses_left@) + "</p></div></article><article class=\"portrait-card "@ + winner_class_text(tx.left_wins, false) + "\"><header class=\"portrait-header\"><span class=\"side-tag tag-right\">"@ + html_escaped(t_text(lang, "report_right"@)) + "</span><h3>"@ + html_escaped(tx.right_label@) + "</h3></header><div class=\"pa-block\"><div class=\"pa-label\">✅ "@ + html_escaped(t_text(lang, "report_strengths"@)) + "</div><p>"@ + html_escaped(tx.strengths_right@) + "</p></div><div class=\"pa-block\"><div class=\"pa-label\">⚠ "@ + html_escaped(t_text(lang, "report_weaknesses"@)), "</div><p>"@);
    lemma_concat_ons("<section class=\"portrait-analysis\"><h2 class=\"section-title\">"@ + html_escaped(t_text(lang, "report_portrait_analysis"@)) + "</h2><div class=\"portrait-grid\"><article class=\"portrait-card "@ + winner_class_text(tx.left_wins, true) + "\"><header class=\"portrait-header\"><span class=\"side-tag tag-left\">"@ + html_escaped(t_text(lang, "report_left"@)) + "</span><h3>"@ + html_escaped(tx.left_label@) + "</h3></header><div class=\"pa-block\"><div class=\"pa-label\">✅ "@ + html_escaped(t_text(lang, "report_strengths"@)) + "</div><p>"@ + html_escaped(tx.strengths_left@) + "</p></div><div class=\"pa-block\"><div class=\"pa-label\">⚠ "@ + html_escaped(t_text(lang, "report_weaknesses"@)) + "</div><p>"@ + html_escaped(tx.weaknesses_left@) + "</p></div></article><article class=\"portrait-card "@ + winner_class_text(tx.left_wins, false) + "\"><header class=\"portrait-header\"><span class=\"side-tag tag-right\">"@ + html_escaped(t_text(lang, "report_right"@)) + "</span><h3>"@ + html_escaped(tx.right_label@) + "</h3></header><div class=\"pa-block\"><div class=\"pa-label\">✅ "@ + html_escaped(t_text(lang, "report_strengths"@)) + "</div><p>"@ + html_escaped(tx.strengths_right@) + "</p></div><div class=\"pa-block\"><div class=\"pa-label\">⚠ "@ + html_escaped(t_text(lang, "report_weaknesses"@)) + "</div><p>"@, html_escaped(tx.weaknesses_right@));
    lemma_concat_ons("<section class=\"portrait-analysis\"><h2 class=\"section-title\">"@ + html_escaped(t_text(lang, "report_portrait_analysis"@)) + "</h2><div class=\"portrait-grid\"><article class=\"portrait-card "@ + winner_class_text(tx.left_wins, true) + "\"><header class=\"portrait-header\"><span class=\"side-tag tag-left\">"@ + html_escaped(t_text(lang, "report_left"@)) + "</span><h3>"@ + html_escaped(tx.left_label@) + "</h3></header><div class=\"pa-block\"><div class=\"pa-label\">✅ "@ + html_escaped(t_text(lang, "report_strengths"@)) + "</div><p>"@ + html_escaped(tx.strengths_left@) + "</p></div><div class=\"pa-block\"><div class=\"pa-label\">⚠ "@ + html_escaped(t_text(lang, "report_weaknesses"@)) + "</div><p>"@ + html_escaped(tx.weaknesses_left@) + "</p></div></article><article class=\"portrait-card "@ + winner_class_text(tx.left_wins, false) + "\"><header class=\"portrait-header\"><span class=\"side-tag tag-right\">"@ + html_escaped(t_text(lang, "report_right"@)) + "</span><h3>"@ + html_escaped(tx.right_label@) + "</h3></header><div class=\"pa-block\"><div class=\"pa-label\">✅ "@ + html_escaped(t_text(lang, "report_strengths"@)) + "</div><p>"@ + html_escaped(tx.strengths_right@) + "</p></div><div class=\"pa-block\"><div class=\"pa-label\">⚠ "@ + html_escaped(t_text(lang, "report_weaknesses"@)) + "</div><p>"@ + html_escaped(tx.weaknesses_right@), "</p></div></article></div></section>"@);
}

proof fn lemma_summary_table_text_ons(lang: Language, tx: ReportTexts, rows: Seq<ReportAxisRow>)
    ensures
        opens_no_script(summary_table_text(lang, tx, rows)),
{
    reveal_strlit("<section><h2 class=\"section-title\">📊 ");
    assert(opens_no_script("<section><h2 class=\"section-title\">📊 "@));
    lemma_escaped_ons(t_text(lang, "report_ability_comparison"@));
    reveal_strlit("</h2><table class=\"summary-table\"><thead><tr><th>Axis</th><th>");
    assert(opens_no_script("</h2><table class=\"summary-table\"><thead><tr><th>Axis</th><th>"@));
    lemma_escaped_ons(tx.left_label@);
    reveal_strlit(" <small>");
    assert(opens_no_script(" <small>"@));
    lemma_decimal_ons(leads(rows, Lead::Left));
    reveal_strlit(" wins</small></th><th></th><th>");
    assert(opens_no_script(" wins</small></th><th></th><th>"@));
    lemma_escaped_ons(tx.right_label@);
    reveal_strlit(" <small>");
    assert(opens_no_script(" <small>"@));
    lemma_decimal_ons(leads(rows, Lead::Right));
    reveal_strlit(" wins</small></th><th>Gap</th></tr></thead><tbody>");
    assert(opens_no_script(" wins</small></th><th>Gap</th></tr></thead><tbody>"@));
    lemma_summary_rows_text_ons(lang, rows);
    reveal_strlit("</tbody></table><p class=\"summary-caption\">");
    assert(opens_no_script("</tbody></table><p class=\"summary-caption\">"@));
    lemma_decimal_ons(leads(rows, Lead::Tie));
    reveal_strlit(" ties • Margin: ");
    assert(opens_no_script(" ties • Margin: "@));
    lemma_escaped_ons(tx.margin@);
    reveal_strlit(" points</p></section>");
    assert(opens_no_script(" points</p></section>"@));
    lemma_concat_ons("<section><h2 class=\"section-title\">📊 "@, html_escaped(t_text(lang, "report_ability_comparison"@)));
    lemma_concat_ons("<section><h2 class=\"section-title\">📊 "@ + html_escaped(t_text(lang, "report_ability_comparison"@)), "</h2><table class=\"summary-table\"><thead><tr><th>Axis</th><th>"@);
    lemma_concat_ons("<section><h2 class=\"section-title\">📊 "@ + html_escaped(t_text(lang, "report_ability_comparison"@)) + "</h2><table class=\"summary-table\"><thead><tr><th>Axis</th><th>"@, html_escaped(tx.left_label@));
    lemma_concat_ons("<section><h2 class=\"section-title\">📊 "@ + html_escaped(t_text(lang, "report_ability_comparison"@)) + "</h2><table class=\"summary-table\"><thead><tr><th>Axis</th><th>"@ + html_escaped(tx.left_label@), " <small>"@);
    lemma_concat_ons("<section><h2 class=\"section-title\">📊 "@ + html_escaped(t_text(lang, "report_ability_comparison"@)) + "</h2><table class=\"summary-table\"><thead><tr><th>Axis</th><th>"@ + html_escaped(tx.left_label@) + " <small>"@, decimal_text(leads(rows, Lead::Left)));
    lemma_concat_ons("<section><h2 class=\"section-title\">📊 "@ + html_escaped(t_text(lang, "report_ability_comparison"@)) + "</h2><table class=\"summary-table\"><thead><tr><th>Axis</th><th>"@ + html_escaped(tx.left_label@) + " <small>"@ + decimal_text(leads(rows, Lead::Left)), " wins</small></th><th></th><th>"@);
    lemma_concat_ons("<section><h2 class=\"section-title\">📊 "@ + html_escaped(t_text(lang, "report_ability_comparison"@)) + "</h2><table class=\"summary-table\"><thead><tr><th>Axis</th><th>"@ + html_escaped(tx.left_label@) + " <small>"@ + decimal_text(leads(rows, Lead::Left)) + " wins</small></th><th></th><th>"@, html_escaped(tx.right_label@));
    lemma_concat_ons("<section><h2 class=\"section-title\">📊 "@ + html_escaped(t_text(lang, "report_ability_comparison"@)) + "</h2><table class=\"summary-table\"><thead><tr><th>Axis</th><th>"@ + html_escaped(tx.left_label@) + " <small>"@ + decimal_text(leads(rows, Lead::Left)) + " wins</small></th><th></th><th>"@ + html_escaped(tx.right_label@), " <small>"@);
    lemma_concat_ons("<section><h2 class=\"section-title\">📊 "@ + html_escaped(t_text(lang, "report_ability_comparison"@)) + "</h2><table class=\"summary-table\"><thead><tr><th>Axis</th><th>"@ + html_escaped(tx.left_label@) + " <small>"@ + decimal_text(leads(rows, Lead::Left)) + " wins</small></th><th></th><th>"@ + html_escaped(tx.right_label@) + " <small>"@, decimal_text(leads(rows, Lead::Right)));
    lemma_concat_ons("<section><h2 class=\"section-title\">📊 "@ + html_escaped(t_text(lang, "report_ability_comparison"@)) + "</h2><table class=\"summary-table\"><thead><tr><th>Axis</th><th>"@ + html_escaped(tx.left_label@) + " <small>"@ + decimal_text(leads(rows, Lead::Left)) + " wins</small></th><th></th><th>"@ + html_escaped(tx.right_label@) + " <small>"@ + decimal_text(leads(rows, Lead::Right)), " wins</small></th><th>Gap</th></tr></thead><tbody>"@);
    lemma_concat_ons("<section><h2 class=\"section-title\">📊 "@ + html_escaped(t_text(lang, "report_ability_comparison"@)) + "</h2><table class=\"summary-table\"><thead><tr><th>Axis</th><th>"@ + html_escaped(tx.left_label@) + " <small>"@ + decimal_text(leads(rows, Lead::Left)) + " wins</small></th><th></th><th>"@ + html_escaped(tx.right_label@) + " <small>"@ + decimal_text(leads(rows, Lead::Right)) + " wins</small></th><th>Gap</th></tr></thead><tbody>"@, summary_rows_text(lang, rows));
    lemma_concat_ons("<section><h2 class=\"section-title\">📊 "@ + html_escaped(t_text(lang, "report_ability_comparison"@)) + "</h2><table class=\"summary-table\"><thead><tr><th>Axis</th><th>"@ + html_escaped(tx.left_label@) + " <small>"@ + decimal_text(leads(rows, Lead::Left)) + " wins</small></th><th></th><th>"@ + html_escaped(tx.right_label@) + " <small>"@ + decimal_text(leads(rows, Lead::Right)) + " wins</small></th><th>Gap</th></tr></thead><tbody>"@ + summary_rows_text(lang, rows), "</tbody></table><p class=\"summary-caption\">"@);
    lemma_concat_ons("<section><h2 class=\"section-title\">📊 "@ + html_escaped(t_text(lang, "report_ability_comparison"@)) + "</h2><table class=\"summary-table\"><thead><tr><th>Axis</th><th>"@ + html_escaped(tx.left_label@) + " <small>"@ + decimal_text(leads(rows, Lead::Left)) + " wins</small></th><th></th><th>"@ + html_escaped(tx.right_label@) + " <small>"@ + decimal_text(leads(rows, Lead::Right)) + " wins</small></th><th>Gap</th></tr></thead><tbody>"@ + summary_rows_text(lang, rows) + "</tbody></table><p class=\"summary-caption\">"@, decimal_text(leads(rows, Lead::Tie)));
    lemma_concat_ons("<section><h2 class=\"section-title\">📊 "@ + html_escaped(t_text(lang, "report_ability_comparison"@)) + "</h2><table class=\"summary-table\"><thead><tr><th>Axis</th><th>"@ + html_escaped(tx.left_label@) + " <small>"@ + decimal_text(leads(rows, Lead::Left)) + " wins</small></th><th></th><th>"@ + html_escaped(tx.right_label@) + " <small>"@ + decimal_text(leads(rows, Lead::Right)) + " wins</small></th><th>Gap</th></tr></thead><tbody>"@ + summary_rows_text(lang, rows) + "</tbody></table><p class=\"summary-caption\">"@ + decimal_text(leads(rows, Lead::Tie)), " ties • Margin: "@);
    lemma_concat_ons("<section><h2 class=\"section-title\">📊 "@ + html_escaped(t_text(lang, "report_ability_comparison"@)) + "</h2><table class=\"summary-table\"><thead><tr><th>Axis</th><th>"@ + html_escaped(tx.left_label@) + " <small>"@ + decimal_text(leads(rows, Lead::Left)) + " wins</small></th><th></th><th>"@ + html_escaped(tx.right_label@) + " <small>"@ + decimal_text(leads(rows, Lead::Right)) + " wins</small></th><th>Gap</th></tr></thead><tbody>"@ + summary_rows_text(lang, rows) + "</tbody></table><p class=\"summary-caption\">"@ + decimal_text(leads(rows, Lead::Tie)) + " ties • Margin: "@, html_escaped(tx.margin@));
    lemma_concat_ons("<section><h2 class=\"section-title\">📊 "@ + html_escaped(t_text(lang, "report_ability_comparison"@)) + "</h2><table class=\"summary-table\"><thead><tr><th>Axis</th><th>"@ + html_escaped(tx.left_label@) + " <small>"@ + decimal_text(leads(rows, Lead::Left)) + " wins</small></th><th></th><th>"@ + html_escaped(tx.right_label@) + " <small>"@ + decimal_text(leads(rows, Lead::Right)) + " wins</small></th><th>Gap</th></tr></thead><tbody>"@ + summary_rows_text(lang, rows) + "</tbody></table><p class=\"summary-caption\">"@ + decimal_text(leads(rows, Lead::Tie)) + " ties • Margin: "@ + html_escaped(tx.margin@), " points</p></section>"@);
}

proof fn lemma_lead_class_text_ons(lead: Lead, left: bool, on: Seq<char>)
    requires
        opens_no_script(on),
    ensures
        opens_no_script(lead_class_text(lead, left, on)),
{
    reveal_strlit("");
}

proof fn lemma_icon_of_ons(key: Seq<char>)
    ensures
        opens_no_script(icon_of(key)),
{
    reveal_strlit("⚜");
    reveal_strlit("◆");
    reveal_strlit("✨");
    reveal_strlit("👁");
    reveal_strlit("✂");
    reveal_strlit("🦴");
    reveal_strlit("🔥");
    reveal_strlit("💡");
    reveal_strlit("🖼");
    reveal_strlit("💥");
    reveal_strlit("");
    assert(opens_no_script(icon_of(key)));
}

proof fn lemma_bar_class_text_ons(lead: Lead, left: bool)
    ensures
        opens_no_script(bar_class_text(lead, left)),
{
    reveal_strlit("bar bar-lead");
    reveal_strlit("bar");
}

proof fn lemma_gap_class_text_ons(lead: Lead, left_wins: bool)
    ensures
        opens_no_script(gap_class_text(lead, left_wins)),
{
    reveal_strlit("gap gap-tie");
    reveal_strlit("gap gap-win");
    reveal_strlit("gap gap-lose");
}

proof fn lemma_winner_cell_text_ons(lead: Lead)
    ensures
        opens_no_script(winner_cell_text(lead)),
{
    reveal_strlit("<td class=\"sum-winner sum-tie\">=</td>");
    reveal_strlit("<td class=\"sum-winner sum-left\">◀</td>");
    reveal_strlit("<td class=\"sum-winner sum-right\">▶</td>");
}

proof fn lemma_winner_class_text_ons(left_wins: bool, left: bool)
    ensures
        opens_no_script(winner_class_text(left_wins, left)),
{
    reveal_strlit("is-winner");
    reveal_strlit("");
}

proof fn lemma_crown_text_ons(left_wins: bool, left: bool)
    ensures
        opens_no_script(crown_text(left_wins, left)),
{
    reveal_strlit("<div class=\"crown\">👑</div>");
    reveal_strlit("");
}

proof fn lemma_gap_text_ons(row: ReportAxisRow, left_wins: bool)
    ensures
        opens_no_script(gap_text(row, left_wins)),
{
    reveal_strlit("=");
    reveal_strlit("+");
    reveal_strlit("-");
    lemma_escaped_ons(row.diff_whole@);
    assert(opens_no_script("+"@));
    assert(opens_no_script("-"@));
    lemma_concat_ons("+"@, html_escaped(row.diff_whole@));
    lemma_concat_ons("-"@, html_escaped(row.diff_whole@));
}

proof fn lemma_summary_gap_text_ons(row: ReportAxisRow)
    ensures
        opens_no_script(summary_gap_text(row)),
{
    reveal_strlit("—");
    lemma_escaped_ons(row.diff@);
}

proof fn lemma_mini_cells_text_ons(lang: Language, rows: Seq<ReportAxisRow>, left: bool)
    ensures
        opens_no_script(mini_cells_text(lang, rows, left)),
    decreases rows.len(),
{
    if rows.len() == 0 {
        assert(opens_no_script(Seq::<char>::empty()));
    } else {
        lemma_mini_cells_text_ons(lang, rows.drop_last(), left);
        lemma_mini_cell_text_ons(lang, rows.last(), left);
        lemma_concat_ons(mini_cells_text(lang, rows.drop_last(), left), mini_cell_text(lang, rows.last(), left));
    }
}

proof fn lemma_axis_bars_text_ons(lang: Language, rows: Seq<ReportAxisRow>, left_wins: bool)
    ensures
        opens_no_script(axis_bars_text(lang, rows, left_wins)),
    decreases rows.len(),
{
    if rows.len() == 0 {
        assert(opens_no_script(Seq::<char>::empty()));
    } else {
        lemma_axis_bars_text_ons(lang, rows.drop_last(), left_wins);
        lemma_axis_bar_text_ons(lang, rows.last(), left_wins);
        lemma_concat_ons(axis_bars_text(lang, rows.drop_last(), left_wins), axis_bar_text(lang, rows.last(), left_wins));
    }
}

proof fn lemma_summary_rows_text_ons(lang: Language, rows: Seq<ReportAxisRow>)
    ensures
        opens_no_script(summary_rows_text(lang, rows)),
    decreases rows.len(),
{
    if rows.len() == 0 {
        assert(opens_no_script(Seq::<char>::empty()));
    } else {
        lemma_summary_rows_text_ons(lang, rows.drop_last());
        lemma_summary_row_text_ons(lang, rows.last());
        lemma_concat_ons(summary_rows_text(lang, rows.drop_last()), summary_row_text(lang, rows.last()));
    }
}

proof fn lemma_dual_dashboard_text_ons(lang: Language, tx: ReportTexts)
    ensures
        opens_no_script(dual_dashboard_text(lang, tx)),
{
    reveal_strlit("");
    reveal_strlit("<section class=\"dual-dashboard\">");
    reveal_strlit("</section>");
    reveal_strlit("\u{2699}");
    reveal_strlit("\u{2726}");
    assert(opens_no_script(""@));
    assert(opens_no_script("<section class=\"dual-dashboard\">"@));
    assert(opens_no_script("</section>"@));
    assert(opens_no_script("\u{2699}"@));
    assert(opens_no_script("\u{2726}"@));
    match tx.heuristic_totals {
        Some(h) => {
            let hb = dual_block_text(lang, tx, "\u{2699}"@, "report_heuristic"@, h.0@, h.1@);
            lemma_dual_block_text_ons(lang, tx, "\u{2699}"@, "report_heuristic"@, h.0@, h.1@);
            let vb = match tx.vlm_totals {
                Some(v) => dual_block_text(lang, tx, "\u{2726}"@, "report_vlm"@, v.0@, v.1@),
                None => ""@,
            };
            match tx.vlm_totals {
                Some(v) => {
                    lemma_dual_block_text_ons(lang, tx, "\u{2726}"@, "report_vlm"@, v.0@, v.1@);
                },
                None => {},
            }
            lemma_concat_ons("<section class=\"dual-dashboard\">"@, hb);
            lemma_concat_ons("<section class=\"dual-dashboard\">"@ + hb, vb);
            lemma_concat_ons("<section class=\"dual-dashboard\">"@ + hb + vb, "</section>"@);
        },
        None => {},
    }
}

proof fn lemma_decisive_text_ons(lang: Language, decisive: bool)
    ensures
        opens_no_script(decisive_text(lang, decisive)),
{
    reveal_strlit("");
    reveal_strlit("<span class=\"decisive-badge\">");
    reveal_strlit("</span>");
    assert(opens_no_script("<span class=\"decisive-badge\">"@));
    assert(opens_no_script("</span>"@));
    let e = html_escaped(t_text(lang, "report_decisive"@));
    lemma_escaped_ons(t_text(lang, "report_decisive"@));
    lemma_concat_ons("<span class=\"decisive-badge\">"@, e);
    lemma_concat_ons("<span class=\"decisive-badge\">"@ + e, "</span>"@);
}

#[verifier::rlimit(100)]
proof fn lemma_report_page_part_1_plain()
    ensures
        plain_tags(REPORT_PAGE_PART_1@),
{
    reveal_strlit(r#"<!doctype html>
<html lang="{lang_attr}">
  <head>
    <meta charset="utf-8" />
    <meta name="viewport" content="width=device-width, initial-scale=1" />
    <title>{product} ⚔ {winner_name} wins • {left} vs {right}</title>
    <style>
      :root {{
        --bg: #0a0d13;
        --panel: rgba(17, 23, 34, 0.88);
        --line: rgba(255, 255, 255, 0.09);
        --text: #f5efe4;
        --muted: #c7b9a5;
        --accent: #ff8f42;
        --accent-2: #63ebd3;
        --winner: #ffd36b;
        --left-color: #ff8f42;
        --right-color: #64b4ff;
        --green: #50ff78;
        --red: #ff4646;
        --rank-splus: #ffb3ff;
        --rank-s: #ffd36b;
        --rank-a: #50ff78;
        --rank-b: #63ebd3;
        --rank-c: #ff8f42;
        --rank-d: #ff8080;
        --rank-f: #666;
      }}
      * {{ box-sizing: border-box; }}
      body {{
        margin: 0;
        min-height: 100vh;
        color: var(--text);
        font-family: "Avenir Next", "Trebuchet MS", "Segoe UI", "Apple SD Gothic Neo", "Noto Sans KR", "Noto Sans JP", sans-serif;
        background:
          radial-gradient(circle at top left, rgba(255,143,66,0.24), transparent 36%),
          radial-gradient(circle at right center, rgba(99,235,211,0.14), transparent 28%),
          linear-gradient(145deg, #090b10 0%, #121824 100%);
      }}
      .shell {{
        width: min(1240px, calc(100vw - 32px));
        margin: 0 auto;
        padding: 28px 0 56px;
      }}
      .hero, .axis-row, .narrative-block, .portrait-card, .dual-block {{
        border: 1px solid var(--line);
        border-radius: 20px;
        background: var(--panel);
        backdrop-filter: blur(14px);
      }}
      .hero {{ padding: 28px; box-shadow: 0 24px 70px rgba(0,0,0,0.35); margin-bottom: 22px; text-align: center; }}
      .eyebrow {{ text-transform: uppercase; letter-spacing: 0.18em; font-size: 12px; color: var(--muted); }}
      .winner-pill {{
        display: inline-flex;
        align-items: center;
        gap: 10px;
        padding: 10px 18px;
        border-radius: 999px;
        background: rgba(255, 211, 107, 0.14);
        color: var(--winner);
        margin: 12px 0 8px;
        font-weight: 600;
      }}
      .decisive-badge {{
        display: inline-block;
        padding: 4px 10px;
        border-radius: 999px;
        background: var(--red);
        color: #fff;
        font-size: 11px;
        font-weight: 700;
        letter-spacing: 0.12em;
        margin-left: 8px;
      }}
      h1 {{ margin: 6px 0 4px; font-size: clamp(36px, 6vw, 72px); line-height: 0.95; text-transform: uppercase; color: var(--winner); }}
      h2.section-title {{ margin: 26px 0 12px; font-size: 18px; text-transform: uppercase; letter-spacing: 0.12em; color: var(--text); display: flex; align-items: center; gap: 10px; }}
      h2.section-title::before {{ content: ""; width: 4px; height: 20px; background: var(--accent); border-radius: 2px; }}
      p {{ line-height: 1.7; color: var(--muted); margin: 0; }}
"#);
}

#[verifier::rlimit(100)]
proof fn lemma_report_page_part_2_plain()
    ensures
        plain_tags(REPORT_PAGE_PART_2@),
{
    reveal_strlit(r#"      .verdict {{ font-size: 15px; color: var(--muted); margin-top: 6px; }}
      .rank-badge-big {{ display: inline-block; padding: 4px 14px; border-radius: 999px; font-weight: 800; font-size: 18px; margin: 0 6px; }}
      .rank-splus {{ background: rgba(255,179,255,0.2); color: var(--rank-splus); border: 1px solid var(--rank-splus); }}
      .rank-s {{ background: rgba(255,211,107,0.2); color: var(--rank-s); border: 1px solid var(--rank-s); }}
      .rank-a {{ background: rgba(80,255,120,0.2); color: var(--rank-a); border: 1px solid var(--rank-a); }}
      .rank-b {{ background: rgba(99,235,211,0.2); color: var(--rank-b); border: 1px solid var(--rank-b); }}
      .rank-c {{ background: rgba(255,143,66,0.2); color: var(--rank-c); border: 1px solid var(--rank-c); }}
      .rank-d {{ background: rgba(255,128,128,0.2); color: var(--rank-d); border: 1px solid var(--rank-d); }}
      .rank-f {{ background: rgba(100,100,100,0.2); color: var(--rank-f); border: 1px solid var(--rank-f); }}

      /* ── Battle Card: photos with stats strip on top ───────── */
      .battle-card {{
        display: grid;
        grid-template-columns: 1fr 1fr;
        gap: 12px;
        margin-bottom: 22px;
      }}
      .battle-side {{
        display: flex;
        flex-direction: column;
        border: 1px solid var(--line);
        border-radius: 20px;
        overflow: hidden;
        background: var(--panel);
        position: relative;
      }}
      .battle-side.is-winner {{
        border: 2px solid var(--winner);
        box-shadow: 0 0 30px rgba(255, 211, 107, 0.25);
      }}

      /* Name header above stats */
      .side-header {{
        padding: 14px 18px 10px;
        display: flex;
        align-items: center;
        justify-content: space-between;
        gap: 10px;
        background: linear-gradient(180deg, rgba(25,30,45,0.95) 0%, rgba(20,25,38,0.95) 100%);
      }}
      .side-name {{
        font-size: 18px;
        font-weight: 800;
        color: var(--text);
        word-break: break-all;
      }}
      .side-header .side-tag {{ flex-shrink: 0; }}
      .side-total {{
        display: flex;
        align-items: baseline;
        gap: 8px;
        padding: 0 18px 12px;
        background: linear-gradient(180deg, rgba(20,25,38,0.95) 0%, rgba(15,18,28,0.95) 100%);
      }}
      .side-total-label {{ font-size: 11px; color: var(--muted); text-transform: uppercase; letter-spacing: 0.12em; }}
      .side-total-value {{ font-size: 44px; font-weight: 900; color: var(--winner); font-variant-numeric: tabular-nums; line-height: 1; }}
      .side-total-rank {{ margin-left: 6px; }}

      /* Mini-stats strip */
      .mini-stats {{
        display: grid;
        grid-template-columns: repeat(5, 1fr);
        gap: 3px;
        padding: 10px;
        background: rgba(15,18,28,0.95);
        border-top: 1px solid var(--line);
        border-bottom: 2px solid var(--accent);
      }}
      .mini-stat {{
        display: flex;
        flex-direction: column;
"#);
}

#[verifier::rlimit(100)]
proof fn lemma_report_page_part_3_plain()
    ensures
        plain_tags(REPORT_PAGE_PART_3@),
{
    reveal_strlit(r#"        align-items: center;
        gap: 2px;
        padding: 7px 3px;
        border-radius: 8px;
        background: rgba(255,255,255,0.03);
      }}
      .mini-stat.mini-lead {{ background: rgba(80,255,120,0.15); box-shadow: inset 0 0 0 1px rgba(80,255,120,0.4); }}
      .mini-icon {{ font-size: 16px; line-height: 1; }}
      .mini-name {{ font-size: 9px; font-weight: 700; letter-spacing: 0.05em; text-transform: uppercase; color: var(--muted); }}
      .mini-score {{ font-size: 15px; font-weight: 800; color: var(--text); font-variant-numeric: tabular-nums; }}
      .mini-rank {{ font-size: 9px; font-weight: 700; padding: 1px 5px; border-radius: 6px; }}

      /* Photo frame — use contain so full face is visible */
      .photo-wrap {{
        position: relative;
        background: #000;
        min-height: 400px;
        display: flex;
        align-items: center;
        justify-content: center;
      }}
      .photo-wrap img {{
        display: block;
        max-width: 100%;
        max-height: 580px;
        width: auto;
        height: auto;
        object-fit: contain;
      }}
      .crown {{
        position: absolute;
        top: 12px;
        right: 12px;
        font-size: 32px;
        filter: drop-shadow(0 2px 8px rgba(0,0,0,0.9));
        z-index: 2;
      }}
      .side-tag {{
        display: inline-block;
        padding: 5px 12px;
        border-radius: 999px;
        font-size: 11px;
        font-weight: 800;
        letter-spacing: 0.14em;
      }}
      .tag-left {{ background: var(--left-color); color: #000; }}
      .tag-right {{ background: var(--right-color); color: #000; }}

      /* ── Dual Score Dashboard ──────────────────────────────── */
      .dual-dashboard {{
        display: grid;
        grid-template-columns: repeat(auto-fit, minmax(320px, 1fr));
        gap: 14px;
        margin-bottom: 22px;
      }}
      .dual-block {{ padding: 18px 22px; }}
      .dual-header {{ display: flex; align-items: center; gap: 10px; font-size: 12px; text-transform: uppercase; letter-spacing: 0.12em; color: var(--muted); margin-bottom: 12px; }}
      .dual-icon {{ color: var(--accent-2); font-size: 18px; }}
      .dual-scores {{ display: flex; align-items: center; justify-content: space-between; gap: 12px; }}
      .dual-score {{ text-align: center; flex: 1; }}
      .dual-score small {{ display: block; color: var(--muted); font-size: 11px; letter-spacing: 0.08em; text-transform: uppercase; margin-bottom: 6px; }}
      .dual-score strong {{ font-size: 32px; font-weight: 800; color: var(--text); }}
      .dual-vs {{ color: var(--accent); font-weight: 700; font-size: 14px; letter-spacing: 0.15em; }}

      /* ── Summary Comparison Table ───────────────────────────── */
      .summary-table {{
        width: 100%;
        border-collapse: collapse;
        border: 1px solid var(--line);
        border-radius: 16px;
        overflow: hidden;
        background: var(--panel);
      }}
"#);
}

#[verifier::rlimit(100)]
proof fn lemma_report_page_part_4_plain()
    ensures
        plain_tags(REPORT_PAGE_PART_4@),
{
    reveal_strlit(r#"      .summary-table th, .summary-table td {{ padding: 12px 14px; text-align: left; border-bottom: 1px solid var(--line); font-size: 14px; }}
      .summary-table tr:last-child td {{ border-bottom: none; }}
      .summary-table th {{
        background: rgba(25,30,45,0.95);
        color: var(--accent);
        font-size: 12px;
        text-transform: uppercase;
        letter-spacing: 0.1em;
        font-weight: 700;
      }}
      .summary-table th small {{ display: block; color: var(--muted); font-size: 10px; font-weight: 500; margin-top: 2px; }}
      .sum-axis {{ display: flex; align-items: center; gap: 8px; font-weight: 600; }}
      .sum-icon {{ font-size: 16px; }}
      .sum-num {{ font-variant-numeric: tabular-nums; font-weight: 600; }}
      .sum-num.sum-lead {{ color: var(--green); }}
      .sum-winner {{ text-align: center; font-weight: 800; width: 40px; }}
      .sum-left {{ color: var(--left-color); }}
      .sum-right {{ color: var(--right-color); }}
      .sum-tie {{ color: var(--accent-2); }}
      .sum-gap {{ font-variant-numeric: tabular-nums; color: var(--muted); width: 60px; text-align: right; }}
      .rank-mini {{ display: inline-block; font-size: 9px; padding: 1px 5px; border-radius: 5px; margin-left: 4px; font-weight: 700; }}
      .summary-caption {{ margin-top: 10px; font-size: 13px; color: var(--muted); text-align: center; }}

      /* ── Detailed Axis Rows ────────────────────────────────── */
      .axis-row {{
        display: grid;
        grid-template-columns: 240px 1fr;
        gap: 18px;
        align-items: center;
        padding: 14px 20px;
        margin-bottom: 8px;
      }}
      .axis-meta {{ display: flex; flex-direction: column; gap: 3px; }}
      .axis-head {{ display: flex; align-items: center; gap: 8px; }}
      .axis-icon {{ font-size: 18px; }}
      .axis-name {{ font-weight: 700; font-size: 14px; color: var(--text); }}
      .axis-desc {{ font-size: 11px; color: var(--muted); letter-spacing: 0.02em; }}
      .axis-track {{ display: grid; grid-template-columns: 1fr 52px 1fr; align-items: center; gap: 10px; }}
      .axis-side {{ display: flex; align-items: center; gap: 6px; }}
      .axis-side:not(.axis-side-right) {{ justify-content: flex-end; }}
      .axis-num {{ font-variant-numeric: tabular-nums; font-size: 12px; color: var(--muted); min-width: 30px; text-align: right; }}
      .axis-side-right .axis-num {{ text-align: left; }}
      .axis-rank {{ font-size: 9px; font-weight: 700; padding: 1px 5px; border-radius: 5px; }}
      .bar {{
        height: 10px;
        border-radius: 5px;
        background: linear-gradient(90deg, rgba(255,143,66,0.5), rgba(255,143,66,0.85));
        min-width: 2%;
      }}
      .axis-side-right .bar {{ background: linear-gradient(90deg, rgba(100,180,255,0.85), rgba(100,180,255,0.5)); }}
      .bar-lead {{ background: linear-gradient(90deg, rgba(80,255,120,0.7), rgba(80,255,120,1)) !important; }}
      .gap {{
        text-align: center;
"#);
}

#[verifier::rlimit(100)]
proof fn lemma_report_page_part_5_plain()
    ensures
        plain_tags(REPORT_PAGE_PART_5@),
{
    reveal_strlit(r#"        font-weight: 700;
        font-size: 13px;
        font-variant-numeric: tabular-nums;
      }}
      .gap-win {{ color: var(--green); }}
      .gap-lose {{ color: var(--red); }}
      .gap-tie {{ color: var(--accent-2); }}

      /* ── Portrait Analysis Cards ──────────────────────────── */
      .portrait-grid {{ display: grid; grid-template-columns: repeat(auto-fit, minmax(320px, 1fr)); gap: 16px; }}
      .portrait-card {{ padding: 22px; }}
      .portrait-card.is-winner {{ border-color: var(--winner); box-shadow: 0 0 0 1px var(--winner); }}
      .portrait-header {{ display: flex; align-items: center; gap: 12px; margin-bottom: 16px; }}
      .portrait-header h3 {{ margin: 0; font-size: 22px; }}
      .pa-block {{ margin-bottom: 14px; }}
      .pa-label {{ font-size: 11px; text-transform: uppercase; letter-spacing: 0.14em; color: var(--muted); margin-bottom: 4px; font-weight: 700; }}
      .pa-block p {{ color: var(--text); font-size: 14px; }}

      /* ── Narrative Blocks ──────────────────────────────────── */
      .narrative-grid {{ display: grid; grid-template-columns: repeat(auto-fit, minmax(280px, 1fr)); gap: 16px; margin-top: 12px; }}
      .narrative-block {{ padding: 20px; }}
      .narrative-block h3 {{ margin: 0 0 10px; font-size: 15px; text-transform: uppercase; letter-spacing: 0.1em; color: var(--accent); }}
      .narrative-block p {{ color: var(--text); font-size: 14px; }}

      footer {{ margin-top: 30px; color: var(--muted); font-size: 13px; text-align: center; }}

      @media (max-width: 720px) {{
        .battle-card {{ grid-template-columns: 1fr; }}
        .axis-row {{ grid-template-columns: 1fr; }}
        .mini-stats {{ grid-template-columns: repeat(5, 1fr); }}
      }}

      /* ── Street Fighter overlay — aggressive arcade aesthetic ───────── */
      @import url("https://fonts.googleapis.com/css2?family=Bebas+Neue&family=Orbitron:wght@600;700;900&display=swap");
      body {{
        background:
          radial-gradient(circle at 18% 26%, rgba(255, 70, 70, 0.32), transparent 38%),
          radial-gradient(circle at 82% 74%, rgba(64, 158, 255, 0.32), transparent 38%),
          repeating-linear-gradient(
            0deg,
            rgba(255,255,255,0.025) 0px,
            rgba(255,255,255,0.025) 1px,
            transparent 1px,
            transparent 4px
          ),
          linear-gradient(145deg, #060810 0%, #0e1320 100%);
      }}
      h1, .section-title, .side-name, .side-total-value, .dual-score strong, .winner-name {{
        font-family: "Orbitron", "Bebas Neue", "Avenir Next", sans-serif !important;
        letter-spacing: 0.04em !important;
      }}
      .hero h1 {{
        font-family: "Bebas Neue", "Orbitron", sans-serif !important;
        font-size: clamp(56px, 9vw, 110px) !important;
        letter-spacing: 0.1em !important;
        text-transform: uppercase;
        background: linear-gradient(180deg, #ffe9a8 0%, var(--winner) 50%, #ff8a3c 100%);
"#);
}

#[verifier::rlimit(100)]
proof fn lemma_report_page_part_6_plain()
    ensures
        plain_tags(REPORT_PAGE_PART_6@),
{
    reveal_strlit(r#"        -webkit-background-clip: text;
        -webkit-text-fill-color: transparent;
        background-clip: text;
        text-shadow: 0 0 28px rgba(255, 211, 107, 0.45);
        animation: sf-pulse 1.6s ease-in-out infinite alternate;
      }}
      @keyframes sf-pulse {{
        from {{ filter: drop-shadow(0 0 8px rgba(255, 211, 107, 0.4)); }}
        to {{ filter: drop-shadow(0 0 22px rgba(255, 211, 107, 0.85)); }}
      }}
      .verdict {{
        font-family: "Bebas Neue", "Orbitron", sans-serif !important;
        font-size: clamp(20px, 2.4vw, 28px) !important;
        letter-spacing: 0.18em !important;
        text-transform: uppercase;
        color: #ff5252 !important;
      }}
      .winner-pill {{
        background: linear-gradient(90deg, rgba(255,70,70,0.25), rgba(255,211,107,0.35), rgba(64,158,255,0.25)) !important;
        border: 1px solid rgba(255, 211, 107, 0.6);
        text-transform: uppercase;
        letter-spacing: 0.16em;
        font-family: "Orbitron", sans-serif;
        font-weight: 700 !important;
        box-shadow: 0 0 30px rgba(255, 211, 107, 0.25);
      }}
      .battle-card {{ position: relative; }}
      .battle-card::before {{
        content: "VS";
        position: absolute;
        top: 50%;
        left: 50%;
        transform: translate(-50%, -50%);
        font-family: "Bebas Neue", "Orbitron", sans-serif;
        font-size: clamp(60px, 12vw, 160px);
        font-weight: 900;
        letter-spacing: 0.1em;
        background: linear-gradient(180deg, #ffd36b 0%, #ff4646 100%);
        -webkit-background-clip: text;
        -webkit-text-fill-color: transparent;
        background-clip: text;
        text-shadow: 0 0 30px rgba(255, 70, 70, 0.5);
        pointer-events: none;
        z-index: 5;
        opacity: 0.9;
        animation: sf-vs-flicker 2s ease-in-out infinite;
      }}
      @keyframes sf-vs-flicker {{
        0%, 100% {{ opacity: 0.92; transform: translate(-50%, -50%) scale(1); }}
        50% {{ opacity: 0.65; transform: translate(-50%, -50%) scale(1.04); }}
      }}
      .battle-side[class*="left"], .battle-side:first-child {{
        border-left: 6px solid var(--red) !important;
        box-shadow: -8px 0 32px rgba(255, 70, 70, 0.18);
      }}
      .battle-side:last-child {{
        border-right: 6px solid #4a9eff !important;
        box-shadow: 8px 0 32px rgba(64, 158, 255, 0.18);
      }}
      .battle-side.is-winner {{
        border-color: var(--winner) !important;
        box-shadow: 0 0 60px rgba(255, 211, 107, 0.4) !important;
      }}
      .side-name {{
        text-transform: uppercase;
        letter-spacing: 0.16em;
        font-weight: 900 !important;
      }}
      .side-total-value {{
        font-family: "Bebas Neue", "Orbitron", sans-serif !important;
        font-size: clamp(54px, 6vw, 76px) !important;
        letter-spacing: 0.05em !important;
        text-shadow: 0 0 18px currentColor;
      }}
      /* Health-bar style score row above each portrait */
"#);
}

#[verifier::rlimit(100)]
proof fn lemma_report_page_part_7_plain()
    ensures
        plain_tags(REPORT_PAGE_PART_7@),
{
    reveal_strlit(r#"      .side-total {{ position: relative; }}
      .side-total::before {{
        content: "";
        position: absolute;
        bottom: 0;
        left: 0;
        height: 4px;
        width: 100%;
        background: linear-gradient(90deg, #ff4646, #ffd36b, #50ff78);
        opacity: 0.85;
        box-shadow: 0 0 12px rgba(255, 211, 107, 0.6);
      }}
      .rank-badge-big {{
        font-family: "Orbitron", sans-serif !important;
        font-weight: 900 !important;
        letter-spacing: 0.08em !important;
        text-shadow: 0 0 12px currentColor;
      }}
      .section-title {{
        font-family: "Bebas Neue", "Orbitron", sans-serif !important;
        font-size: 26px !important;
        letter-spacing: 0.18em !important;
        color: var(--accent) !important;
      }}
      .section-title::before {{ content: "▸ "; color: var(--red); }}
    </style>
  </head>
  <body>
    <main class="shell">
      <section class="hero">
        <div class="eyebrow">{product} • {judge}</div>
        <div class="winner-pill">🏆 {winner_label_text} • {winner_name}{decisive}</div>
        <h1>{winner_name} <span class="rank-badge-big {wrc}">{wrank}</span></h1>
        <p class="verdict">{verdict}</p>
        <p style="margin-top:10px;">{winner_name} <strong style="color:var(--winner);">{winner_total}</strong> vs {loser_label} <strong style="color:var(--muted);">{loser_total}</strong> <span class="rank-badge-big {lrc}">{lrank}</span></p>
      </section>

      <section class="battle-card">
        <div class="battle-side {left_winner_class}">
          <div class="side-header">
            <span class="side-name">{left}</span>
            <span class="side-tag tag-left">◀ {left_tag}</span>
          </div>
          <div class="side-total">
            <span class="side-total-label">{score_label}</span>
            <span class="side-total-value">{left_total}</span>
            <span class="rank-badge-big {left_rank_class} side-total-rank">{left_rank}</span>
          </div>
          <div class="mini-stats">{left_mini}</div>
          <div class="photo-wrap">
            {left_crown}
            <img alt="{left}" src="{left_src}" />
          </div>
        </div>
        <div class="battle-side {right_winner_class}">
          <div class="side-header">
            <span class="side-name">{right}</span>
            <span class="side-tag tag-right">{right_tag} ▶</span>
          </div>
          <div class="side-total">
            <span class="side-total-label">{score_label}</span>
            <span class="side-total-value">{right_total}</span>
            <span class="rank-badge-big {right_rank_class} side-total-rank">{right_rank}</span>
          </div>
          <div class="mini-stats">{right_mini}</div>
          <div class="photo-wrap">
            {right_crown}
            <img alt="{right}" src="{right_src}" />
          </div>
        </div>
      </section>

      {dual_dashboard}

      {summary_table}

      <section>
"#);
}

#[verifier::rlimit(100)]
proof fn lemma_report_page_part_8_plain()
    ensures
        plain_tags(REPORT_PAGE_PART_8@),
{
    reveal_strlit(r#"        <h2 class="section-title">📐 {detail_title}</h2>
        <div class="axis-list">{axis_bars}</div>
      </section>

      {portrait_analysis}

      <section>
        <h2 class="section-title">{analysis_title}</h2>
        <div class="narrative-grid">
          <section class="narrative-block"><h3>💬 {overall_take_title}</h3><p>{overall}</p></section>
          <section class="narrative-block"><h3>🏆 {why_title}</h3><p>{why}</p></section>
          <section class="narrative-block"><h3>📝 {jury_title}</h3><p>{notes}</p></section>
        </div>
      </section>

      <footer>{generated_label} {created_at} • {product}</footer>
    </main>
  </body>
</html>"#);
}

proof fn lemma_report_template_plain()
    ensures
        plain_tags(report_page_template_text()),
{
    lemma_report_page_part_1_plain();
    lemma_report_page_part_2_plain();
    lemma_report_page_part_3_plain();
    lemma_report_page_part_4_plain();
    lemma_report_page_part_5_plain();
    lemma_report_page_part_6_plain();
    lemma_report_page_part_7_plain();
    lemma_report_page_part_8_plain();
    lemma_concat_plain(REPORT_PAGE_PART_1@, REPORT_PAGE_PART_2@);
    lemma_concat_plain(REPORT_PAGE_PART_1@ + REPORT_PAGE_PART_2@, REPORT_PAGE_PART_3@);
    lemma_concat_plain(REPORT_PAGE_PART_1@ + REPORT_PAGE_PART_2@ + REPORT_PAGE_PART_3@, REPORT_PAGE_PART_4@);
    lemma_concat_plain(REPORT_PAGE_PART_1@ + REPORT_PAGE_PART_2@ + REPORT_PAGE_PART_3@ + REPORT_PAGE_PART_4@, REPORT_PAGE_PART_5@);
    lemma_concat_plain(REPORT_PAGE_PART_1@ + REPORT_PAGE_PART_2@ + REPORT_PAGE_PART_3@ + REPORT_PAGE_PART_4@ + REPORT_PAGE_PART_5@, REPORT_PAGE_PART_6@);
    lemma_concat_plain(REPORT_PAGE_PART_1@ + REPORT_PAGE_PART_2@ + REPORT_PAGE_PART_3@ + REPORT_PAGE_PART_4@ + REPORT_PAGE_PART_5@ + REPORT_PAGE_PART_6@, REPORT_PAGE_PART_7@);
    lemma_concat_plain(REPORT_PAGE_PART_1@ + REPORT_PAGE_PART_2@ + REPORT_PAGE_PART_3@ + REPORT_PAGE_PART_4@ + REPORT_PAGE_PART_5@ + REPORT_PAGE_PART_6@ + REPORT_PAGE_PART_7@, REPORT_PAGE_PART_8@);
}

#[verifier::rlimit(100)]
proof fn lemma_report_values_1_ons(lang: Language, tx: ReportTexts, rows: Seq<ReportAxisRow>)
    ensures
        report_field_values_1(lang, tx, rows).len() == 10,
        forall|j: int| 0 <= j < report_field_values_1(lang, tx, rows).len() ==> opens_no_script(
            #[trigger] report_field_values_1(lang, tx, rows)[j],
        ),
{
    reveal(report_field_values_1);
    reveal_strlit("en");
    reveal_strlit("ko");
    reveal_strlit("ja");
    assert(opens_no_script(language_code_text(lang)));
    reveal_strlit("BetterThanYou");
    assert(opens_no_script(PRODUCT_NAME@));
    lemma_escaped_ons(tx.left_label@);
    lemma_escaped_ons(tx.right_label@);
    lemma_escaped_ons(tx.winner_label@);
    lemma_escaped_ons(loser_of(tx));
    lemma_escaped_ons(tx.winner_total@);
    lemma_escaped_ons(tx.loser_total@);
    lemma_escaped_ons(tx.winner_rank@);
    lemma_escaped_ons(tx.winner_rank_class@);
    let vals = report_field_values_1(lang, tx, rows);
    assert forall|j: int| 0 <= j < vals.len() implies opens_no_script(#[trigger] vals[j]) by {
        if j == 0 {
            assert(vals[0] == language_code_text(lang));
        } else if j == 1 {
            assert(vals[1] == PRODUCT_NAME@);
        } else if j == 2 {
            assert(vals[2] == html_escaped(tx.left_label@));
        } else if j == 3 {
            assert(vals[3] == html_escaped(tx.right_label@));
        } else if j == 4 {
            assert(vals[4] == html_escaped(tx.winner_label@));
        } else if j == 5 {
            assert(vals[5] == html_escaped(loser_of(tx)));
        } else if j == 6 {
            assert(vals[6] == html_escaped(tx.winner_total@));
        } else if j == 7 {
            assert(vals[7] == html_escaped(tx.loser_total@));
        } else if j == 8 {
            assert(vals[8] == html_escaped(tx.winner_rank@));
        } else if j == 9 {
            assert(vals[9] == html_escaped(tx.winner_rank_class@));
        }
    }
}

#[verifier::rlimit(100)]
proof fn lemma_report_values_2_ons(lang: Language, tx: ReportTexts, rows: Seq<ReportAxisRow>)
    ensures
        report_field_values_2(lang, tx, rows).len() == 10,
        forall|j: int| 0 <= j < report_field_values_2(lang, tx, rows).len() ==> opens_no_script(
            #[trigger] report_field_values_2(lang, tx, rows)[j],
        ),
{
    reveal(report_field_values_2);
    lemma_escaped_ons(tx.loser_rank@);
    lemma_escaped_ons(tx.loser_rank_class@);
    lemma_escaped_ons(verdict_text(lang, tx.intensity, tx.winner_label@, loser_of(tx)));
    lemma_escaped_ons(t_text(lang, "report_winner"@));
    lemma_escaped_ons(t_text(lang, "report_score"@));
    lemma_escaped_ons(tx.judge@);
    lemma_escaped_ons(tx.overall@);
    lemma_escaped_ons(tx.why@);
    lemma_escaped_ons(tx.notes@);
    lemma_escaped_ons(tx.left_total@);
    let vals = report_field_values_2(lang, tx, rows);
    assert forall|j: int| 0 <= j < vals.len() implies opens_no_script(#[trigger] vals[j]) by {
        if j == 0 {
            assert(vals[0] == html_escaped(tx.loser_rank@));
        } else if j == 1 {
            assert(vals[1] == html_escaped(tx.loser_rank_class@));
        } else if j == 2 {
            assert(vals[2] == html_escaped(verdict_text(lang, tx.intensity, tx.winner_label@, loser_of(tx))));
        } else if j == 3 {
            assert(vals[3] == html_escaped(t_text(lang, "report_winner"@)));
        } else if j == 4 {
            assert(vals[4] == html_escaped(t_text(lang, "report_score"@)));
        } else if j == 5 {
            assert(vals[5] == html_escaped(tx.judge@));
        } else if j == 6 {
            assert(vals[6] == html_escaped(tx.overall@));
        } else if j == 7 {
            assert(vals[7] == html_escaped(tx.why@));
        } else if j == 8 {
            assert(vals[8] == html_escaped(tx.notes@));
        } else if j == 9 {
            assert(vals[9] == html_escaped(tx.left_total@));
        }
    }
}

#[verifier::rlimit(100)]
proof fn lemma_report_values_3_ons(lang: Language, tx: ReportTexts, rows: Seq<ReportAxisRow>)
    requires
        opens_no_script(tx.left_src@),
        opens_no_script(tx.right_src@),
        opens_no_script(tx.created_at@),
    ensures
        report_field_values_3(lang, tx, rows).len() == 10,
        forall|j: int| 0 <= j < report_field_values_3(lang, tx, rows).len() ==> opens_no_script(
            #[trigger] report_field_values_3(lang, tx, rows)[j],
        ),
{
    reveal(report_field_values_3);
    lemma_escaped_ons(tx.right_total@);
    lemma_escaped_ons(t_text(lang, "report_left"@));
    lemma_escaped_ons(t_text(lang, "report_right"@));
    lemma_mini_cells_text_ons(lang, rows, true);
    lemma_mini_cells_text_ons(lang, rows, false);
    lemma_escaped_ons(tx.left_rank@);
    lemma_escaped_ons(tx.left_rank_class@);
    lemma_escaped_ons(tx.right_rank@);
    let vals = report_field_values_3(lang, tx, rows);
    assert forall|j: int| 0 <= j < vals.len() implies opens_no_script(#[trigger] vals[j]) by {
        if j == 0 {
            assert(vals[0] == html_escaped(tx.right_total@));
        } else if j == 1 {
            assert(vals[1] == tx.left_src@);
        } else if j == 2 {
            assert(vals[2] == tx.right_src@);
        } else if j == 3 {
            assert(vals[3] == html_escaped(t_text(lang, "report_left"@)));
        } else if j == 4 {
            assert(vals[4] == html_escaped(t_text(lang, "report_right"@)));
        } else if j == 5 {
            assert(vals[5] == mini_cells_text(lang, rows, true));
        } else if j == 6 {
            assert(vals[6] == mini_cells_text(lang, rows, false));
        } else if j == 7 {
            assert(vals[7] == html_escaped(tx.left_rank@));
        } else if j == 8 {
            assert(vals[8] == html_escaped(tx.left_rank_class@));
        } else if j == 9 {
            assert(vals[9] == html_escaped(tx.right_rank@));
        }
    }
}

#[verifier::rlimit(100)]
proof fn lemma_report_values_4_ons(lang: Language, tx: ReportTexts, rows: Seq<ReportAxisRow>)
    ensures
        report_field_values_4(lang, tx, rows).len() == 10,
        forall|j: int| 0 <= j < report_field_values_4(lang, tx, rows).len() ==> opens_no_script(
            #[trigger] report_field_values_4(lang, tx, rows)[j],
        ),
{
    reveal(report_field_values_4);
    lemma_escaped_ons(tx.right_rank_class@);
    lemma_winner_class_text_ons(tx.left_wins, true);
    lemma_winner_class_text_ons(tx.left_wins, false);
    lemma_crown_text_ons(tx.left_wins, true);
    lemma_crown_text_ons(tx.left_wins, false);
    lemma_decisive_text_ons(lang, tx.decisive);
    lemma_dual_dashboard_text_ons(lang, tx);
    lemma_summary_table_text_ons(lang, tx, rows);
    lemma_escaped_ons(t_text(lang, "report_ability_comparison"@));
    lemma_escaped_ons(t_text(lang, "report_jury_notes"@));
    let vals = report_field_values_4(lang, tx, rows);
    assert forall|j: int| 0 <= j < vals.len() implies opens_no_script(#[trigger] vals[j]) by {
        if j == 0 {
            assert(vals[0] == html_escaped(tx.right_rank_class@));
        } else if j == 1 {
            assert(vals[1] == winner_class_text(tx.left_wins, true));
        } else if j == 2 {
            assert(vals[2] == winner_class_text(tx.left_wins, false));
        } else if j == 3 {
            assert(vals[3] == crown_text(tx.left_wins, true));
        } else if j == 4 {
            assert(vals[4] == crown_text(tx.left_wins, false));
        } else if j == 5 {
            assert(vals[5] == decisive_text(lang, tx.decisive));
        } else if j == 6 {
            assert(vals[6] == dual_dashboard_text(lang, tx));
        } else if j == 7 {
            assert(vals[7] == summary_table_text(lang, tx, rows));
        } else if j == 8 {
            assert(vals[8] == html_escaped(t_text(lang, "report_ability_comparison"@)));
        } else if j == 9 {
            assert(vals[9] == html_escaped(t_text(lang, "report_jury_notes"@)));
        }
    }
}

#[verifier::rlimit(100)]
proof fn lemma_report_values_5_ons(lang: Language, tx: ReportTexts, rows: Seq<ReportAxisRow>)
    requires
        opens_no_script(tx.left_src@),
        opens_no_script(tx.right_src@),
        opens_no_script(tx.created_at@),
    ensures
        report_field_values_5(lang, tx, rows).len() == 7,
        forall|j: int| 0 <= j < report_field_values_5(lang, tx, rows).len() ==> opens_no_script(
            #[trigger] report_field_values_5(lang, tx, rows)[j],
        ),
{
    reveal(report_field_values_5);
    lemma_escaped_ons(t_text(lang, "report_overall_take"@));
    lemma_escaped_ons(t_text(lang, "report_why_won"@));
    lemma_escaped_ons(t_text(lang, "report_jury_notes"@));
    lemma_escaped_ons(t_text(lang, "report_generated"@));
    lemma_axis_bars_text_ons(lang, rows, tx.left_wins);
    lemma_portrait_analysis_text_ons(lang, tx);
    let vals = report_field_values_5(lang, tx, rows);
    assert forall|j: int| 0 <= j < vals.len() implies opens_no_script(#[trigger] vals[j]) by {
        if j == 0 {
            assert(vals[0] == html_escaped(t_text(lang, "report_overall_take"@)));
        } else if j == 1 {
            assert(vals[1] == html_escaped(t_text(lang, "report_why_won"@)));
        } else if j == 2 {
            assert(vals[2] == html_escaped(t_text(lang, "report_jury_notes"@)));
        } else if j == 3 {
            assert(vals[3] == html_escaped(t_text(lang, "report_generated"@)));
        } else if j == 4 {
            assert(vals[4] == tx.created_at@);
        } else if j == 5 {
            assert(vals[5] == axis_bars_text(lang, rows, tx.left_wins));
        } else if j == 6 {
            assert(vals[6] == portrait_analysis_text(lang, tx));
        }
    }
}

proof fn lemma_values_concat_ons(a: Seq<Seq<char>>, b: Seq<Seq<char>>)
    requires
        forall|j: int| 0 <= j < a.len() ==> opens_no_script(#[trigger] a[j]),
        forall|j: int| 0 <= j < b.len() ==> opens_no_script(#[trigger] b[j]),
    ensures
        forall|j: int| 0 <= j < (a + b).len() ==> opens_no_script(#[trigger] (a + b)[j]),
{
    assert forall|j: int| 0 <= j < (a + b).len() implies opens_no_script(#[trigger] (a + b)[j]) by {
        if j < a.len() {
            assert((a + b)[j] == a[j]);
        } else {
            assert((a + b)[j] == b[j - a.len()]);
        }
    }
}

proof fn lemma_report_values_ons(lang: Language, tx: ReportTexts, rows: Seq<ReportAxisRow>)
    requires
        opens_no_script(tx.left_src@),
        opens_no_script(tx.right_src@),
        opens_no_script(tx.created_at@),
    ensures
        forall|j: int|
            0 <= j < report_field_values(lang, tx, rows).len() ==> opens_no_script(
                #[trigger] report_field_values(lang, tx, rows)[j],
            ),
        report_field_values(lang, tx, rows).len() == report_field_names().len(),
{
    let v1 = report_field_values_1(lang, tx, rows);
    let v2 = report_field_values_2(lang, tx, rows);
    let v3 = report_field_values_3(lang, tx, rows);
    let v4 = report_field_values_4(lang, tx, rows);
    let v5 = report_field_values_5(lang, tx, rows);
    lemma_report_values_1_ons(lang, tx, rows);
    lemma_report_values_2_ons(lang, tx, rows);
    lemma_report_values_3_ons(lang, tx, rows);
    lemma_report_values_4_ons(lang, tx, rows);
    lemma_report_values_5_ons(lang, tx, rows);
    lemma_values_concat_ons(v1, v2);
    lemma_values_concat_ons(v1 + v2, v3);
    lemma_values_concat_ons(v1 + v2 + v3, v4);
    lemma_values_concat_ons(v1 + v2 + v3 + v4, v5);
}

/// No tag of a battle's HTML report has a name beginning with `sc`, in any
/// letter case: the page holds no `<script`, as long as the portraits' data
/// URLs and the creation time, which go into the page as they are, hold none.
/// The template has none, and every other text of the battle reaches the page
/// escaped, so it brings no `<`.
pub proof fn lemma_report_page_opens_no_script(lang: Language, tx: ReportTexts, rows: Seq<ReportAxisRow>)
    requires
        opens_no_script(tx.left_src@),
        opens_no_script(tx.right_src@),
        opens_no_script(tx.created_at@),
    ensures
        opens_no_script(
            expanded(report_page_template_text(), report_field_names(), report_field_values(lang, tx, rows)),
        ),
{
    lemma_report_values_ons(lang, tx, rows);
    lemma_report_template_plain();
    lemma_expanded_ons(report_page_template_text(), report_field_names(), report_field_values(lang, tx, rows));
}

proof fn lemma_values_chunk_len_1(lang: Language, tx: ReportTexts, rows: Seq<ReportAxisRow>)
    ensures
        report_field_values_1(lang, tx, rows).len() == 10,
{
    reveal(report_field_values_1);
}

proof fn lemma_values_chunk_len_2(lang: Language, tx: ReportTexts, rows: Seq<ReportAxisRow>)
    ensures
        report_field_values_2(lang, tx, rows).len() == 10,
{
    reveal(report_field_values_2);
}

proof fn lemma_values_chunk_len_3(lang: Language, tx: ReportTexts, rows: Seq<ReportAxisRow>)
    ensures
        report_field_values_3(lang, tx, rows).len() == 10,
{
    reveal(report_field_values_3);
}

proof fn lemma_values_chunk_lens(lang: Language, tx: ReportTexts, rows: Seq<ReportAxisRow>)
    ensures
        report_field_values_1(lang, tx, rows).len() == 10,
        report_field_values_2(lang, tx, rows).len() == 10,
        report_field_values_3(lang, tx, rows).len() == 10,
{
    lemma_values_chunk_len_1(lang, tx, rows);
    lemma_values_chunk_len_2(lang, tx, rows);
    lemma_values_chunk_len_3(lang, tx, rows);
}

/// The crown sits over the winning portrait only: the left slot is crowned
/// exactly when the left portrait won, the right slot exactly when the right
/// one won, and a crowned slot holds the crown.
pub proof fn lemma_crown_over_winner(lang: Language, tx: ReportTexts, rows: Seq<ReportAxisRow>)
    ensures
        forall|left_wins: bool, left: bool|
            #![trigger crown_text(left_wins, left)]
            crown_text(left_wins, left).len() > 0 <==> left == left_wins,
        report_field_names()[33] == "left_crown"@,
        report_field_names()[34] == "right_crown"@,
        report_field_values(lang, tx, rows)[33].len() > 0 <==> tx.left_wins,
        report_field_values(lang, tx, rows)[34].len() > 0 <==> !tx.left_wins,
        tx.left_wins ==> report_field_values(lang, tx, rows)[33]
            == "<div class=\"crown\">\u{1F451}</div>"@,
        !tx.left_wins ==> report_field_values(lang, tx, rows)[34]
            == "<div class=\"crown\">\u{1F451}</div>"@,
{
    reveal_strlit("");
    reveal_strlit("<div class=\"crown\">\u{1F451}</div>");
    lemma_values_chunk_lens(lang, tx, rows);
    reveal(report_field_values_4);
    let v = report_field_values(lang, tx, rows);
    let v4 = report_field_values_4(lang, tx, rows);
    assert(v[33] == v4[3]);
    assert(v[34] == v4[4]);
}

/// The share page's Winner card gets the winner's total and its Opponent
/// card the opponent's: the `winner_score` field holds the winner's total
/// and the `opponent_score` field the opponent's, whatever the battle.
pub proof fn lemma_share_scores_in_place(sx: ShareTexts)
    ensures
        share_field_names()[5] == "winner_score"@,
        share_field_values(sx)[5] == sx.winner_score@,
        share_field_names()[6] == "opponent_score"@,
        share_field_values(sx)[6] == sx.opponent_score@,
        share_field_names()[7] == "margin"@,
        share_field_values(sx)[7] == sx.margin@,
{
}

} // verus!
