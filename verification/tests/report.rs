use better_than_you::battle::Intensity;
use better_than_you::i18n::Language;
use better_than_you::report::{report_page, share_page, Lead, ReportAxisRow, ReportTexts, ShareTexts};

fn s(v: &str) -> String {
    v.to_string()
}

fn row(key: &str, lead: Lead) -> ReportAxisRow {
    ReportAxisRow {
        key: s(key),
        lead,
        left_score: s("82"),
        right_score: s("75"),
        left_num: s("82.4"),
        right_num: s("75.1"),
        left_pct: s("82.4"),
        right_pct: s("75.1"),
        left_rank: s("A"),
        left_rank_class: s("rank-a"),
        right_rank: s("B"),
        right_rank_class: s("rank-b"),
        diff_whole: s("7"),
        diff: s("7.3"),
    }
}

fn texts(left: &str) -> ReportTexts {
    ReportTexts {
        left_label: s(left),
        right_label: s("Nova"),
        winner_label: s(left),
        left_wins: true,
        intensity: Intensity::Clear,
        decisive: true,
        winner_total: s("81.0"),
        loser_total: s("72.5"),
        left_total: s("81.0"),
        right_total: s("72.5"),
        margin: s("8.5"),
        winner_rank: s("A"),
        winner_rank_class: s("rank-a"),
        loser_rank: s("B"),
        loser_rank_class: s("rank-b"),
        left_rank: s("A"),
        left_rank_class: s("rank-a"),
        right_rank: s("B"),
        right_rank_class: s("rank-b"),
        judge: s("gpt-5.4-mini"),
        overall: s("A close <b>fight</b>."),
        why: s("Sharper eyes."),
        notes: s("Heuristic notes."),
        strengths_left: s("Symmetry"),
        strengths_right: s("Lighting"),
        weaknesses_left: s("Framing"),
        weaknesses_right: s("Skin"),
        left_src: s("data:image/png;base64,AAAA"),
        right_src: s("data:image/png;base64,BBBB"),
        created_at: s("2026-04-27T18:45:02Z"),
        heuristic_totals: Some((s("70.0"), s("68.0"))),
        vlm_totals: None,
    }
}

#[test]
fn report_pages_escape_every_battle_text() {
    let rows = vec![row("skin_quality", Lead::Left), row("eye_expression", Lead::Tie)];
    let page = report_page(Language::English, &texts("<script>alert(1)</script>"), &rows);
    assert!(page.contains("&lt;script&gt;alert(1)&lt;/script&gt;"));
    assert!(!page.to_lowercase().contains("<script"));
    assert!(page.contains("A close &lt;b&gt;fight&lt;/b&gt;."));
    assert!(page.contains("lang=\"en\""));
    assert!(page.contains("clearly outpaced Nova"));
    assert!(page.contains("<div class=\"crown\">\u{1F451}</div>"));
    assert!(page.contains("1 wins</small>"));
    assert!(page.contains("1 ties \u{2022} Margin: 8.5 points"));
    assert!(page.contains("class=\"gap gap-win\">+7"));
    assert!(page.contains("data:image/png;base64,AAAA"));
    assert!(page.contains("dual-dashboard"));
}

#[test]
fn report_pages_carry_the_language_code() {
    let rows = vec![row("bone_structure", Lead::Right)];
    let page = report_page(Language::Korean, &texts("Aurora"), &rows);
    assert!(page.contains("lang=\"ko\""));
    assert!(page.contains("class=\"gap gap-lose\">-7"));
    let page = report_page(Language::Japanese, &texts("Aurora"), &rows);
    assert!(page.contains("lang=\"ja\""));
}

#[test]
fn portraits_and_time_go_into_the_report_as_they_are() {
    let rows = vec![row("skin_quality", Lead::Left)];
    let mut tx = texts("Aurora");
    tx.left_src = s("data:image/png;base64,A&B");
    tx.created_at = s("2026-04-27 18:45 <UTC>");
    let page = report_page(Language::English, &tx, &rows);
    assert!(page.contains("src=\"data:image/png;base64,A&B\""));
    assert!(page.contains("2026-04-27 18:45 <UTC>"));
}

#[test]
fn share_pages_carry_social_meta() {
    let sx = ShareTexts {
        winner_label: s("Nova"),
        loser_label: s("Aurora & co"),
        caption: s("Caption line\nsecond"),
        why: s("Sharper eyes."),
        preview_image_url: s("https://cdn.example.com/preview.png"),
        report_url: s("https://cdn.example.com/report.html"),
        winner_score: s("81.0"),
        opponent_score: s("72.5"),
        margin: s("8.5"),
    };
    let page = share_page(&sx);
    assert!(page.contains("og:image"));
    assert!(page.contains("twitter:card"));
    assert!(page.contains("https://cdn.example.com/preview.png"));
    assert!(page.contains("https://cdn.example.com/report.html"));
    assert!(page.contains("Nova wins the BetterThanYou battle over Aurora &amp; co"));
    assert!(page.contains("Caption line second Margin +8.5. Sharper eyes."));
}
