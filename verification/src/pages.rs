//! The page layouts of battle reports and public share pages, to be filled
//! by `template::fill_template`. Each layout is kept in consecutive parts.
use vstd::prelude::*;
use crate::text::{chars_of, push_str_chars, string_of};

verus! {

/// Part 1 of 8 of the layout returned by [`report_page_template`].
pub const REPORT_PAGE_PART_1: &'static str = r#"<!doctype html>
<html lang="{lang_attr}">
  <head>
    <meta charset="utf-8" />
    <meta name="viewport" content="width=device-width, initial-scale=1" />
    <title>{product} ⚔ {winner_name} wins • {left} vs {right}</title>
    <style>
      :root {{
        --bg: #0a0d13;
        --panel: rgba(17, 23, 34, 0.88);
        --line: rgba(255, 255, 255, 0.09);
        --text: #f5efe4;
        --muted: #c7b9a5;
        --accent: #ff8f42;
        --accent-2: #63ebd3;
        --winner: #ffd36b;
        --left-color: #ff8f42;
        --right-color: #64b4ff;
        --green: #50ff78;
        --red: #ff4646;
        --rank-splus: #ffb3ff;
        --rank-s: #ffd36b;
        --rank-a: #50ff78;
        --rank-b: #63ebd3;
        --rank-c: #ff8f42;
        --rank-d: #ff8080;
        --rank-f: #666;
      }}
      * {{ box-sizing: border-box; }}
      body {{
        margin: 0;
        min-height: 100vh;
        color: var(--text);
        font-family: "Avenir Next", "Trebuchet MS", "Segoe UI", "Apple SD Gothic Neo", "Noto Sans KR", "Noto Sans JP", sans-serif;
        background:
          radial-gradient(circle at top left, rgba(255,143,66,0.24), transparent 36%),
          radial-gradient(circle at right center, rgba(99,235,211,0.14), transparent 28%),
          linear-gradient(145deg, #090b10 0%, #121824 100%);
      }}
      .shell {{
        width: min(1240px, calc(100vw - 32px));
        margin: 0 auto;
        padding: 28px 0 56px;
      }}
      .hero, .axis-row, .narrative-block, .portrait-card, .dual-block {{
        border: 1px solid var(--line);
        border-radius: 20px;
        background: var(--panel);
        backdrop-filter: blur(14px);
      }}
      .hero {{ padding: 28px; box-shadow: 0 24px 70px rgba(0,0,0,0.35); margin-bottom: 22px; text-align: center; }}
      .eyebrow {{ text-transform: uppercase; letter-spacing: 0.18em; font-size: 12px; color: var(--muted); }}
      .winner-pill {{
        display: inline-flex;
        align-items: center;
        gap: 10px;
        padding: 10px 18px;
        border-radius: 999px;
        background: rgba(255, 211, 107, 0.14);
        color: var(--winner);
        margin: 12px 0 8px;
        font-weight: 600;
      }}
      .decisive-badge {{
        display: inline-block;
        padding: 4px 10px;
        border-radius: 999px;
        background: var(--red);
        color: #fff;
        font-size: 11px;
        font-weight: 700;
        letter-spacing: 0.12em;
        margin-left: 8px;
      }}
      h1 {{ margin: 6px 0 4px; font-size: clamp(36px, 6vw, 72px); line-height: 0.95; text-transform: uppercase; color: var(--winner); }}
      h2.section-title {{ margin: 26px 0 12px; font-size: 18px; text-transform: uppercase; letter-spacing: 0.12em; color: var(--text); display: flex; align-items: center; gap: 10px; }}
      h2.section-title::before {{ content: ""; width: 4px; height: 20px; background: var(--accent); border-radius: 2px; }}
      p {{ line-height: 1.7; color: var(--muted); margin: 0; }}
"#;

/// Part 2 of 8 of the layout returned by [`report_page_template`].
pub const REPORT_PAGE_PART_2: &'static str = r#"      .verdict {{ font-size: 15px; color: var(--muted); margin-top: 6px; }}
      .rank-badge-big {{ display: inline-block; padding: 4px 14px; border-radius: 999px; font-weight: 800; font-size: 18px; margin: 0 6px; }}
      .rank-splus {{ background: rgba(255,179,255,0.2); color: var(--rank-splus); border: 1px solid var(--rank-splus); }}
      .rank-s {{ background: rgba(255,211,107,0.2); color: var(--rank-s); border: 1px solid var(--rank-s); }}
      .rank-a {{ background: rgba(80,255,120,0.2); color: var(--rank-a); border: 1px solid var(--rank-a); }}
      .rank-b {{ background: rgba(99,235,211,0.2); color: var(--rank-b); border: 1px solid var(--rank-b); }}
      .rank-c {{ background: rgba(255,143,66,0.2); color: var(--rank-c); border: 1px solid var(--rank-c); }}
      .rank-d {{ background: rgba(255,128,128,0.2); color: var(--rank-d); border: 1px solid var(--rank-d); }}
      .rank-f {{ background: rgba(100,100,100,0.2); color: var(--rank-f); border: 1px solid var(--rank-f); }}

      /* ── Battle Card: photos with stats strip on top ───────── */
      .battle-card {{
        display: grid;
        grid-template-columns: 1fr 1fr;
        gap: 12px;
        margin-bottom: 22px;
      }}
      .battle-side {{
        display: flex;
        flex-direction: column;
        border: 1px solid var(--line);
        border-radius: 20px;
        overflow: hidden;
        background: var(--panel);
        position: relative;
      }}
      .battle-side.is-winner {{
        border: 2px solid var(--winner);
        box-shadow: 0 0 30px rgba(255, 211, 107, 0.25);
      }}

      /* Name header above stats */
      .side-header {{
        padding: 14px 18px 10px;
        display: flex;
        align-items: center;
        justify-content: space-between;
        gap: 10px;
        background: linear-gradient(180deg, rgba(25,30,45,0.95) 0%, rgba(20,25,38,0.95) 100%);
      }}
      .side-name {{
        font-size: 18px;
        font-weight: 800;
        color: var(--text);
        word-break: break-all;
      }}
      .side-header .side-tag {{ flex-shrink: 0; }}
      .side-total {{
        display: flex;
        align-items: baseline;
        gap: 8px;
        padding: 0 18px 12px;
        background: linear-gradient(180deg, rgba(20,25,38,0.95) 0%, rgba(15,18,28,0.95) 100%);
      }}
      .side-total-label {{ font-size: 11px; color: var(--muted); text-transform: uppercase; letter-spacing: 0.12em; }}
      .side-total-value {{ font-size: 44px; font-weight: 900; color: var(--winner); font-variant-numeric: tabular-nums; line-height: 1; }}
      .side-total-rank {{ margin-left: 6px; }}

      /* Mini-stats strip */
      .mini-stats {{
        display: grid;
        grid-template-columns: repeat(5, 1fr);
        gap: 3px;
        padding: 10px;
        background: rgba(15,18,28,0.95);
        border-top: 1px solid var(--line);
        border-bottom: 2px solid var(--accent);
      }}
      .mini-stat {{
        display: flex;
        flex-direction: column;
"#;

/// Part 3 of 8 of the layout returned by [`report_page_template`].
pub const REPORT_PAGE_PART_3: &'static str = r#"        align-items: center;
        gap: 2px;
        padding: 7px 3px;
        border-radius: 8px;
        background: rgba(255,255,255,0.03);
      }}
      .mini-stat.mini-lead {{ background: rgba(80,255,120,0.15); box-shadow: inset 0 0 0 1px rgba(80,255,120,0.4); }}
      .mini-icon {{ font-size: 16px; line-height: 1; }}
      .mini-name {{ font-size: 9px; font-weight: 700; letter-spacing: 0.05em; text-transform: uppercase; color: var(--muted); }}
      .mini-score {{ font-size: 15px; font-weight: 800; color: var(--text); font-variant-numeric: tabular-nums; }}
      .mini-rank {{ font-size: 9px; font-weight: 700; padding: 1px 5px; border-radius: 6px; }}

      /* Photo frame — use contain so full face is visible */
      .photo-wrap {{
        position: relative;
        background: #000;
        min-height: 400px;
        display: flex;
        align-items: center;
        justify-content: center;
      }}
      .photo-wrap img {{
        display: block;
        max-width: 100%;
        max-height: 580px;
        width: auto;
        height: auto;
        object-fit: contain;
      }}
      .crown {{
        position: absolute;
        top: 12px;
        right: 12px;
        font-size: 32px;
        filter: drop-shadow(0 2px 8px rgba(0,0,0,0.9));
        z-index: 2;
      }}
      .side-tag {{
        display: inline-block;
        padding: 5px 12px;
        border-radius: 999px;
        font-size: 11px;
        font-weight: 800;
        letter-spacing: 0.14em;
      }}
      .tag-left {{ background: var(--left-color); color: #000; }}
      .tag-right {{ background: var(--right-color); color: #000; }}

      /* ── Dual Score Dashboard ──────────────────────────────── */
      .dual-dashboard {{
        display: grid;
        grid-template-columns: repeat(auto-fit, minmax(320px, 1fr));
        gap: 14px;
        margin-bottom: 22px;
      }}
      .dual-block {{ padding: 18px 22px; }}
      .dual-header {{ display: flex; align-items: center; gap: 10px; font-size: 12px; text-transform: uppercase; letter-spacing: 0.12em; color: var(--muted); margin-bottom: 12px; }}
      .dual-icon {{ color: var(--accent-2); font-size: 18px; }}
      .dual-scores {{ display: flex; align-items: center; justify-content: space-between; gap: 12px; }}
      .dual-score {{ text-align: center; flex: 1; }}
      .dual-score small {{ display: block; color: var(--muted); font-size: 11px; letter-spacing: 0.08em; text-transform: uppercase; margin-bottom: 6px; }}
      .dual-score strong {{ font-size: 32px; font-weight: 800; color: var(--text); }}
      .dual-vs {{ color: var(--accent); font-weight: 700; font-size: 14px; letter-spacing: 0.15em; }}

      /* ── Summary Comparison Table ───────────────────────────── */
      .summary-table {{
        width: 100%;
        border-collapse: collapse;
        border: 1px solid var(--line);
        border-radius: 16px;
        overflow: hidden;
        background: var(--panel);
      }}
"#;

/// Part 4 of 8 of the layout returned by [`report_page_template`].
pub const REPORT_PAGE_PART_4: &'static str = r#"      .summary-table th, .summary-table td {{ padding: 12px 14px; text-align: left; border-bottom: 1px solid var(--line); font-size: 14px; }}
      .summary-table tr:last-child td {{ border-bottom: none; }}
      .summary-table th {{
        background: rgba(25,30,45,0.95);
        color: var(--accent);
        font-size: 12px;
        text-transform: uppercase;
        letter-spacing: 0.1em;
        font-weight: 700;
      }}
      .summary-table th small {{ display: block; color: var(--muted); font-size: 10px; font-weight: 500; margin-top: 2px; }}
      .sum-axis {{ display: flex; align-items: center; gap: 8px; font-weight: 600; }}
      .sum-icon {{ font-size: 16px; }}
      .sum-num {{ font-variant-numeric: tabular-nums; font-weight: 600; }}
      .sum-num.sum-lead {{ color: var(--green); }}
      .sum-winner {{ text-align: center; font-weight: 800; width: 40px; }}
      .sum-left {{ color: var(--left-color); }}
      .sum-right {{ color: var(--right-color); }}
      .sum-tie {{ color: var(--accent-2); }}
      .sum-gap {{ font-variant-numeric: tabular-nums; color: var(--muted); width: 60px; text-align: right; }}
      .rank-mini {{ display: inline-block; font-size: 9px; padding: 1px 5px; border-radius: 5px; margin-left: 4px; font-weight: 700; }}
      .summary-caption {{ margin-top: 10px; font-size: 13px; color: var(--muted); text-align: center; }}

      /* ── Detailed Axis Rows ────────────────────────────────── */
      .axis-row {{
        display: grid;
        grid-template-columns: 240px 1fr;
        gap: 18px;
        align-items: center;
        padding: 14px 20px;
        margin-bottom: 8px;
      }}
      .axis-meta {{ display: flex; flex-direction: column; gap: 3px; }}
      .axis-head {{ display: flex; align-items: center; gap: 8px; }}
      .axis-icon {{ font-size: 18px; }}
      .axis-name {{ font-weight: 700; font-size: 14px; color: var(--text); }}
      .axis-desc {{ font-size: 11px; color: var(--muted); letter-spacing: 0.02em; }}
      .axis-track {{ display: grid; grid-template-columns: 1fr 52px 1fr; align-items: center; gap: 10px; }}
      .axis-side {{ display: flex; align-items: center; gap: 6px; }}
      .axis-side:not(.axis-side-right) {{ justify-content: flex-end; }}
      .axis-num {{ font-variant-numeric: tabular-nums; font-size: 12px; color: var(--muted); min-width: 30px; text-align: right; }}
      .axis-side-right .axis-num {{ text-align: left; }}
      .axis-rank {{ font-size: 9px; font-weight: 700; padding: 1px 5px; border-radius: 5px; }}
      .bar {{
        height: 10px;
        border-radius: 5px;
        background: linear-gradient(90deg, rgba(255,143,66,0.5), rgba(255,143,66,0.85));
        min-width: 2%;
      }}
      .axis-side-right .bar {{ background: linear-gradient(90deg, rgba(100,180,255,0.85), rgba(100,180,255,0.5)); }}
      .bar-lead {{ background: linear-gradient(90deg, rgba(80,255,120,0.7), rgba(80,255,120,1)) !important; }}
      .gap {{
        text-align: center;
"#;

/// Part 5 of 8 of the layout returned by [`report_page_template`].
pub const REPORT_PAGE_PART_5: &'static str = r#"        font-weight: 700;
        font-size: 13px;
        font-variant-numeric: tabular-nums;
      }}
      .gap-win {{ color: var(--green); }}
      .gap-lose {{ color: var(--red); }}
      .gap-tie {{ color: var(--accent-2); }}

      /* ── Portrait Analysis Cards ──────────────────────────── */
      .portrait-grid {{ display: grid; grid-template-columns: repeat(auto-fit, minmax(320px, 1fr)); gap: 16px; }}
      .portrait-card {{ padding: 22px; }}
      .portrait-card.is-winner {{ border-color: var(--winner); box-shadow: 0 0 0 1px var(--winner); }}
      .portrait-header {{ display: flex; align-items: center; gap: 12px; margin-bottom: 16px; }}
      .portrait-header h3 {{ margin: 0; font-size: 22px; }}
      .pa-block {{ margin-bottom: 14px; }}
      .pa-label {{ font-size: 11px; text-transform: uppercase; letter-spacing: 0.14em; color: var(--muted); margin-bottom: 4px; font-weight: 700; }}
      .pa-block p {{ color: var(--text); font-size: 14px; }}

      /* ── Narrative Blocks ──────────────────────────────────── */
      .narrative-grid {{ display: grid; grid-template-columns: repeat(auto-fit, minmax(280px, 1fr)); gap: 16px; margin-top: 12px; }}
      .narrative-block {{ padding: 20px; }}
      .narrative-block h3 {{ margin: 0 0 10px; font-size: 15px; text-transform: uppercase; letter-spacing: 0.1em; color: var(--accent); }}
      .narrative-block p {{ color: var(--text); font-size: 14px; }}

      footer {{ margin-top: 30px; color: var(--muted); font-size: 13px; text-align: center; }}

      @media (max-width: 720px) {{
        .battle-card {{ grid-template-columns: 1fr; }}
        .axis-row {{ grid-template-columns: 1fr; }}
        .mini-stats {{ grid-template-columns: repeat(5, 1fr); }}
      }}

      /* ── Street Fighter overlay — aggressive arcade aesthetic ───────── */
      @import url("https://fonts.googleapis.com/css2?family=Bebas+Neue&family=Orbitron:wght@600;700;900&display=swap");
      body {{
        background:
          radial-gradient(circle at 18% 26%, rgba(255, 70, 70, 0.32), transparent 38%),
          radial-gradient(circle at 82% 74%, rgba(64, 158, 255, 0.32), transparent 38%),
          repeating-linear-gradient(
            0deg,
            rgba(255,255,255,0.025) 0px,
            rgba(255,255,255,0.025) 1px,
            transparent 1px,
            transparent 4px
          ),
          linear-gradient(145deg, #060810 0%, #0e1320 100%);
      }}
      h1, .section-title, .side-name, .side-total-value, .dual-score strong, .winner-name {{
        font-family: "Orbitron", "Bebas Neue", "Avenir Next", sans-serif !important;
        letter-spacing: 0.04em !important;
      }}
      .hero h1 {{
        font-family: "Bebas Neue", "Orbitron", sans-serif !important;
        font-size: clamp(56px, 9vw, 110px) !important;
        letter-spacing: 0.1em !important;
        text-transform: uppercase;
        background: linear-gradient(180deg, #ffe9a8 0%, var(--winner) 50%, #ff8a3c 100%);
"#;

/// Part 6 of 8 of the layout returned by [`report_page_template`].
pub const REPORT_PAGE_PART_6: &'static str = r#"        -webkit-background-clip: text;
        -webkit-text-fill-color: transparent;
        background-clip: text;
        text-shadow: 0 0 28px rgba(255, 211, 107, 0.45);
        animation: sf-pulse 1.6s ease-in-out infinite alternate;
      }}
      @keyframes sf-pulse {{
        from {{ filter: drop-shadow(0 0 8px rgba(255, 211, 107, 0.4)); }}
        to {{ filter: drop-shadow(0 0 22px rgba(255, 211, 107, 0.85)); }}
      }}
      .verdict {{
        font-family: "Bebas Neue", "Orbitron", sans-serif !important;
        font-size: clamp(20px, 2.4vw, 28px) !important;
        letter-spacing: 0.18em !important;
        text-transform: uppercase;
        color: #ff5252 !important;
      }}
      .winner-pill {{
        background: linear-gradient(90deg, rgba(255,70,70,0.25), rgba(255,211,107,0.35), rgba(64,158,255,0.25)) !important;
        border: 1px solid rgba(255, 211, 107, 0.6);
        text-transform: uppercase;
        letter-spacing: 0.16em;
        font-family: "Orbitron", sans-serif;
        font-weight: 700 !important;
        box-shadow: 0 0 30px rgba(255, 211, 107, 0.25);
      }}
      .battle-card {{ position: relative; }}
      .battle-card::before {{
        content: "VS";
        position: absolute;
        top: 50%;
        left: 50%;
        transform: translate(-50%, -50%);
        font-family: "Bebas Neue", "Orbitron", sans-serif;
        font-size: clamp(60px, 12vw, 160px);
        font-weight: 900;
        letter-spacing: 0.1em;
        background: linear-gradient(180deg, #ffd36b 0%, #ff4646 100%);
        -webkit-background-clip: text;
        -webkit-text-fill-color: transparent;
        background-clip: text;
        text-shadow: 0 0 30px rgba(255, 70, 70, 0.5);
        pointer-events: none;
        z-index: 5;
        opacity: 0.9;
        animation: sf-vs-flicker 2s ease-in-out infinite;
      }}
      @keyframes sf-vs-flicker {{
        0%, 100% {{ opacity: 0.92; transform: translate(-50%, -50%) scale(1); }}
        50% {{ opacity: 0.65; transform: translate(-50%, -50%) scale(1.04); }}
      }}
      .battle-side[class*="left"], .battle-side:first-child {{
        border-left: 6px solid var(--red) !important;
        box-shadow: -8px 0 32px rgba(255, 70, 70, 0.18);
      }}
      .battle-side:last-child {{
        border-right: 6px solid #4a9eff !important;
        box-shadow: 8px 0 32px rgba(64, 158, 255, 0.18);
      }}
      .battle-side.is-winner {{
        border-color: var(--winner) !important;
        box-shadow: 0 0 60px rgba(255, 211, 107, 0.4) !important;
      }}
      .side-name {{
        text-transform: uppercase;
        letter-spacing: 0.16em;
        font-weight: 900 !important;
      }}
      .side-total-value {{
        font-family: "Bebas Neue", "Orbitron", sans-serif !important;
        font-size: clamp(54px, 6vw, 76px) !important;
        letter-spacing: 0.05em !important;
        text-shadow: 0 0 18px currentColor;
      }}
      /* Health-bar style score row above each portrait */
"#;

/// Part 7 of 8 of the layout returned by [`report_page_template`].
pub const REPORT_PAGE_PART_7: &'static str = r#"      .side-total {{ position: relative; }}
      .side-total::before {{
        content: "";
        position: absolute;
        bottom: 0;
        left: 0;
        height: 4px;
        width: 100%;
        background: linear-gradient(90deg, #ff4646, #ffd36b, #50ff78);
        opacity: 0.85;
        box-shadow: 0 0 12px rgba(255, 211, 107, 0.6);
      }}
      .rank-badge-big {{
        font-family: "Orbitron", sans-serif !important;
        font-weight: 900 !important;
        letter-spacing: 0.08em !important;
        text-shadow: 0 0 12px currentColor;
      }}
      .section-title {{
        font-family: "Bebas Neue", "Orbitron", sans-serif !important;
        font-size: 26px !important;
        letter-spacing: 0.18em !important;
        color: var(--accent) !important;
      }}
      .section-title::before {{ content: "▸ "; color: var(--red); }}
    </style>
  </head>
  <body>
    <main class="shell">
      <section class="hero">
        <div class="eyebrow">{product} • {judge}</div>
        <div class="winner-pill">🏆 {winner_label_text} • {winner_name}{decisive}</div>
        <h1>{winner_name} <span class="rank-badge-big {wrc}">{wrank}</span></h1>
        <p class="verdict">{verdict}</p>
        <p style="margin-top:10px;">{winner_name} <strong style="color:var(--winner);">{winner_total}</strong> vs {loser_label} <strong style="color:var(--muted);">{loser_total}</strong> <span class="rank-badge-big {lrc}">{lrank}</span></p>
      </section>

      <section class="battle-card">
        <div class="battle-side {left_winner_class}">
          <div class="side-header">
            <span class="side-name">{left}</span>
            <span class="side-tag tag-left">◀ {left_tag}</span>
          </div>
          <div class="side-total">
            <span class="side-total-label">{score_label}</span>
            <span class="side-total-value">{left_total}</span>
            <span class="rank-badge-big {left_rank_class} side-total-rank">{left_rank}</span>
          </div>
          <div class="mini-stats">{left_mini}</div>
          <div class="photo-wrap">
            {left_crown}
            <img alt="{left}" src="{left_src}" />
          </div>
        </div>
        <div class="battle-side {right_winner_class}">
          <div class="side-header">
            <span class="side-name">{right}</span>
            <span class="side-tag tag-right">{right_tag} ▶</span>
          </div>
          <div class="side-total">
            <span class="side-total-label">{score_label}</span>
            <span class="side-total-value">{right_total}</span>
            <span class="rank-badge-big {right_rank_class} side-total-rank">{right_rank}</span>
          </div>
          <div class="mini-stats">{right_mini}</div>
          <div class="photo-wrap">
            {right_crown}
            <img alt="{right}" src="{right_src}" />
          </div>
        </div>
      </section>

      {dual_dashboard}

      {summary_table}

      <section>
"#;

/// Part 8 of 8 of the layout returned by [`report_page_template`].
pub const REPORT_PAGE_PART_8: &'static str = r#"        <h2 class="section-title">📐 {detail_title}</h2>
        <div class="axis-list">{axis_bars}</div>
      </section>

      {portrait_analysis}

      <section>
        <h2 class="section-title">{analysis_title}</h2>
        <div class="narrative-grid">
          <section class="narrative-block"><h3>💬 {overall_take_title}</h3><p>{overall}</p></section>
          <section class="narrative-block"><h3>🏆 {why_title}</h3><p>{why}</p></section>
          <section class="narrative-block"><h3>📝 {jury_title}</h3><p>{notes}</p></section>
        </div>
      </section>

      <footer>{generated_label} {created_at} • {product}</footer>
    </main>
  </body>
</html>"#;

/// The HTML page of a battle report. Its fields are the labels, scores,
/// ranks, portraits and texts of the battle, already escaped for HTML.
pub open spec fn report_page_template_text() -> Seq<char> {
    REPORT_PAGE_PART_1@ + REPORT_PAGE_PART_2@ + REPORT_PAGE_PART_3@ + REPORT_PAGE_PART_4@ + REPORT_PAGE_PART_5@ + REPORT_PAGE_PART_6@ + REPORT_PAGE_PART_7@ + REPORT_PAGE_PART_8@
}

/// The HTML page of a battle report. Its fields are the labels, scores,
/// ranks, portraits and texts of the battle, already escaped for HTML.
pub fn report_page_template() -> (r: String)
    ensures
        r@ == report_page_template_text(),
{
    let mut out = chars_of(REPORT_PAGE_PART_1);
    push_str_chars(&mut out, REPORT_PAGE_PART_2);
    push_str_chars(&mut out, REPORT_PAGE_PART_3);
    push_str_chars(&mut out, REPORT_PAGE_PART_4);
    push_str_chars(&mut out, REPORT_PAGE_PART_5);
    push_str_chars(&mut out, REPORT_PAGE_PART_6);
    push_str_chars(&mut out, REPORT_PAGE_PART_7);
    push_str_chars(&mut out, REPORT_PAGE_PART_8);
    string_of(&out)
}

/// Part 1 of 3 of the layout returned by [`share_page_template`].
pub const SHARE_PAGE_PART_1: &'static str = r#"<!doctype html>
<html lang="en">
  <head>
    <meta charset="utf-8" />
    <meta name="viewport" content="width=device-width, initial-scale=1" />
    <title>{title}</title>
    <meta name="description" content="{description}" />
    <meta property="og:type" content="website" />
    <meta property="og:title" content="{title}" />
    <meta property="og:description" content="{description}" />
    <meta property="og:image" content="{preview_image_url}" />
    <meta name="twitter:card" content="summary_large_image" />
    <meta name="twitter:title" content="{title}" />
    <meta name="twitter:description" content="{description}" />
    <meta name="twitter:image" content="{preview_image_url}" />
    <style>
      :root {{
        color-scheme: dark;
        --bg: #0b0f17;
        --panel: #111827;
        --text: #f4f7fb;
        --muted: #a9b4c7;
        --accent: #ff8f42;
        --accent-2: #63ebd3;
        --line: rgba(255,255,255,0.1);
      }}
      * {{ box-sizing: border-box; }}
      body {{
        margin: 0;
        font-family: ui-sans-serif, system-ui, -apple-system, BlinkMacSystemFont, "Segoe UI", sans-serif;
        background:
          radial-gradient(circle at top left, rgba(255,143,66,0.22), transparent 28%),
          radial-gradient(circle at top right, rgba(99,235,211,0.18), transparent 24%),
          var(--bg);
        color: var(--text);
      }}
      main {{
        max-width: 880px;
        margin: 0 auto;
        padding: 32px 20px 48px;
      }}
      .eyebrow {{
        color: var(--accent-2);
        font-size: 12px;
        font-weight: 700;
        letter-spacing: 0.14em;
        text-transform: uppercase;
      }}
      h1 {{
        margin: 12px 0 6px;
        font-size: clamp(34px, 6vw, 60px);
        line-height: 1;
      }}
      p {{
        color: var(--muted);
        line-height: 1.6;
      }}
      .hero {{
        background: linear-gradient(180deg, rgba(255,255,255,0.04), rgba(255,255,255,0.02));
        border: 1px solid var(--line);
        border-radius: 26px;
        padding: 28px;
      }}
      .image-wrap {{
        margin-top: 22px;
        overflow: hidden;
        border-radius: 22px;
        border: 1px solid var(--line);
        background: rgba(255,255,255,0.02);
      }}
      img {{
        display: block;
        width: 100%;
        height: auto;
      }}
      .stats {{
        display: grid;
        grid-template-columns: repeat(auto-fit, minmax(180px, 1fr));
        gap: 12px;
        margin-top: 18px;
      }}
      .card {{
        background: var(--panel);
        border: 1px solid var(--line);
        border-radius: 18px;
        padding: 16px;
      }}
      .card strong {{
        display: block;
        font-size: 24px;
        margin-top: 6px;
        color: var(--text);
      }}
      .actions {{
        display: flex;
        flex-wrap: wrap;
        gap: 12px;
        margin-top: 24px;
      }}
      .button {{
        display: inline-flex;
        align-items: center;
"#;

/// Part 2 of 3 of the layout returned by [`share_page_template`].
pub const SHARE_PAGE_PART_2: &'static str = r#"        justify-content: center;
        padding: 12px 16px;
        border-radius: 999px;
        border: 1px solid var(--line);
        color: var(--text);
        text-decoration: none;
        font-weight: 700;
      }}
      .button.primary {{
        background: var(--accent);
        color: #1a0c00;
        border-color: transparent;
      }}

      /* ── Street Fighter overlay ─────────────────────────────────────── */
      @import url("https://fonts.googleapis.com/css2?family=Bebas+Neue&family=Orbitron:wght@600;700;900&display=swap");
      body {{
        background:
          radial-gradient(circle at 18% 26%, rgba(255, 70, 70, 0.32), transparent 38%),
          radial-gradient(circle at 82% 74%, rgba(64, 158, 255, 0.32), transparent 38%),
          repeating-linear-gradient(0deg, rgba(255,255,255,0.025) 0, rgba(255,255,255,0.025) 1px, transparent 1px, transparent 4px),
          var(--bg);
      }}
      .eyebrow {{
        font-family: "Orbitron", sans-serif !important;
        font-weight: 700;
        font-size: 13px !important;
        letter-spacing: 0.32em !important;
      }}
      h1 {{
        font-family: "Bebas Neue", "Orbitron", sans-serif !important;
        font-size: clamp(48px, 9vw, 96px) !important;
        letter-spacing: 0.08em !important;
        text-transform: uppercase;
        background: linear-gradient(180deg, #ffe9a8 0%, #ffd36b 50%, #ff8a3c 100%);
        -webkit-background-clip: text;
        -webkit-text-fill-color: transparent;
        background-clip: text;
        text-shadow: 0 0 26px rgba(255, 211, 107, 0.4);
        animation: sf-pulse 1.6s ease-in-out infinite alternate;
      }}
      @keyframes sf-pulse {{
        from {{ filter: drop-shadow(0 0 6px rgba(255, 211, 107, 0.35)); }}
        to {{ filter: drop-shadow(0 0 22px rgba(255, 211, 107, 0.85)); }}
      }}
      .stats {{
        display: grid !important;
        grid-template-columns: 1fr auto 1fr;
        gap: 12px;
        margin-top: 18px;
      }}
      .stats .card {{
        font-family: "Orbitron", sans-serif;
        font-weight: 700;
        text-transform: uppercase;
        letter-spacing: 0.16em;
        font-size: 12px;
        color: var(--muted);
        text-align: center;
        padding: 14px;
        border: 1px solid var(--line);
        border-radius: 14px;
      }}
      .stats .card strong {{
        display: block;
        margin-top: 6px;
        font-family: "Bebas Neue", "Orbitron", sans-serif;
        font-size: 36px;
        letter-spacing: 0.06em;
        color: var(--accent);
        text-shadow: 0 0 14px rgba(255, 143, 66, 0.6);
      }}
      .stats .card:nth-child(1) {{ border-left: 4px solid #ff4646; }}
      .stats .card:nth-child(3) {{ border-right: 4px solid #4a9eff; }}
      .button.primary {{
        font-family: "Orbitron", sans-serif;
        text-transform: uppercase;
        letter-spacing: 0.18em;
        background: linear-gradient(90deg, #ff4646 0%, #ffd36b 50%, #4a9eff 100%);
"#;

/// Part 3 of 3 of the layout returned by [`share_page_template`].
pub const SHARE_PAGE_PART_3: &'static str = r#"        color: #0a0d13;
        box-shadow: 0 0 24px rgba(255, 211, 107, 0.45);
      }}
      .button {{
        font-family: "Orbitron", sans-serif;
        letter-spacing: 0.14em;
        text-transform: uppercase;
        font-size: 13px;
      }}
    </style>
  </head>
  <body>
    <main>
      <section class="hero">
        <div class="eyebrow">BetterThanYou public share</div>
        <h1>{winner}</h1>
        <p>{description}</p>
        <div class="stats">
          <div class="card">Winner<strong>{winner_score}</strong></div>
          <div class="card">Opponent<strong>{opponent_score}</strong></div>
          <div class="card">Margin<strong>+{margin}</strong></div>
        </div>
        <div class="image-wrap">
          <img src="{preview_image_url}" alt="{winner} public preview card" />
        </div>
        <div class="actions">
          <a class="button primary" href="{report_url}">Open full battle report</a>
          <a class="button" href="{preview_image_url}">Open public preview image</a>
        </div>
      </section>
    </main>
  </body>
</html>"#;

/// The public share page of a battle, with its social preview metadata.
/// Its fields are already escaped for HTML.
pub open spec fn share_page_template_text() -> Seq<char> {
    SHARE_PAGE_PART_1@ + SHARE_PAGE_PART_2@ + SHARE_PAGE_PART_3@
}

/// The public share page of a battle, with its social preview metadata.
/// Its fields are already escaped for HTML.
pub fn share_page_template() -> (r: String)
    ensures
        r@ == share_page_template_text(),
{
    let mut out = chars_of(SHARE_PAGE_PART_1);
    push_str_chars(&mut out, SHARE_PAGE_PART_2);
    push_str_chars(&mut out, SHARE_PAGE_PART_3);
    string_of(&out)
}

} // verus!
