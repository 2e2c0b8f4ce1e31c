use better_than_you::terminal::{
    boxed_title, game_panel, pad_center, paint, render_open_summary, render_report_summary,
    SavedArtifacts, ANSI_DIM, ANSI_RED,
};

#[test]
fn painting_wraps_in_colour_and_reset() {
    assert_eq!(paint("hi", ANSI_RED, true), "\u{1b}[38;2;255;70;70mhi\u{1b}[0m");
    assert_eq!(paint("hi", ANSI_RED, false), "hi");
}

#[test]
fn centring_pads_by_bytes() {
    assert_eq!(pad_center("ab", 6), "  ab  ");
    assert_eq!(pad_center("abc", 6), " abc  ");
    assert_eq!(pad_center("abcdef", 3), "abcdef");
    assert_eq!(pad_center("\u{e9}", 4), " \u{e9} ");
}

#[test]
fn titles_are_boxed() {
    let lines = boxed_title("HI", "", 10, false);
    assert_eq!(lines[0], "\u{2554}\u{2550}\u{2550}\u{2550}\u{2550}\u{2550}\u{2550}\u{2557}");
    assert_eq!(lines[1], "\u{2551}  HI  \u{2551}");
    assert_eq!(lines[2], "\u{255a}\u{2550}\u{2550}\u{2550}\u{2550}\u{2550}\u{2550}\u{255d}");
    let painted = boxed_title("HI", ANSI_DIM, 10, true);
    assert_eq!(painted[1], format!("{}\u{2551}  HI  \u{2551}\u{1b}[0m", ANSI_DIM));
}

#[test]
fn panels_clip_their_body() {
    let body = vec!["abcdefghij".to_string(), "x".to_string()];
    let lines = game_panel("T", &body, 10, "", false);
    assert_eq!(
        lines,
        vec![
            "\u{250c}\u{2500}\u{2500}\u{2500}\u{2500}\u{2500}\u{2500}\u{2510}".to_string(),
            "\u{2502} \u{25c6} T \u{25c6} \u{2502}".to_string(),
            "\u{251c}\u{2500}\u{2500}\u{2500}\u{2500}\u{2500}\u{2500}\u{2524}".to_string(),
            "\u{2502} abcd \u{2502}".to_string(),
            "\u{2502} x    \u{2502}".to_string(),
            "\u{2514}\u{2500}\u{2500}\u{2500}\u{2500}\u{2500}\u{2500}\u{2518}".to_string(),
        ]
    );
}

#[test]
fn report_summaries_list_the_files() {
    let report = SavedArtifacts {
        html_path: "/r/a.html".to_string(),
        json_path: "/r/a.json".to_string(),
        latest_html_path: "/r/latest-battle.html".to_string(),
        latest_json_path: "/r/latest-battle.json".to_string(),
    };
    let text = render_report_summary(&report, false);
    let expected = format!(
        "\u{2554}{}\u{2557}\n\u{2551}{}BETTERTHANYOU // REPORT REBUILT{}\u{2551}\n\u{255a}{}\u{255d}\nHTML report : /r/a.html\nJSON result : /r/a.json",
        "\u{2550}".repeat(80),
        " ".repeat(24),
        " ".repeat(25),
        "\u{2550}".repeat(80),
    );
    assert_eq!(text, expected);
    assert_eq!(render_open_summary("/r/a.html", false), "Opened: /r/a.html");
    assert_eq!(
        render_open_summary("/r/a.html", true),
        format!("{}Opened: /r/a.html\u{1b}[0m", ANSI_DIM)
    );
}
