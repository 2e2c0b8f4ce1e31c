use better_than_you::pages::{report_page_template, share_page_template};
use better_than_you::template::fill_template;

fn fields(pairs: &[(&str, &str)]) -> Vec<(String, String)> {
    pairs.iter().map(|(k, v)| (k.to_string(), v.to_string())).collect()
}

#[test]
fn placeholders_take_field_values() {
    let f = fields(&[("name", "Nova"), ("score", "91.5"), ("name", "ignored")]);
    assert_eq!(fill_template("Winner: {name} ({score})", &f), "Winner: Nova (91.5)");
    assert_eq!(fill_template("a {{b}} c", &f), "a {b} c");
    assert_eq!(fill_template("{unknown} {name}", &f), "{unknown} Nova");
    assert_eq!(fill_template("open { brace", &f), "open { brace");
    assert_eq!(fill_template("lone } brace", &f), "lone } brace");
    assert_eq!(fill_template("", &f), "");
}

#[test]
fn page_layouts_fill_their_fields() {
    let share = share_page_template();
    assert!(share.starts_with("<!doctype html>"));
    assert!(share.contains("{preview_image_url}"));
    let f = fields(&[
        ("title", "Nova wins"),
        ("description", "Caption line"),
        ("preview_image_url", "https://cdn.example.com/preview.png"),
        ("report_url", "https://cdn.example.com/report.html"),
        ("winner", "Nova"),
        ("winner_score", "81.0"),
        ("opponent_score", "72.5"),
        ("margin", "8.5"),
    ]);
    let page = fill_template(&share, &f);
    assert!(page.contains("og:image"));
    assert!(page.contains("twitter:card"));
    assert!(page.contains("content=\"https://cdn.example.com/preview.png\""));
    assert!(page.contains("<strong>+8.5</strong>"));
    assert!(!page.contains("{{"));
    let report = report_page_template();
    assert!(report.contains("{winner_name}"));
    assert!(report.contains("{{"));
}
