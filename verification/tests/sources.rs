use better_than_you::sources::{complete_sources, fill_sources_from_lines};
use better_than_you::sources::{
    apply_paste, base64_without_line_breaks, classify_source, clean_path, data_url_payload,
    default_reports_dir, first_two_lines, infer_mime_type, label_from_source, looks_like_base64,
    normalize_input, normalize_source_input, parse_data_url, portrait_label, source_type_label,
    split_input_lines, SourceKind,
};

#[test]
fn mime_types_follow_the_extension() {
    assert_eq!(infer_mime_type("photo.JPG"), "image/jpeg");
    assert_eq!(infer_mime_type("shot.jpeg"), "image/jpeg");
    assert_eq!(infer_mime_type("data:image/jpeg;base64,xx"), "image/jpeg");
    assert_eq!(infer_mime_type("a.webp"), "image/webp");
    assert_eq!(infer_mime_type("a.png"), "image/png");
    assert_eq!(infer_mime_type("a.gif"), "image/png");
}

#[test]
fn sources_are_unquoted_unescaped_and_expanded() {
    assert_eq!(normalize_source_input("  '/tmp/my\\ photo.png'  ", None), "/tmp/my photo.png");
    assert_eq!(normalize_source_input("\"/tmp/a b.png\"", None), "/tmp/a b.png");
    assert_eq!(normalize_source_input("~/pics/a.png", Some("/home/u")), "/home/u/pics/a.png");
    assert_eq!(normalize_source_input("~/pics/a.png", Some("/home/u/")), "/home/u/pics/a.png");
    assert_eq!(normalize_source_input("~/pics/a.png", None), "~/pics/a.png");
    assert_eq!(normalize_source_input("~//etc/x", Some("/home/u")), "/etc/x");
    assert_eq!(normalize_source_input("\"\"", None), "");
    assert_eq!(default_reports_dir("/opt/app"), "/opt/app/reports");
}

#[test]
fn labels_come_from_file_stems() {
    assert_eq!(label_from_source("data:image/png;base64,AAA", None), None);
    assert_eq!(
        label_from_source("https://example.com/img/Aurora.png?size=2#top", None),
        Some("Aurora".to_string())
    );
    assert_eq!(label_from_source("/tmp/.hidden", None), Some(".hidden".to_string()));
    assert_eq!(label_from_source("/tmp/archive.tar.gz", None), Some("archive.tar".to_string()));
    assert_eq!(label_from_source("/tmp/", None), Some("tmp".to_string()));
    assert_eq!(label_from_source("/tmp/./", None), Some("tmp".to_string()));
    assert_eq!(label_from_source("/", None), None);
    assert_eq!(label_from_source("dir/..", None), None);
    assert_eq!(label_from_source("   ", None), None);
    assert_eq!(label_from_source("/tmp/ x .png", None), Some("x".to_string()));
    assert_eq!(
        label_from_source("~/faces/Nova.jpeg", Some("/home/u")),
        Some("Nova".to_string())
    );
}

#[test]
fn base64_detection_needs_length_and_alphabet() {
    assert!(looks_like_base64(&"A".repeat(97)));
    assert!(!looks_like_base64(&"A".repeat(96)));
    assert!(looks_like_base64(&format!("{}\n{}", "A".repeat(50), "B=".repeat(30))));
    assert!(!looks_like_base64(&format!("{} {}", "A".repeat(50), "B".repeat(50))));
    assert_eq!(base64_without_line_breaks("AA\r\nBB\n"), "AABB");
}

#[test]
fn data_urls_split_into_media_type_and_payload() {
    assert_eq!(
        parse_data_url("data:image/png;base64,AAAA"),
        ("image/png".to_string(), "AAAA".to_string())
    );
    assert_eq!(parse_data_url("noheader"), ("image/jpeg".to_string(), "noheader".to_string()));
    assert_eq!(parse_data_url("image/png;base64,AA"), ("image/jpeg".to_string(), "AA".to_string()));
    assert_eq!(parse_data_url("data:,x,y"), ("".to_string(), "x,y".to_string()));
    assert_eq!(data_url_payload("data:image/png;base64,AAAA"), Some("AAAA".to_string()));
    assert_eq!(data_url_payload("xyz"), None);
}

#[test]
fn sources_are_classified() {
    assert_eq!(classify_source("data:image/png;base64,AA", false), SourceKind::DataUrl);
    assert_eq!(classify_source("https://x.test/a.png", false), SourceKind::Web);
    assert_eq!(classify_source("http://x.test/a.png", true), SourceKind::Web);
    assert_eq!(classify_source("/tmp/a.png", true), SourceKind::File);
    assert_eq!(classify_source(&"A".repeat(100), false), SourceKind::Base64);
    assert_eq!(classify_source("nope", false), SourceKind::Unsupported);
    assert_eq!(source_type_label("http://x", false), "url");
    assert_eq!(source_type_label("data:image/png;base64,AA", false), "data-url");
    assert_eq!(source_type_label("/a.png", true), "path");
    assert_eq!(source_type_label("AAAA", false), "base64");
}

#[test]
fn portrait_labels_prefer_the_given_name() {
    assert_eq!(portrait_label(Some("Champ"), "/a/b.png", None, "left"), "Champ");
    assert_eq!(portrait_label(Some(""), "/a/b.png", None, "left"), "b");
    assert_eq!(portrait_label(None, "data:image/png;base64,AA", None, "right"), "right");
}

#[test]
fn dropped_paths_are_cleaned() {
    assert_eq!(
        clean_path("  '/Users/me/My\\ Photo\\ \\(1\\).jpg'  "),
        "/Users/me/My Photo (1).jpg"
    );
    assert_eq!(clean_path("\"/a/\\[x\\].png\""), "/a/[x].png");
    assert_eq!(normalize_input("  hi  ".to_string()), "hi");
}

#[test]
fn piped_lines_are_trimmed_and_non_empty() {
    assert_eq!(
        split_input_lines("  a.png \r\n\n b.png\n  \n"),
        vec!["a.png".to_string(), "b.png".to_string()]
    );
    assert!(split_input_lines("\n\r\n").is_empty());
    assert_eq!(
        first_two_lines("one\ntwo\nthree"),
        Some(("one".to_string(), "two".to_string()))
    );
    assert_eq!(first_two_lines("only"), None);
}

#[test]
fn pastes_replace_paths_and_append_text() {
    assert_eq!(apply_paste("abc", "/tmp/x.png\n", false), "/tmp/x.png");
    assert_eq!(apply_paste("abc", "def", false), "abcdef");
    assert_eq!(apply_paste("abc", " http://x \r", false), "http://x");
    assert_eq!(apply_paste("abc", "'q'", true), "'q'");
    assert_eq!(apply_paste("abc", "'q'", false), "abc'q'");
}

#[test]
fn piped_sources_fill_the_missing_sides() {
    let lines = vec!["a.png".to_string(), "b.png".to_string()];
    assert_eq!(
        fill_sources_from_lines(None, None, &lines),
        (Some("a.png".to_string()), Some("b.png".to_string()))
    );
    assert_eq!(
        fill_sources_from_lines(Some("x.png".to_string()), None, &lines),
        (Some("x.png".to_string()), Some("b.png".to_string()))
    );
    assert_eq!(fill_sources_from_lines(None, None, &vec![]), (None, None));
    assert_eq!(
        complete_sources(Some("a".to_string()), Some("b".to_string())),
        Some(("a".to_string(), "b".to_string()))
    );
    assert_eq!(complete_sources(Some("a".to_string()), Some(String::new())), None);
    assert_eq!(complete_sources(None, Some("b".to_string())), None);
}
