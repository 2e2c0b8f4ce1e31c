use better_than_you::share::platform_open_url;
use better_than_you::share::{
    build_social_share_links, platform_caption, platform_dimensions, share_clipboard_text,
    share_dir_name, share_note, share_page_file_name, share_platforms, share_url,
};

#[test]
fn supported_social_links_include_public_urls() {
    let links = build_social_share_links(
        "https://share.example.com/battle",
        "https://share.example.com/preview.png",
        "Winner caption",
    );

    let x = links.iter().find(|link| link.platform == "x").unwrap();
    assert!(x.share_url.as_ref().unwrap().contains("twitter.com/intent/tweet"));
    assert!(x.share_url.as_ref().unwrap().contains("share.example.com"));

    let pinterest = links.iter().find(|link| link.platform == "pinterest").unwrap();
    assert!(pinterest.share_url.as_ref().unwrap().contains("preview.png"));

    let instagram = links.iter().find(|link| link.platform == "instagram_post").unwrap();
    assert!(instagram.share_url.is_none());
}

#[test]
fn social_links_are_percent_encoded() {
    let links = build_social_share_links(
        "https://share.example.com/battle",
        "https://share.example.com/preview.png",
        "Winner caption",
    );
    assert_eq!(links.len(), 6);
    assert_eq!(
        links[0].share_url.as_deref(),
        Some("https://twitter.com/intent/tweet?text=Winner%20caption&url=https%3A%2F%2Fshare.example.com%2Fbattle")
    );
    assert_eq!(
        links[1].share_url.as_deref(),
        Some("https://www.linkedin.com/sharing/share-offsite/?url=https%3A%2F%2Fshare.example.com%2Fbattle")
    );
    assert_eq!(
        links[5].share_url.as_deref(),
        Some("https://www.pinterest.com/pin/create/button/?url=https%3A%2F%2Fshare.example.com%2Fbattle&media=https%3A%2F%2Fshare.example.com%2Fpreview.png&description=Winner%20caption")
    );
    let platforms: Vec<&str> = links.iter().map(|l| l.platform.as_str()).collect();
    assert_eq!(platforms, share_platforms());
}

#[test]
fn share_urls_prefill_x_only() {
    assert_eq!(
        share_url("x", "Hi there! \u{1F3C6}"),
        Some("https://twitter.com/intent/tweet?text=Hi%20there%21%20%F0%9F%8F%86".to_string())
    );
    assert_eq!(share_url("linkedin", "c"), Some("https://www.linkedin.com/feed/".to_string()));
    assert_eq!(share_url("instagram_story", "c"), Some("https://www.instagram.com/".to_string()));
    assert_eq!(share_url("tiktok", "c"), Some("https://www.tiktok.com/upload".to_string()));
    assert_eq!(share_url("mastodon", "c"), None);
    assert_eq!(
        share_note("tiktok"),
        "Publishes a public image URL and copies the caption. Finish the upload in TikTok."
    );
    assert_eq!(share_note("mastodon"), "Generated social share asset.");
}

#[test]
fn clipboard_text_depends_on_the_platform() {
    assert_eq!(share_clipboard_text("x", "Cap", "P", "I", "R"), "Cap\n\nP");
    assert_eq!(
        share_clipboard_text("tiktok", "Cap", "P", "I", "R"),
        "Cap\n\nPublic image: I\nBattle report: R"
    );
    assert_eq!(share_clipboard_text("mastodon", "Cap", "P", "I", "R"), "Cap\n\nP");
}

#[test]
fn platforms_have_sizes_and_captions() {
    assert_eq!(platform_dimensions("x"), (1600, 900));
    assert_eq!(platform_dimensions("instagram_story"), (1080, 1920));
    assert_eq!(platform_dimensions("mastodon"), (1200, 900));
    assert_eq!(
        platform_caption("core", "x"),
        "core\n\n#BetterThanYou #AIPortraits #PortraitBattle"
    );
    assert_eq!(platform_caption("core", "pinterest"), "core\n\nBetterThanYou portrait battle.");
    assert_eq!(platform_caption("core", "mastodon"), "core");
    assert_eq!(
        share_dir_name("2026-04-27T18-45-02-338Z-aurora-nova"),
        "2026-04-27t18-45-02-338z-aurora-nova-share"
    );
    assert_eq!(
        share_page_file_name("2026-04-27T18-45-02-338Z-aurora-nova"),
        "2026-04-27t18-45-02-338z-aurora-nova-share-page.html"
    );
}

#[test]
fn sharing_opens_the_platform_link_first() {
    let links = build_social_share_links("https://p.example/x", "https://p.example/i.png", "Cap");
    assert_eq!(
        platform_open_url(&links, "linkedin", Some("https://fallback.example"), "https://page.example"),
        "https://www.linkedin.com/sharing/share-offsite/?url=https%3A%2F%2Fp.example%2Fx"
    );
    assert_eq!(
        platform_open_url(&links, "tiktok", Some("https://www.tiktok.com/upload"), "https://page.example"),
        "https://www.tiktok.com/upload"
    );
    assert_eq!(platform_open_url(&links, "mastodon", None, "https://page.example"), "https://page.example");
}
