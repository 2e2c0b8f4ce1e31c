use better_than_you::publish::{all_providers_failed, content_type_for, fallback_providers, hash_bytes, lan_url, local_url, plain_text_link, preview_asset_index, provider_error, provider_summary, qr_ascii, serve_info, serve_relative_path, share_endpoint, share_kind, tmpfiles_direct_url, upload_plan, upload_start, upload_step, UploadDecision};

#[test]
fn hashes_are_lowercase_sha256_hex() {
    assert_eq!(
        hash_bytes(b""),
        "e3b0c44298fc1c149afbf4c8996fb92427ae41e4649b934ca495991b7852b855"
    );
    assert_eq!(
        hash_bytes(b"abc"),
        "ba7816bf8f01cfea414140de5dae2223b00361a396177a9cb410ff61f20015ad"
    );
}

#[test]
fn qr_codes_render_or_stay_empty() {
    let qr = qr_ascii("https://share.example.com/battle");
    assert!(!qr.is_empty());
    assert!(qr.contains('\u{2588}') || qr.contains('\u{2580}') || qr.contains('\u{2584}'));
    assert_ne!(qr, "https://share.example.com/battle");
    assert_eq!(qr_ascii(&"x".repeat(5000)), "");
}

#[test]
fn server_urls_and_routes() {
    assert_eq!(local_url(8080), "http://localhost:8080/latest-battle.html");
    assert_eq!(local_url(0), "http://localhost:0/latest-battle.html");
    assert_eq!(lan_url("192.168.1.5", 80), "http://192.168.1.5:80/latest-battle.html");
    assert_eq!(serve_relative_path("/"), "latest-battle.html");
    assert_eq!(serve_relative_path("/?q=1"), "latest-battle.html");
    assert_eq!(serve_relative_path("/a/b.png?x=1"), "a/b.png");
    assert_eq!(serve_relative_path("//x.json"), "x.json");
    let info = serve_info(8080, Some("10.0.0.2"));
    assert_eq!(info.port, 8080);
    assert_eq!(info.local_url, "http://localhost:8080/latest-battle.html");
    assert_eq!(info.lan_url.as_deref(), Some("http://10.0.0.2:8080/latest-battle.html"));
    assert_eq!(info.qr_ascii, qr_ascii("http://10.0.0.2:8080/latest-battle.html"));
    let local_only = serve_info(9000, None);
    assert_eq!(local_only.lan_url, None);
    assert_eq!(local_only.qr_ascii, qr_ascii("http://localhost:9000/latest-battle.html"));
}

#[test]
fn content_types_follow_the_extension() {
    assert_eq!(content_type_for("/r/a.html"), "text/html; charset=utf-8");
    assert_eq!(content_type_for("/r/a.json"), "application/json");
    assert_eq!(content_type_for("/r/a.png"), "image/png");
    assert_eq!(content_type_for("/r/a.jpeg"), "image/jpeg");
    assert_eq!(content_type_for("/r/a.jpg"), "image/jpeg");
    assert_eq!(content_type_for("/r/a.HTML"), "application/octet-stream");
    assert_eq!(content_type_for("/r/.png"), "application/octet-stream");
    assert_eq!(content_type_for("/r/a"), "application/octet-stream");
}

#[test]
fn upload_requests_and_answers() {
    assert_eq!(share_kind("text/html; charset=utf-8"), Some("html"));
    assert_eq!(share_kind("image/png"), Some("png"));
    assert_eq!(share_kind("application/json"), Some("json"));
    assert_eq!(share_kind("image/jpeg"), None);
    assert_eq!(
        share_endpoint("https://s.example", "png", "my file.png"),
        "https://s.example/share?kind=png&filename=my%20file.png"
    );
    assert_eq!(
        tmpfiles_direct_url("https://tmpfiles.org/123/a.html"),
        "https://tmpfiles.org/dl/123/a.html"
    );
    assert_eq!(tmpfiles_direct_url("https://other.example/a"), "https://other.example/a");
    assert_eq!(
        plain_text_link("  https://0x0.st/abc.html\n"),
        Some("https://0x0.st/abc.html".to_string())
    );
    assert_eq!(plain_text_link("error: too big"), None);
    assert_eq!(
        fallback_providers(),
        vec!["catbox.moe", "litterbox.catbox.moe (72h)", "tmpfiles.org", "file.io", "0x0.st"]
    );
    assert_eq!(provider_error("file.io", "boom"), "file.io: boom");
    assert_eq!(
        all_providers_failed(None),
        "All upload providers failed. Last error: unknown"
    );
    assert_eq!(
        all_providers_failed(Some("0x0.st: down")),
        "All upload providers failed. Last error: 0x0.st: down"
    );
    assert_eq!(provider_summary("a", "b", "c"), "page: a | report: b | image: c");
}

#[test]
fn previews_prefer_the_x_asset() {
    let platforms = |v: &[&str]| v.iter().map(|s| s.to_string()).collect::<Vec<String>>();
    assert_eq!(preview_asset_index(&platforms(&["linkedin", "x"])), Some(1));
    assert_eq!(preview_asset_index(&platforms(&["linkedin"])), Some(0));
    assert_eq!(preview_asset_index(&platforms(&[])), None);
}

#[test]
fn uploads_stop_at_the_first_service_that_takes_them() {
    let plan = upload_plan(true);
    assert_eq!(plan, vec!["nomadamas.org", "catbox.moe", "litterbox.catbox.moe (72h)", "tmpfiles.org", "file.io", "0x0.st"]);
    assert_eq!(upload_plan(false).len(), 5);
    let (state, decision) = upload_start(plan.len());
    assert!(matches!(decision, UploadDecision::Attempt(0)));
    let (state, decision) = upload_step(&plan, state, Err("timeout".to_string()));
    assert!(matches!(decision, UploadDecision::Attempt(1)));
    assert_eq!(state.last_error.as_deref(), Some("nomadamas.org: timeout"));
    let (_, decision) = upload_step(&plan, state, Ok("https://files.catbox.moe/x.html".to_string()));
    match decision {
        UploadDecision::Published(i, url) => {
            assert_eq!(plan[i], "catbox.moe");
            assert_eq!(url, "https://files.catbox.moe/x.html");
        }
        _ => panic!("expected the upload to be published"),
    }
}

#[test]
fn uploads_give_up_after_the_last_service() {
    let plan = upload_plan(false);
    let (mut state, _) = upload_start(plan.len());
    let mut last = None;
    for _ in 0..plan.len() {
        let (next, decision) = upload_step(&plan, state, Err("down".to_string()));
        state = next;
        last = Some(decision);
    }
    match last {
        Some(UploadDecision::GiveUp(m)) => assert_eq!(m, "All upload providers failed. Last error: 0x0.st: down"),
        _ => panic!("expected to give up"),
    }
    assert!(matches!(upload_start(0).1, UploadDecision::GiveUp(_)));
}
