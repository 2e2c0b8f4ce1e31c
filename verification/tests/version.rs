use better_than_you::version::{is_newer_version, strip_version_prefix};

#[test]
fn newer_versions_compare_numerically() {
    assert!(is_newer_version("0.9.0", "0.8.5"));
    assert!(!is_newer_version("0.8.5", "0.8.5"));
    assert!(!is_newer_version("0.8.4", "0.8.5"));
    assert!(is_newer_version("1.0", "0.9.9"));
    assert!(is_newer_version("0.8.10", "0.8.9"));
    assert!(is_newer_version("0.8.5-rc.1", "0.8.4"));
    assert!(!is_newer_version("0.8.5+build", "0.8.5"));
    assert!(!is_newer_version("bad", "0.1.0"));
    assert!(!is_newer_version("1", "0.1.0"));
}

#[test]
fn release_tags_lose_their_v() {
    assert_eq!(strip_version_prefix("v0.8.0"), "0.8.0");
    assert_eq!(strip_version_prefix("vv1.2"), "1.2");
    assert_eq!(strip_version_prefix("1.2.3"), "1.2.3");
}
