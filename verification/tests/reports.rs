use better_than_you::reports::{
    extract_battle_prefix, is_protected_name, plan_clear, plan_prune, ReportEntry,
    REPORTS_KEEP_RECENT,
};

fn entry(name: &str, modified: u128) -> ReportEntry {
    ReportEntry { name: name.to_string(), modified }
}

#[test]
fn battle_prefix_of_report_names() {
    assert_eq!(
        extract_battle_prefix("2026-04-27t18-45-02-338z-img-0674-trax.html"),
        Some("2026-04-27t18-45-02-338z".to_string())
    );
    assert_eq!(
        extract_battle_prefix("2026-04-27t18-45-02-338z-share"),
        Some("2026-04-27t18-45-02-338z".to_string())
    );
    assert_eq!(extract_battle_prefix("short-z.html"), None);
    assert_eq!(extract_battle_prefix("abcd-04-27t18-45-02-338z-x.html"), None);
    assert_eq!(extract_battle_prefix("20260427t18-45-02-338z-img.html"), None);
    assert_eq!(extract_battle_prefix("2026-04-27-no-zed-here-at-all.html"), Some("2026-04-27-no-z".to_string()));
    assert_eq!(extract_battle_prefix("2026-04-27-nothing-but-numbers.html"), None);
}

#[test]
fn protected_names_are_kept() {
    assert!(is_protected_name("latest-battle.html"));
    assert!(is_protected_name("latest-battle.json"));
    assert!(is_protected_name("latest-published.json"));
    assert!(is_protected_name(".gitkeep"));
    assert!(is_protected_name(".gitignore"));
    assert!(is_protected_name(".DS_Store"));
    assert!(!is_protected_name("2026-04-27t18-45-02-338z-a.html"));
    assert_eq!(REPORTS_KEEP_RECENT, 5);
}

#[test]
fn clearing_deletes_battle_artifacts_only() {
    let names: Vec<String> = vec![
        "latest-battle.html",
        "2026-04-27t18-45-02-338z-a.html",
        "notes.txt",
        "2026-04-27t18-45-02-338z-a.json",
        ".gitkeep",
        "2026-04-28t09-00-00-000z-share",
    ]
    .into_iter()
    .map(str::to_string)
    .collect();
    assert_eq!(plan_clear(&names), vec![1, 3, 5]);
    let kept: Vec<String> = vec!["latest-battle.html", "notes.txt", ".gitkeep"]
        .into_iter()
        .map(str::to_string)
        .collect();
    assert!(plan_clear(&kept).is_empty());
}

#[test]
fn pruning_keeps_the_most_recent_battles() {
    let entries = vec![
        entry("2026-01-01t00-00-00-000z-a.html", 100),
        entry("2026-01-01t00-00-00-000z-a.json", 90),
        entry("2026-02-01t00-00-00-000z-b.html", 200),
        entry("2026-03-01t00-00-00-000z-share", 300),
        entry("latest-battle.html", 500),
        entry("readme.txt", 1),
    ];
    assert_eq!(plan_prune(&entries, 2), vec![0, 1]);
    assert!(plan_prune(&entries, 3).is_empty());
    assert!(plan_prune(&entries, 5).is_empty());
    assert_eq!(plan_prune(&entries, 0), vec![0, 1, 2, 3]);
}

#[test]
fn pruning_twice_deletes_nothing_more() {
    let entries = vec![
        entry("2026-01-01t00-00-00-000z-a.html", 100),
        entry("2026-02-01t00-00-00-000z-b.html", 200),
        entry("2026-03-01t00-00-00-000z-c.html", 300),
        entry("2026-03-01t00-00-00-000z-c.json", 301),
    ];
    let d = plan_prune(&entries, 1);
    assert_eq!(d, vec![0, 1]);
    let rest: Vec<ReportEntry> = entries
        .into_iter()
        .enumerate()
        .filter(|(i, _)| !d.contains(i))
        .map(|(_, e)| e)
        .collect();
    assert!(plan_prune(&rest, 1).is_empty());
}

#[test]
fn saved_reports_are_grouped_by_their_stamp() {
    let entries = vec![
        entry("battle-2026-01-01t00-00-00-000z.html", 100),
        entry("battle-2026-01-01t00-00-00-000z.json", 90),
        entry("battle-2026-02-01t00-00-00-000z.html", 200),
        entry("2026-02-01t00-00-00-000z-share", 210),
        entry("latest-battle.json", 500),
        entry("battle-notes.txt", 1),
    ];
    assert_eq!(plan_prune(&entries, 1), vec![0, 1]);
    let names: Vec<String> = entries.iter().map(|e| e.name.clone()).collect();
    assert_eq!(plan_clear(&names), vec![0, 1, 2, 3]);
}
