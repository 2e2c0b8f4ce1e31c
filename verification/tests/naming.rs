use better_than_you::naming::{artifact_stem, battle_id, slugify};

#[test]
fn slugs_are_lowercase_dashed_and_trimmed() {
    assert_eq!(slugify("Hello, World!"), "hello-world");
    assert_eq!(slugify("  --\u{dc}n\u{ef}code  Name--  "), "n-code-name");
    assert_eq!(slugify("IMG_0674.jpg"), "img-0674-jpg");
    assert_eq!(slugify("!!!"), "");
    assert_eq!(slugify(&"a".repeat(60)), "a".repeat(48));
}

#[test]
fn battle_ids_join_stamp_and_labels() {
    assert_eq!(
        battle_id("2026-04-27t18-45-02-338z", "Aurora", "Nova"),
        "2026-04-27t18-45-02-338z-aurora-nova"
    );
    assert_eq!(
        artifact_stem("2026-04-27t18-45-02-338z"),
        "battle-2026-04-27t18-45-02-338z"
    );
}
