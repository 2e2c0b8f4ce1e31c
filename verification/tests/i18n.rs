use better_than_you::axes::{all_axes, axis_icon, parse_axis_key, AxisKey};
use better_than_you::i18n::{
    lang_from_code, localized_axis_desc, localized_axis_label, localized_axis_short, t, JudgeMode,
    Language,
};

#[test]
fn judge_modes_and_languages_have_names() {
    assert_eq!(JudgeMode::Auto.as_str(), "auto");
    assert_eq!(JudgeMode::Heuristic.as_str(), "heuristic");
    assert_eq!(JudgeMode::Openai.as_str(), "openai");
    assert_eq!(JudgeMode::Anthropic.as_str(), "anthropic");
    assert_eq!(JudgeMode::Gemini.as_str(), "gemini");
    assert_eq!(Language::English.as_str(), "English");
    assert_eq!(Language::Korean.as_str(), "\u{d55c}\u{ad6d}\u{c5b4}");
    assert_eq!(Language::Japanese.as_str(), "\u{65e5}\u{672c}\u{8a9e}");
}

#[test]
fn language_codes_select_a_language() {
    assert!(matches!(lang_from_code(Some("ko")), Language::Korean));
    assert!(matches!(lang_from_code(Some("ja")), Language::Japanese));
    assert!(matches!(lang_from_code(Some("en")), Language::English));
    assert!(matches!(lang_from_code(Some("fr")), Language::English));
    assert!(matches!(lang_from_code(None), Language::English));
}

#[test]
fn messages_are_translated() {
    assert_eq!(t(Language::Korean, "start_battle"), "\u{bc30}\u{d2c0} \u{c2dc}\u{c791}");
    assert_eq!(t(Language::Japanese, "start_battle"), "\u{30d0}\u{30c8}\u{30eb}\u{958b}\u{59cb}");
    assert_eq!(t(Language::English, "start_battle"), "Start Battle");
    assert_eq!(t(Language::English, "no_such_message"), "");
    assert_eq!(t(Language::Korean, "axis_skin_quality"), "\u{d53c}\u{bd80} \u{c0c1}\u{d0dc}");
}

#[test]
fn axis_texts_fall_back_to_the_key() {
    assert_eq!(localized_axis_short(Language::English, "facial_symmetry"), "SYM");
    assert_eq!(localized_axis_short(Language::Korean, "facial_symmetry"), "\u{b300}\u{ce6d}");
    assert_eq!(localized_axis_short(Language::English, "mystery"), "mystery");
    assert_eq!(localized_axis_label(Language::English, "skin_quality"), "Skin Quality");
    assert_eq!(localized_axis_label(Language::English, "mystery"), "mystery");
    assert_eq!(localized_axis_desc(Language::English, "facial_symmetry"), "Left-right face balance");
    assert_eq!(localized_axis_desc(Language::English, "mystery"), "");
}

#[test]
fn axes_have_icons() {
    assert_eq!(axis_icon("facial_symmetry"), "\u{269C}");
    assert_eq!(axis_icon("photogenic_impact"), "\u{1F4A5}");
    assert_eq!(axis_icon("mystery"), "");
    assert!(matches!(parse_axis_key("eye_expression"), Some(AxisKey::EyeExpression)));
    assert!(parse_axis_key("Eye_Expression").is_none());
    assert_eq!(AxisKey::HairGrooming.label(), "Hair & Grooming");
}

#[test]
fn every_axis_is_found_by_its_key() {
    let axes = all_axes();
    assert_eq!(axes.len(), 10);
    assert_eq!(axes[0].key(), "facial_symmetry");
    assert_eq!(axes[9].key(), "photogenic_impact");
    for axis in axes {
        assert_eq!(parse_axis_key(axis.key()), Some(axis));
    }
}

#[test]
fn short_axis_labels_fit_cramped_columns() {
    for lang in [Language::English, Language::Korean, Language::Japanese] {
        for axis in all_axes() {
            let n = localized_axis_short(lang, axis.key()).chars().count();
            assert!((2..=6).contains(&n), "{}", axis.key());
        }
    }
    assert_eq!(localized_axis_short(Language::Korean, "eye_expression"), "\u{b208}\u{be5b}");
}
