use better_than_you::battle::{falls_back_on_judge_error, missing_key_note, select_vlm_mode};
use better_than_you::battle::{
    apply_axis_overrides, engine_version, notes_with_fallback, preferred_side,
    qualitative_sections, sanitize_fallback_reason, tie_break_winner, verdict_phrase, Intensity,
    OpenAiConfig, OverrideError, DEFAULT_OPENAI_MODEL, ENGINE_VERSION, PRODUCT_NAME,
};
use better_than_you::i18n::{JudgeMode, Language};

#[test]
fn engines_are_named_by_judge() {
    assert_eq!(PRODUCT_NAME, "BetterThanYou");
    assert_eq!(DEFAULT_OPENAI_MODEL, "gpt-5.4-mini");
    assert_eq!(engine_version(JudgeMode::Heuristic, "local", None), ENGINE_VERSION);
    assert_eq!(engine_version(JudgeMode::Auto, "local", Some("m")), "deterministic-heuristic-v1");
    assert_eq!(engine_version(JudgeMode::Auto, "anthropic", Some("m1")), "anthropic-m1");
    assert_eq!(engine_version(JudgeMode::Openai, "openai", None), "openai-");
    assert_eq!(engine_version(JudgeMode::Gemini, "gemini", Some("g")), "gemini-g");
    assert_eq!(
        qualitative_sections(),
        vec!["overall_take", "strengths", "weaknesses", "why_this_won", "model_jury_notes"]
    );
    let config = OpenAiConfig::default();
    assert!(config.api_key.is_none() && config.base_url.is_none());
}

#[test]
fn judge_errors_are_cleaned_up() {
    assert_eq!(
        sanitize_fallback_reason("<html><head><title>502 Bad Gateway</title></head></html>"),
        "502 Bad Gateway"
    );
    assert_eq!(sanitize_fallback_reason("  a \n\t b  "), "a b");
    assert_eq!(sanitize_fallback_reason(&"x".repeat(240)), "x".repeat(240));
    assert_eq!(
        sanitize_fallback_reason(&"x".repeat(300)),
        format!("{}\u{2026}", "x".repeat(237))
    );
    assert_eq!(
        notes_with_fallback("Notes.", "<b>timeout</b>"),
        "Notes. VLM judge unavailable \u{2014} fell back to heuristic. Reason: timeout"
    );
}

#[test]
fn level_totals_are_broken_by_leads_then_hashes() {
    let leaders = |v: &[&str]| v.iter().map(|s| s.to_string()).collect::<Vec<String>>();
    assert_eq!(tie_break_winner(&leaders(&["left", "right", "left", "tie"]), "a", "b"), "left");
    assert_eq!(tie_break_winner(&leaders(&["right", "tie"]), "z", "a"), "right");
    assert_eq!(tie_break_winner(&leaders(&["left", "right"]), "b", "a"), "left");
    assert_eq!(tie_break_winner(&leaders(&["left", "right"]), "a", "b"), "right");
    assert_eq!(tie_break_winner(&leaders(&["left", "right"]), "ab", "a"), "left");
    assert_eq!(tie_break_winner(&leaders(&[]), "a", "a"), "right");
    assert_eq!(preferred_side(Some("left")), Some("left"));
    assert_eq!(preferred_side(Some("right")), Some("right"));
    assert_eq!(preferred_side(Some("middle")), None);
    assert_eq!(preferred_side(None), None);
}

#[test]
fn axis_overrides_apply_in_order() {
    let base = vec![1.0f32; 10];
    let ok = apply_axis_overrides(&base, &vec![("skin_quality".to_string(), 2.0f32)], &vec![true]);
    let mut expected = base.clone();
    expected[2] = 2.0;
    assert_eq!(ok, Ok(expected));
    assert_eq!(
        apply_axis_overrides(&base, &vec![("nope".to_string(), 1.0f32)], &vec![true]),
        Err(OverrideError::UnknownKey(0))
    );
    assert_eq!(
        apply_axis_overrides(
            &base,
            &vec![("skin_quality".to_string(), -1.0f32), ("nope".to_string(), 1.0)],
            &vec![false, true]
        ),
        Err(OverrideError::InvalidWeight(0))
    );
    assert_eq!(
        apply_axis_overrides(
            &base,
            &vec![("nope".to_string(), 1.0f32), ("skin_quality".to_string(), -1.0)],
            &vec![true, false]
        ),
        Err(OverrideError::UnknownKey(0))
    );
}

#[test]
fn verdicts_are_localized() {
    assert_eq!(
        verdict_phrase(Language::English, Intensity::Crushing, "Nova", "Aurora"),
        "NOVA CRUSHED AURORA"
    );
    assert_eq!(
        verdict_phrase(Language::English, Intensity::Narrow, "Nova", "Aurora"),
        "Nova narrowly edged out Aurora"
    );
    assert_eq!(
        verdict_phrase(Language::Korean, Intensity::Clear, "Nova", "Aurora"),
        "Nova\u{c774}(\u{ac00}) Aurora\u{bcf4}\u{b2e4} \u{d655}\u{c2e4}\u{d788} \u{c55e}\u{c130}\u{c2b5}\u{b2c8}\u{b2e4}"
    );
    assert_eq!(
        verdict_phrase(Language::Japanese, Intensity::Narrow, "Nova", "Aurora"),
        "Nova\u{304c}Aurora\u{3092}\u{308f}\u{305a}\u{304b}\u{306b}\u{4e0a}\u{56de}\u{3063}\u{305f}"
    );
}

#[test]
fn judges_are_chosen_by_mode_and_keys() {
    assert_eq!(select_vlm_mode(JudgeMode::Auto, false, true, true), Some(JudgeMode::Anthropic));
    assert_eq!(select_vlm_mode(JudgeMode::Auto, true, true, true), Some(JudgeMode::Openai));
    assert_eq!(select_vlm_mode(JudgeMode::Auto, false, false, false), None);
    assert_eq!(select_vlm_mode(JudgeMode::Gemini, false, false, false), Some(JudgeMode::Gemini));
    assert_eq!(select_vlm_mode(JudgeMode::Heuristic, true, true, true), None);
    assert!(falls_back_on_judge_error(JudgeMode::Auto));
    assert!(!falls_back_on_judge_error(JudgeMode::Openai));
    assert_eq!(
        missing_key_note(JudgeMode::Auto, None),
        Some("No VLM API key detected. Using heuristic judge.")
    );
    assert_eq!(missing_key_note(JudgeMode::Auto, Some(JudgeMode::Openai)), None);
    assert_eq!(missing_key_note(JudgeMode::Heuristic, None), None);
}

#[test]
fn judge_errors_are_capped_by_characters() {
    let hangul = "\u{d55c}".repeat(81);
    assert_eq!(sanitize_fallback_reason(&hangul), hangul);
    let long = "\u{d55c}".repeat(241);
    assert_eq!(
        sanitize_fallback_reason(&long),
        format!("{}\u{2026}", "\u{d55c}".repeat(237))
    );
}
