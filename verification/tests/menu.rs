use better_than_you::i18n::JudgeMode;
use better_than_you::menu::judge_mode_of;
use better_than_you::i18n::{Language, MessageKey};
use better_than_you::menu::{battle_input_step, default_publish_url, effective_publish_url, face_bounce, find_override, icon_for_item, is_preview_temp_name, judge_from_choice, judge_index, language_from_choice, language_index, loading_bar, loading_phrase, logo_gradient_color, menu_action, menu_keys, menu_start, menu_step, model_index, normalize_publish_url, optional_text, publish_config_from, publish_token_configured, select_menu, set_axis_weight, spark_color, splash_star_requested, split_axis_entry, star_acknowledged, text_input_step, update_log_expired, vs_color, BattleInput, BattleInputStep, InputEvent, JudgeCli, MenuKey, MenuStep, SplashKey, TextStep, settings_step, SettingsAction, face_color, logo_row_color, star_color, enter_color};

#[test]
fn star_acknowledged_accepts_terminal_or_web_source() {
    let plain_true = star_acknowledged(true, None);
    assert!(!plain_true);

    let gh_true = star_acknowledged(true, Some("gh"));
    assert!(gh_true);

    let web_true = star_acknowledged(true, Some("web"));
    assert!(web_true);
}

#[test]
fn stars_need_an_acknowledgement_and_a_known_source() {
    assert!(!star_acknowledged(false, Some("gh")));
    assert!(!star_acknowledged(true, Some("manual")));
}

#[test]
fn judge_and_language_menus_round_trip() {
    assert_eq!(JudgeCli::Grok.as_str(), "grok");
    assert_eq!(JudgeCli::Openai.as_str(), "openai");
    assert_eq!(judge_index(&JudgeCli::Heuristic), 5);
    assert_eq!(judge_index(&JudgeCli::Auto), 0);
    for j in [
        JudgeCli::Auto,
        JudgeCli::Heuristic,
        JudgeCli::Openai,
        JudgeCli::Anthropic,
        JudgeCli::Gemini,
        JudgeCli::Grok,
    ] {
        assert_eq!(judge_from_choice(judge_index(&j)), j);
    }
    assert_eq!(judge_from_choice(9), JudgeCli::Heuristic);
    assert_eq!(language_index(Language::Korean), 1);
    assert_eq!(language_from_choice(2), Language::Japanese);
    assert_eq!(language_from_choice(7), Language::English);
}

#[test]
fn menus_fall_back_and_navigate() {
    assert_eq!(select_menu(None, 10, 3), Some(2));
    assert_eq!(select_menu(None, 1, 0), Some(0));
    assert_eq!(select_menu(Some(None), 1, 3), None);
    assert_eq!(select_menu(Some(Some(1)), 0, 3), Some(1));
    assert_eq!(menu_start(5, 3), 2);
    assert_eq!(menu_step(0, 3, MenuKey::Up), MenuStep::At(0));
    assert_eq!(menu_step(1, 3, MenuKey::Down), MenuStep::At(2));
    assert_eq!(menu_step(2, 3, MenuKey::Down), MenuStep::At(2));
    assert_eq!(menu_step(1, 3, MenuKey::Select), MenuStep::Chosen(1));
    assert_eq!(menu_step(1, 3, MenuKey::Close), MenuStep::Closed);
    assert_eq!(menu_step(1, 3, MenuKey::Other), MenuStep::At(1));
}

#[test]
fn menu_entries_get_icons() {
    assert_eq!(icon_for_item("Start Battle"), "\u{2694} ");
    assert_eq!(icon_for_item("Settings"), "\u{2699} ");
    assert_eq!(icon_for_item("Judge mode"), "\u{2696} ");
    assert_eq!(icon_for_item("OpenAI judge"), "\u{1F4C4} ");
    assert_eq!(icon_for_item("Set OpenAI API key"), "\u{270F} ");
    assert_eq!(icon_for_item("BACK"), "\u{1F6AA} ");
    assert_eq!(icon_for_item("Mystery"), "\u{25B8} ");
}

#[test]
fn publish_settings_resolve() {
    assert_eq!(default_publish_url(), "https://better-than-you.nomadamas.org");
    assert_eq!(effective_publish_url(Some("  "), Some("https://env.example")), "https://env.example");
    assert_eq!(effective_publish_url(Some("https://mine.example"), Some("x")), "https://mine.example");
    assert_eq!(effective_publish_url(None, Some(" ")), "https://better-than-you.nomadamas.org");
    assert!(publish_token_configured(None, &vec![None, Some(" ".to_string()), Some("tok".to_string())]));
    assert!(!publish_token_configured(Some("  "), &vec![None, Some("\t".to_string())]));
    assert!(publish_token_configured(Some("t"), &vec![]));
    assert_eq!(
        publish_config_from(Some("https://s.example.com//"), Some("tok")),
        Some(("https://s.example.com".to_string(), "tok".to_string()))
    );
    assert_eq!(publish_config_from(Some(" "), Some("t")), None);
    assert_eq!(publish_config_from(Some("u"), None), None);
    assert_eq!(normalize_publish_url("  https://a.example/ "), Some("https://a.example".to_string()));
    assert_eq!(normalize_publish_url("   "), None);
    assert_eq!(optional_text("  Nova "), Some("Nova".to_string()));
    assert_eq!(optional_text("  "), None);
}

#[test]
fn menu_actions_follow_the_entries() {
    let keys = menu_keys(false, false);
    assert_eq!(
        keys,
        vec![
            MessageKey::StartBattle,
            MessageKey::OpenReport,
            MessageKey::ShareResult,
            MessageKey::Settings,
            MessageKey::StarGithub,
            MessageKey::Quit,
        ]
    );
    assert_eq!(menu_action(&keys, Some(4)), MessageKey::StarGithub);
    assert_eq!(menu_action(&keys, Some(99)), MessageKey::Quit);
    assert_eq!(menu_action(&keys, None), MessageKey::Quit);
    let after = menu_keys(true, true);
    assert_eq!(after.len(), 9);
    assert_eq!(after[7], MessageKey::Back);
    assert_eq!(menu_action(&after, Some(0)), MessageKey::Rematch);
}

#[test]
fn animations_cycle() {
    assert_eq!(face_bounce(0, true), 0);
    assert_eq!(face_bounce(2, true), -1);
    assert_eq!(face_bounce(6, true), 1);
    assert_eq!(face_bounce(0, false), -1);
    assert_eq!(face_bounce(u64::MAX, true), 1);
    assert_eq!(face_bounce(u64::MAX, false), 0);
    assert_eq!(spark_color(3), (255, 100, 100));
    assert_eq!(vs_color(2), (255, 255, 100));
    assert_eq!(logo_gradient_color(9), (0, 255, 220));
    assert_eq!(loading_phrase(8), "Measuring symmetry...");
    assert_eq!(loading_bar(5), format!("{}{}", "\u{2588}".repeat(5), "\u{2591}".repeat(25)));
    assert_eq!(loading_bar(45), "\u{2588}".repeat(30));
    assert!(splash_star_requested(SplashKey::Char('S'), false));
    assert!(!splash_star_requested(SplashKey::Char('s'), true));
    assert!(!splash_star_requested(SplashKey::Esc, false));
}

#[test]
fn text_inputs_edit_confirm_and_cancel() {
    let mut text = "ab".to_string();
    assert_eq!(text_input_step(&mut text, &InputEvent::Backspace), TextStep::Editing);
    assert_eq!(text, "a");
    assert_eq!(text_input_step(&mut text, &InputEvent::Char('c')), TextStep::Editing);
    assert_eq!(text, "ac");
    assert_eq!(text_input_step(&mut text, &InputEvent::Paste("/x\n".to_string())), TextStep::Editing);
    assert_eq!(text, "/x");
    assert_eq!(text_input_step(&mut text, &InputEvent::Enter), TextStep::Confirmed);
    assert_eq!(text, "/x");
    assert_eq!(text_input_step(&mut text, &InputEvent::Esc), TextStep::Cancelled);
}

#[test]
fn battle_setup_collects_both_paths() {
    let mut state = BattleInput { left: String::new(), right: String::new(), active: 0 };
    assert!(matches!(battle_input_step(&mut state, &InputEvent::Enter), BattleInputStep::Editing));
    assert_eq!(state.active, 0);
    battle_input_step(&mut state, &InputEvent::Char('a'));
    assert_eq!(state.left, "a");
    battle_input_step(&mut state, &InputEvent::Enter);
    assert_eq!(state.active, 1);
    battle_input_step(&mut state, &InputEvent::Paste("'/b\\ c.png'".to_string()));
    assert_eq!(state.right, "'/b\\ c.png'");
    match battle_input_step(&mut state, &InputEvent::Enter) {
        BattleInputStep::Start(l, r) => {
            assert_eq!(l, "a");
            assert_eq!(r, "/b c.png");
        }
        other => panic!("unexpected {:?}", other),
    }
    battle_input_step(&mut state, &InputEvent::Tab);
    assert_eq!(state.active, 0);
    assert!(matches!(battle_input_step(&mut state, &InputEvent::Esc), BattleInputStep::Cancelled));
}

#[test]
fn housekeeping_predicates() {
    assert!(is_preview_temp_name("btyu-preview-1.png"));
    assert!(!is_preview_temp_name("btyu-preview-1.jpg"));
    assert!(!is_preview_temp_name("other.png"));
    assert!(update_log_expired(Some(90_000), 0));
    assert!(update_log_expired(Some(10), 3_000_000));
    assert!(!update_log_expired(None, 10));
    assert!(!update_log_expired(Some(86_400), 2 * 1024 * 1024));
}

#[test]
fn axis_weight_overrides_update_in_place() {
    let mut overrides: Vec<(String, f32)> = vec![("skin_quality".to_string(), 1.5)];
    assert_eq!(find_override(&overrides, "skin_quality"), Some(0));
    assert_eq!(find_override(&overrides, "lighting_color"), None);
    set_axis_weight(&mut overrides, "skin_quality", 2.0);
    assert_eq!(overrides, vec![("skin_quality".to_string(), 2.0)]);
    set_axis_weight(&mut overrides, "lighting_color", 0.5);
    assert_eq!(
        overrides,
        vec![("skin_quality".to_string(), 2.0), ("lighting_color".to_string(), 0.5)]
    );
    assert_eq!(
        split_axis_entry("skin_quality=1.5"),
        Some(("skin_quality".to_string(), "1.5".to_string()))
    );
    assert_eq!(split_axis_entry("a=b=c"), Some(("a".to_string(), "b=c".to_string())));
    assert_eq!(split_axis_entry("nokey"), None);
    assert_eq!(model_index(&vec!["gpt-5.5", "gpt-5.4-mini"], "gpt-5.4-mini"), 1);
    assert_eq!(model_index(&vec!["gpt-5.5", "gpt-5.4-mini"], "zzz"), 0);
}

#[test]
fn judge_choices_map_to_engine_modes() {
    assert_eq!(judge_mode_of(JudgeCli::Auto), Some(JudgeMode::Auto));
    assert_eq!(judge_mode_of(JudgeCli::Gemini), Some(JudgeMode::Gemini));
    assert_eq!(judge_mode_of(JudgeCli::Grok), None);
}

#[test]
fn settings_entries_pick_their_action() {
    assert_eq!(settings_step(Some(0)), SettingsAction::JudgeMode);
    assert_eq!(settings_step(Some(6)), SettingsAction::PublicShare);
    assert_eq!(settings_step(Some(8)), SettingsAction::Language);
    assert_eq!(settings_step(Some(9)), SettingsAction::ClearReports);
    assert_eq!(settings_step(Some(10)), SettingsAction::Back);
    assert_eq!(settings_step(None), SettingsAction::Back);
}

#[test]
fn splash_colours_follow_the_frame() {
    assert_eq!(face_color(0, 0, false), (255, 190, 130));
    assert_eq!(face_color(3, 1, false), (255, 199, 139));
    assert_eq!(face_color(3, 1, true), (169, 199, 255));
    assert_eq!(face_color(6, 0, true), (172, 202, 255));
    assert_eq!(face_color(130, 0, false), (255, 194, 134));
    assert_eq!(logo_row_color(0, 0), (255, 60, 200));
    assert_eq!(logo_row_color(3, 0), (230, 80, 220));
    assert_eq!(logo_row_color(9, 5), (200, 120, 255));
    assert_eq!(star_color(0), (255, 215, 0));
    assert_eq!(star_color(2), (255, 235, 80));
    assert_eq!(star_color(7), (255, 245, 120));
    assert_eq!(enter_color(2), (80, 255, 120));
    assert_eq!(enter_color(3), (40, 80, 40));
}
