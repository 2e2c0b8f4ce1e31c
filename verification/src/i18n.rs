//! Interface and report text in English, Korean and Japanese, and the small
//! enumerations (language, judge mode) that select it.
use vstd::prelude::*;
use crate::axes::{AxisKey, axis_key_of, parse_axis_key};
use crate::text::{owned, push_str_chars, str_eq, string_of, to_uppercase, unicode_uppercase};

verus! {

/// Which judge scores a battle.
#[derive(Clone, Copy, Debug, PartialEq, Eq, Structural)]
pub enum JudgeMode {
    Auto,
    Heuristic,
    Openai,
    Anthropic,
    Gemini,
}

/// The lower-case name of a judge mode.
pub open spec fn judge_mode_name(m: JudgeMode) -> Seq<char> {
    match m {
        JudgeMode::Auto => "auto"@,
        JudgeMode::Heuristic => "heuristic"@,
        JudgeMode::Openai => "openai"@,
        JudgeMode::Anthropic => "anthropic"@,
        JudgeMode::Gemini => "gemini"@,
    }
}

impl JudgeMode {
    /// The lower-case name of this judge mode.
    pub fn as_str(self) -> (r: &'static str)
        ensures
            r@ == judge_mode_name(self),
    {
        match self {
            JudgeMode::Auto => "auto",
            JudgeMode::Heuristic => "heuristic",
            JudgeMode::Openai => "openai",
            JudgeMode::Anthropic => "anthropic",
            JudgeMode::Gemini => "gemini",
        }
    }
}

/// Language of the interface and of generated reports.
#[derive(Clone, Copy, Debug, PartialEq, Eq, Structural)]
pub enum Language {
    English,
    Korean,
    Japanese,
}

/// The name of a language, written in that language.
pub open spec fn language_name(l: Language) -> Seq<char> {
    match l {
        Language::English => "English"@,
        Language::Korean => "\u{d55c}\u{ad6d}\u{c5b4}"@,
        Language::Japanese => "\u{65e5}\u{672c}\u{8a9e}"@,
    }
}

/// The two-letter code stored in battle results.
pub open spec fn language_code_text(l: Language) -> Seq<char> {
    match l {
        Language::English => "en"@,
        Language::Korean => "ko"@,
        Language::Japanese => "ja"@,
    }
}

impl Language {
    /// The name of this language, written in that language.
    pub fn as_str(self) -> (r: &'static str)
        ensures
            r@ == language_name(self),
    {
        match self {
            Language::English => "English",
            Language::Korean => "\u{d55c}\u{ad6d}\u{c5b4}",
            Language::Japanese => "\u{65e5}\u{672c}\u{8a9e}",
        }
    }

    /// The two-letter code stored in battle results (`en`, `ko`, `ja`).
    pub fn code(self) -> (r: &'static str)
        ensures
            r@ == language_code_text(self),
    {
        match self {
            Language::English => "en",
            Language::Korean => "ko",
            Language::Japanese => "ja",
        }
    }
}

/// The language a stored code selects: `ko` and `ja` pick Korean and
/// Japanese, anything else (or nothing) English.
pub open spec fn language_of_code(code: Option<Seq<char>>) -> Language {
    match code {
        Some(c) => if c == "ko"@ {
            Language::Korean
        } else if c == "ja"@ {
            Language::Japanese
        } else {
            Language::English
        },
        None => Language::English,
    }
}

/// The language a stored code selects.
pub fn lang_from_code(code: Option<&str>) -> (r: Language)
    ensures
        r == language_of_code(
            match code {
                Some(c) => Some(c@),
                None => None,
            },
        ),
{
    match code {
        Some(c) => if str_eq(c, "ko") {
            Language::Korean
        } else if str_eq(c, "ja") {
            Language::Japanese
        } else {
            Language::English
        },
        None => Language::English,
    }
}

/// Reading back the code stored for a language gives that language.
pub proof fn lemma_language_code_round_trip(l: Language)
    ensures
        language_of_code(Some(language_code_text(l))) == l,
{
    reveal_strlit("en");
    reveal_strlit("ko");
    reveal_strlit("ja");
    assert("en"@[0] != "ko"@[0]);
    assert("en"@[0] != "ja"@[0]);
    assert("ko"@[0] != "ja"@[0]);
}

/// A translatable piece of interface or report text.
#[derive(Clone, Copy, Debug, PartialEq, Eq, Structural)]
pub enum MessageKey {
    StartBattle,
    OpenReport,
    ShareResult,
    PublishWeb,
    ServeLan,
    Settings,
    Quit,
    StarGithub,
    Back,
    Rematch,
    NewPortraits,
    BattleSetup,
    LeftPortrait,
    RightPortrait,
    Waiting,
    Ready,
    SwitchSide,
    FillBoth,
    Cancel,
    PressStart,
    Analyzing,
    BattleResult,
    Winner,
    JudgeMode,
    Model,
    Language,
    ApiKeys,
    Labels,
    OutputDir,
    AestheticTuning,
    ReportTitle,
    ReportWinner,
    ReportOverallTake,
    ReportWhyWon,
    ReportJuryNotes,
    ReportHeuristic,
    ReportVlm,
    ReportCombined,
    ReportScore,
    ReportStrengths,
    ReportWeaknesses,
    ReportAbilityComparison,
    ReportPortraitAnalysis,
    ReportMargin,
    ReportDecisive,
    ReportLeft,
    ReportRight,
    ReportVs,
    ReportGenerated,
    /// The full label of an axis.
    AxisLabel(AxisKey),
    /// The short label of an axis.
    AxisShort(AxisKey),
    /// What an axis measures.
    AxisDesc(AxisKey),
}

/// The message named by `s` (e.g. `"start_battle"`, `"axis_skin_quality"`), if any.
pub open spec fn message_key_of(s: Seq<char>) -> Option<MessageKey> {
    if s == "start_battle"@ {
        Some(MessageKey::StartBattle)
    } else if s == "open_report"@ {
        Some(MessageKey::OpenReport)
    } else if s == "share_result"@ {
        Some(MessageKey::ShareResult)
    } else if s == "publish_web"@ {
        Some(MessageKey::PublishWeb)
    } else if s == "serve_lan"@ {
        Some(MessageKey::ServeLan)
    } else if s == "settings"@ {
        Some(MessageKey::Settings)
    } else if s == "quit"@ {
        Some(MessageKey::Quit)
    } else if s == "star_github"@ {
        Some(MessageKey::StarGithub)
    } else if s == "back"@ {
        Some(MessageKey::Back)
    } else if s == "rematch"@ {
        Some(MessageKey::Rematch)
    } else if s == "new_portraits"@ {
        Some(MessageKey::NewPortraits)
    } else if s == "battle_setup"@ {
        Some(MessageKey::BattleSetup)
    } else if s == "left_portrait"@ {
        Some(MessageKey::LeftPortrait)
    } else if s == "right_portrait"@ {
        Some(MessageKey::RightPortrait)
    } else if s == "waiting"@ {
        Some(MessageKey::Waiting)
    } else if s == "ready"@ {
        Some(MessageKey::Ready)
    } else if s == "switch_side"@ {
        Some(MessageKey::SwitchSide)
    } else if s == "fill_both"@ {
        Some(MessageKey::FillBoth)
    } else if s == "cancel"@ {
        Some(MessageKey::Cancel)
    } else if s == "press_start"@ {
        Some(MessageKey::PressStart)
    } else if s == "analyzing"@ {
        Some(MessageKey::Analyzing)
    } else if s == "battle_result"@ {
        Some(MessageKey::BattleResult)
    } else if s == "winner"@ {
        Some(MessageKey::Winner)
    } else if s == "judge_mode"@ {
        Some(MessageKey::JudgeMode)
    } else if s == "model"@ {
        Some(MessageKey::Model)
    } else if s == "language"@ {
        Some(MessageKey::Language)
    } else if s == "api_keys"@ {
        Some(MessageKey::ApiKeys)
    } else if s == "labels"@ {
        Some(MessageKey::Labels)
    } else if s == "output_dir"@ {
        Some(MessageKey::OutputDir)
    } else if s == "aesthetic_tuning"@ {
        Some(MessageKey::AestheticTuning)
    } else if s == "report_title"@ {
        Some(MessageKey::ReportTitle)
    } else if s == "report_winner"@ {
        Some(MessageKey::ReportWinner)
    } else if s == "report_overall_take"@ {
        Some(MessageKey::ReportOverallTake)
    } else if s == "report_why_won"@ {
        Some(MessageKey::ReportWhyWon)
    } else if s == "report_jury_notes"@ {
        Some(MessageKey::ReportJuryNotes)
    } else if s == "report_heuristic"@ {
        Some(MessageKey::ReportHeuristic)
    } else if s == "report_vlm"@ {
        Some(MessageKey::ReportVlm)
    } else if s == "report_combined"@ {
        Some(MessageKey::ReportCombined)
    } else if s == "report_score"@ {
        Some(MessageKey::ReportScore)
    } else if s == "report_strengths"@ {
        Some(MessageKey::ReportStrengths)
    } else if s == "report_weaknesses"@ {
        Some(MessageKey::ReportWeaknesses)
    } else if s == "report_ability_comparison"@ {
        Some(MessageKey::ReportAbilityComparison)
    } else if s == "report_portrait_analysis"@ {
        Some(MessageKey::ReportPortraitAnalysis)
    } else if s == "report_margin"@ {
        Some(MessageKey::ReportMargin)
    } else if s == "report_decisive"@ {
        Some(MessageKey::ReportDecisive)
    } else if s == "report_left"@ {
        Some(MessageKey::ReportLeft)
    } else if s == "report_right"@ {
        Some(MessageKey::ReportRight)
    } else if s == "report_vs"@ {
        Some(MessageKey::ReportVs)
    } else if s == "report_generated"@ {
        Some(MessageKey::ReportGenerated)
    } else if s == "axis_facial_symmetry"@ {
        Some(MessageKey::AxisLabel(AxisKey::FacialSymmetry))
    } else if s == "axis_facial_proportions"@ {
        Some(MessageKey::AxisLabel(AxisKey::FacialProportions))
    } else if s == "axis_skin_quality"@ {
        Some(MessageKey::AxisLabel(AxisKey::SkinQuality))
    } else if s == "axis_eye_expression"@ {
        Some(MessageKey::AxisLabel(AxisKey::EyeExpression))
    } else if s == "axis_hair_grooming"@ {
        Some(MessageKey::AxisLabel(AxisKey::HairGrooming))
    } else if s == "axis_bone_structure"@ {
        Some(MessageKey::AxisLabel(AxisKey::BoneStructure))
    } else if s == "axis_expression_charisma"@ {
        Some(MessageKey::AxisLabel(AxisKey::ExpressionCharisma))
    } else if s == "axis_lighting_color"@ {
        Some(MessageKey::AxisLabel(AxisKey::LightingColor))
    } else if s == "axis_background_framing"@ {
        Some(MessageKey::AxisLabel(AxisKey::BackgroundFraming))
    } else if s == "axis_photogenic_impact"@ {
        Some(MessageKey::AxisLabel(AxisKey::PhotogenicImpact))
    } else if s == "short_facial_symmetry"@ {
        Some(MessageKey::AxisShort(AxisKey::FacialSymmetry))
    } else if s == "short_facial_proportions"@ {
        Some(MessageKey::AxisShort(AxisKey::FacialProportions))
    } else if s == "short_skin_quality"@ {
        Some(MessageKey::AxisShort(AxisKey::SkinQuality))
    } else if s == "short_eye_expression"@ {
        Some(MessageKey::AxisShort(AxisKey::EyeExpression))
    } else if s == "short_hair_grooming"@ {
        Some(MessageKey::AxisShort(AxisKey::HairGrooming))
    } else if s == "short_bone_structure"@ {
        Some(MessageKey::AxisShort(AxisKey::BoneStructure))
    } else if s == "short_expression_charisma"@ {
        Some(MessageKey::AxisShort(AxisKey::ExpressionCharisma))
    } else if s == "short_lighting_color"@ {
        Some(MessageKey::AxisShort(AxisKey::LightingColor))
    } else if s == "short_background_framing"@ {
        Some(MessageKey::AxisShort(AxisKey::BackgroundFraming))
    } else if s == "short_photogenic_impact"@ {
        Some(MessageKey::AxisShort(AxisKey::PhotogenicImpact))
    } else if s == "desc_facial_symmetry"@ {
        Some(MessageKey::AxisDesc(AxisKey::FacialSymmetry))
    } else if s == "desc_facial_proportions"@ {
        Some(MessageKey::AxisDesc(AxisKey::FacialProportions))
    } else if s == "desc_skin_quality"@ {
        Some(MessageKey::AxisDesc(AxisKey::SkinQuality))
    } else if s == "desc_eye_expression"@ {
        Some(MessageKey::AxisDesc(AxisKey::EyeExpression))
    } else if s == "desc_hair_grooming"@ {
        Some(MessageKey::AxisDesc(AxisKey::HairGrooming))
    } else if s == "desc_bone_structure"@ {
        Some(MessageKey::AxisDesc(AxisKey::BoneStructure))
    } else if s == "desc_expression_charisma"@ {
        Some(MessageKey::AxisDesc(AxisKey::ExpressionCharisma))
    } else if s == "desc_lighting_color"@ {
        Some(MessageKey::AxisDesc(AxisKey::LightingColor))
    } else if s == "desc_background_framing"@ {
        Some(MessageKey::AxisDesc(AxisKey::BackgroundFraming))
    } else if s == "desc_photogenic_impact"@ {
        Some(MessageKey::AxisDesc(AxisKey::PhotogenicImpact))
    } else {
        None
    }
}

/// The message named by `key`, if any.
pub fn parse_message_key(key: &str) -> (r: Option<MessageKey>)
    ensures
        r == message_key_of(key@),
{
    if str_eq(key, "start_battle") {
        Some(MessageKey::StartBattle)
    } else if str_eq(key, "open_report") {
        Some(MessageKey::OpenReport)
    } else if str_eq(key, "share_result") {
        Some(MessageKey::ShareResult)
    } else if str_eq(key, "publish_web") {
        Some(MessageKey::PublishWeb)
    } else if str_eq(key, "serve_lan") {
        Some(MessageKey::ServeLan)
    } else if str_eq(key, "settings") {
        Some(MessageKey::Settings)
    } else if str_eq(key, "quit") {
        Some(MessageKey::Quit)
    } else if str_eq(key, "star_github") {
        Some(MessageKey::StarGithub)
    } else if str_eq(key, "back") {
        Some(MessageKey::Back)
    } else if str_eq(key, "rematch") {
        Some(MessageKey::Rematch)
    } else if str_eq(key, "new_portraits") {
        Some(MessageKey::NewPortraits)
    } else if str_eq(key, "battle_setup") {
        Some(MessageKey::BattleSetup)
    } else if str_eq(key, "left_portrait") {
        Some(MessageKey::LeftPortrait)
    } else if str_eq(key, "right_portrait") {
        Some(MessageKey::RightPortrait)
    } else if str_eq(key, "waiting") {
        Some(MessageKey::Waiting)
    } else if str_eq(key, "ready") {
        Some(MessageKey::Ready)
    } else if str_eq(key, "switch_side") {
        Some(MessageKey::SwitchSide)
    } else if str_eq(key, "fill_both") {
        Some(MessageKey::FillBoth)
    } else if str_eq(key, "cancel") {
        Some(MessageKey::Cancel)
    } else if str_eq(key, "press_start") {
        Some(MessageKey::PressStart)
    } else if str_eq(key, "analyzing") {
        Some(MessageKey::Analyzing)
    } else if str_eq(key, "battle_result") {
        Some(MessageKey::BattleResult)
    } else if str_eq(key, "winner") {
        Some(MessageKey::Winner)
    } else if str_eq(key, "judge_mode") {
        Some(MessageKey::JudgeMode)
    } else if str_eq(key, "model") {
        Some(MessageKey::Model)
    } else if str_eq(key, "language") {
        Some(MessageKey::Language)
    } else if str_eq(key, "api_keys") {
        Some(MessageKey::ApiKeys)
    } else if str_eq(key, "labels") {
        Some(MessageKey::Labels)
    } else if str_eq(key, "output_dir") {
        Some(MessageKey::OutputDir)
    } else if str_eq(key, "aesthetic_tuning") {
        Some(MessageKey::AestheticTuning)
    } else if str_eq(key, "report_title") {
        Some(MessageKey::ReportTitle)
    } else if str_eq(key, "report_winner") {
        Some(MessageKey::ReportWinner)
    } else if str_eq(key, "report_overall_take") {
        Some(MessageKey::ReportOverallTake)
    } else if str_eq(key, "report_why_won") {
        Some(MessageKey::ReportWhyWon)
    } else if str_eq(key, "report_jury_notes") {
        Some(MessageKey::ReportJuryNotes)
    } else if str_eq(key, "report_heuristic") {
        Some(MessageKey::ReportHeuristic)
    } else if str_eq(key, "report_vlm") {
        Some(MessageKey::ReportVlm)
    } else if str_eq(key, "report_combined") {
        Some(MessageKey::ReportCombined)
    } else if str_eq(key, "report_score") {
        Some(MessageKey::ReportScore)
    } else if str_eq(key, "report_strengths") {
        Some(MessageKey::ReportStrengths)
    } else if str_eq(key, "report_weaknesses") {
        Some(MessageKey::ReportWeaknesses)
    } else if str_eq(key, "report_ability_comparison") {
        Some(MessageKey::ReportAbilityComparison)
    } else if str_eq(key, "report_portrait_analysis") {
        Some(MessageKey::ReportPortraitAnalysis)
    } else if str_eq(key, "report_margin") {
        Some(MessageKey::ReportMargin)
    } else if str_eq(key, "report_decisive") {
        Some(MessageKey::ReportDecisive)
    } else if str_eq(key, "report_left") {
        Some(MessageKey::ReportLeft)
    } else if str_eq(key, "report_right") {
        Some(MessageKey::ReportRight)
    } else if str_eq(key, "report_vs") {
        Some(MessageKey::ReportVs)
    } else if str_eq(key, "report_generated") {
        Some(MessageKey::ReportGenerated)
    } else if str_eq(key, "axis_facial_symmetry") {
        Some(MessageKey::AxisLabel(AxisKey::FacialSymmetry))
    } else if str_eq(key, "axis_facial_proportions") {
        Some(MessageKey::AxisLabel(AxisKey::FacialProportions))
    } else if str_eq(key, "axis_skin_quality") {
        Some(MessageKey::AxisLabel(AxisKey::SkinQuality))
    } else if str_eq(key, "axis_eye_expression") {
        Some(MessageKey::AxisLabel(AxisKey::EyeExpression))
    } else if str_eq(key, "axis_hair_grooming") {
        Some(MessageKey::AxisLabel(AxisKey::HairGrooming))
    } else if str_eq(key, "axis_bone_structure") {
        Some(MessageKey::AxisLabel(AxisKey::BoneStructure))
    } else if str_eq(key, "axis_expression_charisma") {
        Some(MessageKey::AxisLabel(AxisKey::ExpressionCharisma))
    } else if str_eq(key, "axis_lighting_color") {
        Some(MessageKey::AxisLabel(AxisKey::LightingColor))
    } else if str_eq(key, "axis_background_framing") {
        Some(MessageKey::AxisLabel(AxisKey::BackgroundFraming))
    } else if str_eq(key, "axis_photogenic_impact") {
        Some(MessageKey::AxisLabel(AxisKey::PhotogenicImpact))
    } else if str_eq(key, "short_facial_symmetry") {
        Some(MessageKey::AxisShort(AxisKey::FacialSymmetry))
    } else if str_eq(key, "short_facial_proportions") {
        Some(MessageKey::AxisShort(AxisKey::FacialProportions))
    } else if str_eq(key, "short_skin_quality") {
        Some(MessageKey::AxisShort(AxisKey::SkinQuality))
    } else if str_eq(key, "short_eye_expression") {
        Some(MessageKey::AxisShort(AxisKey::EyeExpression))
    } else if str_eq(key, "short_hair_grooming") {
        Some(MessageKey::AxisShort(AxisKey::HairGrooming))
    } else if str_eq(key, "short_bone_structure") {
        Some(MessageKey::AxisShort(AxisKey::BoneStructure))
    } else if str_eq(key, "short_expression_charisma") {
        Some(MessageKey::AxisShort(AxisKey::ExpressionCharisma))
    } else if str_eq(key, "short_lighting_color") {
        Some(MessageKey::AxisShort(AxisKey::LightingColor))
    } else if str_eq(key, "short_background_framing") {
        Some(MessageKey::AxisShort(AxisKey::BackgroundFraming))
    } else if str_eq(key, "short_photogenic_impact") {
        Some(MessageKey::AxisShort(AxisKey::PhotogenicImpact))
    } else if str_eq(key, "desc_facial_symmetry") {
        Some(MessageKey::AxisDesc(AxisKey::FacialSymmetry))
    } else if str_eq(key, "desc_facial_proportions") {
        Some(MessageKey::AxisDesc(AxisKey::FacialProportions))
    } else if str_eq(key, "desc_skin_quality") {
        Some(MessageKey::AxisDesc(AxisKey::SkinQuality))
    } else if str_eq(key, "desc_eye_expression") {
        Some(MessageKey::AxisDesc(AxisKey::EyeExpression))
    } else if str_eq(key, "desc_hair_grooming") {
        Some(MessageKey::AxisDesc(AxisKey::HairGrooming))
    } else if str_eq(key, "desc_bone_structure") {
        Some(MessageKey::AxisDesc(AxisKey::BoneStructure))
    } else if str_eq(key, "desc_expression_charisma") {
        Some(MessageKey::AxisDesc(AxisKey::ExpressionCharisma))
    } else if str_eq(key, "desc_lighting_color") {
        Some(MessageKey::AxisDesc(AxisKey::LightingColor))
    } else if str_eq(key, "desc_background_framing") {
        Some(MessageKey::AxisDesc(AxisKey::BackgroundFraming))
    } else if str_eq(key, "desc_photogenic_impact") {
        Some(MessageKey::AxisDesc(AxisKey::PhotogenicImpact))
    } else {
        None
    }
}

/// The text of message `k` in language `lang`.
pub open spec fn message_text(lang: Language, k: MessageKey) -> Seq<char> {
    match k {
        MessageKey::StartBattle => match lang {
            Language::English => "Start Battle"@,
            Language::Korean => "배틀 시작"@,
            Language::Japanese => "バトル開始"@,
        },
        MessageKey::OpenReport => match lang {
            Language::English => "Open Latest Report"@,
            Language::Korean => "최근 리포트 열기"@,
            Language::Japanese => "最新レポートを開く"@,
        },
        MessageKey::ShareResult => match lang {
            Language::English => "Share to SNS"@,
            Language::Korean => "SNS 공유"@,
            Language::Japanese => "SNSシェア"@,
        },
        MessageKey::PublishWeb => match lang {
            Language::English => "Public Web Share (Phone + SNS)"@,
            Language::Korean => "공개 웹 공유 (폰 + SNS)"@,
            Language::Japanese => "公開ウェブ共有（スマホ + SNS）"@,
        },
        MessageKey::ServeLan => match lang {
            Language::English => "View on Phone (same Wi-Fi / LAN)"@,
            Language::Korean => "폰에서 보기 (같은 Wi-Fi/LAN)"@,
            Language::Japanese => "スマホで見る（同じ Wi-Fi / LAN）"@,
        },
        MessageKey::Settings => match lang {
            Language::English => "Settings"@,
            Language::Korean => "설정"@,
            Language::Japanese => "設定"@,
        },
        MessageKey::Quit => match lang {
            Language::English => "Quit"@,
            Language::Korean => "종료"@,
            Language::Japanese => "終了"@,
        },
        MessageKey::StarGithub => match lang {
            Language::English => "Star BetterThanYou on GitHub"@,
            Language::Korean => "GitHub 스타 주기"@,
            Language::Japanese => "GitHubスター"@,
        },
        MessageKey::Back => match lang {
            Language::English => "Back"@,
            Language::Korean => "뒤로"@,
            Language::Japanese => "戻る"@,
        },
        MessageKey::Rematch => match lang {
            Language::English => "Rematch Same Pair"@,
            Language::Korean => "같은 상대로 재대결"@,
            Language::Japanese => "再戦"@,
        },
        MessageKey::NewPortraits => match lang {
            Language::English => "Choose New Portraits"@,
            Language::Korean => "새 사진 선택"@,
            Language::Japanese => "新しい写真を選択"@,
        },
        MessageKey::BattleSetup => match lang {
            Language::English => "Battle Setup"@,
            Language::Korean => "배틀 준비"@,
            Language::Japanese => "バトル準備"@,
        },
        MessageKey::LeftPortrait => match lang {
            Language::English => "LEFT PORTRAIT"@,
            Language::Korean => "왼쪽 초상화"@,
            Language::Japanese => "左の写真"@,
        },
        MessageKey::RightPortrait => match lang {
            Language::English => "RIGHT PORTRAIT"@,
            Language::Korean => "오른쪽 초상화"@,
            Language::Japanese => "右の写真"@,
        },
        MessageKey::Waiting => match lang {
            Language::English => "waiting..."@,
            Language::Korean => "대기 중..."@,
            Language::Japanese => "待機中..."@,
        },
        MessageKey::Ready => match lang {
            Language::English => "ready"@,
            Language::Korean => "준비 완료"@,
            Language::Japanese => "準備完了"@,
        },
        MessageKey::SwitchSide => match lang {
            Language::English => "Switch side"@,
            Language::Korean => "패널 전환"@,
            Language::Japanese => "パネル切替"@,
        },
        MessageKey::FillBoth => match lang {
            Language::English => "fill both"@,
            Language::Korean => "양쪽 다 입력"@,
            Language::Japanese => "両方入力"@,
        },
        MessageKey::Cancel => match lang {
            Language::English => "Cancel"@,
            Language::Korean => "취소"@,
            Language::Japanese => "キャンセル"@,
        },
        MessageKey::PressStart => match lang {
            Language::English => "PRESS ANY KEY TO START"@,
            Language::Korean => "아무 키를 눌러 시작"@,
            Language::Japanese => "キーを押してスタート"@,
        },
        MessageKey::Analyzing => match lang {
            Language::English => "Analyzing..."@,
            Language::Korean => "분석 중..."@,
            Language::Japanese => "分析中..."@,
        },
        MessageKey::BattleResult => match lang {
            Language::English => "BATTLE RESULT"@,
            Language::Korean => "배틀 결과"@,
            Language::Japanese => "バトル結果"@,
        },
        MessageKey::Winner => match lang {
            Language::English => "WINNER"@,
            Language::Korean => "승자"@,
            Language::Japanese => "勝者"@,
        },
        MessageKey::JudgeMode => match lang {
            Language::English => "Judge mode"@,
            Language::Korean => "심판 모드"@,
            Language::Japanese => "審査モード"@,
        },
        MessageKey::Model => match lang {
            Language::English => "Model"@,
            Language::Korean => "모델"@,
            Language::Japanese => "モデル"@,
        },
        MessageKey::Language => match lang {
            Language::English => "Language"@,
            Language::Korean => "언어"@,
            Language::Japanese => "言語"@,
        },
        MessageKey::ApiKeys => match lang {
            Language::English => "API keys"@,
            Language::Korean => "API 키 관리"@,
            Language::Japanese => "APIキー管理"@,
        },
        MessageKey::Labels => match lang {
            Language::English => "Labels"@,
            Language::Korean => "라벨"@,
            Language::Japanese => "ラベル"@,
        },
        MessageKey::OutputDir => match lang {
            Language::English => "Output directory"@,
            Language::Korean => "출력 디렉토리"@,
            Language::Japanese => "出力ディレクトリ"@,
        },
        MessageKey::AestheticTuning => match lang {
            Language::English => "Aesthetic tuning"@,
            Language::Korean => "미적 조정"@,
            Language::Japanese => "美的調整"@,
        },
        MessageKey::ReportTitle => match lang {
            Language::English => "Battle Report"@,
            Language::Korean => "배틀 리포트"@,
            Language::Japanese => "バトルレポート"@,
        },
        MessageKey::ReportWinner => match lang {
            Language::English => "Winner"@,
            Language::Korean => "승자"@,
            Language::Japanese => "勝者"@,
        },
        MessageKey::ReportOverallTake => match lang {
            Language::English => "Overall Take"@,
            Language::Korean => "총평"@,
            Language::Japanese => "総評"@,
        },
        MessageKey::ReportWhyWon => match lang {
            Language::English => "Why This Won"@,
            Language::Korean => "승리 이유"@,
            Language::Japanese => "勝利の理由"@,
        },
        MessageKey::ReportJuryNotes => match lang {
            Language::English => "Jury Notes"@,
            Language::Korean => "심사위원 노트"@,
            Language::Japanese => "ジュリーノート"@,
        },
        MessageKey::ReportHeuristic => match lang {
            Language::English => "Heuristic Analysis"@,
            Language::Korean => "휴리스틱 분석"@,
            Language::Japanese => "ヒューリスティック分析"@,
        },
        MessageKey::ReportVlm => match lang {
            Language::English => "AI Judge"@,
            Language::Korean => "AI 심사관"@,
            Language::Japanese => "AI審査官"@,
        },
        MessageKey::ReportCombined => match lang {
            Language::English => "Combined Score"@,
            Language::Korean => "종합 점수"@,
            Language::Japanese => "総合スコア"@,
        },
        MessageKey::ReportScore => match lang {
            Language::English => "Score"@,
            Language::Korean => "점수"@,
            Language::Japanese => "スコア"@,
        },
        MessageKey::ReportStrengths => match lang {
            Language::English => "Strengths"@,
            Language::Korean => "강점"@,
            Language::Japanese => "強み"@,
        },
        MessageKey::ReportWeaknesses => match lang {
            Language::English => "Weaknesses"@,
            Language::Korean => "약점"@,
            Language::Japanese => "弱み"@,
        },
        MessageKey::ReportAbilityComparison => match lang {
            Language::English => "Ability Comparison"@,
            Language::Korean => "능력치 비교"@,
            Language::Japanese => "能力値比較"@,
        },
        MessageKey::ReportPortraitAnalysis => match lang {
            Language::English => "Per-Portrait Analysis"@,
            Language::Korean => "사진별 분석"@,
            Language::Japanese => "写真別分析"@,
        },
        MessageKey::ReportMargin => match lang {
            Language::English => "Margin"@,
            Language::Korean => "격차"@,
            Language::Japanese => "差"@,
        },
        MessageKey::ReportDecisive => match lang {
            Language::English => "DECISIVE!"@,
            Language::Korean => "압도적!"@,
            Language::Japanese => "圧倒的！"@,
        },
        MessageKey::ReportLeft => match lang {
            Language::English => "LEFT"@,
            Language::Korean => "왼쪽"@,
            Language::Japanese => "左"@,
        },
        MessageKey::ReportRight => match lang {
            Language::English => "RIGHT"@,
            Language::Korean => "오른쪽"@,
            Language::Japanese => "右"@,
        },
        MessageKey::ReportVs => match lang {
            Language::English => "VS"@,
            Language::Korean => "VS"@,
            Language::Japanese => "VS"@,
        },
        MessageKey::ReportGenerated => match lang {
            Language::English => "Generated"@,
            Language::Korean => "생성 시각"@,
            Language::Japanese => "生成時刻"@,
        },
        MessageKey::AxisLabel(a) => match a {
            AxisKey::FacialSymmetry => match lang {
                Language::English => "Facial Symmetry"@,
                Language::Korean => "얼굴 대칭"@,
                Language::Japanese => "顔の対称性"@,
            },
            AxisKey::FacialProportions => match lang {
                Language::English => "Facial Proportions"@,
                Language::Korean => "얼굴 비율"@,
                Language::Japanese => "顔のプロポーション"@,
            },
            AxisKey::SkinQuality => match lang {
                Language::English => "Skin Quality"@,
                Language::Korean => "피부 상태"@,
                Language::Japanese => "肌の質"@,
            },
            AxisKey::EyeExpression => match lang {
                Language::English => "Eye Expression"@,
                Language::Korean => "눈 표현력"@,
                Language::Japanese => "目の表現力"@,
            },
            AxisKey::HairGrooming => match lang {
                Language::English => "Hair & Grooming"@,
                Language::Korean => "헤어 & 그루밍"@,
                Language::Japanese => "ヘア & グルーミング"@,
            },
            AxisKey::BoneStructure => match lang {
                Language::English => "Bone Structure"@,
                Language::Korean => "골격 구조"@,
                Language::Japanese => "骨格構造"@,
            },
            AxisKey::ExpressionCharisma => match lang {
                Language::English => "Expression & Charisma"@,
                Language::Korean => "표정 & 카리스마"@,
                Language::Japanese => "表情 & カリスマ"@,
            },
            AxisKey::LightingColor => match lang {
                Language::English => "Lighting & Color"@,
                Language::Korean => "조명 & 색감"@,
                Language::Japanese => "照明 & 色"@,
            },
            AxisKey::BackgroundFraming => match lang {
                Language::English => "Background & Framing"@,
                Language::Korean => "배경 & 구도"@,
                Language::Japanese => "背景 & 構図"@,
            },
            AxisKey::PhotogenicImpact => match lang {
                Language::English => "Photogenic Impact"@,
                Language::Korean => "포토제닉 임팩트"@,
                Language::Japanese => "フォトジェニックインパクト"@,
            },
        },
        MessageKey::AxisShort(a) => match a {
            AxisKey::FacialSymmetry => match lang {
                Language::English => "SYM"@,
                Language::Korean => "대칭"@,
                Language::Japanese => "対称"@,
            },
            AxisKey::FacialProportions => match lang {
                Language::English => "RATIO"@,
                Language::Korean => "비율"@,
                Language::Japanese => "比率"@,
            },
            AxisKey::SkinQuality => match lang {
                Language::English => "SKIN"@,
                Language::Korean => "피부"@,
                Language::Japanese => "肌質"@,
            },
            AxisKey::EyeExpression => match lang {
                Language::English => "EYES"@,
                Language::Korean => "눈빛"@,
                Language::Japanese => "目元"@,
            },
            AxisKey::HairGrooming => match lang {
                Language::English => "HAIR"@,
                Language::Korean => "헤어"@,
                Language::Japanese => "髪型"@,
            },
            AxisKey::BoneStructure => match lang {
                Language::English => "BONE"@,
                Language::Korean => "골격"@,
                Language::Japanese => "骨格"@,
            },
            AxisKey::ExpressionCharisma => match lang {
                Language::English => "AURA"@,
                Language::Korean => "아우라"@,
                Language::Japanese => "オーラ"@,
            },
            AxisKey::LightingColor => match lang {
                Language::English => "LIGHT"@,
                Language::Korean => "조명"@,
                Language::Japanese => "照明"@,
            },
            AxisKey::BackgroundFraming => match lang {
                Language::English => "FRAME"@,
                Language::Korean => "배경"@,
                Language::Japanese => "背景"@,
            },
            AxisKey::PhotogenicImpact => match lang {
                Language::English => "IMPACT"@,
                Language::Korean => "임팩트"@,
                Language::Japanese => "インパクト"@,
            },
        },
        MessageKey::AxisDesc(a) => match a {
            AxisKey::FacialSymmetry => match lang {
                Language::English => "Left-right face balance"@,
                Language::Korean => "좌우 얼굴 균형"@,
                Language::Japanese => "左右のバランス"@,
            },
            AxisKey::FacialProportions => match lang {
                Language::English => "Golden ratio & feature placement"@,
                Language::Korean => "황금비율, 이목구비 배치"@,
                Language::Japanese => "黄金比と配置"@,
            },
            AxisKey::SkinQuality => match lang {
                Language::English => "Smoothness & evenness"@,
                Language::Korean => "매끄러움, 톤 균일성"@,
                Language::Japanese => "滑らかさと均一性"@,
            },
            AxisKey::EyeExpression => match lang {
                Language::English => "Eye vibrance & emotion"@,
                Language::Korean => "눈의 생동감과 표현력"@,
                Language::Japanese => "目の生命力と表現"@,
            },
            AxisKey::HairGrooming => match lang {
                Language::English => "Style & framing"@,
                Language::Korean => "스타일과 프레이밍"@,
                Language::Japanese => "スタイルとフレーミング"@,
            },
            AxisKey::BoneStructure => match lang {
                Language::English => "Jawline & structure"@,
                Language::Korean => "턱선과 골격 정의"@,
                Language::Japanese => "顎のラインと骨格"@,
            },
            AxisKey::ExpressionCharisma => match lang {
                Language::English => "Expression & mood"@,
                Language::Korean => "표정과 분위기"@,
                Language::Japanese => "表情と雰囲気"@,
            },
            AxisKey::LightingColor => match lang {
                Language::English => "Lighting quality & color"@,
                Language::Korean => "조명 품질과 색감"@,
                Language::Japanese => "照明品質と色彩"@,
            },
            AxisKey::BackgroundFraming => match lang {
                Language::English => "Background & composition"@,
                Language::Korean => "배경과 구도"@,
                Language::Japanese => "背景と構図"@,
            },
            AxisKey::PhotogenicImpact => match lang {
                Language::English => "First-impression impact"@,
                Language::Korean => "첫인상 임팩트"@,
                Language::Japanese => "第一印象のインパクト"@,
            },
        },
    }
}

/// The text of message `k` in language `lang`.
pub fn message(lang: Language, k: MessageKey) -> (r: &'static str)
    ensures
        r@ == message_text(lang, k),
{
    match k {
        MessageKey::StartBattle => match lang {
            Language::English => "Start Battle",
            Language::Korean => "배틀 시작",
            Language::Japanese => "バトル開始",
        },
        MessageKey::OpenReport => match lang {
            Language::English => "Open Latest Report",
            Language::Korean => "최근 리포트 열기",
            Language::Japanese => "最新レポートを開く",
        },
        MessageKey::ShareResult => match lang {
            Language::English => "Share to SNS",
            Language::Korean => "SNS 공유",
            Language::Japanese => "SNSシェア",
        },
        MessageKey::PublishWeb => match lang {
            Language::English => "Public Web Share (Phone + SNS)",
            Language::Korean => "공개 웹 공유 (폰 + SNS)",
            Language::Japanese => "公開ウェブ共有（スマホ + SNS）",
        },
        MessageKey::ServeLan => match lang {
            Language::English => "View on Phone (same Wi-Fi / LAN)",
            Language::Korean => "폰에서 보기 (같은 Wi-Fi/LAN)",
            Language::Japanese => "スマホで見る（同じ Wi-Fi / LAN）",
        },
        MessageKey::Settings => match lang {
            Language::English => "Settings",
            Language::Korean => "설정",
            Language::Japanese => "設定",
        },
        MessageKey::Quit => match lang {
            Language::English => "Quit",
            Language::Korean => "종료",
            Language::Japanese => "終了",
        },
        MessageKey::StarGithub => match lang {
            Language::English => "Star BetterThanYou on GitHub",
            Language::Korean => "GitHub 스타 주기",
            Language::Japanese => "GitHubスター",
        },
        MessageKey::Back => match lang {
            Language::English => "Back",
            Language::Korean => "뒤로",
            Language::Japanese => "戻る",
        },
        MessageKey::Rematch => match lang {
            Language::English => "Rematch Same Pair",
            Language::Korean => "같은 상대로 재대결",
            Language::Japanese => "再戦",
        },
        MessageKey::NewPortraits => match lang {
            Language::English => "Choose New Portraits",
            Language::Korean => "새 사진 선택",
            Language::Japanese => "新しい写真を選択",
        },
        MessageKey::BattleSetup => match lang {
            Language::English => "Battle Setup",
            Language::Korean => "배틀 준비",
            Language::Japanese => "バトル準備",
        },
        MessageKey::LeftPortrait => match lang {
            Language::English => "LEFT PORTRAIT",
            Language::Korean => "왼쪽 초상화",
            Language::Japanese => "左の写真",
        },
        MessageKey::RightPortrait => match lang {
            Language::English => "RIGHT PORTRAIT",
            Language::Korean => "오른쪽 초상화",
            Language::Japanese => "右の写真",
        },
        MessageKey::Waiting => match lang {
            Language::English => "waiting...",
            Language::Korean => "대기 중...",
            Language::Japanese => "待機中...",
        },
        MessageKey::Ready => match lang {
            Language::English => "ready",
            Language::Korean => "준비 완료",
            Language::Japanese => "準備完了",
        },
        MessageKey::SwitchSide => match lang {
            Language::English => "Switch side",
            Language::Korean => "패널 전환",
            Language::Japanese => "パネル切替",
        },
        MessageKey::FillBoth => match lang {
            Language::English => "fill both",
            Language::Korean => "양쪽 다 입력",
            Language::Japanese => "両方入力",
        },
        MessageKey::Cancel => match lang {
            Language::English => "Cancel",
            Language::Korean => "취소",
            Language::Japanese => "キャンセル",
        },
        MessageKey::PressStart => match lang {
            Language::English => "PRESS ANY KEY TO START",
            Language::Korean => "아무 키를 눌러 시작",
            Language::Japanese => "キーを押してスタート",
        },
        MessageKey::Analyzing => match lang {
            Language::English => "Analyzing...",
            Language::Korean => "분석 중...",
            Language::Japanese => "分析中...",
        },
        MessageKey::BattleResult => match lang {
            Language::English => "BATTLE RESULT",
            Language::Korean => "배틀 결과",
            Language::Japanese => "バトル結果",
        },
        MessageKey::Winner => match lang {
            Language::English => "WINNER",
            Language::Korean => "승자",
            Language::Japanese => "勝者",
        },
        MessageKey::JudgeMode => match lang {
            Language::English => "Judge mode",
            Language::Korean => "심판 모드",
            Language::Japanese => "審査モード",
        },
        MessageKey::Model => match lang {
            Language::English => "Model",
            Language::Korean => "모델",
            Language::Japanese => "モデル",
        },
        MessageKey::Language => match lang {
            Language::English => "Language",
            Language::Korean => "언어",
            Language::Japanese => "言語",
        },
        MessageKey::ApiKeys => match lang {
            Language::English => "API keys",
            Language::Korean => "API 키 관리",
            Language::Japanese => "APIキー管理",
        },
        MessageKey::Labels => match lang {
            Language::English => "Labels",
            Language::Korean => "라벨",
            Language::Japanese => "ラベル",
        },
        MessageKey::OutputDir => match lang {
            Language::English => "Output directory",
            Language::Korean => "출력 디렉토리",
            Language::Japanese => "出力ディレクトリ",
        },
        MessageKey::AestheticTuning => match lang {
            Language::English => "Aesthetic tuning",
            Language::Korean => "미적 조정",
            Language::Japanese => "美的調整",
        },
        MessageKey::ReportTitle => match lang {
            Language::English => "Battle Report",
            Language::Korean => "배틀 리포트",
            Language::Japanese => "バトルレポート",
        },
        MessageKey::ReportWinner => match lang {
            Language::English => "Winner",
            Language::Korean => "승자",
            Language::Japanese => "勝者",
        },
        MessageKey::ReportOverallTake => match lang {
            Language::English => "Overall Take",
            Language::Korean => "총평",
            Language::Japanese => "総評",
        },
        MessageKey::ReportWhyWon => match lang {
            Language::English => "Why This Won",
            Language::Korean => "승리 이유",
            Language::Japanese => "勝利の理由",
        },
        MessageKey::ReportJuryNotes => match lang {
            Language::English => "Jury Notes",
            Language::Korean => "심사위원 노트",
            Language::Japanese => "ジュリーノート",
        },
        MessageKey::ReportHeuristic => match lang {
            Language::English => "Heuristic Analysis",
            Language::Korean => "휴리스틱 분석",
            Language::Japanese => "ヒューリスティック分析",
        },
        MessageKey::ReportVlm => match lang {
            Language::English => "AI Judge",
            Language::Korean => "AI 심사관",
            Language::Japanese => "AI審査官",
        },
        MessageKey::ReportCombined => match lang {
            Language::English => "Combined Score",
            Language::Korean => "종합 점수",
            Language::Japanese => "総合スコア",
        },
        MessageKey::ReportScore => match lang {
            Language::English => "Score",
            Language::Korean => "점수",
            Language::Japanese => "スコア",
        },
        MessageKey::ReportStrengths => match lang {
            Language::English => "Strengths",
            Language::Korean => "강점",
            Language::Japanese => "強み",
        },
        MessageKey::ReportWeaknesses => match lang {
            Language::English => "Weaknesses",
            Language::Korean => "약점",
            Language::Japanese => "弱み",
        },
        MessageKey::ReportAbilityComparison => match lang {
            Language::English => "Ability Comparison",
            Language::Korean => "능력치 비교",
            Language::Japanese => "能力値比較",
        },
        MessageKey::ReportPortraitAnalysis => match lang {
            Language::English => "Per-Portrait Analysis",
            Language::Korean => "사진별 분석",
            Language::Japanese => "写真別分析",
        },
        MessageKey::ReportMargin => match lang {
            Language::English => "Margin",
            Language::Korean => "격차",
            Language::Japanese => "差",
        },
        MessageKey::ReportDecisive => match lang {
            Language::English => "DECISIVE!",
            Language::Korean => "압도적!",
            Language::Japanese => "圧倒的！",
        },
        MessageKey::ReportLeft => match lang {
            Language::English => "LEFT",
            Language::Korean => "왼쪽",
            Language::Japanese => "左",
        },
        MessageKey::ReportRight => match lang {
            Language::English => "RIGHT",
            Language::Korean => "오른쪽",
            Language::Japanese => "右",
        },
        MessageKey::ReportVs => match lang {
            Language::English => "VS",
            Language::Korean => "VS",
            Language::Japanese => "VS",
        },
        MessageKey::ReportGenerated => match lang {
            Language::English => "Generated",
            Language::Korean => "생성 시각",
            Language::Japanese => "生成時刻",
        },
        MessageKey::AxisLabel(a) => match a {
            AxisKey::FacialSymmetry => match lang {
                Language::English => "Facial Symmetry",
                Language::Korean => "얼굴 대칭",
                Language::Japanese => "顔の対称性",
            },
            AxisKey::FacialProportions => match lang {
                Language::English => "Facial Proportions",
                Language::Korean => "얼굴 비율",
                Language::Japanese => "顔のプロポーション",
            },
            AxisKey::SkinQuality => match lang {
                Language::English => "Skin Quality",
                Language::Korean => "피부 상태",
                Language::Japanese => "肌の質",
            },
            AxisKey::EyeExpression => match lang {
                Language::English => "Eye Expression",
                Language::Korean => "눈 표현력",
                Language::Japanese => "目の表現力",
            },
            AxisKey::HairGrooming => match lang {
                Language::English => "Hair & Grooming",
                Language::Korean => "헤어 & 그루밍",
                Language::Japanese => "ヘア & グルーミング",
            },
            AxisKey::BoneStructure => match lang {
                Language::English => "Bone Structure",
                Language::Korean => "골격 구조",
                Language::Japanese => "骨格構造",
            },
            AxisKey::ExpressionCharisma => match lang {
                Language::English => "Expression & Charisma",
                Language::Korean => "표정 & 카리스마",
                Language::Japanese => "表情 & カリスマ",
            },
            AxisKey::LightingColor => match lang {
                Language::English => "Lighting & Color",
                Language::Korean => "조명 & 색감",
                Language::Japanese => "照明 & 色",
            },
            AxisKey::BackgroundFraming => match lang {
                Language::English => "Background & Framing",
                Language::Korean => "배경 & 구도",
                Language::Japanese => "背景 & 構図",
            },
            AxisKey::PhotogenicImpact => match lang {
                Language::English => "Photogenic Impact",
                Language::Korean => "포토제닉 임팩트",
                Language::Japanese => "フォトジェニックインパクト",
            },
        },
        MessageKey::AxisShort(a) => match a {
            AxisKey::FacialSymmetry => match lang {
                Language::English => "SYM",
                Language::Korean => "대칭",
                Language::Japanese => "対称",
            },
            AxisKey::FacialProportions => match lang {
                Language::English => "RATIO",
                Language::Korean => "비율",
                Language::Japanese => "比率",
            },
            AxisKey::SkinQuality => match lang {
                Language::English => "SKIN",
                Language::Korean => "피부",
                Language::Japanese => "肌質",
            },
            AxisKey::EyeExpression => match lang {
                Language::English => "EYES",
                Language::Korean => "눈빛",
                Language::Japanese => "目元",
            },
            AxisKey::HairGrooming => match lang {
                Language::English => "HAIR",
                Language::Korean => "헤어",
                Language::Japanese => "髪型",
            },
            AxisKey::BoneStructure => match lang {
                Language::English => "BONE",
                Language::Korean => "골격",
                Language::Japanese => "骨格",
            },
            AxisKey::ExpressionCharisma => match lang {
                Language::English => "AURA",
                Language::Korean => "아우라",
                Language::Japanese => "オーラ",
            },
            AxisKey::LightingColor => match lang {
                Language::English => "LIGHT",
                Language::Korean => "조명",
                Language::Japanese => "照明",
            },
            AxisKey::BackgroundFraming => match lang {
                Language::English => "FRAME",
                Language::Korean => "배경",
                Language::Japanese => "背景",
            },
            AxisKey::PhotogenicImpact => match lang {
                Language::English => "IMPACT",
                Language::Korean => "임팩트",
                Language::Japanese => "インパクト",
            },
        },
        MessageKey::AxisDesc(a) => match a {
            AxisKey::FacialSymmetry => match lang {
                Language::English => "Left-right face balance",
                Language::Korean => "좌우 얼굴 균형",
                Language::Japanese => "左右のバランス",
            },
            AxisKey::FacialProportions => match lang {
                Language::English => "Golden ratio & feature placement",
                Language::Korean => "황금비율, 이목구비 배치",
                Language::Japanese => "黄金比と配置",
            },
            AxisKey::SkinQuality => match lang {
                Language::English => "Smoothness & evenness",
                Language::Korean => "매끄러움, 톤 균일성",
                Language::Japanese => "滑らかさと均一性",
            },
            AxisKey::EyeExpression => match lang {
                Language::English => "Eye vibrance & emotion",
                Language::Korean => "눈의 생동감과 표현력",
                Language::Japanese => "目の生命力と表現",
            },
            AxisKey::HairGrooming => match lang {
                Language::English => "Style & framing",
                Language::Korean => "스타일과 프레이밍",
                Language::Japanese => "スタイルとフレーミング",
            },
            AxisKey::BoneStructure => match lang {
                Language::English => "Jawline & structure",
                Language::Korean => "턱선과 골격 정의",
                Language::Japanese => "顎のラインと骨格",
            },
            AxisKey::ExpressionCharisma => match lang {
                Language::English => "Expression & mood",
                Language::Korean => "표정과 분위기",
                Language::Japanese => "表情と雰囲気",
            },
            AxisKey::LightingColor => match lang {
                Language::English => "Lighting quality & color",
                Language::Korean => "조명 품질과 색감",
                Language::Japanese => "照明品質と色彩",
            },
            AxisKey::BackgroundFraming => match lang {
                Language::English => "Background & composition",
                Language::Korean => "배경과 구도",
                Language::Japanese => "背景と構図",
            },
            AxisKey::PhotogenicImpact => match lang {
                Language::English => "First-impression impact",
                Language::Korean => "첫인상 임팩트",
                Language::Japanese => "第一印象のインパクト",
            },
        },
    }
}

/// Every message has a non-empty text in every language.
pub proof fn lemma_message_text_nonempty(lang: Language, k: MessageKey)
    ensures
        message_text(lang, k).len() > 0,
{
    reveal_strlit("");
    reveal_strlit("Start Battle");
    reveal_strlit("배틀 시작");
    reveal_strlit("バトル開始");
    reveal_strlit("Open Latest Report");
    reveal_strlit("최근 리포트 열기");
    reveal_strlit("最新レポートを開く");
    reveal_strlit("Share to SNS");
    reveal_strlit("SNS 공유");
    reveal_strlit("SNSシェア");
    reveal_strlit("Public Web Share (Phone + SNS)");
    reveal_strlit("공개 웹 공유 (폰 + SNS)");
    reveal_strlit("公開ウェブ共有（スマホ + SNS）");
    reveal_strlit("View on Phone (same Wi-Fi / LAN)");
    reveal_strlit("폰에서 보기 (같은 Wi-Fi/LAN)");
    reveal_strlit("スマホで見る（同じ Wi-Fi / LAN）");
    reveal_strlit("Settings");
    reveal_strlit("설정");
    reveal_strlit("設定");
    reveal_strlit("Quit");
    reveal_strlit("종료");
    reveal_strlit("終了");
    reveal_strlit("Star BetterThanYou on GitHub");
    reveal_strlit("GitHub 스타 주기");
    reveal_strlit("GitHubスター");
    reveal_strlit("Back");
    reveal_strlit("뒤로");
    reveal_strlit("戻る");
    reveal_strlit("Rematch Same Pair");
    reveal_strlit("같은 상대로 재대결");
    reveal_strlit("再戦");
    reveal_strlit("Choose New Portraits");
    reveal_strlit("새 사진 선택");
    reveal_strlit("新しい写真を選択");
    reveal_strlit("Battle Setup");
    reveal_strlit("배틀 준비");
    reveal_strlit("バトル準備");
    reveal_strlit("LEFT PORTRAIT");
    reveal_strlit("왼쪽 초상화");
    reveal_strlit("左の写真");
    reveal_strlit("RIGHT PORTRAIT");
    reveal_strlit("오른쪽 초상화");
    reveal_strlit("右の写真");
    reveal_strlit("waiting...");
    reveal_strlit("대기 중...");
    reveal_strlit("待機中...");
    reveal_strlit("ready");
    reveal_strlit("준비 완료");
    reveal_strlit("準備完了");
    reveal_strlit("Switch side");
    reveal_strlit("패널 전환");
    reveal_strlit("パネル切替");
    reveal_strlit("fill both");
    reveal_strlit("양쪽 다 입력");
    reveal_strlit("両方入力");
    reveal_strlit("Cancel");
    reveal_strlit("취소");
    reveal_strlit("キャンセル");
    reveal_strlit("PRESS ANY KEY TO START");
    reveal_strlit("아무 키를 눌러 시작");
    reveal_strlit("キーを押してスタート");
    reveal_strlit("Analyzing...");
    reveal_strlit("분석 중...");
    reveal_strlit("分析中...");
    reveal_strlit("BATTLE RESULT");
    reveal_strlit("배틀 결과");
    reveal_strlit("バトル結果");
    reveal_strlit("WINNER");
    reveal_strlit("승자");
    reveal_strlit("勝者");
    reveal_strlit("Judge mode");
    reveal_strlit("심판 모드");
    reveal_strlit("審査モード");
    reveal_strlit("Model");
    reveal_strlit("모델");
    reveal_strlit("モデル");
    reveal_strlit("Language");
    reveal_strlit("언어");
    reveal_strlit("言語");
    reveal_strlit("API keys");
    reveal_strlit("API 키 관리");
    reveal_strlit("APIキー管理");
    reveal_strlit("Labels");
    reveal_strlit("라벨");
    reveal_strlit("ラベル");
    reveal_strlit("Output directory");
    reveal_strlit("출력 디렉토리");
    reveal_strlit("出力ディレクトリ");
    reveal_strlit("Aesthetic tuning");
    reveal_strlit("미적 조정");
    reveal_strlit("美的調整");
    reveal_strlit("Battle Report");
    reveal_strlit("배틀 리포트");
    reveal_strlit("バトルレポート");
    reveal_strlit("Winner");
    reveal_strlit("승자");
    reveal_strlit("勝者");
    reveal_strlit("Overall Take");
    reveal_strlit("총평");
    reveal_strlit("総評");
    reveal_strlit("Why This Won");
    reveal_strlit("승리 이유");
    reveal_strlit("勝利の理由");
    reveal_strlit("Jury Notes");
    reveal_strlit("심사위원 노트");
    reveal_strlit("ジュリーノート");
    reveal_strlit("Heuristic Analysis");
    reveal_strlit("휴리스틱 분석");
    reveal_strlit("ヒューリスティック分析");
    reveal_strlit("AI Judge");
    reveal_strlit("AI 심사관");
    reveal_strlit("AI審査官");
    reveal_strlit("Combined Score");
    reveal_strlit("종합 점수");
    reveal_strlit("総合スコア");
    reveal_strlit("Score");
    reveal_strlit("점수");
    reveal_strlit("スコア");
    reveal_strlit("Strengths");
    reveal_strlit("강점");
    reveal_strlit("強み");
    reveal_strlit("Weaknesses");
    reveal_strlit("약점");
    reveal_strlit("弱み");
    reveal_strlit("Ability Comparison");
    reveal_strlit("능력치 비교");
    reveal_strlit("能力値比較");
    reveal_strlit("Per-Portrait Analysis");
    reveal_strlit("사진별 분석");
    reveal_strlit("写真別分析");
    reveal_strlit("Margin");
    reveal_strlit("격차");
    reveal_strlit("差");
    reveal_strlit("DECISIVE!");
    reveal_strlit("압도적!");
    reveal_strlit("圧倒的！");
    reveal_strlit("LEFT");
    reveal_strlit("왼쪽");
    reveal_strlit("左");
    reveal_strlit("RIGHT");
    reveal_strlit("오른쪽");
    reveal_strlit("右");
    reveal_strlit("VS");
    reveal_strlit("VS");
    reveal_strlit("VS");
    reveal_strlit("Generated");
    reveal_strlit("생성 시각");
    reveal_strlit("生成時刻");
    reveal_strlit("Facial Symmetry");
    reveal_strlit("얼굴 대칭");
    reveal_strlit("顔の対称性");
    reveal_strlit("Facial Proportions");
    reveal_strlit("얼굴 비율");
    reveal_strlit("顔のプロポーション");
    reveal_strlit("Skin Quality");
    reveal_strlit("피부 상태");
    reveal_strlit("肌の質");
    reveal_strlit("Eye Expression");
    reveal_strlit("눈 표현력");
    reveal_strlit("目の表現力");
    reveal_strlit("Hair & Grooming");
    reveal_strlit("헤어 & 그루밍");
    reveal_strlit("ヘア & グルーミング");
    reveal_strlit("Bone Structure");
    reveal_strlit("골격 구조");
    reveal_strlit("骨格構造");
    reveal_strlit("Expression & Charisma");
    reveal_strlit("표정 & 카리스마");
    reveal_strlit("表情 & カリスマ");
    reveal_strlit("Lighting & Color");
    reveal_strlit("조명 & 색감");
    reveal_strlit("照明 & 色");
    reveal_strlit("Background & Framing");
    reveal_strlit("배경 & 구도");
    reveal_strlit("背景 & 構図");
    reveal_strlit("Photogenic Impact");
    reveal_strlit("포토제닉 임팩트");
    reveal_strlit("フォトジェニックインパクト");
    reveal_strlit("SYM");
    reveal_strlit("대칭");
    reveal_strlit("対称");
    reveal_strlit("RATIO");
    reveal_strlit("비율");
    reveal_strlit("比率");
    reveal_strlit("SKIN");
    reveal_strlit("피부");
    reveal_strlit("肌質");
    reveal_strlit("EYES");
    reveal_strlit("눈빛");
    reveal_strlit("目元");
    reveal_strlit("HAIR");
    reveal_strlit("헤어");
    reveal_strlit("髪型");
    reveal_strlit("BONE");
    reveal_strlit("골격");
    reveal_strlit("骨格");
    reveal_strlit("AURA");
    reveal_strlit("아우라");
    reveal_strlit("オーラ");
    reveal_strlit("LIGHT");
    reveal_strlit("조명");
    reveal_strlit("照明");
    reveal_strlit("FRAME");
    reveal_strlit("배경");
    reveal_strlit("背景");
    reveal_strlit("IMPACT");
    reveal_strlit("임팩트");
    reveal_strlit("インパクト");
    reveal_strlit("Left-right face balance");
    reveal_strlit("좌우 얼굴 균형");
    reveal_strlit("左右のバランス");
    reveal_strlit("Golden ratio & feature placement");
    reveal_strlit("황금비율, 이목구비 배치");
    reveal_strlit("黄金比と配置");
    reveal_strlit("Smoothness & evenness");
    reveal_strlit("매끄러움, 톤 균일성");
    reveal_strlit("滑らかさと均一性");
    reveal_strlit("Eye vibrance & emotion");
    reveal_strlit("눈의 생동감과 표현력");
    reveal_strlit("目の生命力と表現");
    reveal_strlit("Style & framing");
    reveal_strlit("스타일과 프레이밍");
    reveal_strlit("スタイルとフレーミング");
    reveal_strlit("Jawline & structure");
    reveal_strlit("턱선과 골격 정의");
    reveal_strlit("顎のラインと骨格");
    reveal_strlit("Expression & mood");
    reveal_strlit("표정과 분위기");
    reveal_strlit("表情と雰囲気");
    reveal_strlit("Lighting quality & color");
    reveal_strlit("조명 품질과 색감");
    reveal_strlit("照明品質と色彩");
    reveal_strlit("Background & composition");
    reveal_strlit("배경과 구도");
    reveal_strlit("背景と構図");
    reveal_strlit("First-impression impact");
    reveal_strlit("첫인상 임팩트");
    reveal_strlit("第一印象のインパクト");
}

/// The text that `t` gives for `key`: the message it names, or empty for an
/// unknown key.
pub open spec fn t_text(lang: Language, key: Seq<char>) -> Seq<char> {
    match message_key_of(key) {
        Some(k) => message_text(lang, k),
        None => ""@,
    }
}

/// Localized text for a message key such as `"start_battle"` or
/// `"axis_skin_quality"`; empty for an unknown key.
pub fn t(lang: Language, key: &str) -> (r: &'static str)
    ensures
        r@ == t_text(lang, key@),
{
    match parse_message_key(key) {
        Some(k) => message(lang, k),
        None => "",
    }
}

/// Every short axis label is two to six characters long, so it fits a
/// cramped column.
pub proof fn lemma_axis_short_length(lang: Language, a: AxisKey)
    ensures
        2 <= message_text(lang, MessageKey::AxisShort(a)).len() <= 6,
{
    reveal_strlit("SYM");
    reveal_strlit("대칭");
    reveal_strlit("対称");
    reveal_strlit("RATIO");
    reveal_strlit("비율");
    reveal_strlit("比率");
    reveal_strlit("SKIN");
    reveal_strlit("피부");
    reveal_strlit("肌質");
    reveal_strlit("EYES");
    reveal_strlit("눈빛");
    reveal_strlit("目元");
    reveal_strlit("HAIR");
    reveal_strlit("헤어");
    reveal_strlit("髪型");
    reveal_strlit("BONE");
    reveal_strlit("골격");
    reveal_strlit("骨格");
    reveal_strlit("AURA");
    reveal_strlit("아우라");
    reveal_strlit("オーラ");
    reveal_strlit("LIGHT");
    reveal_strlit("조명");
    reveal_strlit("照明");
    reveal_strlit("FRAME");
    reveal_strlit("배경");
    reveal_strlit("背景");
    reveal_strlit("IMPACT");
    reveal_strlit("임팩트");
    reveal_strlit("インパクト");
}

/// The short localized label of the axis named `key`, or `key` itself for an
/// unknown axis.
pub fn localized_axis_short(lang: Language, key: &str) -> (r: String)
    ensures
        r@ == match axis_key_of(key@) {
            Some(a) => message_text(lang, MessageKey::AxisShort(a)),
            None => key@,
        },
        axis_key_of(key@) is Some ==> 2 <= r@.len() <= 6,
{
    match parse_axis_key(key) {
        Some(a) => {
            proof {
                lemma_axis_short_length(lang, a);
            }
            owned(message(lang, MessageKey::AxisShort(a)))
        },
        None => owned(key),
    }
}

/// What the axis named `key` measures, localized; empty for an unknown axis.
pub fn localized_axis_desc(lang: Language, key: &str) -> (r: String)
    ensures
        r@ == match axis_key_of(key@) {
            Some(a) => message_text(lang, MessageKey::AxisDesc(a)),
            None => ""@,
        },
{
    match parse_axis_key(key) {
        Some(a) => owned(message(lang, MessageKey::AxisDesc(a))),
        None => {
            proof {
                reveal_strlit("");
            }
            String::new()
        },
    }
}

/// The localized label of the axis named `key`, or `key` itself for an
/// unknown axis.
pub fn localized_axis_label(lang: Language, key: &str) -> (r: String)
    ensures
        r@ == match axis_key_of(key@) {
            Some(a) => message_text(lang, MessageKey::AxisLabel(a)),
            None => key@,
        },
{
    match parse_axis_key(key) {
        Some(a) => owned(message(lang, MessageKey::AxisLabel(a))),
        None => owned(key),
    }
}

/// `t` gives an empty text exactly for keys that name no message, whatever
/// the language; every message exists in all three languages.
pub proof fn lemma_t_empty_iff_unknown(lang: Language, key: Seq<char>)
    ensures
        (t_text(lang, key).len() == 0) == (message_key_of(key) is None),
{
    reveal_strlit("");
    if let Some(k) = message_key_of(key) {
        lemma_message_text_nonempty(lang, k);
    }
}

/// A term as written in each language: up to three characters of the
/// English text, and of the Korean and Japanese ones (`'\0'` pads a shorter
/// term).
pub struct Term {
    pub en: (char, char, char),
    pub ko: (char, char, char),
    pub ja: (char, char, char),
}

/// `s` holds the term `t` (one to three characters, padded with `'\0'`).
pub open spec fn holds_term(s: Seq<char>, t: (char, char, char)) -> bool {
    exists|i: int|
        0 <= i < s.len() && #[trigger] s[i] == t.0 && (t.1 == '\0' || (i + 1 < s.len() && s[i + 1]
            == t.1 && (t.2 == '\0' || (i + 2 < s.len() && s[i + 2] == t.2))))
}

/// A glossary of the interface's terms and how each language writes them,
/// such as `Model`, `모델` and `モデ`, or `mod` (of "Judge mode"), `판` (of
/// "심판") and `ド` (of "モード").
pub open spec fn glossary() -> Seq<Term> {
    seq![
        Term { en: ('M', 'o', '\0'), ko: ('델', '\0', '\0'), ja: ('モ', 'デ', '\0') },
        Term { en: ('m', 'o', 'd'), ko: ('판', '\0', '\0'), ja: ('ド', '\0', '\0') },
        Term { en: ('A', 'P', '\0'), ko: ('P', '\0', '\0'), ja: ('管', '\0', '\0') },
        Term { en: ('A', 'R', '\0'), ko: ('눌', '\0', '\0'), ja: ('押', '\0', '\0') },
        Term { en: ('A', 'U', '\0'), ko: ('우', '라', '\0'), ja: ('オ', '\0', '\0') },
        Term { en: ('A', 'b', '\0'), ko: ('교', '\0', '\0'), ja: ('較', '\0', '\0') },
        Term { en: ('A', 'e', '\0'), ko: ('미', '\0', '\0'), ja: ('美', '\0', '\0') },
        Term { en: ('A', 'n', '\0'), ko: ('석', '\0', '\0'), ja: ('析', '\0', '\0') },
        Term { en: ('B', 'A', '\0'), ko: ('결', '과', '\0'), ja: ('結', '\0', '\0') },
        Term { en: ('B', 'e', '\0'), ko: ('주', '\0', '\0'), ja: ('b', '\0', '\0') },
        Term { en: ('B', 'o', '\0'), ko: ('구', '조', '\0'), ja: ('造', '\0', '\0') },
        Term { en: ('C', 'I', '\0'), ko: ('압', '\0', '\0'), ja: ('倒', '\0', '\0') },
        Term { en: ('C', 'a', '\0'), ko: ('취', '\0', '\0'), ja: ('ャ', '\0', '\0') },
        Term { en: ('E', 'y', '\0'), ko: ('현', '\0', '\0'), ja: ('現', '\0', '\0') },
        Term { en: ('G', 'e', '\0'), ko: ('각', '\0', '\0'), ja: ('時', '\0', '\0') },
        Term { en: ('G', 'o', '\0'), ko: ('금', '\0', '\0'), ja: ('配', '\0', '\0') },
        Term { en: ('G', 'r', '\0'), ko: ('그', '\0', '\0'), ja: ('ヘ', '\0', '\0') },
        Term { en: ('H', 'e', '\0'), ko: ('휴', '\0', '\0'), ja: ('テ', '\0', '\0') },
        Term { en: ('I', 'T', '\0'), ko: ('화', '\0', '\0'), ja: ('の', '写', '\0') },
        Term { en: ('I', 'm', '\0'), ko: ('제', '\0', '\0'), ja: ('ォ', '\0', '\0') },
        Term { en: ('J', 'a', '\0'), ko: ('턱', '\0', '\0'), ja: ('顎', '\0', '\0') },
        Term { en: ('L', 'A', '\0'), ko: ('서', '\0', '\0'), ja: ('見', '\0', '\0') },
        Term { en: ('L', 'e', '\0'), ko: ('좌', '\0', '\0'), ja: ('左', '右', '\0') },
        Term { en: ('L', 'i', '\0'), ko: ('색', '\0', '\0'), ja: ('色', '\0', '\0') },
        Term { en: ('M', 'a', '\0'), ko: ('차', '\0', '\0'), ja: ('差', '\0', '\0') },
        Term { en: ('N', 'S', '\0'), ko: ('공', '\0', '\0'), ja: ('N', 'S', '\0') },
        Term { en: ('N', 'e', '\0'), ko: ('택', '\0', '\0'), ja: ('い', '\0', '\0') },
        Term { en: ('N', 'o', '\0'), ko: ('원', '\0', '\0'), ja: ('ノ', '\0', '\0') },
        Term { en: ('O', 'p', '\0'), ko: ('최', '\0', '\0'), ja: ('く', '\0', '\0') },
        Term { en: ('O', 'u', '\0'), ko: ('렉', '\0', '\0'), ja: ('出', '\0', '\0') },
        Term { en: ('O', 'v', '\0'), ko: ('평', '\0', '\0'), ja: ('評', '\0', '\0') },
        Term { en: ('P', 'a', '\0'), ko: ('재', '\0', '\0'), ja: ('再', '\0', '\0') },
        Term { en: ('P', 'e', '\0'), ko: ('별', '\0', '\0'), ja: ('別', '\0', '\0') },
        Term { en: ('P', 'u', '\0'), ko: ('웹', '\0', '\0'), ja: ('公', '\0', '\0') },
        Term { en: ('S', 'c', '\0'), ko: ('수', '\0', '\0'), ja: ('コ', '\0', '\0') },
        Term { en: ('S', 'k', '\0'), ko: ('태', '\0', '\0'), ja: ('の', '質', '\0') },
        Term { en: ('S', 'm', '\0'), ko: ('매', '\0', '\0'), ja: ('滑', '\0', '\0') },
        Term { en: ('S', 'w', '\0'), ko: ('전', '\0', '\0'), ja: ('ネ', '\0', '\0') },
        Term { en: ('V', 'S', '\0'), ko: ('V', '\0', '\0'), ja: ('V', '\0', '\0') },
        Term { en: ('W', 'h', '\0'), ko: ('승', '리', '\0'), ja: ('由', '\0', '\0') },
        Term { en: ('Y', 'E', '\0'), ko: ('빛', '\0', '\0'), ja: ('元', '\0', '\0') },
        Term { en: ('a', 'b', '\0'), ko: ('벨', '\0', '\0'), ja: ('ベ', '\0', '\0') },
        Term { en: ('a', 'd', '\0'), ko: ('완', '\0', '\0'), ja: ('完', '\0', '\0') },
        Term { en: ('a', 'g', '\0'), ko: ('언', '\0', '\0'), ja: ('言', '\0', '\0') },
        Term { en: ('b', 'o', '\0'), ko: ('다', '\0', '\0'), ja: ('入', '\0', '\0') },
        Term { en: ('b', 'r', '\0'), ko: ('동', '\0', '\0'), ja: ('命', '\0', '\0') },
        Term { en: ('e', 'p', '\0'), ko: ('리', '포', '\0'), ja: ('レ', 'ポ', '\0') },
        Term { en: ('f', 'r', '\0'), ko: ('레', '\0', '\0'), ja: ('フ', 'レ', '\0') },
        Term { en: ('g', 'r', '\0'), ko: ('구', '도', '\0'), ja: ('図', '\0', '\0') },
        Term { en: ('g', 's', '\0'), ko: ('설', '\0', '\0'), ja: ('定', '\0', '\0') },
        Term { en: ('g', 't', '\0'), ko: ('강', '\0', '\0'), ja: ('強', '\0', '\0') },
        Term { en: ('i', 'm', '\0'), ko: ('첫', '\0', '\0'), ja: ('第', '\0', '\0') },
        Term { en: ('k', 'n', '\0'), ko: ('약', '\0', '\0'), ja: ('弱', '\0', '\0') },
        Term { en: ('m', 'b', '\0'), ko: ('합', '\0', '\0'), ja: ('合', '\0', '\0') },
        Term { en: ('q', 'u', '\0'), ko: ('질', '\0', '\0'), ja: ('彩', '\0', '\0') },
        Term { en: ('s', 'm', '\0'), ko: ('카', '\0', '\0'), ja: ('カ', '\0', '\0') },
        Term { en: ('u', 'i', '\0'), ko: ('종', '료', '\0'), ja: ('終', '\0', '\0') },
        Term { en: ('w', 'a', '\0'), ko: ('대', '기', '\0'), ja: ('機', '\0', '\0') },
        Term { en: ('c', 'o', 'm'), ko: ('경', '과', '\0'), ja: ('と', '構', '\0') },
        Term { en: ('o', 'o', 'd'), ko: ('분', '위', '\0'), ja: ('雰', '\0', '\0') },
    ]
}

/// A message's three texts agree on the term `t`: its English text holds the
/// term exactly when its Korean text does, and its Korean text exactly when
/// its Japanese text does.
pub open spec fn terms_agree(k: MessageKey, t: Term) -> bool {
    &&& holds_term(message_text(Language::English, k), t.en) <==> holds_term(
        message_text(Language::Korean, k),
        t.ko,
    )
    &&& holds_term(message_text(Language::Korean, k), t.ko) <==> holds_term(
        message_text(Language::Japanese, k),
        t.ja,
    )
}

proof fn lemma_terms_start_battle(m: int)
    requires
        0 <= m < 60,
    ensures
        terms_agree(MessageKey::StartBattle, glossary()[m]),
{
    reveal_strlit("Start Battle");
    reveal_strlit("배틀 시작");
    reveal_strlit("バトル開始");
    let e = message_text(Language::English, MessageKey::StartBattle);
    let ko = message_text(Language::Korean, MessageKey::StartBattle);
    let ja = message_text(Language::Japanese, MessageKey::StartBattle);
    if m == 0 {
    } else if m == 1 {
    } else if m == 2 {
    } else if m == 3 {
    } else if m == 4 {
    } else if m == 5 {
    } else if m == 6 {
    } else if m == 7 {
    } else if m == 8 {
    } else if m == 9 {
    } else if m == 10 {
    } else if m == 11 {
    } else if m == 12 {
    } else if m == 13 {
    } else if m == 14 {
    } else if m == 15 {
    } else if m == 16 {
    } else if m == 17 {
    } else if m == 18 {
    } else if m == 19 {
    } else if m == 20 {
    } else if m == 21 {
    } else if m == 22 {
    } else if m == 23 {
    } else if m == 24 {
    } else if m == 25 {
    } else if m == 26 {
    } else if m == 27 {
    } else if m == 28 {
    } else if m == 29 {
    } else if m == 30 {
    } else if m == 31 {
    } else if m == 32 {
    } else if m == 33 {
    } else if m == 34 {
    } else if m == 35 {
    } else if m == 36 {
    } else if m == 37 {
    } else if m == 38 {
    } else if m == 39 {
    } else if m == 40 {
    } else if m == 41 {
    } else if m == 42 {
    } else if m == 43 {
    } else if m == 44 {
    } else if m == 45 {
    } else if m == 46 {
    } else if m == 47 {
    } else if m == 48 {
    } else if m == 49 {
    } else if m == 50 {
    } else if m == 51 {
    } else if m == 52 {
    } else if m == 53 {
    } else if m == 54 {
    } else if m == 55 {
    } else if m == 56 {
    } else if m == 57 {
    } else if m == 58 {
    } else if m == 59 {
    }
}

proof fn lemma_terms_open_report(m: int)
    requires
        0 <= m < 60,
    ensures
        terms_agree(MessageKey::OpenReport, glossary()[m]),
{
    reveal_strlit("Open Latest Report");
    reveal_strlit("최근 리포트 열기");
    reveal_strlit("最新レポートを開く");
    let e = message_text(Language::English, MessageKey::OpenReport);
    let ko = message_text(Language::Korean, MessageKey::OpenReport);
    let ja = message_text(Language::Japanese, MessageKey::OpenReport);
    if m == 0 {
    } else if m == 1 {
    } else if m == 2 {
    } else if m == 3 {
    } else if m == 4 {
    } else if m == 5 {
    } else if m == 6 {
    } else if m == 7 {
    } else if m == 8 {
    } else if m == 9 {
    } else if m == 10 {
    } else if m == 11 {
    } else if m == 12 {
    } else if m == 13 {
    } else if m == 14 {
    } else if m == 15 {
    } else if m == 16 {
    } else if m == 17 {
    } else if m == 18 {
    } else if m == 19 {
    } else if m == 20 {
    } else if m == 21 {
    } else if m == 22 {
    } else if m == 23 {
    } else if m == 24 {
    } else if m == 25 {
    } else if m == 26 {
    } else if m == 27 {
    } else if m == 28 {
        assert(e[0] == 'O');
        assert(ko[0] == '최');
        assert(ja[8] == 'く');
    } else if m == 29 {
    } else if m == 30 {
    } else if m == 31 {
    } else if m == 32 {
    } else if m == 33 {
    } else if m == 34 {
    } else if m == 35 {
    } else if m == 36 {
    } else if m == 37 {
    } else if m == 38 {
    } else if m == 39 {
    } else if m == 40 {
    } else if m == 41 {
    } else if m == 42 {
    } else if m == 43 {
    } else if m == 44 {
    } else if m == 45 {
    } else if m == 46 {
        assert(e[13] == 'e');
        assert(ko[3] == '리');
        assert(ja[2] == 'レ');
    } else if m == 47 {
    } else if m == 48 {
    } else if m == 49 {
    } else if m == 50 {
    } else if m == 51 {
    } else if m == 52 {
    } else if m == 53 {
    } else if m == 54 {
    } else if m == 55 {
    } else if m == 56 {
    } else if m == 57 {
    } else if m == 58 {
    } else if m == 59 {
    }
}

proof fn lemma_terms_share_result(m: int)
    requires
        0 <= m < 60,
    ensures
        terms_agree(MessageKey::ShareResult, glossary()[m]),
{
    reveal_strlit("Share to SNS");
    reveal_strlit("SNS 공유");
    reveal_strlit("SNSシェア");
    let e = message_text(Language::English, MessageKey::ShareResult);
    let ko = message_text(Language::Korean, MessageKey::ShareResult);
    let ja = message_text(Language::Japanese, MessageKey::ShareResult);
    if m == 0 {
    } else if m == 1 {
    } else if m == 2 {
    } else if m == 3 {
    } else if m == 4 {
    } else if m == 5 {
    } else if m == 6 {
    } else if m == 7 {
    } else if m == 8 {
    } else if m == 9 {
    } else if m == 10 {
    } else if m == 11 {
    } else if m == 12 {
    } else if m == 13 {
    } else if m == 14 {
    } else if m == 15 {
    } else if m == 16 {
    } else if m == 17 {
    } else if m == 18 {
    } else if m == 19 {
    } else if m == 20 {
    } else if m == 21 {
    } else if m == 22 {
    } else if m == 23 {
    } else if m == 24 {
    } else if m == 25 {
        assert(e[10] == 'N');
        assert(ko[4] == '공');
        assert(ja[1] == 'N');
    } else if m == 26 {
    } else if m == 27 {
    } else if m == 28 {
    } else if m == 29 {
    } else if m == 30 {
    } else if m == 31 {
    } else if m == 32 {
    } else if m == 33 {
    } else if m == 34 {
    } else if m == 35 {
    } else if m == 36 {
    } else if m == 37 {
    } else if m == 38 {
    } else if m == 39 {
    } else if m == 40 {
    } else if m == 41 {
    } else if m == 42 {
    } else if m == 43 {
    } else if m == 44 {
    } else if m == 45 {
    } else if m == 46 {
    } else if m == 47 {
    } else if m == 48 {
    } else if m == 49 {
    } else if m == 50 {
    } else if m == 51 {
    } else if m == 52 {
    } else if m == 53 {
    } else if m == 54 {
    } else if m == 55 {
    } else if m == 56 {
    } else if m == 57 {
    } else if m == 58 {
    } else if m == 59 {
    }
}

proof fn lemma_terms_publish_web(m: int)
    requires
        0 <= m < 60,
    ensures
        terms_agree(MessageKey::PublishWeb, glossary()[m]),
{
    reveal_strlit("Public Web Share (Phone + SNS)");
    reveal_strlit("공개 웹 공유 (폰 + SNS)");
    reveal_strlit("公開ウェブ共有（スマホ + SNS）");
    let e = message_text(Language::English, MessageKey::PublishWeb);
    let ko = message_text(Language::Korean, MessageKey::PublishWeb);
    let ja = message_text(Language::Japanese, MessageKey::PublishWeb);
    if m == 0 {
    } else if m == 1 {
    } else if m == 2 {
    } else if m == 3 {
    } else if m == 4 {
    } else if m == 5 {
    } else if m == 6 {
    } else if m == 7 {
    } else if m == 8 {
    } else if m == 9 {
    } else if m == 10 {
    } else if m == 11 {
    } else if m == 12 {
    } else if m == 13 {
    } else if m == 14 {
    } else if m == 15 {
    } else if m == 16 {
    } else if m == 17 {
    } else if m == 18 {
    } else if m == 19 {
    } else if m == 20 {
    } else if m == 21 {
    } else if m == 22 {
    } else if m == 23 {
    } else if m == 24 {
    } else if m == 25 {
        assert(e[27] == 'N');
        assert(ko[0] == '공');
        assert(ja[15] == 'N');
    } else if m == 26 {
    } else if m == 27 {
    } else if m == 28 {
    } else if m == 29 {
    } else if m == 30 {
    } else if m == 31 {
    } else if m == 32 {
    } else if m == 33 {
        assert(e[0] == 'P');
        assert(ko[3] == '웹');
        assert(ja[0] == '公');
    } else if m == 34 {
    } else if m == 35 {
    } else if m == 36 {
    } else if m == 37 {
    } else if m == 38 {
    } else if m == 39 {
    } else if m == 40 {
    } else if m == 41 {
    } else if m == 42 {
    } else if m == 43 {
    } else if m == 44 {
    } else if m == 45 {
    } else if m == 46 {
    } else if m == 47 {
    } else if m == 48 {
    } else if m == 49 {
    } else if m == 50 {
    } else if m == 51 {
    } else if m == 52 {
    } else if m == 53 {
    } else if m == 54 {
    } else if m == 55 {
    } else if m == 56 {
    } else if m == 57 {
    } else if m == 58 {
    } else if m == 59 {
    }
}

proof fn lemma_terms_serve_lan(m: int)
    requires
        0 <= m < 60,
    ensures
        terms_agree(MessageKey::ServeLan, glossary()[m]),
{
    reveal_strlit("View on Phone (same Wi-Fi / LAN)");
    reveal_strlit("폰에서 보기 (같은 Wi-Fi/LAN)");
    reveal_strlit("スマホで見る（同じ Wi-Fi / LAN）");
    let e = message_text(Language::English, MessageKey::ServeLan);
    let ko = message_text(Language::Korean, MessageKey::ServeLan);
    let ja = message_text(Language::Japanese, MessageKey::ServeLan);
    if m == 0 {
    } else if m == 1 {
    } else if m == 2 {
    } else if m == 3 {
    } else if m == 4 {
    } else if m == 5 {
    } else if m == 6 {
    } else if m == 7 {
    } else if m == 8 {
    } else if m == 9 {
    } else if m == 10 {
    } else if m == 11 {
    } else if m == 12 {
    } else if m == 13 {
    } else if m == 14 {
    } else if m == 15 {
    } else if m == 16 {
    } else if m == 17 {
    } else if m == 18 {
    } else if m == 19 {
    } else if m == 20 {
    } else if m == 21 {
        assert(e[28] == 'L');
        assert(ko[2] == '서');
        assert(ja[4] == '見');
    } else if m == 22 {
    } else if m == 23 {
    } else if m == 24 {
    } else if m == 25 {
    } else if m == 26 {
    } else if m == 27 {
    } else if m == 28 {
    } else if m == 29 {
    } else if m == 30 {
    } else if m == 31 {
    } else if m == 32 {
    } else if m == 33 {
    } else if m == 34 {
    } else if m == 35 {
    } else if m == 36 {
    } else if m == 37 {
    } else if m == 38 {
    } else if m == 39 {
    } else if m == 40 {
    } else if m == 41 {
    } else if m == 42 {
    } else if m == 43 {
    } else if m == 44 {
    } else if m == 45 {
    } else if m == 46 {
    } else if m == 47 {
    } else if m == 48 {
    } else if m == 49 {
    } else if m == 50 {
    } else if m == 51 {
    } else if m == 52 {
    } else if m == 53 {
    } else if m == 54 {
    } else if m == 55 {
    } else if m == 56 {
    } else if m == 57 {
    } else if m == 58 {
    } else if m == 59 {
    }
}

proof fn lemma_terms_settings(m: int)
    requires
        0 <= m < 60,
    ensures
        terms_agree(MessageKey::Settings, glossary()[m]),
{
    reveal_strlit("Settings");
    reveal_strlit("설정");
    reveal_strlit("設定");
    let e = message_text(Language::English, MessageKey::Settings);
    let ko = message_text(Language::Korean, MessageKey::Settings);
    let ja = message_text(Language::Japanese, MessageKey::Settings);
    if m == 0 {
    } else if m == 1 {
    } else if m == 2 {
    } else if m == 3 {
    } else if m == 4 {
    } else if m == 5 {
    } else if m == 6 {
    } else if m == 7 {
    } else if m == 8 {
    } else if m == 9 {
    } else if m == 10 {
    } else if m == 11 {
    } else if m == 12 {
    } else if m == 13 {
    } else if m == 14 {
    } else if m == 15 {
    } else if m == 16 {
    } else if m == 17 {
    } else if m == 18 {
    } else if m == 19 {
    } else if m == 20 {
    } else if m == 21 {
    } else if m == 22 {
    } else if m == 23 {
    } else if m == 24 {
    } else if m == 25 {
    } else if m == 26 {
    } else if m == 27 {
    } else if m == 28 {
    } else if m == 29 {
    } else if m == 30 {
    } else if m == 31 {
    } else if m == 32 {
    } else if m == 33 {
    } else if m == 34 {
    } else if m == 35 {
    } else if m == 36 {
    } else if m == 37 {
    } else if m == 38 {
    } else if m == 39 {
    } else if m == 40 {
    } else if m == 41 {
    } else if m == 42 {
    } else if m == 43 {
    } else if m == 44 {
    } else if m == 45 {
    } else if m == 46 {
    } else if m == 47 {
    } else if m == 48 {
    } else if m == 49 {
        assert(e[6] == 'g');
        assert(ko[0] == '설');
        assert(ja[1] == '定');
    } else if m == 50 {
    } else if m == 51 {
    } else if m == 52 {
    } else if m == 53 {
    } else if m == 54 {
    } else if m == 55 {
    } else if m == 56 {
    } else if m == 57 {
    } else if m == 58 {
    } else if m == 59 {
    }
}

proof fn lemma_terms_quit(m: int)
    requires
        0 <= m < 60,
    ensures
        terms_agree(MessageKey::Quit, glossary()[m]),
{
    reveal_strlit("Quit");
    reveal_strlit("종료");
    reveal_strlit("終了");
    let e = message_text(Language::English, MessageKey::Quit);
    let ko = message_text(Language::Korean, MessageKey::Quit);
    let ja = message_text(Language::Japanese, MessageKey::Quit);
    if m == 0 {
    } else if m == 1 {
    } else if m == 2 {
    } else if m == 3 {
    } else if m == 4 {
    } else if m == 5 {
    } else if m == 6 {
    } else if m == 7 {
    } else if m == 8 {
    } else if m == 9 {
    } else if m == 10 {
    } else if m == 11 {
    } else if m == 12 {
    } else if m == 13 {
    } else if m == 14 {
    } else if m == 15 {
    } else if m == 16 {
    } else if m == 17 {
    } else if m == 18 {
    } else if m == 19 {
    } else if m == 20 {
    } else if m == 21 {
    } else if m == 22 {
    } else if m == 23 {
    } else if m == 24 {
    } else if m == 25 {
    } else if m == 26 {
    } else if m == 27 {
    } else if m == 28 {
    } else if m == 29 {
    } else if m == 30 {
    } else if m == 31 {
    } else if m == 32 {
    } else if m == 33 {
    } else if m == 34 {
    } else if m == 35 {
    } else if m == 36 {
    } else if m == 37 {
    } else if m == 38 {
    } else if m == 39 {
    } else if m == 40 {
    } else if m == 41 {
    } else if m == 42 {
    } else if m == 43 {
    } else if m == 44 {
    } else if m == 45 {
    } else if m == 46 {
    } else if m == 47 {
    } else if m == 48 {
    } else if m == 49 {
    } else if m == 50 {
    } else if m == 51 {
    } else if m == 52 {
    } else if m == 53 {
    } else if m == 54 {
    } else if m == 55 {
    } else if m == 56 {
        assert(e[1] == 'u');
        assert(ko[0] == '종');
        assert(ja[0] == '終');
    } else if m == 57 {
    } else if m == 58 {
    } else if m == 59 {
    }
}

proof fn lemma_terms_star_github(m: int)
    requires
        0 <= m < 60,
    ensures
        terms_agree(MessageKey::StarGithub, glossary()[m]),
{
    reveal_strlit("Star BetterThanYou on GitHub");
    reveal_strlit("GitHub 스타 주기");
    reveal_strlit("GitHubスター");
    let e = message_text(Language::English, MessageKey::StarGithub);
    let ko = message_text(Language::Korean, MessageKey::StarGithub);
    let ja = message_text(Language::Japanese, MessageKey::StarGithub);
    if m == 0 {
    } else if m == 1 {
    } else if m == 2 {
    } else if m == 3 {
    } else if m == 4 {
    } else if m == 5 {
    } else if m == 6 {
    } else if m == 7 {
    } else if m == 8 {
    } else if m == 9 {
        assert(e[5] == 'B');
        assert(ko[10] == '주');
        assert(ja[5] == 'b');
    } else if m == 10 {
    } else if m == 11 {
    } else if m == 12 {
    } else if m == 13 {
    } else if m == 14 {
    } else if m == 15 {
    } else if m == 16 {
    } else if m == 17 {
    } else if m == 18 {
    } else if m == 19 {
    } else if m == 20 {
    } else if m == 21 {
    } else if m == 22 {
    } else if m == 23 {
    } else if m == 24 {
    } else if m == 25 {
    } else if m == 26 {
    } else if m == 27 {
    } else if m == 28 {
    } else if m == 29 {
    } else if m == 30 {
    } else if m == 31 {
    } else if m == 32 {
    } else if m == 33 {
    } else if m == 34 {
    } else if m == 35 {
    } else if m == 36 {
    } else if m == 37 {
    } else if m == 38 {
    } else if m == 39 {
    } else if m == 40 {
    } else if m == 41 {
    } else if m == 42 {
    } else if m == 43 {
    } else if m == 44 {
    } else if m == 45 {
    } else if m == 46 {
    } else if m == 47 {
    } else if m == 48 {
    } else if m == 49 {
    } else if m == 50 {
    } else if m == 51 {
    } else if m == 52 {
    } else if m == 53 {
    } else if m == 54 {
    } else if m == 55 {
    } else if m == 56 {
    } else if m == 57 {
    } else if m == 58 {
    } else if m == 59 {
    }
}

proof fn lemma_terms_back(m: int)
    requires
        0 <= m < 60,
    ensures
        terms_agree(MessageKey::Back, glossary()[m]),
{
    reveal_strlit("Back");
    reveal_strlit("뒤로");
    reveal_strlit("戻る");
    let e = message_text(Language::English, MessageKey::Back);
    let ko = message_text(Language::Korean, MessageKey::Back);
    let ja = message_text(Language::Japanese, MessageKey::Back);
    if m == 0 {
    } else if m == 1 {
    } else if m == 2 {
    } else if m == 3 {
    } else if m == 4 {
    } else if m == 5 {
    } else if m == 6 {
    } else if m == 7 {
    } else if m == 8 {
    } else if m == 9 {
    } else if m == 10 {
    } else if m == 11 {
    } else if m == 12 {
    } else if m == 13 {
    } else if m == 14 {
    } else if m == 15 {
    } else if m == 16 {
    } else if m == 17 {
    } else if m == 18 {
    } else if m == 19 {
    } else if m == 20 {
    } else if m == 21 {
    } else if m == 22 {
    } else if m == 23 {
    } else if m == 24 {
    } else if m == 25 {
    } else if m == 26 {
    } else if m == 27 {
    } else if m == 28 {
    } else if m == 29 {
    } else if m == 30 {
    } else if m == 31 {
    } else if m == 32 {
    } else if m == 33 {
    } else if m == 34 {
    } else if m == 35 {
    } else if m == 36 {
    } else if m == 37 {
    } else if m == 38 {
    } else if m == 39 {
    } else if m == 40 {
    } else if m == 41 {
    } else if m == 42 {
    } else if m == 43 {
    } else if m == 44 {
    } else if m == 45 {
    } else if m == 46 {
    } else if m == 47 {
    } else if m == 48 {
    } else if m == 49 {
    } else if m == 50 {
    } else if m == 51 {
    } else if m == 52 {
    } else if m == 53 {
    } else if m == 54 {
    } else if m == 55 {
    } else if m == 56 {
    } else if m == 57 {
    } else if m == 58 {
    } else if m == 59 {
    }
}

proof fn lemma_terms_rematch(m: int)
    requires
        0 <= m < 60,
    ensures
        terms_agree(MessageKey::Rematch, glossary()[m]),
{
    reveal_strlit("Rematch Same Pair");
    reveal_strlit("같은 상대로 재대결");
    reveal_strlit("再戦");
    let e = message_text(Language::English, MessageKey::Rematch);
    let ko = message_text(Language::Korean, MessageKey::Rematch);
    let ja = message_text(Language::Japanese, MessageKey::Rematch);
    if m == 0 {
    } else if m == 1 {
    } else if m == 2 {
    } else if m == 3 {
    } else if m == 4 {
    } else if m == 5 {
    } else if m == 6 {
    } else if m == 7 {
    } else if m == 8 {
    } else if m == 9 {
    } else if m == 10 {
    } else if m == 11 {
    } else if m == 12 {
    } else if m == 13 {
    } else if m == 14 {
    } else if m == 15 {
    } else if m == 16 {
    } else if m == 17 {
    } else if m == 18 {
    } else if m == 19 {
    } else if m == 20 {
    } else if m == 21 {
    } else if m == 22 {
    } else if m == 23 {
    } else if m == 24 {
    } else if m == 25 {
    } else if m == 26 {
    } else if m == 27 {
    } else if m == 28 {
    } else if m == 29 {
    } else if m == 30 {
    } else if m == 31 {
        assert(e[13] == 'P');
        assert(ko[7] == '재');
        assert(ja[0] == '再');
    } else if m == 32 {
    } else if m == 33 {
    } else if m == 34 {
    } else if m == 35 {
    } else if m == 36 {
    } else if m == 37 {
    } else if m == 38 {
    } else if m == 39 {
    } else if m == 40 {
    } else if m == 41 {
    } else if m == 42 {
    } else if m == 43 {
    } else if m == 44 {
    } else if m == 45 {
    } else if m == 46 {
    } else if m == 47 {
    } else if m == 48 {
    } else if m == 49 {
    } else if m == 50 {
    } else if m == 51 {
    } else if m == 52 {
    } else if m == 53 {
    } else if m == 54 {
    } else if m == 55 {
    } else if m == 56 {
    } else if m == 57 {
    } else if m == 58 {
    } else if m == 59 {
    }
}

proof fn lemma_terms_new_portraits(m: int)
    requires
        0 <= m < 60,
    ensures
        terms_agree(MessageKey::NewPortraits, glossary()[m]),
{
    reveal_strlit("Choose New Portraits");
    reveal_strlit("새 사진 선택");
    reveal_strlit("新しい写真を選択");
    let e = message_text(Language::English, MessageKey::NewPortraits);
    let ko = message_text(Language::Korean, MessageKey::NewPortraits);
    let ja = message_text(Language::Japanese, MessageKey::NewPortraits);
    if m == 0 {
    } else if m == 1 {
    } else if m == 2 {
    } else if m == 3 {
    } else if m == 4 {
    } else if m == 5 {
    } else if m == 6 {
    } else if m == 7 {
    } else if m == 8 {
    } else if m == 9 {
    } else if m == 10 {
    } else if m == 11 {
    } else if m == 12 {
    } else if m == 13 {
    } else if m == 14 {
    } else if m == 15 {
    } else if m == 16 {
    } else if m == 17 {
    } else if m == 18 {
    } else if m == 19 {
    } else if m == 20 {
    } else if m == 21 {
    } else if m == 22 {
    } else if m == 23 {
    } else if m == 24 {
    } else if m == 25 {
    } else if m == 26 {
        assert(e[7] == 'N');
        assert(ko[6] == '택');
        assert(ja[2] == 'い');
    } else if m == 27 {
    } else if m == 28 {
    } else if m == 29 {
    } else if m == 30 {
    } else if m == 31 {
    } else if m == 32 {
    } else if m == 33 {
    } else if m == 34 {
    } else if m == 35 {
    } else if m == 36 {
    } else if m == 37 {
    } else if m == 38 {
    } else if m == 39 {
    } else if m == 40 {
    } else if m == 41 {
    } else if m == 42 {
    } else if m == 43 {
    } else if m == 44 {
    } else if m == 45 {
    } else if m == 46 {
    } else if m == 47 {
    } else if m == 48 {
    } else if m == 49 {
    } else if m == 50 {
    } else if m == 51 {
    } else if m == 52 {
    } else if m == 53 {
    } else if m == 54 {
    } else if m == 55 {
    } else if m == 56 {
    } else if m == 57 {
    } else if m == 58 {
    } else if m == 59 {
    }
}

proof fn lemma_terms_battle_setup(m: int)
    requires
        0 <= m < 60,
    ensures
        terms_agree(MessageKey::BattleSetup, glossary()[m]),
{
    reveal_strlit("Battle Setup");
    reveal_strlit("배틀 준비");
    reveal_strlit("バトル準備");
    let e = message_text(Language::English, MessageKey::BattleSetup);
    let ko = message_text(Language::Korean, MessageKey::BattleSetup);
    let ja = message_text(Language::Japanese, MessageKey::BattleSetup);
    if m == 0 {
    } else if m == 1 {
    } else if m == 2 {
    } else if m == 3 {
    } else if m == 4 {
    } else if m == 5 {
    } else if m == 6 {
    } else if m == 7 {
    } else if m == 8 {
    } else if m == 9 {
    } else if m == 10 {
    } else if m == 11 {
    } else if m == 12 {
    } else if m == 13 {
    } else if m == 14 {
    } else if m == 15 {
    } else if m == 16 {
    } else if m == 17 {
    } else if m == 18 {
    } else if m == 19 {
    } else if m == 20 {
    } else if m == 21 {
    } else if m == 22 {
    } else if m == 23 {
    } else if m == 24 {
    } else if m == 25 {
    } else if m == 26 {
    } else if m == 27 {
    } else if m == 28 {
    } else if m == 29 {
    } else if m == 30 {
    } else if m == 31 {
    } else if m == 32 {
    } else if m == 33 {
    } else if m == 34 {
    } else if m == 35 {
    } else if m == 36 {
    } else if m == 37 {
    } else if m == 38 {
    } else if m == 39 {
    } else if m == 40 {
    } else if m == 41 {
    } else if m == 42 {
    } else if m == 43 {
    } else if m == 44 {
    } else if m == 45 {
    } else if m == 46 {
    } else if m == 47 {
    } else if m == 48 {
    } else if m == 49 {
    } else if m == 50 {
    } else if m == 51 {
    } else if m == 52 {
    } else if m == 53 {
    } else if m == 54 {
    } else if m == 55 {
    } else if m == 56 {
    } else if m == 57 {
    } else if m == 58 {
    } else if m == 59 {
    }
}

proof fn lemma_terms_left_portrait(m: int)
    requires
        0 <= m < 60,
    ensures
        terms_agree(MessageKey::LeftPortrait, glossary()[m]),
{
    reveal_strlit("LEFT PORTRAIT");
    reveal_strlit("왼쪽 초상화");
    reveal_strlit("左の写真");
    let e = message_text(Language::English, MessageKey::LeftPortrait);
    let ko = message_text(Language::Korean, MessageKey::LeftPortrait);
    let ja = message_text(Language::Japanese, MessageKey::LeftPortrait);
    if m == 0 {
    } else if m == 1 {
    } else if m == 2 {
    } else if m == 3 {
    } else if m == 4 {
    } else if m == 5 {
    } else if m == 6 {
    } else if m == 7 {
    } else if m == 8 {
    } else if m == 9 {
    } else if m == 10 {
    } else if m == 11 {
    } else if m == 12 {
    } else if m == 13 {
    } else if m == 14 {
    } else if m == 15 {
    } else if m == 16 {
    } else if m == 17 {
    } else if m == 18 {
        assert(e[11] == 'I');
        assert(ko[5] == '화');
        assert(ja[1] == 'の');
    } else if m == 19 {
    } else if m == 20 {
    } else if m == 21 {
    } else if m == 22 {
    } else if m == 23 {
    } else if m == 24 {
    } else if m == 25 {
    } else if m == 26 {
    } else if m == 27 {
    } else if m == 28 {
    } else if m == 29 {
    } else if m == 30 {
    } else if m == 31 {
    } else if m == 32 {
    } else if m == 33 {
    } else if m == 34 {
    } else if m == 35 {
    } else if m == 36 {
    } else if m == 37 {
    } else if m == 38 {
    } else if m == 39 {
    } else if m == 40 {
    } else if m == 41 {
    } else if m == 42 {
    } else if m == 43 {
    } else if m == 44 {
    } else if m == 45 {
    } else if m == 46 {
    } else if m == 47 {
    } else if m == 48 {
    } else if m == 49 {
    } else if m == 50 {
    } else if m == 51 {
    } else if m == 52 {
    } else if m == 53 {
    } else if m == 54 {
    } else if m == 55 {
    } else if m == 56 {
    } else if m == 57 {
    } else if m == 58 {
    } else if m == 59 {
    }
}

proof fn lemma_terms_right_portrait(m: int)
    requires
        0 <= m < 60,
    ensures
        terms_agree(MessageKey::RightPortrait, glossary()[m]),
{
    reveal_strlit("RIGHT PORTRAIT");
    reveal_strlit("오른쪽 초상화");
    reveal_strlit("右の写真");
    let e = message_text(Language::English, MessageKey::RightPortrait);
    let ko = message_text(Language::Korean, MessageKey::RightPortrait);
    let ja = message_text(Language::Japanese, MessageKey::RightPortrait);
    if m == 0 {
    } else if m == 1 {
    } else if m == 2 {
    } else if m == 3 {
    } else if m == 4 {
    } else if m == 5 {
    } else if m == 6 {
    } else if m == 7 {
    } else if m == 8 {
    } else if m == 9 {
    } else if m == 10 {
    } else if m == 11 {
    } else if m == 12 {
    } else if m == 13 {
    } else if m == 14 {
    } else if m == 15 {
    } else if m == 16 {
    } else if m == 17 {
    } else if m == 18 {
        assert(e[12] == 'I');
        assert(ko[6] == '화');
        assert(ja[1] == 'の');
    } else if m == 19 {
    } else if m == 20 {
    } else if m == 21 {
    } else if m == 22 {
    } else if m == 23 {
    } else if m == 24 {
    } else if m == 25 {
    } else if m == 26 {
    } else if m == 27 {
    } else if m == 28 {
    } else if m == 29 {
    } else if m == 30 {
    } else if m == 31 {
    } else if m == 32 {
    } else if m == 33 {
    } else if m == 34 {
    } else if m == 35 {
    } else if m == 36 {
    } else if m == 37 {
    } else if m == 38 {
    } else if m == 39 {
    } else if m == 40 {
    } else if m == 41 {
    } else if m == 42 {
    } else if m == 43 {
    } else if m == 44 {
    } else if m == 45 {
    } else if m == 46 {
    } else if m == 47 {
    } else if m == 48 {
    } else if m == 49 {
    } else if m == 50 {
    } else if m == 51 {
    } else if m == 52 {
    } else if m == 53 {
    } else if m == 54 {
    } else if m == 55 {
    } else if m == 56 {
    } else if m == 57 {
    } else if m == 58 {
    } else if m == 59 {
    }
}

proof fn lemma_terms_waiting(m: int)
    requires
        0 <= m < 60,
    ensures
        terms_agree(MessageKey::Waiting, glossary()[m]),
{
    reveal_strlit("waiting...");
    reveal_strlit("대기 중...");
    reveal_strlit("待機中...");
    let e = message_text(Language::English, MessageKey::Waiting);
    let ko = message_text(Language::Korean, MessageKey::Waiting);
    let ja = message_text(Language::Japanese, MessageKey::Waiting);
    if m == 0 {
    } else if m == 1 {
    } else if m == 2 {
    } else if m == 3 {
    } else if m == 4 {
    } else if m == 5 {
    } else if m == 6 {
    } else if m == 7 {
    } else if m == 8 {
    } else if m == 9 {
    } else if m == 10 {
    } else if m == 11 {
    } else if m == 12 {
    } else if m == 13 {
    } else if m == 14 {
    } else if m == 15 {
    } else if m == 16 {
    } else if m == 17 {
    } else if m == 18 {
    } else if m == 19 {
    } else if m == 20 {
    } else if m == 21 {
    } else if m == 22 {
    } else if m == 23 {
    } else if m == 24 {
    } else if m == 25 {
    } else if m == 26 {
    } else if m == 27 {
    } else if m == 28 {
    } else if m == 29 {
    } else if m == 30 {
    } else if m == 31 {
    } else if m == 32 {
    } else if m == 33 {
    } else if m == 34 {
    } else if m == 35 {
    } else if m == 36 {
    } else if m == 37 {
    } else if m == 38 {
    } else if m == 39 {
    } else if m == 40 {
    } else if m == 41 {
    } else if m == 42 {
    } else if m == 43 {
    } else if m == 44 {
    } else if m == 45 {
    } else if m == 46 {
    } else if m == 47 {
    } else if m == 48 {
    } else if m == 49 {
    } else if m == 50 {
    } else if m == 51 {
    } else if m == 52 {
    } else if m == 53 {
    } else if m == 54 {
    } else if m == 55 {
    } else if m == 56 {
    } else if m == 57 {
        assert(e[0] == 'w');
        assert(ko[0] == '대');
        assert(ja[1] == '機');
    } else if m == 58 {
    } else if m == 59 {
    }
}

proof fn lemma_terms_ready(m: int)
    requires
        0 <= m < 60,
    ensures
        terms_agree(MessageKey::Ready, glossary()[m]),
{
    reveal_strlit("ready");
    reveal_strlit("준비 완료");
    reveal_strlit("準備完了");
    let e = message_text(Language::English, MessageKey::Ready);
    let ko = message_text(Language::Korean, MessageKey::Ready);
    let ja = message_text(Language::Japanese, MessageKey::Ready);
    if m == 0 {
    } else if m == 1 {
    } else if m == 2 {
    } else if m == 3 {
    } else if m == 4 {
    } else if m == 5 {
    } else if m == 6 {
    } else if m == 7 {
    } else if m == 8 {
    } else if m == 9 {
    } else if m == 10 {
    } else if m == 11 {
    } else if m == 12 {
    } else if m == 13 {
    } else if m == 14 {
    } else if m == 15 {
    } else if m == 16 {
    } else if m == 17 {
    } else if m == 18 {
    } else if m == 19 {
    } else if m == 20 {
    } else if m == 21 {
    } else if m == 22 {
    } else if m == 23 {
    } else if m == 24 {
    } else if m == 25 {
    } else if m == 26 {
    } else if m == 27 {
    } else if m == 28 {
    } else if m == 29 {
    } else if m == 30 {
    } else if m == 31 {
    } else if m == 32 {
    } else if m == 33 {
    } else if m == 34 {
    } else if m == 35 {
    } else if m == 36 {
    } else if m == 37 {
    } else if m == 38 {
    } else if m == 39 {
    } else if m == 40 {
    } else if m == 41 {
    } else if m == 42 {
        assert(e[2] == 'a');
        assert(ko[3] == '완');
        assert(ja[2] == '完');
    } else if m == 43 {
    } else if m == 44 {
    } else if m == 45 {
    } else if m == 46 {
    } else if m == 47 {
    } else if m == 48 {
    } else if m == 49 {
    } else if m == 50 {
    } else if m == 51 {
    } else if m == 52 {
    } else if m == 53 {
    } else if m == 54 {
    } else if m == 55 {
    } else if m == 56 {
    } else if m == 57 {
    } else if m == 58 {
    } else if m == 59 {
    }
}

proof fn lemma_terms_switch_side(m: int)
    requires
        0 <= m < 60,
    ensures
        terms_agree(MessageKey::SwitchSide, glossary()[m]),
{
    reveal_strlit("Switch side");
    reveal_strlit("패널 전환");
    reveal_strlit("パネル切替");
    let e = message_text(Language::English, MessageKey::SwitchSide);
    let ko = message_text(Language::Korean, MessageKey::SwitchSide);
    let ja = message_text(Language::Japanese, MessageKey::SwitchSide);
    if m == 0 {
    } else if m == 1 {
    } else if m == 2 {
    } else if m == 3 {
    } else if m == 4 {
    } else if m == 5 {
    } else if m == 6 {
    } else if m == 7 {
    } else if m == 8 {
    } else if m == 9 {
    } else if m == 10 {
    } else if m == 11 {
    } else if m == 12 {
    } else if m == 13 {
    } else if m == 14 {
    } else if m == 15 {
    } else if m == 16 {
    } else if m == 17 {
    } else if m == 18 {
    } else if m == 19 {
    } else if m == 20 {
    } else if m == 21 {
    } else if m == 22 {
    } else if m == 23 {
    } else if m == 24 {
    } else if m == 25 {
    } else if m == 26 {
    } else if m == 27 {
    } else if m == 28 {
    } else if m == 29 {
    } else if m == 30 {
    } else if m == 31 {
    } else if m == 32 {
    } else if m == 33 {
    } else if m == 34 {
    } else if m == 35 {
    } else if m == 36 {
    } else if m == 37 {
        assert(e[0] == 'S');
        assert(ko[3] == '전');
        assert(ja[1] == 'ネ');
    } else if m == 38 {
    } else if m == 39 {
    } else if m == 40 {
    } else if m == 41 {
    } else if m == 42 {
    } else if m == 43 {
    } else if m == 44 {
    } else if m == 45 {
    } else if m == 46 {
    } else if m == 47 {
    } else if m == 48 {
    } else if m == 49 {
    } else if m == 50 {
    } else if m == 51 {
    } else if m == 52 {
    } else if m == 53 {
    } else if m == 54 {
    } else if m == 55 {
    } else if m == 56 {
    } else if m == 57 {
    } else if m == 58 {
    } else if m == 59 {
    }
}

proof fn lemma_terms_fill_both(m: int)
    requires
        0 <= m < 60,
    ensures
        terms_agree(MessageKey::FillBoth, glossary()[m]),
{
    reveal_strlit("fill both");
    reveal_strlit("양쪽 다 입력");
    reveal_strlit("両方入力");
    let e = message_text(Language::English, MessageKey::FillBoth);
    let ko = message_text(Language::Korean, MessageKey::FillBoth);
    let ja = message_text(Language::Japanese, MessageKey::FillBoth);
    if m == 0 {
    } else if m == 1 {
    } else if m == 2 {
    } else if m == 3 {
    } else if m == 4 {
    } else if m == 5 {
    } else if m == 6 {
    } else if m == 7 {
    } else if m == 8 {
    } else if m == 9 {
    } else if m == 10 {
    } else if m == 11 {
    } else if m == 12 {
    } else if m == 13 {
    } else if m == 14 {
    } else if m == 15 {
    } else if m == 16 {
    } else if m == 17 {
    } else if m == 18 {
    } else if m == 19 {
    } else if m == 20 {
    } else if m == 21 {
    } else if m == 22 {
    } else if m == 23 {
    } else if m == 24 {
    } else if m == 25 {
    } else if m == 26 {
    } else if m == 27 {
    } else if m == 28 {
    } else if m == 29 {
    } else if m == 30 {
    } else if m == 31 {
    } else if m == 32 {
    } else if m == 33 {
    } else if m == 34 {
    } else if m == 35 {
    } else if m == 36 {
    } else if m == 37 {
    } else if m == 38 {
    } else if m == 39 {
    } else if m == 40 {
    } else if m == 41 {
    } else if m == 42 {
    } else if m == 43 {
    } else if m == 44 {
        assert(e[5] == 'b');
        assert(ko[3] == '다');
        assert(ja[2] == '入');
    } else if m == 45 {
    } else if m == 46 {
    } else if m == 47 {
    } else if m == 48 {
    } else if m == 49 {
    } else if m == 50 {
    } else if m == 51 {
    } else if m == 52 {
    } else if m == 53 {
    } else if m == 54 {
    } else if m == 55 {
    } else if m == 56 {
    } else if m == 57 {
    } else if m == 58 {
    } else if m == 59 {
    }
}

proof fn lemma_terms_cancel(m: int)
    requires
        0 <= m < 60,
    ensures
        terms_agree(MessageKey::Cancel, glossary()[m]),
{
    reveal_strlit("Cancel");
    reveal_strlit("취소");
    reveal_strlit("キャンセル");
    let e = message_text(Language::English, MessageKey::Cancel);
    let ko = message_text(Language::Korean, MessageKey::Cancel);
    let ja = message_text(Language::Japanese, MessageKey::Cancel);
    if m == 0 {
    } else if m == 1 {
    } else if m == 2 {
    } else if m == 3 {
    } else if m == 4 {
    } else if m == 5 {
    } else if m == 6 {
    } else if m == 7 {
    } else if m == 8 {
    } else if m == 9 {
    } else if m == 10 {
    } else if m == 11 {
    } else if m == 12 {
        assert(e[0] == 'C');
        assert(ko[0] == '취');
        assert(ja[1] == 'ャ');
    } else if m == 13 {
    } else if m == 14 {
    } else if m == 15 {
    } else if m == 16 {
    } else if m == 17 {
    } else if m == 18 {
    } else if m == 19 {
    } else if m == 20 {
    } else if m == 21 {
    } else if m == 22 {
    } else if m == 23 {
    } else if m == 24 {
    } else if m == 25 {
    } else if m == 26 {
    } else if m == 27 {
    } else if m == 28 {
    } else if m == 29 {
    } else if m == 30 {
    } else if m == 31 {
    } else if m == 32 {
    } else if m == 33 {
    } else if m == 34 {
    } else if m == 35 {
    } else if m == 36 {
    } else if m == 37 {
    } else if m == 38 {
    } else if m == 39 {
    } else if m == 40 {
    } else if m == 41 {
    } else if m == 42 {
    } else if m == 43 {
    } else if m == 44 {
    } else if m == 45 {
    } else if m == 46 {
    } else if m == 47 {
    } else if m == 48 {
    } else if m == 49 {
    } else if m == 50 {
    } else if m == 51 {
    } else if m == 52 {
    } else if m == 53 {
    } else if m == 54 {
    } else if m == 55 {
    } else if m == 56 {
    } else if m == 57 {
    } else if m == 58 {
    } else if m == 59 {
    }
}

proof fn lemma_terms_press_start(m: int)
    requires
        0 <= m < 60,
    ensures
        terms_agree(MessageKey::PressStart, glossary()[m]),
{
    reveal_strlit("PRESS ANY KEY TO START");
    reveal_strlit("아무 키를 눌러 시작");
    reveal_strlit("キーを押してスタート");
    let e = message_text(Language::English, MessageKey::PressStart);
    let ko = message_text(Language::Korean, MessageKey::PressStart);
    let ja = message_text(Language::Japanese, MessageKey::PressStart);
    if m == 0 {
    } else if m == 1 {
    } else if m == 2 {
    } else if m == 3 {
        assert(e[19] == 'A');
        assert(ko[6] == '눌');
        assert(ja[3] == '押');
    } else if m == 4 {
    } else if m == 5 {
    } else if m == 6 {
    } else if m == 7 {
    } else if m == 8 {
    } else if m == 9 {
    } else if m == 10 {
    } else if m == 11 {
    } else if m == 12 {
    } else if m == 13 {
    } else if m == 14 {
    } else if m == 15 {
    } else if m == 16 {
    } else if m == 17 {
    } else if m == 18 {
    } else if m == 19 {
    } else if m == 20 {
    } else if m == 21 {
    } else if m == 22 {
    } else if m == 23 {
    } else if m == 24 {
    } else if m == 25 {
    } else if m == 26 {
    } else if m == 27 {
    } else if m == 28 {
    } else if m == 29 {
    } else if m == 30 {
    } else if m == 31 {
    } else if m == 32 {
    } else if m == 33 {
    } else if m == 34 {
    } else if m == 35 {
    } else if m == 36 {
    } else if m == 37 {
    } else if m == 38 {
    } else if m == 39 {
    } else if m == 40 {
    } else if m == 41 {
    } else if m == 42 {
    } else if m == 43 {
    } else if m == 44 {
    } else if m == 45 {
    } else if m == 46 {
    } else if m == 47 {
    } else if m == 48 {
    } else if m == 49 {
    } else if m == 50 {
    } else if m == 51 {
    } else if m == 52 {
    } else if m == 53 {
    } else if m == 54 {
    } else if m == 55 {
    } else if m == 56 {
    } else if m == 57 {
    } else if m == 58 {
    } else if m == 59 {
    }
}

proof fn lemma_terms_analyzing(m: int)
    requires
        0 <= m < 60,
    ensures
        terms_agree(MessageKey::Analyzing, glossary()[m]),
{
    reveal_strlit("Analyzing...");
    reveal_strlit("분석 중...");
    reveal_strlit("分析中...");
    let e = message_text(Language::English, MessageKey::Analyzing);
    let ko = message_text(Language::Korean, MessageKey::Analyzing);
    let ja = message_text(Language::Japanese, MessageKey::Analyzing);
    if m == 0 {
    } else if m == 1 {
    } else if m == 2 {
    } else if m == 3 {
    } else if m == 4 {
    } else if m == 5 {
    } else if m == 6 {
    } else if m == 7 {
        assert(e[0] == 'A');
        assert(ko[1] == '석');
        assert(ja[1] == '析');
    } else if m == 8 {
    } else if m == 9 {
    } else if m == 10 {
    } else if m == 11 {
    } else if m == 12 {
    } else if m == 13 {
    } else if m == 14 {
    } else if m == 15 {
    } else if m == 16 {
    } else if m == 17 {
    } else if m == 18 {
    } else if m == 19 {
    } else if m == 20 {
    } else if m == 21 {
    } else if m == 22 {
    } else if m == 23 {
    } else if m == 24 {
    } else if m == 25 {
    } else if m == 26 {
    } else if m == 27 {
    } else if m == 28 {
    } else if m == 29 {
    } else if m == 30 {
    } else if m == 31 {
    } else if m == 32 {
    } else if m == 33 {
    } else if m == 34 {
    } else if m == 35 {
    } else if m == 36 {
    } else if m == 37 {
    } else if m == 38 {
    } else if m == 39 {
    } else if m == 40 {
    } else if m == 41 {
    } else if m == 42 {
    } else if m == 43 {
    } else if m == 44 {
    } else if m == 45 {
    } else if m == 46 {
    } else if m == 47 {
    } else if m == 48 {
    } else if m == 49 {
    } else if m == 50 {
    } else if m == 51 {
    } else if m == 52 {
    } else if m == 53 {
    } else if m == 54 {
    } else if m == 55 {
    } else if m == 56 {
    } else if m == 57 {
    } else if m == 58 {
    } else if m == 59 {
    }
}

proof fn lemma_terms_battle_result(m: int)
    requires
        0 <= m < 60,
    ensures
        terms_agree(MessageKey::BattleResult, glossary()[m]),
{
    reveal_strlit("BATTLE RESULT");
    reveal_strlit("배틀 결과");
    reveal_strlit("バトル結果");
    let e = message_text(Language::English, MessageKey::BattleResult);
    let ko = message_text(Language::Korean, MessageKey::BattleResult);
    let ja = message_text(Language::Japanese, MessageKey::BattleResult);
    if m == 0 {
    } else if m == 1 {
    } else if m == 2 {
    } else if m == 3 {
    } else if m == 4 {
    } else if m == 5 {
    } else if m == 6 {
    } else if m == 7 {
    } else if m == 8 {
        assert(e[0] == 'B');
        assert(ko[3] == '결');
        assert(ja[3] == '結');
    } else if m == 9 {
    } else if m == 10 {
    } else if m == 11 {
    } else if m == 12 {
    } else if m == 13 {
    } else if m == 14 {
    } else if m == 15 {
    } else if m == 16 {
    } else if m == 17 {
    } else if m == 18 {
    } else if m == 19 {
    } else if m == 20 {
    } else if m == 21 {
    } else if m == 22 {
    } else if m == 23 {
    } else if m == 24 {
    } else if m == 25 {
    } else if m == 26 {
    } else if m == 27 {
    } else if m == 28 {
    } else if m == 29 {
    } else if m == 30 {
    } else if m == 31 {
    } else if m == 32 {
    } else if m == 33 {
    } else if m == 34 {
    } else if m == 35 {
    } else if m == 36 {
    } else if m == 37 {
    } else if m == 38 {
    } else if m == 39 {
    } else if m == 40 {
    } else if m == 41 {
    } else if m == 42 {
    } else if m == 43 {
    } else if m == 44 {
    } else if m == 45 {
    } else if m == 46 {
    } else if m == 47 {
    } else if m == 48 {
    } else if m == 49 {
    } else if m == 50 {
    } else if m == 51 {
    } else if m == 52 {
    } else if m == 53 {
    } else if m == 54 {
    } else if m == 55 {
    } else if m == 56 {
    } else if m == 57 {
    } else if m == 58 {
    } else if m == 59 {
    }
}

proof fn lemma_terms_winner(m: int)
    requires
        0 <= m < 60,
    ensures
        terms_agree(MessageKey::Winner, glossary()[m]),
{
    reveal_strlit("WINNER");
    reveal_strlit("승자");
    reveal_strlit("勝者");
    let e = message_text(Language::English, MessageKey::Winner);
    let ko = message_text(Language::Korean, MessageKey::Winner);
    let ja = message_text(Language::Japanese, MessageKey::Winner);
    if m == 0 {
    } else if m == 1 {
    } else if m == 2 {
    } else if m == 3 {
    } else if m == 4 {
    } else if m == 5 {
    } else if m == 6 {
    } else if m == 7 {
    } else if m == 8 {
    } else if m == 9 {
    } else if m == 10 {
    } else if m == 11 {
    } else if m == 12 {
    } else if m == 13 {
    } else if m == 14 {
    } else if m == 15 {
    } else if m == 16 {
    } else if m == 17 {
    } else if m == 18 {
    } else if m == 19 {
    } else if m == 20 {
    } else if m == 21 {
    } else if m == 22 {
    } else if m == 23 {
    } else if m == 24 {
    } else if m == 25 {
    } else if m == 26 {
    } else if m == 27 {
    } else if m == 28 {
    } else if m == 29 {
    } else if m == 30 {
    } else if m == 31 {
    } else if m == 32 {
    } else if m == 33 {
    } else if m == 34 {
    } else if m == 35 {
    } else if m == 36 {
    } else if m == 37 {
    } else if m == 38 {
    } else if m == 39 {
    } else if m == 40 {
    } else if m == 41 {
    } else if m == 42 {
    } else if m == 43 {
    } else if m == 44 {
    } else if m == 45 {
    } else if m == 46 {
    } else if m == 47 {
    } else if m == 48 {
    } else if m == 49 {
    } else if m == 50 {
    } else if m == 51 {
    } else if m == 52 {
    } else if m == 53 {
    } else if m == 54 {
    } else if m == 55 {
    } else if m == 56 {
    } else if m == 57 {
    } else if m == 58 {
    } else if m == 59 {
    }
}

proof fn lemma_terms_judge_mode(m: int)
    requires
        0 <= m < 60,
    ensures
        terms_agree(MessageKey::JudgeMode, glossary()[m]),
{
    reveal_strlit("Judge mode");
    reveal_strlit("심판 모드");
    reveal_strlit("審査モード");
    let e = message_text(Language::English, MessageKey::JudgeMode);
    let ko = message_text(Language::Korean, MessageKey::JudgeMode);
    let ja = message_text(Language::Japanese, MessageKey::JudgeMode);
    if m == 0 {
    } else if m == 1 {
        assert(e[6] == 'm');
        assert(ko[1] == '판');
        assert(ja[4] == 'ド');
    } else if m == 2 {
    } else if m == 3 {
    } else if m == 4 {
    } else if m == 5 {
    } else if m == 6 {
    } else if m == 7 {
    } else if m == 8 {
    } else if m == 9 {
    } else if m == 10 {
    } else if m == 11 {
    } else if m == 12 {
    } else if m == 13 {
    } else if m == 14 {
    } else if m == 15 {
    } else if m == 16 {
    } else if m == 17 {
    } else if m == 18 {
    } else if m == 19 {
    } else if m == 20 {
    } else if m == 21 {
    } else if m == 22 {
    } else if m == 23 {
    } else if m == 24 {
    } else if m == 25 {
    } else if m == 26 {
    } else if m == 27 {
    } else if m == 28 {
    } else if m == 29 {
    } else if m == 30 {
    } else if m == 31 {
    } else if m == 32 {
    } else if m == 33 {
    } else if m == 34 {
    } else if m == 35 {
    } else if m == 36 {
    } else if m == 37 {
    } else if m == 38 {
    } else if m == 39 {
    } else if m == 40 {
    } else if m == 41 {
    } else if m == 42 {
    } else if m == 43 {
    } else if m == 44 {
    } else if m == 45 {
    } else if m == 46 {
    } else if m == 47 {
    } else if m == 48 {
    } else if m == 49 {
    } else if m == 50 {
    } else if m == 51 {
    } else if m == 52 {
    } else if m == 53 {
    } else if m == 54 {
    } else if m == 55 {
    } else if m == 56 {
    } else if m == 57 {
    } else if m == 58 {
    } else if m == 59 {
    }
}

proof fn lemma_terms_model(m: int)
    requires
        0 <= m < 60,
    ensures
        terms_agree(MessageKey::Model, glossary()[m]),
{
    reveal_strlit("Model");
    reveal_strlit("모델");
    reveal_strlit("モデル");
    let e = message_text(Language::English, MessageKey::Model);
    let ko = message_text(Language::Korean, MessageKey::Model);
    let ja = message_text(Language::Japanese, MessageKey::Model);
    if m == 0 {
        assert(e[0] == 'M');
        assert(ko[1] == '델');
        assert(ja[0] == 'モ');
    } else if m == 1 {
    } else if m == 2 {
    } else if m == 3 {
    } else if m == 4 {
    } else if m == 5 {
    } else if m == 6 {
    } else if m == 7 {
    } else if m == 8 {
    } else if m == 9 {
    } else if m == 10 {
    } else if m == 11 {
    } else if m == 12 {
    } else if m == 13 {
    } else if m == 14 {
    } else if m == 15 {
    } else if m == 16 {
    } else if m == 17 {
    } else if m == 18 {
    } else if m == 19 {
    } else if m == 20 {
    } else if m == 21 {
    } else if m == 22 {
    } else if m == 23 {
    } else if m == 24 {
    } else if m == 25 {
    } else if m == 26 {
    } else if m == 27 {
    } else if m == 28 {
    } else if m == 29 {
    } else if m == 30 {
    } else if m == 31 {
    } else if m == 32 {
    } else if m == 33 {
    } else if m == 34 {
    } else if m == 35 {
    } else if m == 36 {
    } else if m == 37 {
    } else if m == 38 {
    } else if m == 39 {
    } else if m == 40 {
    } else if m == 41 {
    } else if m == 42 {
    } else if m == 43 {
    } else if m == 44 {
    } else if m == 45 {
    } else if m == 46 {
    } else if m == 47 {
    } else if m == 48 {
    } else if m == 49 {
    } else if m == 50 {
    } else if m == 51 {
    } else if m == 52 {
    } else if m == 53 {
    } else if m == 54 {
    } else if m == 55 {
    } else if m == 56 {
    } else if m == 57 {
    } else if m == 58 {
    } else if m == 59 {
    }
}

proof fn lemma_terms_language(m: int)
    requires
        0 <= m < 60,
    ensures
        terms_agree(MessageKey::Language, glossary()[m]),
{
    reveal_strlit("Language");
    reveal_strlit("언어");
    reveal_strlit("言語");
    let e = message_text(Language::English, MessageKey::Language);
    let ko = message_text(Language::Korean, MessageKey::Language);
    let ja = message_text(Language::Japanese, MessageKey::Language);
    if m == 0 {
    } else if m == 1 {
    } else if m == 2 {
    } else if m == 3 {
    } else if m == 4 {
    } else if m == 5 {
    } else if m == 6 {
    } else if m == 7 {
    } else if m == 8 {
    } else if m == 9 {
    } else if m == 10 {
    } else if m == 11 {
    } else if m == 12 {
    } else if m == 13 {
    } else if m == 14 {
    } else if m == 15 {
    } else if m == 16 {
    } else if m == 17 {
    } else if m == 18 {
    } else if m == 19 {
    } else if m == 20 {
    } else if m == 21 {
    } else if m == 22 {
    } else if m == 23 {
    } else if m == 24 {
    } else if m == 25 {
    } else if m == 26 {
    } else if m == 27 {
    } else if m == 28 {
    } else if m == 29 {
    } else if m == 30 {
    } else if m == 31 {
    } else if m == 32 {
    } else if m == 33 {
    } else if m == 34 {
    } else if m == 35 {
    } else if m == 36 {
    } else if m == 37 {
    } else if m == 38 {
    } else if m == 39 {
    } else if m == 40 {
    } else if m == 41 {
    } else if m == 42 {
    } else if m == 43 {
        assert(e[5] == 'a');
        assert(ko[0] == '언');
        assert(ja[0] == '言');
    } else if m == 44 {
    } else if m == 45 {
    } else if m == 46 {
    } else if m == 47 {
    } else if m == 48 {
    } else if m == 49 {
    } else if m == 50 {
    } else if m == 51 {
    } else if m == 52 {
    } else if m == 53 {
    } else if m == 54 {
    } else if m == 55 {
    } else if m == 56 {
    } else if m == 57 {
    } else if m == 58 {
    } else if m == 59 {
    }
}

proof fn lemma_terms_api_keys(m: int)
    requires
        0 <= m < 60,
    ensures
        terms_agree(MessageKey::ApiKeys, glossary()[m]),
{
    reveal_strlit("API keys");
    reveal_strlit("API 키 관리");
    reveal_strlit("APIキー管理");
    let e = message_text(Language::English, MessageKey::ApiKeys);
    let ko = message_text(Language::Korean, MessageKey::ApiKeys);
    let ja = message_text(Language::Japanese, MessageKey::ApiKeys);
    if m == 0 {
    } else if m == 1 {
    } else if m == 2 {
        assert(e[0] == 'A');
        assert(ko[1] == 'P');
        assert(ja[5] == '管');
    } else if m == 3 {
    } else if m == 4 {
    } else if m == 5 {
    } else if m == 6 {
    } else if m == 7 {
    } else if m == 8 {
    } else if m == 9 {
    } else if m == 10 {
    } else if m == 11 {
    } else if m == 12 {
    } else if m == 13 {
    } else if m == 14 {
    } else if m == 15 {
    } else if m == 16 {
    } else if m == 17 {
    } else if m == 18 {
    } else if m == 19 {
    } else if m == 20 {
    } else if m == 21 {
    } else if m == 22 {
    } else if m == 23 {
    } else if m == 24 {
    } else if m == 25 {
    } else if m == 26 {
    } else if m == 27 {
    } else if m == 28 {
    } else if m == 29 {
    } else if m == 30 {
    } else if m == 31 {
    } else if m == 32 {
    } else if m == 33 {
    } else if m == 34 {
    } else if m == 35 {
    } else if m == 36 {
    } else if m == 37 {
    } else if m == 38 {
    } else if m == 39 {
    } else if m == 40 {
    } else if m == 41 {
    } else if m == 42 {
    } else if m == 43 {
    } else if m == 44 {
    } else if m == 45 {
    } else if m == 46 {
    } else if m == 47 {
    } else if m == 48 {
    } else if m == 49 {
    } else if m == 50 {
    } else if m == 51 {
    } else if m == 52 {
    } else if m == 53 {
    } else if m == 54 {
    } else if m == 55 {
    } else if m == 56 {
    } else if m == 57 {
    } else if m == 58 {
    } else if m == 59 {
    }
}

proof fn lemma_terms_labels(m: int)
    requires
        0 <= m < 60,
    ensures
        terms_agree(MessageKey::Labels, glossary()[m]),
{
    reveal_strlit("Labels");
    reveal_strlit("라벨");
    reveal_strlit("ラベル");
    let e = message_text(Language::English, MessageKey::Labels);
    let ko = message_text(Language::Korean, MessageKey::Labels);
    let ja = message_text(Language::Japanese, MessageKey::Labels);
    if m == 0 {
    } else if m == 1 {
    } else if m == 2 {
    } else if m == 3 {
    } else if m == 4 {
    } else if m == 5 {
    } else if m == 6 {
    } else if m == 7 {
    } else if m == 8 {
    } else if m == 9 {
    } else if m == 10 {
    } else if m == 11 {
    } else if m == 12 {
    } else if m == 13 {
    } else if m == 14 {
    } else if m == 15 {
    } else if m == 16 {
    } else if m == 17 {
    } else if m == 18 {
    } else if m == 19 {
    } else if m == 20 {
    } else if m == 21 {
    } else if m == 22 {
    } else if m == 23 {
    } else if m == 24 {
    } else if m == 25 {
    } else if m == 26 {
    } else if m == 27 {
    } else if m == 28 {
    } else if m == 29 {
    } else if m == 30 {
    } else if m == 31 {
    } else if m == 32 {
    } else if m == 33 {
    } else if m == 34 {
    } else if m == 35 {
    } else if m == 36 {
    } else if m == 37 {
    } else if m == 38 {
    } else if m == 39 {
    } else if m == 40 {
    } else if m == 41 {
        assert(e[1] == 'a');
        assert(ko[1] == '벨');
        assert(ja[1] == 'ベ');
    } else if m == 42 {
    } else if m == 43 {
    } else if m == 44 {
    } else if m == 45 {
    } else if m == 46 {
    } else if m == 47 {
    } else if m == 48 {
    } else if m == 49 {
    } else if m == 50 {
    } else if m == 51 {
    } else if m == 52 {
    } else if m == 53 {
    } else if m == 54 {
    } else if m == 55 {
    } else if m == 56 {
    } else if m == 57 {
    } else if m == 58 {
    } else if m == 59 {
    }
}

proof fn lemma_terms_output_dir(m: int)
    requires
        0 <= m < 60,
    ensures
        terms_agree(MessageKey::OutputDir, glossary()[m]),
{
    reveal_strlit("Output directory");
    reveal_strlit("출력 디렉토리");
    reveal_strlit("出力ディレクトリ");
    let e = message_text(Language::English, MessageKey::OutputDir);
    let ko = message_text(Language::Korean, MessageKey::OutputDir);
    let ja = message_text(Language::Japanese, MessageKey::OutputDir);
    if m == 0 {
    } else if m == 1 {
    } else if m == 2 {
    } else if m == 3 {
    } else if m == 4 {
    } else if m == 5 {
    } else if m == 6 {
    } else if m == 7 {
    } else if m == 8 {
    } else if m == 9 {
    } else if m == 10 {
    } else if m == 11 {
    } else if m == 12 {
    } else if m == 13 {
    } else if m == 14 {
    } else if m == 15 {
    } else if m == 16 {
    } else if m == 17 {
    } else if m == 18 {
    } else if m == 19 {
    } else if m == 20 {
    } else if m == 21 {
    } else if m == 22 {
    } else if m == 23 {
    } else if m == 24 {
    } else if m == 25 {
    } else if m == 26 {
    } else if m == 27 {
    } else if m == 28 {
    } else if m == 29 {
        assert(e[0] == 'O');
        assert(ko[4] == '렉');
        assert(ja[0] == '出');
    } else if m == 30 {
    } else if m == 31 {
    } else if m == 32 {
    } else if m == 33 {
    } else if m == 34 {
    } else if m == 35 {
    } else if m == 36 {
    } else if m == 37 {
    } else if m == 38 {
    } else if m == 39 {
    } else if m == 40 {
    } else if m == 41 {
    } else if m == 42 {
    } else if m == 43 {
    } else if m == 44 {
    } else if m == 45 {
    } else if m == 46 {
    } else if m == 47 {
    } else if m == 48 {
    } else if m == 49 {
    } else if m == 50 {
    } else if m == 51 {
    } else if m == 52 {
    } else if m == 53 {
    } else if m == 54 {
    } else if m == 55 {
    } else if m == 56 {
    } else if m == 57 {
    } else if m == 58 {
    } else if m == 59 {
    }
}

proof fn lemma_terms_aesthetic_tuning(m: int)
    requires
        0 <= m < 60,
    ensures
        terms_agree(MessageKey::AestheticTuning, glossary()[m]),
{
    reveal_strlit("Aesthetic tuning");
    reveal_strlit("미적 조정");
    reveal_strlit("美的調整");
    let e = message_text(Language::English, MessageKey::AestheticTuning);
    let ko = message_text(Language::Korean, MessageKey::AestheticTuning);
    let ja = message_text(Language::Japanese, MessageKey::AestheticTuning);
    if m == 0 {
    } else if m == 1 {
    } else if m == 2 {
    } else if m == 3 {
    } else if m == 4 {
    } else if m == 5 {
    } else if m == 6 {
        assert(e[0] == 'A');
        assert(ko[0] == '미');
        assert(ja[0] == '美');
    } else if m == 7 {
    } else if m == 8 {
    } else if m == 9 {
    } else if m == 10 {
    } else if m == 11 {
    } else if m == 12 {
    } else if m == 13 {
    } else if m == 14 {
    } else if m == 15 {
    } else if m == 16 {
    } else if m == 17 {
    } else if m == 18 {
    } else if m == 19 {
    } else if m == 20 {
    } else if m == 21 {
    } else if m == 22 {
    } else if m == 23 {
    } else if m == 24 {
    } else if m == 25 {
    } else if m == 26 {
    } else if m == 27 {
    } else if m == 28 {
    } else if m == 29 {
    } else if m == 30 {
    } else if m == 31 {
    } else if m == 32 {
    } else if m == 33 {
    } else if m == 34 {
    } else if m == 35 {
    } else if m == 36 {
    } else if m == 37 {
    } else if m == 38 {
    } else if m == 39 {
    } else if m == 40 {
    } else if m == 41 {
    } else if m == 42 {
    } else if m == 43 {
    } else if m == 44 {
    } else if m == 45 {
    } else if m == 46 {
    } else if m == 47 {
    } else if m == 48 {
    } else if m == 49 {
    } else if m == 50 {
    } else if m == 51 {
    } else if m == 52 {
    } else if m == 53 {
    } else if m == 54 {
    } else if m == 55 {
    } else if m == 56 {
    } else if m == 57 {
    } else if m == 58 {
    } else if m == 59 {
    }
}

proof fn lemma_terms_report_title(m: int)
    requires
        0 <= m < 60,
    ensures
        terms_agree(MessageKey::ReportTitle, glossary()[m]),
{
    reveal_strlit("Battle Report");
    reveal_strlit("배틀 리포트");
    reveal_strlit("バトルレポート");
    let e = message_text(Language::English, MessageKey::ReportTitle);
    let ko = message_text(Language::Korean, MessageKey::ReportTitle);
    let ja = message_text(Language::Japanese, MessageKey::ReportTitle);
    if m == 0 {
    } else if m == 1 {
    } else if m == 2 {
    } else if m == 3 {
    } else if m == 4 {
    } else if m == 5 {
    } else if m == 6 {
    } else if m == 7 {
    } else if m == 8 {
    } else if m == 9 {
    } else if m == 10 {
    } else if m == 11 {
    } else if m == 12 {
    } else if m == 13 {
    } else if m == 14 {
    } else if m == 15 {
    } else if m == 16 {
    } else if m == 17 {
    } else if m == 18 {
    } else if m == 19 {
    } else if m == 20 {
    } else if m == 21 {
    } else if m == 22 {
    } else if m == 23 {
    } else if m == 24 {
    } else if m == 25 {
    } else if m == 26 {
    } else if m == 27 {
    } else if m == 28 {
    } else if m == 29 {
    } else if m == 30 {
    } else if m == 31 {
    } else if m == 32 {
    } else if m == 33 {
    } else if m == 34 {
    } else if m == 35 {
    } else if m == 36 {
    } else if m == 37 {
    } else if m == 38 {
    } else if m == 39 {
    } else if m == 40 {
    } else if m == 41 {
    } else if m == 42 {
    } else if m == 43 {
    } else if m == 44 {
    } else if m == 45 {
    } else if m == 46 {
        assert(e[8] == 'e');
        assert(ko[3] == '리');
        assert(ja[3] == 'レ');
    } else if m == 47 {
    } else if m == 48 {
    } else if m == 49 {
    } else if m == 50 {
    } else if m == 51 {
    } else if m == 52 {
    } else if m == 53 {
    } else if m == 54 {
    } else if m == 55 {
    } else if m == 56 {
    } else if m == 57 {
    } else if m == 58 {
    } else if m == 59 {
    }
}

proof fn lemma_terms_report_winner(m: int)
    requires
        0 <= m < 60,
    ensures
        terms_agree(MessageKey::ReportWinner, glossary()[m]),
{
    reveal_strlit("Winner");
    reveal_strlit("승자");
    reveal_strlit("勝者");
    let e = message_text(Language::English, MessageKey::ReportWinner);
    let ko = message_text(Language::Korean, MessageKey::ReportWinner);
    let ja = message_text(Language::Japanese, MessageKey::ReportWinner);
    if m == 0 {
    } else if m == 1 {
    } else if m == 2 {
    } else if m == 3 {
    } else if m == 4 {
    } else if m == 5 {
    } else if m == 6 {
    } else if m == 7 {
    } else if m == 8 {
    } else if m == 9 {
    } else if m == 10 {
    } else if m == 11 {
    } else if m == 12 {
    } else if m == 13 {
    } else if m == 14 {
    } else if m == 15 {
    } else if m == 16 {
    } else if m == 17 {
    } else if m == 18 {
    } else if m == 19 {
    } else if m == 20 {
    } else if m == 21 {
    } else if m == 22 {
    } else if m == 23 {
    } else if m == 24 {
    } else if m == 25 {
    } else if m == 26 {
    } else if m == 27 {
    } else if m == 28 {
    } else if m == 29 {
    } else if m == 30 {
    } else if m == 31 {
    } else if m == 32 {
    } else if m == 33 {
    } else if m == 34 {
    } else if m == 35 {
    } else if m == 36 {
    } else if m == 37 {
    } else if m == 38 {
    } else if m == 39 {
    } else if m == 40 {
    } else if m == 41 {
    } else if m == 42 {
    } else if m == 43 {
    } else if m == 44 {
    } else if m == 45 {
    } else if m == 46 {
    } else if m == 47 {
    } else if m == 48 {
    } else if m == 49 {
    } else if m == 50 {
    } else if m == 51 {
    } else if m == 52 {
    } else if m == 53 {
    } else if m == 54 {
    } else if m == 55 {
    } else if m == 56 {
    } else if m == 57 {
    } else if m == 58 {
    } else if m == 59 {
    }
}

proof fn lemma_terms_report_overall_take(m: int)
    requires
        0 <= m < 60,
    ensures
        terms_agree(MessageKey::ReportOverallTake, glossary()[m]),
{
    reveal_strlit("Overall Take");
    reveal_strlit("총평");
    reveal_strlit("総評");
    let e = message_text(Language::English, MessageKey::ReportOverallTake);
    let ko = message_text(Language::Korean, MessageKey::ReportOverallTake);
    let ja = message_text(Language::Japanese, MessageKey::ReportOverallTake);
    if m == 0 {
    } else if m == 1 {
    } else if m == 2 {
    } else if m == 3 {
    } else if m == 4 {
    } else if m == 5 {
    } else if m == 6 {
    } else if m == 7 {
    } else if m == 8 {
    } else if m == 9 {
    } else if m == 10 {
    } else if m == 11 {
    } else if m == 12 {
    } else if m == 13 {
    } else if m == 14 {
    } else if m == 15 {
    } else if m == 16 {
    } else if m == 17 {
    } else if m == 18 {
    } else if m == 19 {
    } else if m == 20 {
    } else if m == 21 {
    } else if m == 22 {
    } else if m == 23 {
    } else if m == 24 {
    } else if m == 25 {
    } else if m == 26 {
    } else if m == 27 {
    } else if m == 28 {
    } else if m == 29 {
    } else if m == 30 {
        assert(e[0] == 'O');
        assert(ko[1] == '평');
        assert(ja[1] == '評');
    } else if m == 31 {
    } else if m == 32 {
    } else if m == 33 {
    } else if m == 34 {
    } else if m == 35 {
    } else if m == 36 {
    } else if m == 37 {
    } else if m == 38 {
    } else if m == 39 {
    } else if m == 40 {
    } else if m == 41 {
    } else if m == 42 {
    } else if m == 43 {
    } else if m == 44 {
    } else if m == 45 {
    } else if m == 46 {
    } else if m == 47 {
    } else if m == 48 {
    } else if m == 49 {
    } else if m == 50 {
    } else if m == 51 {
    } else if m == 52 {
    } else if m == 53 {
    } else if m == 54 {
    } else if m == 55 {
    } else if m == 56 {
    } else if m == 57 {
    } else if m == 58 {
    } else if m == 59 {
    }
}

proof fn lemma_terms_report_why_won(m: int)
    requires
        0 <= m < 60,
    ensures
        terms_agree(MessageKey::ReportWhyWon, glossary()[m]),
{
    reveal_strlit("Why This Won");
    reveal_strlit("승리 이유");
    reveal_strlit("勝利の理由");
    let e = message_text(Language::English, MessageKey::ReportWhyWon);
    let ko = message_text(Language::Korean, MessageKey::ReportWhyWon);
    let ja = message_text(Language::Japanese, MessageKey::ReportWhyWon);
    if m == 0 {
    } else if m == 1 {
    } else if m == 2 {
    } else if m == 3 {
    } else if m == 4 {
    } else if m == 5 {
    } else if m == 6 {
    } else if m == 7 {
    } else if m == 8 {
    } else if m == 9 {
    } else if m == 10 {
    } else if m == 11 {
    } else if m == 12 {
    } else if m == 13 {
    } else if m == 14 {
    } else if m == 15 {
    } else if m == 16 {
    } else if m == 17 {
    } else if m == 18 {
    } else if m == 19 {
    } else if m == 20 {
    } else if m == 21 {
    } else if m == 22 {
    } else if m == 23 {
    } else if m == 24 {
    } else if m == 25 {
    } else if m == 26 {
    } else if m == 27 {
    } else if m == 28 {
    } else if m == 29 {
    } else if m == 30 {
    } else if m == 31 {
    } else if m == 32 {
    } else if m == 33 {
    } else if m == 34 {
    } else if m == 35 {
    } else if m == 36 {
    } else if m == 37 {
    } else if m == 38 {
    } else if m == 39 {
        assert(e[0] == 'W');
        assert(ko[0] == '승');
        assert(ja[4] == '由');
    } else if m == 40 {
    } else if m == 41 {
    } else if m == 42 {
    } else if m == 43 {
    } else if m == 44 {
    } else if m == 45 {
    } else if m == 46 {
    } else if m == 47 {
    } else if m == 48 {
    } else if m == 49 {
    } else if m == 50 {
    } else if m == 51 {
    } else if m == 52 {
    } else if m == 53 {
    } else if m == 54 {
    } else if m == 55 {
    } else if m == 56 {
    } else if m == 57 {
    } else if m == 58 {
    } else if m == 59 {
    }
}

proof fn lemma_terms_report_jury_notes(m: int)
    requires
        0 <= m < 60,
    ensures
        terms_agree(MessageKey::ReportJuryNotes, glossary()[m]),
{
    reveal_strlit("Jury Notes");
    reveal_strlit("심사위원 노트");
    reveal_strlit("ジュリーノート");
    let e = message_text(Language::English, MessageKey::ReportJuryNotes);
    let ko = message_text(Language::Korean, MessageKey::ReportJuryNotes);
    let ja = message_text(Language::Japanese, MessageKey::ReportJuryNotes);
    if m == 0 {
    } else if m == 1 {
    } else if m == 2 {
    } else if m == 3 {
    } else if m == 4 {
    } else if m == 5 {
    } else if m == 6 {
    } else if m == 7 {
    } else if m == 8 {
    } else if m == 9 {
    } else if m == 10 {
    } else if m == 11 {
    } else if m == 12 {
    } else if m == 13 {
    } else if m == 14 {
    } else if m == 15 {
    } else if m == 16 {
    } else if m == 17 {
    } else if m == 18 {
    } else if m == 19 {
    } else if m == 20 {
    } else if m == 21 {
    } else if m == 22 {
    } else if m == 23 {
    } else if m == 24 {
    } else if m == 25 {
    } else if m == 26 {
    } else if m == 27 {
        assert(e[5] == 'N');
        assert(ko[3] == '원');
        assert(ja[4] == 'ノ');
    } else if m == 28 {
    } else if m == 29 {
    } else if m == 30 {
    } else if m == 31 {
    } else if m == 32 {
    } else if m == 33 {
    } else if m == 34 {
    } else if m == 35 {
    } else if m == 36 {
    } else if m == 37 {
    } else if m == 38 {
    } else if m == 39 {
    } else if m == 40 {
    } else if m == 41 {
    } else if m == 42 {
    } else if m == 43 {
    } else if m == 44 {
    } else if m == 45 {
    } else if m == 46 {
    } else if m == 47 {
    } else if m == 48 {
    } else if m == 49 {
    } else if m == 50 {
    } else if m == 51 {
    } else if m == 52 {
    } else if m == 53 {
    } else if m == 54 {
    } else if m == 55 {
    } else if m == 56 {
    } else if m == 57 {
    } else if m == 58 {
    } else if m == 59 {
    }
}

proof fn lemma_terms_report_heuristic(m: int)
    requires
        0 <= m < 60,
    ensures
        terms_agree(MessageKey::ReportHeuristic, glossary()[m]),
{
    reveal_strlit("Heuristic Analysis");
    reveal_strlit("휴리스틱 분석");
    reveal_strlit("ヒューリスティック分析");
    let e = message_text(Language::English, MessageKey::ReportHeuristic);
    let ko = message_text(Language::Korean, MessageKey::ReportHeuristic);
    let ja = message_text(Language::Japanese, MessageKey::ReportHeuristic);
    if m == 0 {
    } else if m == 1 {
    } else if m == 2 {
    } else if m == 3 {
    } else if m == 4 {
    } else if m == 5 {
    } else if m == 6 {
    } else if m == 7 {
        assert(e[10] == 'A');
        assert(ko[6] == '석');
        assert(ja[10] == '析');
    } else if m == 8 {
    } else if m == 9 {
    } else if m == 10 {
    } else if m == 11 {
    } else if m == 12 {
    } else if m == 13 {
    } else if m == 14 {
    } else if m == 15 {
    } else if m == 16 {
    } else if m == 17 {
        assert(e[0] == 'H');
        assert(ko[0] == '휴');
        assert(ja[5] == 'テ');
    } else if m == 18 {
    } else if m == 19 {
    } else if m == 20 {
    } else if m == 21 {
    } else if m == 22 {
    } else if m == 23 {
    } else if m == 24 {
    } else if m == 25 {
    } else if m == 26 {
    } else if m == 27 {
    } else if m == 28 {
    } else if m == 29 {
    } else if m == 30 {
    } else if m == 31 {
    } else if m == 32 {
    } else if m == 33 {
    } else if m == 34 {
    } else if m == 35 {
    } else if m == 36 {
    } else if m == 37 {
    } else if m == 38 {
    } else if m == 39 {
    } else if m == 40 {
    } else if m == 41 {
    } else if m == 42 {
    } else if m == 43 {
    } else if m == 44 {
    } else if m == 45 {
    } else if m == 46 {
    } else if m == 47 {
    } else if m == 48 {
    } else if m == 49 {
    } else if m == 50 {
    } else if m == 51 {
    } else if m == 52 {
    } else if m == 53 {
    } else if m == 54 {
    } else if m == 55 {
    } else if m == 56 {
    } else if m == 57 {
    } else if m == 58 {
    } else if m == 59 {
    }
}

proof fn lemma_terms_report_vlm(m: int)
    requires
        0 <= m < 60,
    ensures
        terms_agree(MessageKey::ReportVlm, glossary()[m]),
{
    reveal_strlit("AI Judge");
    reveal_strlit("AI 심사관");
    reveal_strlit("AI審査官");
    let e = message_text(Language::English, MessageKey::ReportVlm);
    let ko = message_text(Language::Korean, MessageKey::ReportVlm);
    let ja = message_text(Language::Japanese, MessageKey::ReportVlm);
    if m == 0 {
    } else if m == 1 {
    } else if m == 2 {
    } else if m == 3 {
    } else if m == 4 {
    } else if m == 5 {
    } else if m == 6 {
    } else if m == 7 {
    } else if m == 8 {
    } else if m == 9 {
    } else if m == 10 {
    } else if m == 11 {
    } else if m == 12 {
    } else if m == 13 {
    } else if m == 14 {
    } else if m == 15 {
    } else if m == 16 {
    } else if m == 17 {
    } else if m == 18 {
    } else if m == 19 {
    } else if m == 20 {
    } else if m == 21 {
    } else if m == 22 {
    } else if m == 23 {
    } else if m == 24 {
    } else if m == 25 {
    } else if m == 26 {
    } else if m == 27 {
    } else if m == 28 {
    } else if m == 29 {
    } else if m == 30 {
    } else if m == 31 {
    } else if m == 32 {
    } else if m == 33 {
    } else if m == 34 {
    } else if m == 35 {
    } else if m == 36 {
    } else if m == 37 {
    } else if m == 38 {
    } else if m == 39 {
    } else if m == 40 {
    } else if m == 41 {
    } else if m == 42 {
    } else if m == 43 {
    } else if m == 44 {
    } else if m == 45 {
    } else if m == 46 {
    } else if m == 47 {
    } else if m == 48 {
    } else if m == 49 {
    } else if m == 50 {
    } else if m == 51 {
    } else if m == 52 {
    } else if m == 53 {
    } else if m == 54 {
    } else if m == 55 {
    } else if m == 56 {
    } else if m == 57 {
    } else if m == 58 {
    } else if m == 59 {
    }
}

proof fn lemma_terms_report_combined(m: int)
    requires
        0 <= m < 60,
    ensures
        terms_agree(MessageKey::ReportCombined, glossary()[m]),
{
    reveal_strlit("Combined Score");
    reveal_strlit("종합 점수");
    reveal_strlit("総合スコア");
    let e = message_text(Language::English, MessageKey::ReportCombined);
    let ko = message_text(Language::Korean, MessageKey::ReportCombined);
    let ja = message_text(Language::Japanese, MessageKey::ReportCombined);
    if m == 0 {
    } else if m == 1 {
    } else if m == 2 {
    } else if m == 3 {
    } else if m == 4 {
    } else if m == 5 {
    } else if m == 6 {
    } else if m == 7 {
    } else if m == 8 {
    } else if m == 9 {
    } else if m == 10 {
    } else if m == 11 {
    } else if m == 12 {
    } else if m == 13 {
    } else if m == 14 {
    } else if m == 15 {
    } else if m == 16 {
    } else if m == 17 {
    } else if m == 18 {
    } else if m == 19 {
    } else if m == 20 {
    } else if m == 21 {
    } else if m == 22 {
    } else if m == 23 {
    } else if m == 24 {
    } else if m == 25 {
    } else if m == 26 {
    } else if m == 27 {
    } else if m == 28 {
    } else if m == 29 {
    } else if m == 30 {
    } else if m == 31 {
    } else if m == 32 {
    } else if m == 33 {
    } else if m == 34 {
        assert(e[9] == 'S');
        assert(ko[4] == '수');
        assert(ja[3] == 'コ');
    } else if m == 35 {
    } else if m == 36 {
    } else if m == 37 {
    } else if m == 38 {
    } else if m == 39 {
    } else if m == 40 {
    } else if m == 41 {
    } else if m == 42 {
    } else if m == 43 {
    } else if m == 44 {
    } else if m == 45 {
    } else if m == 46 {
    } else if m == 47 {
    } else if m == 48 {
    } else if m == 49 {
    } else if m == 50 {
    } else if m == 51 {
    } else if m == 52 {
    } else if m == 53 {
        assert(e[2] == 'm');
        assert(ko[1] == '합');
        assert(ja[1] == '合');
    } else if m == 54 {
    } else if m == 55 {
    } else if m == 56 {
    } else if m == 57 {
    } else if m == 58 {
    } else if m == 59 {
    }
}

proof fn lemma_terms_report_score(m: int)
    requires
        0 <= m < 60,
    ensures
        terms_agree(MessageKey::ReportScore, glossary()[m]),
{
    reveal_strlit("Score");
    reveal_strlit("점수");
    reveal_strlit("スコア");
    let e = message_text(Language::English, MessageKey::ReportScore);
    let ko = message_text(Language::Korean, MessageKey::ReportScore);
    let ja = message_text(Language::Japanese, MessageKey::ReportScore);
    if m == 0 {
    } else if m == 1 {
    } else if m == 2 {
    } else if m == 3 {
    } else if m == 4 {
    } else if m == 5 {
    } else if m == 6 {
    } else if m == 7 {
    } else if m == 8 {
    } else if m == 9 {
    } else if m == 10 {
    } else if m == 11 {
    } else if m == 12 {
    } else if m == 13 {
    } else if m == 14 {
    } else if m == 15 {
    } else if m == 16 {
    } else if m == 17 {
    } else if m == 18 {
    } else if m == 19 {
    } else if m == 20 {
    } else if m == 21 {
    } else if m == 22 {
    } else if m == 23 {
    } else if m == 24 {
    } else if m == 25 {
    } else if m == 26 {
    } else if m == 27 {
    } else if m == 28 {
    } else if m == 29 {
    } else if m == 30 {
    } else if m == 31 {
    } else if m == 32 {
    } else if m == 33 {
    } else if m == 34 {
        assert(e[0] == 'S');
        assert(ko[1] == '수');
        assert(ja[1] == 'コ');
    } else if m == 35 {
    } else if m == 36 {
    } else if m == 37 {
    } else if m == 38 {
    } else if m == 39 {
    } else if m == 40 {
    } else if m == 41 {
    } else if m == 42 {
    } else if m == 43 {
    } else if m == 44 {
    } else if m == 45 {
    } else if m == 46 {
    } else if m == 47 {
    } else if m == 48 {
    } else if m == 49 {
    } else if m == 50 {
    } else if m == 51 {
    } else if m == 52 {
    } else if m == 53 {
    } else if m == 54 {
    } else if m == 55 {
    } else if m == 56 {
    } else if m == 57 {
    } else if m == 58 {
    } else if m == 59 {
    }
}

proof fn lemma_terms_report_strengths(m: int)
    requires
        0 <= m < 60,
    ensures
        terms_agree(MessageKey::ReportStrengths, glossary()[m]),
{
    reveal_strlit("Strengths");
    reveal_strlit("강점");
    reveal_strlit("強み");
    let e = message_text(Language::English, MessageKey::ReportStrengths);
    let ko = message_text(Language::Korean, MessageKey::ReportStrengths);
    let ja = message_text(Language::Japanese, MessageKey::ReportStrengths);
    if m == 0 {
    } else if m == 1 {
    } else if m == 2 {
    } else if m == 3 {
    } else if m == 4 {
    } else if m == 5 {
    } else if m == 6 {
    } else if m == 7 {
    } else if m == 8 {
    } else if m == 9 {
    } else if m == 10 {
    } else if m == 11 {
    } else if m == 12 {
    } else if m == 13 {
    } else if m == 14 {
    } else if m == 15 {
    } else if m == 16 {
    } else if m == 17 {
    } else if m == 18 {
    } else if m == 19 {
    } else if m == 20 {
    } else if m == 21 {
    } else if m == 22 {
    } else if m == 23 {
    } else if m == 24 {
    } else if m == 25 {
    } else if m == 26 {
    } else if m == 27 {
    } else if m == 28 {
    } else if m == 29 {
    } else if m == 30 {
    } else if m == 31 {
    } else if m == 32 {
    } else if m == 33 {
    } else if m == 34 {
    } else if m == 35 {
    } else if m == 36 {
    } else if m == 37 {
    } else if m == 38 {
    } else if m == 39 {
    } else if m == 40 {
    } else if m == 41 {
    } else if m == 42 {
    } else if m == 43 {
    } else if m == 44 {
    } else if m == 45 {
    } else if m == 46 {
    } else if m == 47 {
    } else if m == 48 {
    } else if m == 49 {
    } else if m == 50 {
        assert(e[5] == 'g');
        assert(ko[0] == '강');
        assert(ja[0] == '強');
    } else if m == 51 {
    } else if m == 52 {
    } else if m == 53 {
    } else if m == 54 {
    } else if m == 55 {
    } else if m == 56 {
    } else if m == 57 {
    } else if m == 58 {
    } else if m == 59 {
    }
}

proof fn lemma_terms_report_weaknesses(m: int)
    requires
        0 <= m < 60,
    ensures
        terms_agree(MessageKey::ReportWeaknesses, glossary()[m]),
{
    reveal_strlit("Weaknesses");
    reveal_strlit("약점");
    reveal_strlit("弱み");
    let e = message_text(Language::English, MessageKey::ReportWeaknesses);
    let ko = message_text(Language::Korean, MessageKey::ReportWeaknesses);
    let ja = message_text(Language::Japanese, MessageKey::ReportWeaknesses);
    if m == 0 {
    } else if m == 1 {
    } else if m == 2 {
    } else if m == 3 {
    } else if m == 4 {
    } else if m == 5 {
    } else if m == 6 {
    } else if m == 7 {
    } else if m == 8 {
    } else if m == 9 {
    } else if m == 10 {
    } else if m == 11 {
    } else if m == 12 {
    } else if m == 13 {
    } else if m == 14 {
    } else if m == 15 {
    } else if m == 16 {
    } else if m == 17 {
    } else if m == 18 {
    } else if m == 19 {
    } else if m == 20 {
    } else if m == 21 {
    } else if m == 22 {
    } else if m == 23 {
    } else if m == 24 {
    } else if m == 25 {
    } else if m == 26 {
    } else if m == 27 {
    } else if m == 28 {
    } else if m == 29 {
    } else if m == 30 {
    } else if m == 31 {
    } else if m == 32 {
    } else if m == 33 {
    } else if m == 34 {
    } else if m == 35 {
    } else if m == 36 {
    } else if m == 37 {
    } else if m == 38 {
    } else if m == 39 {
    } else if m == 40 {
    } else if m == 41 {
    } else if m == 42 {
    } else if m == 43 {
    } else if m == 44 {
    } else if m == 45 {
    } else if m == 46 {
    } else if m == 47 {
    } else if m == 48 {
    } else if m == 49 {
    } else if m == 50 {
    } else if m == 51 {
    } else if m == 52 {
        assert(e[3] == 'k');
        assert(ko[0] == '약');
        assert(ja[0] == '弱');
    } else if m == 53 {
    } else if m == 54 {
    } else if m == 55 {
    } else if m == 56 {
    } else if m == 57 {
    } else if m == 58 {
    } else if m == 59 {
    }
}

proof fn lemma_terms_report_ability_comparison(m: int)
    requires
        0 <= m < 60,
    ensures
        terms_agree(MessageKey::ReportAbilityComparison, glossary()[m]),
{
    reveal_strlit("Ability Comparison");
    reveal_strlit("능력치 비교");
    reveal_strlit("能力値比較");
    let e = message_text(Language::English, MessageKey::ReportAbilityComparison);
    let ko = message_text(Language::Korean, MessageKey::ReportAbilityComparison);
    let ja = message_text(Language::Japanese, MessageKey::ReportAbilityComparison);
    if m == 0 {
    } else if m == 1 {
    } else if m == 2 {
    } else if m == 3 {
    } else if m == 4 {
    } else if m == 5 {
        assert(e[0] == 'A');
        assert(ko[5] == '교');
        assert(ja[4] == '較');
    } else if m == 6 {
    } else if m == 7 {
    } else if m == 8 {
    } else if m == 9 {
    } else if m == 10 {
    } else if m == 11 {
    } else if m == 12 {
    } else if m == 13 {
    } else if m == 14 {
    } else if m == 15 {
    } else if m == 16 {
    } else if m == 17 {
    } else if m == 18 {
    } else if m == 19 {
    } else if m == 20 {
    } else if m == 21 {
    } else if m == 22 {
    } else if m == 23 {
    } else if m == 24 {
    } else if m == 25 {
    } else if m == 26 {
    } else if m == 27 {
    } else if m == 28 {
    } else if m == 29 {
    } else if m == 30 {
    } else if m == 31 {
    } else if m == 32 {
    } else if m == 33 {
    } else if m == 34 {
    } else if m == 35 {
    } else if m == 36 {
    } else if m == 37 {
    } else if m == 38 {
    } else if m == 39 {
    } else if m == 40 {
    } else if m == 41 {
    } else if m == 42 {
    } else if m == 43 {
    } else if m == 44 {
    } else if m == 45 {
    } else if m == 46 {
    } else if m == 47 {
    } else if m == 48 {
    } else if m == 49 {
    } else if m == 50 {
    } else if m == 51 {
    } else if m == 52 {
    } else if m == 53 {
    } else if m == 54 {
    } else if m == 55 {
    } else if m == 56 {
    } else if m == 57 {
    } else if m == 58 {
    } else if m == 59 {
    }
}

proof fn lemma_terms_report_portrait_analysis(m: int)
    requires
        0 <= m < 60,
    ensures
        terms_agree(MessageKey::ReportPortraitAnalysis, glossary()[m]),
{
    reveal_strlit("Per-Portrait Analysis");
    reveal_strlit("사진별 분석");
    reveal_strlit("写真別分析");
    let e = message_text(Language::English, MessageKey::ReportPortraitAnalysis);
    let ko = message_text(Language::Korean, MessageKey::ReportPortraitAnalysis);
    let ja = message_text(Language::Japanese, MessageKey::ReportPortraitAnalysis);
    if m == 0 {
    } else if m == 1 {
    } else if m == 2 {
    } else if m == 3 {
    } else if m == 4 {
    } else if m == 5 {
    } else if m == 6 {
    } else if m == 7 {
        assert(e[13] == 'A');
        assert(ko[5] == '석');
        assert(ja[4] == '析');
    } else if m == 8 {
    } else if m == 9 {
    } else if m == 10 {
    } else if m == 11 {
    } else if m == 12 {
    } else if m == 13 {
    } else if m == 14 {
    } else if m == 15 {
    } else if m == 16 {
    } else if m == 17 {
    } else if m == 18 {
    } else if m == 19 {
    } else if m == 20 {
    } else if m == 21 {
    } else if m == 22 {
    } else if m == 23 {
    } else if m == 24 {
    } else if m == 25 {
    } else if m == 26 {
    } else if m == 27 {
    } else if m == 28 {
    } else if m == 29 {
    } else if m == 30 {
    } else if m == 31 {
    } else if m == 32 {
        assert(e[0] == 'P');
        assert(ko[2] == '별');
        assert(ja[2] == '別');
    } else if m == 33 {
    } else if m == 34 {
    } else if m == 35 {
    } else if m == 36 {
    } else if m == 37 {
    } else if m == 38 {
    } else if m == 39 {
    } else if m == 40 {
    } else if m == 41 {
    } else if m == 42 {
    } else if m == 43 {
    } else if m == 44 {
    } else if m == 45 {
    } else if m == 46 {
    } else if m == 47 {
    } else if m == 48 {
    } else if m == 49 {
    } else if m == 50 {
    } else if m == 51 {
    } else if m == 52 {
    } else if m == 53 {
    } else if m == 54 {
    } else if m == 55 {
    } else if m == 56 {
    } else if m == 57 {
    } else if m == 58 {
    } else if m == 59 {
    }
}

proof fn lemma_terms_report_margin(m: int)
    requires
        0 <= m < 60,
    ensures
        terms_agree(MessageKey::ReportMargin, glossary()[m]),
{
    reveal_strlit("Margin");
    reveal_strlit("격차");
    reveal_strlit("差");
    let e = message_text(Language::English, MessageKey::ReportMargin);
    let ko = message_text(Language::Korean, MessageKey::ReportMargin);
    let ja = message_text(Language::Japanese, MessageKey::ReportMargin);
    if m == 0 {
    } else if m == 1 {
    } else if m == 2 {
    } else if m == 3 {
    } else if m == 4 {
    } else if m == 5 {
    } else if m == 6 {
    } else if m == 7 {
    } else if m == 8 {
    } else if m == 9 {
    } else if m == 10 {
    } else if m == 11 {
    } else if m == 12 {
    } else if m == 13 {
    } else if m == 14 {
    } else if m == 15 {
    } else if m == 16 {
    } else if m == 17 {
    } else if m == 18 {
    } else if m == 19 {
    } else if m == 20 {
    } else if m == 21 {
    } else if m == 22 {
    } else if m == 23 {
    } else if m == 24 {
        assert(e[0] == 'M');
        assert(ko[1] == '차');
        assert(ja[0] == '差');
    } else if m == 25 {
    } else if m == 26 {
    } else if m == 27 {
    } else if m == 28 {
    } else if m == 29 {
    } else if m == 30 {
    } else if m == 31 {
    } else if m == 32 {
    } else if m == 33 {
    } else if m == 34 {
    } else if m == 35 {
    } else if m == 36 {
    } else if m == 37 {
    } else if m == 38 {
    } else if m == 39 {
    } else if m == 40 {
    } else if m == 41 {
    } else if m == 42 {
    } else if m == 43 {
    } else if m == 44 {
    } else if m == 45 {
    } else if m == 46 {
    } else if m == 47 {
    } else if m == 48 {
    } else if m == 49 {
    } else if m == 50 {
    } else if m == 51 {
    } else if m == 52 {
    } else if m == 53 {
    } else if m == 54 {
    } else if m == 55 {
    } else if m == 56 {
    } else if m == 57 {
    } else if m == 58 {
    } else if m == 59 {
    }
}

proof fn lemma_terms_report_decisive(m: int)
    requires
        0 <= m < 60,
    ensures
        terms_agree(MessageKey::ReportDecisive, glossary()[m]),
{
    reveal_strlit("DECISIVE!");
    reveal_strlit("압도적!");
    reveal_strlit("圧倒的！");
    let e = message_text(Language::English, MessageKey::ReportDecisive);
    let ko = message_text(Language::Korean, MessageKey::ReportDecisive);
    let ja = message_text(Language::Japanese, MessageKey::ReportDecisive);
    if m == 0 {
    } else if m == 1 {
    } else if m == 2 {
    } else if m == 3 {
    } else if m == 4 {
    } else if m == 5 {
    } else if m == 6 {
    } else if m == 7 {
    } else if m == 8 {
    } else if m == 9 {
    } else if m == 10 {
    } else if m == 11 {
        assert(e[2] == 'C');
        assert(ko[0] == '압');
        assert(ja[1] == '倒');
    } else if m == 12 {
    } else if m == 13 {
    } else if m == 14 {
    } else if m == 15 {
    } else if m == 16 {
    } else if m == 17 {
    } else if m == 18 {
    } else if m == 19 {
    } else if m == 20 {
    } else if m == 21 {
    } else if m == 22 {
    } else if m == 23 {
    } else if m == 24 {
    } else if m == 25 {
    } else if m == 26 {
    } else if m == 27 {
    } else if m == 28 {
    } else if m == 29 {
    } else if m == 30 {
    } else if m == 31 {
    } else if m == 32 {
    } else if m == 33 {
    } else if m == 34 {
    } else if m == 35 {
    } else if m == 36 {
    } else if m == 37 {
    } else if m == 38 {
    } else if m == 39 {
    } else if m == 40 {
    } else if m == 41 {
    } else if m == 42 {
    } else if m == 43 {
    } else if m == 44 {
    } else if m == 45 {
    } else if m == 46 {
    } else if m == 47 {
    } else if m == 48 {
    } else if m == 49 {
    } else if m == 50 {
    } else if m == 51 {
    } else if m == 52 {
    } else if m == 53 {
    } else if m == 54 {
    } else if m == 55 {
    } else if m == 56 {
    } else if m == 57 {
    } else if m == 58 {
    } else if m == 59 {
    }
}

proof fn lemma_terms_report_left(m: int)
    requires
        0 <= m < 60,
    ensures
        terms_agree(MessageKey::ReportLeft, glossary()[m]),
{
    reveal_strlit("LEFT");
    reveal_strlit("왼쪽");
    reveal_strlit("左");
    let e = message_text(Language::English, MessageKey::ReportLeft);
    let ko = message_text(Language::Korean, MessageKey::ReportLeft);
    let ja = message_text(Language::Japanese, MessageKey::ReportLeft);
    if m == 0 {
    } else if m == 1 {
    } else if m == 2 {
    } else if m == 3 {
    } else if m == 4 {
    } else if m == 5 {
    } else if m == 6 {
    } else if m == 7 {
    } else if m == 8 {
    } else if m == 9 {
    } else if m == 10 {
    } else if m == 11 {
    } else if m == 12 {
    } else if m == 13 {
    } else if m == 14 {
    } else if m == 15 {
    } else if m == 16 {
    } else if m == 17 {
    } else if m == 18 {
    } else if m == 19 {
    } else if m == 20 {
    } else if m == 21 {
    } else if m == 22 {
    } else if m == 23 {
    } else if m == 24 {
    } else if m == 25 {
    } else if m == 26 {
    } else if m == 27 {
    } else if m == 28 {
    } else if m == 29 {
    } else if m == 30 {
    } else if m == 31 {
    } else if m == 32 {
    } else if m == 33 {
    } else if m == 34 {
    } else if m == 35 {
    } else if m == 36 {
    } else if m == 37 {
    } else if m == 38 {
    } else if m == 39 {
    } else if m == 40 {
    } else if m == 41 {
    } else if m == 42 {
    } else if m == 43 {
    } else if m == 44 {
    } else if m == 45 {
    } else if m == 46 {
    } else if m == 47 {
    } else if m == 48 {
    } else if m == 49 {
    } else if m == 50 {
    } else if m == 51 {
    } else if m == 52 {
    } else if m == 53 {
    } else if m == 54 {
    } else if m == 55 {
    } else if m == 56 {
    } else if m == 57 {
    } else if m == 58 {
    } else if m == 59 {
    }
}

proof fn lemma_terms_report_right(m: int)
    requires
        0 <= m < 60,
    ensures
        terms_agree(MessageKey::ReportRight, glossary()[m]),
{
    reveal_strlit("RIGHT");
    reveal_strlit("오른쪽");
    reveal_strlit("右");
    let e = message_text(Language::English, MessageKey::ReportRight);
    let ko = message_text(Language::Korean, MessageKey::ReportRight);
    let ja = message_text(Language::Japanese, MessageKey::ReportRight);
    if m == 0 {
    } else if m == 1 {
    } else if m == 2 {
    } else if m == 3 {
    } else if m == 4 {
    } else if m == 5 {
    } else if m == 6 {
    } else if m == 7 {
    } else if m == 8 {
    } else if m == 9 {
    } else if m == 10 {
    } else if m == 11 {
    } else if m == 12 {
    } else if m == 13 {
    } else if m == 14 {
    } else if m == 15 {
    } else if m == 16 {
    } else if m == 17 {
    } else if m == 18 {
    } else if m == 19 {
    } else if m == 20 {
    } else if m == 21 {
    } else if m == 22 {
    } else if m == 23 {
    } else if m == 24 {
    } else if m == 25 {
    } else if m == 26 {
    } else if m == 27 {
    } else if m == 28 {
    } else if m == 29 {
    } else if m == 30 {
    } else if m == 31 {
    } else if m == 32 {
    } else if m == 33 {
    } else if m == 34 {
    } else if m == 35 {
    } else if m == 36 {
    } else if m == 37 {
    } else if m == 38 {
    } else if m == 39 {
    } else if m == 40 {
    } else if m == 41 {
    } else if m == 42 {
    } else if m == 43 {
    } else if m == 44 {
    } else if m == 45 {
    } else if m == 46 {
    } else if m == 47 {
    } else if m == 48 {
    } else if m == 49 {
    } else if m == 50 {
    } else if m == 51 {
    } else if m == 52 {
    } else if m == 53 {
    } else if m == 54 {
    } else if m == 55 {
    } else if m == 56 {
    } else if m == 57 {
    } else if m == 58 {
    } else if m == 59 {
    }
}

proof fn lemma_terms_report_vs(m: int)
    requires
        0 <= m < 60,
    ensures
        terms_agree(MessageKey::ReportVs, glossary()[m]),
{
    reveal_strlit("VS");
    reveal_strlit("VS");
    reveal_strlit("VS");
    let e = message_text(Language::English, MessageKey::ReportVs);
    let ko = message_text(Language::Korean, MessageKey::ReportVs);
    let ja = message_text(Language::Japanese, MessageKey::ReportVs);
    if m == 0 {
    } else if m == 1 {
    } else if m == 2 {
    } else if m == 3 {
    } else if m == 4 {
    } else if m == 5 {
    } else if m == 6 {
    } else if m == 7 {
    } else if m == 8 {
    } else if m == 9 {
    } else if m == 10 {
    } else if m == 11 {
    } else if m == 12 {
    } else if m == 13 {
    } else if m == 14 {
    } else if m == 15 {
    } else if m == 16 {
    } else if m == 17 {
    } else if m == 18 {
    } else if m == 19 {
    } else if m == 20 {
    } else if m == 21 {
    } else if m == 22 {
    } else if m == 23 {
    } else if m == 24 {
    } else if m == 25 {
    } else if m == 26 {
    } else if m == 27 {
    } else if m == 28 {
    } else if m == 29 {
    } else if m == 30 {
    } else if m == 31 {
    } else if m == 32 {
    } else if m == 33 {
    } else if m == 34 {
    } else if m == 35 {
    } else if m == 36 {
    } else if m == 37 {
    } else if m == 38 {
        assert(e[0] == 'V');
        assert(ko[0] == 'V');
        assert(ja[0] == 'V');
    } else if m == 39 {
    } else if m == 40 {
    } else if m == 41 {
    } else if m == 42 {
    } else if m == 43 {
    } else if m == 44 {
    } else if m == 45 {
    } else if m == 46 {
    } else if m == 47 {
    } else if m == 48 {
    } else if m == 49 {
    } else if m == 50 {
    } else if m == 51 {
    } else if m == 52 {
    } else if m == 53 {
    } else if m == 54 {
    } else if m == 55 {
    } else if m == 56 {
    } else if m == 57 {
    } else if m == 58 {
    } else if m == 59 {
    }
}

proof fn lemma_terms_report_generated(m: int)
    requires
        0 <= m < 60,
    ensures
        terms_agree(MessageKey::ReportGenerated, glossary()[m]),
{
    reveal_strlit("Generated");
    reveal_strlit("생성 시각");
    reveal_strlit("生成時刻");
    let e = message_text(Language::English, MessageKey::ReportGenerated);
    let ko = message_text(Language::Korean, MessageKey::ReportGenerated);
    let ja = message_text(Language::Japanese, MessageKey::ReportGenerated);
    if m == 0 {
    } else if m == 1 {
    } else if m == 2 {
    } else if m == 3 {
    } else if m == 4 {
    } else if m == 5 {
    } else if m == 6 {
    } else if m == 7 {
    } else if m == 8 {
    } else if m == 9 {
    } else if m == 10 {
    } else if m == 11 {
    } else if m == 12 {
    } else if m == 13 {
    } else if m == 14 {
        assert(e[0] == 'G');
        assert(ko[4] == '각');
        assert(ja[2] == '時');
    } else if m == 15 {
    } else if m == 16 {
    } else if m == 17 {
    } else if m == 18 {
    } else if m == 19 {
    } else if m == 20 {
    } else if m == 21 {
    } else if m == 22 {
    } else if m == 23 {
    } else if m == 24 {
    } else if m == 25 {
    } else if m == 26 {
    } else if m == 27 {
    } else if m == 28 {
    } else if m == 29 {
    } else if m == 30 {
    } else if m == 31 {
    } else if m == 32 {
    } else if m == 33 {
    } else if m == 34 {
    } else if m == 35 {
    } else if m == 36 {
    } else if m == 37 {
    } else if m == 38 {
    } else if m == 39 {
    } else if m == 40 {
    } else if m == 41 {
    } else if m == 42 {
    } else if m == 43 {
    } else if m == 44 {
    } else if m == 45 {
    } else if m == 46 {
    } else if m == 47 {
    } else if m == 48 {
    } else if m == 49 {
    } else if m == 50 {
    } else if m == 51 {
    } else if m == 52 {
    } else if m == 53 {
    } else if m == 54 {
    } else if m == 55 {
    } else if m == 56 {
    } else if m == 57 {
    } else if m == 58 {
    } else if m == 59 {
    }
}

proof fn lemma_terms_axis_label_facial_symmetry(m: int)
    requires
        0 <= m < 60,
    ensures
        terms_agree(MessageKey::AxisLabel(AxisKey::FacialSymmetry), glossary()[m]),
{
    reveal_strlit("Facial Symmetry");
    reveal_strlit("얼굴 대칭");
    reveal_strlit("顔の対称性");
    let e = message_text(Language::English, MessageKey::AxisLabel(AxisKey::FacialSymmetry));
    let ko = message_text(Language::Korean, MessageKey::AxisLabel(AxisKey::FacialSymmetry));
    let ja = message_text(Language::Japanese, MessageKey::AxisLabel(AxisKey::FacialSymmetry));
    if m == 0 {
    } else if m == 1 {
    } else if m == 2 {
    } else if m == 3 {
    } else if m == 4 {
    } else if m == 5 {
    } else if m == 6 {
    } else if m == 7 {
    } else if m == 8 {
    } else if m == 9 {
    } else if m == 10 {
    } else if m == 11 {
    } else if m == 12 {
    } else if m == 13 {
    } else if m == 14 {
    } else if m == 15 {
    } else if m == 16 {
    } else if m == 17 {
    } else if m == 18 {
    } else if m == 19 {
    } else if m == 20 {
    } else if m == 21 {
    } else if m == 22 {
    } else if m == 23 {
    } else if m == 24 {
    } else if m == 25 {
    } else if m == 26 {
    } else if m == 27 {
    } else if m == 28 {
    } else if m == 29 {
    } else if m == 30 {
    } else if m == 31 {
    } else if m == 32 {
    } else if m == 33 {
    } else if m == 34 {
    } else if m == 35 {
    } else if m == 36 {
    } else if m == 37 {
    } else if m == 38 {
    } else if m == 39 {
    } else if m == 40 {
    } else if m == 41 {
    } else if m == 42 {
    } else if m == 43 {
    } else if m == 44 {
    } else if m == 45 {
    } else if m == 46 {
    } else if m == 47 {
    } else if m == 48 {
    } else if m == 49 {
    } else if m == 50 {
    } else if m == 51 {
    } else if m == 52 {
    } else if m == 53 {
    } else if m == 54 {
    } else if m == 55 {
    } else if m == 56 {
    } else if m == 57 {
    } else if m == 58 {
    } else if m == 59 {
    }
}

proof fn lemma_terms_axis_label_facial_proportions(m: int)
    requires
        0 <= m < 60,
    ensures
        terms_agree(MessageKey::AxisLabel(AxisKey::FacialProportions), glossary()[m]),
{
    reveal_strlit("Facial Proportions");
    reveal_strlit("얼굴 비율");
    reveal_strlit("顔のプロポーション");
    let e = message_text(Language::English, MessageKey::AxisLabel(AxisKey::FacialProportions));
    let ko = message_text(Language::Korean, MessageKey::AxisLabel(AxisKey::FacialProportions));
    let ja = message_text(Language::Japanese, MessageKey::AxisLabel(AxisKey::FacialProportions));
    if m == 0 {
    } else if m == 1 {
    } else if m == 2 {
    } else if m == 3 {
    } else if m == 4 {
    } else if m == 5 {
    } else if m == 6 {
    } else if m == 7 {
    } else if m == 8 {
    } else if m == 9 {
    } else if m == 10 {
    } else if m == 11 {
    } else if m == 12 {
    } else if m == 13 {
    } else if m == 14 {
    } else if m == 15 {
    } else if m == 16 {
    } else if m == 17 {
    } else if m == 18 {
    } else if m == 19 {
    } else if m == 20 {
    } else if m == 21 {
    } else if m == 22 {
    } else if m == 23 {
    } else if m == 24 {
    } else if m == 25 {
    } else if m == 26 {
    } else if m == 27 {
    } else if m == 28 {
    } else if m == 29 {
    } else if m == 30 {
    } else if m == 31 {
    } else if m == 32 {
    } else if m == 33 {
    } else if m == 34 {
    } else if m == 35 {
    } else if m == 36 {
    } else if m == 37 {
    } else if m == 38 {
    } else if m == 39 {
    } else if m == 40 {
    } else if m == 41 {
    } else if m == 42 {
    } else if m == 43 {
    } else if m == 44 {
    } else if m == 45 {
    } else if m == 46 {
    } else if m == 47 {
    } else if m == 48 {
    } else if m == 49 {
    } else if m == 50 {
    } else if m == 51 {
    } else if m == 52 {
    } else if m == 53 {
    } else if m == 54 {
    } else if m == 55 {
    } else if m == 56 {
    } else if m == 57 {
    } else if m == 58 {
    } else if m == 59 {
    }
}

proof fn lemma_terms_axis_label_skin_quality(m: int)
    requires
        0 <= m < 60,
    ensures
        terms_agree(MessageKey::AxisLabel(AxisKey::SkinQuality), glossary()[m]),
{
    reveal_strlit("Skin Quality");
    reveal_strlit("피부 상태");
    reveal_strlit("肌の質");
    let e = message_text(Language::English, MessageKey::AxisLabel(AxisKey::SkinQuality));
    let ko = message_text(Language::Korean, MessageKey::AxisLabel(AxisKey::SkinQuality));
    let ja = message_text(Language::Japanese, MessageKey::AxisLabel(AxisKey::SkinQuality));
    if m == 0 {
    } else if m == 1 {
    } else if m == 2 {
    } else if m == 3 {
    } else if m == 4 {
    } else if m == 5 {
    } else if m == 6 {
    } else if m == 7 {
    } else if m == 8 {
    } else if m == 9 {
    } else if m == 10 {
    } else if m == 11 {
    } else if m == 12 {
    } else if m == 13 {
    } else if m == 14 {
    } else if m == 15 {
    } else if m == 16 {
    } else if m == 17 {
    } else if m == 18 {
    } else if m == 19 {
    } else if m == 20 {
    } else if m == 21 {
    } else if m == 22 {
    } else if m == 23 {
    } else if m == 24 {
    } else if m == 25 {
    } else if m == 26 {
    } else if m == 27 {
    } else if m == 28 {
    } else if m == 29 {
    } else if m == 30 {
    } else if m == 31 {
    } else if m == 32 {
    } else if m == 33 {
    } else if m == 34 {
    } else if m == 35 {
        assert(e[0] == 'S');
        assert(ko[4] == '태');
        assert(ja[1] == 'の');
    } else if m == 36 {
    } else if m == 37 {
    } else if m == 38 {
    } else if m == 39 {
    } else if m == 40 {
    } else if m == 41 {
    } else if m == 42 {
    } else if m == 43 {
    } else if m == 44 {
    } else if m == 45 {
    } else if m == 46 {
    } else if m == 47 {
    } else if m == 48 {
    } else if m == 49 {
    } else if m == 50 {
    } else if m == 51 {
    } else if m == 52 {
    } else if m == 53 {
    } else if m == 54 {
    } else if m == 55 {
    } else if m == 56 {
    } else if m == 57 {
    } else if m == 58 {
    } else if m == 59 {
    }
}

proof fn lemma_terms_axis_label_eye_expression(m: int)
    requires
        0 <= m < 60,
    ensures
        terms_agree(MessageKey::AxisLabel(AxisKey::EyeExpression), glossary()[m]),
{
    reveal_strlit("Eye Expression");
    reveal_strlit("눈 표현력");
    reveal_strlit("目の表現力");
    let e = message_text(Language::English, MessageKey::AxisLabel(AxisKey::EyeExpression));
    let ko = message_text(Language::Korean, MessageKey::AxisLabel(AxisKey::EyeExpression));
    let ja = message_text(Language::Japanese, MessageKey::AxisLabel(AxisKey::EyeExpression));
    if m == 0 {
    } else if m == 1 {
    } else if m == 2 {
    } else if m == 3 {
    } else if m == 4 {
    } else if m == 5 {
    } else if m == 6 {
    } else if m == 7 {
    } else if m == 8 {
    } else if m == 9 {
    } else if m == 10 {
    } else if m == 11 {
    } else if m == 12 {
    } else if m == 13 {
        assert(e[0] == 'E');
        assert(ko[3] == '현');
        assert(ja[3] == '現');
    } else if m == 14 {
    } else if m == 15 {
    } else if m == 16 {
    } else if m == 17 {
    } else if m == 18 {
    } else if m == 19 {
    } else if m == 20 {
    } else if m == 21 {
    } else if m == 22 {
    } else if m == 23 {
    } else if m == 24 {
    } else if m == 25 {
    } else if m == 26 {
    } else if m == 27 {
    } else if m == 28 {
    } else if m == 29 {
    } else if m == 30 {
    } else if m == 31 {
    } else if m == 32 {
    } else if m == 33 {
    } else if m == 34 {
    } else if m == 35 {
    } else if m == 36 {
    } else if m == 37 {
    } else if m == 38 {
    } else if m == 39 {
    } else if m == 40 {
    } else if m == 41 {
    } else if m == 42 {
    } else if m == 43 {
    } else if m == 44 {
    } else if m == 45 {
    } else if m == 46 {
    } else if m == 47 {
    } else if m == 48 {
    } else if m == 49 {
    } else if m == 50 {
    } else if m == 51 {
    } else if m == 52 {
    } else if m == 53 {
    } else if m == 54 {
    } else if m == 55 {
    } else if m == 56 {
    } else if m == 57 {
    } else if m == 58 {
    } else if m == 59 {
    }
}

proof fn lemma_terms_axis_label_hair_grooming(m: int)
    requires
        0 <= m < 60,
    ensures
        terms_agree(MessageKey::AxisLabel(AxisKey::HairGrooming), glossary()[m]),
{
    reveal_strlit("Hair & Grooming");
    reveal_strlit("헤어 & 그루밍");
    reveal_strlit("ヘア & グルーミング");
    let e = message_text(Language::English, MessageKey::AxisLabel(AxisKey::HairGrooming));
    let ko = message_text(Language::Korean, MessageKey::AxisLabel(AxisKey::HairGrooming));
    let ja = message_text(Language::Japanese, MessageKey::AxisLabel(AxisKey::HairGrooming));
    if m == 0 {
    } else if m == 1 {
    } else if m == 2 {
    } else if m == 3 {
    } else if m == 4 {
    } else if m == 5 {
    } else if m == 6 {
    } else if m == 7 {
    } else if m == 8 {
    } else if m == 9 {
    } else if m == 10 {
    } else if m == 11 {
    } else if m == 12 {
    } else if m == 13 {
    } else if m == 14 {
    } else if m == 15 {
    } else if m == 16 {
        assert(e[7] == 'G');
        assert(ko[5] == '그');
        assert(ja[0] == 'ヘ');
    } else if m == 17 {
    } else if m == 18 {
    } else if m == 19 {
    } else if m == 20 {
    } else if m == 21 {
    } else if m == 22 {
    } else if m == 23 {
    } else if m == 24 {
    } else if m == 25 {
    } else if m == 26 {
    } else if m == 27 {
    } else if m == 28 {
    } else if m == 29 {
    } else if m == 30 {
    } else if m == 31 {
    } else if m == 32 {
    } else if m == 33 {
    } else if m == 34 {
    } else if m == 35 {
    } else if m == 36 {
    } else if m == 37 {
    } else if m == 38 {
    } else if m == 39 {
    } else if m == 40 {
    } else if m == 41 {
    } else if m == 42 {
    } else if m == 43 {
    } else if m == 44 {
    } else if m == 45 {
    } else if m == 46 {
    } else if m == 47 {
    } else if m == 48 {
    } else if m == 49 {
    } else if m == 50 {
    } else if m == 51 {
    } else if m == 52 {
    } else if m == 53 {
    } else if m == 54 {
    } else if m == 55 {
    } else if m == 56 {
    } else if m == 57 {
    } else if m == 58 {
    } else if m == 59 {
    }
}

proof fn lemma_terms_axis_label_bone_structure(m: int)
    requires
        0 <= m < 60,
    ensures
        terms_agree(MessageKey::AxisLabel(AxisKey::BoneStructure), glossary()[m]),
{
    reveal_strlit("Bone Structure");
    reveal_strlit("골격 구조");
    reveal_strlit("骨格構造");
    let e = message_text(Language::English, MessageKey::AxisLabel(AxisKey::BoneStructure));
    let ko = message_text(Language::Korean, MessageKey::AxisLabel(AxisKey::BoneStructure));
    let ja = message_text(Language::Japanese, MessageKey::AxisLabel(AxisKey::BoneStructure));
    if m == 0 {
    } else if m == 1 {
    } else if m == 2 {
    } else if m == 3 {
    } else if m == 4 {
    } else if m == 5 {
    } else if m == 6 {
    } else if m == 7 {
    } else if m == 8 {
    } else if m == 9 {
    } else if m == 10 {
        assert(e[0] == 'B');
        assert(ko[3] == '구');
        assert(ja[3] == '造');
    } else if m == 11 {
    } else if m == 12 {
    } else if m == 13 {
    } else if m == 14 {
    } else if m == 15 {
    } else if m == 16 {
    } else if m == 17 {
    } else if m == 18 {
    } else if m == 19 {
    } else if m == 20 {
    } else if m == 21 {
    } else if m == 22 {
    } else if m == 23 {
    } else if m == 24 {
    } else if m == 25 {
    } else if m == 26 {
    } else if m == 27 {
    } else if m == 28 {
    } else if m == 29 {
    } else if m == 30 {
    } else if m == 31 {
    } else if m == 32 {
    } else if m == 33 {
    } else if m == 34 {
    } else if m == 35 {
    } else if m == 36 {
    } else if m == 37 {
    } else if m == 38 {
    } else if m == 39 {
    } else if m == 40 {
    } else if m == 41 {
    } else if m == 42 {
    } else if m == 43 {
    } else if m == 44 {
    } else if m == 45 {
    } else if m == 46 {
    } else if m == 47 {
    } else if m == 48 {
    } else if m == 49 {
    } else if m == 50 {
    } else if m == 51 {
    } else if m == 52 {
    } else if m == 53 {
    } else if m == 54 {
    } else if m == 55 {
    } else if m == 56 {
    } else if m == 57 {
    } else if m == 58 {
    } else if m == 59 {
    }
}

proof fn lemma_terms_axis_label_expression_charisma(m: int)
    requires
        0 <= m < 60,
    ensures
        terms_agree(MessageKey::AxisLabel(AxisKey::ExpressionCharisma), glossary()[m]),
{
    reveal_strlit("Expression & Charisma");
    reveal_strlit("표정 & 카리스마");
    reveal_strlit("表情 & カリスマ");
    let e = message_text(Language::English, MessageKey::AxisLabel(AxisKey::ExpressionCharisma));
    let ko = message_text(Language::Korean, MessageKey::AxisLabel(AxisKey::ExpressionCharisma));
    let ja = message_text(Language::Japanese, MessageKey::AxisLabel(AxisKey::ExpressionCharisma));
    if m == 0 {
    } else if m == 1 {
    } else if m == 2 {
    } else if m == 3 {
    } else if m == 4 {
    } else if m == 5 {
    } else if m == 6 {
    } else if m == 7 {
    } else if m == 8 {
    } else if m == 9 {
    } else if m == 10 {
    } else if m == 11 {
    } else if m == 12 {
    } else if m == 13 {
    } else if m == 14 {
    } else if m == 15 {
    } else if m == 16 {
    } else if m == 17 {
    } else if m == 18 {
    } else if m == 19 {
    } else if m == 20 {
    } else if m == 21 {
    } else if m == 22 {
    } else if m == 23 {
    } else if m == 24 {
    } else if m == 25 {
    } else if m == 26 {
    } else if m == 27 {
    } else if m == 28 {
    } else if m == 29 {
    } else if m == 30 {
    } else if m == 31 {
    } else if m == 32 {
    } else if m == 33 {
    } else if m == 34 {
    } else if m == 35 {
    } else if m == 36 {
    } else if m == 37 {
    } else if m == 38 {
    } else if m == 39 {
    } else if m == 40 {
    } else if m == 41 {
    } else if m == 42 {
    } else if m == 43 {
    } else if m == 44 {
    } else if m == 45 {
    } else if m == 46 {
    } else if m == 47 {
    } else if m == 48 {
    } else if m == 49 {
    } else if m == 50 {
    } else if m == 51 {
    } else if m == 52 {
    } else if m == 53 {
    } else if m == 54 {
    } else if m == 55 {
        assert(e[18] == 's');
        assert(ko[5] == '카');
        assert(ja[5] == 'カ');
    } else if m == 56 {
    } else if m == 57 {
    } else if m == 58 {
    } else if m == 59 {
    }
}

proof fn lemma_terms_axis_label_lighting_color(m: int)
    requires
        0 <= m < 60,
    ensures
        terms_agree(MessageKey::AxisLabel(AxisKey::LightingColor), glossary()[m]),
{
    reveal_strlit("Lighting & Color");
    reveal_strlit("조명 & 색감");
    reveal_strlit("照明 & 色");
    let e = message_text(Language::English, MessageKey::AxisLabel(AxisKey::LightingColor));
    let ko = message_text(Language::Korean, MessageKey::AxisLabel(AxisKey::LightingColor));
    let ja = message_text(Language::Japanese, MessageKey::AxisLabel(AxisKey::LightingColor));
    if m == 0 {
    } else if m == 1 {
    } else if m == 2 {
    } else if m == 3 {
    } else if m == 4 {
    } else if m == 5 {
    } else if m == 6 {
    } else if m == 7 {
    } else if m == 8 {
    } else if m == 9 {
    } else if m == 10 {
    } else if m == 11 {
    } else if m == 12 {
    } else if m == 13 {
    } else if m == 14 {
    } else if m == 15 {
    } else if m == 16 {
    } else if m == 17 {
    } else if m == 18 {
    } else if m == 19 {
    } else if m == 20 {
    } else if m == 21 {
    } else if m == 22 {
    } else if m == 23 {
        assert(e[0] == 'L');
        assert(ko[5] == '색');
        assert(ja[5] == '色');
    } else if m == 24 {
    } else if m == 25 {
    } else if m == 26 {
    } else if m == 27 {
    } else if m == 28 {
    } else if m == 29 {
    } else if m == 30 {
    } else if m == 31 {
    } else if m == 32 {
    } else if m == 33 {
    } else if m == 34 {
    } else if m == 35 {
    } else if m == 36 {
    } else if m == 37 {
    } else if m == 38 {
    } else if m == 39 {
    } else if m == 40 {
    } else if m == 41 {
    } else if m == 42 {
    } else if m == 43 {
    } else if m == 44 {
    } else if m == 45 {
    } else if m == 46 {
    } else if m == 47 {
    } else if m == 48 {
    } else if m == 49 {
    } else if m == 50 {
    } else if m == 51 {
    } else if m == 52 {
    } else if m == 53 {
    } else if m == 54 {
    } else if m == 55 {
    } else if m == 56 {
    } else if m == 57 {
    } else if m == 58 {
    } else if m == 59 {
    }
}

proof fn lemma_terms_axis_label_background_framing(m: int)
    requires
        0 <= m < 60,
    ensures
        terms_agree(MessageKey::AxisLabel(AxisKey::BackgroundFraming), glossary()[m]),
{
    reveal_strlit("Background & Framing");
    reveal_strlit("배경 & 구도");
    reveal_strlit("背景 & 構図");
    let e = message_text(Language::English, MessageKey::AxisLabel(AxisKey::BackgroundFraming));
    let ko = message_text(Language::Korean, MessageKey::AxisLabel(AxisKey::BackgroundFraming));
    let ja = message_text(Language::Japanese, MessageKey::AxisLabel(AxisKey::BackgroundFraming));
    if m == 0 {
    } else if m == 1 {
    } else if m == 2 {
    } else if m == 3 {
    } else if m == 4 {
    } else if m == 5 {
    } else if m == 6 {
    } else if m == 7 {
    } else if m == 8 {
    } else if m == 9 {
    } else if m == 10 {
    } else if m == 11 {
    } else if m == 12 {
    } else if m == 13 {
    } else if m == 14 {
    } else if m == 15 {
    } else if m == 16 {
    } else if m == 17 {
    } else if m == 18 {
    } else if m == 19 {
    } else if m == 20 {
    } else if m == 21 {
    } else if m == 22 {
    } else if m == 23 {
    } else if m == 24 {
    } else if m == 25 {
    } else if m == 26 {
    } else if m == 27 {
    } else if m == 28 {
    } else if m == 29 {
    } else if m == 30 {
    } else if m == 31 {
    } else if m == 32 {
    } else if m == 33 {
    } else if m == 34 {
    } else if m == 35 {
    } else if m == 36 {
    } else if m == 37 {
    } else if m == 38 {
    } else if m == 39 {
    } else if m == 40 {
    } else if m == 41 {
    } else if m == 42 {
    } else if m == 43 {
    } else if m == 44 {
    } else if m == 45 {
    } else if m == 46 {
    } else if m == 47 {
    } else if m == 48 {
        assert(e[4] == 'g');
        assert(ko[5] == '구');
        assert(ja[6] == '図');
    } else if m == 49 {
    } else if m == 50 {
    } else if m == 51 {
    } else if m == 52 {
    } else if m == 53 {
    } else if m == 54 {
    } else if m == 55 {
    } else if m == 56 {
    } else if m == 57 {
    } else if m == 58 {
    } else if m == 59 {
    }
}

proof fn lemma_terms_axis_label_photogenic_impact(m: int)
    requires
        0 <= m < 60,
    ensures
        terms_agree(MessageKey::AxisLabel(AxisKey::PhotogenicImpact), glossary()[m]),
{
    reveal_strlit("Photogenic Impact");
    reveal_strlit("포토제닉 임팩트");
    reveal_strlit("フォトジェニックインパクト");
    let e = message_text(Language::English, MessageKey::AxisLabel(AxisKey::PhotogenicImpact));
    let ko = message_text(Language::Korean, MessageKey::AxisLabel(AxisKey::PhotogenicImpact));
    let ja = message_text(Language::Japanese, MessageKey::AxisLabel(AxisKey::PhotogenicImpact));
    if m == 0 {
    } else if m == 1 {
    } else if m == 2 {
    } else if m == 3 {
    } else if m == 4 {
    } else if m == 5 {
    } else if m == 6 {
    } else if m == 7 {
    } else if m == 8 {
    } else if m == 9 {
    } else if m == 10 {
    } else if m == 11 {
    } else if m == 12 {
    } else if m == 13 {
    } else if m == 14 {
    } else if m == 15 {
    } else if m == 16 {
    } else if m == 17 {
    } else if m == 18 {
    } else if m == 19 {
        assert(e[11] == 'I');
        assert(ko[2] == '제');
        assert(ja[1] == 'ォ');
    } else if m == 20 {
    } else if m == 21 {
    } else if m == 22 {
    } else if m == 23 {
    } else if m == 24 {
    } else if m == 25 {
    } else if m == 26 {
    } else if m == 27 {
    } else if m == 28 {
    } else if m == 29 {
    } else if m == 30 {
    } else if m == 31 {
    } else if m == 32 {
    } else if m == 33 {
    } else if m == 34 {
    } else if m == 35 {
    } else if m == 36 {
    } else if m == 37 {
    } else if m == 38 {
    } else if m == 39 {
    } else if m == 40 {
    } else if m == 41 {
    } else if m == 42 {
    } else if m == 43 {
    } else if m == 44 {
    } else if m == 45 {
    } else if m == 46 {
    } else if m == 47 {
    } else if m == 48 {
    } else if m == 49 {
    } else if m == 50 {
    } else if m == 51 {
    } else if m == 52 {
    } else if m == 53 {
    } else if m == 54 {
    } else if m == 55 {
    } else if m == 56 {
    } else if m == 57 {
    } else if m == 58 {
    } else if m == 59 {
    }
}

proof fn lemma_terms_axis_short_facial_symmetry(m: int)
    requires
        0 <= m < 60,
    ensures
        terms_agree(MessageKey::AxisShort(AxisKey::FacialSymmetry), glossary()[m]),
{
    reveal_strlit("SYM");
    reveal_strlit("대칭");
    reveal_strlit("対称");
    let e = message_text(Language::English, MessageKey::AxisShort(AxisKey::FacialSymmetry));
    let ko = message_text(Language::Korean, MessageKey::AxisShort(AxisKey::FacialSymmetry));
    let ja = message_text(Language::Japanese, MessageKey::AxisShort(AxisKey::FacialSymmetry));
    if m == 0 {
    } else if m == 1 {
    } else if m == 2 {
    } else if m == 3 {
    } else if m == 4 {
    } else if m == 5 {
    } else if m == 6 {
    } else if m == 7 {
    } else if m == 8 {
    } else if m == 9 {
    } else if m == 10 {
    } else if m == 11 {
    } else if m == 12 {
    } else if m == 13 {
    } else if m == 14 {
    } else if m == 15 {
    } else if m == 16 {
    } else if m == 17 {
    } else if m == 18 {
    } else if m == 19 {
    } else if m == 20 {
    } else if m == 21 {
    } else if m == 22 {
    } else if m == 23 {
    } else if m == 24 {
    } else if m == 25 {
    } else if m == 26 {
    } else if m == 27 {
    } else if m == 28 {
    } else if m == 29 {
    } else if m == 30 {
    } else if m == 31 {
    } else if m == 32 {
    } else if m == 33 {
    } else if m == 34 {
    } else if m == 35 {
    } else if m == 36 {
    } else if m == 37 {
    } else if m == 38 {
    } else if m == 39 {
    } else if m == 40 {
    } else if m == 41 {
    } else if m == 42 {
    } else if m == 43 {
    } else if m == 44 {
    } else if m == 45 {
    } else if m == 46 {
    } else if m == 47 {
    } else if m == 48 {
    } else if m == 49 {
    } else if m == 50 {
    } else if m == 51 {
    } else if m == 52 {
    } else if m == 53 {
    } else if m == 54 {
    } else if m == 55 {
    } else if m == 56 {
    } else if m == 57 {
    } else if m == 58 {
    } else if m == 59 {
    }
}

proof fn lemma_terms_axis_short_facial_proportions(m: int)
    requires
        0 <= m < 60,
    ensures
        terms_agree(MessageKey::AxisShort(AxisKey::FacialProportions), glossary()[m]),
{
    reveal_strlit("RATIO");
    reveal_strlit("비율");
    reveal_strlit("比率");
    let e = message_text(Language::English, MessageKey::AxisShort(AxisKey::FacialProportions));
    let ko = message_text(Language::Korean, MessageKey::AxisShort(AxisKey::FacialProportions));
    let ja = message_text(Language::Japanese, MessageKey::AxisShort(AxisKey::FacialProportions));
    if m == 0 {
    } else if m == 1 {
    } else if m == 2 {
    } else if m == 3 {
    } else if m == 4 {
    } else if m == 5 {
    } else if m == 6 {
    } else if m == 7 {
    } else if m == 8 {
    } else if m == 9 {
    } else if m == 10 {
    } else if m == 11 {
    } else if m == 12 {
    } else if m == 13 {
    } else if m == 14 {
    } else if m == 15 {
    } else if m == 16 {
    } else if m == 17 {
    } else if m == 18 {
    } else if m == 19 {
    } else if m == 20 {
    } else if m == 21 {
    } else if m == 22 {
    } else if m == 23 {
    } else if m == 24 {
    } else if m == 25 {
    } else if m == 26 {
    } else if m == 27 {
    } else if m == 28 {
    } else if m == 29 {
    } else if m == 30 {
    } else if m == 31 {
    } else if m == 32 {
    } else if m == 33 {
    } else if m == 34 {
    } else if m == 35 {
    } else if m == 36 {
    } else if m == 37 {
    } else if m == 38 {
    } else if m == 39 {
    } else if m == 40 {
    } else if m == 41 {
    } else if m == 42 {
    } else if m == 43 {
    } else if m == 44 {
    } else if m == 45 {
    } else if m == 46 {
    } else if m == 47 {
    } else if m == 48 {
    } else if m == 49 {
    } else if m == 50 {
    } else if m == 51 {
    } else if m == 52 {
    } else if m == 53 {
    } else if m == 54 {
    } else if m == 55 {
    } else if m == 56 {
    } else if m == 57 {
    } else if m == 58 {
    } else if m == 59 {
    }
}

proof fn lemma_terms_axis_short_skin_quality(m: int)
    requires
        0 <= m < 60,
    ensures
        terms_agree(MessageKey::AxisShort(AxisKey::SkinQuality), glossary()[m]),
{
    reveal_strlit("SKIN");
    reveal_strlit("피부");
    reveal_strlit("肌質");
    let e = message_text(Language::English, MessageKey::AxisShort(AxisKey::SkinQuality));
    let ko = message_text(Language::Korean, MessageKey::AxisShort(AxisKey::SkinQuality));
    let ja = message_text(Language::Japanese, MessageKey::AxisShort(AxisKey::SkinQuality));
    if m == 0 {
    } else if m == 1 {
    } else if m == 2 {
    } else if m == 3 {
    } else if m == 4 {
    } else if m == 5 {
    } else if m == 6 {
    } else if m == 7 {
    } else if m == 8 {
    } else if m == 9 {
    } else if m == 10 {
    } else if m == 11 {
    } else if m == 12 {
    } else if m == 13 {
    } else if m == 14 {
    } else if m == 15 {
    } else if m == 16 {
    } else if m == 17 {
    } else if m == 18 {
    } else if m == 19 {
    } else if m == 20 {
    } else if m == 21 {
    } else if m == 22 {
    } else if m == 23 {
    } else if m == 24 {
    } else if m == 25 {
    } else if m == 26 {
    } else if m == 27 {
    } else if m == 28 {
    } else if m == 29 {
    } else if m == 30 {
    } else if m == 31 {
    } else if m == 32 {
    } else if m == 33 {
    } else if m == 34 {
    } else if m == 35 {
    } else if m == 36 {
    } else if m == 37 {
    } else if m == 38 {
    } else if m == 39 {
    } else if m == 40 {
    } else if m == 41 {
    } else if m == 42 {
    } else if m == 43 {
    } else if m == 44 {
    } else if m == 45 {
    } else if m == 46 {
    } else if m == 47 {
    } else if m == 48 {
    } else if m == 49 {
    } else if m == 50 {
    } else if m == 51 {
    } else if m == 52 {
    } else if m == 53 {
    } else if m == 54 {
    } else if m == 55 {
    } else if m == 56 {
    } else if m == 57 {
    } else if m == 58 {
    } else if m == 59 {
    }
}

proof fn lemma_terms_axis_short_eye_expression(m: int)
    requires
        0 <= m < 60,
    ensures
        terms_agree(MessageKey::AxisShort(AxisKey::EyeExpression), glossary()[m]),
{
    reveal_strlit("EYES");
    reveal_strlit("눈빛");
    reveal_strlit("目元");
    let e = message_text(Language::English, MessageKey::AxisShort(AxisKey::EyeExpression));
    let ko = message_text(Language::Korean, MessageKey::AxisShort(AxisKey::EyeExpression));
    let ja = message_text(Language::Japanese, MessageKey::AxisShort(AxisKey::EyeExpression));
    if m == 0 {
    } else if m == 1 {
    } else if m == 2 {
    } else if m == 3 {
    } else if m == 4 {
    } else if m == 5 {
    } else if m == 6 {
    } else if m == 7 {
    } else if m == 8 {
    } else if m == 9 {
    } else if m == 10 {
    } else if m == 11 {
    } else if m == 12 {
    } else if m == 13 {
    } else if m == 14 {
    } else if m == 15 {
    } else if m == 16 {
    } else if m == 17 {
    } else if m == 18 {
    } else if m == 19 {
    } else if m == 20 {
    } else if m == 21 {
    } else if m == 22 {
    } else if m == 23 {
    } else if m == 24 {
    } else if m == 25 {
    } else if m == 26 {
    } else if m == 27 {
    } else if m == 28 {
    } else if m == 29 {
    } else if m == 30 {
    } else if m == 31 {
    } else if m == 32 {
    } else if m == 33 {
    } else if m == 34 {
    } else if m == 35 {
    } else if m == 36 {
    } else if m == 37 {
    } else if m == 38 {
    } else if m == 39 {
    } else if m == 40 {
        assert(e[1] == 'Y');
        assert(ko[1] == '빛');
        assert(ja[1] == '元');
    } else if m == 41 {
    } else if m == 42 {
    } else if m == 43 {
    } else if m == 44 {
    } else if m == 45 {
    } else if m == 46 {
    } else if m == 47 {
    } else if m == 48 {
    } else if m == 49 {
    } else if m == 50 {
    } else if m == 51 {
    } else if m == 52 {
    } else if m == 53 {
    } else if m == 54 {
    } else if m == 55 {
    } else if m == 56 {
    } else if m == 57 {
    } else if m == 58 {
    } else if m == 59 {
    }
}

proof fn lemma_terms_axis_short_hair_grooming(m: int)
    requires
        0 <= m < 60,
    ensures
        terms_agree(MessageKey::AxisShort(AxisKey::HairGrooming), glossary()[m]),
{
    reveal_strlit("HAIR");
    reveal_strlit("헤어");
    reveal_strlit("髪型");
    let e = message_text(Language::English, MessageKey::AxisShort(AxisKey::HairGrooming));
    let ko = message_text(Language::Korean, MessageKey::AxisShort(AxisKey::HairGrooming));
    let ja = message_text(Language::Japanese, MessageKey::AxisShort(AxisKey::HairGrooming));
    if m == 0 {
    } else if m == 1 {
    } else if m == 2 {
    } else if m == 3 {
    } else if m == 4 {
    } else if m == 5 {
    } else if m == 6 {
    } else if m == 7 {
    } else if m == 8 {
    } else if m == 9 {
    } else if m == 10 {
    } else if m == 11 {
    } else if m == 12 {
    } else if m == 13 {
    } else if m == 14 {
    } else if m == 15 {
    } else if m == 16 {
    } else if m == 17 {
    } else if m == 18 {
    } else if m == 19 {
    } else if m == 20 {
    } else if m == 21 {
    } else if m == 22 {
    } else if m == 23 {
    } else if m == 24 {
    } else if m == 25 {
    } else if m == 26 {
    } else if m == 27 {
    } else if m == 28 {
    } else if m == 29 {
    } else if m == 30 {
    } else if m == 31 {
    } else if m == 32 {
    } else if m == 33 {
    } else if m == 34 {
    } else if m == 35 {
    } else if m == 36 {
    } else if m == 37 {
    } else if m == 38 {
    } else if m == 39 {
    } else if m == 40 {
    } else if m == 41 {
    } else if m == 42 {
    } else if m == 43 {
    } else if m == 44 {
    } else if m == 45 {
    } else if m == 46 {
    } else if m == 47 {
    } else if m == 48 {
    } else if m == 49 {
    } else if m == 50 {
    } else if m == 51 {
    } else if m == 52 {
    } else if m == 53 {
    } else if m == 54 {
    } else if m == 55 {
    } else if m == 56 {
    } else if m == 57 {
    } else if m == 58 {
    } else if m == 59 {
    }
}

proof fn lemma_terms_axis_short_bone_structure(m: int)
    requires
        0 <= m < 60,
    ensures
        terms_agree(MessageKey::AxisShort(AxisKey::BoneStructure), glossary()[m]),
{
    reveal_strlit("BONE");
    reveal_strlit("골격");
    reveal_strlit("骨格");
    let e = message_text(Language::English, MessageKey::AxisShort(AxisKey::BoneStructure));
    let ko = message_text(Language::Korean, MessageKey::AxisShort(AxisKey::BoneStructure));
    let ja = message_text(Language::Japanese, MessageKey::AxisShort(AxisKey::BoneStructure));
    if m == 0 {
    } else if m == 1 {
    } else if m == 2 {
    } else if m == 3 {
    } else if m == 4 {
    } else if m == 5 {
    } else if m == 6 {
    } else if m == 7 {
    } else if m == 8 {
    } else if m == 9 {
    } else if m == 10 {
    } else if m == 11 {
    } else if m == 12 {
    } else if m == 13 {
    } else if m == 14 {
    } else if m == 15 {
    } else if m == 16 {
    } else if m == 17 {
    } else if m == 18 {
    } else if m == 19 {
    } else if m == 20 {
    } else if m == 21 {
    } else if m == 22 {
    } else if m == 23 {
    } else if m == 24 {
    } else if m == 25 {
    } else if m == 26 {
    } else if m == 27 {
    } else if m == 28 {
    } else if m == 29 {
    } else if m == 30 {
    } else if m == 31 {
    } else if m == 32 {
    } else if m == 33 {
    } else if m == 34 {
    } else if m == 35 {
    } else if m == 36 {
    } else if m == 37 {
    } else if m == 38 {
    } else if m == 39 {
    } else if m == 40 {
    } else if m == 41 {
    } else if m == 42 {
    } else if m == 43 {
    } else if m == 44 {
    } else if m == 45 {
    } else if m == 46 {
    } else if m == 47 {
    } else if m == 48 {
    } else if m == 49 {
    } else if m == 50 {
    } else if m == 51 {
    } else if m == 52 {
    } else if m == 53 {
    } else if m == 54 {
    } else if m == 55 {
    } else if m == 56 {
    } else if m == 57 {
    } else if m == 58 {
    } else if m == 59 {
    }
}

proof fn lemma_terms_axis_short_expression_charisma(m: int)
    requires
        0 <= m < 60,
    ensures
        terms_agree(MessageKey::AxisShort(AxisKey::ExpressionCharisma), glossary()[m]),
{
    reveal_strlit("AURA");
    reveal_strlit("아우라");
    reveal_strlit("オーラ");
    let e = message_text(Language::English, MessageKey::AxisShort(AxisKey::ExpressionCharisma));
    let ko = message_text(Language::Korean, MessageKey::AxisShort(AxisKey::ExpressionCharisma));
    let ja = message_text(Language::Japanese, MessageKey::AxisShort(AxisKey::ExpressionCharisma));
    if m == 0 {
    } else if m == 1 {
    } else if m == 2 {
    } else if m == 3 {
    } else if m == 4 {
        assert(e[0] == 'A');
        assert(ko[1] == '우');
        assert(ja[0] == 'オ');
    } else if m == 5 {
    } else if m == 6 {
    } else if m == 7 {
    } else if m == 8 {
    } else if m == 9 {
    } else if m == 10 {
    } else if m == 11 {
    } else if m == 12 {
    } else if m == 13 {
    } else if m == 14 {
    } else if m == 15 {
    } else if m == 16 {
    } else if m == 17 {
    } else if m == 18 {
    } else if m == 19 {
    } else if m == 20 {
    } else if m == 21 {
    } else if m == 22 {
    } else if m == 23 {
    } else if m == 24 {
    } else if m == 25 {
    } else if m == 26 {
    } else if m == 27 {
    } else if m == 28 {
    } else if m == 29 {
    } else if m == 30 {
    } else if m == 31 {
    } else if m == 32 {
    } else if m == 33 {
    } else if m == 34 {
    } else if m == 35 {
    } else if m == 36 {
    } else if m == 37 {
    } else if m == 38 {
    } else if m == 39 {
    } else if m == 40 {
    } else if m == 41 {
    } else if m == 42 {
    } else if m == 43 {
    } else if m == 44 {
    } else if m == 45 {
    } else if m == 46 {
    } else if m == 47 {
    } else if m == 48 {
    } else if m == 49 {
    } else if m == 50 {
    } else if m == 51 {
    } else if m == 52 {
    } else if m == 53 {
    } else if m == 54 {
    } else if m == 55 {
    } else if m == 56 {
    } else if m == 57 {
    } else if m == 58 {
    } else if m == 59 {
    }
}

proof fn lemma_terms_axis_short_lighting_color(m: int)
    requires
        0 <= m < 60,
    ensures
        terms_agree(MessageKey::AxisShort(AxisKey::LightingColor), glossary()[m]),
{
    reveal_strlit("LIGHT");
    reveal_strlit("조명");
    reveal_strlit("照明");
    let e = message_text(Language::English, MessageKey::AxisShort(AxisKey::LightingColor));
    let ko = message_text(Language::Korean, MessageKey::AxisShort(AxisKey::LightingColor));
    let ja = message_text(Language::Japanese, MessageKey::AxisShort(AxisKey::LightingColor));
    if m == 0 {
    } else if m == 1 {
    } else if m == 2 {
    } else if m == 3 {
    } else if m == 4 {
    } else if m == 5 {
    } else if m == 6 {
    } else if m == 7 {
    } else if m == 8 {
    } else if m == 9 {
    } else if m == 10 {
    } else if m == 11 {
    } else if m == 12 {
    } else if m == 13 {
    } else if m == 14 {
    } else if m == 15 {
    } else if m == 16 {
    } else if m == 17 {
    } else if m == 18 {
    } else if m == 19 {
    } else if m == 20 {
    } else if m == 21 {
    } else if m == 22 {
    } else if m == 23 {
    } else if m == 24 {
    } else if m == 25 {
    } else if m == 26 {
    } else if m == 27 {
    } else if m == 28 {
    } else if m == 29 {
    } else if m == 30 {
    } else if m == 31 {
    } else if m == 32 {
    } else if m == 33 {
    } else if m == 34 {
    } else if m == 35 {
    } else if m == 36 {
    } else if m == 37 {
    } else if m == 38 {
    } else if m == 39 {
    } else if m == 40 {
    } else if m == 41 {
    } else if m == 42 {
    } else if m == 43 {
    } else if m == 44 {
    } else if m == 45 {
    } else if m == 46 {
    } else if m == 47 {
    } else if m == 48 {
    } else if m == 49 {
    } else if m == 50 {
    } else if m == 51 {
    } else if m == 52 {
    } else if m == 53 {
    } else if m == 54 {
    } else if m == 55 {
    } else if m == 56 {
    } else if m == 57 {
    } else if m == 58 {
    } else if m == 59 {
    }
}

proof fn lemma_terms_axis_short_background_framing(m: int)
    requires
        0 <= m < 60,
    ensures
        terms_agree(MessageKey::AxisShort(AxisKey::BackgroundFraming), glossary()[m]),
{
    reveal_strlit("FRAME");
    reveal_strlit("배경");
    reveal_strlit("背景");
    let e = message_text(Language::English, MessageKey::AxisShort(AxisKey::BackgroundFraming));
    let ko = message_text(Language::Korean, MessageKey::AxisShort(AxisKey::BackgroundFraming));
    let ja = message_text(Language::Japanese, MessageKey::AxisShort(AxisKey::BackgroundFraming));
    if m == 0 {
    } else if m == 1 {
    } else if m == 2 {
    } else if m == 3 {
    } else if m == 4 {
    } else if m == 5 {
    } else if m == 6 {
    } else if m == 7 {
    } else if m == 8 {
    } else if m == 9 {
    } else if m == 10 {
    } else if m == 11 {
    } else if m == 12 {
    } else if m == 13 {
    } else if m == 14 {
    } else if m == 15 {
    } else if m == 16 {
    } else if m == 17 {
    } else if m == 18 {
    } else if m == 19 {
    } else if m == 20 {
    } else if m == 21 {
    } else if m == 22 {
    } else if m == 23 {
    } else if m == 24 {
    } else if m == 25 {
    } else if m == 26 {
    } else if m == 27 {
    } else if m == 28 {
    } else if m == 29 {
    } else if m == 30 {
    } else if m == 31 {
    } else if m == 32 {
    } else if m == 33 {
    } else if m == 34 {
    } else if m == 35 {
    } else if m == 36 {
    } else if m == 37 {
    } else if m == 38 {
    } else if m == 39 {
    } else if m == 40 {
    } else if m == 41 {
    } else if m == 42 {
    } else if m == 43 {
    } else if m == 44 {
    } else if m == 45 {
    } else if m == 46 {
    } else if m == 47 {
    } else if m == 48 {
    } else if m == 49 {
    } else if m == 50 {
    } else if m == 51 {
    } else if m == 52 {
    } else if m == 53 {
    } else if m == 54 {
    } else if m == 55 {
    } else if m == 56 {
    } else if m == 57 {
    } else if m == 58 {
    } else if m == 59 {
    }
}

proof fn lemma_terms_axis_short_photogenic_impact(m: int)
    requires
        0 <= m < 60,
    ensures
        terms_agree(MessageKey::AxisShort(AxisKey::PhotogenicImpact), glossary()[m]),
{
    reveal_strlit("IMPACT");
    reveal_strlit("임팩트");
    reveal_strlit("インパクト");
    let e = message_text(Language::English, MessageKey::AxisShort(AxisKey::PhotogenicImpact));
    let ko = message_text(Language::Korean, MessageKey::AxisShort(AxisKey::PhotogenicImpact));
    let ja = message_text(Language::Japanese, MessageKey::AxisShort(AxisKey::PhotogenicImpact));
    if m == 0 {
    } else if m == 1 {
    } else if m == 2 {
    } else if m == 3 {
    } else if m == 4 {
    } else if m == 5 {
    } else if m == 6 {
    } else if m == 7 {
    } else if m == 8 {
    } else if m == 9 {
    } else if m == 10 {
    } else if m == 11 {
    } else if m == 12 {
    } else if m == 13 {
    } else if m == 14 {
    } else if m == 15 {
    } else if m == 16 {
    } else if m == 17 {
    } else if m == 18 {
    } else if m == 19 {
    } else if m == 20 {
    } else if m == 21 {
    } else if m == 22 {
    } else if m == 23 {
    } else if m == 24 {
    } else if m == 25 {
    } else if m == 26 {
    } else if m == 27 {
    } else if m == 28 {
    } else if m == 29 {
    } else if m == 30 {
    } else if m == 31 {
    } else if m == 32 {
    } else if m == 33 {
    } else if m == 34 {
    } else if m == 35 {
    } else if m == 36 {
    } else if m == 37 {
    } else if m == 38 {
    } else if m == 39 {
    } else if m == 40 {
    } else if m == 41 {
    } else if m == 42 {
    } else if m == 43 {
    } else if m == 44 {
    } else if m == 45 {
    } else if m == 46 {
    } else if m == 47 {
    } else if m == 48 {
    } else if m == 49 {
    } else if m == 50 {
    } else if m == 51 {
    } else if m == 52 {
    } else if m == 53 {
    } else if m == 54 {
    } else if m == 55 {
    } else if m == 56 {
    } else if m == 57 {
    } else if m == 58 {
    } else if m == 59 {
    }
}

proof fn lemma_terms_axis_desc_facial_symmetry(m: int)
    requires
        0 <= m < 60,
    ensures
        terms_agree(MessageKey::AxisDesc(AxisKey::FacialSymmetry), glossary()[m]),
{
    reveal_strlit("Left-right face balance");
    reveal_strlit("좌우 얼굴 균형");
    reveal_strlit("左右のバランス");
    let e = message_text(Language::English, MessageKey::AxisDesc(AxisKey::FacialSymmetry));
    let ko = message_text(Language::Korean, MessageKey::AxisDesc(AxisKey::FacialSymmetry));
    let ja = message_text(Language::Japanese, MessageKey::AxisDesc(AxisKey::FacialSymmetry));
    if m == 0 {
    } else if m == 1 {
    } else if m == 2 {
    } else if m == 3 {
    } else if m == 4 {
    } else if m == 5 {
    } else if m == 6 {
    } else if m == 7 {
    } else if m == 8 {
    } else if m == 9 {
    } else if m == 10 {
    } else if m == 11 {
    } else if m == 12 {
    } else if m == 13 {
    } else if m == 14 {
    } else if m == 15 {
    } else if m == 16 {
    } else if m == 17 {
    } else if m == 18 {
    } else if m == 19 {
    } else if m == 20 {
    } else if m == 21 {
    } else if m == 22 {
        assert(e[0] == 'L');
        assert(ko[0] == '좌');
        assert(ja[0] == '左');
    } else if m == 23 {
    } else if m == 24 {
    } else if m == 25 {
    } else if m == 26 {
    } else if m == 27 {
    } else if m == 28 {
    } else if m == 29 {
    } else if m == 30 {
    } else if m == 31 {
    } else if m == 32 {
    } else if m == 33 {
    } else if m == 34 {
    } else if m == 35 {
    } else if m == 36 {
    } else if m == 37 {
    } else if m == 38 {
    } else if m == 39 {
    } else if m == 40 {
    } else if m == 41 {
    } else if m == 42 {
    } else if m == 43 {
    } else if m == 44 {
    } else if m == 45 {
    } else if m == 46 {
    } else if m == 47 {
    } else if m == 48 {
    } else if m == 49 {
    } else if m == 50 {
    } else if m == 51 {
    } else if m == 52 {
    } else if m == 53 {
    } else if m == 54 {
    } else if m == 55 {
    } else if m == 56 {
    } else if m == 57 {
    } else if m == 58 {
    } else if m == 59 {
    }
}

proof fn lemma_terms_axis_desc_facial_proportions(m: int)
    requires
        0 <= m < 60,
    ensures
        terms_agree(MessageKey::AxisDesc(AxisKey::FacialProportions), glossary()[m]),
{
    reveal_strlit("Golden ratio & feature placement");
    reveal_strlit("황금비율, 이목구비 배치");
    reveal_strlit("黄金比と配置");
    let e = message_text(Language::English, MessageKey::AxisDesc(AxisKey::FacialProportions));
    let ko = message_text(Language::Korean, MessageKey::AxisDesc(AxisKey::FacialProportions));
    let ja = message_text(Language::Japanese, MessageKey::AxisDesc(AxisKey::FacialProportions));
    if m == 0 {
    } else if m == 1 {
    } else if m == 2 {
    } else if m == 3 {
    } else if m == 4 {
    } else if m == 5 {
    } else if m == 6 {
    } else if m == 7 {
    } else if m == 8 {
    } else if m == 9 {
    } else if m == 10 {
    } else if m == 11 {
    } else if m == 12 {
    } else if m == 13 {
    } else if m == 14 {
    } else if m == 15 {
        assert(e[0] == 'G');
        assert(ko[1] == '금');
        assert(ja[4] == '配');
    } else if m == 16 {
    } else if m == 17 {
    } else if m == 18 {
    } else if m == 19 {
    } else if m == 20 {
    } else if m == 21 {
    } else if m == 22 {
    } else if m == 23 {
    } else if m == 24 {
    } else if m == 25 {
    } else if m == 26 {
    } else if m == 27 {
    } else if m == 28 {
    } else if m == 29 {
    } else if m == 30 {
    } else if m == 31 {
    } else if m == 32 {
    } else if m == 33 {
    } else if m == 34 {
    } else if m == 35 {
    } else if m == 36 {
    } else if m == 37 {
    } else if m == 38 {
    } else if m == 39 {
    } else if m == 40 {
    } else if m == 41 {
    } else if m == 42 {
    } else if m == 43 {
    } else if m == 44 {
    } else if m == 45 {
    } else if m == 46 {
    } else if m == 47 {
    } else if m == 48 {
    } else if m == 49 {
    } else if m == 50 {
    } else if m == 51 {
    } else if m == 52 {
    } else if m == 53 {
    } else if m == 54 {
    } else if m == 55 {
    } else if m == 56 {
    } else if m == 57 {
    } else if m == 58 {
    } else if m == 59 {
    }
}

proof fn lemma_terms_axis_desc_skin_quality(m: int)
    requires
        0 <= m < 60,
    ensures
        terms_agree(MessageKey::AxisDesc(AxisKey::SkinQuality), glossary()[m]),
{
    reveal_strlit("Smoothness & evenness");
    reveal_strlit("매끄러움, 톤 균일성");
    reveal_strlit("滑らかさと均一性");
    let e = message_text(Language::English, MessageKey::AxisDesc(AxisKey::SkinQuality));
    let ko = message_text(Language::Korean, MessageKey::AxisDesc(AxisKey::SkinQuality));
    let ja = message_text(Language::Japanese, MessageKey::AxisDesc(AxisKey::SkinQuality));
    if m == 0 {
    } else if m == 1 {
    } else if m == 2 {
    } else if m == 3 {
    } else if m == 4 {
    } else if m == 5 {
    } else if m == 6 {
    } else if m == 7 {
    } else if m == 8 {
    } else if m == 9 {
    } else if m == 10 {
    } else if m == 11 {
    } else if m == 12 {
    } else if m == 13 {
    } else if m == 14 {
    } else if m == 15 {
    } else if m == 16 {
    } else if m == 17 {
    } else if m == 18 {
    } else if m == 19 {
    } else if m == 20 {
    } else if m == 21 {
    } else if m == 22 {
    } else if m == 23 {
    } else if m == 24 {
    } else if m == 25 {
    } else if m == 26 {
    } else if m == 27 {
    } else if m == 28 {
    } else if m == 29 {
    } else if m == 30 {
    } else if m == 31 {
    } else if m == 32 {
    } else if m == 33 {
    } else if m == 34 {
    } else if m == 35 {
    } else if m == 36 {
        assert(e[0] == 'S');
        assert(ko[0] == '매');
        assert(ja[0] == '滑');
    } else if m == 37 {
    } else if m == 38 {
    } else if m == 39 {
    } else if m == 40 {
    } else if m == 41 {
    } else if m == 42 {
    } else if m == 43 {
    } else if m == 44 {
    } else if m == 45 {
    } else if m == 46 {
    } else if m == 47 {
    } else if m == 48 {
    } else if m == 49 {
    } else if m == 50 {
    } else if m == 51 {
    } else if m == 52 {
    } else if m == 53 {
    } else if m == 54 {
    } else if m == 55 {
    } else if m == 56 {
    } else if m == 57 {
    } else if m == 58 {
    } else if m == 59 {
    }
}

proof fn lemma_terms_axis_desc_eye_expression(m: int)
    requires
        0 <= m < 60,
    ensures
        terms_agree(MessageKey::AxisDesc(AxisKey::EyeExpression), glossary()[m]),
{
    reveal_strlit("Eye vibrance & emotion");
    reveal_strlit("눈의 생동감과 표현력");
    reveal_strlit("目の生命力と表現");
    let e = message_text(Language::English, MessageKey::AxisDesc(AxisKey::EyeExpression));
    let ko = message_text(Language::Korean, MessageKey::AxisDesc(AxisKey::EyeExpression));
    let ja = message_text(Language::Japanese, MessageKey::AxisDesc(AxisKey::EyeExpression));
    if m == 0 {
    } else if m == 1 {
    } else if m == 2 {
    } else if m == 3 {
    } else if m == 4 {
    } else if m == 5 {
    } else if m == 6 {
    } else if m == 7 {
    } else if m == 8 {
    } else if m == 9 {
    } else if m == 10 {
    } else if m == 11 {
    } else if m == 12 {
    } else if m == 13 {
        assert(e[0] == 'E');
        assert(ko[9] == '현');
        assert(ja[7] == '現');
    } else if m == 14 {
    } else if m == 15 {
    } else if m == 16 {
    } else if m == 17 {
    } else if m == 18 {
    } else if m == 19 {
    } else if m == 20 {
    } else if m == 21 {
    } else if m == 22 {
    } else if m == 23 {
    } else if m == 24 {
    } else if m == 25 {
    } else if m == 26 {
    } else if m == 27 {
    } else if m == 28 {
    } else if m == 29 {
    } else if m == 30 {
    } else if m == 31 {
    } else if m == 32 {
    } else if m == 33 {
    } else if m == 34 {
    } else if m == 35 {
    } else if m == 36 {
    } else if m == 37 {
    } else if m == 38 {
    } else if m == 39 {
    } else if m == 40 {
    } else if m == 41 {
    } else if m == 42 {
    } else if m == 43 {
    } else if m == 44 {
    } else if m == 45 {
        assert(e[6] == 'b');
        assert(ko[4] == '동');
        assert(ja[3] == '命');
    } else if m == 46 {
    } else if m == 47 {
    } else if m == 48 {
    } else if m == 49 {
    } else if m == 50 {
    } else if m == 51 {
    } else if m == 52 {
    } else if m == 53 {
    } else if m == 54 {
    } else if m == 55 {
    } else if m == 56 {
    } else if m == 57 {
    } else if m == 58 {
    } else if m == 59 {
    }
}

proof fn lemma_terms_axis_desc_hair_grooming(m: int)
    requires
        0 <= m < 60,
    ensures
        terms_agree(MessageKey::AxisDesc(AxisKey::HairGrooming), glossary()[m]),
{
    reveal_strlit("Style & framing");
    reveal_strlit("스타일과 프레이밍");
    reveal_strlit("スタイルとフレーミング");
    let e = message_text(Language::English, MessageKey::AxisDesc(AxisKey::HairGrooming));
    let ko = message_text(Language::Korean, MessageKey::AxisDesc(AxisKey::HairGrooming));
    let ja = message_text(Language::Japanese, MessageKey::AxisDesc(AxisKey::HairGrooming));
    if m == 0 {
    } else if m == 1 {
    } else if m == 2 {
    } else if m == 3 {
    } else if m == 4 {
    } else if m == 5 {
    } else if m == 6 {
    } else if m == 7 {
    } else if m == 8 {
    } else if m == 9 {
    } else if m == 10 {
    } else if m == 11 {
    } else if m == 12 {
    } else if m == 13 {
    } else if m == 14 {
    } else if m == 15 {
    } else if m == 16 {
    } else if m == 17 {
    } else if m == 18 {
    } else if m == 19 {
    } else if m == 20 {
    } else if m == 21 {
    } else if m == 22 {
    } else if m == 23 {
    } else if m == 24 {
    } else if m == 25 {
    } else if m == 26 {
    } else if m == 27 {
    } else if m == 28 {
    } else if m == 29 {
    } else if m == 30 {
    } else if m == 31 {
    } else if m == 32 {
    } else if m == 33 {
    } else if m == 34 {
    } else if m == 35 {
    } else if m == 36 {
    } else if m == 37 {
    } else if m == 38 {
    } else if m == 39 {
    } else if m == 40 {
    } else if m == 41 {
    } else if m == 42 {
    } else if m == 43 {
    } else if m == 44 {
    } else if m == 45 {
    } else if m == 46 {
    } else if m == 47 {
        assert(e[8] == 'f');
        assert(ko[6] == '레');
        assert(ja[5] == 'フ');
    } else if m == 48 {
    } else if m == 49 {
    } else if m == 50 {
    } else if m == 51 {
    } else if m == 52 {
    } else if m == 53 {
    } else if m == 54 {
    } else if m == 55 {
    } else if m == 56 {
    } else if m == 57 {
    } else if m == 58 {
    } else if m == 59 {
    }
}

proof fn lemma_terms_axis_desc_bone_structure(m: int)
    requires
        0 <= m < 60,
    ensures
        terms_agree(MessageKey::AxisDesc(AxisKey::BoneStructure), glossary()[m]),
{
    reveal_strlit("Jawline & structure");
    reveal_strlit("턱선과 골격 정의");
    reveal_strlit("顎のラインと骨格");
    let e = message_text(Language::English, MessageKey::AxisDesc(AxisKey::BoneStructure));
    let ko = message_text(Language::Korean, MessageKey::AxisDesc(AxisKey::BoneStructure));
    let ja = message_text(Language::Japanese, MessageKey::AxisDesc(AxisKey::BoneStructure));
    if m == 0 {
    } else if m == 1 {
    } else if m == 2 {
    } else if m == 3 {
    } else if m == 4 {
    } else if m == 5 {
    } else if m == 6 {
    } else if m == 7 {
    } else if m == 8 {
    } else if m == 9 {
    } else if m == 10 {
    } else if m == 11 {
    } else if m == 12 {
    } else if m == 13 {
    } else if m == 14 {
    } else if m == 15 {
    } else if m == 16 {
    } else if m == 17 {
    } else if m == 18 {
    } else if m == 19 {
    } else if m == 20 {
        assert(e[0] == 'J');
        assert(ko[0] == '턱');
        assert(ja[0] == '顎');
    } else if m == 21 {
    } else if m == 22 {
    } else if m == 23 {
    } else if m == 24 {
    } else if m == 25 {
    } else if m == 26 {
    } else if m == 27 {
    } else if m == 28 {
    } else if m == 29 {
    } else if m == 30 {
    } else if m == 31 {
    } else if m == 32 {
    } else if m == 33 {
    } else if m == 34 {
    } else if m == 35 {
    } else if m == 36 {
    } else if m == 37 {
    } else if m == 38 {
    } else if m == 39 {
    } else if m == 40 {
    } else if m == 41 {
    } else if m == 42 {
    } else if m == 43 {
    } else if m == 44 {
    } else if m == 45 {
    } else if m == 46 {
    } else if m == 47 {
    } else if m == 48 {
    } else if m == 49 {
    } else if m == 50 {
    } else if m == 51 {
    } else if m == 52 {
    } else if m == 53 {
    } else if m == 54 {
    } else if m == 55 {
    } else if m == 56 {
    } else if m == 57 {
    } else if m == 58 {
    } else if m == 59 {
    }
}

proof fn lemma_terms_axis_desc_expression_charisma(m: int)
    requires
        0 <= m < 60,
    ensures
        terms_agree(MessageKey::AxisDesc(AxisKey::ExpressionCharisma), glossary()[m]),
{
    reveal_strlit("Expression & mood");
    reveal_strlit("표정과 분위기");
    reveal_strlit("表情と雰囲気");
    let e = message_text(Language::English, MessageKey::AxisDesc(AxisKey::ExpressionCharisma));
    let ko = message_text(Language::Korean, MessageKey::AxisDesc(AxisKey::ExpressionCharisma));
    let ja = message_text(Language::Japanese, MessageKey::AxisDesc(AxisKey::ExpressionCharisma));
    if m == 0 {
    } else if m == 1 {
    } else if m == 2 {
    } else if m == 3 {
    } else if m == 4 {
    } else if m == 5 {
    } else if m == 6 {
    } else if m == 7 {
    } else if m == 8 {
    } else if m == 9 {
    } else if m == 10 {
    } else if m == 11 {
    } else if m == 12 {
    } else if m == 13 {
    } else if m == 14 {
    } else if m == 15 {
    } else if m == 16 {
    } else if m == 17 {
    } else if m == 18 {
    } else if m == 19 {
    } else if m == 20 {
    } else if m == 21 {
    } else if m == 22 {
    } else if m == 23 {
    } else if m == 24 {
    } else if m == 25 {
    } else if m == 26 {
    } else if m == 27 {
    } else if m == 28 {
    } else if m == 29 {
    } else if m == 30 {
    } else if m == 31 {
    } else if m == 32 {
    } else if m == 33 {
    } else if m == 34 {
    } else if m == 35 {
    } else if m == 36 {
    } else if m == 37 {
    } else if m == 38 {
    } else if m == 39 {
    } else if m == 40 {
    } else if m == 41 {
    } else if m == 42 {
    } else if m == 43 {
    } else if m == 44 {
    } else if m == 45 {
    } else if m == 46 {
    } else if m == 47 {
    } else if m == 48 {
    } else if m == 49 {
    } else if m == 50 {
    } else if m == 51 {
    } else if m == 52 {
    } else if m == 53 {
    } else if m == 54 {
    } else if m == 55 {
    } else if m == 56 {
    } else if m == 57 {
    } else if m == 58 {
    } else if m == 59 {
        assert(e[14] == 'o');
        assert(ko[4] == '분');
        assert(ja[3] == '雰');
    }
}

proof fn lemma_terms_axis_desc_lighting_color(m: int)
    requires
        0 <= m < 60,
    ensures
        terms_agree(MessageKey::AxisDesc(AxisKey::LightingColor), glossary()[m]),
{
    reveal_strlit("Lighting quality & color");
    reveal_strlit("조명 품질과 색감");
    reveal_strlit("照明品質と色彩");
    let e = message_text(Language::English, MessageKey::AxisDesc(AxisKey::LightingColor));
    let ko = message_text(Language::Korean, MessageKey::AxisDesc(AxisKey::LightingColor));
    let ja = message_text(Language::Japanese, MessageKey::AxisDesc(AxisKey::LightingColor));
    if m == 0 {
    } else if m == 1 {
    } else if m == 2 {
    } else if m == 3 {
    } else if m == 4 {
    } else if m == 5 {
    } else if m == 6 {
    } else if m == 7 {
    } else if m == 8 {
    } else if m == 9 {
    } else if m == 10 {
    } else if m == 11 {
    } else if m == 12 {
    } else if m == 13 {
    } else if m == 14 {
    } else if m == 15 {
    } else if m == 16 {
    } else if m == 17 {
    } else if m == 18 {
    } else if m == 19 {
    } else if m == 20 {
    } else if m == 21 {
    } else if m == 22 {
    } else if m == 23 {
        assert(e[0] == 'L');
        assert(ko[7] == '색');
        assert(ja[5] == '色');
    } else if m == 24 {
    } else if m == 25 {
    } else if m == 26 {
    } else if m == 27 {
    } else if m == 28 {
    } else if m == 29 {
    } else if m == 30 {
    } else if m == 31 {
    } else if m == 32 {
    } else if m == 33 {
    } else if m == 34 {
    } else if m == 35 {
    } else if m == 36 {
    } else if m == 37 {
    } else if m == 38 {
    } else if m == 39 {
    } else if m == 40 {
    } else if m == 41 {
    } else if m == 42 {
    } else if m == 43 {
    } else if m == 44 {
    } else if m == 45 {
    } else if m == 46 {
    } else if m == 47 {
    } else if m == 48 {
    } else if m == 49 {
    } else if m == 50 {
    } else if m == 51 {
    } else if m == 52 {
    } else if m == 53 {
    } else if m == 54 {
        assert(e[9] == 'q');
        assert(ko[4] == '질');
        assert(ja[6] == '彩');
    } else if m == 55 {
    } else if m == 56 {
    } else if m == 57 {
    } else if m == 58 {
    } else if m == 59 {
    }
}

proof fn lemma_terms_axis_desc_background_framing(m: int)
    requires
        0 <= m < 60,
    ensures
        terms_agree(MessageKey::AxisDesc(AxisKey::BackgroundFraming), glossary()[m]),
{
    reveal_strlit("Background & composition");
    reveal_strlit("배경과 구도");
    reveal_strlit("背景と構図");
    let e = message_text(Language::English, MessageKey::AxisDesc(AxisKey::BackgroundFraming));
    let ko = message_text(Language::Korean, MessageKey::AxisDesc(AxisKey::BackgroundFraming));
    let ja = message_text(Language::Japanese, MessageKey::AxisDesc(AxisKey::BackgroundFraming));
    if m == 0 {
    } else if m == 1 {
    } else if m == 2 {
    } else if m == 3 {
    } else if m == 4 {
    } else if m == 5 {
    } else if m == 6 {
    } else if m == 7 {
    } else if m == 8 {
    } else if m == 9 {
    } else if m == 10 {
    } else if m == 11 {
    } else if m == 12 {
    } else if m == 13 {
    } else if m == 14 {
    } else if m == 15 {
    } else if m == 16 {
    } else if m == 17 {
    } else if m == 18 {
    } else if m == 19 {
    } else if m == 20 {
    } else if m == 21 {
    } else if m == 22 {
    } else if m == 23 {
    } else if m == 24 {
    } else if m == 25 {
    } else if m == 26 {
    } else if m == 27 {
    } else if m == 28 {
    } else if m == 29 {
    } else if m == 30 {
    } else if m == 31 {
    } else if m == 32 {
    } else if m == 33 {
    } else if m == 34 {
    } else if m == 35 {
    } else if m == 36 {
    } else if m == 37 {
    } else if m == 38 {
    } else if m == 39 {
    } else if m == 40 {
    } else if m == 41 {
    } else if m == 42 {
    } else if m == 43 {
    } else if m == 44 {
    } else if m == 45 {
    } else if m == 46 {
    } else if m == 47 {
    } else if m == 48 {
        assert(e[4] == 'g');
        assert(ko[4] == '구');
        assert(ja[4] == '図');
    } else if m == 49 {
    } else if m == 50 {
    } else if m == 51 {
    } else if m == 52 {
    } else if m == 53 {
    } else if m == 54 {
    } else if m == 55 {
    } else if m == 56 {
    } else if m == 57 {
    } else if m == 58 {
        assert(e[13] == 'c');
        assert(ko[1] == '경');
        assert(ja[2] == 'と');
    } else if m == 59 {
    }
}

proof fn lemma_terms_axis_desc_photogenic_impact(m: int)
    requires
        0 <= m < 60,
    ensures
        terms_agree(MessageKey::AxisDesc(AxisKey::PhotogenicImpact), glossary()[m]),
{
    reveal_strlit("First-impression impact");
    reveal_strlit("첫인상 임팩트");
    reveal_strlit("第一印象のインパクト");
    let e = message_text(Language::English, MessageKey::AxisDesc(AxisKey::PhotogenicImpact));
    let ko = message_text(Language::Korean, MessageKey::AxisDesc(AxisKey::PhotogenicImpact));
    let ja = message_text(Language::Japanese, MessageKey::AxisDesc(AxisKey::PhotogenicImpact));
    if m == 0 {
    } else if m == 1 {
    } else if m == 2 {
    } else if m == 3 {
    } else if m == 4 {
    } else if m == 5 {
    } else if m == 6 {
    } else if m == 7 {
    } else if m == 8 {
    } else if m == 9 {
    } else if m == 10 {
    } else if m == 11 {
    } else if m == 12 {
    } else if m == 13 {
    } else if m == 14 {
    } else if m == 15 {
    } else if m == 16 {
    } else if m == 17 {
    } else if m == 18 {
    } else if m == 19 {
    } else if m == 20 {
    } else if m == 21 {
    } else if m == 22 {
    } else if m == 23 {
    } else if m == 24 {
    } else if m == 25 {
    } else if m == 26 {
    } else if m == 27 {
    } else if m == 28 {
    } else if m == 29 {
    } else if m == 30 {
    } else if m == 31 {
    } else if m == 32 {
    } else if m == 33 {
    } else if m == 34 {
    } else if m == 35 {
    } else if m == 36 {
    } else if m == 37 {
    } else if m == 38 {
    } else if m == 39 {
    } else if m == 40 {
    } else if m == 41 {
    } else if m == 42 {
    } else if m == 43 {
    } else if m == 44 {
    } else if m == 45 {
    } else if m == 46 {
    } else if m == 47 {
    } else if m == 48 {
    } else if m == 49 {
    } else if m == 50 {
    } else if m == 51 {
        assert(e[6] == 'i');
        assert(ko[0] == '첫');
        assert(ja[0] == '第');
    } else if m == 52 {
    } else if m == 53 {
    } else if m == 54 {
    } else if m == 55 {
    } else if m == 56 {
    } else if m == 57 {
    } else if m == 58 {
    } else if m == 59 {
    }
}

/// Every message says the same in its three languages, as far as the
/// glossary's terms tell: for each term, a message's English text holds it
/// exactly when the message's Korean and Japanese texts hold it. A message
/// whose text in one language were another message's would break this for a
/// term that only one of the two messages uses, such as "Judge mode" and
/// "Model".
pub proof fn lemma_translations_agree(k: MessageKey, m: int)
    requires
        0 <= m < glossary().len(),
    ensures
        terms_agree(k, glossary()[m]),
{
    match k {
        MessageKey::StartBattle => lemma_terms_start_battle(m),
        MessageKey::OpenReport => lemma_terms_open_report(m),
        MessageKey::ShareResult => lemma_terms_share_result(m),
        MessageKey::PublishWeb => lemma_terms_publish_web(m),
        MessageKey::ServeLan => lemma_terms_serve_lan(m),
        MessageKey::Settings => lemma_terms_settings(m),
        MessageKey::Quit => lemma_terms_quit(m),
        MessageKey::StarGithub => lemma_terms_star_github(m),
        MessageKey::Back => lemma_terms_back(m),
        MessageKey::Rematch => lemma_terms_rematch(m),
        MessageKey::NewPortraits => lemma_terms_new_portraits(m),
        MessageKey::BattleSetup => lemma_terms_battle_setup(m),
        MessageKey::LeftPortrait => lemma_terms_left_portrait(m),
        MessageKey::RightPortrait => lemma_terms_right_portrait(m),
        MessageKey::Waiting => lemma_terms_waiting(m),
        MessageKey::Ready => lemma_terms_ready(m),
        MessageKey::SwitchSide => lemma_terms_switch_side(m),
        MessageKey::FillBoth => lemma_terms_fill_both(m),
        MessageKey::Cancel => lemma_terms_cancel(m),
        MessageKey::PressStart => lemma_terms_press_start(m),
        MessageKey::Analyzing => lemma_terms_analyzing(m),
        MessageKey::BattleResult => lemma_terms_battle_result(m),
        MessageKey::Winner => lemma_terms_winner(m),
        MessageKey::JudgeMode => lemma_terms_judge_mode(m),
        MessageKey::Model => lemma_terms_model(m),
        MessageKey::Language => lemma_terms_language(m),
        MessageKey::ApiKeys => lemma_terms_api_keys(m),
        MessageKey::Labels => lemma_terms_labels(m),
        MessageKey::OutputDir => lemma_terms_output_dir(m),
        MessageKey::AestheticTuning => lemma_terms_aesthetic_tuning(m),
        MessageKey::ReportTitle => lemma_terms_report_title(m),
        MessageKey::ReportWinner => lemma_terms_report_winner(m),
        MessageKey::ReportOverallTake => lemma_terms_report_overall_take(m),
        MessageKey::ReportWhyWon => lemma_terms_report_why_won(m),
        MessageKey::ReportJuryNotes => lemma_terms_report_jury_notes(m),
        MessageKey::ReportHeuristic => lemma_terms_report_heuristic(m),
        MessageKey::ReportVlm => lemma_terms_report_vlm(m),
        MessageKey::ReportCombined => lemma_terms_report_combined(m),
        MessageKey::ReportScore => lemma_terms_report_score(m),
        MessageKey::ReportStrengths => lemma_terms_report_strengths(m),
        MessageKey::ReportWeaknesses => lemma_terms_report_weaknesses(m),
        MessageKey::ReportAbilityComparison => lemma_terms_report_ability_comparison(m),
        MessageKey::ReportPortraitAnalysis => lemma_terms_report_portrait_analysis(m),
        MessageKey::ReportMargin => lemma_terms_report_margin(m),
        MessageKey::ReportDecisive => lemma_terms_report_decisive(m),
        MessageKey::ReportLeft => lemma_terms_report_left(m),
        MessageKey::ReportRight => lemma_terms_report_right(m),
        MessageKey::ReportVs => lemma_terms_report_vs(m),
        MessageKey::ReportGenerated => lemma_terms_report_generated(m),
        MessageKey::AxisLabel(a) => match a {
            AxisKey::FacialSymmetry => lemma_terms_axis_label_facial_symmetry(m),
            AxisKey::FacialProportions => lemma_terms_axis_label_facial_proportions(m),
            AxisKey::SkinQuality => lemma_terms_axis_label_skin_quality(m),
            AxisKey::EyeExpression => lemma_terms_axis_label_eye_expression(m),
            AxisKey::HairGrooming => lemma_terms_axis_label_hair_grooming(m),
            AxisKey::BoneStructure => lemma_terms_axis_label_bone_structure(m),
            AxisKey::ExpressionCharisma => lemma_terms_axis_label_expression_charisma(m),
            AxisKey::LightingColor => lemma_terms_axis_label_lighting_color(m),
            AxisKey::BackgroundFraming => lemma_terms_axis_label_background_framing(m),
            AxisKey::PhotogenicImpact => lemma_terms_axis_label_photogenic_impact(m),
        },
        MessageKey::AxisShort(a) => match a {
            AxisKey::FacialSymmetry => lemma_terms_axis_short_facial_symmetry(m),
            AxisKey::FacialProportions => lemma_terms_axis_short_facial_proportions(m),
            AxisKey::SkinQuality => lemma_terms_axis_short_skin_quality(m),
            AxisKey::EyeExpression => lemma_terms_axis_short_eye_expression(m),
            AxisKey::HairGrooming => lemma_terms_axis_short_hair_grooming(m),
            AxisKey::BoneStructure => lemma_terms_axis_short_bone_structure(m),
            AxisKey::ExpressionCharisma => lemma_terms_axis_short_expression_charisma(m),
            AxisKey::LightingColor => lemma_terms_axis_short_lighting_color(m),
            AxisKey::BackgroundFraming => lemma_terms_axis_short_background_framing(m),
            AxisKey::PhotogenicImpact => lemma_terms_axis_short_photogenic_impact(m),
        },
        MessageKey::AxisDesc(a) => match a {
            AxisKey::FacialSymmetry => lemma_terms_axis_desc_facial_symmetry(m),
            AxisKey::FacialProportions => lemma_terms_axis_desc_facial_proportions(m),
            AxisKey::SkinQuality => lemma_terms_axis_desc_skin_quality(m),
            AxisKey::EyeExpression => lemma_terms_axis_desc_eye_expression(m),
            AxisKey::HairGrooming => lemma_terms_axis_desc_hair_grooming(m),
            AxisKey::BoneStructure => lemma_terms_axis_desc_bone_structure(m),
            AxisKey::ExpressionCharisma => lemma_terms_axis_desc_expression_charisma(m),
            AxisKey::LightingColor => lemma_terms_axis_desc_lighting_color(m),
            AxisKey::BackgroundFraming => lemma_terms_axis_desc_background_framing(m),
            AxisKey::PhotogenicImpact => lemma_terms_axis_desc_photogenic_impact(m),
        },
    }
}

} // verus!
