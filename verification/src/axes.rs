//! The ten scoring axes: their keys, English labels, short labels and icons.
use vstd::prelude::*;
use crate::text::str_eq;

verus! {

/// One of the ten aesthetic scoring axes, in definition order.
#[derive(Clone, Copy, Debug, PartialEq, Eq, Structural)]
pub enum AxisKey {
    FacialSymmetry,
    FacialProportions,
    SkinQuality,
    EyeExpression,
    HairGrooming,
    BoneStructure,
    ExpressionCharisma,
    LightingColor,
    BackgroundFraming,
    PhotogenicImpact,
}

/// The key of an axis, as used in battle results and weight overrides.
pub open spec fn axis_key_name(a: AxisKey) -> Seq<char> {
    match a {
        AxisKey::FacialSymmetry => "facial_symmetry"@,
        AxisKey::FacialProportions => "facial_proportions"@,
        AxisKey::SkinQuality => "skin_quality"@,
        AxisKey::EyeExpression => "eye_expression"@,
        AxisKey::HairGrooming => "hair_grooming"@,
        AxisKey::BoneStructure => "bone_structure"@,
        AxisKey::ExpressionCharisma => "expression_charisma"@,
        AxisKey::LightingColor => "lighting_color"@,
        AxisKey::BackgroundFraming => "background_framing"@,
        AxisKey::PhotogenicImpact => "photogenic_impact"@,
    }
}

/// The English label of an axis.
pub open spec fn axis_label_text(a: AxisKey) -> Seq<char> {
    match a {
        AxisKey::FacialSymmetry => "Facial Symmetry"@,
        AxisKey::FacialProportions => "Facial Proportions"@,
        AxisKey::SkinQuality => "Skin Quality"@,
        AxisKey::EyeExpression => "Eye Expression"@,
        AxisKey::HairGrooming => "Hair & Grooming"@,
        AxisKey::BoneStructure => "Bone Structure"@,
        AxisKey::ExpressionCharisma => "Expression & Charisma"@,
        AxisKey::LightingColor => "Lighting & Color"@,
        AxisKey::BackgroundFraming => "Background & Framing"@,
        AxisKey::PhotogenicImpact => "Photogenic Impact"@,
    }
}

/// The short English label of an axis.
pub open spec fn axis_short_text(a: AxisKey) -> Seq<char> {
    match a {
        AxisKey::FacialSymmetry => "SYM"@,
        AxisKey::FacialProportions => "RATIO"@,
        AxisKey::SkinQuality => "SKIN"@,
        AxisKey::EyeExpression => "EYES"@,
        AxisKey::HairGrooming => "HAIR"@,
        AxisKey::BoneStructure => "BONE"@,
        AxisKey::ExpressionCharisma => "AURA"@,
        AxisKey::LightingColor => "LIGHT"@,
        AxisKey::BackgroundFraming => "FRAME"@,
        AxisKey::PhotogenicImpact => "IMPACT"@,
    }
}

/// The icon of an axis.
pub open spec fn axis_icon_text(a: AxisKey) -> Seq<char> {
    match a {
        AxisKey::FacialSymmetry => "\u{269C}"@,
        AxisKey::FacialProportions => "\u{25C6}"@,
        AxisKey::SkinQuality => "\u{2728}"@,
        AxisKey::EyeExpression => "\u{1F441}"@,
        AxisKey::HairGrooming => "\u{2702}"@,
        AxisKey::BoneStructure => "\u{1F9B4}"@,
        AxisKey::ExpressionCharisma => "\u{1F525}"@,
        AxisKey::LightingColor => "\u{1F4A1}"@,
        AxisKey::BackgroundFraming => "\u{1F5BC}"@,
        AxisKey::PhotogenicImpact => "\u{1F4A5}"@,
    }
}

/// The axis named by `s`, if any.
pub open spec fn axis_key_of(s: Seq<char>) -> Option<AxisKey> {
    if s == "facial_symmetry"@ {
        Some(AxisKey::FacialSymmetry)
    } else if s == "facial_proportions"@ {
        Some(AxisKey::FacialProportions)
    } else if s == "skin_quality"@ {
        Some(AxisKey::SkinQuality)
    } else if s == "eye_expression"@ {
        Some(AxisKey::EyeExpression)
    } else if s == "hair_grooming"@ {
        Some(AxisKey::HairGrooming)
    } else if s == "bone_structure"@ {
        Some(AxisKey::BoneStructure)
    } else if s == "expression_charisma"@ {
        Some(AxisKey::ExpressionCharisma)
    } else if s == "lighting_color"@ {
        Some(AxisKey::LightingColor)
    } else if s == "background_framing"@ {
        Some(AxisKey::BackgroundFraming)
    } else if s == "photogenic_impact"@ {
        Some(AxisKey::PhotogenicImpact)
    } else {
        None
    }
}

/// The axes in definition order.
pub open spec fn axis_order() -> Seq<AxisKey> {
    seq![
        AxisKey::FacialSymmetry,
        AxisKey::FacialProportions,
        AxisKey::SkinQuality,
        AxisKey::EyeExpression,
        AxisKey::HairGrooming,
        AxisKey::BoneStructure,
        AxisKey::ExpressionCharisma,
        AxisKey::LightingColor,
        AxisKey::BackgroundFraming,
        AxisKey::PhotogenicImpact,
    ]
}

/// The axis named by `key`, if any.
pub fn parse_axis_key(key: &str) -> (r: Option<AxisKey>)
    ensures
        r == axis_key_of(key@),
{
    if str_eq(key, "facial_symmetry") {
        Some(AxisKey::FacialSymmetry)
    } else if str_eq(key, "facial_proportions") {
        Some(AxisKey::FacialProportions)
    } else if str_eq(key, "skin_quality") {
        Some(AxisKey::SkinQuality)
    } else if str_eq(key, "eye_expression") {
        Some(AxisKey::EyeExpression)
    } else if str_eq(key, "hair_grooming") {
        Some(AxisKey::HairGrooming)
    } else if str_eq(key, "bone_structure") {
        Some(AxisKey::BoneStructure)
    } else if str_eq(key, "expression_charisma") {
        Some(AxisKey::ExpressionCharisma)
    } else if str_eq(key, "lighting_color") {
        Some(AxisKey::LightingColor)
    } else if str_eq(key, "background_framing") {
        Some(AxisKey::BackgroundFraming)
    } else if str_eq(key, "photogenic_impact") {
        Some(AxisKey::PhotogenicImpact)
    } else {
        None
    }
}

impl AxisKey {
    /// The key of this axis.
    pub fn key(self) -> (r: &'static str)
        ensures
            r@ == axis_key_name(self),
    {
        match self {
            AxisKey::FacialSymmetry => "facial_symmetry",
            AxisKey::FacialProportions => "facial_proportions",
            AxisKey::SkinQuality => "skin_quality",
            AxisKey::EyeExpression => "eye_expression",
            AxisKey::HairGrooming => "hair_grooming",
            AxisKey::BoneStructure => "bone_structure",
            AxisKey::ExpressionCharisma => "expression_charisma",
            AxisKey::LightingColor => "lighting_color",
            AxisKey::BackgroundFraming => "background_framing",
            AxisKey::PhotogenicImpact => "photogenic_impact",
        }
    }

    /// The English label of this axis.
    pub fn label(self) -> (r: &'static str)
        ensures
            r@ == axis_label_text(self),
    {
        match self {
            AxisKey::FacialSymmetry => "Facial Symmetry",
            AxisKey::FacialProportions => "Facial Proportions",
            AxisKey::SkinQuality => "Skin Quality",
            AxisKey::EyeExpression => "Eye Expression",
            AxisKey::HairGrooming => "Hair & Grooming",
            AxisKey::BoneStructure => "Bone Structure",
            AxisKey::ExpressionCharisma => "Expression & Charisma",
            AxisKey::LightingColor => "Lighting & Color",
            AxisKey::BackgroundFraming => "Background & Framing",
            AxisKey::PhotogenicImpact => "Photogenic Impact",
        }
    }

    /// The short English label of this axis.
    pub fn short(self) -> (r: &'static str)
        ensures
            r@ == axis_short_text(self),
    {
        match self {
            AxisKey::FacialSymmetry => "SYM",
            AxisKey::FacialProportions => "RATIO",
            AxisKey::SkinQuality => "SKIN",
            AxisKey::EyeExpression => "EYES",
            AxisKey::HairGrooming => "HAIR",
            AxisKey::BoneStructure => "BONE",
            AxisKey::ExpressionCharisma => "AURA",
            AxisKey::LightingColor => "LIGHT",
            AxisKey::BackgroundFraming => "FRAME",
            AxisKey::PhotogenicImpact => "IMPACT",
        }
    }

    /// The icon of this axis.
    pub fn icon(self) -> (r: &'static str)
        ensures
            r@ == axis_icon_text(self),
    {
        match self {
            AxisKey::FacialSymmetry => "\u{269C}",
            AxisKey::FacialProportions => "\u{25C6}",
            AxisKey::SkinQuality => "\u{2728}",
            AxisKey::EyeExpression => "\u{1F441}",
            AxisKey::HairGrooming => "\u{2702}",
            AxisKey::BoneStructure => "\u{1F9B4}",
            AxisKey::ExpressionCharisma => "\u{1F525}",
            AxisKey::LightingColor => "\u{1F4A1}",
            AxisKey::BackgroundFraming => "\u{1F5BC}",
            AxisKey::PhotogenicImpact => "\u{1F4A5}",
        }
    }
}

/// The axes in definition order.
pub fn all_axes() -> (r: Vec<AxisKey>)
    ensures
        r@ == axis_order(),
{
    let mut r: Vec<AxisKey> = Vec::new();
    r.push(AxisKey::FacialSymmetry);
    r.push(AxisKey::FacialProportions);
    r.push(AxisKey::SkinQuality);
    r.push(AxisKey::EyeExpression);
    r.push(AxisKey::HairGrooming);
    r.push(AxisKey::BoneStructure);
    r.push(AxisKey::ExpressionCharisma);
    r.push(AxisKey::LightingColor);
    r.push(AxisKey::BackgroundFraming);
    r.push(AxisKey::PhotogenicImpact);
    assert(r@ =~= axis_order());
    r
}

/// Every axis is found again by its own key: the ten keys are distinct.
pub proof fn lemma_axis_key_round_trip(a: AxisKey)
    ensures
        axis_key_of(axis_key_name(a)) == Some(a),
{
    reveal_strlit("facial_symmetry");
    reveal_strlit("facial_proportions");
    reveal_strlit("skin_quality");
    reveal_strlit("eye_expression");
    reveal_strlit("hair_grooming");
    reveal_strlit("bone_structure");
    reveal_strlit("expression_charisma");
    reveal_strlit("lighting_color");
    reveal_strlit("background_framing");
    reveal_strlit("photogenic_impact");
    assert("facial_symmetry"@.len() == 15 && "facial_symmetry"@[0] == 'f');
    assert("facial_proportions"@.len() == 18 && "facial_proportions"@[0] == 'f');
    assert("skin_quality"@.len() == 12 && "skin_quality"@[0] == 's');
    assert("eye_expression"@.len() == 14 && "eye_expression"@[0] == 'e');
    assert("hair_grooming"@.len() == 13 && "hair_grooming"@[0] == 'h');
    assert("bone_structure"@.len() == 14 && "bone_structure"@[0] == 'b');
    assert("expression_charisma"@.len() == 19 && "expression_charisma"@[0] == 'e');
    assert("lighting_color"@.len() == 14 && "lighting_color"@[0] == 'l');
    assert("background_framing"@.len() == 18 && "background_framing"@[0] == 'b');
    assert("photogenic_impact"@.len() == 17 && "photogenic_impact"@[0] == 'p');
}

/// Icon for the axis named by `key`; empty for an unknown key.
pub fn axis_icon(key: &str) -> (r: &'static str)
    ensures
        r@ == match axis_key_of(key@) {
            Some(a) => axis_icon_text(a),
            None => ""@,
        },
{
    match parse_axis_key(key) {
        Some(a) => a.icon(),
        None => "",
    }
}

} // verus!
