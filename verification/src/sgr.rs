//! Select Graphic Rendition (SGR) parameters: the style, attribute and
//! color directives that make up an `ESC[...m` sequence.

use vstd::prelude::*;
use vstd::string::StringExecFns;

use crate::color::BackgroundColor;
use crate::color::BrightBackgroundColor;
use crate::color::BrightForegroundColor;
use crate::color::ForegroundColor;
use crate::color::background_color_spec;
use crate::color::bright_background_color_spec;
use crate::color::bright_foreground_color_spec;
use crate::color::foreground_color_spec;
use crate::decimal::dec_rep;
use crate::decimal::u32_to_dec;
use crate::error::RenderError;
use crate::error::obeys_rendering;

verus! {

/// One style/attribute/color directive of an SGR sequence.
///
/// Several variants deliberately share a numeric code (for instance both
/// `BoldOffParameter` and `DoubleUnderlineParameter` render `21`): the SGR
/// standard overloads those codes.  `RightSideLineParameter` has no
/// encoding rule yet and renders to `UnsupportedVariant`.
pub enum SelectGraphicRenditionParameter {
    ResetNormalParameter,
    BoldParameter,
    IncreasedSensitivityParameter,
    FaintParameter,
    DecreasedSensitivityParameter,
    ItalicParameter,
    UnderlineParameter,
    SlowBlinkParameter,
    RapidBlinkParameter,
    ReverseVideoParameter,
    ConcealParameter,
    CrossedOutParameter,
    PrimaryFontParameter,
    DefaultFontParameter,
    /// The font number is intended to lie in 11–19, but no range is
    /// enforced: other values pass through unchanged.
    AlternativeFontParameter(u32),
    FrakturParameter,
    BoldOffParameter,
    DoubleUnderlineParameter,
    NormalColorParameter,
    NormalIntensityParameter,
    NotItalicParameter,
    NotFrakturParameter,
    UnderlineOffParameter,
    BlinkOffParameter,
    InverseOffParameter,
    RevealParameter,
    NotCrossedOutParameter,
    SetForegroundColorParameter(ForegroundColor),
    DefaultForegroundColorParameter,
    SetBackgroundColorParameter(BackgroundColor),
    DefaultBackgroundColorParameter,
    FramedParameter,
    EncircledParameter,
    OverlinedParameter,
    NotFramedParameter,
    NotEncircledParameter,
    NotOverlinedParameter,
    IdeogramUnderlineParameter,
    RightSideLineParameter,
    SetBrightForegroundColorParameter(BrightForegroundColor),
    SetBrightBackgroundColorParameter(BrightBackgroundColor),
}

/// The numeric code an SGR parameter renders to, excluding any separator
/// (the caller joins parameters with `;`), or `None` for a variant without
/// an encoding rule.
pub open spec fn sgr_parameter_spec(p: SelectGraphicRenditionParameter) -> Option<Seq<char>> {
    match p {
        SelectGraphicRenditionParameter::ResetNormalParameter => Some("0"@),
        SelectGraphicRenditionParameter::BoldParameter => Some("1"@),
        SelectGraphicRenditionParameter::IncreasedSensitivityParameter => Some("1"@),
        SelectGraphicRenditionParameter::FaintParameter => Some("2"@),
        SelectGraphicRenditionParameter::DecreasedSensitivityParameter => Some("2"@),
        SelectGraphicRenditionParameter::ItalicParameter => Some("3"@),
        SelectGraphicRenditionParameter::UnderlineParameter => Some("4"@),
        SelectGraphicRenditionParameter::SlowBlinkParameter => Some("5"@),
        SelectGraphicRenditionParameter::RapidBlinkParameter => Some("6"@),
        SelectGraphicRenditionParameter::ReverseVideoParameter => Some("7"@),
        SelectGraphicRenditionParameter::ConcealParameter => Some("8"@),
        SelectGraphicRenditionParameter::CrossedOutParameter => Some("9"@),
        SelectGraphicRenditionParameter::PrimaryFontParameter => Some("10"@),
        SelectGraphicRenditionParameter::DefaultFontParameter => Some("10"@),
        SelectGraphicRenditionParameter::AlternativeFontParameter(x) => Some(dec_rep(x as nat)),
        SelectGraphicRenditionParameter::FrakturParameter => Some("20"@),
        SelectGraphicRenditionParameter::BoldOffParameter => Some("21"@),
        SelectGraphicRenditionParameter::DoubleUnderlineParameter => Some("21"@),
        SelectGraphicRenditionParameter::NormalColorParameter => Some("22"@),
        SelectGraphicRenditionParameter::NormalIntensityParameter => Some("22"@),
        SelectGraphicRenditionParameter::NotItalicParameter => Some("23"@),
        SelectGraphicRenditionParameter::NotFrakturParameter => Some("23"@),
        SelectGraphicRenditionParameter::UnderlineOffParameter => Some("24"@),
        SelectGraphicRenditionParameter::BlinkOffParameter => Some("25"@),
        SelectGraphicRenditionParameter::InverseOffParameter => Some("27"@),
        SelectGraphicRenditionParameter::RevealParameter => Some("28"@),
        SelectGraphicRenditionParameter::NotCrossedOutParameter => Some("29"@),
        SelectGraphicRenditionParameter::SetForegroundColorParameter(f) => Some(
            "38;"@ + foreground_color_spec(f),
        ),
        SelectGraphicRenditionParameter::DefaultForegroundColorParameter => Some("39"@),
        SelectGraphicRenditionParameter::SetBackgroundColorParameter(b) => Some(
            "48;"@ + background_color_spec(b),
        ),
        SelectGraphicRenditionParameter::DefaultBackgroundColorParameter => Some("49"@),
        SelectGraphicRenditionParameter::FramedParameter => Some("51"@),
        SelectGraphicRenditionParameter::EncircledParameter => Some("52"@),
        SelectGraphicRenditionParameter::OverlinedParameter => Some("53"@),
        SelectGraphicRenditionParameter::NotFramedParameter => Some("54"@),
        SelectGraphicRenditionParameter::NotEncircledParameter => Some("54"@),
        SelectGraphicRenditionParameter::NotOverlinedParameter => Some("53"@),
        SelectGraphicRenditionParameter::IdeogramUnderlineParameter => Some("60"@),
        SelectGraphicRenditionParameter::RightSideLineParameter => None,
        SelectGraphicRenditionParameter::SetBrightForegroundColorParameter(f) => Some(
            bright_foreground_color_spec(f),
        ),
        SelectGraphicRenditionParameter::SetBrightBackgroundColorParameter(b) => Some(
            bright_background_color_spec(b),
        ),
    }
}

impl SelectGraphicRenditionParameter {
    /// Renders this SGR parameter to its numeric code, without a
    /// separator; reports `UnsupportedVariant` for a variant without an
    /// encoding rule.
    pub fn to_string(&self) -> (r: Result<String, RenderError>)
        ensures
            obeys_rendering(sgr_parameter_spec(*self), r),
    {
        match self {
            SelectGraphicRenditionParameter::ResetNormalParameter => Ok(String::from_str("0")),
            SelectGraphicRenditionParameter::BoldParameter => Ok(String::from_str("1")),
            SelectGraphicRenditionParameter::IncreasedSensitivityParameter => Ok(
                String::from_str("1"),
            ),
            SelectGraphicRenditionParameter::FaintParameter => Ok(String::from_str("2")),
            SelectGraphicRenditionParameter::DecreasedSensitivityParameter => Ok(
                String::from_str("2"),
            ),
            SelectGraphicRenditionParameter::ItalicParameter => Ok(String::from_str("3")),
            SelectGraphicRenditionParameter::UnderlineParameter => Ok(String::from_str("4")),
            SelectGraphicRenditionParameter::SlowBlinkParameter => Ok(String::from_str("5")),
            SelectGraphicRenditionParameter::RapidBlinkParameter => Ok(String::from_str("6")),
            SelectGraphicRenditionParameter::ReverseVideoParameter => Ok(String::from_str("7")),
            SelectGraphicRenditionParameter::ConcealParameter => Ok(String::from_str("8")),
            SelectGraphicRenditionParameter::CrossedOutParameter => Ok(String::from_str("9")),
            SelectGraphicRenditionParameter::PrimaryFontParameter => Ok(String::from_str("10")),
            SelectGraphicRenditionParameter::DefaultFontParameter => Ok(String::from_str("10")),
            SelectGraphicRenditionParameter::AlternativeFontParameter(x) => Ok(u32_to_dec(*x)),
            SelectGraphicRenditionParameter::FrakturParameter => Ok(String::from_str("20")),
            SelectGraphicRenditionParameter::BoldOffParameter => Ok(String::from_str("21")),
            SelectGraphicRenditionParameter::DoubleUnderlineParameter => Ok(
                String::from_str("21"),
            ),
            SelectGraphicRenditionParameter::NormalColorParameter => Ok(String::from_str("22")),
            SelectGraphicRenditionParameter::NormalIntensityParameter => Ok(
                String::from_str("22"),
            ),
            SelectGraphicRenditionParameter::NotItalicParameter => Ok(String::from_str("23")),
            SelectGraphicRenditionParameter::NotFrakturParameter => Ok(String::from_str("23")),
            SelectGraphicRenditionParameter::UnderlineOffParameter => Ok(String::from_str("24")),
            SelectGraphicRenditionParameter::BlinkOffParameter => Ok(String::from_str("25")),
            SelectGraphicRenditionParameter::InverseOffParameter => Ok(String::from_str("27")),
            SelectGraphicRenditionParameter::RevealParameter => Ok(String::from_str("28")),
            SelectGraphicRenditionParameter::NotCrossedOutParameter => Ok(String::from_str("29")),
            SelectGraphicRenditionParameter::SetForegroundColorParameter(foreground_color) => {
                let mut s = String::from_str("38;");
                match foreground_color.to_string() {
                    Ok(code) => {
                        s.append(code.as_str());
                        Ok(s)
                    },
                    Err(e) => Err(e),
                }
            },
            SelectGraphicRenditionParameter::DefaultForegroundColorParameter => Ok(
                String::from_str("39"),
            ),
            SelectGraphicRenditionParameter::SetBackgroundColorParameter(background_color) => {
                let mut s = String::from_str("48;");
                match background_color.to_string() {
                    Ok(code) => {
                        s.append(code.as_str());
                        Ok(s)
                    },
                    Err(e) => Err(e),
                }
            },
            SelectGraphicRenditionParameter::DefaultBackgroundColorParameter => Ok(
                String::from_str("49"),
            ),
            SelectGraphicRenditionParameter::FramedParameter => Ok(String::from_str("51")),
            SelectGraphicRenditionParameter::EncircledParameter => Ok(String::from_str("52")),
            SelectGraphicRenditionParameter::OverlinedParameter => Ok(String::from_str("53")),
            SelectGraphicRenditionParameter::NotFramedParameter => Ok(String::from_str("54")),
            SelectGraphicRenditionParameter::NotEncircledParameter => Ok(String::from_str("54")),
            SelectGraphicRenditionParameter::NotOverlinedParameter => Ok(String::from_str("53")),
            SelectGraphicRenditionParameter::IdeogramUnderlineParameter => Ok(
                String::from_str("60"),
            ),
            SelectGraphicRenditionParameter::RightSideLineParameter => Err(
                RenderError::UnsupportedVariant,
            ),
            SelectGraphicRenditionParameter::SetBrightForegroundColorParameter(
                foreground_color,
            ) => foreground_color.to_string(),
            SelectGraphicRenditionParameter::SetBrightBackgroundColorParameter(
                background_color,
            ) => background_color.to_string(),
        }
    }
}

} // verus!
