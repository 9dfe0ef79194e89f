//! The color model: indexed 256-color and RGB true-color values, and the
//! named standard and bright color selectors for foreground and background.

use vstd::prelude::*;
use vstd::string::StringExecFns;

use crate::decimal::dec_rep;
use crate::decimal::u32_to_dec;
use crate::error::RenderError;

verus! {

/// A color component or index.  The intended domain is 0–255, but no range
/// is enforced: out-of-range values pass through unchanged.
pub type ColorCode = u32;

pub type RedColorCode = ColorCode;

pub type GreenColorCode = ColorCode;

pub type BlueColorCode = ColorCode;

/// An arbitrary color: an index into the 256-color palette, or an RGB
/// true-color triple.
pub enum Color {
    Color256(ColorCode),
    RGB(RedColorCode, GreenColorCode, BlueColorCode),
}

/// The numeric sub-format a color renders to inside an SGR color-setting
/// parameter: `5;<index>` for an indexed color, `2;<r>;<g>;<b>` for RGB.
pub open spec fn color_spec(c: Color) -> Seq<char> {
    match c {
        Color::Color256(code) => "5;"@ + dec_rep(code as nat),
        Color::RGB(red, green, blue) => "2;"@ + dec_rep(red as nat) + ";"@ + dec_rep(green as nat)
            + ";"@ + dec_rep(blue as nat),
    }
}

impl Color {
    /// Renders this color to its SGR numeric sub-format.  Every color has
    /// an encoding rule, so this never fails.
    pub fn to_string(&self) -> (r: Result<String, RenderError>)
        ensures
            r matches Ok(s) && s@ == color_spec(*self),
    {
        match self {
            Color::Color256(code) => {
                let mut s = String::from_str("5;");
                let d = u32_to_dec(*code);
                s.append(d.as_str());
                Ok(s)
            },
            Color::RGB(red, green, blue) => {
                let mut s = String::from_str("2;");
                let d = u32_to_dec(*red);
                s.append(d.as_str());
                s.append(";");
                let d = u32_to_dec(*green);
                s.append(d.as_str());
                s.append(";");
                let d = u32_to_dec(*blue);
                s.append(d.as_str());
                Ok(s)
            },
        }
    }
}

/// A foreground color selector: one of the 8 named standard colors, or an
/// arbitrary wrapped `Color`.
pub enum ForegroundColor {
    BlackForeground,
    RedForeground,
    GreenForeground,
    YellowForeground,
    BlueForeground,
    MagentaForeground,
    CyanForeground,
    WhiteForeground,
    ForegroundColor(Color),
}

/// The SGR code a foreground selector renders to: the fixed codes 30–37
/// for the named colors, or the wrapped color's sub-format unprefixed
/// (the `38;` prefix is added by the wrapping SGR parameter).
pub open spec fn foreground_color_spec(f: ForegroundColor) -> Seq<char> {
    match f {
        ForegroundColor::BlackForeground => "30"@,
        ForegroundColor::RedForeground => "31"@,
        ForegroundColor::GreenForeground => "32"@,
        ForegroundColor::YellowForeground => "33"@,
        ForegroundColor::BlueForeground => "34"@,
        ForegroundColor::MagentaForeground => "35"@,
        ForegroundColor::CyanForeground => "36"@,
        ForegroundColor::WhiteForeground => "37"@,
        ForegroundColor::ForegroundColor(c) => color_spec(c),
    }
}

impl ForegroundColor {
    /// Renders this foreground selector to its SGR numeric code.  Never
    /// fails: every variant has an encoding rule.
    pub fn to_string(&self) -> (r: Result<String, RenderError>)
        ensures
            r matches Ok(s) && s@ == foreground_color_spec(*self),
    {
        match self {
            ForegroundColor::BlackForeground => Ok(String::from_str("30")),
            ForegroundColor::RedForeground => Ok(String::from_str("31")),
            ForegroundColor::GreenForeground => Ok(String::from_str("32")),
            ForegroundColor::YellowForeground => Ok(String::from_str("33")),
            ForegroundColor::BlueForeground => Ok(String::from_str("34")),
            ForegroundColor::MagentaForeground => Ok(String::from_str("35")),
            ForegroundColor::CyanForeground => Ok(String::from_str("36")),
            ForegroundColor::WhiteForeground => Ok(String::from_str("37")),
            ForegroundColor::ForegroundColor(color) => color.to_string(),
        }
    }
}

/// A background color selector: one of the 8 named standard colors, or an
/// arbitrary wrapped `Color`.
pub enum BackgroundColor {
    BlackBackground,
    RedBackground,
    GreenBackground,
    YellowBackground,
    BlueBackground,
    MagentaBackground,
    CyanBackground,
    WhiteBackground,
    BackgroundColor(Color),
}

/// The SGR code a background selector renders to: the fixed codes 40–47
/// for the named colors, or the wrapped color's sub-format unprefixed
/// (the `48;` prefix is added by the wrapping SGR parameter).
pub open spec fn background_color_spec(b: BackgroundColor) -> Seq<char> {
    match b {
        BackgroundColor::BlackBackground => "40"@,
        BackgroundColor::RedBackground => "41"@,
        BackgroundColor::GreenBackground => "42"@,
        BackgroundColor::YellowBackground => "43"@,
        BackgroundColor::BlueBackground => "44"@,
        BackgroundColor::MagentaBackground => "45"@,
        BackgroundColor::CyanBackground => "46"@,
        BackgroundColor::WhiteBackground => "47"@,
        BackgroundColor::BackgroundColor(c) => color_spec(c),
    }
}

impl BackgroundColor {
    /// Renders this background selector to its SGR numeric code.  Never
    /// fails: every variant has an encoding rule.
    pub fn to_string(&self) -> (r: Result<String, RenderError>)
        ensures
            r matches Ok(s) && s@ == background_color_spec(*self),
    {
        match self {
            BackgroundColor::BlackBackground => Ok(String::from_str("40")),
            BackgroundColor::RedBackground => Ok(String::from_str("41")),
            BackgroundColor::GreenBackground => Ok(String::from_str("42")),
            BackgroundColor::YellowBackground => Ok(String::from_str("43")),
            BackgroundColor::BlueBackground => Ok(String::from_str("44")),
            BackgroundColor::MagentaBackground => Ok(String::from_str("45")),
            BackgroundColor::CyanBackground => Ok(String::from_str("46")),
            BackgroundColor::WhiteBackground => Ok(String::from_str("47")),
            BackgroundColor::BackgroundColor(color) => color.to_string(),
        }
    }
}

/// A bright (high-intensity) foreground color: one of 8 named colors.
/// There is no arbitrary-color variant at this level.
pub enum BrightForegroundColor {
    BrightBlackForeground,
    BrightRedForeground,
    BrightGreenForeground,
    BrightYellowForeground,
    BrightBlueForeground,
    BrightMagentaForeground,
    BrightCyanForeground,
    BrightWhiteForeground,
}

/// The self-contained SGR code a bright foreground color renders to:
/// bold plus the base color code, `1;<30..37>`.
pub open spec fn bright_foreground_color_spec(f: BrightForegroundColor) -> Seq<char> {
    match f {
        BrightForegroundColor::BrightBlackForeground => "1;30"@,
        BrightForegroundColor::BrightRedForeground => "1;31"@,
        BrightForegroundColor::BrightGreenForeground => "1;32"@,
        BrightForegroundColor::BrightYellowForeground => "1;33"@,
        BrightForegroundColor::BrightBlueForeground => "1;34"@,
        BrightForegroundColor::BrightMagentaForeground => "1;35"@,
        BrightForegroundColor::BrightCyanForeground => "1;36"@,
        BrightForegroundColor::BrightWhiteForeground => "1;37"@,
    }
}

impl BrightForegroundColor {
    /// Renders this bright foreground color to its two-part SGR code.
    /// Never fails: every variant has an encoding rule.
    pub fn to_string(&self) -> (r: Result<String, RenderError>)
        ensures
            r matches Ok(s) && s@ == bright_foreground_color_spec(*self),
    {
        match self {
            BrightForegroundColor::BrightBlackForeground => Ok(String::from_str("1;30")),
            BrightForegroundColor::BrightRedForeground => Ok(String::from_str("1;31")),
            BrightForegroundColor::BrightGreenForeground => Ok(String::from_str("1;32")),
            BrightForegroundColor::BrightYellowForeground => Ok(String::from_str("1;33")),
            BrightForegroundColor::BrightBlueForeground => Ok(String::from_str("1;34")),
            BrightForegroundColor::BrightMagentaForeground => Ok(String::from_str("1;35")),
            BrightForegroundColor::BrightCyanForeground => Ok(String::from_str("1;36")),
            BrightForegroundColor::BrightWhiteForeground => Ok(String::from_str("1;37")),
        }
    }
}

/// A bright (high-intensity) background color: one of 8 named colors.
/// There is no arbitrary-color variant at this level.
pub enum BrightBackgroundColor {
    BrightBlackBackground,
    BrightRedBackground,
    BrightGreenBackground,
    BrightYellowBackground,
    BrightBlueBackground,
    BrightMagentaBackground,
    BrightCyanBackground,
    BrightWhiteBackground,
}

/// The self-contained SGR code a bright background color renders to:
/// bold plus the base color code, `1;<40..47>`.
pub open spec fn bright_background_color_spec(b: BrightBackgroundColor) -> Seq<char> {
    match b {
        BrightBackgroundColor::BrightBlackBackground => "1;40"@,
        BrightBackgroundColor::BrightRedBackground => "1;41"@,
        BrightBackgroundColor::BrightGreenBackground => "1;42"@,
        BrightBackgroundColor::BrightYellowBackground => "1;43"@,
        BrightBackgroundColor::BrightBlueBackground => "1;44"@,
        BrightBackgroundColor::BrightMagentaBackground => "1;45"@,
        BrightBackgroundColor::BrightCyanBackground => "1;46"@,
        BrightBackgroundColor::BrightWhiteBackground => "1;47"@,
    }
}

impl BrightBackgroundColor {
    /// Renders this bright background color to its two-part SGR code.
    /// Never fails: every variant has an encoding rule.
    pub fn to_string(&self) -> (r: Result<String, RenderError>)
        ensures
            r matches Ok(s) && s@ == bright_background_color_spec(*self),
    {
        match self {
            BrightBackgroundColor::BrightBlackBackground => Ok(String::from_str("1;40")),
            BrightBackgroundColor::BrightRedBackground => Ok(String::from_str("1;41")),
            BrightBackgroundColor::BrightGreenBackground => Ok(String::from_str("1;42")),
            BrightBackgroundColor::BrightYellowBackground => Ok(String::from_str("1;43")),
            BrightBackgroundColor::BrightBlueBackground => Ok(String::from_str("1;44")),
            BrightBackgroundColor::BrightMagentaBackground => Ok(String::from_str("1;45")),
            BrightBackgroundColor::BrightCyanBackground => Ok(String::from_str("1;46")),
            BrightBackgroundColor::BrightWhiteBackground => Ok(String::from_str("1;47")),
        }
    }
}

} // verus!
