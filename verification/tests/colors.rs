use ansi_escape_codes::BackgroundColor;
use ansi_escape_codes::BrightBackgroundColor;
use ansi_escape_codes::BrightForegroundColor;
use ansi_escape_codes::Color;
use ansi_escape_codes::ForegroundColor;

#[test]
fn indexed_color_renders_five_prefix_and_index() {
    assert_eq!(Color::Color256(44).to_string().unwrap(), "5;44");
}

#[test]
fn rgb_color_renders_two_prefix_and_channels() {
    assert_eq!(Color::RGB(255, 0, 127).to_string().unwrap(), "2;255;0;127");
}

#[test]
fn color_boundaries() {
    assert_eq!(Color::Color256(0).to_string().unwrap(), "5;0");
    assert_eq!(Color::Color256(255).to_string().unwrap(), "5;255");
    assert_eq!(Color::RGB(0, 0, 0).to_string().unwrap(), "2;0;0;0");
    assert_eq!(Color::RGB(255, 255, 255).to_string().unwrap(), "2;255;255;255");
}

#[test]
fn out_of_range_color_values_pass_through_unchanged() {
    assert_eq!(Color::Color256(999).to_string().unwrap(), "5;999");
    assert_eq!(Color::RGB(4294967295, 256, 1000).to_string().unwrap(), "2;4294967295;256;1000");
}

#[test]
fn named_foreground_colors_render_codes_thirty_to_thirty_seven() {
    assert_eq!(ForegroundColor::BlackForeground.to_string().unwrap(), "30");
    assert_eq!(ForegroundColor::RedForeground.to_string().unwrap(), "31");
    assert_eq!(ForegroundColor::GreenForeground.to_string().unwrap(), "32");
    assert_eq!(ForegroundColor::YellowForeground.to_string().unwrap(), "33");
    assert_eq!(ForegroundColor::BlueForeground.to_string().unwrap(), "34");
    assert_eq!(ForegroundColor::MagentaForeground.to_string().unwrap(), "35");
    assert_eq!(ForegroundColor::CyanForeground.to_string().unwrap(), "36");
    assert_eq!(ForegroundColor::WhiteForeground.to_string().unwrap(), "37");
}

#[test]
fn wrapped_foreground_color_delegates_unprefixed() {
    let f = ForegroundColor::ForegroundColor(Color::Color256(44));
    assert_eq!(f.to_string().unwrap(), "5;44");
    let f = ForegroundColor::ForegroundColor(Color::RGB(1, 2, 3));
    assert_eq!(f.to_string().unwrap(), "2;1;2;3");
}

#[test]
fn named_background_colors_render_codes_forty_to_forty_seven() {
    assert_eq!(BackgroundColor::BlackBackground.to_string().unwrap(), "40");
    assert_eq!(BackgroundColor::RedBackground.to_string().unwrap(), "41");
    assert_eq!(BackgroundColor::GreenBackground.to_string().unwrap(), "42");
    assert_eq!(BackgroundColor::YellowBackground.to_string().unwrap(), "43");
    assert_eq!(BackgroundColor::BlueBackground.to_string().unwrap(), "44");
    assert_eq!(BackgroundColor::MagentaBackground.to_string().unwrap(), "45");
    assert_eq!(BackgroundColor::CyanBackground.to_string().unwrap(), "46");
    assert_eq!(BackgroundColor::WhiteBackground.to_string().unwrap(), "47");
}

#[test]
fn wrapped_background_color_delegates_unprefixed() {
    let b = BackgroundColor::BackgroundColor(Color::RGB(255, 0, 127));
    assert_eq!(b.to_string().unwrap(), "2;255;0;127");
}

#[test]
fn bright_foreground_colors_render_bold_plus_base_code() {
    assert_eq!(BrightForegroundColor::BrightBlackForeground.to_string().unwrap(), "1;30");
    assert_eq!(BrightForegroundColor::BrightRedForeground.to_string().unwrap(), "1;31");
    assert_eq!(BrightForegroundColor::BrightGreenForeground.to_string().unwrap(), "1;32");
    assert_eq!(BrightForegroundColor::BrightYellowForeground.to_string().unwrap(), "1;33");
    assert_eq!(BrightForegroundColor::BrightBlueForeground.to_string().unwrap(), "1;34");
    assert_eq!(BrightForegroundColor::BrightMagentaForeground.to_string().unwrap(), "1;35");
    assert_eq!(BrightForegroundColor::BrightCyanForeground.to_string().unwrap(), "1;36");
    assert_eq!(BrightForegroundColor::BrightWhiteForeground.to_string().unwrap(), "1;37");
}

#[test]
fn bright_background_colors_render_bold_plus_base_code() {
    assert_eq!(BrightBackgroundColor::BrightBlackBackground.to_string().unwrap(), "1;40");
    assert_eq!(BrightBackgroundColor::BrightRedBackground.to_string().unwrap(), "1;41");
    assert_eq!(BrightBackgroundColor::BrightGreenBackground.to_string().unwrap(), "1;42");
    assert_eq!(BrightBackgroundColor::BrightYellowBackground.to_string().unwrap(), "1;43");
    assert_eq!(BrightBackgroundColor::BrightBlueBackground.to_string().unwrap(), "1;44");
    assert_eq!(BrightBackgroundColor::BrightMagentaBackground.to_string().unwrap(), "1;45");
    assert_eq!(BrightBackgroundColor::BrightCyanBackground.to_string().unwrap(), "1;46");
    assert_eq!(BrightBackgroundColor::BrightWhiteBackground.to_string().unwrap(), "1;47");
}
