use ansi_escape_codes::BackgroundColor;
use ansi_escape_codes::BrightForegroundColor;
use ansi_escape_codes::Color;
use ansi_escape_codes::ControlSequenceInducerParameter;
use ansi_escape_codes::ControlSequencePart;
use ansi_escape_codes::EscapeSequence;
use ansi_escape_codes::EscapeSequence as E;
use ansi_escape_codes::ForegroundColor;
use ansi_escape_codes::RenderError;
use ansi_escape_codes::SelectGraphicRenditionParameter;

#[test]
fn motion_sequences_render_inducer_count_and_letter() {
    assert_eq!(E::CursorUpSequence(5).to_string().unwrap(), "\x1b[5A");
    assert_eq!(E::CursorDownSequence(2).to_string().unwrap(), "\x1b[2B");
    assert_eq!(E::CursorForwardSequence(10).to_string().unwrap(), "\x1b[10C");
    assert_eq!(E::CursorBackSequence(1).to_string().unwrap(), "\x1b[1D");
    assert_eq!(E::CursorNextLineSequence(3).to_string().unwrap(), "\x1b[3E");
    assert_eq!(E::CursorPreviousLineSequence(3).to_string().unwrap(), "\x1b[3F");
    assert_eq!(E::CursorHorizontalAbsoluteSequence(3).to_string().unwrap(), "\x1b[3G");
    assert_eq!(E::ScrollUpSequence(6).to_string().unwrap(), "\x1b[6S");
    assert_eq!(E::ScrollDownSequence(7).to_string().unwrap(), "\x1b[7T");
}

#[test]
fn coordinate_sequences_render_row_and_column() {
    assert_eq!(E::CursorPositionSequence(3, 7).to_string().unwrap(), "\x1b[3;7H");
    assert_eq!(E::HorizontalVerticalPositionSequence(24, 80).to_string().unwrap(), "\x1b[24;80f");
}

#[test]
fn erase_sequences_render_fixed_suffixes() {
    assert_eq!(E::EraseScreenAfterCursorSequence.to_string().unwrap(), "\x1b[0J");
    assert_eq!(E::EraseScreenBeforeCursorSequence.to_string().unwrap(), "\x1b[1J");
    assert_eq!(E::EraseScreenSequence.to_string().unwrap(), "\x1b[2J");
    assert_eq!(E::EraseScreenAndScrollbackSequence.to_string().unwrap(), "\x1b[3J");
    assert_eq!(E::EraseLineAfterCursorSequence.to_string().unwrap(), "\x1b[0K");
    assert_eq!(E::EraseLineBeforeCursorSequence.to_string().unwrap(), "\x1b[1K");
    assert_eq!(E::EraseLineSequence.to_string().unwrap(), "\x1b[2K");
}

#[test]
fn device_and_session_sequences_render_fixed_suffixes() {
    assert_eq!(E::AUXPortOnSequence.to_string().unwrap(), "\x1b[5i");
    assert_eq!(E::AUXPortOffSequence.to_string().unwrap(), "\x1b[4i");
    assert_eq!(E::DeviceStatusReportSequence.to_string().unwrap(), "\x1b[6n");
    assert_eq!(E::SaveCursorPositionSequence.to_string().unwrap(), "\x1b[s");
    assert_eq!(E::RestoreCursorPositionSequence.to_string().unwrap(), "\x1b[u");
}

#[test]
fn styled_sgr_sequence_renders_every_parameter_in_order() {
    let e = EscapeSequence::SelectGraphicRenditionSequence(vec![
        SelectGraphicRenditionParameter::SetForegroundColorParameter(
            ForegroundColor::ForegroundColor(Color::Color256(44)),
        ),
        SelectGraphicRenditionParameter::SetBrightForegroundColorParameter(
            BrightForegroundColor::BrightBlueForeground,
        ),
        SelectGraphicRenditionParameter::SetBackgroundColorParameter(
            BackgroundColor::BackgroundColor(Color::RGB(255, 0, 127)),
        ),
        SelectGraphicRenditionParameter::BoldParameter,
        SelectGraphicRenditionParameter::ItalicParameter,
    ]);
    assert_eq!(e.to_string().unwrap(), "\x1b[38;5;44;1;34;48;2;255;0;127;1;3;m");
}

#[test]
fn empty_sgr_sequence_renders_inducer_and_m() {
    let e = EscapeSequence::SelectGraphicRenditionSequence(vec![]);
    assert_eq!(e.to_string().unwrap(), "\x1b[m");
}

#[test]
fn sgr_sequence_with_unsupported_parameter_fails_entirely() {
    let e = EscapeSequence::SelectGraphicRenditionSequence(vec![
        SelectGraphicRenditionParameter::BoldParameter,
        SelectGraphicRenditionParameter::RightSideLineParameter,
    ]);
    assert_eq!(e.to_string(), Err(RenderError::UnsupportedVariant));
}

#[test]
fn reset_colors_sequence_renders_full_sgr_reset() {
    assert_eq!(EscapeSequence::ResetColorsSequence.to_string().unwrap(), "\x1b[0m");
}

#[test]
fn reset_attributes_sequence_renders_default_colors_only() {
    assert_eq!(EscapeSequence::ResetAttributesSequence.to_string().unwrap(), "\x1b[39;49m");
}

#[test]
fn rendering_the_same_value_twice_is_deterministic() {
    let e = EscapeSequence::SelectGraphicRenditionSequence(vec![
        SelectGraphicRenditionParameter::BoldParameter,
        SelectGraphicRenditionParameter::UnderlineParameter,
    ]);
    assert_eq!(e.to_string(), e.to_string());
    let e = EscapeSequence::CursorPositionSequence(12, 34);
    assert_eq!(e.to_string(), e.to_string());
}

#[test]
fn sequence_rendering_equals_inducer_plus_parameter_rendering() {
    let whole = EscapeSequence::CursorUpSequence(5).to_string().unwrap();
    let prefix = ControlSequencePart::ControlSequenceInducer.to_string().unwrap();
    let body = ControlSequenceInducerParameter::CursorUpParameter(5).to_string().unwrap();
    assert_eq!(whole, format!("{}{}", prefix, body));

    let whole = EscapeSequence::EraseLineSequence.to_string().unwrap();
    let body = ControlSequenceInducerParameter::EraseLineParameter.to_string().unwrap();
    assert_eq!(whole, format!("{}{}", prefix, body));
}

#[test]
fn cursor_previous_line_and_horizontal_absolute_sequences_differ() {
    let previous = EscapeSequence::CursorPreviousLineSequence(3).to_string().unwrap();
    let absolute = EscapeSequence::CursorHorizontalAbsoluteSequence(3).to_string().unwrap();
    assert_ne!(previous, absolute);
    assert_eq!(previous.chars().last(), Some('F'));
    assert_eq!(absolute.chars().last(), Some('G'));
}

#[test]
fn zero_counts_are_rendered_not_omitted() {
    assert_eq!(EscapeSequence::CursorUpSequence(0).to_string().unwrap(), "\x1b[0A");
}
