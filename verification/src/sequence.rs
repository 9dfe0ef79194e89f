//! The top-level escape sequences: complete, ready-to-emit terminal
//! commands, composed from the inducer prefix and a CSI parameter.

use vstd::prelude::*;
use vstd::string::StringExecFns;

use crate::csi::ControlSequenceInducerParameter;
use crate::csi::ControlSequencePart;
use crate::csi::csi_parameter_spec;
use crate::csi::inducer_spec;
use crate::csi::part_spec;
use crate::csi::render_sgr_body;
use crate::error::RenderError;
use crate::error::obeys_rendering;
use crate::sgr::SelectGraphicRenditionParameter;

verus! {

/// One complete terminal command.
///
/// Each variant maps 1:1 to a `ControlSequenceInducerParameter` variant,
/// except the two fixed convenience sequences: `ResetColorsSequence` (the
/// full SGR reset, `ESC[0m`) and `ResetAttributesSequence` (which, its
/// general name notwithstanding, only restores the default foreground and
/// background colors, `ESC[39;49m`).
pub enum EscapeSequence {
    CursorUpSequence(u32),
    CursorDownSequence(u32),
    CursorForwardSequence(u32),
    CursorBackSequence(u32),
    CursorNextLineSequence(u32),
    CursorPreviousLineSequence(u32),
    CursorHorizontalAbsoluteSequence(u32),
    CursorPositionSequence(u32, u32),
    EraseScreenAfterCursorSequence,
    EraseScreenBeforeCursorSequence,
    EraseScreenSequence,
    EraseScreenAndScrollbackSequence,
    EraseLineAfterCursorSequence,
    EraseLineBeforeCursorSequence,
    EraseLineSequence,
    ScrollUpSequence(u32),
    ScrollDownSequence(u32),
    HorizontalVerticalPositionSequence(u32, u32),
    SelectGraphicRenditionSequence(Vec<SelectGraphicRenditionParameter>),
    AUXPortOnSequence,
    AUXPortOffSequence,
    DeviceStatusReportSequence,
    SaveCursorPositionSequence,
    RestoreCursorPositionSequence,
    ResetColorsSequence,
    ResetAttributesSequence,
}

/// The CSI parameter that structurally corresponds to an escape sequence.
/// The two reset sequences have no corresponding parameter.
pub open spec fn corresponding_csi_parameter(e: EscapeSequence) -> ControlSequenceInducerParameter
    recommends
        !(e is ResetColorsSequence),
        !(e is ResetAttributesSequence),
{
    match e {
        EscapeSequence::CursorUpSequence(n) => ControlSequenceInducerParameter::CursorUpParameter(
            n,
        ),
        EscapeSequence::CursorDownSequence(n) => ControlSequenceInducerParameter::CursorDownParameter(
            n,
        ),
        EscapeSequence::CursorForwardSequence(n) => ControlSequenceInducerParameter::CursorForwardParameter(
            n,
        ),
        EscapeSequence::CursorBackSequence(n) => ControlSequenceInducerParameter::CursorBackParameter(
            n,
        ),
        EscapeSequence::CursorNextLineSequence(n) => ControlSequenceInducerParameter::CursorNextLineParameter(
            n,
        ),
        EscapeSequence::CursorPreviousLineSequence(n) => ControlSequenceInducerParameter::CursorPreviousLineParameter(
            n,
        ),
        EscapeSequence::CursorHorizontalAbsoluteSequence(n) => ControlSequenceInducerParameter::CursorHorizontalAbsoluteParameter(
            n,
        ),
        EscapeSequence::CursorPositionSequence(row, column) => ControlSequenceInducerParameter::CursorPositionParameter(
            row,
            column,
        ),
        EscapeSequence::EraseScreenAfterCursorSequence => ControlSequenceInducerParameter::EraseScreenAfterCursorParameter,
        EscapeSequence::EraseScreenBeforeCursorSequence => ControlSequenceInducerParameter::EraseScreenBeforeCursorParameter,
        EscapeSequence::EraseScreenSequence => ControlSequenceInducerParameter::EraseScreenParameter,
        EscapeSequence::EraseScreenAndScrollbackSequence => ControlSequenceInducerParameter::EraseScreenAndScrollbackParameter,
        EscapeSequence::EraseLineAfterCursorSequence => ControlSequenceInducerParameter::EraseLineAfterCursorParameter,
        EscapeSequence::EraseLineBeforeCursorSequence => ControlSequenceInducerParameter::EraseLineBeforeCursorParameter,
        EscapeSequence::EraseLineSequence => ControlSequenceInducerParameter::EraseLineParameter,
        EscapeSequence::ScrollUpSequence(n) => ControlSequenceInducerParameter::ScrollUpParameter(
            n,
        ),
        EscapeSequence::ScrollDownSequence(n) => ControlSequenceInducerParameter::ScrollDownParameter(
            n,
        ),
        EscapeSequence::HorizontalVerticalPositionSequence(row, column) => ControlSequenceInducerParameter::HorizontalVerticalPositionParameter(
            row,
            column,
        ),
        EscapeSequence::SelectGraphicRenditionSequence(params) => ControlSequenceInducerParameter::SelectGraphicRenditionSequenceParameter(
            params,
        ),
        EscapeSequence::AUXPortOnSequence => ControlSequenceInducerParameter::AUXPortOnParameter,
        EscapeSequence::AUXPortOffSequence => ControlSequenceInducerParameter::AUXPortOffParameter,
        EscapeSequence::DeviceStatusReportSequence => ControlSequenceInducerParameter::DeviceStatusReportParameter,
        EscapeSequence::SaveCursorPositionSequence => ControlSequenceInducerParameter::SaveCursorPositionParameter,
        EscapeSequence::RestoreCursorPositionSequence => ControlSequenceInducerParameter::RestoreCursorPositionParameter,
        EscapeSequence::ResetColorsSequence => arbitrary(),
        EscapeSequence::ResetAttributesSequence => arbitrary(),
    }
}

/// The complete text an escape sequence renders to: the inducer prefix
/// followed by the corresponding CSI parameter's rendering, or a fixed
/// constant suffix for the two reset sequences.  `None` exactly when a
/// wrapped SGR parameter lacks an encoding rule.
pub open spec fn escape_sequence_spec(e: EscapeSequence) -> Option<Seq<char>> {
    match e {
        EscapeSequence::ResetColorsSequence => Some(inducer_spec() + "0m"@),
        EscapeSequence::ResetAttributesSequence => Some(inducer_spec() + "39;49m"@),
        _ => (match csi_parameter_spec(corresponding_csi_parameter(e)) {
            Some(body) => Some(inducer_spec() + body),
            None => None,
        }),
    }
}

/// Renders the inducer prefix followed by the given CSI parameter, the
/// composition every non-reset escape sequence is built from.
fn render_inducer_then(param: ControlSequenceInducerParameter) -> (r: Result<String, RenderError>)
    ensures
        obeys_rendering(
            (match csi_parameter_spec(param) {
                Some(body) => Some(inducer_spec() + body),
                None => None,
            }),
            r,
        ),
{
    let prefix = ControlSequencePart::ControlSequenceInducer;
    match prefix.to_string() {
        Ok(mut s) => {
            let wrapped = ControlSequencePart::ControlSequenceInducerParameter(param);
            match wrapped.to_string() {
                Ok(body) => {
                    s.append(body.as_str());
                    Ok(s)
                },
                Err(e) => Err(e),
            }
        },
        Err(e) => Err(e),
    }
}

impl EscapeSequence {
    /// Renders this command to its complete, ready-to-emit text; reports
    /// `UnsupportedVariant` when a wrapped SGR parameter has no encoding
    /// rule.  On success the whole sequence is returned; a failing
    /// rendering produces no partial output.
    pub fn to_string(&self) -> (r: Result<String, RenderError>)
        ensures
            obeys_rendering(escape_sequence_spec(*self), r),
    {
        match self {
            EscapeSequence::CursorUpSequence(move_count) => render_inducer_then(
                ControlSequenceInducerParameter::CursorUpParameter(*move_count),
            ),
            EscapeSequence::CursorDownSequence(move_count) => render_inducer_then(
                ControlSequenceInducerParameter::CursorDownParameter(*move_count),
            ),
            EscapeSequence::CursorForwardSequence(move_count) => render_inducer_then(
                ControlSequenceInducerParameter::CursorForwardParameter(*move_count),
            ),
            EscapeSequence::CursorBackSequence(move_count) => render_inducer_then(
                ControlSequenceInducerParameter::CursorBackParameter(*move_count),
            ),
            EscapeSequence::CursorNextLineSequence(move_count) => render_inducer_then(
                ControlSequenceInducerParameter::CursorNextLineParameter(*move_count),
            ),
            EscapeSequence::CursorPreviousLineSequence(move_count) => render_inducer_then(
                ControlSequenceInducerParameter::CursorPreviousLineParameter(*move_count),
            ),
            EscapeSequence::CursorHorizontalAbsoluteSequence(move_count) => render_inducer_then(
                ControlSequenceInducerParameter::CursorHorizontalAbsoluteParameter(*move_count),
            ),
            EscapeSequence::CursorPositionSequence(row_position, column_position) => render_inducer_then(
                ControlSequenceInducerParameter::CursorPositionParameter(
                    *row_position,
                    *column_position,
                ),
            ),
            EscapeSequence::EraseScreenAfterCursorSequence => render_inducer_then(
                ControlSequenceInducerParameter::EraseScreenAfterCursorParameter,
            ),
            EscapeSequence::EraseScreenBeforeCursorSequence => render_inducer_then(
                ControlSequenceInducerParameter::EraseScreenBeforeCursorParameter,
            ),
            EscapeSequence::EraseScreenSequence => render_inducer_then(
                ControlSequenceInducerParameter::EraseScreenParameter,
            ),
            EscapeSequence::EraseScreenAndScrollbackSequence => render_inducer_then(
                ControlSequenceInducerParameter::EraseScreenAndScrollbackParameter,
            ),
            EscapeSequence::EraseLineAfterCursorSequence => render_inducer_then(
                ControlSequenceInducerParameter::EraseLineAfterCursorParameter,
            ),
            EscapeSequence::EraseLineBeforeCursorSequence => render_inducer_then(
                ControlSequenceInducerParameter::EraseLineBeforeCursorParameter,
            ),
            EscapeSequence::EraseLineSequence => render_inducer_then(
                ControlSequenceInducerParameter::EraseLineParameter,
            ),
            EscapeSequence::ScrollUpSequence(move_count) => render_inducer_then(
                ControlSequenceInducerParameter::ScrollUpParameter(*move_count),
            ),
            EscapeSequence::ScrollDownSequence(move_count) => render_inducer_then(
                ControlSequenceInducerParameter::ScrollDownParameter(*move_count),
            ),
            EscapeSequence::HorizontalVerticalPositionSequence(
                row_position,
                column_position,
            ) => render_inducer_then(
                ControlSequenceInducerParameter::HorizontalVerticalPositionParameter(
                    *row_position,
                    *column_position,
                ),
            ),
            EscapeSequence::SelectGraphicRenditionSequence(params) => {
                let prefix = ControlSequencePart::ControlSequenceInducer;
                match prefix.to_string() {
                    Ok(mut s) => {
                        match render_sgr_body(params) {
                            Ok(body) => {
                                s.append(body.as_str());
                                s.append("m");
                                proof {
                                    assert(s@ =~= inducer_spec() + (body@ + "m"@));
                                }
                                Ok(s)
                            },
                            Err(e) => Err(e),
                        }
                    },
                    Err(e) => Err(e),
                }
            },
            EscapeSequence::AUXPortOnSequence => render_inducer_then(
                ControlSequenceInducerParameter::AUXPortOnParameter,
            ),
            EscapeSequence::AUXPortOffSequence => render_inducer_then(
                ControlSequenceInducerParameter::AUXPortOffParameter,
            ),
            EscapeSequence::DeviceStatusReportSequence => render_inducer_then(
                ControlSequenceInducerParameter::DeviceStatusReportParameter,
            ),
            EscapeSequence::SaveCursorPositionSequence => render_inducer_then(
                ControlSequenceInducerParameter::SaveCursorPositionParameter,
            ),
            EscapeSequence::RestoreCursorPositionSequence => render_inducer_then(
                ControlSequenceInducerParameter::RestoreCursorPositionParameter,
            ),
            EscapeSequence::ResetColorsSequence => {
                let prefix = ControlSequencePart::ControlSequenceInducer;
                match prefix.to_string() {
                    Ok(mut s) => {
                        s.append("0m");
                        Ok(s)
                    },
                    Err(e) => Err(e),
                }
            },
            EscapeSequence::ResetAttributesSequence => {
                let prefix = ControlSequencePart::ControlSequenceInducer;
                match prefix.to_string() {
                    Ok(mut s) => {
                        s.append("39;49m");
                        Ok(s)
                    },
                    Err(e) => Err(e),
                }
            },
        }
    }
}

/// Rendering is deterministic: the rendering contract admits exactly one
/// output for a given escape sequence, so two renderings of the same
/// value always agree.
pub proof fn lemma_rendering_deterministic(e: EscapeSequence, first: Seq<char>, second: Seq<char>)
    requires
        escape_sequence_spec(e) == Some(first),
        escape_sequence_spec(e) == Some(second),
    ensures
        first == second,
{
}

/// Composition: every escape sequence other than the two resets renders
/// as the rendering of the inducer-prefix part concatenated with the
/// rendering of its corresponding CSI parameter, and fails exactly when
/// that parameter's rendering fails.
pub proof fn lemma_escape_sequence_composition(e: EscapeSequence)
    requires
        !(e is ResetColorsSequence),
        !(e is ResetAttributesSequence),
    ensures
        part_spec(ControlSequencePart::ControlSequenceInducer) == Some(inducer_spec()),
        escape_sequence_spec(e) == (match part_spec(
            ControlSequencePart::ControlSequenceInducerParameter(corresponding_csi_parameter(e)),
        ) {
            Some(body) => Some(inducer_spec() + body),
            None => None::<Seq<char>>,
        }),
{
}

} // verus!
