//! Control Sequence Inducer (CSI) parameters: cursor, erase, scroll and
//! device directives, the SGR-sequence wrapper, and the sequence parts an
//! escape sequence is composed from.

use vstd::prelude::*;
use vstd::string::StringExecFns;

use crate::control_code::ASCIIControlCode;
use crate::decimal::dec_rep;
use crate::decimal::u32_to_dec;
use crate::error::RenderError;
use crate::error::obeys_rendering;
use crate::sgr::SelectGraphicRenditionParameter;
use crate::sgr::sgr_parameter_spec;

verus! {

/// One cursor/erase/scroll/device directive, rendered as the suffix that
/// follows the CSI prefix, trailing letter included.
///
/// Numeric parameters are non-negative counts or coordinates; no upper
/// bound is enforced.
pub enum ControlSequenceInducerParameter {
    CursorUpParameter(u32),
    CursorDownParameter(u32),
    CursorForwardParameter(u32),
    CursorBackParameter(u32),
    CursorNextLineParameter(u32),
    CursorPreviousLineParameter(u32),
    CursorHorizontalAbsoluteParameter(u32),
    CursorPositionParameter(u32, u32),
    EraseScreenAfterCursorParameter,
    EraseScreenBeforeCursorParameter,
    EraseScreenParameter,
    EraseScreenAndScrollbackParameter,
    EraseLineAfterCursorParameter,
    EraseLineBeforeCursorParameter,
    EraseLineParameter,
    ScrollUpParameter(u32),
    ScrollDownParameter(u32),
    HorizontalVerticalPositionParameter(u32, u32),
    SelectGraphicRenditionSequenceParameter(Vec<SelectGraphicRenditionParameter>),
    AUXPortOnParameter,
    AUXPortOffParameter,
    DeviceStatusReportParameter,
    SaveCursorPositionParameter,
    RestoreCursorPositionParameter,
}

/// The body of an SGR sequence: each parameter's code in order, each
/// followed by `;` (the last included), or `None` as soon as any parameter
/// lacks an encoding rule.  An empty list yields the empty body.
pub open spec fn sgr_sequence_body_spec(ps: Seq<SelectGraphicRenditionParameter>) -> Option<
    Seq<char>,
>
    decreases ps.len(),
{
    if ps.len() == 0 {
        Some(Seq::empty())
    } else {
        match (sgr_sequence_body_spec(ps.drop_last()), sgr_parameter_spec(ps.last())) {
            (Some(prefix), Some(code)) => Some(prefix + code + ";"@),
            _ => None,
        }
    }
}

/// A list with an unsupported parameter anywhere yields no SGR body.
proof fn lemma_sgr_body_unsupported(ps: Seq<SelectGraphicRenditionParameter>, i: int)
    requires
        0 <= i < ps.len(),
        sgr_parameter_spec(ps[i]) is None,
    ensures
        sgr_sequence_body_spec(ps) is None,
    decreases ps.len(),
{
    if i < ps.len() - 1 {
        lemma_sgr_body_unsupported(ps.drop_last(), i);
    }
}

/// Renders the body of an SGR sequence: every parameter in order, each
/// with a trailing `;`, without the final `m`.
pub(crate) fn render_sgr_body(params: &Vec<SelectGraphicRenditionParameter>) -> (r: Result<
    String,
    RenderError,
>)
    ensures
        obeys_rendering(sgr_sequence_body_spec(params@), r),
{
    let mut s = String::new();
    let mut i: usize = 0;
    while i < params.len()
        invariant
            i <= params@.len(),
            sgr_sequence_body_spec(params@.take(i as int)) == Some(s@),
        decreases params@.len() - i,
    {
        match params[i].to_string() {
            Ok(code) => {
                s.append(code.as_str());
                s.append(";");
            },
            Err(e) => {
                proof {
                    lemma_sgr_body_unsupported(params@, i as int);
                }
                return Err(e);
            },
        }
        i = i + 1;
        proof {
            assert(params@.take(i as int).drop_last() =~= params@.take(i as int - 1));
            assert(params@.take(i as int).last() == params@[i as int - 1]);
        }
    }
    proof {
        assert(params@.take(params@.len() as int) =~= params@);
    }
    Ok(s)
}

/// The suffix a CSI parameter renders to, trailing letter included, or
/// `None` when a wrapped SGR parameter lacks an encoding rule.
pub open spec fn csi_parameter_spec(p: ControlSequenceInducerParameter) -> Option<Seq<char>> {
    match p {
        ControlSequenceInducerParameter::CursorUpParameter(n) => Some(dec_rep(n as nat) + "A"@),
        ControlSequenceInducerParameter::CursorDownParameter(n) => Some(dec_rep(n as nat) + "B"@),
        ControlSequenceInducerParameter::CursorForwardParameter(n) => Some(
            dec_rep(n as nat) + "C"@,
        ),
        ControlSequenceInducerParameter::CursorBackParameter(n) => Some(dec_rep(n as nat) + "D"@),
        ControlSequenceInducerParameter::CursorNextLineParameter(n) => Some(
            dec_rep(n as nat) + "E"@,
        ),
        ControlSequenceInducerParameter::CursorPreviousLineParameter(n) => Some(
            dec_rep(n as nat) + "F"@,
        ),
        ControlSequenceInducerParameter::CursorHorizontalAbsoluteParameter(n) => Some(
            dec_rep(n as nat) + "G"@,
        ),
        ControlSequenceInducerParameter::CursorPositionParameter(row, column) => Some(
            dec_rep(row as nat) + ";"@ + dec_rep(column as nat) + "H"@,
        ),
        ControlSequenceInducerParameter::EraseScreenAfterCursorParameter => Some("0J"@),
        ControlSequenceInducerParameter::EraseScreenBeforeCursorParameter => Some("1J"@),
        ControlSequenceInducerParameter::EraseScreenParameter => Some("2J"@),
        ControlSequenceInducerParameter::EraseScreenAndScrollbackParameter => Some("3J"@),
        ControlSequenceInducerParameter::EraseLineAfterCursorParameter => Some("0K"@),
        ControlSequenceInducerParameter::EraseLineBeforeCursorParameter => Some("1K"@),
        ControlSequenceInducerParameter::EraseLineParameter => Some("2K"@),
        ControlSequenceInducerParameter::ScrollUpParameter(n) => Some(dec_rep(n as nat) + "S"@),
        ControlSequenceInducerParameter::ScrollDownParameter(n) => Some(dec_rep(n as nat) + "T"@),
        ControlSequenceInducerParameter::HorizontalVerticalPositionParameter(row, column) => Some(
            dec_rep(row as nat) + ";"@ + dec_rep(column as nat) + "f"@,
        ),
        ControlSequenceInducerParameter::SelectGraphicRenditionSequenceParameter(params) => (match
            sgr_sequence_body_spec(params@) {
            Some(body) => Some(body + "m"@),
            None => None,
        }),
        ControlSequenceInducerParameter::AUXPortOnParameter => Some("5i"@),
        ControlSequenceInducerParameter::AUXPortOffParameter => Some("4i"@),
        ControlSequenceInducerParameter::DeviceStatusReportParameter => Some("6n"@),
        ControlSequenceInducerParameter::SaveCursorPositionParameter => Some("s"@),
        ControlSequenceInducerParameter::RestoreCursorPositionParameter => Some("u"@),
    }
}

/// Renders a count followed by its trailing letter, `<count><letter>`.
fn render_count_and_letter(count: u32, letter: &str) -> (s: String)
    ensures
        s@ == dec_rep(count as nat) + letter@,
{
    let mut s = u32_to_dec(count);
    s.append(letter);
    s
}

/// Renders a two-coordinate parameter, `<row>;<col><letter>`.
fn render_coordinates_and_letter(row: u32, column: u32, letter: &str) -> (s: String)
    ensures
        s@ == dec_rep(row as nat) + ";"@ + dec_rep(column as nat) + letter@,
{
    let mut s = u32_to_dec(row);
    s.append(";");
    let c = u32_to_dec(column);
    s.append(c.as_str());
    s.append(letter);
    s
}

impl ControlSequenceInducerParameter {
    /// Renders this directive to the suffix that follows the CSI prefix,
    /// trailing letter included; reports `UnsupportedVariant` when a
    /// wrapped SGR parameter has no encoding rule.
    pub fn to_string(&self) -> (r: Result<String, RenderError>)
        ensures
            obeys_rendering(csi_parameter_spec(*self), r),
    {
        match self {
            ControlSequenceInducerParameter::CursorUpParameter(move_count) => Ok(
                render_count_and_letter(*move_count, "A"),
            ),
            ControlSequenceInducerParameter::CursorDownParameter(move_count) => Ok(
                render_count_and_letter(*move_count, "B"),
            ),
            ControlSequenceInducerParameter::CursorForwardParameter(move_count) => Ok(
                render_count_and_letter(*move_count, "C"),
            ),
            ControlSequenceInducerParameter::CursorBackParameter(move_count) => Ok(
                render_count_and_letter(*move_count, "D"),
            ),
            ControlSequenceInducerParameter::CursorNextLineParameter(move_count) => Ok(
                render_count_and_letter(*move_count, "E"),
            ),
            ControlSequenceInducerParameter::CursorPreviousLineParameter(move_count) => Ok(
                render_count_and_letter(*move_count, "F"),
            ),
            ControlSequenceInducerParameter::CursorHorizontalAbsoluteParameter(move_count) => Ok(
                render_count_and_letter(*move_count, "G"),
            ),
            ControlSequenceInducerParameter::CursorPositionParameter(
                row_position,
                column_position,
            ) => Ok(render_coordinates_and_letter(*row_position, *column_position, "H")),
            ControlSequenceInducerParameter::EraseScreenAfterCursorParameter => Ok(
                String::from_str("0J"),
            ),
            ControlSequenceInducerParameter::EraseScreenBeforeCursorParameter => Ok(
                String::from_str("1J"),
            ),
            ControlSequenceInducerParameter::EraseScreenParameter => Ok(String::from_str("2J")),
            ControlSequenceInducerParameter::EraseScreenAndScrollbackParameter => Ok(
                String::from_str("3J"),
            ),
            ControlSequenceInducerParameter::EraseLineAfterCursorParameter => Ok(
                String::from_str("0K"),
            ),
            ControlSequenceInducerParameter::EraseLineBeforeCursorParameter => Ok(
                String::from_str("1K"),
            ),
            ControlSequenceInducerParameter::EraseLineParameter => Ok(String::from_str("2K")),
            ControlSequenceInducerParameter::ScrollUpParameter(move_count) => Ok(
                render_count_and_letter(*move_count, "S"),
            ),
            ControlSequenceInducerParameter::ScrollDownParameter(move_count) => Ok(
                render_count_and_letter(*move_count, "T"),
            ),
            ControlSequenceInducerParameter::HorizontalVerticalPositionParameter(
                row_position,
                column_position,
            ) => Ok(render_coordinates_and_letter(*row_position, *column_position, "f")),
            ControlSequenceInducerParameter::SelectGraphicRenditionSequenceParameter(params) => {
                match render_sgr_body(params) {
                    Ok(mut s) => {
                        s.append("m");
                        Ok(s)
                    },
                    Err(e) => Err(e),
                }
            },
            ControlSequenceInducerParameter::AUXPortOnParameter => Ok(String::from_str("5i")),
            ControlSequenceInducerParameter::AUXPortOffParameter => Ok(String::from_str("4i")),
            ControlSequenceInducerParameter::DeviceStatusReportParameter => Ok(
                String::from_str("6n"),
            ),
            ControlSequenceInducerParameter::SaveCursorPositionParameter => Ok(
                String::from_str("s"),
            ),
            ControlSequenceInducerParameter::RestoreCursorPositionParameter => Ok(
                String::from_str("u"),
            ),
        }
    }
}

/// One part of a control sequence: the fixed two-character inducer prefix
/// (the escape character followed by `[`), or a wrapped CSI parameter.
pub enum ControlSequencePart {
    ControlSequenceInducer,
    ControlSequenceInducerParameter(ControlSequenceInducerParameter),
}

/// The two-character inducer prefix, `ESC[`.
pub open spec fn inducer_spec() -> Seq<char> {
    "\x1b"@ + "["@
}

/// The text a control sequence part renders to.
pub open spec fn part_spec(p: ControlSequencePart) -> Option<Seq<char>> {
    match p {
        ControlSequencePart::ControlSequenceInducer => Some(inducer_spec()),
        ControlSequencePart::ControlSequenceInducerParameter(q) => csi_parameter_spec(q),
    }
}

impl ControlSequencePart {
    /// Renders the inducer prefix, or delegates to the wrapped CSI
    /// parameter's renderer.
    pub fn to_string(&self) -> (r: Result<String, RenderError>)
        ensures
            obeys_rendering(part_spec(*self), r),
    {
        match self {
            ControlSequencePart::ControlSequenceInducer => {
                match ASCIIControlCode::EscapeCode.to_string() {
                    Ok(mut s) => {
                        s.append("[");
                        Ok(s)
                    },
                    Err(e) => Err(e),
                }
            },
            ControlSequencePart::ControlSequenceInducerParameter(param) => param.to_string(),
        }
    }
}

} // verus!
