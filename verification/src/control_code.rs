//! The single-character ASCII control codes, and their renderers.

use vstd::prelude::*;
use vstd::string::StringExecFns;

use crate::error::RenderError;
use crate::error::obeys_rendering;

verus! {

/// One of the 32 ASCII control characters, plus space and delete.
///
/// Only escape, line feed and carriage return currently carry an encoding
/// rule; rendering any other variant reports `UnsupportedVariant`.
pub enum ASCIIControlCode {
    NullCode,
    StartOfHeadingCode,
    StartOfTextCode,
    EndofTextCode,
    EndOfTransmissionCode,
    EnquiryCode,
    AcknowledgeCode,
    BellCode,
    BackspaceCode,
    HorizontalTabCode,
    LineFeedCode,
    VerticalTabCode,
    FormFeedCode,
    CarriageReturnCode,
    ShiftOutCode,
    ShiftInCode,
    DataLinkEscapeCode,
    DeviceControlOneCode,
    DeviceControlTwoCode,
    DeviceControlThreeCode,
    DeviceControlFourCode,
    NegativeAcknowledgeCode,
    SynchronousIdleCode,
    EndOfTransmissionBlockCode,
    CancelCode,
    EndOfMediumCode,
    SubsituteCode,
    EscapeCode,
    FileSeperatorCode,
    GroupSeperatorCode,
    RecordSeperatorCode,
    UnitSeperatorCode,
    SpaceCode,
    DeleteCode,
}

/// The one-character text a control code renders to, or `None` for the
/// variants without an encoding rule.
pub open spec fn control_code_spec(c: ASCIIControlCode) -> Option<Seq<char>> {
    match c {
        ASCIIControlCode::NullCode => None,
        ASCIIControlCode::StartOfHeadingCode => None,
        ASCIIControlCode::StartOfTextCode => None,
        ASCIIControlCode::EndofTextCode => None,
        ASCIIControlCode::EndOfTransmissionCode => None,
        ASCIIControlCode::EnquiryCode => None,
        ASCIIControlCode::AcknowledgeCode => None,
        ASCIIControlCode::BellCode => None,
        ASCIIControlCode::BackspaceCode => None,
        ASCIIControlCode::HorizontalTabCode => None,
        ASCIIControlCode::LineFeedCode => Some("\x0A"@),
        ASCIIControlCode::VerticalTabCode => None,
        ASCIIControlCode::FormFeedCode => None,
        ASCIIControlCode::CarriageReturnCode => Some("\x0D"@),
        ASCIIControlCode::ShiftOutCode => None,
        ASCIIControlCode::ShiftInCode => None,
        ASCIIControlCode::DataLinkEscapeCode => None,
        ASCIIControlCode::DeviceControlOneCode => None,
        ASCIIControlCode::DeviceControlTwoCode => None,
        ASCIIControlCode::DeviceControlThreeCode => None,
        ASCIIControlCode::DeviceControlFourCode => None,
        ASCIIControlCode::NegativeAcknowledgeCode => None,
        ASCIIControlCode::SynchronousIdleCode => None,
        ASCIIControlCode::EndOfTransmissionBlockCode => None,
        ASCIIControlCode::CancelCode => None,
        ASCIIControlCode::EndOfMediumCode => None,
        ASCIIControlCode::SubsituteCode => None,
        ASCIIControlCode::EscapeCode => Some("\x1b"@),
        ASCIIControlCode::FileSeperatorCode => None,
        ASCIIControlCode::GroupSeperatorCode => None,
        ASCIIControlCode::RecordSeperatorCode => None,
        ASCIIControlCode::UnitSeperatorCode => None,
        ASCIIControlCode::SpaceCode => None,
        ASCIIControlCode::DeleteCode => None,
    }
}

impl ASCIIControlCode {
    /// Renders this control code to its one-character string, or reports
    /// `UnsupportedVariant` for a code without an encoding rule.
    pub fn to_string(&self) -> (r: Result<String, RenderError>)
        ensures
            obeys_rendering(control_code_spec(*self), r),
    {
        match self {
            ASCIIControlCode::EscapeCode => Ok(String::from_str("\x1b")),
            ASCIIControlCode::LineFeedCode => Ok(String::from_str("\x0A")),
            ASCIIControlCode::CarriageReturnCode => Ok(String::from_str("\x0D")),
            _ => Err(RenderError::UnsupportedVariant),
        }
    }
}

/// The text `ASCIIControlCode_string` returns for a code: only the escape
/// code is mapped here.
pub open spec fn control_code_string_spec(c: ASCIIControlCode) -> Option<Seq<char>> {
    match c {
        ASCIIControlCode::EscapeCode => Some("\x1b"@),
        _ => None,
    }
}

/// Renders the escape code to its one-character string; every other code
/// reports `UnsupportedVariant`.
#[allow(non_snake_case)]
pub fn ASCIIControlCode_string(code: ASCIIControlCode) -> (r: Result<String, RenderError>)
    ensures
        obeys_rendering(control_code_string_spec(code), r),
{
    match code {
        ASCIIControlCode::EscapeCode => Ok(String::from_str("\x1b")),
        _ => Err(RenderError::UnsupportedVariant),
    }
}

} // verus!
