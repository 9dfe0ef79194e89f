//! A typed encoder for ANSI/VT100 terminal control sequences.
//!
//! Structured values describing a desired terminal effect (cursor motion,
//! erasure, scrolling, text styling) are rendered to the literal character
//! sequences a terminal emulator interprets.  The encoder only produces
//! text: it never reads from or talks to a terminal.
//!
//! Every rendering operation is a pure function returning a `Result`: a
//! variant without an encoding rule yields a recoverable error instead of
//! aborting.  Each renderer's contract pins its output to a specification
//! function, so the exact text of every supported sequence is proved.

pub mod color;
pub mod control_code;
pub mod csi;
pub mod decimal;
pub mod error;
pub mod sequence;
pub mod sgr;

pub use color::BackgroundColor;
pub use color::BlueColorCode;
pub use color::BrightBackgroundColor;
pub use color::BrightForegroundColor;
pub use color::Color;
pub use color::ColorCode;
pub use color::ForegroundColor;
pub use color::GreenColorCode;
pub use color::RedColorCode;
pub use control_code::ASCIIControlCode;
pub use control_code::ASCIIControlCode_string;
pub use csi::ControlSequenceInducerParameter;
pub use csi::ControlSequencePart;
pub use error::RenderError;
pub use sequence::EscapeSequence;
pub use sgr::SelectGraphicRenditionParameter;
