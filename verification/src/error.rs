//! The error type shared by every rendering operation, and the shape that
//! each fallible renderer's contract takes.

use vstd::prelude::*;

verus! {

/// Error returned by a rendering operation.
///
/// Rendering never aborts: a variant for which no encoding rule exists is
/// reported to the caller as a recoverable error.
#[derive(Clone, Copy, Debug, PartialEq, Eq, Structural)]
pub enum RenderError {
    /// The caller selected a variant without an assigned rendering.
    UnsupportedVariant,
}

/// What a fallible renderer promises: `expected` is the text the input
/// renders to, or `None` when the input has no encoding rule, and the
/// result reports exactly that.
pub open spec fn obeys_rendering(expected: Option<Seq<char>>, r: Result<String, RenderError>) -> bool {
    match r {
        Ok(s) => expected == Some(s@),
        Err(e) => expected is None && e == RenderError::UnsupportedVariant,
    }
}

} // verus!
