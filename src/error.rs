//! The failures that callers of the parser observe.
use vstd::prelude::*;

verus! {

/// Why a line or the finished game was refused.
#[derive(Clone, Copy, Debug, PartialEq, Eq, Structural)]
pub enum ParseError {
    /// The line is not JSON of the shape that the current state expects.
    MalformedLine,
    /// The line is well-formed but does not fit the play under construction.
    ProtocolViolation,
    /// The game has no context or no plays yet.
    IncompleteGame,
}

} // verus!
