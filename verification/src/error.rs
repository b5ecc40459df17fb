use vstd::prelude::*;

verus! {

/// The two ways an operation of this library can fail.
#[derive(Clone, Copy, Debug, PartialEq, Eq, Structural)]
pub enum ChessError {
    /// A coordinate was outside the board: an invalid file letter, an
    /// invalid rank digit or number, or a square string of the wrong
    /// length. Raised during parsing, before anything reaches the board.
    MalformedCoordinate,
    /// A move was applied to (or undone on) a board that does not match
    /// it: a square the move expects to be occupied was empty. This
    /// signals a contract violation by the caller, not a recoverable
    /// game condition.
    IllegalMoveApplication,
}

} // verus!
