use vstd::prelude::*;

use crate::piece::Piece;
use crate::square::Square;

verus! {

/// A move on the chess board, one variant per chess move category.
///
/// Every variant except the four castle variants carries enough
/// information (the captured piece, the promoted-to piece) to be
/// inverted without consulting board state; this is what makes `undo`
/// possible without a move history stack. The castle variants carry no
/// parameters because their king and rook squares are canonical.
#[derive(Clone, Copy, Debug, PartialEq, Eq, Structural)]
pub enum Move {
    /// A piece moving with no capture.
    Move {
        /// The square the piece is moving from.
        from: Square,
        /// The square the piece is moving to.
        to: Square,
    },
    /// A piece capturing another piece. The `capturing` payload is the
    /// piece that was on `to` before the move; it is consulted only by
    /// `undo`, never by `play`.
    Capture {
        /// The piece that is being captured.
        capturing: Piece,
        /// The square the piece is moving from.
        from: Square,
        /// The square the piece is moving to.
        to: Square,
    },
    /// A pawn promoting to another piece by moving.
    PromotionMove {
        /// The piece that the pawn is being promoted to.
        promoting: Piece,
        /// The square the pawn is moving from.
        from: Square,
        /// The square the pawn is moving to.
        to: Square,
    },
    /// A pawn promoting to another piece by capturing.
    PromotionCapture {
        /// The piece that the pawn is being promoted to.
        promoting: Piece,
        /// The piece that is being captured.
        capturing: Piece,
        /// The square the pawn is moving from.
        from: Square,
        /// The square the pawn is moving to.
        to: Square,
    },
    /// A pawn capturing an adjacent pawn via the en passant rule. The
    /// captured pawn sits on the square with `to`'s file and `from`'s
    /// rank, not on `to` itself.
    EnPassantCapture {
        /// The piece that is being captured.
        capturing: Piece,
        /// The square the pawn is moving from.
        from: Square,
        /// The square the pawn is moving to.
        to: Square,
    },
    /// White castling kingside: king e1 to g1, rook h1 to f1.
    KingsideCastleWhite,
    /// White castling queenside: king e1 to c1, rook a1 to d1.
    QueensideCastleWhite,
    /// Black castling kingside: king e8 to g8, rook h8 to f8.
    KingsideCastleBlack,
    /// Black castling queenside: king e8 to c8, rook a8 to d8.
    QueensideCastleBlack,
}

impl Move {
    /// Every square the move names lies on the board.
    pub open spec fn wf(self) -> bool {
        match self {
            Move::Move { from, to } => from.wf() && to.wf(),
            Move::Capture { from, to, .. } => from.wf() && to.wf(),
            Move::PromotionMove { from, to, .. } => from.wf() && to.wf(),
            Move::PromotionCapture { from, to, .. } => from.wf() && to.wf(),
            Move::EnPassantCapture { from, to, .. } => from.wf() && to.wf(),
            Move::KingsideCastleWhite => true,
            Move::QueensideCastleWhite => true,
            Move::KingsideCastleBlack => true,
            Move::QueensideCastleBlack => true,
        }
    }
}

} // verus!
