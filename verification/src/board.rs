use vstd::prelude::*;

use crate::error::ChessError;
use crate::moves::Move;
use crate::piece::{Piece, PieceColor, PieceKind};
use crate::square::Square;

verus! {

// Flat indices of the canonical castle squares, rank-major: a1 is 0,
// h1 is 7, a8 is 56, h8 is 63.
pub const SQ_A1: usize = 0;

pub const SQ_C1: usize = 2;

pub const SQ_D1: usize = 3;

pub const SQ_E1: usize = 4;

pub const SQ_F1: usize = 5;

pub const SQ_G1: usize = 6;

pub const SQ_H1: usize = 7;

pub const SQ_A8: usize = 56;

pub const SQ_C8: usize = 58;

pub const SQ_D8: usize = 59;

pub const SQ_E8: usize = 60;

pub const SQ_F8: usize = 61;

pub const SQ_G8: usize = 62;

pub const SQ_H8: usize = 63;

/// The flat, rank-major index of a square in the 64-cell occupancy
/// grid.
pub open spec fn sq_index(s: Square) -> int {
    s.rank.idx() * 8 + s.file.idx()
}

/// The flat index of the square an en-passant capture removes: it has
/// `to`'s file and `from`'s rank, beside the moving pawn rather than on
/// its destination.
pub open spec fn ep_index(from: Square, to: Square) -> int {
    from.rank.idx() * 8 + to.file.idx()
}

/// A pawn of the given color.
pub open spec fn pawn_of(color: PieceColor) -> Piece {
    Piece { kind: PieceKind::Pawn, color }
}

/// The occupant of cell `i` in the standard starting position: the
/// white back rank on rank index 0, white pawns on rank index 1, black
/// pawns on rank index 6, the black back rank on rank index 7, and
/// nothing in between.
pub open spec fn start_piece(i: int) -> Option<Piece> {
    let rank = i / 8;
    let file = i % 8;
    if rank == 1 {
        Some(pawn_of(PieceColor::White))
    } else if rank == 6 {
        Some(pawn_of(PieceColor::Black))
    } else if rank == 0 || rank == 7 {
        let color = if rank == 0 {
            PieceColor::White
        } else {
            PieceColor::Black
        };
        let kind = if file == 0 || file == 7 {
            PieceKind::Rook
        } else if file == 1 || file == 6 {
            PieceKind::Knight
        } else if file == 2 || file == 5 {
            PieceKind::Bishop
        } else if file == 3 {
            PieceKind::Queen
        } else {
            PieceKind::King
        };
        Some(Piece { kind, color })
    } else {
        None
    }
}

/// The full 64-cell occupancy of the standard starting position.
pub open spec fn start_squares() -> Seq<Option<Piece>> {
    Seq::new(64, |i: int| start_piece(i))
}

/// Whether the forward transition of a castle through the given
/// canonical squares finds both of its pieces in place.
pub open spec fn castle_ok(b: Seq<Option<Piece>>, king_from: int, rook_from: int) -> bool {
    b[king_from] is Some && b[rook_from] is Some
}

/// The occupancy a castle-shaped transition leaves behind: both pieces
/// relocated when both are present; when the rook square is empty the
/// king has already been taken off its square, so that partial mutation
/// stays (a documented limitation of the engine); when the king square
/// is empty nothing has been touched.
pub open spec fn apply_castle(
    b: Seq<Option<Piece>>,
    king_from: int,
    rook_from: int,
    king_to: int,
    rook_to: int,
) -> Seq<Option<Piece>> {
    if b[king_from] is Some {
        if b[rook_from] is Some {
            b.update(king_from, None).update(rook_from, None).update(king_to, b[king_from]).update(
                rook_to,
                b[rook_from],
            )
        } else {
            b.update(king_from, None)
        }
    } else {
        b
    }
}

/// Whether `play` succeeds on the given occupancy: every square the
/// move expects to be occupied holds a piece. Promotions expect
/// nothing; they never fail.
pub open spec fn play_ok(b: Seq<Option<Piece>>, m: Move) -> bool {
    match m {
        Move::Move { from, .. } => b[sq_index(from)] is Some,
        Move::Capture { from, .. } => b[sq_index(from)] is Some,
        Move::PromotionMove { .. } => true,
        Move::PromotionCapture { .. } => true,
        Move::EnPassantCapture { from, .. } => b[sq_index(from)] is Some,
        Move::KingsideCastleWhite => castle_ok(b, SQ_E1 as int, SQ_H1 as int),
        Move::QueensideCastleWhite => castle_ok(b, SQ_E1 as int, SQ_A1 as int),
        Move::KingsideCastleBlack => castle_ok(b, SQ_E8 as int, SQ_H8 as int),
        Move::QueensideCastleBlack => castle_ok(b, SQ_E8 as int, SQ_A8 as int),
    }
}

/// The occupancy `play` leaves behind on the given occupancy, for every
/// outcome: the forward transition of the move when it succeeds, the
/// occupancy unchanged when it fails (except for the torn castle case,
/// see `apply_castle`).
pub open spec fn apply_play(b: Seq<Option<Piece>>, m: Move) -> Seq<Option<Piece>> {
    match m {
        Move::Move { from, to } => {
            if b[sq_index(from)] is Some {
                b.update(sq_index(from), None).update(sq_index(to), b[sq_index(from)])
            } else {
                b
            }
        },
        Move::Capture { from, to, .. } => {
            if b[sq_index(from)] is Some {
                b.update(sq_index(from), None).update(sq_index(to), b[sq_index(from)])
            } else {
                b
            }
        },
        Move::PromotionMove { promoting, from, to } => {
            b.update(sq_index(from), None).update(sq_index(to), Some(promoting))
        },
        Move::PromotionCapture { promoting, from, to, .. } => {
            b.update(sq_index(from), None).update(sq_index(to), Some(promoting))
        },
        Move::EnPassantCapture { from, to, .. } => {
            if b[sq_index(from)] is Some {
                b.update(sq_index(from), None).update(sq_index(to), b[sq_index(from)]).update(
                    ep_index(from, to),
                    None,
                )
            } else {
                b
            }
        },
        Move::KingsideCastleWhite => {
            apply_castle(b, SQ_E1 as int, SQ_H1 as int, SQ_G1 as int, SQ_F1 as int)
        },
        Move::QueensideCastleWhite => {
            apply_castle(b, SQ_E1 as int, SQ_A1 as int, SQ_C1 as int, SQ_D1 as int)
        },
        Move::KingsideCastleBlack => {
            apply_castle(b, SQ_E8 as int, SQ_H8 as int, SQ_G8 as int, SQ_F8 as int)
        },
        Move::QueensideCastleBlack => {
            apply_castle(b, SQ_E8 as int, SQ_A8 as int, SQ_C8 as int, SQ_D8 as int)
        },
    }
}

/// Whether `undo` succeeds on the given occupancy: every square the
/// inverse transition expects to be occupied holds a piece.
pub open spec fn undo_ok(b: Seq<Option<Piece>>, m: Move) -> bool {
    match m {
        Move::Move { to, .. } => b[sq_index(to)] is Some,
        Move::Capture { to, .. } => b[sq_index(to)] is Some,
        Move::PromotionMove { .. } => true,
        Move::PromotionCapture { .. } => true,
        Move::EnPassantCapture { to, .. } => b[sq_index(to)] is Some,
        Move::KingsideCastleWhite => castle_ok(b, SQ_G1 as int, SQ_F1 as int),
        Move::QueensideCastleWhite => castle_ok(b, SQ_C1 as int, SQ_D1 as int),
        Move::KingsideCastleBlack => castle_ok(b, SQ_G8 as int, SQ_F8 as int),
        Move::QueensideCastleBlack => castle_ok(b, SQ_C8 as int, SQ_D8 as int),
    }
}

/// The occupancy `undo` leaves behind on the given occupancy, for every
/// outcome. The pre-move occupancy is reconstructed from the move's
/// stored payload alone: `undo` needs no history beyond the move value.
pub open spec fn apply_undo(b: Seq<Option<Piece>>, m: Move) -> Seq<Option<Piece>> {
    match m {
        Move::Move { from, to } => {
            if b[sq_index(to)] is Some {
                b.update(sq_index(to), None).update(sq_index(from), b[sq_index(to)])
            } else {
                b
            }
        },
        Move::Capture { capturing, from, to } => {
            if b[sq_index(to)] is Some {
                b.update(sq_index(to), None).update(sq_index(from), b[sq_index(to)]).update(
                    sq_index(to),
                    Some(capturing),
                )
            } else {
                b
            }
        },
        Move::PromotionMove { promoting, from, to } => {
            b.update(sq_index(to), None).update(sq_index(from), Some(pawn_of(promoting.color)))
        },
        Move::PromotionCapture { promoting, capturing, from, to } => {
            b.update(sq_index(to), Some(capturing)).update(
                sq_index(from),
                Some(pawn_of(promoting.color)),
            )
        },
        Move::EnPassantCapture { capturing, from, to } => {
            if b[sq_index(to)] is Some {
                b.update(sq_index(to), None).update(sq_index(from), b[sq_index(to)]).update(
                    ep_index(from, to),
                    Some(capturing),
                )
            } else {
                b
            }
        },
        Move::KingsideCastleWhite => {
            apply_castle(b, SQ_G1 as int, SQ_F1 as int, SQ_E1 as int, SQ_H1 as int)
        },
        Move::QueensideCastleWhite => {
            apply_castle(b, SQ_C1 as int, SQ_D1 as int, SQ_E1 as int, SQ_A1 as int)
        },
        Move::KingsideCastleBlack => {
            apply_castle(b, SQ_G8 as int, SQ_F8 as int, SQ_E8 as int, SQ_H8 as int)
        },
        Move::QueensideCastleBlack => {
            apply_castle(b, SQ_C8 as int, SQ_D8 as int, SQ_E8 as int, SQ_A8 as int)
        },
    }
}

/// The current state of a chess board: an 8x8 grid of nullable piece
/// occupants, indexed by (rank, file).
pub struct Board {
    pieces: Vec<Option<Piece>>,
}

impl Board {
    /// The occupancy grid as a sequence of 64 cells, rank-major: cell
    /// `r * 8 + f` holds the occupant of the square with rank index `r`
    /// and file index `f`.
    pub closed spec fn squares(self) -> Seq<Option<Piece>> {
        self.pieces@
    }

    /// The board holds exactly 64 cells.
    pub open spec fn wf(self) -> bool {
        self.squares().len() == 64
    }

    /// The occupant of the given square.
    pub open spec fn on(self, square: Square) -> Option<Piece> {
        self.squares()[sq_index(square)]
    }

    /// Creates a new chess board with the standard starting position.
    pub fn new_init() -> (r: Board)
        ensures
            r.wf(),
            r.squares() == start_squares(),
    {
        let mut pieces: Vec<Option<Piece>> = Vec::new();
        let mut i: usize = 0;
        while i < 64
            invariant
                i <= 64,
                pieces@.len() == i as int,
                forall|j: int| 0 <= j < i as int ==> pieces@[j] == start_piece(j),
            decreases 64 - i,
        {
            pieces.push(start_occupant(i));
            i = i + 1;
        }
        proof {
            assert(pieces@ =~= start_squares());
        }
        Board { pieces }
    }

    /// The flat index of the given square, in bounds for the grid.
    fn flat_index(square: Square) -> (i: usize)
        ensures
            i as int == sq_index(square),
            i < 64,
    {
        let (f, k) = square.indices();
        (k as usize) * 8 + (f as usize)
    }

    /// Reads cell `i` of the grid.
    fn cell(&self, i: usize) -> (r: Option<Piece>)
        requires
            self.wf(),
            i < 64,
        ensures
            r == self.squares()[i as int],
    {
        self.pieces[i]
    }

    /// Overwrites cell `i` of the grid.
    fn set_cell(&mut self, i: usize, v: Option<Piece>)
        requires
            old(self).wf(),
            i < 64,
        ensures
            final(self).wf(),
            final(self).squares() == old(self).squares().update(i as int, v),
    {
        self.pieces[i] = v;
    }

    /// Returns the piece at the given square.
    pub fn get_piece(&self, square: Square) -> (r: Option<Piece>)
        requires
            self.wf(),
        ensures
            r == self.on(square),
    {
        let i = Self::flat_index(square);
        self.cell(i)
    }

    /// Sets the piece at the given square, overwriting any previous
    /// occupant without checking the cell was empty.
    pub fn set_piece(&mut self, square: Square, piece: Piece)
        requires
            old(self).wf(),
        ensures
            final(self).wf(),
            final(self).squares() == old(self).squares().update(sq_index(square), Some(piece)),
    {
        let i = Self::flat_index(square);
        self.set_cell(i, Some(piece));
    }

    /// Clears the given square unconditionally.
    pub fn remove_piece(&mut self, square: Square)
        requires
            old(self).wf(),
        ensures
            final(self).wf(),
            final(self).squares() == old(self).squares().update(sq_index(square), None),
    {
        let i = Self::flat_index(square);
        self.set_cell(i, None);
    }

    /// Takes the piece at the given square, replacing it with nothing
    /// and returning the previous occupant.
    #[must_use]
    pub fn take_piece(&mut self, square: Square) -> (r: Option<Piece>)
        requires
            old(self).wf(),
        ensures
            final(self).wf(),
            r == old(self).on(square),
            final(self).squares() == old(self).squares().update(sq_index(square), None),
    {
        let i = Self::flat_index(square);
        let r = self.cell(i);
        self.set_cell(i, None);
        r
    }

    /// The forward transition of a castle through the given canonical
    /// squares: read and clear the king square, read and clear the rook
    /// square, then place both pieces on their destinations. Fails with
    /// an illegal-move error when either home square is empty; when the
    /// rook square is empty the king has already been removed.
    fn castle(
        &mut self,
        king_from: usize,
        rook_from: usize,
        king_to: usize,
        rook_to: usize,
    ) -> (r: Result<(), ChessError>)
        requires
            old(self).wf(),
            king_from < 64,
            rook_from < 64,
            king_to < 64,
            rook_to < 64,
            king_from != rook_from,
        ensures
            final(self).wf(),
            final(self).squares() == apply_castle(
                old(self).squares(),
                king_from as int,
                rook_from as int,
                king_to as int,
                rook_to as int,
            ),
            r is Ok <==> castle_ok(old(self).squares(), king_from as int, rook_from as int),
            r is Err ==> r == Err::<(), ChessError>(ChessError::IllegalMoveApplication),
    {
        match self.cell(king_from) {
            None => Err(ChessError::IllegalMoveApplication),
            Some(king) => {
                self.set_cell(king_from, None);
                match self.cell(rook_from) {
                    None => Err(ChessError::IllegalMoveApplication),
                    Some(rook) => {
                        self.set_cell(rook_from, None);
                        self.set_cell(king_to, Some(king));
                        self.set_cell(rook_to, Some(rook));
                        Ok(())
                    },
                }
            },
        }
    }

    /// Plays the given move, dispatching on its variant and performing
    /// the forward transition. The move is trusted to be legal: the
    /// only check made is that every square the move expects to be
    /// occupied holds a piece, and a violation is reported as an
    /// illegal-move error. A castle that fails after its king was taken
    /// leaves that partial mutation in place.
    pub fn play_move(&mut self, m: Move) -> (r: Result<(), ChessError>)
        requires
            old(self).wf(),
        ensures
            final(self).wf(),
            final(self).squares() == apply_play(old(self).squares(), m),
            r is Ok <==> play_ok(old(self).squares(), m),
            r is Err ==> r == Err::<(), ChessError>(ChessError::IllegalMoveApplication),
    {
        match m {
            Move::Move { from, to } => {
                match self.get_piece(from) {
                    None => Err(ChessError::IllegalMoveApplication),
                    Some(piece) => {
                        self.remove_piece(from);
                        self.set_piece(to, piece);
                        Ok(())
                    },
                }
            },
            Move::Capture { from, to, .. } => {
                match self.get_piece(from) {
                    None => Err(ChessError::IllegalMoveApplication),
                    Some(piece) => {
                        self.remove_piece(from);
                        self.set_piece(to, piece);
                        Ok(())
                    },
                }
            },
            Move::PromotionMove { promoting, from, to } => {
                self.remove_piece(from);
                self.set_piece(to, promoting);
                Ok(())
            },
            Move::PromotionCapture { promoting, from, to, .. } => {
                self.remove_piece(from);
                self.set_piece(to, promoting);
                Ok(())
            },
            Move::EnPassantCapture { from, to, .. } => {
                match self.get_piece(from) {
                    None => Err(ChessError::IllegalMoveApplication),
                    Some(pawn) => {
                        self.remove_piece(from);
                        self.set_piece(to, pawn);
                        self.remove_piece(Square::new(to.file, from.rank));
                        Ok(())
                    },
                }
            },
            Move::KingsideCastleWhite => self.castle(SQ_E1, SQ_H1, SQ_G1, SQ_F1),
            Move::QueensideCastleWhite => self.castle(SQ_E1, SQ_A1, SQ_C1, SQ_D1),
            Move::KingsideCastleBlack => self.castle(SQ_E8, SQ_H8, SQ_G8, SQ_F8),
            Move::QueensideCastleBlack => self.castle(SQ_E8, SQ_A8, SQ_C8, SQ_D8),
        }
    }

    /// Undoes the given move, performing the exact inverse transition.
    /// The pre-move occupancy is reconstructed from the move's stored
    /// payload alone; no move history is consulted. As with `play_move`,
    /// the only check made is that every square the inverse transition
    /// expects to be occupied holds a piece.
    pub fn undo_move(&mut self, m: Move) -> (r: Result<(), ChessError>)
        requires
            old(self).wf(),
        ensures
            final(self).wf(),
            final(self).squares() == apply_undo(old(self).squares(), m),
            r is Ok <==> undo_ok(old(self).squares(), m),
            r is Err ==> r == Err::<(), ChessError>(ChessError::IllegalMoveApplication),
    {
        match m {
            Move::Move { from, to } => {
                match self.get_piece(to) {
                    None => Err(ChessError::IllegalMoveApplication),
                    Some(piece) => {
                        self.remove_piece(to);
                        self.set_piece(from, piece);
                        Ok(())
                    },
                }
            },
            Move::Capture { capturing, from, to } => {
                match self.get_piece(to) {
                    None => Err(ChessError::IllegalMoveApplication),
                    Some(piece) => {
                        self.remove_piece(to);
                        self.set_piece(from, piece);
                        self.set_piece(to, capturing);
                        Ok(())
                    },
                }
            },
            Move::PromotionMove { promoting, from, to } => {
                self.remove_piece(to);
                self.set_piece(from, Piece::new(PieceKind::Pawn, promoting.color));
                Ok(())
            },
            Move::PromotionCapture { promoting, capturing, from, to } => {
                self.set_piece(to, capturing);
                self.set_piece(from, Piece::new(PieceKind::Pawn, promoting.color));
                Ok(())
            },
            Move::EnPassantCapture { capturing, from, to } => {
                match self.get_piece(to) {
                    None => Err(ChessError::IllegalMoveApplication),
                    Some(pawn) => {
                        self.remove_piece(to);
                        self.set_piece(from, pawn);
                        self.set_piece(Square::new(to.file, from.rank), capturing);
                        Ok(())
                    },
                }
            },
            Move::KingsideCastleWhite => self.castle(SQ_G1, SQ_F1, SQ_E1, SQ_H1),
            Move::QueensideCastleWhite => self.castle(SQ_C1, SQ_D1, SQ_E1, SQ_A1),
            Move::KingsideCastleBlack => self.castle(SQ_G8, SQ_F8, SQ_E8, SQ_H8),
            Move::QueensideCastleBlack => self.castle(SQ_C8, SQ_D8, SQ_E8, SQ_A8),
        }
    }
}

impl Default for Board {
    /// A default board holds the standard starting position.
    fn default() -> (r: Self)
        ensures
            r.wf(),
            r.squares() == start_squares(),
    {
        Board::new_init()
    }
}

/// The occupant of cell `i` in the standard starting position, as an
/// executable value.
fn start_occupant(i: usize) -> (r: Option<Piece>)
    requires
        i < 64,
    ensures
        r == start_piece(i as int),
{
    let rank = i / 8;
    let file = i % 8;
    if rank == 1 {
        Some(Piece::white_pawn())
    } else if rank == 6 {
        Some(Piece::black_pawn())
    } else if rank == 0 || rank == 7 {
        let color = if rank == 0 {
            PieceColor::White
        } else {
            PieceColor::Black
        };
        let kind = if file == 0 || file == 7 {
            PieceKind::Rook
        } else if file == 1 || file == 6 {
            PieceKind::Knight
        } else if file == 2 || file == 5 {
            PieceKind::Bishop
        } else if file == 3 {
            PieceKind::Queen
        } else {
            PieceKind::King
        };
        Some(Piece::new(kind, color))
    } else {
        None
    }
}

/// The conditions under which a move truly matches the occupancy it is
/// played on: its source squares hold what the move says they hold and
/// its destination squares hold what its payload says was there. These
/// are the preconditions under which `play` followed by `undo` restores
/// the board exactly.
pub open spec fn play_pre(b: Seq<Option<Piece>>, m: Move) -> bool {
    match m {
        Move::Move { from, to } => b[sq_index(from)] is Some && b[sq_index(to)] is None,
        Move::Capture { capturing, from, to } => b[sq_index(from)] is Some && b[sq_index(to)]
            == Some(capturing),
        Move::PromotionMove { promoting, from, to } => b[sq_index(from)] == Some(
            pawn_of(promoting.color),
        ) && b[sq_index(to)] is None,
        Move::PromotionCapture { promoting, capturing, from, to } => b[sq_index(from)] == Some(
            pawn_of(promoting.color),
        ) && b[sq_index(to)] == Some(capturing),
        Move::EnPassantCapture { capturing, from, to } => b[sq_index(from)] is Some && b[sq_index(
            to,
        )] is None && b[ep_index(from, to)] == Some(capturing) && from.file.idx() != to.file.idx(),
        Move::KingsideCastleWhite => castle_pre(b, SQ_E1 as int, SQ_H1 as int, SQ_G1 as int, SQ_F1 as int),
        Move::QueensideCastleWhite => castle_pre(b, SQ_E1 as int, SQ_A1 as int, SQ_C1 as int, SQ_D1 as int),
        Move::KingsideCastleBlack => castle_pre(b, SQ_E8 as int, SQ_H8 as int, SQ_G8 as int, SQ_F8 as int),
        Move::QueensideCastleBlack => castle_pre(b, SQ_E8 as int, SQ_A8 as int, SQ_C8 as int, SQ_D8 as int),
    }
}

/// A castle truly matches the occupancy when its king and rook stand on
/// their home squares and both destination squares are empty.
pub open spec fn castle_pre(
    b: Seq<Option<Piece>>,
    king_from: int,
    rook_from: int,
    king_to: int,
    rook_to: int,
) -> bool {
    b[king_from] is Some && b[rook_from] is Some && b[king_to] is None && b[rook_to] is None
}

/// Law: `undo` is a strict left inverse of `play`. Starting from any
/// board occupancy where the move's preconditions hold, playing the
/// move succeeds, undoing it succeeds, and the undo restores the exact
/// pre-play occupancy of every one of the 64 cells.
pub proof fn lemma_undo_reverses_play(b: Seq<Option<Piece>>, m: Move)
    requires
        b.len() == 64,
        m.wf(),
        play_pre(b, m),
    ensures
        play_ok(b, m),
        undo_ok(apply_play(b, m), m),
        apply_undo(apply_play(b, m), m) == b,
{
    let a = apply_play(b, m);
    match m {
        Move::Move { from, to } => {
            assert(apply_undo(a, m) =~= b);
        },
        Move::Capture { capturing, from, to } => {
            assert(apply_undo(a, m) =~= b);
        },
        Move::PromotionMove { promoting, from, to } => {
            assert(apply_undo(a, m) =~= b);
        },
        Move::PromotionCapture { promoting, capturing, from, to } => {
            assert(apply_undo(a, m) =~= b);
        },
        Move::EnPassantCapture { capturing, from, to } => {
            assert(apply_undo(a, m) =~= b);
        },
        Move::KingsideCastleWhite => {
            assert(apply_undo(a, m) =~= b);
        },
        Move::QueensideCastleWhite => {
            assert(apply_undo(a, m) =~= b);
        },
        Move::KingsideCastleBlack => {
            assert(apply_undo(a, m) =~= b);
        },
        Move::QueensideCastleBlack => {
            assert(apply_undo(a, m) =~= b);
        },
    }
}

} // verus!

