use vstd::prelude::*;

verus! {

/// A color of chess piece.
#[derive(Clone, Copy, Debug, PartialEq, Eq, Structural)]
pub enum PieceColor {
    /// A white piece.
    White,
    /// A black piece.
    Black,
}

impl PieceColor {
    /// The opposite of this color.
    pub open spec fn spec_opposite(&self) -> Self {
        match self {
            PieceColor::White => PieceColor::Black,
            PieceColor::Black => PieceColor::White,
        }
    }

    /// Returns the opposite of the given color.
    #[verifier::when_used_as_spec(spec_opposite)]
    pub fn opposite(&self) -> (r: Self)
        ensures
            r == self.spec_opposite(),
    {
        match self {
            PieceColor::White => PieceColor::Black,
            PieceColor::Black => PieceColor::White,
        }
    }
}

/// Law: `opposite` is its own inverse. Flipping a color twice gives the
/// color back, for both colors.
pub proof fn lemma_opposite_involution(c: PieceColor)
    ensures
        c.opposite().opposite() == c,
{
}

/// A kind of chess piece.
#[derive(Clone, Copy, Debug, PartialEq, Eq, Structural)]
pub enum PieceKind {
    /// A pawn.
    Pawn,
    /// A knight.
    Knight,
    /// A bishop.
    Bishop,
    /// A rook.
    Rook,
    /// A queen.
    Queen,
    /// A king.
    King,
}

impl PieceKind {
    /// The algebraic letter for this kind: pawns have none, every other
    /// kind has a single uppercase letter.
    pub open spec fn algebraic(&self) -> Seq<char> {
        match self {
            PieceKind::Pawn => Seq::empty(),
            PieceKind::Knight => seq!['N'],
            PieceKind::Bishop => seq!['B'],
            PieceKind::Rook => seq!['R'],
            PieceKind::Queen => seq!['Q'],
            PieceKind::King => seq!['K'],
        }
    }

    /// Returns the display form of this kind, its algebraic letter.
    pub fn to_string(&self) -> (r: &'static str)
        ensures
            r@ == self.algebraic(),
    {
        match self {
            PieceKind::Pawn => {
                let s = "";
                proof {
                    reveal_strlit("");
                    assert(s@ =~= self.algebraic());
                }
                s
            },
            PieceKind::Knight => {
                let s = "N";
                proof {
                    reveal_strlit("N");
                    assert(s@ =~= self.algebraic());
                }
                s
            },
            PieceKind::Bishop => {
                let s = "B";
                proof {
                    reveal_strlit("B");
                    assert(s@ =~= self.algebraic());
                }
                s
            },
            PieceKind::Rook => {
                let s = "R";
                proof {
                    reveal_strlit("R");
                    assert(s@ =~= self.algebraic());
                }
                s
            },
            PieceKind::Queen => {
                let s = "Q";
                proof {
                    reveal_strlit("Q");
                    assert(s@ =~= self.algebraic());
                }
                s
            },
            PieceKind::King => {
                let s = "K";
                proof {
                    reveal_strlit("K");
                    assert(s@ =~= self.algebraic());
                }
                s
            },
        }
    }
}

/// A chess piece with an associated kind and color.
#[derive(Clone, Copy, Debug, PartialEq, Eq, Structural)]
pub struct Piece {
    /// The piece's kind.
    pub kind: PieceKind,
    /// The piece's color.
    pub color: PieceColor,
}

impl Piece {
    /// A white pawn.
    pub fn white_pawn() -> (r: Self)
        ensures
            r == (Piece { kind: PieceKind::Pawn, color: PieceColor::White }),
    {
        Self { kind: PieceKind::Pawn, color: PieceColor::White }
    }

    /// A white knight.
    pub fn white_knight() -> (r: Self)
        ensures
            r == (Piece { kind: PieceKind::Knight, color: PieceColor::White }),
    {
        Self { kind: PieceKind::Knight, color: PieceColor::White }
    }

    /// A white bishop.
    pub fn white_bishop() -> (r: Self)
        ensures
            r == (Piece { kind: PieceKind::Bishop, color: PieceColor::White }),
    {
        Self { kind: PieceKind::Bishop, color: PieceColor::White }
    }

    /// A white rook.
    pub fn white_rook() -> (r: Self)
        ensures
            r == (Piece { kind: PieceKind::Rook, color: PieceColor::White }),
    {
        Self { kind: PieceKind::Rook, color: PieceColor::White }
    }

    /// A white queen.
    pub fn white_queen() -> (r: Self)
        ensures
            r == (Piece { kind: PieceKind::Queen, color: PieceColor::White }),
    {
        Self { kind: PieceKind::Queen, color: PieceColor::White }
    }

    /// A white king.
    pub fn white_king() -> (r: Self)
        ensures
            r == (Piece { kind: PieceKind::King, color: PieceColor::White }),
    {
        Self { kind: PieceKind::King, color: PieceColor::White }
    }

    /// A black pawn.
    pub fn black_pawn() -> (r: Self)
        ensures
            r == (Piece { kind: PieceKind::Pawn, color: PieceColor::Black }),
    {
        Self { kind: PieceKind::Pawn, color: PieceColor::Black }
    }

    /// A black knight.
    pub fn black_knight() -> (r: Self)
        ensures
            r == (Piece { kind: PieceKind::Knight, color: PieceColor::Black }),
    {
        Self { kind: PieceKind::Knight, color: PieceColor::Black }
    }

    /// A black bishop.
    pub fn black_bishop() -> (r: Self)
        ensures
            r == (Piece { kind: PieceKind::Bishop, color: PieceColor::Black }),
    {
        Self { kind: PieceKind::Bishop, color: PieceColor::Black }
    }

    /// A black rook.
    pub fn black_rook() -> (r: Self)
        ensures
            r == (Piece { kind: PieceKind::Rook, color: PieceColor::Black }),
    {
        Self { kind: PieceKind::Rook, color: PieceColor::Black }
    }

    /// A black queen.
    pub fn black_queen() -> (r: Self)
        ensures
            r == (Piece { kind: PieceKind::Queen, color: PieceColor::Black }),
    {
        Self { kind: PieceKind::Queen, color: PieceColor::Black }
    }

    /// A black king.
    pub fn black_king() -> (r: Self)
        ensures
            r == (Piece { kind: PieceKind::King, color: PieceColor::Black }),
    {
        Self { kind: PieceKind::King, color: PieceColor::Black }
    }

    /// Constructs a new chess piece with the given kind and color.
    pub fn new(kind: PieceKind, color: PieceColor) -> (r: Self)
        ensures
            r == (Piece { kind, color }),
    {
        Self { kind, color }
    }

    /// Returns a new piece of the same kind with the opposite color.
    /// The piece itself is not mutated.
    pub fn opposite(&self) -> (r: Self)
        ensures
            r == (Piece { kind: self.kind, color: self.color.spec_opposite() }),
    {
        Self { kind: self.kind, color: self.color.opposite() }
    }

    /// Returns true if the given piece is white.
    pub fn is_white(&self) -> (r: bool)
        ensures
            r == (self.color is White),
    {
        matches!(self.color, PieceColor::White)
    }

    /// Returns true if the given piece is black.
    pub fn is_black(&self) -> (r: bool)
        ensures
            r == (self.color is Black),
    {
        matches!(self.color, PieceColor::Black)
    }

    /// Returns true if the given piece is a pawn.
    pub fn is_pawn(&self) -> (r: bool)
        ensures
            r == (self.kind is Pawn),
    {
        matches!(self.kind, PieceKind::Pawn)
    }

    /// Returns true if the given piece is a knight.
    pub fn is_knight(&self) -> (r: bool)
        ensures
            r == (self.kind is Knight),
    {
        matches!(self.kind, PieceKind::Knight)
    }

    /// Returns true if the given piece is a bishop.
    pub fn is_bishop(&self) -> (r: bool)
        ensures
            r == (self.kind is Bishop),
    {
        matches!(self.kind, PieceKind::Bishop)
    }

    /// Returns true if the given piece is a rook.
    pub fn is_rook(&self) -> (r: bool)
        ensures
            r == (self.kind is Rook),
    {
        matches!(self.kind, PieceKind::Rook)
    }

    /// Returns true if the given piece is a queen.
    pub fn is_queen(&self) -> (r: bool)
        ensures
            r == (self.kind is Queen),
    {
        matches!(self.kind, PieceKind::Queen)
    }

    /// Returns true if the given piece is a king.
    pub fn is_king(&self) -> (r: bool)
        ensures
            r == (self.kind is King),
    {
        matches!(self.kind, PieceKind::King)
    }
}

} // verus!
