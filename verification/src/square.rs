use vstd::prelude::*;
use vstd::string::*;

use crate::error::ChessError;

verus! {

/// The zero-based file denoted by a lowercase letter 'a' through 'h',
/// if any.
pub open spec fn file_of_lower_char(c: char) -> Option<int> {
    if c == 'a' {
        Some(0int)
    } else if c == 'b' {
        Some(1int)
    } else if c == 'c' {
        Some(2int)
    } else if c == 'd' {
        Some(3int)
    } else if c == 'e' {
        Some(4int)
    } else if c == 'f' {
        Some(5int)
    } else if c == 'g' {
        Some(6int)
    } else if c == 'h' {
        Some(7int)
    } else {
        None
    }
}

/// The zero-based file denoted by a letter 'a' through 'h' of either
/// case, if any.
pub open spec fn file_of_char(c: char) -> Option<int> {
    if c == 'A' {
        Some(0int)
    } else if c == 'B' {
        Some(1int)
    } else if c == 'C' {
        Some(2int)
    } else if c == 'D' {
        Some(3int)
    } else if c == 'E' {
        Some(4int)
    } else if c == 'F' {
        Some(5int)
    } else if c == 'G' {
        Some(6int)
    } else if c == 'H' {
        Some(7int)
    } else {
        file_of_lower_char(c)
    }
}

/// The zero-based rank denoted by a digit character '1' through '8',
/// if any.
pub open spec fn rank_of_char(c: char) -> Option<int> {
    if c == '1' {
        Some(0int)
    } else if c == '2' {
        Some(1int)
    } else if c == '3' {
        Some(2int)
    } else if c == '4' {
        Some(3int)
    } else if c == '5' {
        Some(4int)
    } else if c == '6' {
        Some(5int)
    } else if c == '7' {
        Some(6int)
    } else if c == '8' {
        Some(7int)
    } else {
        None
    }
}

/// The lowercase letter displaying the file with the given index.
pub open spec fn file_char(i: int) -> char {
    if i == 0 {
        'a'
    } else if i == 1 {
        'b'
    } else if i == 2 {
        'c'
    } else if i == 3 {
        'd'
    } else if i == 4 {
        'e'
    } else if i == 5 {
        'f'
    } else if i == 6 {
        'g'
    } else {
        'h'
    }
}

/// The digit character displaying the rank with the given index.
pub open spec fn rank_char(i: int) -> char {
    if i == 0 {
        '1'
    } else if i == 1 {
        '2'
    } else if i == 2 {
        '3'
    } else if i == 3 {
        '4'
    } else if i == 4 {
        '5'
    } else if i == 5 {
        '6'
    } else if i == 6 {
        '7'
    } else {
        '8'
    }
}

/// The square denoted by a two-character string, as a pair of
/// (file, rank) indices, if the string is well formed.
pub open spec fn square_of_chars(t: Seq<char>) -> Option<(int, int)> {
    if t.len() == 2 {
        match (file_of_char(t[0]), rank_of_char(t[1])) {
            (Some(f), Some(k)) => Some((f, k)),
            _ => None,
        }
    } else {
        None
    }
}

/// A rank on the chess board, one of the rows 1 through 8, stored as a
/// zero-based index. Immutable once built.
#[derive(Clone, Copy, Debug, PartialEq, Eq, Structural)]
pub struct Rank(u8);

impl Rank {
    #[verifier::type_invariant]
    spec fn inv(self) -> bool {
        self.0 < 8
    }

    /// The zero-based index of this rank.
    pub closed spec fn idx(self) -> int {
        self.0 as int
    }

    /// Constructs a new rank from the given integer, 1 through 8; any
    /// other integer is a malformed coordinate.
    pub fn new(rank: u8) -> (r: Result<Self, ChessError>)
        ensures
            1 <= rank <= 8 ==> (r matches Ok(k) && k.idx() == rank - 1),
            !(1 <= rank <= 8) ==> r == Err::<Rank, ChessError>(ChessError::MalformedCoordinate),
    {
        if 1 <= rank && rank <= 8 {
            Ok(Rank(rank - 1))
        } else {
            Err(ChessError::MalformedCoordinate)
        }
    }

    /// Parses a rank from its single digit-character string form, "1"
    /// through "8".
    pub fn from_str(s: &str) -> (r: Result<Self, ChessError>)
        ensures
            s@.len() == 1 && rank_of_char(s@[0]) is Some ==> (r matches Ok(k)
                && rank_of_char(s@[0]) == Some(k.idx())),
            !(s@.len() == 1 && rank_of_char(s@[0]) is Some) ==> r == Err::<Rank, ChessError>(
                ChessError::MalformedCoordinate,
            ),
    {
        if s.unicode_len() != 1 {
            return Err(ChessError::MalformedCoordinate);
        }
        rank_from_char(s.get_char(0))
    }

    /// Returns the ranks 1 through 7 in ascending order.
    pub fn for_each() -> (r: Vec<Rank>)
        ensures
            r@.len() == 7,
            forall|i: int| 0 <= i < 7 ==> (#[trigger] r@[i]).idx() == i,
    {
        let mut v: Vec<Rank> = Vec::new();
        let mut k: u8 = 0;
        while k < 7
            invariant
                k <= 7,
                v@.len() == k as int,
                forall|i: int| 0 <= i < k as int ==> (#[trigger] v@[i]).idx() == i,
            decreases 7 - k,
        {
            v.push(Rank(k));
            k = k + 1;
        }
        v
    }

    /// Returns the zero-based index associated with this rank.
    pub fn index(&self) -> (i: u8)
        ensures
            i as int == self.idx(),
            i < 8,
    {
        proof {
            use_type_invariant(self);
        }
        self.0
    }

    /// Returns the display form of this rank, its digit 1 through 8.
    pub fn to_string(&self) -> (r: &'static str)
        ensures
            r@.len() == 1,
            r@[0] == rank_char(self.idx()),
    {
        let i = self.index();
        if i == 0 {
            proof {
                reveal_strlit("1");
            }
            "1"
        } else if i == 1 {
            proof {
                reveal_strlit("2");
            }
            "2"
        } else if i == 2 {
            proof {
                reveal_strlit("3");
            }
            "3"
        } else if i == 3 {
            proof {
                reveal_strlit("4");
            }
            "4"
        } else if i == 4 {
            proof {
                reveal_strlit("5");
            }
            "5"
        } else if i == 5 {
            proof {
                reveal_strlit("6");
            }
            "6"
        } else if i == 6 {
            proof {
                reveal_strlit("7");
            }
            "7"
        } else {
            proof {
                reveal_strlit("8");
            }
            "8"
        }
    }
}

/// Parses a rank from a single digit character '1' through '8'.
fn rank_from_char(c: char) -> (r: Result<Rank, ChessError>)
    ensures
        rank_of_char(c) matches Some(i) ==> (r matches Ok(k) && k.idx() == i),
        rank_of_char(c) is None ==> r == Err::<Rank, ChessError>(ChessError::MalformedCoordinate),
{
    match c {
        '1' => Ok(Rank(0)),
        '2' => Ok(Rank(1)),
        '3' => Ok(Rank(2)),
        '4' => Ok(Rank(3)),
        '5' => Ok(Rank(4)),
        '6' => Ok(Rank(5)),
        '7' => Ok(Rank(6)),
        '8' => Ok(Rank(7)),
        _ => Err(ChessError::MalformedCoordinate),
    }
}

/// A file on the chess board, one of the columns 'a' through 'h', stored
/// as a zero-based index. Immutable once built.
#[derive(Clone, Copy, Debug, PartialEq, Eq, Structural)]
pub struct File(u8);

impl File {
    #[verifier::type_invariant]
    spec fn inv(self) -> bool {
        self.0 < 8
    }

    /// The zero-based index of this file.
    pub closed spec fn idx(self) -> int {
        self.0 as int
    }

    /// Constructs a new file from the given lowercase letter 'a' through
    /// 'h'; any other character is a malformed coordinate.
    pub fn new(file: char) -> (r: Result<Self, ChessError>)
        ensures
            file_of_lower_char(file) matches Some(i) ==> (r matches Ok(f) && f.idx() == i),
            file_of_lower_char(file) is None ==> r == Err::<File, ChessError>(
                ChessError::MalformedCoordinate,
            ),
    {
        match file {
            'a' => Ok(File(0)),
            'b' => Ok(File(1)),
            'c' => Ok(File(2)),
            'd' => Ok(File(3)),
            'e' => Ok(File(4)),
            'f' => Ok(File(5)),
            'g' => Ok(File(6)),
            'h' => Ok(File(7)),
            _ => Err(ChessError::MalformedCoordinate),
        }
    }

    /// Parses a file from its single-letter string form, a letter 'a'
    /// through 'h' of either case.
    pub fn from_str(s: &str) -> (r: Result<Self, ChessError>)
        ensures
            s@.len() == 1 && file_of_char(s@[0]) is Some ==> (r matches Ok(f)
                && file_of_char(s@[0]) == Some(f.idx())),
            !(s@.len() == 1 && file_of_char(s@[0]) is Some) ==> r == Err::<File, ChessError>(
                ChessError::MalformedCoordinate,
            ),
    {
        if s.unicode_len() != 1 {
            return Err(ChessError::MalformedCoordinate);
        }
        file_from_char(s.get_char(0))
    }

    /// Returns the files 'a' through 'g' in ascending order.
    pub fn for_each() -> (r: Vec<File>)
        ensures
            r@.len() == 7,
            forall|i: int| 0 <= i < 7 ==> (#[trigger] r@[i]).idx() == i,
    {
        let mut v: Vec<File> = Vec::new();
        let mut k: u8 = 0;
        while k < 7
            invariant
                k <= 7,
                v@.len() == k as int,
                forall|i: int| 0 <= i < k as int ==> (#[trigger] v@[i]).idx() == i,
            decreases 7 - k,
        {
            v.push(File(k));
            k = k + 1;
        }
        v
    }

    /// Returns the zero-based index associated with this file.
    pub fn index(&self) -> (i: u8)
        ensures
            i as int == self.idx(),
            i < 8,
    {
        proof {
            use_type_invariant(self);
        }
        self.0
    }

    /// Returns the display form of this file, its lowercase letter 'a'
    /// through 'h'.
    pub fn to_string(&self) -> (r: &'static str)
        ensures
            r@.len() == 1,
            r@[0] == file_char(self.idx()),
    {
        let i = self.index();
        if i == 0 {
            proof {
                reveal_strlit("a");
            }
            "a"
        } else if i == 1 {
            proof {
                reveal_strlit("b");
            }
            "b"
        } else if i == 2 {
            proof {
                reveal_strlit("c");
            }
            "c"
        } else if i == 3 {
            proof {
                reveal_strlit("d");
            }
            "d"
        } else if i == 4 {
            proof {
                reveal_strlit("e");
            }
            "e"
        } else if i == 5 {
            proof {
                reveal_strlit("f");
            }
            "f"
        } else if i == 6 {
            proof {
                reveal_strlit("g");
            }
            "g"
        } else {
            proof {
                reveal_strlit("h");
            }
            "h"
        }
    }
}

/// Parses a file from a single letter 'a' through 'h' of either case.
fn file_from_char(c: char) -> (r: Result<File, ChessError>)
    ensures
        file_of_char(c) matches Some(i) ==> (r matches Ok(f) && f.idx() == i),
        file_of_char(c) is None ==> r == Err::<File, ChessError>(ChessError::MalformedCoordinate),
{
    match c {
        'a' | 'A' => Ok(File(0)),
        'b' | 'B' => Ok(File(1)),
        'c' | 'C' => Ok(File(2)),
        'd' | 'D' => Ok(File(3)),
        'e' | 'E' => Ok(File(4)),
        'f' | 'F' => Ok(File(5)),
        'g' | 'G' => Ok(File(6)),
        'h' | 'H' => Ok(File(7)),
        _ => Err(ChessError::MalformedCoordinate),
    }
}

/// A square on the chess board, an ordered (file, rank) pair addressing
/// one of the 64 cells, such as "f3".
#[derive(Clone, Copy, Debug, PartialEq, Eq, Structural)]
pub struct Square {
    /// The file associated with this square.
    pub file: File,
    /// The rank associated with this square.
    pub rank: Rank,
}

impl Square {
    /// Both coordinates of the square lie on the board.
    pub open spec fn wf(&self) -> bool {
        0 <= self.file.idx() < 8 && 0 <= self.rank.idx() < 8
    }

    /// Constructs a new square from the given file and rank.
    pub fn new(file: File, rank: Rank) -> (s: Self)
        ensures
            s == (Square { file, rank }),
    {
        Self { file, rank }
    }

    /// Parses a square from a two-character string such as "e4": a file
    /// letter of either case followed by a rank digit. Any other string
    /// is a malformed coordinate.
    pub fn from_str(s: &str) -> (r: Result<Self, ChessError>)
        ensures
            square_of_chars(s@) matches Some(fr) ==> (r matches Ok(sq) && sq.file.idx() == fr.0
                && sq.rank.idx() == fr.1),
            square_of_chars(s@) is None ==> r == Err::<Square, ChessError>(
                ChessError::MalformedCoordinate,
            ),
    {
        if s.unicode_len() != 2 {
            return Err(ChessError::MalformedCoordinate);
        }
        let file = match file_from_char(s.get_char(0)) {
            Ok(f) => f,
            Err(e) => {
                return Err(e);
            },
        };
        let rank = match rank_from_char(s.get_char(1)) {
            Ok(k) => k,
            Err(e) => {
                return Err(e);
            },
        };
        Ok(Square { file, rank })
    }

    /// Returns the zero-based indices (file, rank) associated with this
    /// square, for grid addressing and rendering.
    pub fn indices(&self) -> (r: (u8, u8))
        ensures
            r.0 as int == self.file.idx(),
            r.1 as int == self.rank.idx(),
            r.0 < 8,
            r.1 < 8,
    {
        (self.file.index(), self.rank.index())
    }

    /// Returns the display form of this square, its file letter followed
    /// by its rank digit, as in "f3".
    pub fn to_string(&self) -> (r: String)
        ensures
            r@.len() == 2,
            r@[0] == file_char(self.file.idx()),
            r@[1] == rank_char(self.rank.idx()),
    {
        let f = self.file.to_string();
        let k = self.rank.to_string();
        String::from_str(f).concat(k)
    }
}

/// Law: parsing a well-formed lowercase square string and displaying the
/// result gives the string back, character for character.
pub proof fn lemma_square_string_round_trip(t: Seq<char>)
    requires
        t.len() == 2,
        file_of_lower_char(t[0]) is Some,
        rank_of_char(t[1]) is Some,
    ensures
        square_of_chars(t) matches Some(fr) && file_char(fr.0) == t[0] && rank_char(fr.1) == t[1],
{
}

} // verus!
