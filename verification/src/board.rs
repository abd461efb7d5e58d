//! Squares, pieces and moves as plain values.

use vstd::prelude::*;

verus! {

/// The six kinds of chess piece.
#[derive(Clone, Copy, Debug, PartialEq, Eq, Structural)]
pub enum Role {
    Pawn,
    Knight,
    Bishop,
    Rook,
    Queen,
    King,
}

impl Role {
    /// The lower-case English letter of the piece.
    pub open spec fn letter(self) -> char {
        match self {
            Role::Pawn => 'p',
            Role::Knight => 'n',
            Role::Bishop => 'b',
            Role::Rook => 'r',
            Role::Queen => 'q',
            Role::King => 'k',
        }
    }

    /// The piece that a letter stands for, in either case.
    pub open spec fn of_letter(ch: char) -> Option<Role> {
        if ch == 'p' || ch == 'P' {
            Some(Role::Pawn)
        } else if ch == 'n' || ch == 'N' {
            Some(Role::Knight)
        } else if ch == 'b' || ch == 'B' {
            Some(Role::Bishop)
        } else if ch == 'r' || ch == 'R' {
            Some(Role::Rook)
        } else if ch == 'q' || ch == 'Q' {
            Some(Role::Queen)
        } else if ch == 'k' || ch == 'K' {
            Some(Role::King)
        } else {
            None
        }
    }

    pub fn char(self) -> (ch: char)
        ensures
            ch == self.letter(),
    {
        match self {
            Role::Pawn => 'p',
            Role::Knight => 'n',
            Role::Bishop => 'b',
            Role::Rook => 'r',
            Role::Queen => 'q',
            Role::King => 'k',
        }
    }

    pub fn from_char(ch: char) -> (role: Option<Role>)
        ensures
            role == Role::of_letter(ch),
    {
        match ch {
            'P' | 'p' => Some(Role::Pawn),
            'N' | 'n' => Some(Role::Knight),
            'B' | 'b' => Some(Role::Bishop),
            'R' | 'r' => Some(Role::Rook),
            'Q' | 'q' => Some(Role::Queen),
            'K' | 'k' => Some(Role::King),
            _ => None,
        }
    }
}

/// Every piece is found again from its letter.
pub proof fn role_letter_round_trip(role: Role)
    ensures
        Role::of_letter(role.letter()) == Some(role),
{
}

/// One of the 64 squares, numbered rank by rank from White's side: a1 is 0,
/// b1 is 1, h1 is 7, a2 is 8, h8 is 63.
#[derive(Clone, Copy, Debug, PartialEq, Eq, Structural)]
pub struct Square {
    pub index: u8,
}

impl Square {
    /// Only the numbers 0 to 63 stand for a square.
    pub open spec fn on_board(self) -> bool {
        self.index < 64
    }

    /// The square with this number, if there is one.
    pub fn from_index(index: u8) -> (square: Option<Square>)
        ensures
            square == (if index < 64 {
                Some(Square { index })
            } else {
                None
            }),
    {
        if index < 64 {
            Some(Square { index })
        } else {
            None
        }
    }

    /// The square on the given file (0 for a, 7 for h) and rank (0 for the
    /// first, 7 for the eighth), if both are on the board.
    pub fn from_coords(file: u8, rank: u8) -> (square: Option<Square>)
        ensures
            square == (if file < 8 && rank < 8 {
                Some(Square { index: (rank * 8 + file) as u8 })
            } else {
                None
            }),
            square matches Some(s) ==> s.on_board(),
    {
        if file < 8 && rank < 8 {
            Some(Square { index: rank * 8 + file })
        } else {
            None
        }
    }

    /// The square's file, 0 for a to 7 for h.
    pub fn file(&self) -> (file: u8)
        ensures
            file == self.index % 8,
    {
        self.index % 8
    }

    /// The square's rank, 0 for the first to 7 for the eighth where the
    /// square is on the board.
    pub fn rank(&self) -> (rank: u8)
        ensures
            rank == self.index / 8,
    {
        self.index / 8
    }
}

/// A move of a game: where it starts, where it ends, and what a pawn
/// becomes where it promotes. Castling is the king's move onto its rook's
/// square. `from` is absent only for a drop, which no standard game has.
#[derive(Clone, Copy, Debug, PartialEq, Eq, Structural)]
pub struct Move {
    pub from: Option<Square>,
    pub to: Square,
    pub promotion: Option<Role>,
}

impl Move {
    pub fn from(&self) -> (square: Option<Square>)
        ensures
            square == self.from,
    {
        self.from
    }

    pub fn to(&self) -> (square: Square)
        ensures
            square == self.to,
    {
        self.to
    }

    pub fn promotion(&self) -> (role: Option<Role>)
        ensures
            role == self.promotion,
    {
        self.promotion
    }

    pub fn is_promotion(&self) -> (yes: bool)
        ensures
            yes == self.promotion is Some,
    {
        self.promotion.is_some()
    }
}

/// A move as it travels on the wire: origin and destination, with a piece
/// letter behind them where a pawn promotes.
#[derive(Clone, Copy, Debug, PartialEq, Eq, Structural)]
pub enum Uci {
    /// Such as `e2e4` or `h2h1q`.
    Normal { from: Square, to: Square, promotion: Option<Role> },
    /// A drop, such as `Q@f7`.
    Put { role: Role, to: Square },
    /// The null move, `0000`.
    Null,
}

} // verus!
