//! A chess position, held as its notation string.

use crate::board::Move;
use crate::rules::{
    canonical_fen, fullmove_number, fullmoves, game_outcome, game_over, halfmove_clock, halfmoves,
    initial_fen, is_game_over, outcome, play_on, position_after, read_fen,
};
use crate::settings::COLOR;
use vstd::prelude::*;

verus! {

/// A position of a standard game: piece placement, side to move, castling and
/// en passant rights, and the two move counters.
///
/// The value is the position's notation string as the rules engine writes
/// it, and two positions are the same where their strings are.
#[derive(Debug, PartialEq, Eq)]
pub struct Position {
    fen: String,
}

impl View for Position {
    type V = Seq<char>;

    closed spec fn view(&self) -> Seq<char> {
        self.fen@
    }
}

impl Position {
    /// The string of the initial position.
    pub open spec fn initial() -> Seq<char> {
        "rnbqkbnr/pppppppp/8/8/8/8/PPPPPPPP/RNBQKBNR w KQkq - 0 1"@
    }

    /// What a notation string reads as: the rules engine's own writing of the
    /// position it denotes, accepted where that writing reads back as itself.
    pub open spec fn read(text: Seq<char>) -> Option<Seq<char>> {
        match canonical_fen(text) {
            Some(fen) => if canonical_fen(fen) == Some(fen) {
                Some(fen)
            } else {
                None
            },
            None => None,
        }
    }

    /// The position that a move leads to, if the rules engine plays it: a
    /// move without origin it never plays.
    pub open spec fn reached(fen: Seq<char>, m: Move) -> Option<Seq<char>> {
        match m.from {
            Some(from) => position_after(fen, from, m.to, m.promotion),
            None => None,
        }
    }

    /// The position after a move: unchanged where the move is not played.
    pub open spec fn after(fen: Seq<char>, m: Move) -> Seq<char> {
        match Position::reached(fen, m) {
            Some(next) => next,
            None => fen,
        }
    }

    /// The initial position of a game.
    pub fn new() -> (position: Position)
        ensures
            position@ == Position::initial(),
    {
        Position { fen: initial_fen() }
    }

    /// Reads a notation string. `None` where it denotes no standard position.
    pub fn from_fen(text: &str) -> (position: Option<Position>)
        ensures
            position is Some == Position::read(text@) is Some,
            position matches Some(p) ==> Position::read(text@) == Some(p@),
    {
        match read_fen(text) {
            None => None,
            Some(fen) => match read_fen(fen.as_str()) {
                None => None,
                Some(again) => if again == fen {
                    Some(Position { fen })
                } else {
                    None
                },
            },
        }
    }

    /// Writes the position as its notation string.
    pub fn to_fen(&self) -> (text: String)
        ensures
            text@ == self@,
    {
        self.fen.clone()
    }

    /// The notation string, borrowed.
    pub fn as_str(&self) -> (text: &str)
        ensures
            text@ == self@,
    {
        self.fen.as_str()
    }

    /// Plays a move where the rules engine finds it legal, and says whether
    /// it did; an illegal move leaves the position as it was.
    pub fn play(&mut self, m: &Move) -> (played: bool)
        ensures
            played == Position::reached(old(self)@, *m) is Some,
            final(self)@ == Position::after(old(self)@, *m),
    {
        let from = match m.from {
            Some(from) => from,
            None => {
                return false;
            },
        };
        match play_on(self.fen.as_str(), from, m.to, m.promotion) {
            Some(next) => {
                self.fen = next;
                true
            },
            None => false,
        }
    }

    /// Whether the rules end the game here: by checkmate, stalemate or want
    /// of material. `None` only where the string is no position.
    pub fn is_game_over(&self) -> (over: Option<bool>)
        ensures
            over == game_over(self@),
    {
        is_game_over(self.fen.as_str())
    }

    /// Half-moves since the last capture or pawn move.
    pub fn halfmoves(&self) -> (count: Option<u32>)
        ensures
            count == halfmove_clock(self@),
    {
        halfmoves(self.fen.as_str())
    }

    /// The number of the move to come; it starts at 1 and grows after each
    /// move of Black.
    pub fn fullmoves(&self) -> (number: Option<u32>)
        ensures
            number == fullmove_number(self@),
    {
        fullmoves(self.fen.as_str())
    }

    /// How the game ended: the winner, or no side for a draw. `None` while
    /// the rules do not end the game.
    pub fn outcome(&self) -> (end: Option<Option<COLOR>>)
        ensures
            end == game_outcome(self@),
    {
        outcome(self.fen.as_str())
    }
}

impl Clone for Position {
    fn clone(&self) -> (copy: Position)
        ensures
            copy == *self,
    {
        Position { fen: self.fen.clone() }
    }
}

/// A position that was read from a string is read again, unchanged, from the
/// string it is written as.
pub proof fn fen_round_trip(text: Seq<char>)
    requires
        Position::read(text) is Some,
    ensures
        Position::read(Position::read(text).unwrap()) == Position::read(text),
{
}

} // verus!
