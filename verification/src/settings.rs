//! What a player chooses when a game starts: the engine's strength and the
//! side to play.

use rand::seq::SliceRandom;
use vstd::prelude::*;

verus! {

/// How strong the engine plays.
#[allow(non_camel_case_types)]
#[derive(Clone, Copy, Debug, PartialEq, Eq, Structural)]
pub enum DIFFICULTY {
    EASY,
    MEDIUM,
    HARD,
}

impl DIFFICULTY {
    /// Search depth, in plies, that the engine is asked for.
    pub open spec fn depth(self) -> u32 {
        match self {
            DIFFICULTY::EASY => 1,
            DIFFICULTY::MEDIUM => 3,
            DIFFICULTY::HARD => 10,
        }
    }

    /// Rating that the engine's strength is limited to.
    pub open spec fn elo(self) -> u16 {
        match self {
            DIFFICULTY::EASY => 400,
            DIFFICULTY::MEDIUM => 900,
            DIFFICULTY::HARD => 3500,
        }
    }

    /// The level that a submitted number stands for, if any.
    pub open spec fn of_level(level: i16) -> Option<DIFFICULTY> {
        if level == 1 {
            Some(DIFFICULTY::EASY)
        } else if level == 2 {
            Some(DIFFICULTY::MEDIUM)
        } else if level == 3 {
            Some(DIFFICULTY::HARD)
        } else {
            None
        }
    }

    pub fn parse_depth(&self) -> (depth: u32)
        ensures
            depth == self.depth(),
    {
        match self {
            DIFFICULTY::EASY => 1,
            DIFFICULTY::MEDIUM => 3,
            DIFFICULTY::HARD => 10,
        }
    }

    pub fn parse_elo(&self) -> (elo: u16)
        ensures
            elo == self.elo(),
    {
        match self {
            DIFFICULTY::EASY => 400,
            DIFFICULTY::MEDIUM => 900,
            DIFFICULTY::HARD => 3500,
        }
    }

    /// Levels are numbered 1 (easy) to 3 (hard); every other number is refused.
    pub fn new(level: i16) -> (difficulty: Option<DIFFICULTY>)
        ensures
            difficulty == DIFFICULTY::of_level(level),
    {
        match level {
            1 => Some(DIFFICULTY::EASY),
            2 => Some(DIFFICULTY::MEDIUM),
            3 => Some(DIFFICULTY::HARD),
            _ => None,
        }
    }

    /// The score of a won game: the number of moves, weighted by the search
    /// depth. A lower score is the better one.
    pub fn score(&self, moves: u32) -> (points: u64)
        ensures
            points == moves * self.depth(),
    {
        let depth = self.parse_depth() as u64;
        assert(moves * depth <= 0xffff_ffff * 10) by (nonlinear_arith)
            requires
                moves <= 0xffff_ffff,
                depth <= 10,
        ;
        moves as u64 * depth
    }

    /// The name under which the engine appears to the player.
    pub fn parse_player_name(&self) -> (name: &'static str)
        ensures
            name@ == match *self {
                DIFFICULTY::EASY => "Martin"@,
                DIFFICULTY::MEDIUM => "Maggus Reischl"@,
                DIFFICULTY::HARD => "Maggus Carlsen"@,
            },
    {
        match self {
            DIFFICULTY::EASY => "Martin",
            DIFFICULTY::MEDIUM => "Maggus Reischl",
            DIFFICULTY::HARD => "Maggus Carlsen",
        }
    }
}

/// The side a player takes.
#[allow(non_camel_case_types)]
#[derive(Clone, Copy, Debug, PartialEq, Eq, Structural)]
pub enum COLOR {
    BLACK,
    WHITE,
}

impl COLOR {
    /// The letter of a side.
    pub open spec fn code(self) -> char {
        match self {
            COLOR::BLACK => 'b',
            COLOR::WHITE => 'w',
        }
    }

    /// The side that a character fixes: `b` is black and `w` is white.
    pub open spec fn fixed(character: char) -> Option<COLOR> {
        if character == 'b' {
            Some(COLOR::BLACK)
        } else if character == 'w' {
            Some(COLOR::WHITE)
        } else {
            None
        }
    }

    /// Whether `color` is a reading of `character`: `r` allows either side,
    /// and every other character only what it fixes.
    pub open spec fn allows(character: char, color: Option<COLOR>) -> bool {
        if character == 'r' {
            color is Some
        } else {
            color == COLOR::fixed(character)
        }
    }

    /// Reads a player's choice of side: `b` is black, `w` is white, `r` asks
    /// for either at random, and every other character is refused.
    pub fn new(character: char) -> (color: Option<COLOR>)
        ensures
            COLOR::allows(character, color),
    {
        match character {
            'b' => Some(COLOR::BLACK),
            'w' => Some(COLOR::WHITE),
            'r' => {
                let choices = [COLOR::BLACK, COLOR::WHITE];
                pick_side(&choices)
            },
            _ => None,
        }
    }

    pub fn parse_code(&self) -> (code: char)
        ensures
            code == self.code(),
    {
        match self {
            COLOR::BLACK => 'b',
            COLOR::WHITE => 'w',
        }
    }
}

/// `rand::seq::SliceRandom::choose` with the thread's generator: one of the
/// two sides, whichever the generator picks.
#[verifier::external_body]
fn pick_side(choices: &[COLOR; 2]) -> (pick: Option<COLOR>)
    ensures
        pick == Some(choices[0]) || pick == Some(choices[1]),
{
    choices.choose(&mut rand::thread_rng()).copied()
}

/// What a player submits to start a game.
#[derive(Clone, Debug, PartialEq, Eq)]
pub struct GameSettings {
    /// Present where the player asks to replace a game that is running.
    pub new_session: Option<bool>,
    pub username: String,
    pub difficulty: i16,
    pub color: char,
}

/// Why no game is started.
#[derive(Clone, Copy, Debug, PartialEq, Eq, Structural)]
pub enum StartError {
    /// The client has a game running and did not ask for a new one.
    SessionRunning,
    /// The submitted side is none of `b`, `w` and `r`.
    InvalidColor,
    /// The submitted level is none of 1, 2 and 3.
    InvalidDifficulty,
}

/// What is to happen on a request to start a game.
#[derive(Clone, Copy, Debug, PartialEq, Eq)]
pub struct Start {
    /// Whether the client's running session is to be closed first.
    pub close_session: bool,
    /// The side and level to play, or why no game starts.
    pub choice: Result<(COLOR, DIFFICULTY), StartError>,
}

impl GameSettings {
    /// Decides on a request to start a game, given whether the client has a
    /// session and which side was picked for the submitted character.
    ///
    /// A running session is kept, and the request refused, unless a new one
    /// was asked for; then it is closed, whatever follows. The side is
    /// looked at before the level.
    pub open spec fn decision(self, has_session: bool, color: Option<COLOR>) -> Start {
        if has_session && self.new_session is None {
            Start { close_session: false, choice: Err(StartError::SessionRunning) }
        } else {
            Start {
                close_session: has_session,
                choice: match color {
                    None => Err(StartError::InvalidColor),
                    Some(side) => match DIFFICULTY::of_level(self.difficulty) {
                        None => Err(StartError::InvalidDifficulty),
                        Some(level) => Ok((side, level)),
                    },
                },
            }
        }
    }

    /// Decides on a request to start a game from the side already picked.
    pub fn decide(&self, has_session: bool, color: Option<COLOR>) -> (start: Start)
        ensures
            start == self.decision(has_session, color),
    {
        if has_session && self.new_session.is_none() {
            return Start { close_session: false, choice: Err(StartError::SessionRunning) };
        }
        let choice = match color {
            None => Err(StartError::InvalidColor),
            Some(side) => match DIFFICULTY::new(self.difficulty) {
                None => Err(StartError::InvalidDifficulty),
                Some(level) => Ok((side, level)),
            },
        };
        Start { close_session: has_session, choice }
    }

    /// Decides on a request to start a game. The side is picked at random
    /// only where the request gets that far and asks for it.
    pub fn start(&self, has_session: bool) -> (start: Start)
        ensures
            exists|color: Option<COLOR>|
                COLOR::allows(self.color, color) && start == #[trigger] self.decision(
                    has_session,
                    color,
                ),
    {
        if has_session && self.new_session.is_none() {
            let ghost any = if self.color == 'r' {
                Some(COLOR::BLACK)
            } else {
                COLOR::fixed(self.color)
            };
            assert(COLOR::allows(self.color, any));
            assert(self.decision(has_session, any) == self.decision(has_session, None));
            return self.decide(has_session, None);
        }
        let color = COLOR::new(self.color);
        self.decide(has_session, color)
    }
}

} // verus!
