//! One game between a player and the engine.

use crate::engine::{
    Command, Engine, EngineError, EngineSetup, Reply, Request, Search, SearchStep, SetupStep,
};
use crate::position::Position;
use crate::resolver::{find_with_auto_promotion, resolved};
use crate::rules::{
    fullmove_number, game_outcome, game_over, halfmove_clock, parsed_uci, read_uci,
};
use crate::settings::{COLOR, DIFFICULTY};
use vstd::prelude::*;

verus! {

/// Milliseconds that a new engine is left alone before it is asked for the
/// opening move.
pub const OPENING_PAUSE_MILLIS: u64 = 300;

/// Half-moves without capture or pawn move after which a game counts as
/// over.
pub const HALFMOVE_LIMIT: u32 = 100;

/// A game in progress: the position, the engine that answers in it, and who
/// plays.
#[derive(Debug, PartialEq, Eq)]
pub struct Game {
    pub board: Position,
    pub engine: Engine,
    pub difficulty: DIFFICULTY,
    pub username: String,
    /// The letter of the player's side.
    pub user_color: char,
}

/// How far the creation of a game has come.
#[derive(Debug, PartialEq, Eq)]
pub enum GameStage {
    /// The engine is being created.
    Creating(EngineSetup),
    /// The player has Black: the engine is left alone for a moment.
    Pausing(Engine),
    /// The player has Black: the engine searches its opening move.
    Opening(Engine, Search),
}

/// The creation of a game, in progress.
#[derive(Debug, PartialEq, Eq)]
pub struct GameSetup {
    pub user_color: COLOR,
    pub difficulty: DIFFICULTY,
    pub username: String,
    pub stage: GameStage,
}

/// The next step of a game's creation.
#[derive(Debug, PartialEq, Eq)]
pub enum GameSetupStep {
    /// Carry out the request and report back to the setup given here.
    Ask(GameSetup, Request),
    /// The game is ready to be played.
    Ready(Game),
    /// No game could be created; the host releases the subprocess if it had
    /// started one.
    Failed(EngineError),
}

impl GameSetup {
    /// Whether `game` is what this setup hands out once its engine is ready
    /// and the position is `fen`.
    pub open spec fn yields(self, game: Game, engine: Engine, fen: Seq<char>) -> bool {
        &&& game.board@ == fen
        &&& game.engine == engine
        &&& game.difficulty == self.difficulty
        &&& game.username == self.username
        &&& game.user_color == self.user_color.code()
    }

    /// Whether `step` is what comes after the outcome of the last request.
    ///
    /// The engine is created first. With White the player then finds the
    /// initial position. With Black the engine is left alone for
    /// `OPENING_PAUSE_MILLIS`, searches the initial position, and its move
    /// is played. Whatever fails on the way, no game is created and the
    /// engine counts as unavailable.
    pub open spec fn leads_to(self, reply: Reply, step: GameSetupStep) -> bool {
        match self.stage {
            GameStage::Creating(setup) => match setup.next(reply) {
                SetupStep::Ask(next, request) => step == GameSetupStep::Ask(
                    GameSetup { stage: GameStage::Creating(next), ..self },
                    request,
                ),
                SetupStep::Ready(engine) => if self.user_color == COLOR::BLACK {
                    step == GameSetupStep::Ask(
                        GameSetup { stage: GameStage::Pausing(engine), ..self },
                        Request::Settle(OPENING_PAUSE_MILLIS),
                    )
                } else {
                    step matches GameSetupStep::Ready(game) && self.yields(
                        game,
                        engine,
                        Position::initial(),
                    )
                },
                SetupStep::Failed(_) => step == GameSetupStep::Failed(
                    EngineError::EngineUnavailable,
                ),
            },
            GameStage::Pausing(engine) => {
                &&& step matches GameSetupStep::Ask(next, Request::Write(Command::Position(sent)))
                &&& sent@ == Position::initial()
                &&& next.user_color == self.user_color
                &&& next.difficulty == self.difficulty
                &&& next.username == self.username
                &&& next.stage matches GameStage::Opening(kept, search)
                &&& kept == engine
                &&& search == engine.begins(sent)
            },
            GameStage::Opening(engine, search) => match search.next(reply) {
                SearchStep::Ask(next, request) => step == GameSetupStep::Ask(
                    GameSetup { stage: GameStage::Opening(engine, next), ..self },
                    request,
                ),
                SearchStep::Done(Ok(m)) => match Position::reached(search.board@, m) {
                    Some(fen) => step matches GameSetupStep::Ready(game) && self.yields(
                        game,
                        engine,
                        fen,
                    ),
                    None => step == GameSetupStep::Failed(EngineError::EngineUnavailable),
                },
                SearchStep::Done(Err(_)) => step == GameSetupStep::Failed(
                    EngineError::EngineUnavailable,
                ),
            },
        }
    }

    /// Takes the outcome of the last request and says what comes next.
    pub fn advance(self, reply: &Reply) -> (step: GameSetupStep)
        ensures
            self.leads_to(*reply, step),
    {
        let GameSetup { user_color, difficulty, username, stage } = self;
        match stage {
            GameStage::Creating(setup) => match setup.advance(reply) {
                SetupStep::Ask(next, request) => GameSetupStep::Ask(
                    GameSetup { user_color, difficulty, username, stage: GameStage::Creating(next) },
                    request,
                ),
                SetupStep::Ready(engine) => match user_color {
                    COLOR::BLACK => GameSetupStep::Ask(
                        GameSetup {
                            user_color,
                            difficulty,
                            username,
                            stage: GameStage::Pausing(engine),
                        },
                        Request::Settle(OPENING_PAUSE_MILLIS),
                    ),
                    COLOR::WHITE => GameSetupStep::Ready(
                        Game {
                            board: Position::new(),
                            engine,
                            difficulty,
                            username,
                            user_color: user_color.parse_code(),
                        },
                    ),
                },
                SetupStep::Failed(_) => GameSetupStep::Failed(EngineError::EngineUnavailable),
            },
            GameStage::Pausing(engine) => {
                let board = Position::new();
                let (search, request) = engine.gen_next_move(&board);
                GameSetupStep::Ask(
                    GameSetup {
                        user_color,
                        difficulty,
                        username,
                        stage: GameStage::Opening(engine, search),
                    },
                    request,
                )
            },
            GameStage::Opening(engine, search) => {
                let mut board = search.board.clone();
                match search.advance(reply) {
                    SearchStep::Ask(next, request) => GameSetupStep::Ask(
                        GameSetup {
                            user_color,
                            difficulty,
                            username,
                            stage: GameStage::Opening(engine, next),
                        },
                        request,
                    ),
                    SearchStep::Done(Ok(m)) => {
                        if board.play(&m) {
                            GameSetupStep::Ready(
                                Game {
                                    board,
                                    engine,
                                    difficulty,
                                    username,
                                    user_color: user_color.parse_code(),
                                },
                            )
                        } else {
                            GameSetupStep::Failed(EngineError::EngineUnavailable)
                        }
                    },
                    SearchStep::Done(Err(_)) => GameSetupStep::Failed(
                        EngineError::EngineUnavailable,
                    ),
                }
            },
        }
    }
}

/// How a turn ended.
#[derive(Debug, PartialEq, Eq)]
pub enum TurnOutcome {
    /// The player's move and the engine's reply were played: the position
    /// that the player finds.
    Played(String),
    /// What the player sent is no wire move: the position, which is
    /// unchanged.
    Unreadable(String),
    /// The player's move is no legal move of the position, nor the short
    /// form of a legal promotion: the position, which is unchanged.
    Rejected(String),
    /// The engine did not yield a move. The player's move stays played.
    EngineFailed(EngineError),
}

/// A turn whose player's move is played and whose reply the engine searches.
#[derive(Debug, PartialEq, Eq)]
pub struct Turn {
    pub search: Search,
}

/// The next step of a turn.
#[derive(Debug, PartialEq, Eq)]
pub enum TurnStep {
    /// Carry out the request and report back to the turn given here.
    Ask(Turn, Request),
    /// The turn is over.
    Done(TurnOutcome),
}

/// How a game stands.
#[derive(Clone, Copy, Debug, PartialEq, Eq, Structural)]
pub enum Standing {
    /// The game goes on.
    Running,
    /// The game is over. `winner` is absent for a draw; `moves` is the
    /// number of the move that would come next.
    Over { winner: Option<COLOR>, player_won: bool, moves: u32 },
    /// The position counts as finished and the rules name no result.
    Contradictory,
}

impl Game {
    /// Whether two games differ in nothing but, perhaps, the position.
    pub open spec fn same_players(self, other: Game) -> bool {
        &&& self.engine == other.engine
        &&& self.difficulty == other.difficulty
        &&& self.username == other.username
        &&& self.user_color == other.user_color
    }

    /// Whether `after` and `step` are what a move sent by the player makes
    /// of the game `self`.
    ///
    /// The text is read as a wire move and resolved in the position. Where
    /// either fails, or the rules engine refuses the move, the game is
    /// unchanged and the turn is over. Otherwise the move is played and the
    /// engine begins to search the new position.
    pub open spec fn begins_turn(self, mov: Seq<char>, after: Game, step: TurnStep) -> bool {
        &&& self.same_players(after)
        &&& match parsed_uci(mov) {
            None => {
                &&& after.board@ == self.board@
                &&& step matches TurnStep::Done(TurnOutcome::Unreadable(fen))
                &&& fen@ == self.board@
            },
            Some(uci) => match Game::player_move(uci, self.board@) {
                None => {
                    &&& after.board@ == self.board@
                    &&& step matches TurnStep::Done(TurnOutcome::Rejected(fen))
                    &&& fen@ == self.board@
                },
                Some(next) => {
                    &&& after.board@ == next
                    &&& step matches TurnStep::Ask(
                        turn,
                        Request::Write(Command::Position(sent)),
                    )
                    &&& sent@ == next
                    &&& turn.search == self.engine.begins(sent)
                },
            },
        }
    }

    /// The position after the player's wire move, where it resolves to a
    /// move that the rules engine plays.
    pub open spec fn player_move(uci: crate::board::Uci, fen: Seq<char>) -> Option<Seq<char>> {
        match resolved(uci, fen) {
            None => None,
            Some(m) => Position::reached(fen, m),
        }
    }

    /// Takes a move from the player and begins the turn.
    pub fn post_move(&mut self, mov: &str) -> (step: TurnStep)
        ensures
            old(self).begins_turn(mov@, *final(self), step),
    {
        let uci = match read_uci(mov) {
            None => {
                return TurnStep::Done(TurnOutcome::Unreadable(self.board.to_fen()));
            },
            Some(uci) => uci,
        };
        let m = match find_with_auto_promotion(&uci, &self.board) {
            None => {
                return TurnStep::Done(TurnOutcome::Rejected(self.board.to_fen()));
            },
            Some(m) => m,
        };
        if !self.board.play(&m) {
            return TurnStep::Done(TurnOutcome::Rejected(self.board.to_fen()));
        }
        let (search, request) = self.engine.gen_next_move(&self.board);
        TurnStep::Ask(Turn { search }, request)
    }

    /// How the game stands, given what the rules engine says of its
    /// position.
    ///
    /// A game is finished where the rules end it or where `HALFMOVE_LIMIT`
    /// half-moves have passed without capture or pawn move. The player has
    /// won where the winner's letter is the player's.
    pub open spec fn standing_of(
        user_color: char,
        over: Option<bool>,
        halfmoves: Option<u32>,
        outcome: Option<Option<COLOR>>,
        fullmoves: Option<u32>,
    ) -> Standing {
        if over == Some(true) || (halfmoves matches Some(n) && n >= HALFMOVE_LIMIT) {
            match (outcome, fullmoves) {
                (Some(winner), Some(moves)) => Standing::Over {
                    winner,
                    player_won: winner matches Some(side) && side.code() == user_color,
                    moves,
                },
                _ => Standing::Contradictory,
            }
        } else {
            Standing::Running
        }
    }

    /// Decides how a game stands from the rules engine's answers.
    pub fn judge(
        user_color: char,
        over: Option<bool>,
        halfmoves: Option<u32>,
        outcome: Option<Option<COLOR>>,
        fullmoves: Option<u32>,
    ) -> (standing: Standing)
        ensures
            standing == Game::standing_of(user_color, over, halfmoves, outcome, fullmoves),
    {
        let finished = match over {
            Some(true) => true,
            _ => match halfmoves {
                Some(n) => n >= HALFMOVE_LIMIT,
                None => false,
            },
        };
        if finished {
            match (outcome, fullmoves) {
                (Some(winner), Some(moves)) => {
                    let player_won = match winner {
                        Some(side) => side.parse_code() == user_color,
                        None => false,
                    };
                    Standing::Over { winner, player_won, moves }
                },
                _ => Standing::Contradictory,
            }
        } else {
            Standing::Running
        }
    }

    /// How the game stands.
    pub fn standing(&self) -> (standing: Standing)
        ensures
            standing == Game::standing_of(
                self.user_color,
                game_over(self.board@),
                halfmove_clock(self.board@),
                game_outcome(self.board@),
                fullmove_number(self.board@),
            ),
    {
        Game::judge(
            self.user_color,
            self.board.is_game_over(),
            self.board.halfmoves(),
            self.board.outcome(),
            self.board.fullmoves(),
        )
    }

    /// Begins the creation of a game: the engine for the chosen difficulty
    /// comes first.
    pub fn new(user_color: COLOR, difficulty: DIFFICULTY, username: String) -> (begin: (
        GameSetup,
        Request,
    ))
        ensures
            begin.0 == (GameSetup {
                user_color,
                difficulty,
                username,
                stage: GameStage::Creating(
                    EngineSetup {
                        depth: difficulty.depth(),
                        elo: difficulty.elo(),
                        stage: crate::engine::SetupStage::Spawning,
                    },
                ),
            }),
            begin.1 == Request::Spawn,
    {
        let (setup, request) = Engine::new(difficulty.parse_depth(), difficulty.parse_elo());
        (GameSetup { user_color, difficulty, username, stage: GameStage::Creating(setup) }, request)
    }
}

impl Turn {
    /// Whether `after` and `step` are what the outcome of the last request
    /// makes of the turn and of the game `before`.
    ///
    /// The search goes on to its end. Its move is played in the position
    /// that was searched, and the game takes that position. Where the
    /// search fails the game is unchanged; where the rules engine refuses
    /// the move, likewise, and the move counts as unresolved.
    pub open spec fn leads_to(self, reply: Reply, before: Game, after: Game, step: TurnStep) -> bool {
        &&& before.same_players(after)
        &&& match self.search.next(reply) {
            SearchStep::Ask(next, request) => {
                &&& after.board@ == before.board@
                &&& step == TurnStep::Ask(Turn { search: next }, request)
            },
            SearchStep::Done(Ok(m)) => match Position::reached(self.search.board@, m) {
                Some(next) => {
                    &&& after.board@ == next
                    &&& step matches TurnStep::Done(TurnOutcome::Played(fen))
                    &&& fen@ == next
                },
                None => {
                    &&& after.board@ == before.board@
                    &&& step == TurnStep::Done(
                        TurnOutcome::EngineFailed(EngineError::NoLegalResolution),
                    )
                },
            },
            SearchStep::Done(Err(e)) => {
                &&& after.board@ == before.board@
                &&& step == TurnStep::Done(TurnOutcome::EngineFailed(e))
            },
        }
    }

    /// Takes the outcome of the last request and says what comes next.
    pub fn advance(self, game: &mut Game, reply: &Reply) -> (step: TurnStep)
        ensures
            self.leads_to(*reply, *old(game), *final(game), step),
    {
        let mut board = self.search.board.clone();
        match self.search.advance(reply) {
            SearchStep::Ask(next, request) => TurnStep::Ask(Turn { search: next }, request),
            SearchStep::Done(Ok(m)) => {
                if board.play(&m) {
                    let fen = board.to_fen();
                    game.board = board;
                    TurnStep::Done(TurnOutcome::Played(fen))
                } else {
                    TurnStep::Done(TurnOutcome::EngineFailed(EngineError::NoLegalResolution))
                }
            },
            SearchStep::Done(Err(e)) => TurnStep::Done(TurnOutcome::EngineFailed(e)),
        }
    }
}

} // verus!
