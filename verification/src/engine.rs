//! The conversation with the engine subprocess.
//!
//! The engine is a separate process that speaks a line protocol on its
//! standard streams. This module decides what is said to it and what its
//! answers mean; it performs no input or output. A conversation hands its
//! host one `Request` at a time, and the host reports the outcome as a
//! `Reply`: the subprocess is started, a line is written, a delay has passed,
//! an announcement has arrived or has not.
//!
//! Only one conversation may run on a subprocess at a time: the host holds
//! the game's guard for as long as a conversation lasts.

use crate::board::{Move, Uci};
use crate::position::Position;
use crate::protocol::{
    depth_command, depth_line, elo_command, elo_line, limit_strength_command, limit_strength_line,
    position_command, position_line,
};
use crate::resolver::{find_with_auto_promotion, resolved};
use crate::rules::{parsed_uci, read_uci};
use vstd::prelude::*;

verus! {

/// Why the engine could not be created or did not yield a move.
#[derive(Clone, Copy, Debug, PartialEq, Eq, Structural)]
pub enum EngineError {
    /// The subprocess could not be started or configured.
    EngineUnavailable,
    /// A line could not be written to the subprocess.
    ProtocolWriteError,
    /// No announcement came: the channel is closed or stayed empty.
    ProtocolReadError,
    /// The engine announced something that is no wire move.
    MoveParseError,
    /// The announced move is no legal move of the position, nor the short
    /// form of a legal promotion.
    NoLegalResolution,
}

/// A line for the engine.
#[derive(Debug, PartialEq, Eq)]
pub enum Command {
    /// Limit your strength.
    LimitStrength,
    /// Play at the strength of this rating.
    Elo(u16),
    /// Take this position.
    Position(Position),
    /// Search to this depth and announce the best move.
    Depth(u32),
}

impl Command {
    /// The text of the line, newline included.
    pub open spec fn text(self) -> Seq<char> {
        match self {
            Command::LimitStrength => limit_strength_line(),
            Command::Elo(elo) => elo_line(elo),
            Command::Position(board) => position_line(board@),
            Command::Depth(depth) => depth_line(depth),
        }
    }

    /// Writes the line out.
    pub fn line(&self) -> (line: String)
        ensures
            line@ == self.text(),
    {
        match self {
            Command::LimitStrength => limit_strength_command(),
            Command::Elo(elo) => elo_command(*elo),
            Command::Position(board) => position_command(board.as_str()),
            Command::Depth(depth) => depth_command(*depth),
        }
    }
}

/// What a conversation asks of its host.
#[derive(Debug, PartialEq, Eq)]
pub enum Request {
    /// Start the subprocess and the task that reads its output.
    Spawn,
    /// Write this line to the subprocess's input.
    Write(Command),
    /// Let this many milliseconds pass.
    Settle(u64),
    /// Take the next announcement from the reader's channel, and wait for
    /// it no longer than this many milliseconds.
    Receive(u64),
}

/// What the host reports of the last request.
#[derive(Debug, PartialEq, Eq)]
pub enum Reply {
    /// It was carried out.
    Done,
    /// It could not be carried out; for `Receive`, also: the channel is
    /// closed, or nothing arrived in the time the host allows.
    Failed,
    /// The announcement that was received.
    Line(String),
}

/// Milliseconds that the engine is given to think before its announcement is
/// awaited.
pub const SETTLE_MILLIS: u64 = 250;

/// Milliseconds that an announcement is waited for. An engine that stays
/// silent for so long counts as gone, and the search ends; the subprocess is
/// left running.
pub const RECEIVE_MILLIS: u64 = 30_000;

/// A created engine adapter: the search depth it was configured with. The
/// host keeps the subprocess beside it.
#[derive(Clone, Copy, Debug, PartialEq, Eq, Structural)]
pub struct Engine {
    pub depth: u32,
}

/// How far the creation of an engine has come.
#[derive(Clone, Copy, Debug, PartialEq, Eq, Structural)]
pub enum SetupStage {
    /// The subprocess is being started.
    Spawning,
    /// The line that limits the strength is being written.
    LimitingStrength,
    /// The line that sets the rating is being written.
    SettingElo,
}

/// The creation of an engine, in progress.
#[derive(Clone, Copy, Debug, PartialEq, Eq, Structural)]
pub struct EngineSetup {
    pub depth: u32,
    pub elo: u16,
    pub stage: SetupStage,
}

/// The next step of an engine's creation.
#[derive(Debug, PartialEq, Eq)]
pub enum SetupStep {
    /// Carry out the request and report back to the setup given here.
    Ask(EngineSetup, Request),
    /// The engine is ready.
    Ready(Engine),
    /// The engine could not be created; the host releases the subprocess if
    /// it had started one.
    Failed(EngineError),
}

/// How far a search has come.
#[derive(Clone, Copy, Debug, PartialEq, Eq, Structural)]
pub enum SearchStage {
    /// The position line is being written.
    SendingPosition,
    /// The depth line is being written.
    SendingDepth,
    /// The engine is given time to think.
    Settling,
    /// The announcement is awaited.
    Receiving,
}

/// One request for the engine's next move, in progress.
#[derive(Debug, PartialEq, Eq)]
pub struct Search {
    pub depth: u32,
    pub board: Position,
    pub stage: SearchStage,
}

/// The next step of a search.
#[derive(Debug, PartialEq, Eq)]
pub enum SearchStep {
    /// Carry out the request and report back to the search given here.
    Ask(Search, Request),
    /// The search is over: the engine's move, or why there is none.
    Done(Result<Move, EngineError>),
}

/// What an announcement means in a position, given what the rules engine
/// reads from it.
pub open spec fn answer(uci: Option<Uci>, fen: Seq<char>) -> Result<Move, EngineError> {
    match uci {
        None => Err(EngineError::MoveParseError),
        Some(uci) => match resolved(uci, fen) {
            None => Err(EngineError::NoLegalResolution),
            Some(m) => Ok(m),
        },
    }
}

impl Engine {
    /// Begins the creation of an engine that searches to `depth` and plays at
    /// the strength of rating `elo`: the subprocess is started first.
    pub fn new(depth: u32, elo: u16) -> (begin: (EngineSetup, Request))
        ensures
            begin == (EngineSetup { depth, elo, stage: SetupStage::Spawning }, Request::Spawn),
    {
        (EngineSetup { depth, elo, stage: SetupStage::Spawning }, Request::Spawn)
    }

    /// The search that this engine begins in `board`.
    pub open spec fn begins(self, board: Position) -> Search {
        Search { depth: self.depth, board, stage: SearchStage::SendingPosition }
    }

    /// Begins a search for the engine's move in `board`: the position line is
    /// written first.
    pub fn gen_next_move(&self, board: &Position) -> (begin: (Search, Request))
        ensures
            begin == (self.begins(*board), Request::Write(Command::Position(*board))),
    {
        (
            Search { depth: self.depth, board: board.clone(), stage: SearchStage::SendingPosition },
            Request::Write(Command::Position(board.clone())),
        )
    }

    /// What a wire move read from an announcement means in `board`: the
    /// announcement was no wire move where `uci` is `None`.
    pub fn answer_with(uci: Option<Uci>, board: &Position) -> (outcome: Result<Move, EngineError>)
        ensures
            outcome == answer(uci, board@),
    {
        match uci {
            None => Err(EngineError::MoveParseError),
            Some(uci) => match find_with_auto_promotion(&uci, board) {
                None => Err(EngineError::NoLegalResolution),
                Some(m) => Ok(m),
            },
        }
    }

    /// Reads an announced move and resolves it in `board`.
    pub fn interpret(token: &str, board: &Position) -> (outcome: Result<Move, EngineError>)
        ensures
            outcome == answer(parsed_uci(token@), board@),
    {
        Engine::answer_with(read_uci(token), board)
    }
}

impl EngineSetup {
    /// What comes after the outcome of the last request.
    ///
    /// The subprocess is started, then told to limit its strength, then told
    /// the rating. The engine is ready when all three are done, and
    /// unavailable as soon as one is not.
    pub open spec fn next(self, reply: Reply) -> SetupStep {
        if !(reply is Done) {
            SetupStep::Failed(EngineError::EngineUnavailable)
        } else {
            match self.stage {
                SetupStage::Spawning => SetupStep::Ask(
                    EngineSetup { stage: SetupStage::LimitingStrength, ..self },
                    Request::Write(Command::LimitStrength),
                ),
                SetupStage::LimitingStrength => SetupStep::Ask(
                    EngineSetup { stage: SetupStage::SettingElo, ..self },
                    Request::Write(Command::Elo(self.elo)),
                ),
                SetupStage::SettingElo => SetupStep::Ready(Engine { depth: self.depth }),
            }
        }
    }

    /// Takes the outcome of the last request and says what comes next.
    pub fn advance(self, reply: &Reply) -> (step: SetupStep)
        ensures
            step == self.next(*reply),
    {
        match reply {
            Reply::Done => match self.stage {
                SetupStage::Spawning => SetupStep::Ask(
                    EngineSetup { stage: SetupStage::LimitingStrength, ..self },
                    Request::Write(Command::LimitStrength),
                ),
                SetupStage::LimitingStrength => SetupStep::Ask(
                    EngineSetup { stage: SetupStage::SettingElo, ..self },
                    Request::Write(Command::Elo(self.elo)),
                ),
                SetupStage::SettingElo => SetupStep::Ready(Engine { depth: self.depth }),
            },
            _ => SetupStep::Failed(EngineError::EngineUnavailable),
        }
    }
}

impl Search {
    /// What comes after the outcome of the last request.
    ///
    /// The position line and the depth line are written; a line that cannot
    /// be written ends the search with `ProtocolWriteError`. Then the engine
    /// is given `SETTLE_MILLIS` to think and its announcement is awaited for
    /// at most `RECEIVE_MILLIS`. Where none comes the search ends with
    /// `ProtocolReadError`; where one comes it is read and resolved in the
    /// position searched.
    pub open spec fn next(self, reply: Reply) -> SearchStep {
        match self.stage {
            SearchStage::SendingPosition => if reply is Done {
                SearchStep::Ask(
                    Search { stage: SearchStage::SendingDepth, ..self },
                    Request::Write(Command::Depth(self.depth)),
                )
            } else {
                SearchStep::Done(Err(EngineError::ProtocolWriteError))
            },
            SearchStage::SendingDepth => if reply is Done {
                SearchStep::Ask(
                    Search { stage: SearchStage::Settling, ..self },
                    Request::Settle(SETTLE_MILLIS),
                )
            } else {
                SearchStep::Done(Err(EngineError::ProtocolWriteError))
            },
            SearchStage::Settling => SearchStep::Ask(
                Search { stage: SearchStage::Receiving, ..self },
                Request::Receive(RECEIVE_MILLIS),
            ),
            SearchStage::Receiving => match reply {
                Reply::Line(token) => SearchStep::Done(answer(parsed_uci(token@), self.board@)),
                _ => SearchStep::Done(Err(EngineError::ProtocolReadError)),
            },
        }
    }

    /// Takes the outcome of the last request and says what comes next.
    pub fn advance(self, reply: &Reply) -> (step: SearchStep)
        ensures
            step == self.next(*reply),
    {
        match self.stage {
            SearchStage::SendingPosition => match reply {
                Reply::Done => SearchStep::Ask(
                    Search { stage: SearchStage::SendingDepth, ..self },
                    Request::Write(Command::Depth(self.depth)),
                ),
                _ => SearchStep::Done(Err(EngineError::ProtocolWriteError)),
            },
            SearchStage::SendingDepth => match reply {
                Reply::Done => SearchStep::Ask(
                    Search { stage: SearchStage::Settling, ..self },
                    Request::Settle(SETTLE_MILLIS),
                ),
                _ => SearchStep::Done(Err(EngineError::ProtocolWriteError)),
            },
            SearchStage::Settling => SearchStep::Ask(
                Search { stage: SearchStage::Receiving, ..self },
                Request::Receive(RECEIVE_MILLIS),
            ),
            SearchStage::Receiving => match reply {
                Reply::Line(token) => SearchStep::Done(
                    Engine::interpret(token.as_str(), &self.board),
                ),
                _ => SearchStep::Done(Err(EngineError::ProtocolReadError)),
            },
        }
    }
}

/// Every line for the engine ends in a newline.
pub proof fn lines_end_in_newline(command: Command)
    ensures
        command.text().len() > 0,
        command.text().last() == '\n',
{
    reveal_strlit("\n");
    reveal_strlit("setoption name UCI_LimitStrength value true\n");
}

/// An engine is created by three requests in this order: start the
/// subprocess, write the line that limits the strength, write the line that
/// sets the rating. When all three are done the engine is ready, with the
/// depth it was asked for.
pub proof fn creation_script(depth: u32, elo: u16)
    ensures
        ({
            let begun = EngineSetup { depth, elo, stage: SetupStage::Spawning };
            let limiting = EngineSetup { depth, elo, stage: SetupStage::LimitingStrength };
            let setting = EngineSetup { depth, elo, stage: SetupStage::SettingElo };
            &&& begun.next(Reply::Done) == SetupStep::Ask(
                limiting,
                Request::Write(Command::LimitStrength),
            )
            &&& limiting.next(Reply::Done) == SetupStep::Ask(
                setting,
                Request::Write(Command::Elo(elo)),
            )
            &&& setting.next(Reply::Done) == SetupStep::Ready(Engine { depth })
        }),
{
}

/// No engine comes of a creation in which anything fails: whatever the
/// stage, a request that was not carried out ends the creation with
/// `EngineUnavailable`.
pub proof fn failed_creation_yields_no_engine(setup: EngineSetup, reply: Reply)
    requires
        !(reply is Done),
    ensures
        setup.next(reply) == SetupStep::Failed(EngineError::EngineUnavailable),
{
}

/// A search in which every request is carried out asks for four things in
/// this order: write the position line, write the depth line, let the engine
/// think, await its announcement.
pub proof fn search_script(engine: Engine, board: Position)
    ensures
        ({
            let sending = engine.begins(board);
            let depth = Search { stage: SearchStage::SendingDepth, ..sending };
            let settling = Search { stage: SearchStage::Settling, ..sending };
            let receiving = Search { stage: SearchStage::Receiving, ..sending };
            &&& sending.next(Reply::Done) == SearchStep::Ask(
                depth,
                Request::Write(Command::Depth(engine.depth)),
            )
            &&& depth.next(Reply::Done) == SearchStep::Ask(settling, Request::Settle(SETTLE_MILLIS))
            &&& settling.next(Reply::Done) == SearchStep::Ask(
                receiving,
                Request::Receive(RECEIVE_MILLIS),
            )
        }),
{
}

/// A search that was begun, whose lines were written and whose delay has
/// passed, ends with `ProtocolReadError` where no announcement comes: it
/// neither waits on nor asks anything more of the host.
pub proof fn silent_engine_is_read_error(search: Search, reply: Reply)
    requires
        search.stage == SearchStage::Receiving,
        !(reply is Line),
    ensures
        search.next(reply) == SearchStep::Done(Err(EngineError::ProtocolReadError)),
{
}

/// Every search asks at most four things of its host: whatever the replies,
/// the fourth step from the beginning is the last.
pub proof fn search_ends(engine: Engine, board: Position, r1: Reply, r2: Reply, r3: Reply, r4: Reply)
    ensures
        ({
            let begun = Search {
                depth: engine.depth,
                board,
                stage: SearchStage::SendingPosition,
            };
            match begun.next(r1) {
                SearchStep::Done(_) => true,
                SearchStep::Ask(s2, _) => match s2.next(r2) {
                    SearchStep::Done(_) => true,
                    SearchStep::Ask(s3, _) => match s3.next(r3) {
                        SearchStep::Done(_) => true,
                        SearchStep::Ask(s4, _) => s4.next(r4) is Done,
                    },
                },
            }
        }),
{
}

} // verus!
