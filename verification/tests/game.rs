use chess_core::engine::{Command, Engine, EngineError, Reply, Request};
use chess_core::game::{
    Game, GameSetup, GameSetupStep, Standing, TurnOutcome, TurnStep, HALFMOVE_LIMIT,
    OPENING_PAUSE_MILLIS,
};
use chess_core::position::Position;
use chess_core::settings::{COLOR, DIFFICULTY};

const START: &str = "rnbqkbnr/pppppppp/8/8/8/8/PPPPPPPP/RNBQKBNR w KQkq - 0 1";
const AFTER_E4: &str = "rnbqkbnr/pppppppp/8/8/4P3/8/PPPP1PPP/RNBQKBNR b KQkq - 0 1";
const AFTER_E4_E5: &str = "rnbqkbnr/pppp1ppp/8/4p3/4P3/8/PPPP1PPP/RNBQKBNR w KQkq - 0 2";

fn game_at(fen: &str, user_color: char) -> Game {
    Game {
        board: Position::from_fen(fen).unwrap(),
        engine: Engine { depth: 3 },
        difficulty: DIFFICULTY::MEDIUM,
        username: String::from("ann"),
        user_color,
    }
}

fn ask(step: GameSetupStep) -> (GameSetup, Request) {
    match step {
        GameSetupStep::Ask(setup, request) => (setup, request),
        other => panic!("a request was due, not {:?}", other),
    }
}

fn created(color: COLOR, difficulty: DIFFICULTY) -> GameSetupStep {
    let (setup, request) = Game::new(color, difficulty, String::from("ann"));
    assert_eq!(request, Request::Spawn);
    let (setup, request) = ask(setup.advance(&Reply::Done));
    assert_eq!(request, Request::Write(Command::LimitStrength));
    let (setup, request) = ask(setup.advance(&Reply::Done));
    assert_eq!(request, Request::Write(Command::Elo(difficulty.parse_elo())));
    setup.advance(&Reply::Done)
}

fn turn(step: TurnStep, game: &mut Game, replies: Vec<Reply>) -> TurnStep {
    let mut step = step;
    for reply in replies {
        step = match step {
            TurnStep::Ask(turn, _) => turn.advance(game, &reply),
            done => return done,
        };
    }
    step
}

#[test]
fn white_finds_the_initial_position() {
    let GameSetupStep::Ready(game) = created(COLOR::WHITE, DIFFICULTY::HARD) else {
        panic!("the game is due");
    };
    assert_eq!(game.board.to_fen(), START);
    assert_eq!(game.engine, Engine { depth: 10 });
    assert_eq!(game.difficulty, DIFFICULTY::HARD);
    assert_eq!(game.username, "ann");
    assert_eq!(game.user_color, 'w');
}

#[test]
fn black_finds_the_engine_s_opening_move() {
    let (setup, request) = ask(created(COLOR::BLACK, DIFFICULTY::EASY));
    assert_eq!(request, Request::Settle(300));
    assert_eq!(OPENING_PAUSE_MILLIS, 300);
    let (setup, request) = ask(setup.advance(&Reply::Done));
    assert_eq!(request, Request::Write(Command::Position(Position::new())));
    let (setup, request) = ask(setup.advance(&Reply::Done));
    assert_eq!(request, Request::Write(Command::Depth(1)));
    let (setup, request) = ask(setup.advance(&Reply::Done));
    assert_eq!(request, Request::Settle(250));
    let (setup, request) = ask(setup.advance(&Reply::Done));
    assert_eq!(request, Request::Receive(30_000));
    let GameSetupStep::Ready(game) = setup.advance(&Reply::Line(String::from("e2e4"))) else {
        panic!("the game is due");
    };
    assert_eq!(game.board.to_fen(), AFTER_E4);
    assert_eq!(game.engine, Engine { depth: 1 });
    assert_eq!(game.difficulty, DIFFICULTY::EASY);
    assert_eq!(game.user_color, 'b');
}

#[test]
fn no_game_without_an_engine() {
    let (setup, _) = Game::new(COLOR::WHITE, DIFFICULTY::EASY, String::from("ann"));
    assert_eq!(
        setup.advance(&Reply::Failed),
        GameSetupStep::Failed(EngineError::EngineUnavailable)
    );
    let (setup, _) = Game::new(COLOR::BLACK, DIFFICULTY::EASY, String::from("ann"));
    let (setup, _) = ask(setup.advance(&Reply::Done));
    assert_eq!(
        setup.advance(&Reply::Failed),
        GameSetupStep::Failed(EngineError::EngineUnavailable)
    );
}

#[test]
fn no_game_without_an_opening_move() {
    let replies = [
        vec![Reply::Done, Reply::Failed],
        vec![Reply::Done, Reply::Done, Reply::Failed],
        vec![Reply::Done, Reply::Done, Reply::Done, Reply::Done, Reply::Failed],
        vec![Reply::Done, Reply::Done, Reply::Done, Reply::Done, Reply::Line(String::from("zz"))],
        vec![Reply::Done, Reply::Done, Reply::Done, Reply::Done, Reply::Line(String::from("e2e5"))],
    ];
    for script in replies {
        let mut step = created(COLOR::BLACK, DIFFICULTY::MEDIUM);
        for reply in script {
            let (setup, _) = ask(step);
            step = setup.advance(&reply);
        }
        assert_eq!(step, GameSetupStep::Failed(EngineError::EngineUnavailable));
    }
}

#[test]
fn turn_plays_both_moves() {
    let mut game = game_at(START, 'w');
    let step = game.post_move("e2e4");
    assert_eq!(game.board.to_fen(), AFTER_E4);
    let TurnStep::Ask(turn, request) = step else {
        panic!("the position line is due");
    };
    assert_eq!(request, Request::Write(Command::Position(Position::from_fen(AFTER_E4).unwrap())));
    let TurnStep::Ask(turn, request) = turn.advance(&mut game, &Reply::Done) else {
        panic!("the depth line is due");
    };
    assert_eq!(request, Request::Write(Command::Depth(3)));
    let TurnStep::Ask(turn, request) = turn.advance(&mut game, &Reply::Done) else {
        panic!("the delay is due");
    };
    assert_eq!(request, Request::Settle(250));
    let TurnStep::Ask(turn, request) = turn.advance(&mut game, &Reply::Done) else {
        panic!("the announcement is due");
    };
    assert_eq!(request, Request::Receive(30_000));
    assert_eq!(game.board.to_fen(), AFTER_E4);
    let step = turn.advance(&mut game, &Reply::Line(String::from("e7e5")));
    assert_eq!(step, TurnStep::Done(TurnOutcome::Played(String::from(AFTER_E4_E5))));
    assert_eq!(game.board.to_fen(), AFTER_E4_E5);
    assert_eq!(game.username, "ann");
    assert_eq!(game.user_color, 'w');
    assert_eq!(game.engine, Engine { depth: 3 });
}

#[test]
fn unreadable_move_gives_the_position_back() {
    let mut game = game_at(AFTER_E4_E5, 'w');
    for text in ["", "hello", "e2", "e2e4e5"] {
        let step = game.post_move(text);
        assert_eq!(step, TurnStep::Done(TurnOutcome::Unreadable(String::from(AFTER_E4_E5))));
        assert_eq!(game.board.to_fen(), AFTER_E4_E5);
    }
}

#[test]
fn illegal_move_gives_the_position_back() {
    let mut game = game_at(START, 'w');
    for text in ["e2e5", "e7e5", "0000", "e1g1"] {
        let step = game.post_move(text);
        assert_eq!(step, TurnStep::Done(TurnOutcome::Rejected(String::from(START))));
        assert_eq!(game.board.to_fen(), START);
    }
}

#[test]
fn player_promotes_without_naming_the_piece() {
    let mut game = game_at("8/4P3/8/8/8/7k/8/K7 w - - 0 1", 'w');
    let step = game.post_move("e7e8");
    assert!(matches!(step, TurnStep::Ask(_, Request::Write(Command::Position(_)))));
    let fen = game.board.to_fen();
    assert!(fen.ends_with("/8/8/8/8/7k/8/K7 b - - 0 1"));
    assert!(!fen.starts_with("8/4P3"));
}

#[test]
fn engine_failure_keeps_the_player_s_move() {
    let scripts = [
        (vec![Reply::Failed], EngineError::ProtocolWriteError),
        (vec![Reply::Done, Reply::Failed], EngineError::ProtocolWriteError),
        (vec![Reply::Done, Reply::Done, Reply::Done, Reply::Failed], EngineError::ProtocolReadError),
        (
            vec![Reply::Done, Reply::Done, Reply::Done, Reply::Line(String::from("best"))],
            EngineError::MoveParseError,
        ),
        (
            vec![Reply::Done, Reply::Done, Reply::Done, Reply::Line(String::from("e2e4"))],
            EngineError::NoLegalResolution,
        ),
    ];
    for (replies, error) in scripts {
        let mut game = game_at(START, 'w');
        let step = game.post_move("e2e4");
        let step = turn(step, &mut game, replies);
        assert_eq!(step, TurnStep::Done(TurnOutcome::EngineFailed(error)));
        assert_eq!(game.board.to_fen(), AFTER_E4);
    }
}

#[test]
fn two_games_do_not_share_a_position() {
    let mut one = game_at(START, 'w');
    let mut two = game_at(START, 'w');
    let step = one.post_move("e2e4");
    let step = turn(
        step,
        &mut one,
        vec![Reply::Done, Reply::Done, Reply::Done, Reply::Line(String::from("e7e5"))],
    );
    assert_eq!(step, TurnStep::Done(TurnOutcome::Played(String::from(AFTER_E4_E5))));
    assert_eq!(two.board.to_fen(), START);
    let _ = two.post_move("d2d4");
    assert_eq!(one.board.to_fen(), AFTER_E4_E5);
    assert_ne!(one.board, two.board);
}

#[test]
fn running_game() {
    assert_eq!(game_at(START, 'w').standing(), Standing::Running);
    assert_eq!(game_at("r6k/8/8/8/8/8/8/R6K w - - 99 80", 'w').standing(), Standing::Running);
}

#[test]
fn won_and_lost_games() {
    let mate = "rnb1kbnr/pppp1ppp/8/4p3/6Pq/5P2/PPPPP2P/RNBQKBNR w KQkq - 1 3";
    assert_eq!(
        game_at(mate, 'b').standing(),
        Standing::Over { winner: Some(COLOR::BLACK), player_won: true, moves: 3 }
    );
    assert_eq!(
        game_at(mate, 'w').standing(),
        Standing::Over { winner: Some(COLOR::BLACK), player_won: false, moves: 3 }
    );
}

#[test]
fn drawn_game() {
    assert_eq!(
        game_at("8/8/8/8/8/8/8/k6K w - - 0 61", 'w').standing(),
        Standing::Over { winner: None, player_won: false, moves: 61 }
    );
}

#[test]
fn long_game_without_result() {
    assert_eq!(HALFMOVE_LIMIT, 100);
    assert_eq!(
        game_at("r6k/8/8/8/8/8/8/R6K w - - 100 80", 'w').standing(),
        Standing::Contradictory
    );
}

#[test]
fn judge_decides_from_the_answers() {
    assert_eq!(Game::judge('w', Some(false), Some(99), None, Some(5)), Standing::Running);
    assert_eq!(Game::judge('w', None, None, Some(None), Some(5)), Standing::Running);
    assert_eq!(Game::judge('w', Some(false), Some(100), None, Some(5)), Standing::Contradictory);
    assert_eq!(Game::judge('w', Some(true), Some(0), Some(None), None), Standing::Contradictory);
    assert_eq!(
        Game::judge('w', Some(true), Some(0), Some(Some(COLOR::WHITE)), Some(40)),
        Standing::Over { winner: Some(COLOR::WHITE), player_won: true, moves: 40 }
    );
    assert_eq!(
        Game::judge('x', Some(false), Some(120), Some(Some(COLOR::WHITE)), Some(90)),
        Standing::Over { winner: Some(COLOR::WHITE), player_won: false, moves: 90 }
    );
}
