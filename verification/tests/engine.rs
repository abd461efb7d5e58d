use chess_core::board::{Move, Role, Square, Uci};
use chess_core::engine::{
    Command, Engine, EngineError, EngineSetup, Reply, Request, Search, SearchStage, SearchStep,
    SetupStage, SetupStep, SETTLE_MILLIS,
};
use chess_core::position::Position;

fn line(text: &str) -> Reply {
    Reply::Line(String::from(text))
}

fn receiving(board: Position) -> Search {
    Search { depth: 3, board, stage: SearchStage::Receiving }
}

#[test]
fn creation_starts_with_the_subprocess() {
    let (setup, request) = Engine::new(3, 900);
    assert_eq!(setup, EngineSetup { depth: 3, elo: 900, stage: SetupStage::Spawning });
    assert_eq!(request, Request::Spawn);
}

#[test]
fn creation_sends_strength_then_rating() {
    let (setup, _) = Engine::new(10, 3500);
    let SetupStep::Ask(setup, request) = setup.advance(&Reply::Done) else {
        panic!("the strength line is due");
    };
    assert_eq!(setup.stage, SetupStage::LimitingStrength);
    assert_eq!(request, Request::Write(Command::LimitStrength));
    let SetupStep::Ask(setup, request) = setup.advance(&Reply::Done) else {
        panic!("the rating line is due");
    };
    assert_eq!(setup.stage, SetupStage::SettingElo);
    assert_eq!(request, Request::Write(Command::Elo(3500)));
    assert_eq!(setup.advance(&Reply::Done), SetupStep::Ready(Engine { depth: 10 }));
}

#[test]
fn creation_fails_when_the_subprocess_does_not_start() {
    let (setup, _) = Engine::new(1, 400);
    assert_eq!(setup.advance(&Reply::Failed), SetupStep::Failed(EngineError::EngineUnavailable));
}

#[test]
fn creation_fails_when_a_line_is_not_written() {
    for stage in [SetupStage::LimitingStrength, SetupStage::SettingElo] {
        let setup = EngineSetup { depth: 1, elo: 400, stage };
        assert_eq!(
            setup.advance(&Reply::Failed),
            SetupStep::Failed(EngineError::EngineUnavailable)
        );
        assert_eq!(
            setup.advance(&line("bestmove e2e4")),
            SetupStep::Failed(EngineError::EngineUnavailable)
        );
    }
}

#[test]
fn command_lines() {
    assert_eq!(Command::LimitStrength.line(), "setoption name UCI_LimitStrength value true\n");
    assert_eq!(Command::Elo(900).line(), "setoption name UCI_Elo value 900\n");
    assert_eq!(Command::Depth(3).line(), "go depth 3\n");
    assert_eq!(
        Command::Position(Position::new()).line(),
        "position fen rnbqkbnr/pppppppp/8/8/8/8/PPPPPPPP/RNBQKBNR w KQkq - 0 1\n"
    );
}

#[test]
fn search_runs_through_its_four_requests() {
    let engine = Engine { depth: 3 };
    let board = Position::new();
    let (search, request) = engine.gen_next_move(&board);
    assert_eq!(search.stage, SearchStage::SendingPosition);
    assert_eq!(search.depth, 3);
    assert_eq!(search.board, board);
    assert_eq!(request, Request::Write(Command::Position(Position::new())));
    let SearchStep::Ask(search, request) = search.advance(&Reply::Done) else {
        panic!("the depth line is due");
    };
    assert_eq!(request, Request::Write(Command::Depth(3)));
    let SearchStep::Ask(search, request) = search.advance(&Reply::Done) else {
        panic!("the delay is due");
    };
    assert_eq!(request, Request::Settle(250));
    assert_eq!(SETTLE_MILLIS, 250);
    let SearchStep::Ask(search, request) = search.advance(&Reply::Done) else {
        panic!("the announcement is due");
    };
    assert_eq!(request, Request::Receive(30_000));
    assert_eq!(search.stage, SearchStage::Receiving);
    let step = search.advance(&line("e2e4"));
    let e2e4 = Move { from: Some(Square { index: 12 }), to: Square { index: 28 }, promotion: None };
    assert_eq!(step, SearchStep::Done(Ok(e2e4)));
}

#[test]
fn search_fails_when_a_line_is_not_written() {
    for stage in [SearchStage::SendingPosition, SearchStage::SendingDepth] {
        let search = Search { depth: 1, board: Position::new(), stage };
        assert_eq!(
            search.advance(&Reply::Failed),
            SearchStep::Done(Err(EngineError::ProtocolWriteError))
        );
    }
}

#[test]
fn silent_engine_is_a_read_error() {
    assert_eq!(
        receiving(Position::new()).advance(&Reply::Failed),
        SearchStep::Done(Err(EngineError::ProtocolReadError))
    );
    assert_eq!(
        receiving(Position::new()).advance(&Reply::Done),
        SearchStep::Done(Err(EngineError::ProtocolReadError))
    );
}

#[test]
fn unreadable_announcement_is_a_parse_error() {
    for token in ["", "zzzz", "(non", "e2e", "e2e4qq", "e9e4"] {
        assert_eq!(
            receiving(Position::new()).advance(&line(token)),
            SearchStep::Done(Err(EngineError::MoveParseError))
        );
    }
}

#[test]
fn illegal_announcement_has_no_resolution() {
    for token in ["e2e5", "e7e5", "0000", "Q@e4", "a1a1"] {
        assert_eq!(
            receiving(Position::new()).advance(&line(token)),
            SearchStep::Done(Err(EngineError::NoLegalResolution))
        );
    }
}

#[test]
fn announced_promotion_is_resolved() {
    let board = Position::from_fen("8/4P3/8/8/8/8/8/k6K w - - 0 1").unwrap();
    let queen = Move {
        from: Some(Square { index: 52 }),
        to: Square { index: 60 },
        promotion: Some(Role::Queen),
    };
    assert_eq!(Engine::interpret("e7e8q", &board), Ok(queen));
    let short = Engine::interpret("e7e8", &board).expect("a promotion");
    assert_eq!(short.from, queen.from);
    assert_eq!(short.to, queen.to);
    assert!(short.is_promotion());
}

#[test]
fn answer_without_a_wire_move_is_a_parse_error() {
    let board = Position::new();
    assert_eq!(Engine::answer_with(None, &board), Err(EngineError::MoveParseError));
    assert_eq!(Engine::answer_with(Some(Uci::Null), &board), Err(EngineError::NoLegalResolution));
    let uci = Uci::Normal { from: Square { index: 6 }, to: Square { index: 21 }, promotion: None };
    assert_eq!(
        Engine::answer_with(Some(uci), &board),
        Ok(Move { from: Some(Square { index: 6 }), to: Square { index: 21 }, promotion: None })
    );
}
