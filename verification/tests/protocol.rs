use chess_core::protocol::{
    announced_move, contains_marker, decimal_text, depth_command, elo_command,
    limit_strength_command, position_command, reader_step, ReaderAction, ReaderEvent,
    CHANNEL_CAPACITY,
};

#[test]
fn decimal_numbers() {
    assert_eq!(decimal_text(0), "0");
    assert_eq!(decimal_text(7), "7");
    assert_eq!(decimal_text(9), "9");
    assert_eq!(decimal_text(10), "10");
    assert_eq!(decimal_text(400), "400");
    assert_eq!(decimal_text(3500), "3500");
    assert_eq!(decimal_text(1_000_000), "1000000");
    assert_eq!(decimal_text(u32::MAX), "4294967295");
}

#[test]
fn decimal_agrees_with_the_standard_writing() {
    for n in (0..5000u32).chain([65_535, 65_536, 99_999, 100_000, 123_456_789]) {
        assert_eq!(decimal_text(n), n.to_string());
    }
}

#[test]
fn configuration_lines() {
    assert_eq!(limit_strength_command(), "setoption name UCI_LimitStrength value true\n");
    assert_eq!(elo_command(400), "setoption name UCI_Elo value 400\n");
    assert_eq!(elo_command(3500), "setoption name UCI_Elo value 3500\n");
    assert_eq!(elo_command(0), "setoption name UCI_Elo value 0\n");
    assert_eq!(elo_command(u16::MAX), "setoption name UCI_Elo value 65535\n");
}

#[test]
fn search_lines() {
    assert_eq!(
        position_command("rnbqkbnr/pppppppp/8/8/8/8/PPPPPPPP/RNBQKBNR w KQkq - 0 1"),
        "position fen rnbqkbnr/pppppppp/8/8/8/8/PPPPPPPP/RNBQKBNR w KQkq - 0 1\n"
    );
    assert_eq!(position_command(""), "position fen \n");
    assert_eq!(depth_command(1), "go depth 1\n");
    assert_eq!(depth_command(10), "go depth 10\n");
}

#[test]
fn marker_anywhere_in_the_line() {
    assert!(contains_marker("bestmove e2e4"));
    assert!(contains_marker("bestmove"));
    assert!(contains_marker("info string bestmove"));
    assert!(contains_marker("xbestmovex"));
    assert!(!contains_marker(""));
    assert!(!contains_marker("bestmov"));
    assert!(!contains_marker("best move e2e4"));
    assert!(!contains_marker("info depth 10 score cp 31 pv e2e4 e7e5"));
    assert!(!contains_marker("Bestmove e2e4"));
}

#[test]
fn announcement_yields_the_two_squares() {
    assert_eq!(announced_move("bestmove e2e4 ponder e7e5"), Some(String::from("e2e4")));
    assert_eq!(announced_move("bestmove e2e4"), Some(String::from("e2e4")));
    assert_eq!(announced_move("bestmove e7e8q"), Some(String::from("e7e8")));
    assert_eq!(announced_move("bestmove (none)"), Some(String::from("(non")));
}

#[test]
fn field_is_taken_at_a_fixed_place() {
    assert_eq!(announced_move("info string bestmove xx"), Some(String::from("ng b")));
}

#[test]
fn other_lines_announce_nothing() {
    assert_eq!(announced_move(""), None);
    assert_eq!(announced_move("readyok"), None);
    assert_eq!(announced_move("info depth 10 score cp 31 pv e2e4 e7e5"), None);
}

#[test]
fn short_announcement_is_skipped() {
    assert_eq!(announced_move("bestmove"), None);
    assert_eq!(announced_move("bestmove e2e"), None);
}

#[test]
fn places_are_counted_in_characters() {
    assert_eq!(announced_move("bestmove \u{e9}2e4"), Some(String::from("\u{e9}2e4")));
}

#[test]
fn reader_forwards_announcements() {
    let event = ReaderEvent::Line(String::from("bestmove g1f3 ponder g8f6"));
    assert_eq!(reader_step(&event), ReaderAction::Forward(String::from("g1f3")));
}

#[test]
fn reader_skips_everything_else() {
    assert_eq!(reader_step(&ReaderEvent::Line(String::from("uciok"))), ReaderAction::Skip);
    assert_eq!(reader_step(&ReaderEvent::Line(String::new())), ReaderAction::Skip);
    assert_eq!(reader_step(&ReaderEvent::Unreadable), ReaderAction::Skip);
}

#[test]
fn reader_stops_when_the_output_closes() {
    assert_eq!(reader_step(&ReaderEvent::Closed), ReaderAction::Stop);
}

#[test]
fn channel_holds_many_announcements() {
    assert!(CHANNEL_CAPACITY >= 1024);
}
