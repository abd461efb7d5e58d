//! The text of the engine protocol: the lines that go to the engine and the
//! one kind of line that is read from it.

use vstd::prelude::*;
use vstd::string::*;

verus! {

/// The character of a decimal digit.
pub open spec fn digit(d: nat) -> char {
    if d == 0 {
        '0'
    } else if d == 1 {
        '1'
    } else if d == 2 {
        '2'
    } else if d == 3 {
        '3'
    } else if d == 4 {
        '4'
    } else if d == 5 {
        '5'
    } else if d == 6 {
        '6'
    } else if d == 7 {
        '7'
    } else if d == 8 {
        '8'
    } else {
        '9'
    }
}

/// A number in decimal, without sign or leading zeros.
pub open spec fn decimal(n: nat) -> Seq<char>
    decreases n,
{
    if n < 10 {
        seq![digit(n)]
    } else {
        decimal(n / 10).push(digit(n % 10))
    }
}

/// A number's decimal writing holds digits only, and begins with a zero only
/// where the number is zero.
pub proof fn decimal_is_digits(n: nat)
    ensures
        decimal(n).len() > 0,
        forall|i: int| 0 <= i < decimal(n).len() ==> '0' <= #[trigger] decimal(n)[i] <= '9',
        decimal(n)[0] == '0' <==> n == 0,
    decreases n,
{
    if n >= 10 {
        decimal_is_digits(n / 10);
    }
}

/// The line that tells the engine to limit its strength.
pub open spec fn limit_strength_line() -> Seq<char> {
    "setoption name UCI_LimitStrength value true\n"@
}

/// The line that sets the rating to which the engine limits its strength.
pub open spec fn elo_line(elo: u16) -> Seq<char> {
    "setoption name UCI_Elo value "@ + decimal(elo as nat) + "\n"@
}

/// The line that sets the position to search.
pub open spec fn position_line(fen: Seq<char>) -> Seq<char> {
    "position fen "@ + fen + "\n"@
}

/// The line that starts a search to the given depth.
pub open spec fn depth_line(depth: u32) -> Seq<char> {
    "go depth "@ + decimal(depth as nat) + "\n"@
}

fn digit_text(d: u32) -> (text: &'static str)
    requires
        d < 10,
    ensures
        text@ == seq![digit(d as nat)],
{
    proof {
        reveal_strlit("0");
        reveal_strlit("1");
        reveal_strlit("2");
        reveal_strlit("3");
        reveal_strlit("4");
        reveal_strlit("5");
        reveal_strlit("6");
        reveal_strlit("7");
        reveal_strlit("8");
        reveal_strlit("9");
    }
    let text = match d {
        0 => "0",
        1 => "1",
        2 => "2",
        3 => "3",
        4 => "4",
        5 => "5",
        6 => "6",
        7 => "7",
        8 => "8",
        _ => "9",
    };
    assert(text@ =~= seq![digit(d as nat)]);
    text
}

/// Writes a number in decimal.
pub fn decimal_text(n: u32) -> (text: String)
    ensures
        text@ == decimal(n as nat),
    decreases n,
{
    if n < 10 {
        String::from_str(digit_text(n))
    } else {
        let mut text = decimal_text(n / 10);
        let last = digit_text(n % 10);
        text.append(last);
        assert(text@ =~= decimal((n / 10) as nat).push(digit((n % 10) as nat)));
        text
    }
}

pub fn limit_strength_command() -> (line: String)
    ensures
        line@ == limit_strength_line(),
{
    String::from_str("setoption name UCI_LimitStrength value true\n")
}

pub fn elo_command(elo: u16) -> (line: String)
    ensures
        line@ == elo_line(elo),
{
    let mut line = String::from_str("setoption name UCI_Elo value ");
    let number = decimal_text(elo as u32);
    line.append(number.as_str());
    line.append("\n");
    line
}

pub fn position_command(fen: &str) -> (line: String)
    ensures
        line@ == position_line(fen@),
{
    let mut line = String::from_str("position fen ");
    line.append(fen);
    line.append("\n");
    line
}

pub fn depth_command(depth: u32) -> (line: String)
    ensures
        line@ == depth_line(depth),
{
    let mut line = String::from_str("go depth ");
    let number = decimal_text(depth);
    line.append(number.as_str());
    line.append("\n");
    line
}

/// The word by which the engine announces the move it chose.
pub open spec fn marker() -> Seq<char> {
    "bestmove"@
}

/// Whether the marker stands somewhere in a line.
pub open spec fn has_marker(line: Seq<char>) -> bool {
    exists|i: int| marker_at(line, i)
}

/// Whether the marker stands in a line at place `i`.
pub open spec fn marker_at(line: Seq<char>, i: int) -> bool {
    0 <= i && i + 8 <= line.len() && line.subrange(i, i + 8) == marker()
}

/// The move that a line of the engine announces: where the marker stands
/// in the line, the four characters from the tenth on, which in the line
/// `bestmove e2e4 ...` are the two squares of the move. A line without the
/// marker, or too short to hold that field, announces nothing.
pub open spec fn announced(line: Seq<char>) -> Option<Seq<char>> {
    if has_marker(line) && line.len() >= 13 {
        Some(line.subrange(9, 13))
    } else {
        None
    }
}

/// What a line announces is four characters long.
pub proof fn announcement_is_four_characters(line: Seq<char>)
    requires
        announced(line) is Some,
    ensures
        announced(line).unwrap().len() == 4,
{
}

fn chars_of(line: &str) -> (chars: Vec<char>)
    ensures
        chars@ == line@,
{
    let n = line.unicode_len();
    let mut chars: Vec<char> = Vec::new();
    let mut i: usize = 0;
    while i < n
        invariant
            n == line@.len(),
            i <= n,
            chars@ == line@.take(i as int),
        decreases n - i,
    {
        let c = line.get_char(i);
        chars.push(c);
        i += 1;
        assert(chars@ =~= line@.take(i as int));
    }
    assert(line@.take(n as int) =~= line@);
    chars
}

fn marker_stands_at(chars: &Vec<char>, i: usize) -> (yes: bool)
    requires
        i + 8 <= chars.len(),
    ensures
        yes == marker_at(chars@, i as int),
{
    proof {
        reveal_strlit("bestmove");
    }
    let yes = chars[i] == 'b' && chars[i + 1] == 'e' && chars[i + 2] == 's' && chars[i + 3] == 't'
        && chars[i + 4] == 'm' && chars[i + 5] == 'o' && chars[i + 6] == 'v' && chars[i + 7] == 'e';
    let ghost window = chars@.subrange(i as int, i + 8);
    assert(yes ==> window =~= marker());
    assert(!yes ==> window != marker()) by {
        if !yes {
            assert(window[0] == chars[i as int]);
            assert(window[1] == chars[i + 1]);
            assert(window[2] == chars[i + 2]);
            assert(window[3] == chars[i + 3]);
            assert(window[4] == chars[i + 4]);
            assert(window[5] == chars[i + 5]);
            assert(window[6] == chars[i + 6]);
            assert(window[7] == chars[i + 7]);
        }
    }
    yes
}

/// Whether a line holds the marker.
pub fn contains_marker(line: &str) -> (yes: bool)
    ensures
        yes == has_marker(line@),
{
    let chars = chars_of(line);
    if chars.len() < 8 {
        assert(forall|i: int| !marker_at(chars@, i));
        return false;
    }
    let last = chars.len() - 8;
    let mut i: usize = 0;
    while i <= last
        invariant
            chars@ == line@,
            last + 8 == chars.len(),
            i <= last + 1,
            forall|j: int| 0 <= j < i ==> !marker_at(chars@, j),
        decreases last + 1 - i,
    {
        if marker_stands_at(&chars, i) {
            return true;
        }
        i += 1;
    }
    assert(forall|j: int| !marker_at(chars@, j));
    false
}

/// Reads one line of the engine's output: the move it announces, if it
/// announces one.
pub fn announced_move(line: &str) -> (token: Option<String>)
    ensures
        token is Some == announced(line@) is Some,
        token matches Some(t) ==> announced(line@) == Some(t@),
{
    if contains_marker(line) && line.unicode_len() >= 13 {
        Some(String::from_str(line.substring_char(9, 13)))
    } else {
        None
    }
}

/// How many announcements the channel between the reader and the adapter
/// holds: far more than the one that is ever outstanding.
pub const CHANNEL_CAPACITY: usize = 1024;

/// What the reader of the engine's output meets.
#[derive(Debug, PartialEq, Eq)]
pub enum ReaderEvent {
    /// A line was read.
    Line(String),
    /// A line could not be read.
    Unreadable,
    /// The output is closed: the subprocess is gone.
    Closed,
}

/// What the reader does next.
#[derive(Debug, PartialEq, Eq)]
pub enum ReaderAction {
    /// Put this announcement on the channel and read on.
    Forward(String),
    /// Read on.
    Skip,
    /// Close the channel and end.
    Stop,
}

/// Decides what the reader does with what it met: a line that announces a
/// move is forwarded, the end of the output stops the reader, and everything
/// else is skipped.
pub fn reader_step(event: &ReaderEvent) -> (action: ReaderAction)
    ensures
        match *event {
            ReaderEvent::Line(line) => match announced(line@) {
                Some(field) => action matches ReaderAction::Forward(token) && token@ == field,
                None => action is Skip,
            },
            ReaderEvent::Unreadable => action is Skip,
            ReaderEvent::Closed => action is Stop,
        },
{
    match event {
        ReaderEvent::Line(line) => match announced_move(line.as_str()) {
            Some(token) => ReaderAction::Forward(token),
            None => ReaderAction::Skip,
        },
        ReaderEvent::Unreadable => ReaderAction::Skip,
        ReaderEvent::Closed => ReaderAction::Stop,
    }
}

} // verus!
