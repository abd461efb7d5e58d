//! The boundary to the rules engine.
//!
//! The library holds a position as its notation string and a move as plain
//! squares and pieces. What only the rules engine can compute is asked of it
//! here; each function below is believed, not proved, and its comment says
//! what is claimed.

use crate::board::{Move, Role, Square, Uci};
use crate::settings::COLOR;
use shakmaty::fen::Fen;
use shakmaty::{CastlingMode, Chess, EnPassantMode};
use vstd::prelude::*;

verus! {

/// The notation string of the position that `text` denotes, as the rules
/// engine writes it, if `text` denotes a standard position at all.
pub uninterp spec fn canonical_fen(text: Seq<char>) -> Option<Seq<char>>;

/// The wire move that `text` spells, if it spells one.
pub uninterp spec fn parsed_uci(text: Seq<char>) -> Option<Uci>;

/// The legal move of the position written `fen` that goes from `from` to
/// `to` and promotes as `promotion` says, if the rules engine finds one.
pub uninterp spec fn direct_move(
    fen: Seq<char>,
    from: Square,
    to: Square,
    promotion: Option<Role>,
) -> Option<Move>;

/// The legal promotion moves of the position written `fen`, in the order in
/// which the rules engine lists them.
pub uninterp spec fn promotion_moves(fen: Seq<char>) -> Seq<Move>;

/// The notation string of the position reached from `fen` by the move from
/// `from` to `to` that promotes as `promotion` says, if that is a legal move
/// there.
pub uninterp spec fn position_after(
    fen: Seq<char>,
    from: Square,
    to: Square,
    promotion: Option<Role>,
) -> Option<Seq<char>>;

/// Whether the game is over in the position written `fen`: by checkmate,
/// stalemate or want of material. `None` where `fen` is no position.
pub uninterp spec fn game_over(fen: Seq<char>) -> Option<bool>;

/// The number of half-moves since the last capture or pawn move in the
/// position written `fen`.
pub uninterp spec fn halfmove_clock(fen: Seq<char>) -> Option<u32>;

/// The number of the move to come in the position written `fen`.
pub uninterp spec fn fullmove_number(fen: Seq<char>) -> Option<u32>;

/// How the game ended in the position written `fen`: the winner, or no side
/// for a draw. `None` where the game is not over or `fen` is no position.
pub uninterp spec fn game_outcome(fen: Seq<char>) -> Option<Option<COLOR>>;

/// `shakmaty::fen::Fen::from_str`, `Fen::into_position` for standard chess and
/// `Fen::from_position` with legal en passant squares only, then `to_string`:
/// reads a notation string and writes the position back. `None` where the
/// string does not parse or is no valid position.
#[verifier::external_body]
pub(crate) fn read_fen(text: &str) -> (fen: Option<String>)
    ensures
        fen is Some == canonical_fen(text@) is Some,
        fen matches Some(s) ==> canonical_fen(text@) == Some(s@),
{
    let pos: Chess = text.parse::<Fen>().ok()?.into_position(CastlingMode::Standard).ok()?;
    Some(Fen::from_position(pos, EnPassantMode::Legal).to_string())
}

/// `shakmaty::Chess::default`, written as a notation string: the initial
/// position of a standard game.
#[verifier::external_body]
pub(crate) fn initial_fen() -> (fen: String)
    ensures
        fen@ == "rnbqkbnr/pppppppp/8/8/8/8/PPPPPPPP/RNBQKBNR w KQkq - 0 1"@,
{
    Fen::from_position(Chess::default(), EnPassantMode::Legal).to_string()
}

/// `shakmaty::uci::Uci::from_str`: reads a wire move. `None` where the text is
/// not one.
#[verifier::external_body]
pub(crate) fn read_uci(text: &str) -> (uci: Option<Uci>)
    ensures
        uci == parsed_uci(text@),
{
    Some(match text.parse::<shakmaty::uci::Uci>().ok()? {
        shakmaty::uci::Uci::Normal { from, to, promotion } => Uci::Normal {
            from: Square { index: from.into() },
            to: Square { index: to.into() },
            promotion: promotion.and_then(|r| Role::from_char(r.char())),
        },
        shakmaty::uci::Uci::Put { role, to } => Uci::Put {
            role: Role::from_char(role.char())?,
            to: Square { index: to.into() },
        },
        shakmaty::uci::Uci::Null => Uci::Null,
    })
}

/// `shakmaty::uci::Uci::to_move` on the position written `fen`, for the wire
/// move from `from` to `to` with `promotion`: the legal move that it names.
/// `None` where `fen` is no position, where a square is off the board, or
/// where the rules engine finds the move illegal.
#[verifier::external_body]
pub(crate) fn find_direct(fen: &str, from: Square, to: Square, promotion: Option<Role>) -> (m:
    Option<Move>)
    ensures
        m == direct_move(fen@, from, to, promotion),
{
    let pos: Chess = fen.parse::<Fen>().ok()?.into_position(CastlingMode::Standard).ok()?;
    let from = from.index.try_into().ok()?;
    let to = to.index.try_into().ok()?;
    let promotion = promotion.and_then(|r| shakmaty::Role::from_char(r.char()));
    let m = shakmaty::uci::Uci::Normal { from, to, promotion }.to_move(&pos).ok()?;
    Some(Move {
        from: m.from().map(|s| Square { index: s.into() }),
        to: Square { index: m.to().into() },
        promotion: m.promotion().and_then(|r| Role::from_char(r.char())),
    })
}

/// `shakmaty::Position::promotion_moves` on the position written `fen`: its
/// legal promotion moves, in the rules engine's order; every one of them
/// promotes. Empty where `fen` is no position.
#[verifier::external_body]
pub(crate) fn list_promotions(fen: &str) -> (moves: Vec<Move>)
    ensures
        moves@ == promotion_moves(fen@),
        forall|i: int| 0 <= i < moves@.len() ==> (#[trigger] moves@[i]).promotion is Some,
{
    let parsed = fen.parse::<Fen>().ok().and_then(|f| f.into_position(CastlingMode::Standard).ok());
    let Some::<Chess>(pos) = parsed else { return Vec::new() };
    shakmaty::Position::promotion_moves(&pos).iter().map(|m| Move {
        from: m.from().map(|s| Square { index: s.into() }),
        to: Square { index: m.to().into() },
        promotion: m.promotion().and_then(|r| Role::from_char(r.char())),
    }).collect()
}

/// `shakmaty::Position::play_unchecked`, reached through `Uci::to_move`, which
/// admits legal moves only: the position after the move from `from` to `to`
/// with `promotion`, as a notation string. `None` where `fen` is no
/// position, where a square is off the board, or where the move is not
/// legal.
#[verifier::external_body]
pub(crate) fn play_on(fen: &str, from: Square, to: Square, promotion: Option<Role>) -> (after:
    Option<String>)
    ensures
        after is Some == position_after(fen@, from, to, promotion) is Some,
        after matches Some(s) ==> position_after(fen@, from, to, promotion) == Some(s@),
{
    let mut pos: Chess = fen.parse::<Fen>().ok()?.into_position(CastlingMode::Standard).ok()?;
    let from = from.index.try_into().ok()?;
    let to = to.index.try_into().ok()?;
    let promotion = promotion.and_then(|r| shakmaty::Role::from_char(r.char()));
    let legal = shakmaty::uci::Uci::Normal { from, to, promotion }.to_move(&pos).ok()?;
    shakmaty::Position::play_unchecked(&mut pos, &legal);
    Some(Fen::from_position(pos, EnPassantMode::Legal).to_string())
}

/// `shakmaty::Position::is_game_over` on the position written `fen`.
#[verifier::external_body]
pub(crate) fn is_game_over(fen: &str) -> (over: Option<bool>)
    ensures
        over == game_over(fen@),
{
    let pos: Chess = fen.parse::<Fen>().ok()?.into_position(CastlingMode::Standard).ok()?;
    Some(shakmaty::Position::is_game_over(&pos))
}

/// `shakmaty::Position::halfmoves` on the position written `fen`.
#[verifier::external_body]
pub(crate) fn halfmoves(fen: &str) -> (count: Option<u32>)
    ensures
        count == halfmove_clock(fen@),
{
    let pos: Chess = fen.parse::<Fen>().ok()?.into_position(CastlingMode::Standard).ok()?;
    Some(shakmaty::Position::halfmoves(&pos))
}

/// `shakmaty::Position::fullmoves` on the position written `fen`.
#[verifier::external_body]
pub(crate) fn fullmoves(fen: &str) -> (number: Option<u32>)
    ensures
        number == fullmove_number(fen@),
{
    let pos: Chess = fen.parse::<Fen>().ok()?.into_position(CastlingMode::Standard).ok()?;
    Some(shakmaty::Position::fullmoves(&pos).get())
}

/// `shakmaty::Position::outcome` on the position written `fen`, and
/// `Outcome::winner` of what it returns.
#[verifier::external_body]
pub(crate) fn outcome(fen: &str) -> (end: Option<Option<COLOR>>)
    ensures
        end == game_outcome(fen@),
{
    let pos: Chess = fen.parse::<Fen>().ok()?.into_position(CastlingMode::Standard).ok()?;
    let winner = shakmaty::Position::outcome(&pos)?.winner();
    Some(winner.map(|side| side.fold_wb(COLOR::WHITE, COLOR::BLACK)))
}

} // verus!
