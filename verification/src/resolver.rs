//! Finding the legal move that a wire move stands for.
//!
//! A wire move names two squares and at most a promotion piece. Most of the
//! time the rules engine reads it directly. Where it does not, the move may
//! still be a promotion whose piece the sender left out or spelled in a way
//! the rules engine refuses: the legal promotions of the position are then
//! searched for one between the same two squares.

use crate::board::{Move, Square, Uci};
use crate::position::Position;
use crate::rules::{direct_move, find_direct, list_promotions, promotion_moves};
use vstd::prelude::*;

verus! {

/// Whether a move goes from `from` to `to`.
pub open spec fn joins(m: Move, from: Square, to: Square) -> bool {
    m.from == Some(from) && m.to == to
}

/// The first of `moves` that goes from `from` to `to`.
pub open spec fn first_joining(moves: Seq<Move>, from: Square, to: Square) -> Option<Move>
    decreases moves.len(),
{
    if moves.len() == 0 {
        None
    } else if joins(moves[0], from, to) {
        Some(moves[0])
    } else {
        first_joining(moves.drop_first(), from, to)
    }
}

/// What a wire move resolves to in the position written `fen`, given what the
/// rules engine makes of it directly and the position's legal promotions.
pub open spec fn resolution(uci: Uci, direct: Option<Move>, promotions: Seq<Move>) -> Option<Move> {
    match uci {
        Uci::Normal { from, to, .. } => match direct {
            Some(m) => Some(m),
            None => first_joining(promotions, from, to),
        },
        _ => None,
    }
}

/// What a wire move resolves to in the position written `fen`.
pub open spec fn resolved(uci: Uci, fen: Seq<char>) -> Option<Move> {
    match uci {
        Uci::Normal { from, to, promotion } => resolution(
            uci,
            direct_move(fen, from, to, promotion),
            promotion_moves(fen),
        ),
        _ => None,
    }
}

/// `first_joining` is the earliest move between the two squares: it stands at
/// some place of the list, nothing before that place joins the squares, and
/// there is none exactly where no move of the list joins them.
pub proof fn first_joining_is_earliest(moves: Seq<Move>, from: Square, to: Square)
    ensures
        match first_joining(moves, from, to) {
            Some(m) => exists|i: int|
                0 <= i < moves.len() && moves[i] == m && joins(m, from, to) && forall|j: int|
                    0 <= j < i ==> !joins(#[trigger] moves[j], from, to),
            None => forall|i: int| 0 <= i < moves.len() ==> !joins(#[trigger] moves[i], from, to),
        },
    decreases moves.len(),
{
    if moves.len() == 0 {
    } else if joins(moves[0], from, to) {
        assert(forall|j: int| 0 <= j < 0 ==> !joins(#[trigger] moves[j], from, to));
    } else {
        let rest = moves.drop_first();
        first_joining_is_earliest(rest, from, to);
        match first_joining(rest, from, to) {
            Some(m) => {
                let i = choose|i: int|
                    0 <= i < rest.len() && rest[i] == m && joins(m, from, to) && forall|j: int|
                        0 <= j < i ==> !joins(#[trigger] rest[j], from, to);
                assert(moves[i + 1] == rest[i]);
                assert forall|j: int| 0 <= j < i + 1 implies !joins(
                    #[trigger] moves[j],
                    from,
                    to,
                ) by {
                    if j > 0 {
                        assert(moves[j] == rest[j - 1]);
                    }
                }
            },
            None => {
                assert forall|i: int| 0 <= i < moves.len() implies !joins(
                    #[trigger] moves[i],
                    from,
                    to,
                ) by {
                    if i > 0 {
                        assert(moves[i] == rest[i - 1]);
                    }
                }
            },
        }
    }
}

/// Searches the promotions of a position, in their order, for the first
/// that goes from `from` to `to`.
pub fn pick_promotion(promotions: &Vec<Move>, from: Square, to: Square) -> (m: Option<Move>)
    ensures
        m == first_joining(promotions@, from, to),
        m matches Some(found) ==> joins(found, from, to) && promotions@.contains(found),
{
    proof {
        first_joining_is_earliest(promotions@, from, to);
    }
    let mut i: usize = 0;
    assert(promotions@.skip(0) == promotions@);
    while i < promotions.len()
        invariant
            i <= promotions.len(),
            first_joining(promotions@, from, to) == first_joining(
                promotions@.skip(i as int),
                from,
                to,
            ),
        decreases promotions.len() - i,
    {
        let candidate = promotions[i];
        let ghost rest = promotions@.skip(i as int);
        assert(rest[0] == candidate);
        assert(rest.drop_first() == promotions@.skip(i + 1));
        if candidate.from == Some(from) && candidate.to == to {
            return Some(candidate);
        }
        i += 1;
    }
    assert(promotions@.skip(i as int).len() == 0);
    None
}

/// Resolves a wire move from what the rules engine returned for it: the move
/// it read directly, else the first legal promotion between the same squares.
/// A drop or a null move resolves to nothing.
pub fn resolve_with(uci: &Uci, direct: Option<Move>, promotions: &Vec<Move>) -> (m: Option<Move>)
    ensures
        m == resolution(*uci, direct, promotions@),
{
    match uci {
        Uci::Normal { from, to, .. } => match direct {
            Some(m) => Some(m),
            None => pick_promotion(promotions, *from, *to),
        },
        _ => None,
    }
}

/// Resolves a wire move against a position. `None` exactly where the rules
/// engine reads no legal move from it and no legal promotion joins its two
/// squares.
pub fn find_with_auto_promotion(uci: &Uci, board: &Position) -> (m: Option<Move>)
    ensures
        m == resolved(*uci, board@),
        *uci matches Uci::Normal { from, to, promotion } ==> (direct_move(
            board@,
            from,
            to,
            promotion,
        ) is None && m is Some ==> joins(m.unwrap(), from, to) && m.unwrap().promotion is Some),
{
    match uci {
        Uci::Normal { from, to, promotion } => {
            let direct = find_direct(board.as_str(), *from, *to, *promotion);
            match direct {
                Some(m) => Some(m),
                None => {
                    let promotions = list_promotions(board.as_str());
                    pick_promotion(&promotions, *from, *to)
                },
            }
        },
        _ => None,
    }
}

} // verus!
