//! The entry points of a turn: appearance, game start and end, and the
//! move decision.
use vstd::prelude::*;
use crate::board::{Battlesnake, Board, BoardView, Game, SnakeView};
use crate::danger::{build_danger_set, danger_cells};
use crate::moves::{
    is_safe_move, lemma_safe_directions_members, random_below, safe_moves, select_move, Direction,
};

verus! {

/// How the snake presents itself to the game server.
#[derive(Clone, Debug)]
pub struct SnakeInfo {
    pub apiversion: String,
    pub author: String,
    pub color: String,
    pub head: String,
    pub tail: String,
}

/// The snake's appearance: API version 1, no author, grey, default head
/// and tail.
pub fn info() -> (r: SnakeInfo)
    ensures
        r.apiversion@ == "1"@,
        r.author@ == ""@,
        r.color@ == "#888888"@,
        r.head@ == "default"@,
        r.tail@ == "default"@,
{
    SnakeInfo {
        apiversion: "1".to_owned(),
        author: "".to_owned(),
        color: "#888888".to_owned(),
        head: "default".to_owned(),
        tail: "default".to_owned(),
    }
}

/// Called when a game begins; the decision keeps no state, so nothing is
/// prepared.
pub fn start(_game: &Game, _turn: &u32, _board: &Board, _you: &Battlesnake) {
}

/// Called when a game ends; nothing is kept, so nothing is released.
pub fn end(_game: &Game, _turn: &u32, _board: &Board, _you: &Battlesnake) {
}

/// Whether the move `d` keeps `you` on the board `b` and out of its
/// danger set.
pub open spec fn safe_for(b: BoardView, you: SnakeView, d: Direction) -> bool {
    is_safe_move(b.width, b.height, you.head, danger_cells(b, you.id), d)
}

/// Decides the move of `you` on `board`: a move chosen at random among
/// those that stay on the board and avoid the danger set, or up when there
/// is none.
pub fn decide_move(board: &Board, you: &Battlesnake) -> (r: Direction)
    ensures
        (exists|d: Direction| safe_for(board@, you@, d)) ==> safe_for(board@, you@, r),
        (forall|d: Direction| !safe_for(board@, you@, d)) ==> r == Direction::Up,
{
    let danger = build_danger_set(board, &you.id);
    let safe = safe_moves(board, you.head, &danger);
    let roll = if safe.len() > 0 {
        random_below(safe.len())
    } else {
        0
    };
    let r = select_move(&safe, roll);
    proof {
        lemma_safe_directions_members(board@.width, board@.height, you.head, danger@);
        if safe@.len() > 0 {
            assert(safe@.contains(r));
        }
        if exists|d: Direction| safe_for(board@, you@, d) {
            let d = choose|d: Direction| safe_for(board@, you@, d);
            assert(safe@.contains(d));
        }
    }
    r
}

/// The move of `you` on this turn of `game`; see `decide_move`.
pub fn get_move(_game: &Game, _turn: &u32, board: &Board, you: &Battlesnake) -> (r: Direction)
    ensures
        (exists|d: Direction| safe_for(board@, you@, d)) ==> safe_for(board@, you@, r),
        (forall|d: Direction| !safe_for(board@, you@, d)) ==> r == Direction::Up,
{
    decide_move(board, you)
}

} // verus!
