//! The per-turn snapshot of the board, and its mathematical model.
use vstd::prelude::*;

verus! {

/// A cell of the board; the origin is the bottom-left corner.
#[derive(Clone, Copy, Debug, PartialEq, Eq, Structural, Hash)]
pub struct Coord {
    pub x: u32,
    pub y: u32,
}

/// A game as the caller identifies it; the decision does not read it.
#[derive(Clone, Debug)]
pub struct Game {
    pub id: String,
    pub timeout: u32,
}

/// What the decision reads of a snake.
pub struct SnakeView {
    pub id: Seq<char>,
    pub body: Seq<Coord>,
    pub head: Coord,
}

/// One snake on the board, its segments listed head first.
#[derive(Clone, Debug)]
pub struct Battlesnake {
    pub id: String,
    pub name: String,
    pub health: u32,
    pub body: Vec<Coord>,
    pub head: Coord,
    pub length: u32,
    pub latency: String,
    pub shout: Option<String>,
}

impl View for Battlesnake {
    type V = SnakeView;

    open spec fn view(&self) -> SnakeView {
        SnakeView { id: self.id@, body: self.body@, head: self.head }
    }
}

/// What the decision reads of the board.
pub struct BoardView {
    pub width: nat,
    pub height: nat,
    pub snakes: Seq<SnakeView>,
    pub hazards: Seq<Coord>,
    pub food: Seq<Coord>,
}

/// The board of one turn: its size, every snake alive, hazards and food.
#[derive(Clone, Debug)]
pub struct Board {
    pub height: u32,
    pub width: u32,
    pub food: Vec<Coord>,
    pub snakes: Vec<Battlesnake>,
    pub hazards: Vec<Coord>,
}

impl View for Board {
    type V = BoardView;

    open spec fn view(&self) -> BoardView {
        BoardView {
            width: self.width as nat,
            height: self.height as nat,
            snakes: self.snakes@.map_values(|s: Battlesnake| s@),
            hazards: self.hazards@,
            food: self.food@,
        }
    }
}

/// Whether the cell `(x, y)` lies on a board of the given size.
pub open spec fn in_bounds(width: nat, height: nat, x: int, y: int) -> bool {
    0 <= x < width && 0 <= y < height
}

/// Whether the cell `(x, y)` is one cardinal step away from `c`.
pub open spec fn adjacent(c: Coord, x: int, y: int) -> bool {
    ||| (x == c.x - 1 || x == c.x + 1) && y == c.y
    ||| x == c.x && (y == c.y - 1 || y == c.y + 1)
}

} // verus!
