//! One-ply move decisions for a grid survival game: which neighbouring
//! cells are lethal next turn, which of the four moves avoid them, and
//! which of those is taken.
pub mod board;
pub mod danger;
pub mod logic;
pub mod moves;

pub use board::{Battlesnake, Board, BoardView, Coord, Game, SnakeView};
pub use danger::{build_danger_set, DangerSet};
pub use logic::{decide_move, end, get_move, info, start, SnakeInfo};
pub use moves::{landing, safe_moves, select_move, Direction};
