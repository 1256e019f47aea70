//! The four moves, the filter that keeps the safe ones, and the choice
//! among them.
use vstd::prelude::*;
use crate::board::{in_bounds, Board, Coord};
use crate::danger::DangerSet;

verus! {

/// A cardinal move; up raises `y`, right raises `x`.
#[derive(Clone, Copy, Debug, PartialEq, Eq, Structural)]
pub enum Direction {
    Up,
    Down,
    Left,
    Right,
}

/// The label by which a move is announced.
pub open spec fn label_of(d: Direction) -> Seq<char> {
    match d {
        Direction::Up => "up"@,
        Direction::Down => "down"@,
        Direction::Left => "left"@,
        Direction::Right => "right"@,
    }
}

impl Direction {
    /// The label of this move.
    pub fn as_str(&self) -> (r: &'static str)
        ensures
            r@ == label_of(*self),
    {
        match self {
            Direction::Up => "up",
            Direction::Down => "down",
            Direction::Left => "left",
            Direction::Right => "right",
        }
    }
}

/// Every move is announced by one of the four labels.
pub proof fn lemma_label_is_cardinal(d: Direction)
    ensures
        label_of(d) == "up"@ || label_of(d) == "down"@ || label_of(d) == "left"@ || label_of(d)
            == "right"@,
{
}

/// The cell, in signed coordinates, that a move from `head` lands on.
pub open spec fn step(head: Coord, d: Direction) -> (int, int) {
    match d {
        Direction::Up => (head.x as int, head.y + 1),
        Direction::Down => (head.x as int, head.y - 1),
        Direction::Left => (head.x - 1, head.y as int),
        Direction::Right => (head.x + 1, head.y as int),
    }
}

/// Whether the move `d` from `head` stays on the board and leaves `danger`.
pub open spec fn is_safe_move(
    width: nat,
    height: nat,
    head: Coord,
    danger: Set<Coord>,
    d: Direction,
) -> bool {
    let (x, y) = step(head, d);
    in_bounds(width, height, x, y) && !danger.contains(Coord { x: x as u32, y: y as u32 })
}

/// `seq![d]` when `d` is safe, else the empty sequence.
pub open spec fn keep_if_safe(
    width: nat,
    height: nat,
    head: Coord,
    danger: Set<Coord>,
    d: Direction,
) -> Seq<Direction> {
    if is_safe_move(width, height, head, danger, d) {
        seq![d]
    } else {
        Seq::empty()
    }
}

/// The safe moves from `head`, in the order up, down, left, right.
pub open spec fn safe_directions(width: nat, height: nat, head: Coord, danger: Set<Coord>) -> Seq<
    Direction,
> {
    keep_if_safe(width, height, head, danger, Direction::Up) + keep_if_safe(
        width,
        height,
        head,
        danger,
        Direction::Down,
    ) + keep_if_safe(width, height, head, danger, Direction::Left) + keep_if_safe(
        width,
        height,
        head,
        danger,
        Direction::Right,
    )
}

/// Every member of `safe_directions` is a safe move, and every safe move
/// is a member.
pub proof fn lemma_safe_directions_members(
    width: nat,
    height: nat,
    head: Coord,
    danger: Set<Coord>,
)
    ensures
        forall|d: Direction|
            #[trigger] safe_directions(width, height, head, danger).contains(d) <==> is_safe_move(
                width,
                height,
                head,
                danger,
                d,
            ),
{
    let s = safe_directions(width, height, head, danger);
    assert forall|d: Direction| #[trigger] s.contains(d) <==> is_safe_move(
        width,
        height,
        head,
        danger,
        d,
    ) by {
        if s.contains(d) {
            let k = choose|k: int| 0 <= k < s.len() && s[k] == d;
        }
        if is_safe_move(width, height, head, danger, d) {
            let u = is_safe_move(width, height, head, danger, Direction::Up) as int;
            let dn = is_safe_move(width, height, head, danger, Direction::Down) as int;
            let l = is_safe_move(width, height, head, danger, Direction::Left) as int;
            match d {
                Direction::Up => assert(s[0] == d),
                Direction::Down => assert(s[u] == d),
                Direction::Left => assert(s[u + dn] == d),
                Direction::Right => assert(s[u + dn + l] == d),
            }
        }
    }
}

/// The cell that the move `d` from `head` lands on, or `None` where that
/// cell is off a board of `width` by `height`.
pub fn landing(width: u32, height: u32, head: Coord, d: Direction) -> (r: Option<Coord>)
    ensures
        r is Some <==> in_bounds(width as nat, height as nat, step(head, d).0, step(head, d).1),
        r matches Some(c) ==> c.x == step(head, d).0 && c.y == step(head, d).1,
{
    let (x, y): (i64, i64) = match d {
        Direction::Up => (head.x as i64, head.y as i64 + 1),
        Direction::Down => (head.x as i64, head.y as i64 - 1),
        Direction::Left => (head.x as i64 - 1, head.y as i64),
        Direction::Right => (head.x as i64 + 1, head.y as i64),
    };
    if 0 <= x && x < width as i64 && 0 <= y && y < height as i64 {
        Some(Coord { x: x as u32, y: y as u32 })
    } else {
        None
    }
}

fn push_if_safe(
    out: &mut Vec<Direction>,
    width: u32,
    height: u32,
    head: Coord,
    danger: &DangerSet,
    d: Direction,
)
    ensures
        final(out)@ == old(out)@ + keep_if_safe(width as nat, height as nat, head, danger@, d),
{
    match landing(width, height, head, d) {
        Some(c) => {
            if !danger.contains(c) {
                out.push(d);
                assert(final(out)@ =~= old(out)@ + seq![d]);
            } else {
                assert(out@ =~= old(out)@ + Seq::<Direction>::empty());
            }
        },
        None => {
            assert(out@ =~= old(out)@ + Seq::<Direction>::empty());
        },
    }
}

/// The moves from `head` that land on `board` outside `danger`, in the
/// order up, down, left, right.
pub fn safe_moves(board: &Board, head: Coord, danger: &DangerSet) -> (r: Vec<Direction>)
    ensures
        r@ == safe_directions(board@.width, board@.height, head, danger@),
{
    let mut out: Vec<Direction> = Vec::new();
    push_if_safe(&mut out, board.width, board.height, head, danger, Direction::Up);
    push_if_safe(&mut out, board.width, board.height, head, danger, Direction::Down);
    push_if_safe(&mut out, board.width, board.height, head, danger, Direction::Left);
    push_if_safe(&mut out, board.width, board.height, head, danger, Direction::Right);
    assert(out@ =~= safe_directions(board@.width, board@.height, head, danger@));
    out
}

/// Picks among `safe` the move at `roll` (wrapped round its length), or
/// up when there is none.
pub fn select_move(safe: &Vec<Direction>, roll: usize) -> (r: Direction)
    ensures
        safe@.len() == 0 ==> r == Direction::Up,
        safe@.len() > 0 ==> r == safe@[roll as int % safe@.len() as int],
{
    if safe.len() == 0 {
        Direction::Up
    } else {
        safe[roll % safe.len()]
    }
}

/// Relies on rand's `Rng::gen_range` over `thread_rng()`: a value drawn from
/// the half-open range `0..n`, which must not be empty.
#[verifier::external_body]
pub(crate) fn random_below(n: usize) -> (r: usize)
    requires
        n > 0,
    ensures
        r < n,
{
    rand::Rng::gen_range(&mut rand::thread_rng(), 0..n)
}

} // verus!
