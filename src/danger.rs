//! The danger map: every cell that is unsafe to move into next turn.
use std::collections::HashSet;
use vstd::prelude::*;
use crate::board::{adjacent, in_bounds, Board, BoardView, Coord};

verus! {

broadcast use vstd::std_specs::hash::group_hash_axioms;

/// Whether some segment of some snake covers `c`.
pub open spec fn occupied(b: BoardView, c: Coord) -> bool {
    exists|i: int| 0 <= i < b.snakes.len() && #[trigger] b.snakes[i].body.contains(c)
}

/// Whether `c` is on the board and one step from the head of the snake at
/// index `i`, when that snake is not the focal one.
pub open spec fn threatened_by(b: BoardView, self_id: Seq<char>, i: int, c: Coord) -> bool {
    &&& b.snakes[i].id != self_id
    &&& in_bounds(b.width, b.height, c.x as int, c.y as int)
    &&& adjacent(b.snakes[i].head, c.x as int, c.y as int)
}

/// Whether an opponent among the first `n` snakes could move into `c`.
pub open spec fn threatened_among(b: BoardView, self_id: Seq<char>, n: int, c: Coord) -> bool {
    exists|i: int| 0 <= i < n && #[trigger] threatened_by(b, self_id, i, c)
}

/// Whether any snake but the focal one could move into `c` next turn.
pub open spec fn threatened(b: BoardView, self_id: Seq<char>, c: Coord) -> bool {
    threatened_among(b, self_id, b.snakes.len() as int, c)
}

/// Whether `c` is unsafe for the snake `self_id` to move into next turn.
pub open spec fn is_dangerous(b: BoardView, self_id: Seq<char>, c: Coord) -> bool {
    occupied(b, c) || threatened(b, self_id, c) || b.hazards.contains(c)
}

/// The danger set of a board for the focal snake `self_id`.
pub open spec fn danger_cells(b: BoardView, self_id: Seq<char>) -> Set<Coord> {
    Set::new(|c: Coord| is_dangerous(b, self_id, c))
}

/// Equal snapshots and focal ids give the same danger set.
pub proof fn lemma_danger_set_deterministic(
    a: BoardView,
    a_id: Seq<char>,
    b: BoardView,
    b_id: Seq<char>,
)
    requires
        a == b,
        a_id == b_id,
    ensures
        danger_cells(a, a_id) == danger_cells(b, b_id),
{
}

/// Every cell on the board one step from the head of a snake other than the
/// focal one is in the danger set, wherever that head stands.
pub proof fn lemma_opponent_head_neighbours(b: BoardView, self_id: Seq<char>, i: int, c: Coord)
    requires
        0 <= i < b.snakes.len(),
        b.snakes[i].id != self_id,
        in_bounds(b.width, b.height, c.x as int, c.y as int),
        adjacent(b.snakes[i].head, c.x as int, c.y as int),
    ensures
        danger_cells(b, self_id).contains(c),
{
    assert(threatened_by(b, self_id, i, c));
}

/// Every cell covered by a segment of any snake, the focal one included, is
/// in the danger set.
pub proof fn lemma_segments_in_danger(b: BoardView, self_id: Seq<char>, i: int, j: int)
    requires
        0 <= i < b.snakes.len(),
        0 <= j < b.snakes[i].body.len(),
    ensures
        danger_cells(b, self_id).contains(b.snakes[i].body[j]),
{
    assert(b.snakes[i].body.contains(b.snakes[i].body[j]));
}

/// Every hazard is in the danger set.
pub proof fn lemma_hazards_in_danger(b: BoardView, self_id: Seq<char>, k: int)
    requires
        0 <= k < b.hazards.len(),
    ensures
        danger_cells(b, self_id).contains(b.hazards[k]),
{
    assert(b.hazards.contains(b.hazards[k]));
}

/// The key under which a cell is stored: `x` in the high half, `y` in the low.
pub open spec fn cell_key(c: Coord) -> u64 {
    (c.x as int * 0x1_0000_0000 + c.y as int) as u64
}

proof fn lemma_cell_key_injective(a: Coord, b: Coord)
    ensures
        cell_key(a) == cell_key(b) <==> a == b,
{
    assert(a.x as int * 0x1_0000_0000 + a.y as int <= 0xffff_ffff_ffff_ffff) by (nonlinear_arith)
        requires
            a.x <= 0xffff_ffff,
            a.y <= 0xffff_ffff,
    ;
    assert(b.x as int * 0x1_0000_0000 + b.y as int <= 0xffff_ffff_ffff_ffff) by (nonlinear_arith)
        requires
            b.x <= 0xffff_ffff,
            b.y <= 0xffff_ffff,
    ;
    if cell_key(a) == cell_key(b) {
        assert(a.x == b.x && a.y == b.y) by (nonlinear_arith)
            requires
                a.x as int * 0x1_0000_0000 + a.y as int == b.x as int * 0x1_0000_0000 + b.y as int,
                0 <= a.y <= 0xffff_ffff,
                0 <= b.y <= 0xffff_ffff,
        ;
    }
}

fn key_of(c: Coord) -> (r: u64)
    ensures
        r == cell_key(c),
{
    proof {
        lemma_cell_key_injective(c, c);
    }
    (c.x as u64) * 0x1_0000_0000 + (c.y as u64)
}

/// A set of cells.
pub struct DangerSet {
    cells: HashSet<u64>,
}

impl View for DangerSet {
    type V = Set<Coord>;

    closed spec fn view(&self) -> Set<Coord> {
        Set::new(|c: Coord| self.cells@.contains(cell_key(c)))
    }
}

impl DangerSet {
    /// The empty set.
    pub fn new() -> (r: DangerSet)
        ensures
            r@ == Set::<Coord>::empty(),
    {
        let r = DangerSet { cells: HashSet::new() };
        assert(r@ =~= Set::<Coord>::empty());
        r
    }

    /// Adds `c` to the set.
    pub fn insert(&mut self, c: Coord)
        ensures
            final(self)@ == old(self)@.insert(c),
    {
        let k = key_of(c);
        self.cells.insert(k);
        assert forall|d: Coord| #[trigger] self@.contains(d) == old(self)@.insert(c).contains(d) by {
            lemma_cell_key_injective(c, d);
        }
        assert(self@ =~= old(self)@.insert(c));
    }

    /// Whether `c` is in the set.
    pub fn contains(&self, c: Coord) -> (r: bool)
        ensures
            r == self@.contains(c),
    {
        let k = key_of(c);
        self.cells.contains(&k)
    }
}

/// Adds to `danger` every cell on the board one step from `head`.
fn insert_neighbours(danger: &mut DangerSet, width: u32, height: u32, head: Coord)
    ensures
        forall|c: Coord|
            #[trigger] final(danger)@.contains(c) <==> old(danger)@.contains(c) || (in_bounds(
                width as nat,
                height as nat,
                c.x as int,
                c.y as int,
            ) && adjacent(head, c.x as int, c.y as int)),
{
    if head.x > 0 && head.x - 1 < width && head.y < height {
        danger.insert(Coord { x: head.x - 1, y: head.y });
    }
    if (head.x as u64) + 1 < width as u64 && head.y < height {
        danger.insert(Coord { x: head.x + 1, y: head.y });
    }
    if head.y > 0 && head.y - 1 < height && head.x < width {
        danger.insert(Coord { x: head.x, y: head.y - 1 });
    }
    if (head.y as u64) + 1 < height as u64 && head.x < width {
        danger.insert(Coord { x: head.x, y: head.y + 1 });
    }
}

/// Builds the danger set of `board` for the snake whose id is `self_id`:
/// every cell covered by a segment of any snake, every cell on the board
/// one step from the head of any other snake, and every hazard.
pub fn build_danger_set(board: &Board, self_id: &String) -> (r: DangerSet)
    ensures
        r@ == danger_cells(board@, self_id@),
{
    let ghost b = board@;
    let mut danger = DangerSet::new();
    let n = board.snakes.len();
    let mut i: usize = 0;
    while i < n
        invariant
            n == board.snakes@.len(),
            b == board@,
            0 <= i <= n,
            forall|c: Coord|
                #[trigger] danger@.contains(c) <==> exists|k: int|
                    0 <= k < i && #[trigger] b.snakes[k].body.contains(c),
        decreases n - i,
    {
        let body = &board.snakes[i].body;
        assert(body@ == b.snakes[i as int].body);
        let m = body.len();
        let mut j: usize = 0;
        while j < m
            invariant
                n == board.snakes@.len(),
                b == board@,
                0 <= i < n,
                body@ == b.snakes[i as int].body,
                m == body@.len(),
                0 <= j <= m,
                forall|c: Coord|
                    #[trigger] danger@.contains(c) <==> (exists|k: int|
                        0 <= k < i && #[trigger] b.snakes[k].body.contains(c)) || exists|t: int|
                        0 <= t < j && body@[t] == c,
            decreases m - j,
        {
            danger.insert(body[j]);
            assert forall|c: Coord| #[trigger] danger@.contains(c) <==> (exists|k: int|
                0 <= k < i && #[trigger] b.snakes[k].body.contains(c)) || exists|t: int|
                0 <= t < j + 1 && body@[t] == c by {
                if c == body@[j as int] {
                    assert(0 <= j < j + 1 && body@[j as int] == c);
                }
            }
            j += 1;
        }
        assert forall|c: Coord| #[trigger] danger@.contains(c) <==> exists|k: int|
            0 <= k < i + 1 && #[trigger] b.snakes[k].body.contains(c) by {
            if b.snakes[i as int].body.contains(c) {
                assert(0 <= i < i + 1);
            }
        }
        i += 1;
    }
    assert forall|c: Coord| #[trigger] danger@.contains(c) <==> occupied(b, c) by {}

    let mut i: usize = 0;
    while i < n
        invariant
            n == board.snakes@.len(),
            b == board@,
            0 <= i <= n,
            forall|c: Coord|
                #[trigger] danger@.contains(c) <==> occupied(b, c) || threatened_among(
                    b,
                    self_id@,
                    i as int,
                    c,
                ),
        decreases n - i,
    {
        let snake = &board.snakes[i];
        assert(snake@ == b.snakes[i as int]);
        let ghost before = danger@;
        if snake.id != *self_id {
            insert_neighbours(&mut danger, board.width, board.height, snake.head);
        }
        assert forall|c: Coord| #[trigger] danger@.contains(c) <==> occupied(b, c) || threatened_among(
            b,
            self_id@,
            i + 1,
            c,
        ) by {
            if threatened_by(b, self_id@, i as int, c) {
                assert(0 <= i < i + 1);
            }
            if threatened_among(b, self_id@, i + 1, c) {
                let k = choose|k: int| 0 <= k < i + 1 && #[trigger] threatened_by(b, self_id@, k, c);
                if k < i {
                    assert(threatened_among(b, self_id@, i as int, c));
                }
            }
        }
        i += 1;
    }

    let h = board.hazards.len();
    let mut i: usize = 0;
    while i < h
        invariant
            h == board.hazards@.len(),
            b == board@,
            0 <= i <= h,
            forall|c: Coord|
                #[trigger] danger@.contains(c) <==> occupied(b, c) || threatened(b, self_id@, c)
                    || exists|t: int| 0 <= t < i && b.hazards[t] == c,
        decreases h - i,
    {
        danger.insert(board.hazards[i]);
        assert forall|c: Coord| #[trigger] danger@.contains(c) <==> occupied(b, c) || threatened(
            b,
            self_id@,
            c,
        ) || exists|t: int| 0 <= t < i + 1 && b.hazards[t] == c by {
            if c == b.hazards[i as int] {
                assert(0 <= i < i + 1 && b.hazards[i as int] == c);
            }
        }
        i += 1;
    }
    assert(danger@ =~= danger_cells(b, self_id@));
    danger
}

} // verus!
