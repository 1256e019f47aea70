use starter_snake::{
    build_danger_set, decide_move, end, get_move, info, landing, safe_moves, select_move, start,
    Battlesnake, Board, Coord, DangerSet, Direction, Game,
};

fn c(x: u32, y: u32) -> Coord {
    Coord { x, y }
}

fn snake(id: &str, body: &[(u32, u32)]) -> Battlesnake {
    let body: Vec<Coord> = body.iter().map(|&(x, y)| c(x, y)).collect();
    Battlesnake {
        id: id.to_string(),
        name: id.to_string(),
        health: 100,
        head: body[0],
        length: body.len() as u32,
        body,
        latency: "0".to_string(),
        shout: None,
    }
}

fn board(width: u32, height: u32, snakes: Vec<Battlesnake>, hazards: &[(u32, u32)]) -> Board {
    Board {
        height,
        width,
        food: vec![],
        snakes,
        hazards: hazards.iter().map(|&(x, y)| c(x, y)).collect(),
    }
}

fn game() -> Game {
    Game { id: "g".to_string(), timeout: 500 }
}

fn members(d: &DangerSet, width: u32, height: u32) -> Vec<Coord> {
    let mut out = Vec::new();
    for x in 0..width + 2 {
        for y in 0..height + 2 {
            if d.contains(c(x, y)) {
                out.push(c(x, y));
            }
        }
    }
    out
}

#[test]
fn lone_snake_in_the_middle() {
    let me = snake("me", &[(5, 5), (5, 4), (5, 3)]);
    let b = board(11, 11, vec![me.clone()], &[]);
    let danger = build_danger_set(&b, &me.id);
    assert_eq!(members(&danger, 11, 11), vec![c(5, 3), c(5, 4), c(5, 5)]);
    let safe = safe_moves(&b, me.head, &danger);
    assert_eq!(safe, vec![Direction::Up, Direction::Left, Direction::Right]);
    for _ in 0..50 {
        let r = decide_move(&b, &me);
        assert!(r == Direction::Up || r == Direction::Left || r == Direction::Right);
    }
}

#[test]
fn corner_head_excludes_left_and_down() {
    let me = snake("me", &[(0, 0)]);
    let b = board(11, 11, vec![me.clone()], &[]);
    let danger = build_danger_set(&b, &me.id);
    assert_eq!(safe_moves(&b, me.head, &danger), vec![Direction::Up, Direction::Right]);
    let empty = DangerSet::new();
    assert_eq!(safe_moves(&b, me.head, &empty), vec![Direction::Up, Direction::Right]);
    for _ in 0..50 {
        let r = decide_move(&b, &me);
        assert!(r == Direction::Up || r == Direction::Right);
    }
}

#[test]
fn boxed_in_falls_back_to_up() {
    let me = snake("me", &[(0, 0), (1, 0)]);
    let other = snake("other", &[(2, 2), (2, 3)]);
    let b = board(11, 11, vec![me.clone(), other], &[(0, 1)]);
    let danger = build_danger_set(&b, &me.id);
    assert!(safe_moves(&b, me.head, &danger).is_empty());
    assert_eq!(decide_move(&b, &me), Direction::Up);
    assert_eq!(get_move(&game(), &3, &b, &me), Direction::Up);
}

#[test]
fn surrounded_by_opponent_reach_falls_back_to_up() {
    let me = snake("me", &[(5, 5)]);
    let left = snake("a", &[(3, 5)]);
    let right = snake("b", &[(7, 5)]);
    let up = snake("c", &[(5, 7)]);
    let down = snake("d", &[(5, 3)]);
    let b = board(11, 11, vec![me.clone(), left, right, up, down], &[]);
    assert_eq!(decide_move(&b, &me), Direction::Up);
}

#[test]
fn only_safe_move_is_taken() {
    let me = snake("me", &[(5, 5), (5, 4)]);
    let b = board(11, 11, vec![me.clone()], &[(5, 6), (4, 5)]);
    for _ in 0..50 {
        assert_eq!(decide_move(&b, &me), Direction::Right);
        assert_eq!(get_move(&game(), &1, &b, &me), Direction::Right);
    }
}

#[test]
fn random_choice_reaches_every_safe_move() {
    let me = snake("me", &[(5, 5), (5, 4)]);
    let b = board(11, 11, vec![me.clone()], &[]);
    let mut seen = [false; 3];
    for _ in 0..300 {
        match decide_move(&b, &me) {
            Direction::Up => seen[0] = true,
            Direction::Left => seen[1] = true,
            Direction::Right => seen[2] = true,
            Direction::Down => panic!("down is occupied"),
        }
    }
    assert_eq!(seen, [true, true, true]);
}

#[test]
fn opponent_head_neighbours_are_dangerous() {
    let me = snake("me", &[(9, 9)]);
    let mid = snake("mid", &[(4, 4), (4, 3)]);
    let corner = snake("corner", &[(0, 10)]);
    let b = board(11, 11, vec![me.clone(), mid, corner], &[]);
    let danger = build_danger_set(&b, &me.id);
    for cell in [c(3, 4), c(5, 4), c(4, 5), c(4, 3), c(1, 10), c(0, 9)] {
        assert!(danger.contains(cell));
    }
    assert!(!danger.contains(c(11, 10)));
    assert_eq!(members(&danger, 11, 11).len(), 9);
}

#[test]
fn own_head_neighbours_are_not_added() {
    let me = snake("me", &[(5, 5)]);
    let b = board(11, 11, vec![me.clone()], &[]);
    let danger = build_danger_set(&b, &me.id);
    assert_eq!(members(&danger, 11, 11), vec![c(5, 5)]);
}

#[test]
fn segments_of_every_snake_are_dangerous() {
    let me = snake("me", &[(1, 1), (1, 2), (2, 2), (2, 2)]);
    let other = snake("other", &[(8, 8), (8, 7), (7, 7)]);
    let b = board(11, 11, vec![me.clone(), other.clone()], &[]);
    let danger = build_danger_set(&b, &me.id);
    for s in [&me, &other] {
        for seg in &s.body {
            assert!(danger.contains(*seg));
        }
    }
}

#[test]
fn hazards_are_dangerous() {
    let me = snake("me", &[(1, 1)]);
    let b = board(5, 5, vec![me.clone()], &[(3, 3), (0, 4)]);
    let danger = build_danger_set(&b, &me.id);
    assert_eq!(members(&danger, 5, 5), vec![c(0, 4), c(1, 1), c(3, 3)]);
}

#[test]
fn danger_set_is_deterministic() {
    let me = snake("me", &[(2, 2), (2, 1)]);
    let other = snake("other", &[(6, 6), (6, 5)]);
    let b = board(9, 7, vec![me.clone(), other], &[(0, 0)]);
    let first = build_danger_set(&b, &me.id);
    let second = build_danger_set(&b, &me.id);
    assert_eq!(members(&first, 9, 7), members(&second, 9, 7));
}

#[test]
fn landing_checks_bounds() {
    assert_eq!(landing(11, 11, c(0, 0), Direction::Left), None);
    assert_eq!(landing(11, 11, c(0, 0), Direction::Down), None);
    assert_eq!(landing(11, 11, c(0, 0), Direction::Up), Some(c(0, 1)));
    assert_eq!(landing(11, 11, c(0, 0), Direction::Right), Some(c(1, 0)));
    assert_eq!(landing(11, 11, c(10, 10), Direction::Right), None);
    assert_eq!(landing(11, 11, c(10, 10), Direction::Up), None);
    assert_eq!(landing(u32::MAX, u32::MAX, c(u32::MAX - 1, 3), Direction::Right), None);
}

#[test]
fn select_move_wraps_the_roll() {
    let safe = vec![Direction::Up, Direction::Left, Direction::Right];
    assert_eq!(select_move(&safe, 0), Direction::Up);
    assert_eq!(select_move(&safe, 4), Direction::Left);
    assert_eq!(select_move(&safe, 5), Direction::Right);
    assert_eq!(select_move(&vec![], 9), Direction::Up);
}

#[test]
fn labels_are_cardinal() {
    assert_eq!(Direction::Up.as_str(), "up");
    assert_eq!(Direction::Down.as_str(), "down");
    assert_eq!(Direction::Left.as_str(), "left");
    assert_eq!(Direction::Right.as_str(), "right");
}

#[test]
fn info_describes_appearance() {
    let i = info();
    assert_eq!(i.apiversion, "1");
    assert_eq!(i.author, "");
    assert_eq!(i.color, "#888888");
    assert_eq!(i.head, "default");
    assert_eq!(i.tail, "default");
}

#[test]
fn start_and_end_keep_no_state() {
    let me = snake("me", &[(0, 0)]);
    let b = board(1, 2, vec![me.clone()], &[]);
    start(&game(), &0, &b, &me);
    assert_eq!(get_move(&game(), &1, &b, &me), Direction::Up);
    end(&game(), &9, &b, &me);
    assert_eq!(get_move(&game(), &2, &b, &me), Direction::Up);
}
