use snake::{Arena, Cell, Collectible, Direction, Ending, Game, Glyph, Position, Signal, Snake, Status};
use std::collections::VecDeque;

const ALL: [Direction; 4] = [Direction::Left, Direction::Right, Direction::Up, Direction::Down];

fn pos(x: u16, y: u16) -> Position {
    Position::new(x, y)
}

fn reverse(d: Direction) -> Direction {
    match d {
        Direction::Left => Direction::Right,
        Direction::Right => Direction::Left,
        Direction::Up => Direction::Down,
        Direction::Down => Direction::Up,
    }
}

#[test]
fn same_direction_twice_changes_nothing_more() {
    for start in ALL {
        for d in ALL {
            let mut s = Snake::new(start, pos(5, 5));
            s.set_direction(d);
            let once = s.direction;
            s.set_direction(d);
            assert_eq!(s.direction, once);
        }
    }
}

#[test]
fn reversal_is_refused_on_every_axis() {
    for d in ALL {
        let mut s = Snake::new(d, pos(5, 5));
        s.set_direction(reverse(d));
        assert_eq!(s.direction, d);
    }
}

#[test]
fn perpendicular_turn_is_taken_and_last_one_wins() {
    let mut s = Snake::new(Direction::Right, pos(5, 5));
    s.set_direction(Direction::Up);
    assert_eq!(s.direction, Direction::Up);
    s.set_direction(Direction::Left);
    assert_eq!(s.direction, Direction::Left);
    assert_eq!(Direction::Up.opposite(), Direction::Down);
}

#[test]
fn single_segment_moves_right_and_vacates_old_head() {
    let mut s = Snake::new(Direction::Right, pos(5, 5));
    let vacated = s.advance();
    assert_eq!(s.head, pos(6, 5));
    assert_eq!(vacated, pos(5, 5));
    assert_eq!(s.body.len(), 1);
    assert_eq!(s.body[0], pos(5, 5));
}

#[test]
fn each_direction_moves_one_cell() {
    let cases = [
        (Direction::Left, pos(4, 5)),
        (Direction::Right, pos(6, 5)),
        (Direction::Up, pos(5, 4)),
        (Direction::Down, pos(5, 6)),
    ];
    for (d, expected) in cases {
        let mut s = Snake::new(d, pos(5, 5));
        s.advance();
        assert_eq!(s.head, expected);
    }
}

#[test]
fn longer_body_gives_up_its_tail() {
    let mut s = Snake::new(Direction::Down, pos(3, 3));
    s.body = VecDeque::from(vec![pos(1, 3), pos(2, 3)]);
    let vacated = s.advance();
    assert_eq!(vacated, pos(1, 3));
    assert_eq!(Vec::from(s.body.clone()), vec![pos(2, 3), pos(3, 3)]);
    assert_eq!(s.head, pos(3, 4));
}

#[test]
fn eating_adds_value_and_one_segment() {
    let mut s = Snake::new(Direction::Right, pos(5, 5));
    s.advance();
    let item = Collectible::new(pos(6, 5), 42);
    assert_eq!(s.try_eat(&item), Some(42));
    assert_eq!(s.score, 42);
    assert_eq!(Vec::from(s.body.clone()), vec![pos(5, 5), pos(5, 5)]);
    let vacated = s.advance();
    assert_eq!(vacated, pos(5, 5));
    assert_eq!(Vec::from(s.body.clone()), vec![pos(5, 5), pos(6, 5)]);
    assert_eq!(s.head, pos(7, 5));
}

#[test]
fn missing_the_collectible_changes_nothing() {
    let mut s = Snake::new(Direction::Right, pos(5, 5));
    s.advance();
    let item = Collectible::new(pos(9, 9), 42);
    assert_eq!(s.try_eat(&item), None);
    assert_eq!(s.score, 0);
    assert_eq!(s.body.len(), 1);
}

#[test]
fn eating_a_zero_value_still_grows() {
    let mut s = Snake::new(Direction::Up, pos(5, 5));
    s.advance();
    assert_eq!(s.try_eat(&Collectible::new(pos(5, 4), 0)), Some(0));
    assert_eq!(s.score, 0);
    assert_eq!(s.body.len(), 2);
}

#[test]
fn head_on_any_segment_is_self_collision() {
    for n in 1..=8u16 {
        let body: Vec<Position> = (0..n).map(|i| pos(10 + i, 4)).collect();
        for i in 0..n {
            let mut s = Snake::new(Direction::Left, pos(1, 1));
            s.body = VecDeque::from(body.clone());
            s.head = body[i as usize];
            assert!(s.is_self_collision());
        }
        let mut s = Snake::new(Direction::Left, pos(1, 1));
        s.body = VecDeque::from(body.clone());
        s.head = pos(10 + n, 4);
        assert!(!s.is_self_collision());
    }
}

#[test]
fn boundary_is_wall_and_interior_is_floor() {
    let a = Arena::new(20, 10);
    for x in 0..=20u16 {
        assert!(a.is_wall_collision(pos(x, 0)));
        assert!(a.is_wall_collision(pos(x, 10)));
    }
    for y in 0..=10u16 {
        assert!(a.is_wall_collision(pos(0, y)));
        assert!(a.is_wall_collision(pos(20, y)));
    }
    for x in 1..20u16 {
        for y in 1..10u16 {
            assert!(!a.is_wall_collision(pos(x, y)));
            assert!(a.contains_interior(pos(x, y)));
        }
    }
    assert!(a.is_wall_collision(pos(21, 5)));
    assert!(a.is_wall_collision(pos(5, 11)));
}

#[test]
fn wall_cells_cover_the_border_exactly() {
    let a = Arena::new(4, 3);
    let cells = a.wall_cells();
    for c in &cells {
        assert!(c.x <= 4 && c.y <= 3);
        assert!(c.x == 0 || c.x == 4 || c.y == 0 || c.y == 3);
    }
    for x in 0..=4u16 {
        for y in 0..=3u16 {
            let border = x == 0 || x == 4 || y == 0 || y == 3;
            assert_eq!(cells.contains(&pos(x, y)), border);
        }
    }
    assert!(cells.contains(&pos(4, 3)));
}

#[test]
fn spawn_lands_on_the_floor_with_a_small_value() {
    let a = Arena::new(110, 25);
    let mut xs = Vec::new();
    let mut ys = Vec::new();
    let mut values = Vec::new();
    for _ in 0..500 {
        let c = Collectible::spawn(&a);
        assert!(a.contains_interior(c.position));
        assert!(c.value <= 254);
        xs.push(c.position.x);
        ys.push(c.position.y);
        values.push(c.value);
    }
    assert!(xs.iter().any(|&x| x != 1));
    assert!(ys.iter().any(|&y| y != 1));
    assert!(values.iter().any(|&v| v != 0));
}

#[test]
fn respawn_stays_on_the_floor() {
    let a = Arena::new(2, 2);
    let mut c = Collectible::new(pos(0, 0), 9);
    c.respawn(&a);
    assert_eq!(c.position, pos(1, 1)); // the only floor cell of a 2 by 2 arena
    assert!(c.is_eaten_at(pos(1, 1)));
    assert!(!c.is_eaten_at(pos(1, 2)));
}

fn fixed_game() -> Game {
    let mut g = Game::new(Arena::new(20, 10), Direction::Right, pos(10, 5));
    g.collectible = Collectible::new(pos(11, 5), 10);
    g
}

#[test]
fn end_to_end_eat_on_first_tick() {
    let mut g = fixed_game();
    let fresh = Collectible::new(pos(3, 3), 7);
    let cells = g.step_with(Signal::Idle, fresh);
    assert!(g.snake.score > 0);
    assert_eq!(g.snake.score, 10);
    assert_eq!(g.snake.body.len(), 2);
    assert_eq!(g.snake.head, pos(11, 5));
    assert_eq!(g.status, Status::Running);
    assert_eq!(g.collectible, fresh);
    let expected = vec![
        Cell { position: pos(10, 5), glyph: Glyph::Blank },
        Cell { position: pos(3, 3), glyph: Glyph::Collectible },
        Cell { position: pos(11, 5), glyph: Glyph::Head },
        Cell { position: pos(10, 5), glyph: Glyph::Body },
        Cell { position: pos(10, 5), glyph: Glyph::Body },
    ];
    assert_eq!(cells, expected);
}

#[test]
fn turning_consumes_no_tick() {
    let mut g = fixed_game();
    let cells = g.step_with(Signal::Turn(Direction::Down), Collectible::new(pos(3, 3), 7));
    assert!(cells.is_empty());
    assert_eq!(g.snake.head, pos(10, 5));
    assert_eq!(g.snake.direction, Direction::Down);
    g.step_with(Signal::Turn(Direction::Up), Collectible::new(pos(3, 3), 7));
    assert_eq!(g.snake.direction, Direction::Down);
    g.step_with(Signal::Idle, Collectible::new(pos(3, 3), 7));
    assert_eq!(g.snake.head, pos(10, 6));
    assert_eq!(g.collectible, Collectible::new(pos(11, 5), 10));
}

#[test]
fn running_into_the_wall_ends_the_game() {
    let mut g = Game::new(Arena::new(20, 10), Direction::Right, pos(18, 5));
    g.collectible = Collectible::new(pos(1, 1), 3);
    let fresh = Collectible::new(pos(2, 2), 3);
    g.step_with(Signal::Idle, fresh);
    assert_eq!(g.status, Status::Running);
    g.step_with(Signal::Idle, fresh);
    assert_eq!(g.snake.head, pos(20, 5));
    assert_eq!(g.status, Status::Over(Ending::Collision));
    let cells = g.step_with(Signal::Idle, fresh);
    assert!(cells.is_empty());
    assert_eq!(g.snake.head, pos(20, 5));
}

#[test]
fn running_into_the_body_ends_the_game() {
    let mut g = Game::new(Arena::new(20, 10), Direction::Up, pos(5, 5));
    g.collectible = Collectible::new(pos(1, 1), 3);
    g.snake.body = VecDeque::from(vec![pos(4, 5), pos(4, 4), pos(5, 4), pos(6, 4)]);
    g.step_with(Signal::Idle, Collectible::new(pos(2, 2), 3));
    assert_eq!(g.snake.head, pos(5, 4));
    assert_eq!(g.status, Status::Over(Ending::Collision));
}

#[test]
fn quit_ends_the_game_for_a_different_reason() {
    let mut g = fixed_game();
    let cells = g.step(Signal::Quit);
    assert!(cells.is_empty());
    assert_eq!(g.status, Status::Over(Ending::Quit));
    g.step(Signal::Turn(Direction::Up));
    assert_eq!(g.snake.direction, Direction::Right);
}

#[test]
fn step_draws_a_fresh_collectible_on_the_floor() {
    let mut g = fixed_game();
    let cells = g.step(Signal::Idle);
    assert_eq!(g.snake.score, 10);
    assert_eq!(cells.len(), 5);
    assert!(g.arena.contains_interior(g.collectible.position));
    assert_eq!(cells[1].position, g.collectible.position);
}
