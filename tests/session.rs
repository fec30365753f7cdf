use snake_rs::apple::{Apple, APPLE_RADIUS};
use snake_rs::apples::Apples;
use snake_rs::game::{ConfigError, Game, GameState, HEAD_RADIUS, NUMBER_APPLES};
use snake_rs::geometry::{is_within, wrap};
use snake_rs::seg::{Seg, Tint, SEG_RADIUS};
use snake_rs::snake::Direction;

const W: i32 = 800;
const H: i32 = 600;
const STEP: i32 = 2 * HEAD_RADIUS;

fn game(quota: u32) -> Game {
    Game::new(W, H, quota).unwrap()
}

fn place_head(g: &mut Game, x: i32, y: i32) {
    g.snake.head.x = x;
    g.snake.head.y = y;
}

#[test]
fn new_session_starts_as_lone_head() {
    let g = game(NUMBER_APPLES);
    assert!(g.snake.alive);
    assert_eq!(g.snake.direction, Direction::Right);
    assert_eq!(g.snake.head.x, W / 2);
    assert_eq!(g.snake.head.y, H);
    assert_eq!((g.snake.head.dx, g.snake.head.dy), (1, 0));
    assert_eq!(g.snake.head.radius, HEAD_RADIUS);
    assert!(g.snake.body.is_empty());
    assert!(g.apples.apples.is_empty());
    assert_eq!(g.count, NUMBER_APPLES);
    assert_eq!(g.state, GameState::Playing);
    assert_eq!(g.score(), 0);
}

#[test]
fn new_session_rejects_bad_configuration() {
    assert_eq!(Game::new(0, H, 1).unwrap_err(), ConfigError::InvalidExtent);
    assert_eq!(Game::new(W, -5, 1).unwrap_err(), ConfigError::InvalidExtent);
    assert_eq!(Game::new(2_000_000, H, 1).unwrap_err(), ConfigError::InvalidExtent);
    assert_eq!(Game::new(0, H, 0).unwrap_err(), ConfigError::InvalidExtent);
    assert_eq!(Game::new(W, H, 0).unwrap_err(), ConfigError::ZeroQuota);
    assert!(Game::new(1, 1, 1).is_ok());
    assert!(Game::new(1_000_000, 1_000_000, 1).is_ok());
}

#[test]
fn wrap_stays_on_playfield_and_is_idempotent() {
    for &(c, e) in &[(-1, 10), (-1000, 10), (0, 10), (5, 10), (10, 10), (11, 10), (i32::MAX, 10), (i32::MIN, 7)] {
        let r = wrap(c, e);
        assert!(0 <= r && r <= e);
        assert_eq!(wrap(r, e), r);
    }
    assert_eq!(wrap(-1, 10), 10);
    assert_eq!(wrap(11, 10), 0);
    assert_eq!(wrap(7, 10), 7);
    assert_eq!(wrap(0, 10), 0);
    assert_eq!(wrap(10, 10), 10);
}

#[test]
fn distance_test_is_strict() {
    assert!(is_within(0, 0, 3, 4, 6));
    assert!(!is_within(0, 0, 3, 4, 5));
    assert!(!is_within(0, 0, 0, 0, 0));
    assert!(is_within(i32::MIN, 0, i32::MIN, 0, 1));
    assert!(!is_within(i32::MIN, i32::MIN, i32::MAX, i32::MAX, 1_000_000));
}

#[test]
fn reversal_is_refused() {
    let mut g = game(5);
    g.snake.left();
    assert_eq!(g.snake.direction, Direction::Right);
    assert_eq!((g.snake.head.dx, g.snake.head.dy), (1, 0));
    g.snake.up();
    assert_eq!((g.snake.head.dx, g.snake.head.dy), (0, -1));
    g.snake.down();
    assert_eq!(g.snake.direction, Direction::Up);
    assert_eq!((g.snake.head.dx, g.snake.head.dy), (0, -1));
    g.snake.left();
    assert_eq!((g.snake.head.dx, g.snake.head.dy), (-1, 0));
    g.snake.right();
    assert_eq!(g.snake.direction, Direction::Left);
    g.snake.down();
    assert_eq!((g.snake.head.dx, g.snake.head.dy), (0, 1));
    g.snake.set_direction(Direction::Up);
    assert_eq!(g.snake.direction, Direction::Down);
}

#[test]
fn player_movement_without_intent_keeps_direction() {
    let mut g = game(5);
    g.player_movement(None);
    assert_eq!(g.snake.direction, Direction::Right);
    g.player_movement(Some(Direction::Down));
    assert_eq!(g.snake.direction, Direction::Down);
}

#[test]
fn growth_appends_at_given_position_with_alternating_colours() {
    let mut g = game(5);
    g.snake.add_segment(3, 4);
    g.snake.add_segment(5, 6);
    g.snake.add_segment(7, 8);
    assert_eq!(g.snake.body.len(), 3);
    assert_eq!((g.snake.body[2].x, g.snake.body[2].y), (7, 8));
    assert_eq!(g.snake.body[0].color, Tint::Yellow);
    assert_eq!(g.snake.body[1].color, Tint::Green);
    assert_eq!(g.snake.body[2].color, Tint::Yellow);
    assert_eq!(g.snake.body[1].radius, SEG_RADIUS);
}

#[test]
fn head_moves_one_cell_along_its_direction() {
    let mut g = game(5);
    place_head(&mut g, 100, 100);
    g.snake.move_head();
    assert_eq!((g.snake.head.x, g.snake.head.y), (100 + STEP, 100));
    g.snake.up();
    g.snake.move_head();
    assert_eq!((g.snake.head.x, g.snake.head.y), (100 + STEP, 100 - STEP));
}

#[test]
fn body_follows_the_segment_ahead() {
    let mut g = game(5);
    place_head(&mut g, 100, 100);
    g.snake.add_segment(74, 100);
    g.snake.add_segment(48, 100);
    g.snake.add_segment(22, 100);
    g.snake.slither(W, H);
    assert_eq!((g.snake.head.x, g.snake.head.y), (126, 100));
    let body: Vec<(i32, i32)> = g.snake.body.iter().map(|s| (s.x, s.y)).collect();
    assert_eq!(body, vec![(100, 100), (74, 100), (48, 100)]);
    assert_eq!(g.snake.body[2].color, Tint::Yellow);
}

#[test]
fn head_wraps_before_the_body_follows() {
    // a head that stepped left past the edge re-enters at the far edge
    let mut g = game(5);
    g.snake.up();
    g.snake.left();
    place_head(&mut g, -STEP, 300);
    g.snake.add_segment(0, 300);
    g.snake.slither(W, H);
    assert_eq!(g.snake.body[0].x, W);
    assert_eq!(g.snake.head.x, W - STEP);
    assert!(g.snake.head.x >= 0);
    // and one that stepped past the far edge re-enters at zero
    let mut g = game(5);
    place_head(&mut g, W + 1, H + 1);
    g.snake.slither(W, H);
    assert_eq!((g.snake.head.x, g.snake.head.y), (STEP, 0));
}

#[test]
fn head_at_left_edge_heading_left() {
    let mut g = game(5);
    g.snake.up();
    g.snake.left();
    place_head(&mut g, 0, 300);
    g.snake.slither(W, H);
    assert_eq!(g.snake.head.x, -STEP);
    g.snake.slither(W, H);
    assert_eq!(g.snake.head.x, W - STEP);
}

#[test]
fn only_first_food_in_reach_is_eaten() {
    let mut g = game(5);
    place_head(&mut g, 100, 100);
    let mut apples = vec![Apple::new(500, 500), Apple::new(105, 100), Apple::new(100, 100)];
    assert!(g.snake.check_collision(&mut apples));
    assert!(apples[0].active);
    assert!(!apples[1].active);
    assert!(apples[2].active);
    assert_eq!(g.snake.body.len(), 1);
    assert_eq!((g.snake.body[0].x, g.snake.body[0].y), (105, 100));
    // the next call eats the other one
    assert!(g.snake.check_collision(&mut apples));
    assert!(!apples[2].active);
    assert_eq!(g.snake.body.len(), 2);
    assert_eq!((g.snake.body[1].x, g.snake.body[1].y), (100, 100));
    assert!(!g.snake.check_collision(&mut apples));
    assert_eq!(g.snake.body.len(), 2);
}

#[test]
fn food_reach_is_twice_its_radius() {
    let mut g = game(5);
    place_head(&mut g, 100, 100);
    let reach = 2 * APPLE_RADIUS;
    let mut apples = vec![Apple::new(100 + reach, 100)];
    assert!(!g.snake.check_collision(&mut apples));
    assert!(apples[0].active);
    let mut apples = vec![Apple::new(100 + reach - 1, 100)];
    assert!(g.snake.check_collision(&mut apples));
    let mut none: Vec<Apple> = Vec::new();
    assert!(!g.snake.check_collision(&mut none));
}

#[test]
fn self_collision_threshold() {
    let mut g = game(5);
    place_head(&mut g, 100, 100);
    assert!(g.snake.head_collision());
    g.snake.add_segment(100 + 2 * SEG_RADIUS, 100);
    assert!(g.snake.head_collision());
    g.snake.add_segment(100, 100 + 2 * SEG_RADIUS - 1);
    assert!(!g.snake.head_collision());
    assert!(!g.snake.alive);
}

#[test]
fn eating_the_last_quota_item_wins() {
    // quota 1, the only food lying right under the head before it moves
    let mut g = game(1);
    let (hx, hy) = (g.snake.head.x, g.snake.head.y);
    g.add_apple(hx, hy);
    g.tick_with(None, 50, 60);
    assert_eq!(g.state, GameState::Won);
    assert_eq!(g.score(), 100);
    assert_eq!(g.count, 0);
    assert_eq!(g.snake.body.len(), 1);
    assert_eq!((g.snake.body[0].x, g.snake.body[0].y), (hx, hy));
    assert!(!g.apples.apples[0].active);
    assert_eq!(g.apples.active_positions(), vec![(50, 60)]);
}

#[test]
fn food_under_the_head_is_eaten_whatever_the_turn() {
    for d in [None, Some(Direction::Up), Some(Direction::Down), Some(Direction::Left), Some(Direction::Right)] {
        let mut g = game(1);
        let (hx, hy) = (g.snake.head.x, g.snake.head.y);
        g.add_apple(hx, hy);
        g.tick(d);
        assert_eq!(g.state, GameState::Won);
        assert_eq!(g.score(), 100);
    }
}

#[test]
fn food_where_the_head_lands_is_eaten() {
    let mut g = game(2);
    let (hx, hy) = (g.snake.head.x, g.snake.head.y);
    g.add_apple(hx + STEP, hy);
    g.tick_with(None, 50, 60);
    assert_eq!(g.state, GameState::Playing);
    assert_eq!(g.score(), 100);
    assert_eq!((g.snake.body[0].x, g.snake.body[0].y), (hx + STEP, hy));
}

#[test]
fn food_two_steps_away_is_not_reached() {
    let mut g = game(1);
    let (hx, hy) = (g.snake.head.x, g.snake.head.y);
    g.add_apple(hx + 3 * STEP, hy);
    g.tick_with(None, 50, 60);
    assert_eq!(g.state, GameState::Playing);
    assert_eq!(g.score(), 0);
    assert!(g.apples.apples[0].active);
}

#[test]
fn head_entering_body_ends_the_game() {
    let mut g = game(5);
    g.snake.down();
    place_head(&mut g, 100, 100);
    g.snake.add_segment(100, 100 + STEP);
    g.snake.add_segment(100 + STEP, 100 + STEP);
    g.snake.add_segment(100 + STEP, 100);
    g.tick_with(None, 50, 60);
    assert_eq!(g.state, GameState::GameOver);
    assert!(!g.snake.alive);
    assert_eq!((g.snake.head.x, g.snake.head.y), (100, 100 + STEP));
}

#[test]
fn finished_session_does_not_change() {
    let mut g = game(5);
    g.snake.down();
    place_head(&mut g, 100, 100);
    g.snake.add_segment(100, 100 + STEP);
    g.snake.add_segment(100 + STEP, 100 + STEP);
    g.snake.add_segment(100 + STEP, 100);
    g.tick_with(None, 50, 60);
    assert_eq!(g.state, GameState::GameOver);
    let head = g.snake.head;
    let body: Vec<Seg> = g.snake.body.clone();
    g.add_apple(head.x, head.y);
    for d in [None, Some(Direction::Left), Some(Direction::Right)] {
        g.tick_with(d, 1, 1);
        g.tick(d);
    }
    assert_eq!(g.state, GameState::GameOver);
    assert_eq!(g.snake.head, head);
    assert_eq!(g.snake.body, body);
    assert_eq!(g.score(), 0);
    assert_eq!(g.apples.apples.len(), 1);

    let mut g = game(1);
    let (hx, hy) = (g.snake.head.x, g.snake.head.y);
    g.add_apple(hx + STEP, hy);
    g.tick_with(None, 50, 60);
    assert_eq!(g.state, GameState::Won);
    let head = g.snake.head;
    g.tick_with(Some(Direction::Up), 1, 1);
    assert_eq!(g.state, GameState::Won);
    assert_eq!(g.snake.head, head);
    assert_eq!(g.score(), 100);
}

#[test]
fn score_rises_by_one_hundred_per_item_and_never_falls() {
    let mut g = game(3);
    g.snake.up();
    place_head(&mut g, 100, 500);
    let mut last = g.score();
    for k in 1..=4 {
        g.add_apple(100, 500 - k * STEP);
        let before = g.snake.body.len();
        g.tick_with(None, 700, 100);
        let s = g.score();
        assert!(s >= last);
        assert_eq!(s, last + 100 * (g.snake.body.len() - before) as u64);
        last = s;
    }
    assert_eq!(g.state, GameState::Won);
    assert_eq!(g.score(), 300);
}

#[test]
fn random_food_lands_inside_the_margins() {
    let mut g = game(5);
    for _ in 0..200 {
        g.random_apple();
    }
    assert_eq!(g.apples.apples.len(), 200);
    let mut xs = std::collections::BTreeSet::new();
    for a in &g.apples.apples {
        assert!(a.active);
        assert!(10 <= a.x && a.x <= W - 10);
        assert!(10 <= a.y && a.y <= H - 10);
        xs.insert(a.x);
    }
    assert!(xs.len() > 1);
    let tiny = Game::new(5, 5, 1).unwrap();
    for _ in 0..50 {
        let (x, y) = tiny.spawn_point();
        assert!((0..=5).contains(&x) && (0..=5).contains(&y));
    }
}

#[test]
fn random_tick_matches_a_tick_at_some_spawn_point() {
    let mut g = game(2);
    let (hx, hy) = (g.snake.head.x, g.snake.head.y);
    g.add_apple(hx + 2 * STEP, hy);
    assert!(g.apple_collision() == false);
    g.snake.slither(W, H);
    assert!(g.apple_collision());
    assert_eq!(g.count, 1);
    assert_eq!(g.apples.apples.len(), 2);
    let a = g.apples.apples[1];
    assert!(a.active && 10 <= a.x && a.x <= W - 10 && 10 <= a.y && a.y <= H - 10);
    g.tick(None);
    assert_eq!(g.state, GameState::Playing);
}

#[test]
fn endgame_is_detected_when_nothing_remains() {
    let mut g = game(1);
    g.detect_endgame();
    assert_eq!(g.state, GameState::Playing);
    g.count = 0;
    g.detect_endgame();
    assert_eq!(g.state, GameState::Won);
    let mut g = game(1);
    g.state = GameState::GameOver;
    g.count = 0;
    g.detect_endgame();
    assert_eq!(g.state, GameState::GameOver);
}

#[test]
fn renderable_state_reports_what_is_drawn() {
    let mut g = game(3);
    place_head(&mut g, 100, 100);
    g.snake.add_segment(74, 100);
    g.snake.add_segment(48, 100);
    g.add_apple(500, 500);
    g.add_apple(100, 100);
    g.add_apple(300, 300);
    g.tick_with(None, 700, 400);
    let r = g.renderable_state();
    assert_eq!(r.head, (126, 100));
    assert_eq!(r.body, vec![(100, 100), (74, 100), (100, 100)]);
    assert_eq!(r.food, vec![(500, 500), (300, 300), (700, 400)]);
    assert_eq!(r.score, 100);
    assert_eq!(r.state, GameState::Playing);
    assert_eq!(g.state(), GameState::Playing);
}

#[test]
fn first_body_segment_takes_the_wrapped_head() {
    let mut g = game(3);
    place_head(&mut g, -5, H + 7);
    g.snake.add_segment(1, 1);
    g.snake.slither(W, H);
    assert_eq!((g.snake.body[0].x, g.snake.body[0].y), (W, 0));
    place_head(&mut g, 30, 40);
    g.snake.slither(W, H);
    assert_eq!((g.snake.body[0].x, g.snake.body[0].y), (30, 40));
}

#[test]
fn active_positions_skip_eaten_food() {
    let mut a = Apples::new();
    a.spawn_at(1, 2);
    a.spawn_at(3, 4);
    a.spawn_at(5, 6);
    a.apples[1].active = false;
    assert_eq!(a.active_positions(), vec![(1, 2), (5, 6)]);
    assert_eq!(Seg::new(7, 8), Seg { dx: 1, dy: 0, x: 7, y: 8, radius: SEG_RADIUS, color: Tint::Green });
    assert_eq!(Apple::new(7, 8).radius, APPLE_RADIUS);
}
