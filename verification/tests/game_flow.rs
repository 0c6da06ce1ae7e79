//! Game orchestration: scenarios over ticks, collisions, pickup, the speed
//! ramp, pausing, game over, and restart.

use snake_core::geom::{Pos, Direction};
use snake_core::food::{FoodKind, FoodRegistry};
use snake_core::level::{Level, level1, level2};
use snake_core::game::{Game, State, InputEvent, INITIAL_INTERVAL_MS, MIN_INTERVAL_MS};

fn p(x: i8, y: i8) -> Pos {
    Pos { x, y }
}

/// A board with the given walls and the standard initial body heading down.
fn open_level(walls: Vec<Pos>) -> Level {
    Level {
        walls,
        invisible_walls: Vec::new(),
        init_body: vec![p(2, 3), p(2, 2), p(2, 1)],
        init_dir: Direction::Down,
    }
}

#[test]
fn plain_tick_translates_the_body() {
    let mut g = Game::with_level(open_level(Vec::new()));
    let over = g.tick_once();
    assert!(!over);
    assert_eq!(g.state, State::Playing);
    assert_eq!(g.body.cells, vec![p(2, 4), p(2, 3), p(2, 2)]);
    assert_eq!(g.score, 0);
}

#[test]
fn pickup_grows_scores_and_ramps_speed() {
    let mut g = Game::with_level(open_level(Vec::new()));
    g.foods.spawn_at(FoodKind::Apple, p(2, 4));
    let over = g.tick_once();
    assert!(!over);
    assert_eq!(g.score, 10);
    assert_eq!(g.body.cells, vec![p(2, 4), p(2, 3), p(2, 2), p(2, 1)]);
    assert_eq!(g.interval_ms, INITIAL_INTERVAL_MS - 2);
    assert!(!g.foods.has_food_at(p(2, 4)));
}

#[test]
fn candy_pickup_scores_fifty() {
    let mut g = Game::with_level(open_level(Vec::new()));
    g.foods.spawn_at(FoodKind::Candy, p(2, 4));
    g.tick_once();
    assert_eq!(g.score, 50);
    assert_eq!(g.body.cells.len(), 4);
    assert!(g.foods.candy.is_none());
}

#[test]
fn speed_ramp_stops_at_the_floor() {
    let mut g = Game::with_level(open_level(Vec::new()));
    g.interval_ms = MIN_INTERVAL_MS + 1;
    g.foods.spawn_at(FoodKind::Apple, p(2, 4));
    g.tick_once();
    assert_eq!(g.interval_ms, MIN_INTERVAL_MS);
    g.foods.spawn_at(FoodKind::Apple, p(2, 5));
    g.tick_once();
    assert_eq!(g.interval_ms, MIN_INTERVAL_MS);
}

#[test]
fn wall_collision_ends_the_run() {
    let mut g = Game::with_level(open_level(vec![p(2, 4)]));
    let before = g.body.cells.clone();
    let over = g.tick_once();
    assert!(over);
    assert_eq!(g.state, State::GameOver);
    assert_eq!(g.score, 0);
    assert_eq!(g.body.cells, before);
    // A later update call no longer moves the body.
    let ended = g.advance(10 * INITIAL_INTERVAL_MS);
    assert_eq!(ended, None);
    assert_eq!(g.body.cells, before);
    assert_eq!(g.state, State::GameOver);
}

#[test]
fn invisible_wall_collides_like_a_wall() {
    let mut g = Game::with_level(Level {
        walls: Vec::new(),
        invisible_walls: vec![p(2, 4)],
        init_body: vec![p(2, 3), p(2, 2), p(2, 1)],
        init_dir: Direction::Down,
    });
    assert!(g.tick_once());
    assert_eq!(g.state, State::GameOver);
}

#[test]
fn self_collision_ends_the_run() {
    // A 2x2 loop of five cells: the head closes onto the tail's cell, which
    // still counts against the pre-move body.
    let mut g = Game::with_level(Level {
        walls: Vec::new(),
        invisible_walls: Vec::new(),
        init_body: vec![p(5, 5), p(6, 5), p(6, 6), p(5, 6), p(5, 7)],
        init_dir: Direction::Up,
    });
    g.body.pending.push(Direction::Down);
    let over = g.tick_once();
    assert!(over);
    assert_eq!(g.state, State::GameOver);
}

#[test]
fn wrap_move_is_not_a_collision() {
    let mut g = Game::with_level(Level {
        walls: Vec::new(),
        invisible_walls: Vec::new(),
        init_body: vec![p(14, 7), p(13, 7), p(12, 7)],
        init_dir: Direction::Right,
    });
    let over = g.tick_once();
    assert!(!over);
    assert_eq!(g.body.cells[0], p(0, 7));
    assert_eq!(g.state, State::Playing);
}

#[test]
fn advance_converts_time_into_ticks() {
    let mut g = Game::with_level(open_level(Vec::new()));
    // The accumulator is primed at one interval, so the first millisecond
    // past it triggers the first tick.
    assert_eq!(g.advance(1), None);
    assert_eq!(g.body.cells[0], p(2, 4));
    // Less than a full further interval: no tick.
    assert_eq!(g.advance(INITIAL_INTERVAL_MS - 1), None);
    assert_eq!(g.body.cells[0], p(2, 4));
    // Completing the interval ticks again.
    assert_eq!(g.advance(1), None);
    assert_eq!(g.body.cells[0], p(2, 5));
}

#[test]
fn one_slow_frame_runs_several_ticks() {
    let mut g = Game::with_level(open_level(Vec::new()));
    g.advance(3 * INITIAL_INTERVAL_MS + 1);
    assert_eq!(g.body.cells[0], p(2, 7));
}

#[test]
fn pause_freezes_and_unpause_resumes() {
    let mut g = Game::with_level(open_level(Vec::new()));
    g.submit_input(InputEvent::Pause);
    assert_eq!(g.state, State::Paused);
    let before = g.body.cells.clone();
    g.advance(10 * INITIAL_INTERVAL_MS);
    assert_eq!(g.body.cells, before);
    g.submit_input(InputEvent::Pause);
    assert_eq!(g.state, State::Playing);
    g.advance(1);
    assert_ne!(g.body.cells, before);
}

#[test]
fn pause_in_game_over_changes_nothing() {
    let mut g = Game::with_level(open_level(vec![p(2, 4)]));
    g.tick_once();
    assert_eq!(g.state, State::GameOver);
    g.submit_input(InputEvent::Pause);
    assert_eq!(g.state, State::GameOver);
}

#[test]
fn game_over_is_reported_once_with_the_final_score() {
    let mut g = Game::with_level(open_level(vec![p(2, 5)]));
    g.foods.spawn_at(FoodKind::Apple, p(2, 4));
    // First tick eats the apple, second tick hits the wall.
    let ended = g.advance(2 * INITIAL_INTERVAL_MS);
    assert_eq!(ended, Some(10));
    assert_eq!(g.advance(INITIAL_INTERVAL_MS), None);
}

#[test]
fn restart_resets_everything_to_a_fresh_level() {
    let mut g = Game::with_level(open_level(vec![p(2, 4)]));
    g.foods.spawn_at(FoodKind::Candy, p(10, 10));
    g.tick_once();
    assert_eq!(g.state, State::GameOver);
    g.submit_input(InputEvent::Restart);
    assert_eq!(g.state, State::Playing);
    assert_eq!(g.score, 0);
    assert_eq!(g.interval_ms, INITIAL_INTERVAL_MS);
    assert_eq!(g.body.cells, vec![p(2, 3), p(2, 2), p(2, 1)]);
    assert_eq!(g.body.last_direction, Direction::Down);
    assert!(g.body.pending.is_empty());
    assert!(g.foods.apple.is_none());
    assert!(g.foods.candy.is_none());
    let l1 = level1();
    let l2 = level2();
    assert!(
        (g.walls == l1.walls && g.invisible_walls == l1.invisible_walls) || (g.walls == l2.walls
            && g.invisible_walls == l2.invisible_walls)
    );
}

#[test]
fn new_game_uses_one_of_the_layouts() {
    let g = Game::new();
    assert_eq!(g.state, State::Playing);
    assert_eq!(g.score, 0);
    assert_eq!(g.body.cells, vec![p(2, 3), p(2, 2), p(2, 1)]);
    let l1 = level1();
    let l2 = level2();
    assert!(
        (g.walls == l1.walls && g.invisible_walls == l1.invisible_walls) || (g.walls == l2.walls
            && g.invisible_walls == l2.invisible_walls)
    );
}

#[test]
fn layouts_are_well_formed() {
    // The initial body of each layout overlaps no wall and no invisible
    // wall, and its cells are pairwise distinct.
    for l in [level1(), level2()] {
        assert_eq!(l.init_body.len(), 3);
        for (i, c) in l.init_body.iter().enumerate() {
            assert!(!l.walls.contains(c));
            assert!(!l.invisible_walls.contains(c));
            for other in l.init_body.iter().skip(i + 1) {
                assert_ne!(c, other);
            }
        }
    }
}

#[test]
fn render_foods_reports_positions_kinds_and_hints() {
    let mut g = Game::with_level(open_level(Vec::new()));
    assert!(g.render_foods().is_empty());
    g.foods.spawn_at(FoodKind::Apple, p(4, 4));
    g.foods.spawn_at(FoodKind::Candy, p(9, 9));
    let snapshot = g.render_foods();
    assert_eq!(snapshot, vec![(p(4, 4), FoodKind::Apple, true), (p(9, 9), FoodKind::Candy, true)]);
}

#[test]
fn direction_input_reaches_the_body_queue() {
    let mut g = Game::with_level(open_level(Vec::new()));
    g.submit_input(InputEvent::Turn(Direction::Up));
    assert!(g.body.pending.is_empty());
    g.submit_input(InputEvent::Turn(Direction::Right));
    assert_eq!(g.body.pending, vec![Direction::Right]);
    g.advance(1);
    assert_eq!(g.body.cells[0], p(3, 3));
}

#[test]
fn ticking_spawns_an_apple() {
    let mut g = Game::with_level(open_level(Vec::new()));
    g.tick_once();
    let a = g.foods.apple.expect("the certain apple spawn found a free cell");
    assert_eq!(a.kind, FoodKind::Apple);
    assert_eq!(a.age, 1);
    assert!(!g.body.occupies(a.pos));
}

#[test]
fn foods_registry_stays_mutually_exclusive_in_play() {
    let mut g = Game::with_level(open_level(Vec::new()));
    for _ in 0..12 {
        if g.tick_once() {
            break;
        }
        if let (Some(a), Some(c)) = (g.foods.apple, g.foods.candy) {
            assert_ne!(a.pos, c.pos);
        }
    }
}
