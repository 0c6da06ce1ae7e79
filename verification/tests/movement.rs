//! Movement: toroidal wrap, direction handling, and the pending queue.

use snake_core::geom::{Pos, Direction, step_from, BOARD_WIDTH, BOARD_HEIGHT};
use snake_core::body::{Body, QUEUE_DEPTH};

fn p(x: i8, y: i8) -> Pos {
    Pos { x, y }
}

#[test]
fn wrap_right_edge() {
    assert_eq!(step_from(p(BOARD_WIDTH - 1, 7), Direction::Right), p(0, 7));
}

#[test]
fn wrap_left_edge() {
    assert_eq!(step_from(p(0, 7), Direction::Left), p(BOARD_WIDTH - 1, 7));
}

#[test]
fn wrap_bottom_edge() {
    assert_eq!(step_from(p(7, BOARD_HEIGHT - 1), Direction::Down), p(7, 0));
}

#[test]
fn wrap_top_edge() {
    assert_eq!(step_from(p(7, 0), Direction::Up), p(7, BOARD_HEIGHT - 1));
}

#[test]
fn interior_moves_are_plain_translations() {
    assert_eq!(step_from(p(5, 5), Direction::Right), p(6, 5));
    assert_eq!(step_from(p(5, 5), Direction::Left), p(4, 5));
    assert_eq!(step_from(p(5, 5), Direction::Down), p(5, 6));
    assert_eq!(step_from(p(5, 5), Direction::Up), p(5, 4));
}

#[test]
fn reverse_pairs() {
    assert_eq!(Direction::Up.reverse(), Direction::Down);
    assert_eq!(Direction::Down.reverse(), Direction::Up);
    assert_eq!(Direction::Left.reverse(), Direction::Right);
    assert_eq!(Direction::Right.reverse(), Direction::Left);
}

#[test]
fn reversal_input_is_dropped() {
    let mut b = Body::new(vec![p(2, 3), p(2, 2), p(2, 1)], Direction::Down);
    b.queue_direction(Direction::Up);
    assert!(b.pending.is_empty());
    assert_eq!(b.last_direction, Direction::Down);
}

#[test]
fn sideways_input_is_accepted() {
    let mut b = Body::new(vec![p(2, 3), p(2, 2), p(2, 1)], Direction::Down);
    b.queue_direction(Direction::Left);
    assert_eq!(b.pending, vec![Direction::Left]);
    assert_eq!(b.last_direction, Direction::Left);
}

#[test]
fn reversal_of_latest_accepted_is_dropped() {
    let mut b = Body::new(vec![p(2, 3), p(2, 2), p(2, 1)], Direction::Down);
    b.queue_direction(Direction::Left);
    b.queue_direction(Direction::Right);
    assert_eq!(b.pending, vec![Direction::Left]);
    assert_eq!(b.last_direction, Direction::Left);
}

#[test]
fn queue_depth_is_bounded() {
    let mut b = Body::new(vec![p(2, 3), p(2, 2), p(2, 1)], Direction::Down);
    b.queue_direction(Direction::Left);
    b.queue_direction(Direction::Up);
    b.queue_direction(Direction::Right);
    assert_eq!(b.pending.len(), QUEUE_DEPTH);
    assert_eq!(b.pending, vec![Direction::Left, Direction::Up]);
}

#[test]
fn step_without_growth_translates() {
    let mut b = Body::new(vec![p(2, 3), p(2, 2), p(2, 1)], Direction::Down);
    let h = b.step(false);
    assert_eq!(h, p(2, 4));
    assert_eq!(b.cells, vec![p(2, 4), p(2, 3), p(2, 2)]);
}

#[test]
fn step_with_growth_keeps_tail() {
    let mut b = Body::new(vec![p(2, 3), p(2, 2), p(2, 1)], Direction::Down);
    let h = b.step(true);
    assert_eq!(h, p(2, 4));
    assert_eq!(b.cells, vec![p(2, 4), p(2, 3), p(2, 2), p(2, 1)]);
}

#[test]
fn step_consumes_queued_direction() {
    let mut b = Body::new(vec![p(2, 3), p(2, 2), p(2, 1)], Direction::Down);
    b.queue_direction(Direction::Right);
    let h = b.step(false);
    assert_eq!(h, p(3, 3));
    assert!(b.pending.is_empty());
}

#[test]
fn occupies_is_membership() {
    let b = Body::new(vec![p(2, 3), p(2, 2), p(2, 1)], Direction::Down);
    assert!(b.occupies(p(2, 2)));
    assert!(!b.occupies(p(3, 2)));
}
