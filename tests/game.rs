use tetris::board::{AppState, Block};
use tetris::collision::Movable;
use tetris::game::{ActivePiece, Game, TickInput};
use tetris::piece::{piece_shape, PieceType};
use tetris::timer::Timer;

const NONE: TickInput = TickInput { left: false, right: false, down: false, rotate: false };

fn b(x: i32, y: i32) -> Block {
    Block { x, y }
}

fn started() -> Game {
    let mut g = Game::new();
    let ev = g.tick(NONE, 0);
    assert!(ev.spawned);
    g
}

#[test]
fn new_game_is_empty_with_one_bag() {
    let g = Game::new();
    assert!(g.settled.is_empty());
    assert!(g.active.is_none());
    assert_eq!(g.score.0, 0);
    assert_eq!(g.state, AppState::InGame);
    assert_eq!(g.queue.0.len(), 7);
}

#[test]
fn first_piece_spawns_on_its_canonical_cells() {
    let g = started();
    let p = g.active.unwrap();
    assert_eq!(p.piece_type, PieceType::I);
    assert_eq!(p.blocks, piece_shape(PieceType::I));
    assert_eq!(p.movable, Movable { can_down: true, can_left: true, can_right: true });
    // a full bag is not refilled; the spawn took its front
    assert_eq!(g.queue.0.len(), 6);
}

#[test]
fn i_piece_falls_to_the_floor_and_settles() {
    let mut g = started();
    for step in 1..=20 {
        let ev = g.tick(NONE, 500);
        assert!(ev.moved);
        assert!(!ev.settled);
        let p = g.active.unwrap();
        assert_eq!(p.blocks[0].y, step);
        assert!(p.movable.can_down);
    }
    let ev = g.tick(NONE, 500);
    assert!(ev.moved);
    assert!(ev.settled);
    assert!(g.active.is_none());
    assert_eq!(g.settled, vec![b(0, 21), b(1, 21), b(2, 21), b(3, 21)]);
    // logical row 21 is the bottom display row
    assert_eq!(g.settled[0].transform_to_real_pos().1, 19);
    assert_eq!(g.state, AppState::InGame);
    let ev = g.tick(NONE, 0);
    assert!(ev.spawned);
    assert_eq!(g.active.unwrap().piece_type, PieceType::J);
}

#[test]
fn grace_period_delays_settling() {
    let mut g = started();
    g.active = Some(ActivePiece {
        piece_type: PieceType::I,
        blocks: [b(0, 21), b(1, 21), b(2, 21), b(3, 21)],
        movable: Movable { can_down: true, can_left: true, can_right: true },
    });
    let ev = g.tick(NONE, 100);
    assert!(!ev.settled);
    assert!(!g.active.unwrap().movable.can_down);
    let ev = g.tick(NONE, 100);
    assert!(!ev.settled);
    let ev = g.tick(NONE, 150);
    assert!(ev.settled);
    assert_eq!(g.settled.len(), 4);
}

#[test]
fn held_down_settles_at_once() {
    let mut g = started();
    g.active = Some(ActivePiece {
        piece_type: PieceType::I,
        blocks: [b(0, 21), b(1, 21), b(2, 21), b(3, 21)],
        movable: Movable { can_down: false, can_left: true, can_right: true },
    });
    let down = TickInput { down: true, ..NONE };
    let ev = g.tick(down, 1);
    assert!(ev.settled);
    assert!(g.active.is_none());
}

#[test]
fn manual_moves_wait_for_their_timer() {
    let mut g = started();
    let left = TickInput { left: true, ..NONE };
    let ev = g.tick(left, 100);
    assert!(ev.moved);
    assert_eq!(g.active.unwrap().blocks[0], b(-1, 0));
    let ev = g.tick(left, 50);
    assert!(!ev.moved);
    assert_eq!(g.active.unwrap().blocks[0], b(-1, 0));
    let right = TickInput { right: true, ..NONE };
    g.tick(right, 50);
    assert_eq!(g.active.unwrap().blocks[0], b(0, 0));
}

#[test]
fn manual_down_replaces_the_automatic_fall() {
    let mut g = started();
    let down = TickInput { down: true, ..NONE };
    g.tick(down, 500);
    assert_eq!(g.active.unwrap().blocks[0], b(0, 1));
    // without the key the automatic fall moves it
    g.tick(NONE, 500);
    assert_eq!(g.active.unwrap().blocks[0], b(0, 2));
}

#[test]
fn left_wall_stops_manual_moves() {
    let mut g = started();
    let left = TickInput { left: true, ..NONE };
    for _ in 0..10 {
        g.tick(left, 100);
    }
    // display column 0 is logical -3
    assert_eq!(g.active.unwrap().blocks[0].x, -3);
}

#[test]
fn rotation_key_turns_the_piece() {
    let mut g = started();
    let rotate = TickInput { rotate: true, ..NONE };
    g.tick(rotate, 0);
    assert_eq!(g.active.unwrap().blocks, [b(1, 1), b(1, 0), b(1, -1), b(1, -2)]);
}

#[test]
fn full_row_is_cleared_and_scored_during_a_tick() {
    let mut g = started();
    g.settled = (1..7).map(|x| b(x, 21)).collect();
    g.active = Some(ActivePiece {
        piece_type: PieceType::I,
        blocks: [b(-3, 21), b(-2, 21), b(-1, 21), b(0, 21)],
        movable: Movable { can_down: false, can_left: false, can_right: true },
    });
    g.settled.push(b(0, 20));
    let down = TickInput { down: true, ..NONE };
    let ev = g.tick(down, 1);
    assert!(ev.settled);
    assert_eq!(ev.lines_cleared, 1);
    assert_eq!(g.score.0, 100);
    assert_eq!(g.settled, vec![b(0, 21)]);
}

#[test]
fn overflow_ends_the_game_and_freezes_it() {
    let mut g = started();
    g.settled = vec![b(4, 1)];
    let ev = g.tick(NONE, 0);
    assert!(ev.game_over);
    assert_eq!(g.state, AppState::GameOver);
    let before = g.active.unwrap().blocks;
    let ev = g.tick(NONE, 500);
    assert!(!ev.game_over && !ev.moved && !ev.spawned);
    assert_eq!(g.active.unwrap().blocks, before);
}

#[test]
fn preview_shows_front_of_queue_once() {
    let mut g = started();
    let next = g.update_next_piece_board().unwrap();
    assert_eq!(next.piece_type, PieceType::J);
    assert!(g.update_next_piece_board().is_none());
}

#[test]
fn repeating_timer_carries_over() {
    let mut t = Timer::new(500, true);
    t.tick(1200);
    assert!(t.finished());
    assert!(t.just_finished());
    assert_eq!(t.times_finished, 2);
    assert_eq!(t.elapsed_ms, 200);
    t.tick(100);
    assert!(!t.finished());
    assert!(!t.just_finished());
}

#[test]
fn one_shot_timer_stays_finished_until_reset() {
    let mut t = Timer::new(100, false);
    t.tick(50);
    assert!(!t.finished());
    t.tick(60);
    assert!(t.finished());
    assert!(t.just_finished());
    assert_eq!(t.elapsed_ms, 100);
    t.tick(10);
    assert!(t.finished());
    assert!(!t.just_finished());
    t.reset();
    assert!(!t.finished());
    assert_eq!(t.elapsed_ms, 0);
}
