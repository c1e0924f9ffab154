use tetris::board::Block;
use tetris::piece::{piece_shape, PieceType};
use tetris::rotation::rotate_piece;

fn b(x: i32, y: i32) -> Block {
    Block { x, y }
}

fn sorted(cells: &[Block; 4]) -> Vec<(i32, i32)> {
    let mut v: Vec<(i32, i32)> = cells.iter().map(|c| (c.x, c.y)).collect();
    v.sort();
    v
}

#[test]
fn o_piece_rotation_is_a_fixed_point() {
    let mut cells = piece_shape(PieceType::O);
    let before = cells;
    rotate_piece(PieceType::O, &mut cells, &Vec::new());
    assert_eq!(sorted(&cells), sorted(&before));
    assert_eq!(cells, [b(2, 1), b(1, 1), b(2, 0), b(1, 0)]);
    let mut moved = [b(3, 6), b(3, 5), b(4, 6), b(4, 5)];
    let before = moved;
    rotate_piece(PieceType::O, &mut moved, &Vec::new());
    assert_eq!(sorted(&moved), sorted(&before));
}

#[test]
fn i_piece_turns_upright() {
    let mut cells = piece_shape(PieceType::I);
    rotate_piece(PieceType::I, &mut cells, &Vec::new());
    assert_eq!(cells, [b(1, 1), b(1, 0), b(1, -1), b(1, -2)]);
}

#[test]
fn l_piece_gets_an_extra_row() {
    let mut cells = piece_shape(PieceType::L);
    // sums (5, 1): quarters (1, 0); shift (1, 2)
    rotate_piece(PieceType::L, &mut cells, &Vec::new());
    assert_eq!(cells, [b(1, 2), b(1, 1), b(1, 0), b(2, 0)]);
}

#[test]
fn rotation_against_walls_takes_second_corrective_shift() {
    // upright I lands in column 3, rows 3..6, next to (4, 4): collides;
    // moved to column 2 it touches (3, 3): collides; column 1 is free
    let mut cells = [b(2, 5), b(3, 5), b(4, 5), b(5, 5)];
    let board = vec![b(4, 4), b(3, 3)];
    rotate_piece(PieceType::I, &mut cells, &board);
    assert_eq!(cells, [b(1, 6), b(1, 5), b(1, 4), b(1, 3)]);
}

#[test]
fn rotation_takes_first_corrective_shift() {
    let mut cells = [b(2, 5), b(3, 5), b(4, 5), b(5, 5)];
    let board = vec![b(4, 4)];
    rotate_piece(PieceType::I, &mut cells, &board);
    assert_eq!(cells, [b(2, 6), b(2, 5), b(2, 4), b(2, 3)]);
}

#[test]
fn rotation_against_left_wall_shifts_left_first() {
    // sums (-14, 20): quarters (-3, 5); the upright piece lands in column -3,
    // display column 0, and the first shift (one column left) is free
    let mut cells = [b(-5, 5), b(-4, 5), b(-3, 5), b(-2, 5)];
    rotate_piece(PieceType::I, &mut cells, &Vec::new());
    assert_eq!(cells, [b(-4, 7), b(-4, 6), b(-4, 5), b(-4, 4)]);
}

#[test]
fn rotation_against_left_wall_shifts_right_when_left_is_taken() {
    // column -4 touches (-5, 5) and column -5 stands on it; +3 gives column -2
    let mut cells = [b(-5, 5), b(-4, 5), b(-3, 5), b(-2, 5)];
    let board = vec![b(-5, 5)];
    rotate_piece(PieceType::I, &mut cells, &board);
    assert_eq!(cells, [b(-2, 7), b(-2, 6), b(-2, 5), b(-2, 4)]);
}

#[test]
fn rotation_is_reverted_when_every_shift_collides() {
    // the upright piece would reach display row 19 in every column
    let mut cells = [b(2, 20), b(3, 20), b(4, 20), b(5, 20)];
    let before = cells;
    rotate_piece(PieceType::I, &mut cells, &Vec::new());
    assert_eq!(cells, before);
}
