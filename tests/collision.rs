use tetris::board::Block;
use tetris::collision::{check_collision, whether_colliding, Movable};

fn b(x: i32, y: i32) -> Block {
    Block { x, y }
}

const FREE: Movable = Movable { can_down: true, can_left: true, can_right: true };

#[test]
fn spawned_piece_on_empty_board_is_free() {
    let piece = [b(0, 0), b(1, 0), b(2, 0), b(3, 0)];
    assert_eq!(check_collision(&piece, &Vec::new()), FREE);
    assert!(!whether_colliding(&piece, &Vec::new()));
}

#[test]
fn left_wall_blocks_left() {
    // logical x -3 is display column 0
    let piece = [b(-3, 5), b(-2, 5), b(-1, 5), b(0, 5)];
    let m = check_collision(&piece, &Vec::new());
    assert_eq!(m, Movable { can_down: true, can_left: false, can_right: true });
    assert!(whether_colliding(&piece, &Vec::new()));
}

#[test]
fn right_wall_blocks_right() {
    // logical x 6 is display column 9
    let piece = [b(3, 5), b(4, 5), b(5, 5), b(6, 5)];
    let m = check_collision(&piece, &Vec::new());
    assert_eq!(m, Movable { can_down: true, can_left: true, can_right: false });
}

#[test]
fn floor_blocks_down() {
    // logical y 21 is display row 19
    let piece = [b(0, 21), b(1, 21), b(2, 21), b(3, 21)];
    let m = check_collision(&piece, &Vec::new());
    assert_eq!(m, Movable { can_down: false, can_left: true, can_right: true });
}

#[test]
fn settled_neighbours_block_each_direction() {
    let piece = [b(1, 5), b(1, 6), b(2, 6), b(3, 6)];
    let left = vec![b(0, 5)];
    assert_eq!(check_collision(&piece, &left), Movable { can_down: true, can_left: false, can_right: true });
    let right = vec![b(4, 6)];
    assert_eq!(check_collision(&piece, &right), Movable { can_down: true, can_left: true, can_right: false });
    let below = vec![b(2, 7)];
    assert_eq!(check_collision(&piece, &below), Movable { can_down: false, can_left: true, can_right: true });
    let apart = vec![b(5, 9), b(0, 7)];
    assert_eq!(check_collision(&piece, &apart), FREE);
}

#[test]
fn settled_cell_in_row_zero_blocks_down_in_its_column() {
    let piece = [b(2, 10), b(3, 10), b(4, 10), b(5, 10)];
    let board = vec![b(4, 0)];
    assert_eq!(check_collision(&piece, &board), Movable { can_down: false, can_left: true, can_right: true });
}

#[test]
fn piece_in_row_zero_is_not_blocked_by_cell_below_unless_row_zero_rule() {
    // a piece cell in row 0 ignores the cell right below it
    let piece = [b(0, 0), b(1, 0), b(2, 0), b(3, 0)];
    let board = vec![b(1, 1)];
    assert_eq!(check_collision(&piece, &board), FREE);
}

#[test]
fn collision_check_twice_gives_same_answer() {
    let piece = [b(1, 5), b(1, 6), b(2, 6), b(3, 6)];
    let boards = vec![Vec::new(), vec![b(0, 5)], vec![b(9, 9)], vec![b(2, 7)]];
    for board in boards {
        let first = whether_colliding(&piece, &board);
        let second = whether_colliding(&piece, &board);
        assert_eq!(first, second);
        let m = check_collision(&piece, &board);
        assert_eq!(first, !(m.can_left && m.can_right && m.can_down));
    }
}
