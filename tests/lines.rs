use tetris::board::Block;
use tetris::lines::{check_full_line, is_row_full, score_for_lines, Score};

fn b(x: i32, y: i32) -> Block {
    Block { x, y }
}

fn row(y: i32) -> Vec<Block> {
    (0..10).map(|x| b(x - 3, y)).collect()
}

#[test]
fn row_of_ten_distinct_columns_is_full() {
    let board = row(21);
    assert!(is_row_full(&board, 21));
    assert!(!is_row_full(&board, 20));
}

#[test]
fn row_of_nine_cells_is_not_full() {
    let mut board = row(21);
    board.pop();
    assert!(!is_row_full(&board, 21));
}

#[test]
fn duplicate_columns_are_counted_once() {
    let mut board = row(21);
    board.pop();
    board.push(b(0, 21));
    assert_eq!(board.len(), 10);
    assert!(!is_row_full(&board, 21));
    board.push(b(6, 21));
    assert!(is_row_full(&board, 21));
}

#[test]
fn award_table() {
    assert_eq!(score_for_lines(0), 0);
    assert_eq!(score_for_lines(1), 100);
    assert_eq!(score_for_lines(2), 200);
    assert_eq!(score_for_lines(3), 400);
    assert_eq!(score_for_lines(4), 800);
    assert_eq!(score_for_lines(5), 1000);
    assert_eq!(score_for_lines(9), 1000);
}

fn clear_n_rows(n: i32) -> (usize, u32) {
    let mut board = Vec::new();
    for k in 0..n {
        board.extend(row(21 - k));
    }
    let mut score = Score(0);
    let cleared = check_full_line(&mut score, &mut board);
    assert!(board.is_empty());
    (cleared, score.0)
}

#[test]
fn one_to_five_rows_award_by_table() {
    assert_eq!(clear_n_rows(1), (1, 100));
    assert_eq!(clear_n_rows(2), (2, 200));
    assert_eq!(clear_n_rows(3), (3, 400));
    assert_eq!(clear_n_rows(4), (4, 800));
    assert_eq!(clear_n_rows(5), (5, 1000));
}

#[test]
fn no_full_row_leaves_board_and_score() {
    let mut board = vec![b(0, 21), b(1, 20)];
    let mut score = Score(300);
    assert_eq!(check_full_line(&mut score, &mut board), 0);
    assert_eq!(board, vec![b(0, 21), b(1, 20)]);
    assert_eq!(score, Score(300));
}

#[test]
fn cells_above_a_cleared_row_fall_one_row() {
    let mut board = vec![b(0, 18), b(2, 21)];
    board.extend(row(20));
    board.push(b(5, 19));
    let mut score = Score(0);
    assert_eq!(check_full_line(&mut score, &mut board), 1);
    assert_eq!(board, vec![b(0, 19), b(2, 21), b(5, 20)]);
    assert_eq!(score, Score(100));
}

#[test]
fn cells_fall_once_per_cleared_row_below() {
    let mut board = vec![b(1, 15)];
    board.extend(row(21));
    board.push(b(2, 19));
    board.extend(row(18));
    board.push(b(3, 22));
    let mut score = Score(50);
    assert_eq!(check_full_line(&mut score, &mut board), 2);
    // (1, 15) has both rows below it, (2, 19) only row 21, (3, 22) none
    assert_eq!(board, vec![b(1, 17), b(2, 20), b(3, 22)]);
    assert_eq!(score, Score(250));
}

#[test]
fn score_saturates() {
    let mut board = row(21);
    let mut score = Score(u32::MAX - 10);
    check_full_line(&mut score, &mut board);
    assert_eq!(score, Score(u32::MAX));
}
