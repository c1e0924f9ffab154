use vstd::prelude::*;
use crate::board::{Block, real_x, real_y, BASE_OFFSET_X, BASE_OFFSET_Y, COL_COUNT, ROW_COUNT};

verus! {

/// The directions in which the active piece may move.
#[derive(Clone, Copy, Debug, PartialEq, Eq, Structural)]
pub struct Movable {
    pub can_down: bool,
    pub can_left: bool,
    pub can_right: bool,
}

/// A settled cell stands right beside `p` on its left.
pub open spec fn settled_left_of(p: Block, s: Block) -> bool {
    s.y == p.y && s.x == p.x - 1
}

/// A settled cell stands right beside `p` on its right.
pub open spec fn settled_right_of(p: Block, s: Block) -> bool {
    s.y == p.y && s.x == p.x + 1
}

/// A settled cell in the column of `p` stops it from falling: the one right
/// below it (when `p` is below row 0), or one in row 0.
pub open spec fn settled_below(p: Block, s: Block) -> bool {
    s.x == p.x && ((p.y > 0 && s.y == p.y + 1) || s.y == 0)
}

/// The cell `p` may not move left.
pub open spec fn left_blocked(p: Block, board: Seq<Block>) -> bool {
    real_x(p) == 0 || exists|j: int| 0 <= j < board.len() && settled_left_of(p, #[trigger] board[j])
}

/// The cell `p` may not move right.
pub open spec fn right_blocked(p: Block, board: Seq<Block>) -> bool {
    real_x(p) == COL_COUNT - 1 || exists|j: int|
        0 <= j < board.len() && settled_right_of(p, #[trigger] board[j])
}

/// The cell `p` may not move down.
pub open spec fn down_blocked(p: Block, board: Seq<Block>) -> bool {
    real_y(p) == ROW_COUNT - 1 || exists|j: int| 0 <= j < board.len() && settled_below(p, #[trigger] board[j])
}

/// Movement permissions of a piece: a direction is open only when it is open
/// for every one of its cells.
pub open spec fn movable_of(piece: Seq<Block>, board: Seq<Block>) -> Movable {
    Movable {
        can_down: !exists|i: int| 0 <= i < piece.len() && down_blocked(#[trigger] piece[i], board),
        can_left: !exists|i: int| 0 <= i < piece.len() && left_blocked(#[trigger] piece[i], board),
        can_right: !exists|i: int| 0 <= i < piece.len() && right_blocked(#[trigger] piece[i], board),
    }
}

/// Some cell of the piece touches a wall, the floor or a settled cell.
#[verifier::opaque]
pub open spec fn collides(piece: Seq<Block>, board: Seq<Block>) -> bool {
    exists|i: int|
        0 <= i < piece.len() && {
            ||| left_blocked(#[trigger] piece[i], board)
            ||| right_blocked(piece[i], board)
            ||| down_blocked(piece[i], board)
        }
}

/// The permissions of one cell against the settled cells and the walls.
fn cell_movable(p: Block, board: &Vec<Block>) -> (r: Movable)
    ensures
        r.can_left == !left_blocked(p, board@),
        r.can_right == !right_blocked(p, board@),
        r.can_down == !down_blocked(p, board@),
{
    let px = p.x as i64;
    let py = p.y as i64;
    let mut can_left = px + BASE_OFFSET_X as i64 != 0;
    let mut can_right = px + BASE_OFFSET_X as i64 != COL_COUNT as i64 - 1;
    let mut can_down = py + BASE_OFFSET_Y as i64 != ROW_COUNT as i64 - 1;
    let mut j: usize = 0;
    while j < board.len()
        invariant
            0 <= j <= board.len(),
            px == p.x,
            py == p.y,
            can_left == !(real_x(p) == 0 || exists|k: int| 0 <= k < j && settled_left_of(p, #[trigger] board@[k])),
            can_right == !(real_x(p) == COL_COUNT - 1 || exists|k: int|
                0 <= k < j && settled_right_of(p, #[trigger] board@[k])),
            can_down == !(real_y(p) == ROW_COUNT - 1 || exists|k: int|
                0 <= k < j && settled_below(p, #[trigger] board@[k])),
        decreases board.len() - j,
    {
        let bx = board[j].x as i64;
        let by = board[j].y as i64;
        if by == py {
            if bx == px - 1 {
                can_left = false;
            } else if bx == px + 1 {
                can_right = false;
            }
        }
        if bx == px {
            if py > 0 && by == py + 1 {
                can_down = false;
            }
            if by == 0 {
                can_down = false;
            }
        }
        j = j + 1;
    }
    Movable { can_down, can_left, can_right }
}

/// Recomputes the movement permissions of the active piece against the walls,
/// the floor and the settled cells.
pub fn check_collision(piece: &[Block], board: &Vec<Block>) -> (r: Movable)
    ensures
        r == movable_of(piece@, board@),
{
    let mut can_down = true;
    let mut can_left = true;
    let mut can_right = true;
    let mut i: usize = 0;
    while i < piece.len()
        invariant
            0 <= i <= piece@.len(),
            can_left == !exists|k: int| 0 <= k < i && left_blocked(#[trigger] piece@[k], board@),
            can_right == !exists|k: int| 0 <= k < i && right_blocked(#[trigger] piece@[k], board@),
            can_down == !exists|k: int| 0 <= k < i && down_blocked(#[trigger] piece@[k], board@),
        decreases piece@.len() - i,
    {
        let m = cell_movable(piece[i], board);
        can_left = can_left && m.can_left;
        can_right = can_right && m.can_right;
        can_down = can_down && m.can_down;
        i = i + 1;
    }
    Movable { can_down, can_left, can_right }
}

/// Whether a piece, as placed, touches a wall, the floor or a settled cell.
pub fn whether_colliding(piece: &[Block], board: &Vec<Block>) -> (r: bool)
    ensures
        r == collides(piece@, board@),
{
    reveal(collides);
    let mut i: usize = 0;
    while i < piece.len()
        invariant
            0 <= i <= piece@.len(),
            forall|k: int| 0 <= k < i ==> !{
                ||| left_blocked(#[trigger] piece@[k], board@)
                ||| right_blocked(piece@[k], board@)
                ||| down_blocked(piece@[k], board@)
            },
        decreases piece@.len() - i,
    {
        let m = cell_movable(piece[i], board);
        if !m.can_left || !m.can_right || !m.can_down {
            assert(left_blocked(piece@[i as int], board@) || right_blocked(piece@[i as int], board@)
                || down_blocked(piece@[i as int], board@));
            assert(collides(piece@, board@)) by {
                reveal(collides);
                assert(0 <= i < piece@.len());
            }
            return true;
        }
        i = i + 1;
    }
    false
}

/// The collision check depends on the piece and the settled cells alone: two
/// checks of one state agree, and a piece collides exactly when one of its
/// movement permissions is closed.
pub proof fn lemma_collision_check_is_stable(piece: Seq<Block>, board: Seq<Block>, first: bool, second: bool)
    requires
        first == collides(piece, board),
        second == collides(piece, board),
    ensures
        first == second,
        first == !{
            let m = movable_of(piece, board);
            m.can_left && m.can_right && m.can_down
        },
{
    reveal(collides);
}

} // verus!
