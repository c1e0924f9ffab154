use vstd::prelude::*;
use crate::board::Block;
use crate::collision::{collides, whether_colliding};
use crate::piece::{blk, shape, PieceType};

verus! {

/// Largest magnitude of a coordinate for which a rotation is computed; it
/// keeps every intermediate value inside `i32`.
pub const COORD_LIMIT: i32 = 1000000;

pub open spec fn within_limits(b: Block) -> bool {
    -COORD_LIMIT <= b.x <= COORD_LIMIT && -COORD_LIMIT <= b.y <= COORD_LIMIT
}

pub open spec fn all_within_limits(p: Seq<Block>) -> bool {
    forall|i: int| 0 <= i < p.len() ==> within_limits(#[trigger] p[i])
}

/// Integer division by four that rounds toward zero.
pub open spec fn quarter(a: int) -> int {
    if a >= 0 {
        a / 4
    } else {
        -((-a) / 4)
    }
}

pub open spec fn sum_x(p: Seq<Block>) -> int {
    p[0].x + p[1].x + p[2].x + p[3].x
}

pub open spec fn sum_y(p: Seq<Block>) -> int {
    p[0].y + p[1].y + p[2].y + p[3].y
}

/// Extra row shift that keeps the rotated footprint of O, L and J centred.
pub open spec fn lift(t: PieceType) -> int {
    match t {
        PieceType::O | PieceType::L | PieceType::J => 1,
        _ => 0,
    }
}

/// A cell turned by a quarter, `(x, y) -> (y, -x)`, then moved by `(dx, dy)`.
pub open spec fn turn_cell(b: Block, dx: int, dy: int) -> Block {
    blk(b.y + dx, -b.x + dy)
}

/// A piece of four cells turned by a quarter about the origin and moved back
/// next to where it stood.
pub open spec fn rotated(t: PieceType, p: Seq<Block>) -> Seq<Block> {
    let dx = quarter(sum_x(p)) - quarter(sum_y(p));
    let dy = quarter(sum_x(p)) + quarter(sum_y(p)) + lift(t);
    seq![turn_cell(p[0], dx, dy), turn_cell(p[1], dx, dy), turn_cell(p[2], dx, dy), turn_cell(p[3], dx, dy)]
}

/// Every cell moved by `dx` columns.
pub open spec fn shifted(p: Seq<Block>, dx: int) -> Seq<Block> {
    p.map_values(|b: Block| blk(b.x + dx, b.y as int))
}

/// Where a rotation leaves a piece: the turned piece if it is free, else the
/// first free one of the turned piece moved by -1, -2, +1 and +4 columns, and
/// the piece as it was if none of them is free.
pub open spec fn rotation_result(t: PieceType, p: Seq<Block>, board: Seq<Block>) -> Seq<Block> {
    let r = rotated(t, p);
    if !collides(r, board) {
        r
    } else if !collides(shifted(r, -1), board) {
        shifted(r, -1)
    } else if !collides(shifted(r, -2), board) {
        shifted(r, -2)
    } else if !collides(shifted(r, 1), board) {
        shifted(r, 1)
    } else if !collides(shifted(r, 4), board) {
        shifted(r, 4)
    } else {
        p
    }
}

/// A cell moved by the given column and row deltas.
fn shift_block(block: Block, delta_x: Option<i32>, delta_y: Option<i32>) -> (r: Block)
    requires
        delta_x is Some ==> i32::MIN <= block.x + delta_x->0 <= i32::MAX,
        delta_y is Some ==> i32::MIN <= block.y + delta_y->0 <= i32::MAX,
    ensures
        r.x == block.x + (if delta_x is Some { delta_x->0 as int } else { 0 }),
        r.y == block.y + (if delta_y is Some { delta_y->0 as int } else { 0 }),
{
    let mut b = block;
    match delta_x {
        Some(delta) => {
            b.x = b.x + delta;
        },
        None => {},
    }
    match delta_y {
        Some(delta) => {
            b.y = b.y + delta;
        },
        None => {},
    }
    b
}

fn shift_piece(blocks: &mut [Block; 4], dx: i32)
    requires
        forall|i: int| 0 <= i < 4 ==> i32::MIN <= (#[trigger] old(blocks)@[i]).x + dx <= i32::MAX,
    ensures
        final(blocks)@ == shifted(old(blocks)@, dx as int),
        forall|i: int|
            0 <= i < 4 ==> (#[trigger] final(blocks)@[i]).x == old(blocks)@[i].x + dx && final(blocks)@[i].y
                == old(blocks)@[i].y,
{
    let b = *blocks;
    *blocks = [
        shift_block(b[0], Some(dx), None),
        shift_block(b[1], Some(dx), None),
        shift_block(b[2], Some(dx), None),
        shift_block(b[3], Some(dx), None),
    ];
    assert(blocks@ =~= shifted(b@, dx as int));
}

fn quarter_exec(a: i64) -> (r: i64)
    requires
        -4 * (COORD_LIMIT as int) <= a <= 4 * (COORD_LIMIT as int),
    ensures
        r == quarter(a as int),
        -COORD_LIMIT <= r <= COORD_LIMIT,
{
    if a >= 0 {
        a / 4
    } else {
        -((-a) / 4)
    }
}

fn turn_block(b: Block, dx: i64, dy: i64) -> (r: Block)
    requires
        within_limits(b),
        -2 * (COORD_LIMIT as int) <= dx <= 2 * (COORD_LIMIT as int),
        -2 * (COORD_LIMIT as int) <= dy <= 2 * (COORD_LIMIT as int) + 1,
    ensures
        r == turn_cell(b, dx as int, dy as int),
        -3 * (COORD_LIMIT as int) <= r.x <= 3 * (COORD_LIMIT as int),
{
    Block { x: (b.y as i64 + dx) as i32, y: (-(b.x as i64) + dy) as i32 }
}

/// Turns the active piece by a quarter. Where the turned piece collides, it is
/// moved by -1, -1, +3 and +3 columns in turn, stopping at the first free
/// place; where none is free, the piece is put back as it was.
#[verifier::rlimit(60)]
pub fn rotate_piece(piece_type: PieceType, blocks: &mut [Block; 4], board: &Vec<Block>)
    requires
        all_within_limits(old(blocks)@),
    ensures
        final(blocks)@ == rotation_result(piece_type, old(blocks)@, board@),
{
    let before = *blocks;
    assert(within_limits(before@[0]) && within_limits(before@[1]));
    assert(within_limits(before@[2]) && within_limits(before@[3]));
    let sx = before[0].x as i64 + before[1].x as i64 + before[2].x as i64 + before[3].x as i64;
    let sy = before[0].y as i64 + before[1].y as i64 + before[2].y as i64 + before[3].y as i64;
    let qx = quarter_exec(sx);
    let qy = quarter_exec(sy);
    let lift_y: i64 = match piece_type {
        PieceType::O | PieceType::L | PieceType::J => 1,
        _ => 0,
    };
    let dx = qx - qy;
    let dy = qx + qy + lift_y;
    *blocks = [
        turn_block(before[0], dx, dy),
        turn_block(before[1], dx, dy),
        turn_block(before[2], dx, dy),
        turn_block(before[3], dx, dy),
    ];
    let ghost r = rotated(piece_type, before@);
    assert(blocks@ =~= r);
    if whether_colliding(blocks, board) {
        shift_piece(blocks, -1);
        assert(blocks@ =~= shifted(r, -1));
        if whether_colliding(blocks, board) {
            shift_piece(blocks, -1);
            assert(blocks@ =~= shifted(r, -2));
            if whether_colliding(blocks, board) {
                shift_piece(blocks, 3);
                assert(blocks@ =~= shifted(r, 1));
                if whether_colliding(blocks, board) {
                    shift_piece(blocks, 3);
                    assert(blocks@ =~= shifted(r, 4));
                    if whether_colliding(blocks, board) {
                        *blocks = before;
                    }
                }
            }
        }
    }
}

/// A rotation either leaves the piece on a place where it collides with
/// nothing, or puts it back where it stood.
pub proof fn lemma_rotation_lands_free_or_reverts(t: PieceType, p: Seq<Block>, board: Seq<Block>)
    ensures
        !collides(rotation_result(t, p, board), board) || rotation_result(t, p, board) == p,
{
}

/// The O piece with its canonical cells moved by `a` columns and `b` rows.
pub open spec fn o_piece_at(a: int, b: int) -> Seq<Block> {
    shape(PieceType::O).map_values(|c: Block| blk(c.x + a, c.y + b))
}

/// An O piece whose origin lies at column -1 or right of it and at row 0 or
/// below it covers the same four cells once turned; where it stood free, a
/// rotation leaves it on those cells.
pub proof fn lemma_o_rotation_fixed_point(a: int, b: int, board: Seq<Block>)
    requires
        -1 <= a <= COORD_LIMIT - 2,
        0 <= b <= COORD_LIMIT - 1,
    ensures
        rotated(PieceType::O, o_piece_at(a, b)).to_set() == o_piece_at(a, b).to_set(),
        !collides(o_piece_at(a, b), board) ==> rotation_result(PieceType::O, o_piece_at(a, b), board).to_set()
            == o_piece_at(a, b).to_set(),
{
    let p = o_piece_at(a, b);
    assert(p[0] == blk(a + 1, b + 1));
    assert(p[1] == blk(a + 1, b));
    assert(p[2] == blk(a + 2, b + 1));
    assert(p[3] == blk(a + 2, b));
    assert(quarter(sum_x(p)) == a + 1);
    assert(quarter(sum_y(p)) == b);
    let r = rotated(PieceType::O, p);
    assert(r =~= seq![p[2], p[0], p[3], p[1]]);
    assert(r.to_set() =~= p.to_set()) by {
        assert forall|c: Block| r.contains(c) <==> p.contains(c) by {
            if r.contains(c) {
                let i = choose|i: int| 0 <= i < r.len() && r[i] == c;
                assert(i == 0 || i == 1 || i == 2 || i == 3);
            }
            if p.contains(c) {
                let i = choose|i: int| 0 <= i < p.len() && p[i] == c;
                if i == 0 { assert(r[1] == c); } else if i == 1 { assert(r[3] == c); } else if i == 2 { assert(r[0] == c); } else { assert(r[2] == c); }
            }
        }
    }
    if !collides(p, board) {
        assert(!collides(r, board)) by {
            reveal(collides);
            if collides(r, board) {
                let i = choose|i: int|
                    0 <= i < r.len() && {
                        ||| crate::collision::left_blocked(#[trigger] r[i], board)
                        ||| crate::collision::right_blocked(r[i], board)
                        ||| crate::collision::down_blocked(r[i], board)
                    };
                let k = if i == 0 { 2int } else if i == 1 { 0int } else if i == 2 { 3int } else { 1int };
                assert(r[i] == p[k]);
            }
        }
    }
}

} // verus!
