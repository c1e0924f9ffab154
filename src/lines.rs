use vstd::prelude::*;
use crate::board::{Block, COL_COUNT};
use crate::piece::blk;

verus! {

/// The score, counted in points.
#[derive(Clone, Copy, Debug, PartialEq, Eq, Structural)]
pub struct Score(pub u32);

/// The distinct columns taken in row `y`.
pub open spec fn row_xs(board: Seq<Block>, y: i32) -> Set<i32> {
    Set::new(|x: i32| exists|j: int| 0 <= j < board.len() && (#[trigger] board[j]).y == y && board[j].x == x)
}

/// Column `x` of row `y` is taken by one of the first `n` cells.
pub open spec fn in_row_upto(board: Seq<Block>, y: i32, x: i32, n: int) -> bool {
    exists|k: int| 0 <= k < n && (#[trigger] board[k]).y == y && board[k].x == x
}

/// A row is full when its distinct columns number `COL_COUNT`.
pub open spec fn row_full(board: Seq<Block>, y: i32) -> bool {
    row_xs(board, y).len() == COL_COUNT
}

/// The full rows met among the first `n` cells, each once, in the order in
/// which the cells list them.
pub open spec fn full_rows_upto(board: Seq<Block>, n: int) -> Seq<i32>
    decreases n,
{
    if n <= 0 {
        seq![]
    } else {
        let prev = full_rows_upto(board, n - 1);
        let y = board[n - 1].y;
        if row_full(board, y) && !prev.contains(y) {
            prev.push(y)
        } else {
            prev
        }
    }
}

/// The full rows of the board, each once.
pub open spec fn full_rows(board: Seq<Block>) -> Seq<i32> {
    full_rows_upto(board, board.len() as int)
}

/// How many of `rows` lie strictly below row `y`.
pub open spec fn rows_below(rows: Seq<i32>, y: int) -> nat
    decreases rows.len(),
{
    if rows.len() == 0 {
        0
    } else {
        rows_below(rows.drop_last(), y) + if y < rows.last() {
            1nat
        } else {
            0nat
        }
    }
}

/// A kept cell falls one row for each cleared row below it.
pub open spec fn lowered(c: Block, rows: Seq<i32>) -> Block {
    blk(c.x as int, c.y + rows_below(rows, c.y as int))
}

/// The first `n` cells after clearing `rows`: cells in a cleared row are gone
/// and the others have fallen, in their order.
pub open spec fn kept_upto(board: Seq<Block>, rows: Seq<i32>, n: int) -> Seq<Block>
    decreases n,
{
    if n <= 0 {
        seq![]
    } else {
        let prev = kept_upto(board, rows, n - 1);
        let c = board[n - 1];
        if rows.contains(c.y) {
            prev
        } else {
            prev.push(lowered(c, rows))
        }
    }
}

/// The settled cells after every full row is cleared.
pub open spec fn cleared(board: Seq<Block>) -> Seq<Block> {
    kept_upto(board, full_rows(board), board.len() as int)
}

/// Points for clearing `n` rows at once.
pub open spec fn line_score(n: int) -> int {
    if n <= 0 {
        0
    } else if n == 1 {
        100
    } else if n == 2 {
        200
    } else if n == 3 {
        400
    } else if n == 4 {
        800
    } else {
        1000
    }
}

/// The score after an award, held at `u32::MAX` rather than wrapping.
pub open spec fn add_award(score: u32, n: int) -> u32 {
    if score + line_score(n) <= u32::MAX {
        (score + line_score(n)) as u32
    } else {
        u32::MAX
    }
}

/// Cells low enough that clearing rows cannot carry them past `i32::MAX`.
pub open spec fn fits_for_clear(board: Seq<Block>) -> bool {
    forall|i: int| 0 <= i < board.len() ==> (#[trigger] board[i]).y + board.len() <= i32::MAX
}

/// Points for clearing `n` rows at once.
pub fn score_for_lines(n: usize) -> (r: u32)
    ensures
        r == line_score(n as int),
{
    match n {
        0 => 0,
        1 => 100,
        2 => 200,
        3 => 400,
        4 => 800,
        _ => 1000,
    }
}

fn contains_i32(v: &Vec<i32>, x: i32) -> (r: bool)
    ensures
        r == v@.contains(x),
{
    let mut i: usize = 0;
    while i < v.len()
        invariant
            0 <= i <= v.len(),
            forall|k: int| 0 <= k < i ==> v@[k] != x,
        decreases v.len() - i,
    {
        if v[i] == x {
            return true;
        }
        i = i + 1;
    }
    false
}

/// Whether row `y` is full: its distinct columns, each counted once, number
/// `COL_COUNT`.
pub fn is_row_full(board: &Vec<Block>, y: i32) -> (r: bool)
    ensures
        r == row_full(board@, y),
{
    let mut xs: Vec<i32> = Vec::new();
    let mut j: usize = 0;
    while j < board.len()
        invariant
            0 <= j <= board.len(),
            xs@.no_duplicates(),
            forall|x: i32| xs@.contains(x) <==> in_row_upto(board@, y, x, j as int),
        decreases board.len() - j,
    {
        let c = board[j];
        let ghost prev = xs@;
        let fresh = c.y == y && !contains_i32(&xs, c.x);
        if fresh {
            xs.push(c.x);
            assert forall|a: int, b: int| 0 <= a < xs@.len() && 0 <= b < xs@.len() && a != b implies xs@[a] != xs@[b] by {
                if a == prev.len() as int {
                    assert(prev.contains(xs@[b]));
                } else if b == prev.len() as int {
                    assert(prev.contains(xs@[a]));
                }
            }
        }
        assert forall|x: i32| xs@.contains(x) <==> in_row_upto(board@, y, x, j + 1) by {
            if xs@.contains(x) {
                let i = choose|i: int| 0 <= i < xs@.len() && xs@[i] == x;
                if i < prev.len() {
                    assert(prev.contains(x));
                    let k = choose|k: int| 0 <= k < j && (#[trigger] board@[k]).y == y && board@[k].x == x;
                    assert(0 <= k < j + 1 && board@[k].y == y && board@[k].x == x);
                } else {
                    assert(board@[j as int].y == y && board@[j as int].x == x);
                }
            }
            if in_row_upto(board@, y, x, j + 1) {
                let k = choose|k: int| 0 <= k < j + 1 && (#[trigger] board@[k]).y == y && board@[k].x == x;
                if k < j {
                    assert(in_row_upto(board@, y, x, j as int));
                    assert(prev.contains(x));
                    let i = choose|i: int| 0 <= i < prev.len() && prev[i] == x;
                    assert(xs@[i] == x);
                } else if fresh {
                    assert(xs@[prev.len() as int] == x);
                } else {
                    assert(prev.contains(x));
                    let i = choose|i: int| 0 <= i < prev.len() && prev[i] == x;
                    assert(xs@[i] == x);
                }
            }
        }
        j = j + 1;
    }
    proof {
        assert forall|x: i32| xs@.to_set().contains(x) <==> row_xs(board@, y).contains(x) by {
            assert(xs@.contains(x) <==> in_row_upto(board@, y, x, board@.len() as int));
        }
        assert(xs@.to_set() =~= row_xs(board@, y));
        xs@.unique_seq_to_set();
    }
    xs.len() == COL_COUNT as usize
}

proof fn lemma_full_rows_len(board: Seq<Block>, n: int)
    requires
        0 <= n <= board.len(),
    ensures
        full_rows_upto(board, n).len() <= n,
    decreases n,
{
    if n > 0 {
        lemma_full_rows_len(board, n - 1);
    }
}

proof fn lemma_rows_below_len(rows: Seq<i32>, y: int)
    ensures
        rows_below(rows, y) <= rows.len(),
    decreases rows.len(),
{
    if rows.len() > 0 {
        lemma_rows_below_len(rows.drop_last(), y);
    }
}

fn count_rows_below(rows: &Vec<i32>, y: i32) -> (r: usize)
    ensures
        r == rows_below(rows@, y as int),
{
    let mut count: usize = 0;
    let mut k: usize = 0;
    while k < rows.len()
        invariant
            0 <= k <= rows.len(),
            count == rows_below(rows@.subrange(0, k as int), y as int),
            count <= k,
        decreases rows.len() - k,
    {
        assert(rows@.subrange(0, k as int + 1).drop_last() =~= rows@.subrange(0, k as int));
        if y < rows[k] {
            count = count + 1;
        }
        k = k + 1;
    }
    assert(rows@.subrange(0, rows.len() as int) =~= rows@);
    count
}

/// The full rows of the board, each once.
fn find_full_rows(board: &Vec<Block>) -> (r: Vec<i32>)
    ensures
        r@ == full_rows(board@),
        r@.len() <= board@.len(),
{
    let mut rows: Vec<i32> = Vec::new();
    let mut j: usize = 0;
    while j < board.len()
        invariant
            0 <= j <= board.len(),
            rows@ == full_rows_upto(board@, j as int),
        decreases board.len() - j,
    {
        let y = board[j].y;
        if is_row_full(board, y) && !contains_i32(&rows, y) {
            rows.push(y);
        }
        j = j + 1;
    }
    proof {
        lemma_full_rows_len(board@, board@.len() as int);
    }
    rows
}

/// Clears every full row: its cells are removed, every cell above a cleared
/// row falls one row per cleared row below it, and the score grows by the
/// award for the number of rows cleared at once. Returns that number.
pub fn check_full_line(score: &mut Score, board: &mut Vec<Block>) -> (r: usize)
    requires
        fits_for_clear(old(board)@),
    ensures
        r == full_rows(old(board)@).len(),
        final(board)@ == cleared(old(board)@),
        final(score).0 == add_award(old(score).0, r as int),
{
    let rows = find_full_rows(board);
    let award = score_for_lines(rows.len());
    score.0 = score.0.saturating_add(award);
    let ghost before = board@;
    let mut kept: Vec<Block> = Vec::new();
    let mut j: usize = 0;
    while j < board.len()
        invariant
            0 <= j <= board.len(),
            board@ == before,
            fits_for_clear(before),
            rows@ == full_rows(before),
            rows@.len() <= before.len(),
            kept@ == kept_upto(before, rows@, j as int),
        decreases board.len() - j,
    {
        let c = board[j];
        if !contains_i32(&rows, c.y) {
            let fall = count_rows_below(&rows, c.y);
            proof {
                lemma_rows_below_len(rows@, c.y as int);
                assert(before[j as int].y + before.len() <= i32::MAX);
            }
            let ny: i64 = c.y as i64 + fall as i64;
            kept.push(Block { x: c.x, y: ny as i32 });
            assert(kept@.last() == lowered(before[j as int], rows@));
        }
        assert(kept_upto(before, rows@, j as int + 1) =~= kept@);
        j = j + 1;
    }
    *board = kept;
    rows.len()
}

/// What clearing the one full row `r` does to a cell: gone if it lay in row
/// `r`, one row lower if it lay above, unmoved if it lay below.
pub open spec fn after_single_clear(c: Block, r: i32) -> Option<Block> {
    if c.y == r {
        None
    } else if c.y < r {
        Some(blk(c.x as int, c.y + 1))
    } else {
        Some(c)
    }
}

proof fn lemma_kept_single_row(board: Seq<Block>, r: i32, n: int)
    requires
        0 <= n <= board.len(),
    ensures
        kept_upto(board, seq![r], n) == board.subrange(0, n).filter_map(|c: Block| after_single_clear(c, r)),
    decreases n,
{
    let f = |c: Block| after_single_clear(c, r);
    if n > 0 {
        lemma_kept_single_row(board, r, n - 1);
        let s = board.subrange(0, n);
        assert(s.drop_last() =~= board.subrange(0, n - 1));
        assert(s.last() == board[n - 1]);
        let c = board[n - 1];
        assert(seq![r].drop_last() =~= Seq::<i32>::empty());
        assert(seq![r].last() == r);
        assert(rows_below(Seq::<i32>::empty(), c.y as int) == 0);
        assert(rows_below(seq![r], c.y as int) == if (c.y as int) < r { 1nat } else { 0nat });
        if c.y == r {
            assert(seq![r].contains(c.y)) by {
                assert(seq![r][0] == c.y);
            }
        } else {
            assert(!seq![r].contains(c.y));
            assert(kept_upto(board, seq![r], n) =~= s.filter_map(f));
        }
    }
}

/// Clearing a single full row `r` removes the cells of row `r`, lowers every
/// cell above it by one row and leaves the cells below it where they were,
/// keeping their order.
pub proof fn lemma_clear_single_row(board: Seq<Block>, r: i32)
    requires
        full_rows(board) == seq![r],
    ensures
        cleared(board) == board.filter_map(|c: Block| after_single_clear(c, r)),
{
    lemma_kept_single_row(board, r, board.len() as int);
    assert(board.subrange(0, board.len() as int) =~= board);
}

} // verus!
