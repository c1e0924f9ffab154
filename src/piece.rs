use vstd::prelude::*;
use std::collections::VecDeque;
use crate::board::Block;

verus! {

/// Number of piece types; a bag holds one piece of each.
pub const PIECE_AMOUNT: u32 = 7;

/// Upper bound on the draws spent filling one bag before the types not yet
/// drawn are taken without a draw.
pub const MAX_BAG_DRAWS: u32 = 10000;

/// The seven four-cell pieces, in their canonical order.
#[derive(Clone, Copy, Debug, PartialEq, Eq, Structural, PartialOrd, Ord, Hash)]
pub enum PieceType {
    I,
    J,
    L,
    O,
    S,
    T,
    Z,
}

impl PieceType {
    /// Number of piece types.
    pub const PIECE_AMOUNT: u32 = PIECE_AMOUNT;
}

/// The piece type at a position of the canonical order.
pub open spec fn type_at(k: int) -> PieceType {
    if k == 0 {
        PieceType::I
    } else if k == 1 {
        PieceType::J
    } else if k == 2 {
        PieceType::L
    } else if k == 3 {
        PieceType::O
    } else if k == 4 {
        PieceType::S
    } else if k == 5 {
        PieceType::T
    } else {
        PieceType::Z
    }
}

/// Position of a piece type in the canonical order.
pub open spec fn index_of(t: PieceType) -> int {
    match t {
        PieceType::I => 0,
        PieceType::J => 1,
        PieceType::L => 2,
        PieceType::O => 3,
        PieceType::S => 4,
        PieceType::T => 5,
        PieceType::Z => 6,
    }
}

pub open spec fn blk(x: int, y: int) -> Block {
    Block { x: x as i32, y: y as i32 }
}

/// The four cells of each piece type, relative to the piece's own origin.
pub open spec fn shape(t: PieceType) -> Seq<Block> {
    match t {
        PieceType::I => seq![blk(0, 0), blk(1, 0), blk(2, 0), blk(3, 0)],
        PieceType::J => seq![blk(0, 1), blk(0, 0), blk(1, 0), blk(2, 0)],
        PieceType::L => seq![blk(0, 0), blk(1, 0), blk(2, 0), blk(2, 1)],
        PieceType::O => seq![blk(1, 1), blk(1, 0), blk(2, 1), blk(2, 0)],
        PieceType::S => seq![blk(1, 0), blk(2, 0), blk(1, 1), blk(2, 1)],
        PieceType::T => seq![blk(0, 0), blk(1, 1), blk(1, 0), blk(2, 0)],
        PieceType::Z => seq![blk(0, 1), blk(1, 1), blk(1, 0), blk(2, 0)],
    }
}

/// The cells of a piece type, relative to the piece's own origin.
pub fn piece_shape(piece_type: PieceType) -> (r: [Block; 4])
    ensures
        r@ == shape(piece_type),
{
    let r = match piece_type {
        PieceType::I => [Block { x: 0, y: 0 }, Block { x: 1, y: 0 }, Block { x: 2, y: 0 }, Block { x: 3, y: 0 }],
        PieceType::J => [Block { x: 0, y: 1 }, Block { x: 0, y: 0 }, Block { x: 1, y: 0 }, Block { x: 2, y: 0 }],
        PieceType::L => [Block { x: 0, y: 0 }, Block { x: 1, y: 0 }, Block { x: 2, y: 0 }, Block { x: 2, y: 1 }],
        PieceType::O => [Block { x: 1, y: 1 }, Block { x: 1, y: 0 }, Block { x: 2, y: 1 }, Block { x: 2, y: 0 }],
        PieceType::S => [Block { x: 1, y: 0 }, Block { x: 2, y: 0 }, Block { x: 1, y: 1 }, Block { x: 2, y: 1 }],
        PieceType::T => [Block { x: 0, y: 0 }, Block { x: 1, y: 1 }, Block { x: 1, y: 0 }, Block { x: 2, y: 0 }],
        PieceType::Z => [Block { x: 0, y: 1 }, Block { x: 1, y: 1 }, Block { x: 1, y: 0 }, Block { x: 2, y: 0 }],
    };
    assert(r@ =~= shape(piece_type));
    r
}

/// A piece waiting in the queue: its type and its canonical cells.
#[derive(Clone, Copy, Debug)]
pub struct PieceConfig {
    pub piece_type: PieceType,
    pub blocks: [Block; 4],
}

impl PieceConfig {
    pub fn new(piece_type: PieceType, blocks: [Block; 4]) -> (r: PieceConfig)
        ensures
            r.piece_type == piece_type,
            r.blocks@ == blocks@,
    {
        PieceConfig { piece_type, blocks }
    }
}

/// The canonical entry of a piece type in the queue.
pub open spec fn config_matches(c: PieceConfig, t: PieceType) -> bool {
    c.piece_type == t && c.blocks@ == shape(t)
}

/// What one bag holds: every piece type once, in the canonical order.
pub open spec fn is_canonical_bag(bag: Seq<PieceConfig>) -> bool {
    &&& bag.len() == PIECE_AMOUNT
    &&& forall|k: int| 0 <= k < PIECE_AMOUNT ==> config_matches(#[trigger] bag[k], type_at(k))
}

/// The piece type at a position of the canonical order.
pub fn piece_type_of_index(k: u32) -> (r: PieceType)
    requires
        k < PIECE_AMOUNT,
    ensures
        r == type_at(k as int),
{
    if k == 0 {
        PieceType::I
    } else if k == 1 {
        PieceType::J
    } else if k == 2 {
        PieceType::L
    } else if k == 3 {
        PieceType::O
    } else if k == 4 {
        PieceType::S
    } else if k == 5 {
        PieceType::T
    } else {
        PieceType::Z
    }
}

/// Relies on rand::Rng::gen_range over the thread-local generator: a number
/// drawn from `0..bound` (which panics on an empty range, hence `bound > 0`).
#[verifier::external_body]
fn random_below(bound: u32) -> (r: u32)
    requires
        bound > 0,
    ensures
        r < bound,
{
    rand::Rng::gen_range(&mut rand::thread_rng(), 0..bound)
}

fn all_drawn(seen: &Vec<bool>) -> (r: bool)
    ensures
        r == forall|k: int| 0 <= k < seen@.len() ==> #[trigger] seen@[k],
{
    let mut i: usize = 0;
    while i < seen.len()
        invariant
            0 <= i <= seen.len(),
            forall|k: int| 0 <= k < i ==> #[trigger] seen@[k],
        decreases seen.len() - i,
    {
        if !seen[i] {
            return false;
        }
        i = i + 1;
    }
    true
}

/// One bag of the randomizer: piece types are drawn at random until each has
/// come up, and the bag lists every type once, in the canonical order.
pub fn random_7_pieces() -> (r: Vec<PieceConfig>)
    ensures
        is_canonical_bag(r@),
{
    let mut seen: Vec<bool> = vec![false, false, false, false, false, false, false];
    let mut draws: u32 = 0;
    while draws < MAX_BAG_DRAWS && !all_drawn(&seen)
        invariant
            seen@.len() == PIECE_AMOUNT,
        decreases MAX_BAG_DRAWS - draws,
    {
        let k = random_below(PIECE_AMOUNT);
        seen.set(k as usize, true);
        draws = draws + 1;
    }
    let mut bag: Vec<PieceConfig> = Vec::new();
    let mut k: u32 = 0;
    while k < PIECE_AMOUNT
        invariant
            k <= PIECE_AMOUNT,
            bag@.len() == k,
            forall|j: int| 0 <= j < k ==> config_matches(#[trigger] bag@[j], type_at(j)),
        decreases PIECE_AMOUNT - k,
    {
        let t = piece_type_of_index(k);
        bag.push(PieceConfig::new(t, piece_shape(t)));
        k = k + 1;
    }
    bag
}

/// Every bag holds each piece type exactly once.
pub proof fn lemma_bag_holds_each_type_once(bag: Seq<PieceConfig>, t: PieceType)
    requires
        is_canonical_bag(bag),
    ensures
        exists|k: int| 0 <= k < bag.len() && (#[trigger] bag[k]).piece_type == t,
        forall|i: int, j: int|
            0 <= i < bag.len() && 0 <= j < bag.len() && (#[trigger] bag[i]).piece_type == t
                && (#[trigger] bag[j]).piece_type == t ==> i == j,
{
    let k = index_of(t);
    assert(config_matches(bag[k], type_at(k)));
    assert forall|i: int, j: int|
        0 <= i < bag.len() && 0 <= j < bag.len() && (#[trigger] bag[i]).piece_type == t
            && (#[trigger] bag[j]).piece_type == t implies i == j by {
        assert(config_matches(bag[i], type_at(i)));
        assert(config_matches(bag[j], type_at(j)));
    }
}

/// `after` is the queue `before` once refilled: a fresh bag appended when
/// fewer than a bag's worth of pieces were left, the queue unchanged otherwise.
pub open spec fn refilled(before: Seq<PieceConfig>, after: Seq<PieceConfig>) -> bool {
    if before.len() < PIECE_AMOUNT {
        &&& after.len() == before.len() + PIECE_AMOUNT
        &&& after.subrange(0, before.len() as int) == before
        &&& is_canonical_bag(after.subrange(before.len() as int, after.len() as int))
    } else {
        after == before
    }
}

/// The pieces still to come, front first.
pub struct PieceQueue(pub VecDeque<PieceConfig>);

/// A queue that starts with one full bag.
pub fn setup_piece_queue() -> (r: PieceQueue)
    ensures
        is_canonical_bag(r.0@),
{
    let mut q: VecDeque<PieceConfig> = VecDeque::new();
    let bag = random_7_pieces();
    let mut i: usize = 0;
    while i < bag.len()
        invariant
            0 <= i <= bag@.len(),
            is_canonical_bag(bag@),
            q@ == bag@.subrange(0, i as int),
        decreases bag.len() - i,
    {
        q.push_back(bag[i]);
        i = i + 1;
        assert(q@ =~= bag@.subrange(0, i as int));
    }
    assert(q@ =~= bag@);
    PieceQueue(q)
}

impl PieceQueue {
    /// Appends a fresh bag when fewer than a bag's worth of pieces are left;
    /// the pieces already queued stay, in their order.
    pub fn refill(&mut self)
        requires
            old(self).0@.len() + PIECE_AMOUNT <= usize::MAX,
        ensures
            refilled(old(self).0@, final(self).0@),
            final(self).0@.len() >= PIECE_AMOUNT,
    {
        if self.0.len() < PIECE_AMOUNT as usize {
            let ghost before = self.0@;
            let bag = random_7_pieces();
            let mut i: usize = 0;
            while i < bag.len()
                invariant
                    0 <= i <= bag@.len(),
                    is_canonical_bag(bag@),
                    before.len() < PIECE_AMOUNT,
                    self.0@ == before + bag@.subrange(0, i as int),
                decreases bag.len() - i,
            {
                self.0.push_back(bag[i]);
                i = i + 1;
                assert(self.0@ =~= before + bag@.subrange(0, i as int));
            }
            assert(self.0@.subrange(0, before.len() as int) =~= before);
            assert(self.0@.subrange(before.len() as int, self.0@.len() as int) =~= bag@);
        }
    }
}

} // verus!
