use vstd::prelude::*;

verus! {

/// Number of columns of the board.
pub const COL_COUNT: u8 = 10;

/// Number of rows of the board.
pub const ROW_COUNT: u8 = 20;

/// Column offset between the logical frame of a cell and the display frame.
pub const BASE_OFFSET_X: i32 = 3;

/// Row offset between the logical frame of a cell and the display frame.
pub const BASE_OFFSET_Y: i32 = -2;

/// A cell of the board, in the logical frame.
#[derive(Clone, Copy, Debug, PartialEq, Eq, Structural)]
pub struct Block {
    pub x: i32,
    pub y: i32,
}

/// Column of a cell in the display frame.
pub open spec fn real_x(b: Block) -> int {
    b.x + BASE_OFFSET_X
}

/// Row of a cell in the display frame.
pub open spec fn real_y(b: Block) -> int {
    b.y + BASE_OFFSET_Y
}

impl Block {
    /// The cell's position in the display frame.
    pub fn transform_to_real_pos(&self) -> (r: (i32, i32))
        requires
            self.x <= i32::MAX - BASE_OFFSET_X,
            self.y >= i32::MIN - BASE_OFFSET_Y,
        ensures
            r.0 == real_x(*self),
            r.1 == real_y(*self),
    {
        (self.x + BASE_OFFSET_X, self.y + BASE_OFFSET_Y)
    }
}

impl From<[i32; 2]> for Block {
    fn from(p: [i32; 2]) -> (r: Block) {
        Block { x: p[0], y: p[1] }
    }
}

impl vstd::std_specs::convert::FromSpecImpl<[i32; 2]> for Block {
    open spec fn obeys_from_spec() -> bool {
        true
    }

    open spec fn from_spec(p: [i32; 2]) -> Block {
        Block { x: p@[0], y: p@[1] }
    }
}

/// Phase of a game: play goes on until the board overflows, and then stays over.
#[derive(Clone, Copy, Debug, PartialEq, Eq, Structural, Hash)]
pub enum AppState {
    InGame,
    GameOver,
}

/// Some settled cell stands above the top of the visible board.
pub open spec fn overflows(settled: Seq<Block>) -> bool {
    exists|i: int| 0 <= i < settled.len() && real_y(#[trigger] settled[i]) < 0
}

/// Moves the phase to `GameOver` when a settled cell stands above the visible
/// board; otherwise leaves it as it was.
pub fn check_game_overs(app_state: &mut AppState, settled: &Vec<Block>)
    ensures
        *final(app_state) == (if overflows(settled@) {
            AppState::GameOver
        } else {
            *old(app_state)
        }),
{
    let mut min_y: i64 = ROW_COUNT as i64;
    let mut i: usize = 0;
    while i < settled.len()
        invariant
            0 <= i <= settled.len(),
            min_y <= ROW_COUNT,
            min_y < 0 <==> exists|k: int| 0 <= k < i && real_y(#[trigger] settled@[k]) < 0,
        decreases settled.len() - i,
    {
        let y = settled[i].y as i64 + BASE_OFFSET_Y as i64;
        if y < min_y {
            min_y = y;
        }
        i = i + 1;
    }
    if min_y < 0 {
        *app_state = AppState::GameOver;
    }
}

} // verus!
