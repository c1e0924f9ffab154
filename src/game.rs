use vstd::prelude::*;
use crate::board::{check_game_overs, overflows, AppState, Block};
use crate::collision::{check_collision, movable_of, Movable};
use crate::lines::{add_award, check_full_line, cleared, fits_for_clear, full_rows, Score};
use crate::piece::{blk, refilled, setup_piece_queue, PieceConfig, PieceQueue, PieceType};
use crate::rotation::{all_within_limits, rotate_piece, rotation_result, within_limits, COORD_LIMIT};
use crate::timer::{reset_of, ticked, Timer};

verus! {

/// Interval of the automatic descent.
pub const AUTO_MOVE_MS: u64 = 500;

/// Least interval between two manual moves.
pub const MANUAL_MOVE_MS: u64 = 100;

/// Grace period between losing downward mobility and settling.
pub const GRACE_MS: u64 = 300;

/// Most pieces the queue ever holds: a bag is added only below one bag's worth.
pub const MAX_QUEUE: usize = 14;

/// The piece under the player's control.
#[derive(Clone, Copy, Debug)]
pub struct ActivePiece {
    pub piece_type: PieceType,
    pub blocks: [Block; 4],
    pub movable: Movable,
}

/// The keys as sampled for one tick: `left`, `right` and `down` are held,
/// `rotate` was pressed since the last tick.
#[derive(Clone, Copy, Debug, PartialEq, Eq, Structural)]
pub struct TickInput {
    pub left: bool,
    pub right: bool,
    pub down: bool,
    pub rotate: bool,
}

/// What one tick did, for sound and display.
#[derive(Clone, Copy, Debug, PartialEq, Eq, Structural)]
pub struct TickEvents {
    pub spawned: bool,
    pub moved: bool,
    pub settled: bool,
    pub lines_cleared: usize,
    pub game_over: bool,
}

/// The whole state of a game.
pub struct Game {
    pub settled: Vec<Block>,
    pub active: Option<ActivePiece>,
    pub queue: PieceQueue,
    pub score: Score,
    pub state: AppState,
    /// The preview of the next piece is up to date.
    pub has_next_piece: bool,
    pub auto_move_timer: Timer,
    pub manually_move_timer: Timer,
    pub remove_piece_timer: Timer,
}

/// All four directions open.
pub open spec fn free_movable() -> Movable {
    Movable { can_down: true, can_left: true, can_right: true }
}

/// The column and row step of a manual move: left, else right, else down,
/// each only where it is open.
pub open spec fn manual_delta(input: TickInput, m: Movable) -> (int, int) {
    if input.left && m.can_left {
        (-1, 0)
    } else if input.right && m.can_right {
        (1, 0)
    } else if input.down && m.can_down {
        (0, 1)
    } else {
        (0, 0)
    }
}

/// Every cell moved by `dx` columns and `dy` rows.
pub open spec fn move_cells(p: Seq<Block>, dx: int, dy: int) -> Seq<Block> {
    p.map_values(|b: Block| blk(b.x + dx, b.y + dy))
}

/// Whether a manual move of the piece is made this tick.
pub open spec fn manual_move_made(p: ActivePiece, input: TickInput, can_manual: bool) -> bool {
    all_within_limits(p.blocks@) && can_manual && manual_delta(input, p.movable) != (0int, 0int)
}

/// The cells of the piece after this tick's manual and automatic moves. A
/// piece that has strayed beyond the coordinate limit is not moved.
pub open spec fn moved_cells(p: ActivePiece, input: TickInput, can_manual: bool, can_auto: bool) -> Seq<Block> {
    let (mx, my) = if can_manual {
        manual_delta(input, p.movable)
    } else {
        (0int, 0int)
    };
    let ay = if can_auto && p.movable.can_down {
        1int
    } else {
        0int
    };
    if all_within_limits(p.blocks@) {
        move_cells(p.blocks@, mx, my + ay)
    } else {
        p.blocks@
    }
}

fn all_within_limits_exec(b: &[Block; 4]) -> (r: bool)
    ensures
        r == all_within_limits(b@),
{
    let mut i: usize = 0;
    while i < 4
        invariant
            0 <= i <= 4,
            forall|k: int| 0 <= k < i ==> within_limits(#[trigger] b@[k]),
        decreases 4 - i,
    {
        let c = b[i];
        if !(-COORD_LIMIT <= c.x && c.x <= COORD_LIMIT && -COORD_LIMIT <= c.y && c.y <= COORD_LIMIT) {
            return false;
        }
        i = i + 1;
    }
    true
}

fn move_block(c: Block, dx: i32, dy: i32) -> (r: Block)
    requires
        within_limits(c),
        -2 <= dx <= 2,
        -2 <= dy <= 2,
    ensures
        r == blk(c.x + dx, c.y + dy),
{
    Block { x: c.x + dx, y: c.y + dy }
}

fn move_blocks(b: [Block; 4], dx: i32, dy: i32) -> (r: [Block; 4])
    requires
        all_within_limits(b@),
        -2 <= dx <= 2,
        -2 <= dy <= 2,
    ensures
        r@ == move_cells(b@, dx as int, dy as int),
{
    assert(within_limits(b@[0]) && within_limits(b@[1]) && within_limits(b@[2]) && within_limits(b@[3]));
    let r = [move_block(b[0], dx, dy), move_block(b[1], dx, dy), move_block(b[2], dx, dy), move_block(b[3], dx, dy)];
    assert(r@ =~= move_cells(b@, dx as int, dy as int));
    r
}

/// What a game holds, as plain values.
pub struct GameView {
    pub settled: Seq<Block>,
    pub active: Option<ActivePiece>,
    pub queue: Seq<PieceConfig>,
    pub score: u32,
    pub state: AppState,
    pub has_next_piece: bool,
    pub auto_move_timer: Timer,
    pub manually_move_timer: Timer,
    pub remove_piece_timer: Timer,
}

impl View for Game {
    type V = GameView;

    open spec fn view(&self) -> GameView {
        GameView {
            settled: self.settled@,
            active: self.active,
            queue: self.queue.0@,
            score: self.score.0,
            state: self.state,
            has_next_piece: self.has_next_piece,
            auto_move_timer: self.auto_move_timer,
            manually_move_timer: self.manually_move_timer,
            remove_piece_timer: self.remove_piece_timer,
        }
    }
}

pub open spec fn same_timers(g: GameView, h: GameView) -> bool {
    &&& h.auto_move_timer == g.auto_move_timer
    &&& h.manually_move_timer == g.manually_move_timer
    &&& h.remove_piece_timer == g.remove_piece_timer
}

/// Spawning: the queue is refilled, and where no piece is active the front
/// of the queue becomes the active piece with every direction open.
pub open spec fn spawn_step(g: GameView, h: GameView, spawned: bool) -> bool {
    &&& spawned == (g.active is None)
    &&& spawned ==> {
        &&& h.active is Some
        &&& h.active->0.movable == free_movable()
        &&& refilled(g.queue, seq![config_of(h.active->0)] + h.queue)
        &&& !h.has_next_piece
    }
    &&& !spawned ==> {
        &&& refilled(g.queue, h.queue)
        &&& h.active == g.active
        &&& h.has_next_piece == g.has_next_piece
    }
    &&& h.settled == g.settled
    &&& h.score == g.score
    &&& h.state == g.state
    &&& same_timers(g, h)
}

/// Movement: both movement timers advance, and the active piece takes this
/// tick's manual and automatic moves (see `moved_cells`).
pub open spec fn move_step(g: GameView, h: GameView, input: TickInput, delta_ms: u64, moved: bool) -> bool {
    let auto = ticked(g.auto_move_timer, delta_ms);
    let manual = ticked(g.manually_move_timer, delta_ms);
    let can_manual = manual.finished;
    let can_auto = auto.finished && !(can_manual && input.down);
    &&& h.auto_move_timer == auto
    &&& match g.active {
        None => {
            &&& h.active is None
            &&& h.manually_move_timer == manual
            &&& !moved
        },
        Some(p) => {
            &&& h.active is Some
            &&& h.active->0.piece_type == p.piece_type
            &&& h.active->0.movable == p.movable
            &&& h.active->0.blocks@ == moved_cells(p, input, can_manual, can_auto)
            &&& h.manually_move_timer == if manual_move_made(p, input, can_manual) {
                reset_of(manual)
            } else {
                manual
            }
            &&& moved == (h.active->0.blocks@ != p.blocks@)
        },
    }
    &&& h.settled == g.settled
    &&& h.queue == g.queue
    &&& h.score == g.score
    &&& h.state == g.state
    &&& h.has_next_piece == g.has_next_piece
    &&& h.remove_piece_timer == g.remove_piece_timer
}

/// Rotation: on the rotation key the active piece goes where
/// `rotation_result` puts it, unless it lies beyond the coordinate limit.
pub open spec fn rotate_step(g: GameView, h: GameView, input: TickInput) -> bool {
    &&& match g.active {
        Some(p) => {
            &&& h.active is Some
            &&& h.active->0.piece_type == p.piece_type
            &&& h.active->0.movable == p.movable
            &&& h.active->0.blocks@ == if input.rotate && all_within_limits(p.blocks@) {
                rotation_result(p.piece_type, p.blocks@, g.settled)
            } else {
                p.blocks@
            }
        },
        None => h.active is None,
    }
    &&& h.settled == g.settled
    &&& h.queue == g.queue
    &&& h.score == g.score
    &&& h.state == g.state
    &&& h.has_next_piece == g.has_next_piece
    &&& same_timers(g, h)
}

/// Collision: the movement permissions of the active piece are recomputed.
pub open spec fn movable_step(g: GameView, h: GameView) -> bool {
    &&& match g.active {
        Some(p) => {
            &&& h.active is Some
            &&& h.active->0.piece_type == p.piece_type
            &&& h.active->0.blocks == p.blocks
            &&& h.active->0.movable == movable_of(p.blocks@, g.settled)
        },
        None => h.active is None,
    }
    &&& h.settled == g.settled
    &&& h.queue == g.queue
    &&& h.score == g.score
    &&& h.state == g.state
    &&& h.has_next_piece == g.has_next_piece
    &&& same_timers(g, h)
}

/// Settling: the grace timer starts over while the piece can fall and runs
/// while it cannot; when it runs out, or down is held, the piece's cells
/// join the settled cells and no piece is active.
pub open spec fn settle_step(g: GameView, h: GameView, input: TickInput, delta_ms: u64, settled: bool) -> bool {
    &&& match g.active {
        Some(p) => if p.movable.can_down {
            &&& !settled
            &&& h.active == g.active
            &&& h.settled == g.settled
            &&& h.remove_piece_timer == reset_of(g.remove_piece_timer)
        } else {
            let grace = ticked(g.remove_piece_timer, delta_ms);
            &&& settled == (grace.times_finished > 0 || input.down)
            &&& settled ==> {
                &&& h.active is None
                &&& h.settled == g.settled + p.blocks@
                &&& h.remove_piece_timer == reset_of(grace)
            }
            &&& !settled ==> {
                &&& h.active == g.active
                &&& h.settled == g.settled
                &&& h.remove_piece_timer == grace
            }
        },
        None => {
            &&& !settled
            &&& h.active is None
            &&& h.settled == g.settled
            &&& h.remove_piece_timer == g.remove_piece_timer
        },
    }
    &&& h.queue == g.queue
    &&& h.score == g.score
    &&& h.state == g.state
    &&& h.has_next_piece == g.has_next_piece
    &&& h.auto_move_timer == g.auto_move_timer
    &&& h.manually_move_timer == g.manually_move_timer
}

/// Line clearing: the full rows are cleared and scored; `n` rows went.
/// Settled cells so far down that a clear could carry them past `i32::MAX`
/// are left as they are.
pub open spec fn clear_step(g: GameView, h: GameView, n: usize) -> bool {
    &&& fits_for_clear(g.settled) ==> {
        &&& n == full_rows(g.settled).len()
        &&& h.settled == cleared(g.settled)
        &&& h.score == add_award(g.score, n as int)
    }
    &&& !fits_for_clear(g.settled) ==> {
        &&& n == 0
        &&& h.settled == g.settled
        &&& h.score == g.score
    }
    &&& h.active == g.active
    &&& h.queue == g.queue
    &&& h.state == g.state
    &&& h.has_next_piece == g.has_next_piece
    &&& same_timers(g, h)
}

/// Game-over detection: the game ends when a settled cell stands above the
/// visible board.
pub open spec fn game_over_step(g: GameView, h: GameView) -> bool {
    &&& h.state == (if overflows(g.settled) {
        AppState::GameOver
    } else {
        g.state
    })
    &&& h.settled == g.settled
    &&& h.active == g.active
    &&& h.queue == g.queue
    &&& h.score == g.score
    &&& h.has_next_piece == g.has_next_piece
    &&& same_timers(g, h)
}

/// One tick of a running game, from `g0` to `g7` through the phases in
/// order: movement, rotation, spawning, collision, settling, line clearing
/// and game-over detection; `events` reports each phase's outcome.
pub open spec fn tick_chain(
    g0: GameView,
    g1: GameView,
    g2: GameView,
    g3: GameView,
    g4: GameView,
    g5: GameView,
    g6: GameView,
    g7: GameView,
    input: TickInput,
    delta_ms: u64,
    events: TickEvents,
) -> bool {
    &&& move_step(g0, g1, input, delta_ms, events.moved)
    &&& rotate_step(g1, g2, input)
    &&& spawn_step(g2, g3, events.spawned)
    &&& movable_step(g3, g4)
    &&& settle_step(g4, g5, input, delta_ms, events.settled)
    &&& clear_step(g5, g6, events.lines_cleared)
    &&& game_over_step(g6, g7)
    &&& events.game_over == (g7.state == AppState::GameOver)
}

impl Game {
    /// The queue never grows past two bags.
    pub open spec fn wf(&self) -> bool {
        self.queue.0@.len() <= MAX_QUEUE
    }

    /// A game at its start: an empty board, no active piece, score zero, one
    /// bag in the queue and the timers at rest.
    pub fn new() -> (r: Game)
        ensures
            r.wf(),
            r.settled@.len() == 0,
            r.active is None,
            r.score.0 == 0,
            r.state == AppState::InGame,
            !r.has_next_piece,
            crate::piece::is_canonical_bag(r.queue.0@),
            r.auto_move_timer == Timer::new_spec(AUTO_MOVE_MS, true),
            r.manually_move_timer == Timer::new_spec(MANUAL_MOVE_MS, false),
            r.remove_piece_timer == Timer::new_spec(GRACE_MS, false),
    {
        Game {
            settled: Vec::new(),
            active: None,
            queue: setup_piece_queue(),
            score: Score(0),
            state: AppState::InGame,
            has_next_piece: false,
            auto_move_timer: Timer::new(AUTO_MOVE_MS, true),
            manually_move_timer: Timer::new(MANUAL_MOVE_MS, false),
            remove_piece_timer: Timer::new(GRACE_MS, false),
        }
    }
    /// Refills the queue, and when no piece is active takes the front of the
    /// queue as the new active piece, on its canonical cells with every
    /// direction open; the preview of the next piece is then out of date.
    /// Returns whether a piece was spawned.
    pub fn auto_generate_new_piece(&mut self) -> (spawned: bool)
        requires
            old(self).wf(),
        ensures
            final(self).wf(),
            spawn_step(old(self)@, final(self)@, spawned),
    {
        self.queue.refill();
        if self.active.is_some() {
            return false;
        }
        self.has_next_piece = false;
        let ghost full = self.queue.0@;
        match self.queue.0.pop_front() {
            Some(c) => {
                let a = ActivePiece { piece_type: c.piece_type, blocks: c.blocks, movable: Movable { can_down: true, can_left: true, can_right: true } };
                self.active = Some(a);
                assert(full =~= seq![config_of(a)] + self.queue.0@);
                true
            },
            None => false,
        }
    }

    /// Advances the two movement timers and moves the active piece. Once the
    /// manual timer has run out, one held direction (left, else right, else
    /// down) moves the piece where it is open and starts that timer over.
    /// When the automatic timer has run out, the piece falls a row where it
    /// can, unless down was held and taken as a manual move this tick.
    /// Returns whether the piece moved.
    pub fn move_piece(&mut self, input: TickInput, delta_ms: u64) -> (moved: bool)
        ensures
            move_step(old(self)@, final(self)@, input, delta_ms, moved),
    {
        self.auto_move_timer.tick(delta_ms);
        self.manually_move_timer.tick(delta_ms);
        let can_manual = self.manually_move_timer.finished();
        let can_auto = self.auto_move_timer.finished() && !(can_manual && input.down);
        let mut moved = false;
        match self.active {
            Some(p) => {
                if all_within_limits_exec(&p.blocks) {
                    let mut dx: i32 = 0;
                    let mut dy: i32 = 0;
                    if can_manual {
                        if input.left && p.movable.can_left {
                            dx = -1;
                        } else if input.right && p.movable.can_right {
                            dx = 1;
                        } else if input.down && p.movable.can_down {
                            dy = 1;
                        }
                    }
                    let manual_made = dx != 0 || dy != 0;
                    if can_auto && p.movable.can_down {
                        dy = dy + 1;
                    }
                    let blocks = move_blocks(p.blocks, dx, dy);
                    moved = dx != 0 || dy != 0;
                    proof {
                        if !moved {
                            assert(blocks@ =~= p.blocks@);
                        } else {
                            assert(blocks@[0] != p.blocks@[0]);
                        }
                    }
                    self.active = Some(ActivePiece { piece_type: p.piece_type, blocks, movable: p.movable });
                    if manual_made {
                        self.manually_move_timer.reset();
                    }
                }
            },
            None => {},
        }
        moved
    }

    /// Turns the active piece when rotation was pressed (see `rotate_piece`).
    /// A piece that has strayed beyond the coordinate limit is not turned.
    pub fn rotate_active_piece(&mut self, input: TickInput)
        ensures
            rotate_step(old(self)@, final(self)@, input),
    {
        if !input.rotate {
            return;
        }
        match self.active {
            Some(p) => {
                if all_within_limits_exec(&p.blocks) {
                    let mut blocks = p.blocks;
                    rotate_piece(p.piece_type, &mut blocks, &self.settled);
                    self.active = Some(ActivePiece { piece_type: p.piece_type, blocks, movable: p.movable });
                }
            },
            None => {},
        }
    }

    /// Recomputes the movement permissions of the active piece.
    pub fn update_movable(&mut self)
        ensures
            movable_step(old(self)@, final(self)@),
    {
        match self.active {
            Some(p) => {
                let movable = check_collision(&p.blocks, &self.settled);
                self.active = Some(ActivePiece { piece_type: p.piece_type, blocks: p.blocks, movable });
            },
            None => {},
        }
    }

    /// Settles the active piece once it cannot fall: the grace timer runs
    /// while the piece cannot fall and starts over while it can; when it runs
    /// out, or when down is held, the piece's cells join the settled cells
    /// and no piece is active. Returns whether the piece settled.
    pub fn remove_piece_component(&mut self, input: TickInput, delta_ms: u64) -> (settled: bool)
        ensures
            settle_step(old(self)@, final(self)@, input, delta_ms, settled),
    {
        match self.active {
            Some(p) => {
                if p.movable.can_down {
                    self.remove_piece_timer.reset();
                    return false;
                }
                self.remove_piece_timer.tick(delta_ms);
                if self.remove_piece_timer.just_finished() || input.down {
                    let ghost before = self.settled@;
                    self.settled.push(p.blocks[0]);
                    self.settled.push(p.blocks[1]);
                    self.settled.push(p.blocks[2]);
                    self.settled.push(p.blocks[3]);
                    assert(self.settled@ =~= before + p.blocks@);
                    self.active = None;
                    self.remove_piece_timer.reset();
                    true
                } else {
                    false
                }
            },
            None => false,
        }
    }
    /// The piece to show in the preview when the preview is out of date (the
    /// front of the queue), after which it counts as up to date; `None` when
    /// it is up to date already.
    pub fn update_next_piece_board(&mut self) -> (r: Option<PieceConfig>)
        ensures
            old(self).has_next_piece ==> r is None && final(self).has_next_piece,
            !old(self).has_next_piece ==> {
                &&& final(self).has_next_piece == (old(self).queue.0@.len() > 0)
                &&& old(self).queue.0@.len() > 0 ==> r == Some(old(self).queue.0@[0])
                &&& old(self).queue.0@.len() == 0 ==> r is None
            },
            final(self).settled == old(self).settled,
            final(self).active == old(self).active,
            final(self).queue == old(self).queue,
            final(self).score == old(self).score,
            final(self).state == old(self).state,
            final(self).auto_move_timer == old(self).auto_move_timer,
            final(self).manually_move_timer == old(self).manually_move_timer,
            final(self).remove_piece_timer == old(self).remove_piece_timer,
    {
        if self.has_next_piece || self.queue.0.len() == 0 {
            return None;
        }
        self.has_next_piece = true;
        Some(self.queue.0[0])
    }

    /// Clears the full rows of the settled cells and adds the award to the
    /// score; returns the number of rows cleared. Settled cells so far down
    /// that a clear could carry them past `i32::MAX` are left as they are.
    pub fn clear_full_lines(&mut self) -> (n: usize)
        ensures
            clear_step(old(self)@, final(self)@, n),
    {
        if fits_for_clear_exec(&self.settled) {
            check_full_line(&mut self.score, &mut self.settled)
        } else {
            0
        }
    }

    /// Ends the game when a settled cell stands above the visible board.
    pub fn check_game_over(&mut self)
        ensures
            game_over_step(old(self)@, final(self)@),
    {
        check_game_overs(&mut self.state, &self.settled);
    }

    /// One simulation step, given the keys and the milliseconds elapsed: the
    /// active piece moves and turns, a piece is spawned where none is active,
    /// the movement permissions are recomputed, a piece that cannot fall
    /// settles, full rows are cleared and scored, and an overflowing board
    /// ends the game. A game that is over does not change.
    pub fn tick(&mut self, input: TickInput, delta_ms: u64) -> (events: TickEvents)
        requires
            old(self).wf(),
        ensures
            final(self).wf(),
            old(self).state == AppState::GameOver ==> {
                &&& final(self)@ == old(self)@
                &&& events == (TickEvents { spawned: false, moved: false, settled: false, lines_cleared: 0, game_over: false })
            },
            old(self).state == AppState::InGame ==> exists|
                g1: GameView,
                g2: GameView,
                g3: GameView,
                g4: GameView,
                g5: GameView,
                g6: GameView,
            | #[trigger] tick_chain(old(self)@, g1, g2, g3, g4, g5, g6, final(self)@, input, delta_ms, events),
            old(self).state == AppState::InGame ==> final(self).state == (if overflows(final(self).settled@) {
                AppState::GameOver
            } else {
                AppState::InGame
            }),
            final(self).score.0 >= old(self).score.0,
            old(self).state == AppState::InGame ==> final(self).score.0 == add_award(
                old(self).score.0,
                events.lines_cleared as int,
            ),
            events.game_over == (old(self).state == AppState::InGame && final(self).state == AppState::GameOver),
            events.spawned == (old(self).state == AppState::InGame && old(self).active is None),
            old(self).state == AppState::InGame ==> (final(self).active is None <==> events.settled),
    {
        if self.state == AppState::GameOver {
            return TickEvents { spawned: false, moved: false, settled: false, lines_cleared: 0, game_over: false };
        }
        let ghost g0 = self@;
        let moved = self.move_piece(input, delta_ms);
        let ghost g1 = self@;
        self.rotate_active_piece(input);
        let ghost g2 = self@;
        let spawned = self.auto_generate_new_piece();
        let ghost g3 = self@;
        self.update_movable();
        let ghost g4 = self@;
        let settled = self.remove_piece_component(input, delta_ms);
        let ghost g5 = self@;
        let lines_cleared = self.clear_full_lines();
        let ghost g6 = self@;
        self.check_game_over();
        let game_over = self.state == AppState::GameOver;
        let events = TickEvents { spawned, moved, settled, lines_cleared, game_over };
        assert(tick_chain(g0, g1, g2, g3, g4, g5, g6, self@, input, delta_ms, events));
        events
    }
}

fn fits_for_clear_exec(board: &Vec<Block>) -> (r: bool)
    ensures
        r == fits_for_clear(board@),
{
    if board.len() > u32::MAX as usize {
        proof {
            if fits_for_clear(board@) {
                assert(board@[0].y + board@.len() <= i32::MAX);
            }
        }
        return false;
    }
    let n = board.len() as i64;
    let mut i: usize = 0;
    while i < board.len()
        invariant
            0 <= i <= board.len(),
            n == board@.len(),
            n <= u32::MAX,
            forall|k: int| 0 <= k < i ==> (#[trigger] board@[k]).y + board@.len() <= i32::MAX,
        decreases board.len() - i,
    {
        if board[i].y as i64 + n > i32::MAX as i64 {
            return false;
        }
        i = i + 1;
    }
    true
}

/// The queue entry an active piece came from.
pub open spec fn config_of(a: ActivePiece) -> PieceConfig {
    PieceConfig { piece_type: a.piece_type, blocks: a.blocks }
}

} // verus!
