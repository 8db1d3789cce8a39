//! Core engine code: the tick-driven state machine that owns the grid and
//! the active piece and drives gravity, locking, line clearing and hold.

use vstd::prelude::*;

use crate::constants::{MAX_GRID_HEIGHT, MAX_GRID_WIDTH, MAX_PREVIEW_COUNT};
use crate::primitives::{Piece, PieceType, Theta};
use crate::random::{
    first_bag_post, llrand_init, llrand_iter, LLRand, Randomizer, RandomizerType,
};
use crate::rotation::{piece_offsets, piece_offsets_spec, srs_kicks_spec, RotationSystemType};

verus! {

/// Milliseconds the pre-game `Ready` state lasts.
pub const READY_MS: u32 = 1000;

/// Milliseconds the pre-game `Go` state lasts.
pub const GO_MS: u32 = 500;

/// Represents all possible states the engine may be in.
#[derive(Clone, Copy, Debug, PartialEq, Eq, Structural)]
pub enum GameState {
    /// Pre-game countdown.
    Ready,
    /// Pre-game countdown, second phase.
    Go,
    /// A block is falling and is in mid-air.
    Falling,
    /// A block is currently immediately above the field/floor.
    Landed,
    /// A new piece is being generated.
    NewPiece,
    /// Lines are currently being cleared.
    Lines,
    /// Quit request in engine.
    Quit,
    /// Game end condition has been encountered.
    GameOver,
    /// Restart request in engine.
    Restart,
}

/// Tracks overall game statistics.  Every counter only ever grows.
#[derive(Clone, Copy, Debug, PartialEq, Eq, Structural)]
pub struct Statistics {
    /// How many keys were pressed.
    pub total_keys_pressed: u32,
    /// How many blocks were placed.
    pub blocks_placed: u32,
    /// Number of lines cleared.
    pub lines_cleared: u32,
    /// Total rotation and movement presses spent on placed pieces.
    pub finesse: u32,
}

impl Statistics {
    /// Statistics with every counter at zero.
    pub open spec fn zero() -> Statistics {
        Statistics { total_keys_pressed: 0, blocks_placed: 0, lines_cleared: 0, finesse: 0 }
    }
}

impl Default for Statistics {
    fn default() -> (r: Statistics)
        ensures
            r == Statistics::zero(),
    {
        Statistics { total_keys_pressed: 0, blocks_placed: 0, lines_cleared: 0, finesse: 0 }
    }
}

/// Configurable options which are passed through to an `Engine`.
#[derive(Clone, Copy, Debug, PartialEq, Eq, Structural)]
pub struct Options {
    /// Target number of lines to clear until complete.
    pub goal: u32,
    /// Width of the field.
    pub field_width: u8,
    /// Height of the visible field.
    pub field_height: u8,
    /// Height of the hidden portion of the field.
    pub field_hidden: u8,
    /// The type of rotation system used.
    pub rotation_system: RotationSystemType,
    /// How many ms must elapse before a piece moves.
    pub das_speed: u16,
    /// How many ms a key must be held before repeated movement.
    pub das_delay: u16,
    /// Number of ms which elapse per tick.
    pub ms_per_tick: u8,
    /// How many game ticks should occur before a draw.
    pub ticks_per_draw: u8,
    /// Maximum number of floorkicks that can occur for a single piece.
    pub floorkick_limit: u8,
    /// How many ms before a grounded piece automatically locks.
    pub lock_delay: u32,
    /// How many ms before a piece drops a square with user input.
    pub soft_drop_gravity: u32,
    /// How many ms before a piece drops a square without user input.
    pub gravity: u32,
    /// Number of preview pieces to display.
    pub preview_piece_count: u8,
}

impl Options {
    /// The option values an `Options::default` call produces.
    pub open spec fn default_spec() -> Options {
        Options {
            goal: 40,
            field_width: 10,
            field_height: 22,
            field_hidden: 3,
            rotation_system: RotationSystemType::SRS,
            das_speed: 16,
            das_delay: 150,
            ms_per_tick: 16,
            ticks_per_draw: 1,
            floorkick_limit: 0,
            lock_delay: 500,
            soft_drop_gravity: 0,
            gravity: 2000,
            preview_piece_count: 2,
        }
    }

    /// Playable height of the field: visible rows plus hidden rows.
    pub open spec fn total_height(self) -> int {
        self.field_height + self.field_hidden
    }

    /// Well-formed option values: a field the pieces fit into, within the
    /// fixed-capacity grid, a live preview queue and a positive tick length.
    pub open spec fn wf(self) -> bool {
        &&& 4 <= self.field_width <= MAX_GRID_WIDTH
        &&& 4 <= self.total_height() <= MAX_GRID_HEIGHT
        &&& 1 <= self.preview_piece_count <= MAX_PREVIEW_COUNT
        &&& self.ms_per_tick >= 1
    }
}

impl Default for Options {
    fn default() -> (r: Options)
        ensures
            r == Options::default_spec(),
            r.wf(),
    {
        Options {
            goal: 40,
            field_width: 10,
            field_height: 22,
            field_hidden: 3,
            rotation_system: RotationSystemType::SRS,
            das_speed: 16,
            das_delay: 150,
            ms_per_tick: 16,
            ticks_per_draw: 1,
            floorkick_limit: 0,
            lock_delay: 500,
            soft_drop_gravity: 0,
            gravity: 2000,
            preview_piece_count: 2,
        }
    }
}

/// Internal configuration values that must be stored for replication.
#[derive(Clone, Copy, Debug, PartialEq, Eq, Structural)]
pub struct Internal {
    /// The seed used for all events in this game; retained verbatim so a
    /// replay can be reproduced.
    pub seed: u32,
}

/// The player inputs the driver has staged for the coming tick.  The driver
/// owns key repeat and auto-shift timing; each flag means the corresponding
/// press applies on this tick.
#[derive(Clone, Copy, Debug, PartialEq, Eq, Structural)]
pub struct Input {
    /// Shift the piece one column left.
    pub left: bool,
    /// Shift the piece one column right.
    pub right: bool,
    /// Rotate a quarter turn clockwise.
    pub rotate_cw: bool,
    /// Rotate a quarter turn anti-clockwise.
    pub rotate_ccw: bool,
    /// Soft drop is held this tick.
    pub soft_drop: bool,
    /// Hard drop: drop to the floor and lock at once.
    pub hard_drop: bool,
    /// Swap the active piece with the hold slot.
    pub hold: bool,
    /// External quit request.
    pub quit: bool,
    /// External restart request.
    pub restart: bool,
}

impl Input {
    /// No input at all.
    pub open spec fn none_spec() -> Input {
        Input {
            left: false,
            right: false,
            rotate_cw: false,
            rotate_ccw: false,
            soft_drop: false,
            hard_drop: false,
            hold: false,
            quit: false,
            restart: false,
        }
    }
}

impl Default for Input {
    fn default() -> (r: Input)
        ensures
            r == Input::none_spec(),
    {
        Input {
            left: false,
            right: false,
            rotate_cw: false,
            rotate_ccw: false,
            soft_drop: false,
            hard_drop: false,
            hold: false,
            quit: false,
            restart: false,
        }
    }
}

/// Index of the cell at column `x` of row `y` in the flat grid storage.
pub open spec fn cell_index(x: int, y: int) -> int {
    y * (MAX_GRID_WIDTH as int) + x
}

/// The spawn pose of a piece: spawn rotation at the top of the field,
/// horizontally centred (its four-wide bounding box, that is), with fresh
/// timers and hold eligibility.
pub open spec fn spawn_piece_spec(ty: PieceType, options: Options) -> Piece {
    Piece {
        ty,
        x: (((options.field_width - 4) as u8) / 2) as u8,
        y: 0,
        theta: Theta::R0,
        lock_timer: 0,
        rotation_count: 0,
        movement_count: 0,
        floorkick_count: 0,
        can_hold: true,
    }
}

/// Main `Engine` which manages the overall game state.
#[derive(Clone, Debug)]
pub struct Engine {
    /// Current state of the game.
    pub state: GameState,
    /// Field which holds the set pieces, row-major with fixed capacity.
    pub grid: Vec<Option<PieceType>>,
    /// Configurable option values.
    pub options: Options,
    /// Internal option values.
    pub internal: Internal,
    /// Currently active piece.
    pub piece: Piece,
    /// Current hold piece.
    pub hold_piece: Option<PieceType>,
    /// Buffer of all the pending next pieces.
    pub next_pieces: Vec<PieceType>,
    /// Random context used for generating new pieces.
    pub randomizer: Randomizer,
    /// Inputs staged by the driver for the coming tick.
    pub input: Input,
    /// Milliseconds of gravity budget not yet converted into cell drops.
    pub gravity_accum: u32,
    /// Milliseconds left in the current pre-game countdown state.
    pub countdown_ms: u32,
    /// Overall game statistics.
    pub stats: Statistics,
    /// The number of game updates that have occurred since the game started.
    /// This excludes the `Ready` and `Go` states.
    pub total_ticks: u64,
    /// The number of ticks since game start, `Ready` and `Go` included.
    pub total_ticks_all: u64,
}

impl Engine {
    /// The grid storage has its full fixed capacity.
    pub open spec fn grid_dims_ok(self) -> bool {
        self.grid@.len() == MAX_GRID_WIDTH * MAX_GRID_HEIGHT
    }

    /// Contents of the cell at column `x` of row `y`.
    pub open spec fn cell(self, x: int, y: int) -> Option<PieceType> {
        self.grid@[cell_index(x, y)]
    }

    /// Whether the cell at column `x` of row `y` holds a block.
    pub open spec fn occupied(self, x: int, y: int) -> bool {
        self.cell(x, y) is Some
    }

    /// Every occupied cell lies within the playable field.
    pub open spec fn grid_in_bounds(self) -> bool {
        cells_in_bounds(self.grid@, self.options)
    }

    /// Whether placing a piece of type `ty` at rotation `theta` with its
    /// bounding box at `(x, y)` overlaps a block or leaves the playable
    /// field.
    pub open spec fn placement_collides(self, ty: PieceType, theta: Theta, x: int, y: int) -> bool {
        grid_collides(self.grid@, self.options, ty, theta, x, y)
    }

    /// Whether the piece, at its own position, collides with the field.
    pub open spec fn piece_collides(self, p: Piece) -> bool {
        self.placement_collides(p.ty, p.theta, p.x as int, p.y as int)
    }

    /// A grounded piece: dropping it one more row would collide.
    pub open spec fn grounded(self, p: Piece) -> bool {
        self.placement_collides(p.ty, p.theta, p.x as int, p.y + 1)
    }

    /// While a piece is in play it overlaps nothing and stays inside the
    /// playable field.
    pub open spec fn active_piece_ok(self) -> bool {
        (self.state == GameState::Falling || self.state == GameState::Landed)
            ==> !self.piece_collides(self.piece)
    }

    /// Well-formedness of the whole engine: sound options, a full-capacity
    /// grid with blocks only inside the playable field, a sound randomizer,
    /// a full preview queue and a valid active piece.
    pub open spec fn wf(self) -> bool {
        &&& self.options.wf()
        &&& self.grid_dims_ok()
        &&& self.grid_in_bounds()
        &&& self.randomizer.wf()
        &&& self.next_pieces@.len() == self.options.preview_piece_count
        &&& self.active_piece_ok()
    }

    /// Returns true if the specified coordinates in the grid are occupied by
    /// a block.
    pub fn is_occupied(&self, x: u8, y: u8) -> (r: bool)
        requires
            self.grid_dims_ok(),
            x < MAX_GRID_WIDTH,
            y < MAX_GRID_HEIGHT,
        ensures
            r == self.occupied(x as int, y as int),
    {
        self.grid[y as usize * MAX_GRID_WIDTH + x as usize].is_some()
    }

    /// Returns true if a piece of type `ty` at rotation `theta` with its
    /// bounding box at `(x, y)` would overlap a block or leave the playable
    /// field.
    pub fn placement_collides_at(&self, ty: PieceType, theta: Theta, x: i16, y: i16) -> (r: bool)
        requires
            self.options.wf(),
            self.grid_dims_ok(),
            -1024 <= x <= 1024,
            -1024 <= y <= 1024,
        ensures
            r == self.placement_collides(ty, theta, x as int, y as int),
    {
        let offs = piece_offsets(ty, theta);
        let mut k: usize = 0;
        while k < 4
            invariant
                self.options.wf(),
                self.grid_dims_ok(),
                -1024 <= x <= 1024,
                -1024 <= y <= 1024,
                k <= 4,
                offs@ == piece_offsets_spec(ty, theta),
                offs@.len() == 4,
                forall|i: int|
                    0 <= i < offs@.len() ==> (#[trigger] offs@[i]).0 <= 3 && offs@[i].1 <= 3,
                forall|i: int|
                    0 <= i < k ==> {
                        let o = #[trigger] piece_offsets_spec(ty, theta)[i];
                        let cx = x + o.0;
                        let cy = y + o.1;
                        &&& cx >= 0
                        &&& cx < self.options.field_width
                        &&& cy >= 0
                        &&& cy < self.options.total_height()
                        &&& !self.occupied(cx, cy)
                    },
            decreases 4 - k,
        {
            let o = offs[k];
            let cx = x + o.0 as i16;
            let cy = y + o.1 as i16;
            if cx < 0 || cx >= self.options.field_width as i16 || cy < 0 || cy
                >= (self.options.field_height as i16 + self.options.field_hidden as i16) {
                return true;
            }
            if self.is_occupied(cx as u8, cy as u8) {
                return true;
            }
            k += 1;
        }
        false
    }

    /// Returns true if the specified piece would collide with the current
    /// field.
    pub fn is_collision(&self, p: &Piece) -> (r: bool)
        requires
            self.options.wf(),
            self.grid_dims_ok(),
        ensures
            r == self.piece_collides(*p),
    {
        self.placement_collides_at(p.ty, p.theta, p.x as i16, p.y as i16)
    }

    /// Lock the current piece onto the field: its four cells are written
    /// into the grid as its piece type and every other cell is untouched.
    ///
    /// This assumes that the piece currently does not collide with anything
    /// on the field, and should be preceded by an `is_collision` call
    /// somewhere.
    pub fn lock_piece(&mut self)
        requires
            old(self).wf(),
            !old(self).piece_collides(old(self).piece),
        ensures
            final(self).grid_dims_ok(),
            final(self).grid_in_bounds(),
            *final(self) == (Engine { grid: final(self).grid, ..*old(self) }),
            forall|x: int, y: int|
                #![trigger cell_index(x, y)]
                0 <= x < MAX_GRID_WIDTH && 0 <= y < MAX_GRID_HEIGHT
                    ==> final(self).cell(x, y) == (if covers(old(self).piece, x, y) {
                    Some(old(self).piece.ty)
                } else {
                    old(self).cell(x, y)
                }),
    {
        let p = self.piece;
        let offs = piece_offsets(p.ty, p.theta);
        let mut k: usize = 0;
        while k < 4
            invariant
                old(self).wf(),
                !old(self).piece_collides(old(self).piece),
                p == old(self).piece,
                k <= 4,
                offs@ == piece_offsets_spec(p.ty, p.theta),
                offs@.len() == 4,
                *self == (Engine { grid: self.grid, ..*old(self) }),
                self.grid@.len() == MAX_GRID_WIDTH * MAX_GRID_HEIGHT,
                forall|x: int, y: int|
                    #![trigger cell_index(x, y)]
                    0 <= x < MAX_GRID_WIDTH && 0 <= y < MAX_GRID_HEIGHT
                        ==> self.cell(x, y) == (if covers_upto(p, x, y, k as int) {
                        Some(p.ty)
                    } else {
                        old(self).cell(x, y)
                    }),
            decreases 4 - k,
        {
            let o = offs[k];
            proof {
                let oo = piece_offsets_spec(p.ty, p.theta)[k as int];
                assert(p.x + oo.0 < old(self).options.field_width);
                assert(p.y + oo.1 < old(self).options.total_height());
            }
            let cx = p.x as usize + o.0 as usize;
            let cy = p.y as usize + o.1 as usize;
            let ghost prev = *self;
            self.grid.set(cy * MAX_GRID_WIDTH + cx, Some(p.ty));
            proof {
                assert forall|x: int, y: int|
                    #![trigger cell_index(x, y)]
                    0 <= x < MAX_GRID_WIDTH && 0 <= y < MAX_GRID_HEIGHT implies self.cell(x, y) == (
                if covers_upto(p, x, y, k as int + 1) {
                    Some(p.ty)
                } else {
                    old(self).cell(x, y)
                }) by {
                    if x == cx as int && y == cy as int {
                        assert(covers_upto(p, x, y, k as int + 1));
                    } else {
                        assert(cell_index(x, y) != cell_index(cx as int, cy as int));
                        assert(self.cell(x, y) == prev.cell(x, y));
                        assert(covers_upto(p, x, y, k as int + 1) == covers_upto(
                            p,
                            x,
                            y,
                            k as int,
                        ));
                    }
                }
            }
            k += 1;
        }
        proof {
            assert forall|x: int, y: int|
                0 <= x < MAX_GRID_WIDTH && 0 <= y < MAX_GRID_HEIGHT && (#[trigger] self.grid@[cell_index(
                x,
                y,
            )]) is Some implies x < self.options.field_width && y < self.options.total_height() by {
                assert(self.occupied(x, y));
                if !old(self).occupied(x, y) {
                    assert(covers(p, x, y));
                    let i = choose|i: int|
                        0 <= i < 4 && ((#[trigger] piece_offsets_spec(p.ty, p.theta)[i]).0 + p.x
                            == x) && (piece_offsets_spec(p.ty, p.theta)[i].1 + p.y == y);
                    let oo = piece_offsets_spec(p.ty, p.theta)[i];
                    assert(p.x + oo.0 < old(self).options.field_width);
                    assert(p.y + oo.1 < old(self).options.total_height());
                }
            }
        }
    }

    /// A row every playable cell of which holds a block.
    pub open spec fn row_full(self, y: int) -> bool {
        forall|x: int| 0 <= x < self.options.field_width ==> #[trigger] self.occupied(x, y)
    }

    /// The indices, in increasing order, of the rows among the first `y`
    /// playable rows that are not full and hence survive a line clear.
    pub open spec fn kept_rows_upto(self, y: int) -> Seq<int>
        decreases y,
    {
        if y <= 0 {
            Seq::empty()
        } else if self.row_full(y - 1) {
            self.kept_rows_upto(y - 1)
        } else {
            self.kept_rows_upto(y - 1).push(y - 1)
        }
    }

    /// The indices, in increasing order, of the playable rows that are not
    /// full.
    pub open spec fn kept_rows(self) -> Seq<int> {
        self.kept_rows_upto(self.options.total_height())
    }

    /// Returns true if every playable cell of row `y` holds a block.
    pub fn row_is_full(&self, y: u8) -> (r: bool)
        requires
            self.options.wf(),
            self.grid_dims_ok(),
            y < self.options.total_height(),
        ensures
            r == self.row_full(y as int),
    {
        let w = self.options.field_width;
        let mut x: u8 = 0;
        while x < w
            invariant
                self.options.wf(),
                self.grid_dims_ok(),
                w == self.options.field_width,
                y < self.options.total_height(),
                x <= w,
                forall|i: int| 0 <= i < x ==> #[trigger] self.occupied(i, y as int),
            decreases w - x,
        {
            if !self.is_occupied(x, y) {
                return false;
            }
            x += 1;
        }
        true
    }

    /// Clear any complete lines in the grid and update associated variables.
    ///
    /// Every full playable row is removed; the surviving rows keep their
    /// relative order and slide to the bottom of the field, with freshly
    /// empty rows above them; partially filled rows are never removed.  The
    /// cleared-line counter grows by the number of removed rows.
    pub fn clear_lines(&mut self)
        requires
            old(self).wf(),
            old(self).state != GameState::Falling,
            old(self).state != GameState::Landed,
        ensures
            final(self).wf(),
            *final(self) == (Engine {
                grid: final(self).grid,
                stats: final(self).stats,
                ..*old(self)
            }),
            final(self).stats == (Statistics {
                lines_cleared: final(self).stats.lines_cleared,
                ..old(self).stats
            }),
            old(self).kept_rows().len() <= old(self).options.total_height(),
            final(self).stats.lines_cleared as int == (if old(self).stats.lines_cleared + old(
                self,
            ).options.total_height() - old(self).kept_rows().len() > u32::MAX {
                u32::MAX as int
            } else {
                old(self).stats.lines_cleared + old(self).options.total_height() - old(
                    self,
                ).kept_rows().len()
            }),
            lines_cleared_post(*old(self), final(self).grid@),
    {
        let w = self.options.field_width as usize;
        let h = self.options.field_height as usize + self.options.field_hidden as usize;
        let mut kept: Vec<usize> = Vec::new();
        let mut y: usize = 0;
        while y < h
            invariant
                *self == *old(self),
                self.wf(),
                w == self.options.field_width,
                h == self.options.total_height(),
                y <= h,
                kept@.len() == self.kept_rows_upto(y as int).len(),
                kept@.len() <= y,
                forall|j: int|
                    0 <= j < kept@.len() ==> #[trigger] kept@[j] as int == self.kept_rows_upto(
                        y as int,
                    )[j] && kept@[j] < y,
            decreases h - y,
        {
            if !self.row_is_full(y as u8) {
                kept.push(y);
            }
            y += 1;
        }
        let cleared = h - kept.len();
        let total = MAX_GRID_WIDTH * MAX_GRID_HEIGHT;
        let mut ng: Vec<Option<PieceType>> = Vec::new();
        let mut i: usize = 0;
        while i < total
            invariant
                i <= total,
                total == MAX_GRID_WIDTH * MAX_GRID_HEIGHT,
                ng@.len() == i,
                forall|t: int| 0 <= t < i ==> #[trigger] ng@[t] is None,
            decreases total - i,
        {
            ng.push(None);
            i += 1;
        }
        let mut j: usize = 0;
        while j < kept.len()
            invariant
                *self == *old(self),
                self.wf(),
                w == self.options.field_width,
                h == self.options.total_height(),
                cleared == h - kept@.len(),
                kept@.len() <= h,
                j <= kept@.len(),
                kept@.len() == self.kept_rows().len(),
                forall|jj: int|
                    0 <= jj < kept@.len() ==> #[trigger] kept@[jj] as int == self.kept_rows()[jj]
                        && kept@[jj] < h,
                ng@.len() == MAX_GRID_WIDTH * MAX_GRID_HEIGHT,
                forall|x: int, jj: int|
                    0 <= x < w && 0 <= jj < j ==> #[trigger] ng@[cell_index(x, cleared + jj)]
                        == self.cell(x, kept@[jj] as int),
                forall|x: int, yy: int|
                    0 <= x < MAX_GRID_WIDTH && 0 <= yy < MAX_GRID_HEIGHT && !(x < w && cleared <= yy
                        < cleared + j) ==> #[trigger] ng@[cell_index(x, yy)] is None,
            decreases kept@.len() - j,
        {
            let src = kept[j];
            let mut x: usize = 0;
            while x < w
                invariant
                    *self == *old(self),
                    self.wf(),
                    w == self.options.field_width,
                    h == self.options.total_height(),
                    cleared == h - kept@.len(),
                    kept@.len() <= h,
                    j < kept@.len(),
                    src == kept@[j as int],
                    src < h,
                    x <= w,
                    ng@.len() == MAX_GRID_WIDTH * MAX_GRID_HEIGHT,
                    forall|xx: int, jj: int|
                        0 <= xx < w && 0 <= jj < j ==> #[trigger] ng@[cell_index(xx, cleared + jj)]
                            == self.cell(xx, kept@[jj] as int),
                    forall|xx: int| 0 <= xx < x ==> #[trigger] ng@[cell_index(xx, cleared + j)]
                        == self.cell(xx, src as int),
                    forall|xx: int, yy: int|
                        0 <= xx < MAX_GRID_WIDTH && 0 <= yy < MAX_GRID_HEIGHT && !(xx < w && cleared
                            <= yy < cleared + j) && !(xx < x && yy == cleared + j) ==> #[trigger] ng@[cell_index(
                            xx,
                            yy,
                        )] is None,
                decreases w - x,
            {
                let v = self.grid[src * MAX_GRID_WIDTH + x];
                ng.set((cleared + j) * MAX_GRID_WIDTH + x, v);
                x += 1;
            }
            j += 1;
        }
        self.grid = ng;
        self.stats.lines_cleared = self.stats.lines_cleared.saturating_add(cleared as u32);
        proof {
            assert forall|x: int, y: int|
                0 <= x < MAX_GRID_WIDTH && 0 <= y < MAX_GRID_HEIGHT && (#[trigger] self.grid@[cell_index(
                x,
                y,
            )]) is Some implies x < self.options.field_width && y < self.options.total_height() by {
                assert(self.cell(x, y) == ng@[cell_index(x, y)]);
            }
        }
    }
}

/// Every occupied cell of the grid `g` lies within the playable field the
/// options describe.
pub open spec fn cells_in_bounds(g: Seq<Option<PieceType>>, opts: Options) -> bool {
    forall|x: int, y: int|
        0 <= x < MAX_GRID_WIDTH && 0 <= y < MAX_GRID_HEIGHT && (#[trigger] g[cell_index(x, y)])
            is Some ==> x < opts.field_width && y < opts.total_height()
}

/// Whether placing a piece of type `ty` at rotation `theta` with its
/// bounding box at `(x, y)` overlaps a block of the grid `g` or leaves the
/// playable field the options describe.
pub open spec fn grid_collides(
    g: Seq<Option<PieceType>>,
    opts: Options,
    ty: PieceType,
    theta: Theta,
    x: int,
    y: int,
) -> bool {
    exists|k: int|
        0 <= k < 4 && {
            let o = #[trigger] piece_offsets_spec(ty, theta)[k];
            let cx = x + o.0;
            let cy = y + o.1;
            ||| cx < 0
            ||| cx >= opts.field_width
            ||| cy < 0
            ||| cy >= opts.total_height()
            ||| g[cell_index(cx, cy)] is Some
        }
}

/// The grid `g` is the result of clearing the full rows of engine `pre`:
/// the surviving rows sit at the bottom in their old order, with empty rows
/// above them and nothing outside the playable field.
pub open spec fn lines_cleared_post(pre: Engine, g: Seq<Option<PieceType>>) -> bool {
    let w = pre.options.field_width as int;
    let h = pre.options.total_height();
    let kept = pre.kept_rows();
    let cleared = h - kept.len();
    &&& (forall|x: int, j: int|
        0 <= x < w && 0 <= j < kept.len() ==> #[trigger] pre.cell(x, kept[j]) == g[cell_index(
            x,
            cleared + j,
        )])
    &&& (forall|x: int, y: int|
        #![trigger cell_index(x, y)]
        0 <= x < MAX_GRID_WIDTH && 0 <= y < MAX_GRID_HEIGHT && !(x < w && cleared <= y < h)
            ==> g[cell_index(x, y)] is None)
}

/// The piece can fall freely through the next `k` rows of the grid `g`.
pub open spec fn free_fall_in(g: Seq<Option<PieceType>>, opts: Options, p: Piece, k: int) -> bool {
    forall|yy: int|
        p.y < yy <= p.y + k ==> !(#[trigger] grid_collides(g, opts, p.ty, p.theta, p.x as int, yy))
}

/// Saturating increment of a 32-bit counter.
pub open spec fn sat_inc32(x: u32) -> u32 {
    if x == u32::MAX {
        u32::MAX
    } else {
        (x + 1) as u32
    }
}

/// The ordered candidate displacements a rotation attempt tests: the
/// unkicked placement first, then the rotation system's kick offsets.
pub open spec fn rotation_cands(p: Piece, target: Theta) -> Seq<(int, int)> {
    seq![(0int, 0int)] + srs_kicks_spec(p.ty, p.theta, target).map_values(
        |k: (i8, i8)| (k.0 as int, k.1 as int),
    )
}

impl Engine {
    /// A candidate pose is fit when it is representable (non-negative
    /// position) and collides with nothing.
    pub open spec fn cand_fits(self, p: Piece, target: Theta, c: (int, int)) -> bool {
        &&& p.x + c.0 >= 0
        &&& p.y + c.1 >= 0
        &&& !self.placement_collides(p.ty, target, p.x + c.0, p.y + c.1)
    }

    /// A successful rotation applied candidate `i`: every earlier candidate
    /// fails, candidate `i` fits, a non-zero candidate stays within the
    /// floorkick budget, and the new piece is the old one rotated to
    /// `target`, displaced by the candidate, with its lock timer reset and
    /// its counters advanced.
    pub open spec fn rotation_applied(self, p: Piece, target: Theta, i: int, newp: Piece) -> bool {
        let cands = rotation_cands(p, target);
        &&& 0 <= i < cands.len()
        &&& self.cand_fits(p, target, cands[i])
        &&& forall|j: int| 0 <= j < i ==> !self.cand_fits(p, target, cands[j])
        &&& (cands[i] != (0int, 0int) ==> p.floorkick_count + 1
            <= self.options.floorkick_limit)
        &&& newp == (Piece {
            theta: target,
            x: (p.x + cands[i].0) as u8,
            y: (p.y + cands[i].1) as u8,
            lock_timer: 0,
            rotation_count: sat_inc32(p.rotation_count),
            floorkick_count: if cands[i] != (0int, 0int) {
                (p.floorkick_count + 1) as u32
            } else {
                p.floorkick_count
            },
            ..p
        })
    }

    /// A successful rotation overall: some candidate was applied.
    pub open spec fn rotation_result(self, p: Piece, target: Theta, newp: Piece) -> bool {
        exists|i: int| self.rotation_applied(p, target, i, newp)
    }

    /// A failed rotation: either no candidate fits, or the first fitting
    /// candidate needs a floorkick the piece no longer has.
    pub open spec fn rotation_blocked(self, p: Piece, target: Theta) -> bool {
        ||| (forall|i: int|
            0 <= i < rotation_cands(p, target).len() ==> !self.cand_fits(
                p,
                target,
                rotation_cands(p, target)[i],
            ))
        ||| exists|i: int| self.rotation_out_of_floorkicks(p, target, i)
    }

    /// A rotation rejected for want of floorkick budget: the first fitting
    /// candidate `i` is a non-zero kick and the piece has no floorkicks
    /// left.
    pub open spec fn rotation_out_of_floorkicks(self, p: Piece, target: Theta, i: int) -> bool {
        let cands = rotation_cands(p, target);
        &&& 0 <= i < cands.len()
        &&& self.cand_fits(p, target, cands[i])
        &&& forall|j: int| 0 <= j < i ==> !self.cand_fits(p, target, cands[j])
        &&& cands[i] != (0int, 0int)
        &&& p.floorkick_count + 1 > self.options.floorkick_limit
    }

    /// Try to shift the active piece one column horizontally, returning
    /// whether the shift succeeded.  A shift that would leave the playable
    /// field or overlap a block is a no-op; a successful shift resets the
    /// lock timer and counts one movement.
    pub fn shift(&mut self, dx: i8) -> (ok: bool)
        requires
            old(self).wf(),
            old(self).state == GameState::Falling || old(self).state == GameState::Landed,
            dx == -1 || dx == 1,
        ensures
            final(self).wf(),
            shift_rel(*old(self), *final(self), dx as int, ok),
    {
        let p = self.piece;
        let nx = p.x as i16 + dx as i16;
        let ny = p.y as i16;
        if nx >= 0 && !self.placement_collides_at(p.ty, p.theta, nx, ny) {
            proof {
                let oo = piece_offsets_spec(p.ty, p.theta)[0];
                assert(nx + oo.0 < self.options.field_width);
            }
            self.piece.x = nx as u8;
            self.piece.lock_timer = 0;
            self.piece.movement_count = p.movement_count.saturating_add(1);
            true
        } else {
            false
        }
    }

    /// Try to rotate the current piece in place by the delta `theta`,
    /// returning whether the rotation succeeded.
    ///
    /// The unkicked placement is tested first, then each wallkick candidate
    /// of the current rotation system in order; the first fitting candidate
    /// is applied.  A fitting candidate with a non-zero offset consumes one
    /// floorkick, and is rejected outright when the piece's budget is spent.
    /// A successful rotation resets the lock timer.
    pub fn rotate(&mut self, theta: Theta) -> (ok: bool)
        requires
            old(self).wf(),
            old(self).state == GameState::Falling || old(self).state == GameState::Landed,
        ensures
            final(self).wf(),
            rotate_rel(*old(self), *final(self), theta, ok),
    {
        let p = self.piece;
        let target = p.theta.compose(theta);
        let kicks = self.options.rotation_system.kicks(p.ty, p.theta, target);
        let mut cands: Vec<(i16, i16)> = Vec::new();
        cands.push((0, 0));
        let mut k: usize = 0;
        while k < kicks.len()
            invariant
                kicks@ == srs_kicks_spec(p.ty, p.theta, target),
                k <= kicks@.len(),
                cands@.len() == k + 1,
                forall|j: int|
                    0 <= j < cands@.len() ==> ((#[trigger] cands@[j]).0 as int, cands@[j].1 as int)
                        == rotation_cands(p, target)[j],
            decreases kicks@.len() - k,
        {
            let kc = kicks[k];
            cands.push((kc.0 as i16, kc.1 as i16));
            k += 1;
        }
        let ghost scands = rotation_cands(p, target);
        let mut i: usize = 0;
        while i < cands.len()
            invariant
                *self == *old(self),
                self.wf(),
                p == old(self).piece,
                p == self.piece,
                target == old(self).piece.theta.compose_spec(theta),
                scands == rotation_cands(p, target),
                cands@.len() == scands.len(),
                forall|j: int|
                    0 <= j < cands@.len() ==> ((#[trigger] cands@[j]).0 as int, cands@[j].1 as int)
                        == scands[j],
                i <= cands@.len(),
                forall|j: int| 0 <= j < i ==> !old(self).cand_fits(p, target, #[trigger] scands[j]),
            decreases cands@.len() - i,
        {
            let c = cands[i];
            let nx = p.x as i16 + c.0;
            let ny = p.y as i16 + c.1;
            let fits = nx >= 0 && ny >= 0 && !self.placement_collides_at(p.ty, target, nx, ny);
            if fits {
                let kicked = !(c.0 == 0 && c.1 == 0);
                if kicked && self.piece.floorkick_count
                    >= self.options.floorkick_limit as u32 {
                    proof {
                        assert(old(self).rotation_out_of_floorkicks(p, target, i as int));
                        assert(old(self).rotation_blocked(p, target));
                    }
                    return false;
                }
                proof {
                    let oo = piece_offsets_spec(p.ty, target)[0];
                    assert(nx + oo.0 < self.options.field_width);
                    assert(ny + oo.1 < self.options.total_height());
                }
                self.piece.theta = target;
                self.piece.x = nx as u8;
                self.piece.y = ny as u8;
                self.piece.lock_timer = 0;
                self.piece.rotation_count = p.rotation_count.saturating_add(1);
                if kicked {
                    self.piece.floorkick_count = p.floorkick_count + 1;
                }
                proof {
                    assert(old(self).rotation_applied(p, target, i as int, self.piece));
                    assert(old(self).rotation_result(p, target, self.piece));
                }
                return true;
            }
            i += 1;
        }
        proof {
            assert(old(self).rotation_blocked(p, target));
        }
        false
    }

    /// Try to perform a hold, returning whether the hold succeeded.
    ///
    /// The active piece's type is swapped with the hold slot's (or, when the
    /// slot is empty, with the head of the preview queue, which is then
    /// refilled).  A piece can be held once per lock cycle: a second hold
    /// before the next piece spawns fails and changes nothing, as does a
    /// swap whose incoming piece would not fit the current pose.
    pub fn hold(&mut self) -> (ok: bool)
        requires
            old(self).wf(),
            old(self).state == GameState::Falling || old(self).state == GameState::Landed,
        ensures
            final(self).wf(),
            hold_rel(*old(self), *final(self), ok),
    {
        if !self.piece.can_hold {
            return false;
        }
        let newty = match self.hold_piece {
            Some(h) => h,
            None => self.next_pieces[0],
        };
        if self.placement_collides_at(
            newty,
            self.piece.theta,
            self.piece.x as i16,
            self.piece.y as i16,
        ) {
            return false;
        }
        let oldty = self.piece.ty;
        if self.hold_piece.is_none() {
            self.next_pieces.remove(0);
            let fresh = self.randomizer.next();
            self.next_pieces.push(fresh);
            proof {
                assert(self.next_pieces@.drop_last() =~= old(self).next_pieces@.drop_first());
            }
        }
        self.hold_piece = Some(oldty);
        self.piece.ty = newty;
        self.piece.can_hold = false;
        true
    }
}

impl Engine {
    /// The gravity rate in effect this tick: milliseconds per one-cell
    /// drop, taken from the soft-drop rate while that input is held.
    pub open spec fn gravity_rate(self) -> u32 {
        if self.input.soft_drop {
            self.options.soft_drop_gravity
        } else {
            self.options.gravity
        }
    }

    /// The piece can fall freely through the next `k` rows.
    pub open spec fn free_fall(self, p: Piece, k: int) -> bool {
        free_fall_in(self.grid@, self.options, p, k)
    }

    /// Apply gravity for the current tick.
    ///
    /// One tick's worth of milliseconds joins the accumulated budget; each
    /// whole gravity period in the budget drops the piece one row.  A drop
    /// blocked by terrain or the floor leaves the piece in place, empties
    /// the budget and lands the piece.  A zero rate means a drop every
    /// instant: the piece falls to the floor and lands this tick.
    pub fn gravity(&mut self)
        requires
            old(self).wf(),
            old(self).state == GameState::Falling,
        ensures
            final(self).wf(),
            gravity_rel(*old(self), *final(self)),
    {
        let ms = self.options.ms_per_tick as u32;
        let rate = if self.input.soft_drop {
            self.options.soft_drop_gravity
        } else {
            self.options.gravity
        };
        self.gravity_accum = self.gravity_accum.saturating_add(ms);
        let ghost b = self.gravity_accum as int;
        let ghost p0 = self.piece;
        if rate == 0 {
            self.drop_to_floor();
            self.state = GameState::Landed;
            self.gravity_accum = 0;
        } else {
            while self.gravity_accum >= rate
                invariant
                    old(self).wf(),
                    old(self).state == GameState::Falling,
                    rate >= 1,
                    b <= u32::MAX,
                    p0 == old(self).piece,
                    *self == (Engine {
                        piece: self.piece,
                        gravity_accum: self.gravity_accum,
                        ..*old(self)
                    }),
                    self.piece == (Piece { y: self.piece.y, ..p0 }),
                    self.piece.y >= p0.y,
                    !self.piece_collides(self.piece),
                    old(self).free_fall(p0, self.piece.y - p0.y),
                    self.gravity_accum <= b,
                    (self.piece.y - p0.y) * (rate as int) == b - self.gravity_accum,
                decreases self.gravity_accum,
            {
                let p = self.piece;
                if self.placement_collides_at(p.ty, p.theta, p.x as i16, p.y as i16 + 1) {
                    self.state = GameState::Landed;
                    self.gravity_accum = 0;
                    return;
                }
                proof {
                    let oo = piece_offsets_spec(p.ty, p.theta)[0];
                    assert(p.y + 1 + oo.1 < self.options.total_height());
                }
                let ghost acc_pre = self.gravity_accum as int;
                self.piece.y = p.y + 1;
                self.gravity_accum = self.gravity_accum - rate;
                proof {
                    assert((self.piece.y - p0.y) * (rate as int) == b - self.gravity_accum)
                        by (nonlinear_arith)
                        requires
                            (p.y - p0.y) * (rate as int) == b - acc_pre,
                            self.piece.y == p.y + 1,
                            self.gravity_accum == acc_pre - rate,
                    ;
                }
            }
            proof {
                vstd::arithmetic::div_mod::lemma_fundamental_div_mod_converse(
                    b,
                    rate as int,
                    self.piece.y - p0.y,
                    self.gravity_accum as int,
                );
            }
        }
    }

    /// Drop the active piece straight down to the first grounded row.
    pub fn drop_to_floor(&mut self)
        requires
            old(self).wf(),
            old(self).state == GameState::Falling || old(self).state == GameState::Landed,
        ensures
            final(self).wf(),
            drop_rel(*old(self), *final(self)),
    {
        let ghost p0 = self.piece;
        let h = self.options.field_height as u16 + self.options.field_hidden as u16;
        loop
            invariant
                old(self).wf(),
                old(self).state == GameState::Falling || old(self).state == GameState::Landed,
                h == old(self).options.total_height(),
                p0 == old(self).piece,
                *self == (Engine { piece: self.piece, ..*old(self) }),
                self.piece == (Piece { y: self.piece.y, ..p0 }),
                self.piece.y >= p0.y,
                self.piece.y < h,
                !self.piece_collides(self.piece),
                old(self).free_fall(p0, self.piece.y - p0.y),
            ensures
                *self == (Engine { piece: self.piece, ..*old(self) }),
                self.piece == (Piece { y: self.piece.y, ..p0 }),
                self.piece.y >= p0.y,
                !self.piece_collides(self.piece),
                old(self).free_fall(p0, self.piece.y - p0.y),
                self.grounded(self.piece),
            decreases h - self.piece.y,
        {
            let p = self.piece;
            if self.placement_collides_at(p.ty, p.theta, p.x as i16, p.y as i16 + 1) {
                break;
            }
            proof {
                let oo = piece_offsets_spec(p.ty, p.theta)[0];
                assert(p.y + 1 + oo.1 < self.options.total_height());
            }
            self.piece.y = p.y + 1;
        }
    }

    /// Generate a new piece and update the preview sequence: the head of
    /// the queue spawns as the active piece, the queue shifts up and its
    /// freed tail slot is refilled from the randomizer.
    pub fn next_piece(&mut self)
        requires
            old(self).wf(),
            old(self).state == GameState::NewPiece,
        ensures
            final(self).wf(),
            *final(self) == (Engine {
                piece: final(self).piece,
                next_pieces: final(self).next_pieces,
                randomizer: final(self).randomizer,
                ..*old(self)
            }),
            final(self).piece == spawn_piece_spec(old(self).next_pieces@[0], old(self).options),
            final(self).next_pieces@.len() == old(self).next_pieces@.len(),
            final(self).next_pieces@.drop_last() == old(self).next_pieces@.drop_first(),
            old(self).randomizer.ty == RandomizerType::Bag7 ==> final(self).next_pieces@.last()
                == old(self).randomizer.buffer@[old(self).randomizer.buffer_index as int],
    {
        let head = self.next_pieces.remove(0);
        let fresh = self.randomizer.next();
        self.next_pieces.push(fresh);
        proof {
            assert(self.next_pieces@.drop_last() =~= old(self).next_pieces@.drop_first());
        }
        let x = (self.options.field_width - 4) / 2;
        self.piece = Piece {
            ty: head,
            x,
            y: 0,
            theta: Theta::R0,
            lock_timer: 0,
            rotation_count: 0,
            movement_count: 0,
            floorkick_count: 0,
            can_hold: true,
        };
    }

    /// Lock the active piece into the grid, account for the placed block,
    /// and move on to line clearing.
    fn finish_lock(&mut self)
        requires
            old(self).wf(),
            old(self).state == GameState::Falling || old(self).state == GameState::Landed,
        ensures
            final(self).wf(),
            lock_rel(*old(self), *final(self)),
    {
        self.lock_piece();
        self.stats.blocks_placed = self.stats.blocks_placed.saturating_add(1);
        let presses = self.piece.rotation_count.saturating_add(self.piece.movement_count);
        self.stats.finesse = self.stats.finesse.saturating_add(presses);
        self.state = GameState::Lines;
    }

    /// Consume this tick's hold and rotation inputs, in that fixed order,
    /// counting the pressed keys.
    #[verifier::rlimit(100)]
    #[verifier::spinoff_prover]
    fn step_hold_rotate(&mut self)
        requires
            old(self).wf(),
            old(self).state == GameState::Falling || old(self).state == GameState::Landed,
        ensures
            final(self).wf(),
            *final(self) == (Engine {
                piece: final(self).piece,
                hold_piece: final(self).hold_piece,
                next_pieces: final(self).next_pieces,
                randomizer: final(self).randomizer,
                stats: final(self).stats,
                ..*old(self)
            }),
            final(self).state == old(self).state,
            final(self).stats == (Statistics {
                total_keys_pressed: final(self).stats.total_keys_pressed,
                ..old(self).stats
            }),
            final(self).stats.total_keys_pressed >= old(self).stats.total_keys_pressed,
            hold_rotate_step_rel(*old(self), *final(self)),
    {
        let mut keys: u32 = 0;
        let mut b1 = false;
        if self.input.hold {
            b1 = self.hold();
            keys += 1;
        }
        let ghost m1 = *self;
        let mut b2 = false;
        if self.input.rotate_cw {
            b2 = self.rotate(Theta::R90);
            keys += 1;
        }
        let ghost m2 = *self;
        let mut b3 = false;
        if self.input.rotate_ccw {
            b3 = self.rotate(Theta::R270);
            keys += 1;
        }
        let ghost m3 = *self;
        self.stats.total_keys_pressed = self.stats.total_keys_pressed.saturating_add(keys);
        proof {
            assert(hold_rotate_chain(*old(self), m1, b1, m2, b2, m3, b3));
            assert(keys == count_rotation_keys(old(self).input));
            assert(keys_counted(m3, *self, count_rotation_keys(old(self).input)));
            assert(hold_rotate_step_rel(*old(self), *self));
        }
    }

    /// Consume this tick's horizontal movement inputs, left before right,
    /// counting those keys along with the held drop keys.
    #[verifier::rlimit(100)]
    #[verifier::spinoff_prover]
    fn step_move(&mut self)
        requires
            old(self).wf(),
            old(self).state == GameState::Falling || old(self).state == GameState::Landed,
        ensures
            final(self).wf(),
            *final(self) == (Engine {
                piece: final(self).piece,
                stats: final(self).stats,
                ..*old(self)
            }),
            final(self).state == old(self).state,
            final(self).stats == (Statistics {
                total_keys_pressed: final(self).stats.total_keys_pressed,
                ..old(self).stats
            }),
            final(self).stats.total_keys_pressed >= old(self).stats.total_keys_pressed,
            move_step_rel(*old(self), *final(self)),
    {
        let mut keys: u32 = 0;
        let mut b1 = false;
        if self.input.left {
            b1 = self.shift(-1);
            keys += 1;
        }
        let ghost m1 = *self;
        let mut b2 = false;
        if self.input.right {
            b2 = self.shift(1);
            keys += 1;
        }
        let ghost m2 = *self;
        if self.input.soft_drop {
            keys += 1;
        }
        if self.input.hard_drop {
            keys += 1;
        }
        self.stats.total_keys_pressed = self.stats.total_keys_pressed.saturating_add(keys);
        proof {
            assert(move_chain(*old(self), m1, b1, m2, b2));
            assert(keys == count_movement_keys(old(self).input));
            assert(keys_counted(m2, *self, count_movement_keys(old(self).input)));
            assert(move_step_rel(*old(self), *self));
        }
    }

    /// One tick of a piece in mid-air: inputs, then a hard drop or gravity.
    #[verifier::rlimit(100)]
    #[verifier::spinoff_prover]
    fn step_falling(&mut self)
        requires
            old(self).wf(),
            old(self).state == GameState::Falling,
        ensures
            final(self).wf(),
            final(self).options == old(self).options,
            final(self).internal == old(self).internal,
            final(self).input == old(self).input,
            final(self).total_ticks == old(self).total_ticks,
            final(self).total_ticks_all == old(self).total_ticks_all,
            final(self).countdown_ms == old(self).countdown_ms,
            final(self).state == GameState::Falling || final(self).state == GameState::Landed
                || final(self).state == GameState::Lines,
            old(self).input.hard_drop ==> final(self).state == GameState::Lines,
            final(self).stats.total_keys_pressed >= old(self).stats.total_keys_pressed,
            final(self).stats.blocks_placed >= old(self).stats.blocks_placed,
            final(self).stats.lines_cleared >= old(self).stats.lines_cleared,
            final(self).stats.finesse >= old(self).stats.finesse,
            falling_tick_rel(*old(self), *final(self)),
    {
        self.step_hold_rotate();
        let ghost m1 = *self;
        self.step_move();
        let ghost m2 = *self;
        if self.input.hard_drop {
            self.drop_to_floor();
            let ghost m3 = *self;
            self.finish_lock();
            proof {
                assert(drop_rel(m2, m3));
                assert(hard_drop_rel(m2, *self));
                assert(falling_tick_rel(*old(self), *self));
            }
        } else {
            self.gravity();
            proof {
                assert(falling_tick_rel(*old(self), *self));
            }
        }
    }

    /// One tick of a grounded piece: inputs, then either a hard drop, an
    /// escape back into falling, or the lock timer running towards the lock.
    #[verifier::rlimit(100)]
    #[verifier::spinoff_prover]
    fn step_landed(&mut self)
        requires
            old(self).wf(),
            old(self).state == GameState::Landed,
        ensures
            final(self).wf(),
            final(self).options == old(self).options,
            final(self).internal == old(self).internal,
            final(self).input == old(self).input,
            final(self).total_ticks == old(self).total_ticks,
            final(self).total_ticks_all == old(self).total_ticks_all,
            final(self).countdown_ms == old(self).countdown_ms,
            final(self).state == GameState::Falling || final(self).state == GameState::Landed
                || final(self).state == GameState::Lines,
            old(self).input.hard_drop ==> final(self).state == GameState::Lines,
            final(self).stats.total_keys_pressed >= old(self).stats.total_keys_pressed,
            final(self).stats.blocks_placed >= old(self).stats.blocks_placed,
            final(self).stats.lines_cleared >= old(self).stats.lines_cleared,
            final(self).stats.finesse >= old(self).stats.finesse,
            landed_tick_rel(*old(self), *final(self)),
    {
        self.step_hold_rotate();
        let ghost m1 = *self;
        self.step_move();
        let ghost m2 = *self;
        if self.input.hard_drop {
            self.drop_to_floor();
            let ghost m3 = *self;
            self.finish_lock();
            proof {
                assert(drop_rel(m2, m3));
                assert(hard_drop_rel(m2, *self));
                assert(landed_tick_rel(*old(self), *self));
            }
        } else {
            let p = self.piece;
            if !self.placement_collides_at(p.ty, p.theta, p.x as i16, p.y as i16 + 1) {
                self.state = GameState::Falling;
                proof {
                    assert(!m2.grounded(m2.piece));
                    assert(*self == (Engine { state: GameState::Falling, ..m2 }));
                    assert(landed_tick_rel(*old(self), *self));
                }
            } else {
                self.piece.lock_timer = p.lock_timer.saturating_add(
                    self.options.ms_per_tick as u32,
                );
                let ghost m3 = *self;
                proof {
                    assert(m2.grounded(m2.piece));
                    assert(m3 == (Engine {
                        piece: Piece {
                            lock_timer: sat_add32(
                                m2.piece.lock_timer,
                                old(self).options.ms_per_tick as int,
                            ),
                            ..m2.piece
                        },
                        ..m2
                    }));
                }
                if self.piece.lock_timer >= self.options.lock_delay {
                    self.finish_lock();
                    proof {
                        assert(lock_rel(m3, *self));
                        assert(landed_tick_rel(*old(self), *self));
                    }
                } else {
                    proof {
                        assert(landed_tick_rel(*old(self), *self));
                    }
                }
            }
        }
    }
}

/// Saturating increment of a 64-bit counter.
pub open spec fn sat_inc64(x: u64) -> u64 {
    if x == u64::MAX {
        u64::MAX
    } else {
        (x + 1) as u64
    }
}

impl Engine {
    /// A freshly started engine: ready-countdown state, an empty grid and
    /// hold slot, zeroed statistics and timers, the given options, the seed
    /// retained verbatim, and a full preview queue drawn from a bag
    /// randomizer seeded with it.
    pub open spec fn is_fresh(self, options: Options, seed: u32) -> bool {
        &&& self.state == GameState::Ready
        &&& self.options == options
        &&& self.internal == (Internal { seed })
        &&& self.grid@.len() == MAX_GRID_WIDTH * MAX_GRID_HEIGHT
        &&& (forall|i: int| 0 <= i < self.grid@.len() ==> #[trigger] self.grid@[i] is None)
        &&& self.piece == Piece::default_spec()
        &&& self.hold_piece is None
        &&& self.next_pieces@.len() == options.preview_piece_count
        &&& self.randomizer.wf()
        &&& self.randomizer.ty == RandomizerType::Bag7
        &&& self.randomizer.buffer_index == options.preview_piece_count
        &&& first_bag_post(
            llrand_iter(llrand_init(seed), 20),
            self.randomizer.context,
            self.randomizer.buffer@,
        )
        &&& (forall|i: int|
            0 <= i < options.preview_piece_count ==> #[trigger] self.next_pieces@[i]
                == self.randomizer.buffer@[i])
        &&& self.input == Input::none_spec()
        &&& self.gravity_accum == 0
        &&& self.countdown_ms == READY_MS
        &&& self.stats == Statistics::zero()
        &&& self.total_ticks == 0
        &&& self.total_ticks_all == 0
    }

    /// Reset an `Engine` back into a start state using its current
    /// `Options`, drawing a fresh piece sequence from the retained seed.
    pub fn reset(&mut self)
        requires
            old(self).options.wf(),
        ensures
            final(self).wf(),
            final(self).is_fresh(old(self).options, old(self).internal.seed),
    {
        let seed = self.internal.seed;
        let mut rand = Randomizer::new(LLRand::new(seed), RandomizerType::Bag7);
        let ghost rand0 = rand;
        let mut queue: Vec<PieceType> = Vec::new();
        let n = self.options.preview_piece_count as usize;
        proof {
            assert(n <= MAX_PREVIEW_COUNT);
        }
        while queue.len() < n
            invariant
                rand.wf(),
                rand.ty == RandomizerType::Bag7,
                n <= MAX_PREVIEW_COUNT,
                queue@.len() <= n,
                rand.buffer == rand0.buffer,
                rand.context == rand0.context,
                rand.buffer_index == queue@.len(),
                first_bag_post(
                    llrand_iter(llrand_init(seed), 20),
                    rand0.context,
                    rand0.buffer@,
                ),
                forall|i: int| 0 <= i < queue@.len() ==> #[trigger] queue@[i] == rand.buffer@[i],
            decreases n - queue.len(),
        {
            let f = rand.next();
            queue.push(f);
        }
        let total = MAX_GRID_WIDTH * MAX_GRID_HEIGHT;
        let mut g: Vec<Option<PieceType>> = Vec::new();
        while g.len() < total
            invariant
                g@.len() <= total,
                forall|t: int| 0 <= t < g@.len() ==> #[trigger] g@[t] is None,
            decreases total - g.len(),
        {
            g.push(None);
        }
        self.state = GameState::Ready;
        self.grid = g;
        self.piece = Default::default();
        self.hold_piece = None;
        self.next_pieces = queue;
        self.randomizer = rand;
        self.input = Default::default();
        self.gravity_accum = 0;
        self.countdown_ms = READY_MS;
        self.stats = Default::default();
        self.total_ticks = 0;
        self.total_ticks_all = 0;
        proof {
            assert(cells_in_bounds(self.grid@, self.options));
        }
    }

    /// Construct a new `Engine`.  The options and the seed fully determine
    /// all subsequent behaviour given a per-tick input stream.
    pub fn new(options: Options, seed: u32) -> (r: Engine)
        requires
            options.wf(),
        ensures
            r.wf(),
            r.is_fresh(options, seed),
    {
        let mut e = Engine {
            state: GameState::Ready,
            grid: Vec::new(),
            options,
            internal: Internal { seed },
            piece: Default::default(),
            hold_piece: None,
            next_pieces: Vec::new(),
            randomizer: Randomizer::new(LLRand::new(seed), RandomizerType::Bag7),
            input: Default::default(),
            gravity_accum: 0,
            countdown_ms: READY_MS,
            stats: Default::default(),
            total_ticks: 0,
            total_ticks_all: 0,
        };
        e.reset();
        e
    }

    /// Perform a single game tick.
    ///
    /// It is expected that the caller manages the time and calls this
    /// function again in precisely `ms_per_tick` milliseconds, having
    /// staged this tick's inputs in `input`.  A quit request wins over
    /// everything; a restart request re-initialises the engine from its
    /// retained seed and options.  Otherwise the current state is advanced:
    /// the pre-game countdown runs down, a new piece spawns (or the game
    /// ends on a blocked spawn), a falling or landed piece consumes inputs
    /// and gravity or its lock timer, and full lines are cleared with the
    /// goal checked.
    #[verifier::rlimit(100)]
    #[verifier::spinoff_prover]
    pub fn tick(&mut self)
        requires
            old(self).wf(),
        ensures
            final(self).wf(),
            final(self).options == old(self).options,
            final(self).internal == old(self).internal,
            old(self).input.quit ==> *final(self) == (Engine {
                state: GameState::Quit,
                ..*old(self)
            }),
            !old(self).input.quit && old(self).input.restart ==> final(self).is_fresh(
                old(self).options,
                old(self).internal.seed,
            ),
            !old(self).input.quit && !old(self).input.restart ==> {
                let e = *old(self);
                &&& (e.state == GameState::Quit || e.state == GameState::GameOver)
                    ==> *final(self) == e
                &&& e.state == GameState::Restart ==> final(self).is_fresh(
                    e.options,
                    e.internal.seed,
                )
                &&& e.state == GameState::Ready ==> {
                    &&& *final(self) == (Engine {
                        state: final(self).state,
                        countdown_ms: final(self).countdown_ms,
                        total_ticks_all: final(self).total_ticks_all,
                        ..e
                    })
                    &&& final(self).total_ticks_all == sat_inc64(e.total_ticks_all)
                    &&& e.countdown_ms > e.options.ms_per_tick ==> final(self).state
                        == GameState::Ready && final(self).countdown_ms == e.countdown_ms
                        - e.options.ms_per_tick
                    &&& e.countdown_ms <= e.options.ms_per_tick ==> final(self).state
                        == GameState::Go && final(self).countdown_ms == GO_MS
                }
                &&& e.state == GameState::Go ==> {
                    &&& *final(self) == (Engine {
                        state: final(self).state,
                        countdown_ms: final(self).countdown_ms,
                        total_ticks_all: final(self).total_ticks_all,
                        ..e
                    })
                    &&& final(self).total_ticks_all == sat_inc64(e.total_ticks_all)
                    &&& e.countdown_ms > e.options.ms_per_tick ==> final(self).state
                        == GameState::Go && final(self).countdown_ms == e.countdown_ms
                        - e.options.ms_per_tick
                    &&& e.countdown_ms <= e.options.ms_per_tick ==> final(self).state
                        == GameState::NewPiece && final(self).countdown_ms == 0
                }
                &&& e.state == GameState::NewPiece ==> {
                    let sp = spawn_piece_spec(e.next_pieces@[0], e.options);
                    &&& *final(self) == (Engine {
                        state: final(self).state,
                        piece: final(self).piece,
                        next_pieces: final(self).next_pieces,
                        randomizer: final(self).randomizer,
                        total_ticks: final(self).total_ticks,
                        total_ticks_all: final(self).total_ticks_all,
                        ..e
                    })
                    &&& final(self).total_ticks == sat_inc64(e.total_ticks)
                    &&& final(self).total_ticks_all == sat_inc64(e.total_ticks_all)
                    &&& final(self).piece == sp
                    &&& final(self).next_pieces@.len() == e.next_pieces@.len()
                    &&& final(self).next_pieces@.drop_last() == e.next_pieces@.drop_first()
                    &&& final(self).state == (if grid_collides(
                        e.grid@,
                        e.options,
                        sp.ty,
                        sp.theta,
                        sp.x as int,
                        sp.y as int,
                    ) {
                        GameState::GameOver
                    } else {
                        GameState::Falling
                    })
                }
                &&& e.state == GameState::Lines ==> {
                    &&& *final(self) == (Engine {
                        state: final(self).state,
                        grid: final(self).grid,
                        stats: final(self).stats,
                        total_ticks: final(self).total_ticks,
                        total_ticks_all: final(self).total_ticks_all,
                        ..e
                    })
                    &&& final(self).total_ticks == sat_inc64(e.total_ticks)
                    &&& final(self).total_ticks_all == sat_inc64(e.total_ticks_all)
                    &&& final(self).stats == (Statistics {
                        lines_cleared: final(self).stats.lines_cleared,
                        ..e.stats
                    })
                    &&& lines_cleared_post(e, final(self).grid@)
                    &&& final(self).stats.lines_cleared as int == (if e.stats.lines_cleared
                        + e.options.total_height() - e.kept_rows().len() > u32::MAX {
                        u32::MAX as int
                    } else {
                        e.stats.lines_cleared + e.options.total_height() - e.kept_rows().len()
                    })
                    &&& final(self).state == (if final(self).stats.lines_cleared
                        >= e.options.goal {
                        GameState::GameOver
                    } else {
                        GameState::NewPiece
                    })
                }
                &&& (e.state == GameState::Falling || e.state == GameState::Landed) ==> {
                    &&& (final(self).state == GameState::Falling || final(self).state
                        == GameState::Landed || final(self).state == GameState::Lines)
                    &&& e.input.hard_drop ==> final(self).state == GameState::Lines
                    &&& final(self).total_ticks == sat_inc64(e.total_ticks)
                    &&& final(self).total_ticks_all == sat_inc64(e.total_ticks_all)
                }
                &&& e.state == GameState::Falling ==> falling_tick_rel(
                    e,
                    Engine {
                        total_ticks: e.total_ticks,
                        total_ticks_all: e.total_ticks_all,
                        ..*final(self)
                    },
                )
                &&& e.state == GameState::Landed ==> landed_tick_rel(
                    e,
                    Engine {
                        total_ticks: e.total_ticks,
                        total_ticks_all: e.total_ticks_all,
                        ..*final(self)
                    },
                )
                &&& e.state != GameState::Restart ==> {
                    &&& final(self).input == e.input
                    &&& final(self).stats.total_keys_pressed >= e.stats.total_keys_pressed
                    &&& final(self).stats.blocks_placed >= e.stats.blocks_placed
                    &&& final(self).stats.lines_cleared >= e.stats.lines_cleared
                    &&& final(self).stats.finesse >= e.stats.finesse
                    &&& final(self).total_ticks_all >= e.total_ticks_all
                    &&& final(self).total_ticks >= e.total_ticks
                }
            },
    {
        if self.input.quit {
            self.state = GameState::Quit;
            return;
        }
        if self.input.restart {
            self.reset();
            return;
        }
        let st = self.state;
        match st {
            GameState::Ready => {
                let ms = self.options.ms_per_tick as u32;
                if self.countdown_ms > ms {
                    self.countdown_ms = self.countdown_ms - ms;
                } else {
                    self.state = GameState::Go;
                    self.countdown_ms = GO_MS;
                }
            },
            GameState::Go => {
                let ms = self.options.ms_per_tick as u32;
                if self.countdown_ms > ms {
                    self.countdown_ms = self.countdown_ms - ms;
                } else {
                    self.state = GameState::NewPiece;
                    self.countdown_ms = 0;
                }
            },
            GameState::NewPiece => {
                self.next_piece();
                let p = self.piece;
                if self.is_collision(&p) {
                    self.state = GameState::GameOver;
                } else {
                    self.state = GameState::Falling;
                }
            },
            GameState::Falling => {
                self.step_falling();
            },
            GameState::Landed => {
                self.step_landed();
            },
            GameState::Lines => {
                self.clear_lines();
                if self.stats.lines_cleared >= self.options.goal {
                    self.state = GameState::GameOver;
                } else {
                    self.state = GameState::NewPiece;
                }
            },
            GameState::Quit => {
                return;
            },
            GameState::GameOver => {
                return;
            },
            GameState::Restart => {
                self.reset();
                return;
            },
        }
        let ghost mid = *self;
        self.total_ticks_all = self.total_ticks_all.saturating_add(1);
        match st {
            GameState::Ready | GameState::Go => {},
            _ => {
                self.total_ticks = self.total_ticks.saturating_add(1);
            },
        }
        proof {
            if st == GameState::Falling || st == GameState::Landed {
                assert((Engine {
                    total_ticks: old(self).total_ticks,
                    total_ticks_all: old(self).total_ticks_all,
                    ..*self
                }) == mid);
            }
        }
    }
}

/// Saturating addition of a non-negative count to a 32-bit counter.
pub open spec fn sat_add32(x: u32, k: int) -> u32
    recommends
        k >= 0,
{
    if x + k > u32::MAX {
        u32::MAX
    } else {
        (x + k) as u32
    }
}

/// Number of keys the hold/rotation input phase counts.
pub open spec fn count_rotation_keys(i: Input) -> int {
    (if i.hold { 1int } else { 0int }) + (if i.rotate_cw { 1int } else { 0int }) + (if i.rotate_ccw {
        1int
    } else {
        0int
    })
}

/// Number of keys the movement input phase counts, the drop keys included.
pub open spec fn count_movement_keys(i: Input) -> int {
    (if i.left { 1int } else { 0int }) + (if i.right { 1int } else { 0int }) + (if i.soft_drop {
        1int
    } else {
        0int
    }) + (if i.hard_drop { 1int } else { 0int })
}

/// `post` is `pre` with `k` key presses added to the key counter.
pub open spec fn keys_counted(pre: Engine, post: Engine, k: int) -> bool {
    post == (Engine {
        stats: Statistics {
            total_keys_pressed: sat_add32(pre.stats.total_keys_pressed, k),
            ..pre.stats
        },
        ..pre
    })
}

/// Relates the engines before and after a `hold` call and its result.
pub open spec fn hold_rel(pre: Engine, post: Engine, ok: bool) -> bool {
    &&& post == (Engine {
        piece: post.piece,
        hold_piece: post.hold_piece,
        next_pieces: post.next_pieces,
        randomizer: post.randomizer,
        ..pre
    })
    &&& !pre.piece.can_hold ==> !ok && post == pre
    &&& pre.piece.can_hold ==> {
        let newty = if pre.hold_piece is Some {
            pre.hold_piece->Some_0
        } else {
            pre.next_pieces@[0]
        };
        &&& ok == !pre.placement_collides(
            newty,
            pre.piece.theta,
            pre.piece.x as int,
            pre.piece.y as int,
        )
        &&& !ok ==> post == pre
        &&& ok ==> {
            &&& post.piece == (Piece { ty: newty, can_hold: false, ..pre.piece })
            &&& post.hold_piece == Some(pre.piece.ty)
            &&& pre.hold_piece is Some ==> {
                &&& post.next_pieces == pre.next_pieces
                &&& post.randomizer == pre.randomizer
            }
            &&& pre.hold_piece is None ==> {
                &&& post.next_pieces@.len() == pre.next_pieces@.len()
                &&& post.next_pieces@.drop_last() == pre.next_pieces@.drop_first()
                &&& pre.randomizer.ty == RandomizerType::Bag7 ==> post.next_pieces@.last()
                    == pre.randomizer.buffer@[pre.randomizer.buffer_index as int]
            }
        }
    }
}

/// Relates the engines before and after a `rotate` call by `delta` and its
/// result.
pub open spec fn rotate_rel(pre: Engine, post: Engine, delta: Theta, ok: bool) -> bool {
    &&& post == (Engine { piece: post.piece, ..pre })
    &&& ok ==> pre.rotation_result(pre.piece, pre.piece.theta.compose_spec(delta), post.piece)
    &&& !ok ==> post.piece == pre.piece && pre.rotation_blocked(
        pre.piece,
        pre.piece.theta.compose_spec(delta),
    )
}

/// Relates the engines before and after a `shift` call by `dx` and its
/// result.
pub open spec fn shift_rel(pre: Engine, post: Engine, dx: int, ok: bool) -> bool {
    &&& post == (Engine { piece: post.piece, ..pre })
    &&& ok == pre.cand_fits(pre.piece, pre.piece.theta, (dx, 0int))
    &&& ok ==> post.piece == (Piece {
        x: (pre.piece.x + dx) as u8,
        lock_timer: 0,
        movement_count: sat_inc32(pre.piece.movement_count),
        ..pre.piece
    })
    &&& !ok ==> post.piece == pre.piece
}

/// Relates the engines before and after a `gravity` call.
pub open spec fn gravity_rel(pre: Engine, post: Engine) -> bool {
    &&& post == (Engine {
        state: post.state,
        piece: post.piece,
        gravity_accum: post.gravity_accum,
        ..pre
    })
    &&& post.piece == (Piece { y: post.piece.y, ..pre.piece })
    &&& post.piece.y >= pre.piece.y
    &&& pre.free_fall(pre.piece, post.piece.y - pre.piece.y)
    &&& post.state == GameState::Falling || post.state == GameState::Landed
    &&& post.state == GameState::Landed ==> post.grounded(post.piece) && post.gravity_accum == 0
    &&& pre.gravity_rate() == 0 ==> post.state == GameState::Landed
    &&& pre.gravity_rate() > 0 && post.state == GameState::Falling ==> {
        let b = if pre.gravity_accum + pre.options.ms_per_tick > u32::MAX {
            u32::MAX as int
        } else {
            pre.gravity_accum + pre.options.ms_per_tick
        };
        &&& post.piece.y - pre.piece.y == b / pre.gravity_rate() as int
        &&& post.gravity_accum == b % pre.gravity_rate() as int
    }
}

/// Relates the engines before and after a `drop_to_floor` call.
pub open spec fn drop_rel(pre: Engine, post: Engine) -> bool {
    &&& post == (Engine { piece: post.piece, ..pre })
    &&& post.piece == (Piece { y: post.piece.y, ..pre.piece })
    &&& post.piece.y >= pre.piece.y
    &&& pre.free_fall(pre.piece, post.piece.y - pre.piece.y)
    &&& post.grounded(post.piece)
    &&& !post.piece_collides(post.piece)
}

/// Relates the engines before and after a lock: the piece's cells written
/// into the grid, the placed block and its presses accounted, and the state
/// moved on to line clearing.
pub open spec fn lock_rel(pre: Engine, post: Engine) -> bool {
    &&& post == (Engine {
        state: GameState::Lines,
        grid: post.grid,
        stats: post.stats,
        ..pre
    })
    &&& post.state == GameState::Lines
    &&& post.stats == (Statistics {
        blocks_placed: sat_inc32(pre.stats.blocks_placed),
        finesse: sat_add32(
            pre.stats.finesse,
            sat_add32(pre.piece.rotation_count, pre.piece.movement_count as int) as int,
        ),
        ..pre.stats
    })
    &&& forall|x: int, y: int|
        #![trigger cell_index(x, y)]
        0 <= x < MAX_GRID_WIDTH && 0 <= y < MAX_GRID_HEIGHT ==> post.cell(x, y) == (if covers(
            pre.piece,
            x,
            y,
        ) {
            Some(pre.piece.ty)
        } else {
            pre.cell(x, y)
        })
}

/// The hold and rotation inputs of `pre` consumed in their fixed order
/// through the listed intermediate engines and call results.
pub open spec fn hold_rotate_chain(
    pre: Engine,
    m1: Engine,
    b1: bool,
    m2: Engine,
    b2: bool,
    m3: Engine,
    b3: bool,
) -> bool {
    &&& (if pre.input.hold {
        hold_rel(pre, m1, b1)
    } else {
        m1 == pre && !b1
    })
    &&& (if pre.input.rotate_cw {
        rotate_rel(m1, m2, Theta::R90, b2)
    } else {
        m2 == m1 && !b2
    })
    &&& (if pre.input.rotate_ccw {
        rotate_rel(m2, m3, Theta::R270, b3)
    } else {
        m3 == m2 && !b3
    })
}

/// One pass of the hold/rotation input phase with its keys counted.
pub open spec fn hold_rotate_step_rel(pre: Engine, post: Engine) -> bool {
    exists|m1: Engine, b1: bool, m2: Engine, b2: bool, m3: Engine, b3: bool|
        {
            &&& #[trigger] hold_rotate_chain(pre, m1, b1, m2, b2, m3, b3)
            &&& keys_counted(m3, post, count_rotation_keys(pre.input))
        }
}

/// The horizontal movement inputs of `pre` consumed left before right.
pub open spec fn move_chain(pre: Engine, m1: Engine, b1: bool, m2: Engine, b2: bool) -> bool {
    &&& (if pre.input.left {
        shift_rel(pre, m1, -1, b1)
    } else {
        m1 == pre && !b1
    })
    &&& (if pre.input.right {
        shift_rel(m1, m2, 1, b2)
    } else {
        m2 == m1 && !b2
    })
}

/// One pass of the movement input phase with its keys counted.
pub open spec fn move_step_rel(pre: Engine, post: Engine) -> bool {
    exists|m1: Engine, b1: bool, m2: Engine, b2: bool|
        {
            &&& #[trigger] move_chain(pre, m1, b1, m2, b2)
            &&& keys_counted(m2, post, count_movement_keys(pre.input))
        }
}

/// A hard drop: the piece falls to the floor and locks at once.
pub open spec fn hard_drop_rel(pre: Engine, post: Engine) -> bool {
    exists|m: Engine| #[trigger] drop_rel(pre, m) && lock_rel(m, post)
}

/// One whole falling tick, before the tick counters advance: the two input
/// phases in order, then a hard drop or gravity.
pub open spec fn falling_tick_rel(pre: Engine, post: Engine) -> bool {
    exists|m1: Engine, m2: Engine|
        {
            &&& #[trigger] hold_rotate_step_rel(pre, m1)
            &&& #[trigger] move_step_rel(m1, m2)
            &&& (if pre.input.hard_drop {
                hard_drop_rel(m2, post)
            } else {
                gravity_rel(m2, post)
            })
        }
}

/// One whole landed tick, before the tick counters advance: the two input
/// phases in order, then a hard drop, an escape back into falling, or the
/// lock timer running towards the lock.
pub open spec fn landed_tick_rel(pre: Engine, post: Engine) -> bool {
    exists|m1: Engine, m2: Engine|
        {
            &&& #[trigger] hold_rotate_step_rel(pre, m1)
            &&& #[trigger] move_step_rel(m1, m2)
            &&& (if pre.input.hard_drop {
                hard_drop_rel(m2, post)
            } else if !m2.grounded(m2.piece) {
                post == (Engine { state: GameState::Falling, ..m2 })
            } else {
                let lt = sat_add32(m2.piece.lock_timer, pre.options.ms_per_tick as int);
                let m3 = Engine { piece: Piece { lock_timer: lt, ..m2.piece }, ..m2 };
                if lt >= pre.options.lock_delay {
                    lock_rel(m3, post)
                } else {
                    post == m3
                }
            })
        }
}

/// Whether one of the four cells of piece `p` lies at `(x, y)`.
pub open spec fn covers(p: Piece, x: int, y: int) -> bool {
    covers_upto(p, x, y, 4)
}

/// Whether one of the first `k` cells of piece `p` lies at `(x, y)`.
pub open spec fn covers_upto(p: Piece, x: int, y: int, k: int) -> bool {
    exists|i: int|
        0 <= i < k && ((#[trigger] piece_offsets_spec(p.ty, p.theta)[i]).0 + p.x == x) && (
        piece_offsets_spec(p.ty, p.theta)[i].1 + p.y == y)
}

} // verus!
