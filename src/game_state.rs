use vstd::prelude::*;
use crate::level::{
    cell_weight, dropoff_weight, full_weight, garbage_weight, lemma_levels_weight_bounds,
    levels_weight, max_cells, shape_weight, Level, Weight, MAX_GRID,
};
use crate::tile::{is_track, Coord, TileType, TrainDirection, TrainState};

verus! {

/// The number of rooms, laid out three by three.
pub const LEVEL_COUNT: usize = 9;

/// The number of rooms in a row of the room grid.
pub const GRID_COLUMNS: usize = 3;

/// Sub-tile units in one tile: the train's offset from its tile is kept in
/// millionths of a tile.
pub const TILE_UNITS: i64 = 1_000_000;

/// Where a blocked train halts: nine tenths of the way to the next tile.
pub const HALT_UNITS: i64 = 900_000;

/// The train's speed in tiles per second, which is sub-tile units per microsecond.
pub const TRAIN_SPEED: i64 = 2;

/// Microseconds between two frames of the train's animation.
pub const TRAIN_ANIM_PERIOD_US: u64 = 150_000;

/// Microseconds after which the scripted event opens every closed tunnel.
pub const TUNNEL_OPEN_DELAY_US: u64 = 5_000_000;

/// The room in which the tunnel-opening event runs.
pub const TUNNEL_EVENT_LEVEL: usize = 4;

/// Upper bound on the pieces of one shape, in stock and on the board together.
pub const TRACK_LIMIT: i32 = 1_000_000_000;

/// Upper bound on the garbage in the world, held or on the ground.
pub const GARBAGE_LIMIT: i32 = 1_000_000_000;

/// Standard stock of straight pieces, each way.
pub const STANDARD_STRAIGHT: i32 = 10;

/// Standard stock of corner pieces, each orientation.
pub const STANDARD_CORNER: i32 = 5;

/// What the player is told, in the middle of the screen.
#[derive(Clone, Copy, Debug, PartialEq, Eq, Structural)]
pub enum Message {
    Help,
    FillRecyclingCenter,
    TunnelsOpened,
    Won,
    Test,
}

/// The train's offset from the centre of its tile, in sub-tile units.
#[derive(Clone, Copy, Debug, PartialEq, Eq, Structural)]
pub struct Offset {
    pub x: i64,
    pub y: i64,
}

/// The whole simulated world: rooms, stock of track pieces, the train, the
/// garbage it carries and the progress towards the win.
pub struct GameState {
    pub levels: Vec<Level>,
    pub level_active: usize,
    pub selected_tile: Option<TileType>,
    // Track piece inventory counts
    pub count_track_h: i32,
    pub count_track_v: i32,
    pub count_track_ul: i32,
    pub count_track_ur: i32,
    pub count_track_dl: i32,
    pub count_track_dr: i32,
    // Train
    pub train_tile_pos: Coord,
    pub train_pos_offset: Offset,
    pub train_direction: TrainDirection,
    pub train_state: TrainState,
    pub train_anim_frame: u8,
    /// Microseconds since the last animation frame.
    pub train_anim_timer: u64,
    pub garbage_held: i32,
    pub total_dropoffs_count: i32,
    pub dropoffs_full_count: i32,
    pub game_won: bool,
    pub message: Option<Message>,
    pub skip_level_requirements: bool,
    pub visited_levels: Vec<bool>,
    /// Microseconds spent in the tunnel-event room so far.
    pub tunnel_timer: Option<u64>,
    pub tunnels_opened: bool,
    pub win_message_shown: bool,
    pub help_message_shown: bool,
}

impl GameState {
    /// The pieces of track shape `t` in stock; nothing for another kind.
    pub open spec fn track_count(&self, t: TileType) -> int {
        match t {
            TileType::TrackHorizontal => self.count_track_h as int,
            TileType::TrackVertical => self.count_track_v as int,
            TileType::TrackCornerUL => self.count_track_ul as int,
            TileType::TrackCornerUR => self.count_track_ur as int,
            TileType::TrackCornerDL => self.count_track_dl as int,
            TileType::TrackCornerDR => self.count_track_dr as int,
            _ => 0,
        }
    }

    /// The pieces of shape `t` lying on the board, over all rooms.
    pub open spec fn board_count(&self, t: TileType) -> int {
        levels_weight(self.levels@, shape_weight(t))
    }

    /// Garbage units on the ground and in recycling centres, over all rooms.
    pub open spec fn world_garbage(&self) -> int {
        levels_weight(self.levels@, garbage_weight())
    }

    /// Every unit of garbage in the world: carried, on the ground, delivered.
    pub open spec fn garbage_total(&self) -> int {
        self.garbage_held + self.world_garbage()
    }

    /// Recycling centres over all rooms.
    pub open spec fn dropoff_total(&self) -> int {
        levels_weight(self.levels@, dropoff_weight())
    }

    /// Full recycling centres over all rooms.
    pub open spec fn dropoff_full(&self) -> int {
        levels_weight(self.levels@, full_weight())
    }

    /// The room the train is in.
    pub open spec fn current(&self) -> Level {
        self.levels@[self.level_active as int]
    }

    /// The stock of shape `t` is non-negative and, with the pieces on the
    /// board, within bounds.
    pub open spec fn inventory_ok(&self, t: TileType) -> bool {
        0 <= self.track_count(t) && self.track_count(t) + self.board_count(t) <= TRACK_LIMIT
    }

    /// The win holds exactly when every recycling centre is full and there is one.
    pub open spec fn won_spec(full: int, total: int) -> bool {
        full > 0 && full == total
    }

    /// Well-formedness: the rooms, the train, the stock and the garbage are in
    /// range, and the recycling-centre counts and the win flag agree with the rooms.
    pub open spec fn wf(&self) -> bool {
        &&& self.wf_core()
        &&& self.counts_agree()
    }

    /// The recycling-centre counts and the win flag agree with the rooms.
    pub open spec fn counts_agree(&self) -> bool {
        &&& self.total_dropoffs_count == self.dropoff_total()
        &&& self.dropoffs_full_count == self.dropoff_full()
        &&& self.game_won == Self::won_spec(
            self.dropoffs_full_count as int,
            self.total_dropoffs_count as int,
        )
    }

    /// Everything in range; the recycling-centre counts may lag behind.
    pub open spec fn wf_core(&self) -> bool {
        &&& self.levels@.len() == LEVEL_COUNT
        &&& forall|i: int| 0 <= i < self.levels@.len() ==> #[trigger] self.levels@[i].wf()
        &&& self.level_active < LEVEL_COUNT
        &&& -1 <= self.train_tile_pos.x <= MAX_GRID
        &&& -1 <= self.train_tile_pos.y <= MAX_GRID
        &&& -TILE_UNITS <= self.train_pos_offset.x <= TILE_UNITS
        &&& -TILE_UNITS <= self.train_pos_offset.y <= TILE_UNITS
        &&& self.train_anim_timer < TRAIN_ANIM_PERIOD_US
        &&& self.inventory_ok(TileType::TrackHorizontal)
        &&& self.inventory_ok(TileType::TrackVertical)
        &&& self.inventory_ok(TileType::TrackCornerUL)
        &&& self.inventory_ok(TileType::TrackCornerUR)
        &&& self.inventory_ok(TileType::TrackCornerDL)
        &&& self.inventory_ok(TileType::TrackCornerDR)
        &&& 0 <= self.garbage_total() <= GARBAGE_LIMIT
        &&& self.visited_levels@.len() == LEVEL_COUNT
        &&& !self.tunnels_opened ==> match self.tunnel_timer {
            Some(t) => t < TUNNEL_OPEN_DELAY_US,
            None => true,
        }
    }

    /// `self` differs from `o` at most in the rooms' layouts, the stock of
    /// track pieces and the selected piece.
    pub open spec fn same_but_board(&self, o: GameState) -> bool {
        *self == (GameState {
            levels: self.levels,
            count_track_h: self.count_track_h,
            count_track_v: self.count_track_v,
            count_track_ul: self.count_track_ul,
            count_track_ur: self.count_track_ur,
            count_track_dl: self.count_track_dl,
            count_track_dr: self.count_track_dr,
            selected_tile: self.selected_tile,
            ..o
        })
    }

    /// `self` differs from `o` at most in the stock of track pieces.
    pub open spec fn same_but_counts(&self, o: GameState) -> bool {
        *self == (GameState {
            count_track_h: self.count_track_h,
            count_track_v: self.count_track_v,
            count_track_ul: self.count_track_ul,
            count_track_ur: self.count_track_ur,
            count_track_dl: self.count_track_dl,
            count_track_dr: self.count_track_dr,
            ..o
        })
    }

    /// The room the train is in.
    pub fn current_level(&self) -> (r: &Level)
        requires
            self.level_active < self.levels@.len(),
        ensures
            *r == self.current(),
    {
        &self.levels[self.level_active]
    }

    /// Whether the player can neither place over nor remove a tile of this
    /// kind: every kind but the track shapes.
    pub fn is_tile_permanent(&self, tile_type: TileType) -> (r: bool)
        ensures
            r == !is_track(tile_type),
    {
        tile_type.is_permanent()
    }

    /// The pieces of track shape `tile_type` in stock; zero for any other kind.
    pub fn get_track_count(&self, tile_type: TileType) -> (r: i32)
        ensures
            r == self.track_count(tile_type),
    {
        match tile_type {
            TileType::TrackHorizontal => self.count_track_h,
            TileType::TrackVertical => self.count_track_v,
            TileType::TrackCornerUL => self.count_track_ul,
            TileType::TrackCornerUR => self.count_track_ur,
            TileType::TrackCornerDL => self.count_track_dl,
            TileType::TrackCornerDR => self.count_track_dr,
            _ => 0,
        }
    }

    /// Takes one piece of `tile_type` out of stock, unless none is left.
    pub fn decrement_track_count(&mut self, tile_type: TileType)
        ensures
            final(self).same_but_counts(*old(self)),
            forall|t: TileType| #[trigger]
                final(self).track_count(t) == old(self).track_count(t) - if t == tile_type
                    && old(self).track_count(t) > 0 {
                    1int
                } else {
                    0int
                },
    {
        match tile_type {
            TileType::TrackHorizontal => {
                if self.count_track_h > 0 {
                    self.count_track_h -= 1;
                }
            },
            TileType::TrackVertical => {
                if self.count_track_v > 0 {
                    self.count_track_v -= 1;
                }
            },
            TileType::TrackCornerUL => {
                if self.count_track_ul > 0 {
                    self.count_track_ul -= 1;
                }
            },
            TileType::TrackCornerUR => {
                if self.count_track_ur > 0 {
                    self.count_track_ur -= 1;
                }
            },
            TileType::TrackCornerDL => {
                if self.count_track_dl > 0 {
                    self.count_track_dl -= 1;
                }
            },
            TileType::TrackCornerDR => {
                if self.count_track_dr > 0 {
                    self.count_track_dr -= 1;
                }
            },
            _ => {},
        }
    }

    /// Puts one piece of `tile_type` back into stock; any other kind is ignored.
    pub fn increment_track_count(&mut self, tile_type: TileType)
        requires
            old(self).track_count(tile_type) < i32::MAX,
        ensures
            final(self).same_but_counts(*old(self)),
            forall|t: TileType| #[trigger]
                final(self).track_count(t) == old(self).track_count(t) + if t == tile_type
                    && is_track(t) {
                    1int
                } else {
                    0int
                },
    {
        match tile_type {
            TileType::TrackHorizontal => self.count_track_h += 1,
            TileType::TrackVertical => self.count_track_v += 1,
            TileType::TrackCornerUL => self.count_track_ul += 1,
            TileType::TrackCornerUR => self.count_track_ur += 1,
            TileType::TrackCornerDL => self.count_track_dl += 1,
            TileType::TrackCornerDR => self.count_track_dr += 1,
            _ => {},
        }
    }

    /// Well-formedness survives any change confined to the train's place,
    /// offset, direction and run state, the room the train is in, and the message.
    pub proof fn lemma_wf_train_moved(&self, o: GameState)
        requires
            o.wf(),
            self.levels == o.levels,
            self.level_active < LEVEL_COUNT,
            -1 <= self.train_tile_pos.x <= MAX_GRID,
            -1 <= self.train_tile_pos.y <= MAX_GRID,
            -TILE_UNITS <= self.train_pos_offset.x <= TILE_UNITS,
            -TILE_UNITS <= self.train_pos_offset.y <= TILE_UNITS,
            *self == (GameState {
                level_active: self.level_active,
                train_tile_pos: self.train_tile_pos,
                train_pos_offset: self.train_pos_offset,
                train_direction: self.train_direction,
                train_state: self.train_state,
                message: self.message,
                ..o
            }),
        ensures
            self.wf(),
    {
    }

    /// `self` has the rooms of `o`, but for the cell at `pos` of the room the
    /// train is in, which now holds `c`.
    pub open spec fn board_set(&self, o: GameState, pos: Coord, c: Option<TileType>) -> bool {
        &&& self.level_active == o.level_active
        &&& self.levels@ == o.levels@.update(o.level_active as int, self.current())
        &&& self.current().name == o.current().name
        &&& self.current().grid_tiles == o.current().grid_tiles
        &&& self.current().default_train_start == o.current().default_train_start
        &&& self.current().replaced(o.current(), pos, c)
    }

    /// No world measure is negative, and the stock of each shape is in range.
    pub proof fn lemma_wf_bounds(&self)
        requires
            self.wf_core(),
        ensures
            forall|t: TileType| is_track(t) ==> 0 <= #[trigger] self.board_count(t),
            forall|t: TileType| is_track(t) ==> #[trigger] self.track_count(t) <= TRACK_LIMIT,
            0 <= self.world_garbage() <= 3 * max_cells() * LEVEL_COUNT,
            0 <= self.dropoff_total() <= max_cells() * LEVEL_COUNT,
    {
        assert forall|t: TileType| is_track(t) implies 0 <= #[trigger] self.board_count(t) by {
            lemma_levels_weight_bounds(self.levels@, shape_weight(t), 1);
        }
        assert forall|t: TileType| is_track(t) implies #[trigger] self.track_count(t) <= TRACK_LIMIT by {
            lemma_levels_weight_bounds(self.levels@, shape_weight(t), 1);
        }
        lemma_levels_weight_bounds(self.levels@, garbage_weight(), 3);
        lemma_levels_weight_bounds(self.levels@, dropoff_weight(), 1);
    }

    /// The world's garbage is non-negative and bounded in a world of well-formed rooms.
    pub proof fn lemma_wf_bounds_levels(&self)
        requires
            self.levels@.len() == LEVEL_COUNT,
            forall|i: int| 0 <= i < self.levels@.len() ==> #[trigger] self.levels@[i].wf(),
        ensures
            0 <= self.world_garbage() <= 3 * max_cells() * LEVEL_COUNT,
    {
        lemma_levels_weight_bounds(self.levels@, garbage_weight(), 3);
    }

    /// The board count of any shape is bounded by the size of the world.
    pub proof fn lemma_board_bound(&self, t: TileType)
        requires
            self.levels@.len() == LEVEL_COUNT,
            forall|i: int| 0 <= i < self.levels@.len() ==> #[trigger] self.levels@[i].wf(),
        ensures
            0 <= self.board_count(t) <= 599076,
    {
        lemma_levels_weight_bounds(self.levels@, shape_weight(t), 1);
        assert(1 * max_cells() * self.levels@.len() == 599076);
    }

    /// The board count of any shape is non-negative in a world of well-formed rooms.
    pub proof fn lemma_board_nonneg(&self, t: TileType)
        requires
            forall|i: int| 0 <= i < self.levels@.len() ==> #[trigger] self.levels@[i].wf(),
        ensures
            0 <= self.board_count(t),
    {
        lemma_levels_weight_bounds(self.levels@, shape_weight(t), 1);
    }
}

/// Replacing the cell at `pos` of room `i` changes every world measure by
/// the difference of the two cells.
pub proof fn lemma_world_cell_change(
    levels: Seq<Level>,
    i: int,
    l: Level,
    pos: Coord,
    c: Option<TileType>,
)
    requires
        0 <= i < levels.len(),
        l.replaced(levels[i], pos, c),
    ensures
        forall|w: Weight| #[trigger]
            levels_weight(levels.update(i, l), w) == levels_weight(levels, w) - cell_weight(
                levels[i].tile(pos.x as int, pos.y as int),
                w,
            ) + cell_weight(c, w),
{
    assert forall|w: Weight| #[trigger]
        levels_weight(levels.update(i, l), w) == levels_weight(levels, w) - cell_weight(
            levels[i].tile(pos.x as int, pos.y as int),
            w,
        ) + cell_weight(c, w) by {
        crate::level::lemma_levels_weight_update(levels, i, l, w);
    }
}

} // verus!
