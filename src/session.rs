use vstd::prelude::*;
use crate::game_state::{
    GameState, Message, Offset, GARBAGE_LIMIT, LEVEL_COUNT, STANDARD_CORNER, STANDARD_STRAIGHT,
    TRAIN_ANIM_PERIOD_US, TUNNEL_EVENT_LEVEL, TUNNEL_OPEN_DELAY_US,
};
use crate::level::{
    dropoff_weight, full_weight, garbage_weight, lemma_levels_weight_update, levels_weight,
    opened, shape_weight, tunnel_blind, Level, Weight,
};
use crate::levels::{authored_tile, room_plan, ROOM_HEIGHT, ROOM_WIDTH};
use crate::motion::{level_requirements_unmet, requirements_unmet};
use crate::tile::{Coord, TileType, TrainDirection, TrainState};

verus! {

/// The run state after the player presses start/stop: a stopped or broken
/// train starts, a running, blocked or exiting one stops.
pub open spec fn toggled(st: TrainState) -> TrainState {
    match st {
        TrainState::Stopped => TrainState::Running,
        TrainState::Running => TrainState::Stopped,
        TrainState::Obstacle => TrainState::Stopped,
        TrainState::BrokenRoute => TrainState::Running,
        TrainState::Exiting => TrainState::Stopped,
    }
}

/// `s` with the train stopped at the default entry of the room it is in,
/// facing into the room, at the tile's centre.
pub open spec fn at_start(s: GameState) -> GameState {
    GameState {
        train_tile_pos: s.current().default_train_start,
        train_pos_offset: Offset { x: 0, y: 0 },
        train_direction: s.current().entry_direction_spec(),
        train_state: TrainState::Stopped,
        ..s
    }
}

/// `s` with the standard stock of track pieces.
pub open spec fn with_standard_stock(s: GameState) -> GameState {
    GameState {
        count_track_h: STANDARD_STRAIGHT,
        count_track_v: STANDARD_STRAIGHT,
        count_track_ul: STANDARD_CORNER,
        count_track_ur: STANDARD_CORNER,
        count_track_dl: STANDARD_CORNER,
        count_track_dr: STANDARD_CORNER,
        ..s
    }
}

proof fn lemma_levels_weight_zero(levels: Seq<Level>)
    requires
        forall|i: int| 0 <= i < levels.len() ==> (#[trigger] levels[i]).weight(full_weight()) == 0,
    ensures
        levels_weight(levels, full_weight()) == 0,
    decreases levels.len(),
{
    if levels.len() > 0 {
        assert(levels[levels.len() - 1].weight(full_weight()) == 0);
        lemma_levels_weight_zero(levels.drop_last());
    }
}

impl GameState {
    /// A new game over the given rooms: the train stopped at the default
    /// entry of the first room, the standard stock, nothing carried.
    pub fn with_levels(levels: Vec<Level>) -> (r: GameState)
        requires
            levels@.len() == LEVEL_COUNT,
            forall|i: int| 0 <= i < levels@.len() ==> (#[trigger] levels@[i]).wf(),
        ensures
            r.wf(),
            r == (GameState {
                total_dropoffs_count: r.total_dropoffs_count,
                dropoffs_full_count: r.dropoffs_full_count,
                game_won: r.game_won,
                visited_levels: r.visited_levels,
                ..at_start(
                    with_standard_stock(
                        GameState {
                            levels: levels,
                            level_active: 0,
                            selected_tile: None,
                            count_track_h: 0,
                            count_track_v: 0,
                            count_track_ul: 0,
                            count_track_ur: 0,
                            count_track_dl: 0,
                            count_track_dr: 0,
                            train_tile_pos: Coord { x: 0, y: 0 },
                            train_pos_offset: Offset { x: 0, y: 0 },
                            train_direction: TrainDirection::Right,
                            train_state: TrainState::Stopped,
                            train_anim_frame: 0,
                            train_anim_timer: 0,
                            garbage_held: 0,
                            total_dropoffs_count: 0,
                            dropoffs_full_count: 0,
                            game_won: false,
                            message: None,
                            skip_level_requirements: false,
                            visited_levels: r.visited_levels,
                            tunnel_timer: None,
                            tunnels_opened: false,
                            win_message_shown: false,
                            help_message_shown: false,
                        },
                    ),
                )
            }),
            r.visited_levels@ == seq![true, false, false, false, false, false, false, false, false],
    {
        let mut visited_levels: Vec<bool> = Vec::with_capacity(LEVEL_COUNT);
        visited_levels.push(true);
        let mut i: usize = 1;
        while i < LEVEL_COUNT
            invariant
                1 <= i <= LEVEL_COUNT,
                visited_levels@.len() == i,
                visited_levels@[0] == true,
                forall|j: int| 1 <= j < i ==> visited_levels@[j] == false,
            decreases LEVEL_COUNT - i,
        {
            visited_levels.push(false);
            i = i + 1;
        }
        assert(visited_levels@ =~= seq![true, false, false, false, false, false, false, false, false]);
        assert(levels@[0].wf());
        let start = levels[0].default_train_start;
        let direction = levels[0].entry_direction();
        let mut state = GameState {
            levels,
            level_active: 0,
            selected_tile: None,
            count_track_h: STANDARD_STRAIGHT,
            count_track_v: STANDARD_STRAIGHT,
            count_track_ul: STANDARD_CORNER,
            count_track_ur: STANDARD_CORNER,
            count_track_dl: STANDARD_CORNER,
            count_track_dr: STANDARD_CORNER,
            train_tile_pos: start,
            train_pos_offset: Offset { x: 0, y: 0 },
            train_direction: direction,
            train_state: TrainState::Stopped,
            train_anim_frame: 0,
            train_anim_timer: 0,
            garbage_held: 0,
            total_dropoffs_count: 0,
            dropoffs_full_count: 0,
            game_won: false,
            message: None,
            skip_level_requirements: false,
            visited_levels,
            tunnel_timer: None,
            tunnels_opened: false,
            win_message_shown: false,
            help_message_shown: false,
        };
        proof {
            state.lemma_wf_bounds_levels();
            state.lemma_board_bound(TileType::TrackHorizontal);
            state.lemma_board_bound(TileType::TrackVertical);
            state.lemma_board_bound(TileType::TrackCornerUL);
            state.lemma_board_bound(TileType::TrackCornerUR);
            state.lemma_board_bound(TileType::TrackCornerDL);
            state.lemma_board_bound(TileType::TrackCornerDR);
            assert(state.inventory_ok(TileType::TrackHorizontal));
            assert(state.inventory_ok(TileType::TrackVertical));
            assert(state.inventory_ok(TileType::TrackCornerUL));
            assert(state.inventory_ok(TileType::TrackCornerUR));
            assert(state.inventory_ok(TileType::TrackCornerDL));
            assert(state.inventory_ok(TileType::TrackCornerDR));
        }
        state.update_dropoff_counts();
        state
    }

    /// The game as it starts: the nine rooms of `GameState::create_levels`, the train
    /// stopped at the default entry of the first room, the standard stock,
    /// nothing carried, and no recycling centre full, so not won.
    pub fn new() -> (r: GameState)
        ensures
            r.wf(),
            r.level_active == 0,
            r.train_tile_pos == r.current().default_train_start,
            r.train_direction == r.current().entry_direction_spec(),
            r.train_pos_offset == (Offset { x: 0, y: 0 }),
            r.train_state == TrainState::Stopped,
            r.garbage_held == 0,
            r.dropoffs_full_count == 0,
            !r.game_won,
            r.count_track_h == STANDARD_STRAIGHT && r.count_track_v == STANDARD_STRAIGHT,
            r.count_track_ul == STANDARD_CORNER && r.count_track_ur == STANDARD_CORNER,
            r.count_track_dl == STANDARD_CORNER && r.count_track_dr == STANDARD_CORNER,
            r.train_tile_pos == (Coord { x: 10, y: 2 }),
            r.train_direction == TrainDirection::Left,
            r.selected_tile == None::<TileType>,
            r.message == None::<Message>,
            r.visited_levels@ == seq![true, false, false, false, false, false, false, false, false],
            !r.tunnels_opened && r.tunnel_timer == None::<u64>,
            !r.skip_level_requirements && !r.win_message_shown && !r.help_message_shown,
            r.train_anim_frame == 0 && r.train_anim_timer == 0,
            r.levels@.len() == 9,
            forall|i: int|
                0 <= i < 9 ==> (#[trigger] r.levels@[i]).name == room_plan(i).name
                    && r.levels@[i].default_train_start == room_plan(i).start
                    && r.levels@[i].grid_tiles == (Coord { x: ROOM_WIDTH, y: ROOM_HEIGHT }),
            forall|i: int, x: int, y: int|
                0 <= i < 9 ==> #[trigger] r.levels@[i].tile(x, y) == authored_tile(i, x, y),
    {
        let levels = GameState::create_levels();
        proof {
            lemma_levels_weight_zero(levels@);
        }
        GameState::with_levels(levels)
    }

    /// Puts the train back at the default entry of the room it is in,
    /// stopped, facing into the room.
    pub fn place_train_at_start(&mut self)
        requires
            old(self).wf(),
        ensures
            final(self).wf(),
            *final(self) == at_start(*old(self)),
    {
        let idx = self.level_active;
        assert(self.levels@[idx as int].wf());
        let start = self.levels[idx].default_train_start;
        let direction = self.levels[idx].entry_direction();
        self.train_tile_pos = start;
        self.train_pos_offset = Offset { x: 0, y: 0 };
        self.train_direction = direction;
        self.train_state = TrainState::Stopped;
    }

    /// Starts or stops the train.
    pub fn toggle_train(&mut self)
        requires
            old(self).wf(),
        ensures
            final(self).wf(),
            *final(self) == (GameState { train_state: toggled(old(self).train_state), ..*old(self) }),
    {
        self.train_state = match self.train_state {
            TrainState::Stopped => TrainState::Running,
            TrainState::Running => TrainState::Stopped,
            TrainState::Obstacle => TrainState::Stopped,
            TrainState::BrokenRoute => TrainState::Running,
            TrainState::Exiting => TrainState::Stopped,
        };
    }

    /// Puts the train back at the room's default entry and resets the room.
    pub fn reset_train(&mut self)
        requires
            old(self).wf(),
        ensures
            final(self).wf(),
            final(self).garbage_total() == old(self).garbage_total(),
            final(self).is_room_reset(at_start(*old(self))),
    {
        self.place_train_at_start();
        self.reset_level();
    }

    /// Moves the player to room `idx` (a debugging aid): standard stock, the
    /// train stopped at the room's default entry. An index past the rooms
    /// changes nothing.
    pub fn jump_to_level(&mut self, idx: usize)
        requires
            old(self).wf(),
        ensures
            final(self).wf(),
            idx >= LEVEL_COUNT ==> *final(self) == *old(self),
            idx < LEVEL_COUNT ==> *final(self) == at_start(
                with_standard_stock(GameState { level_active: idx, ..*old(self) }),
            ),
    {
        if idx >= self.levels.len() {
            return;
        }
        self.standard_stock();
        self.level_active = idx;
        self.place_train_at_start();
    }

    /// Moves the player to room `idx` (a debugging aid), unless the room
    /// the train is in has recycling centres and none of them is full, and
    /// the requirements are not being skipped: then the player is told to
    /// fill one. A first visit to a room brings the standard stock.
    pub fn travel_to_level(&mut self, idx: usize)
        requires
            old(self).wf(),
        ensures
            final(self).wf(),
            idx >= LEVEL_COUNT || idx == old(self).level_active ==> *final(self) == *old(self),
            idx < LEVEL_COUNT && idx != old(self).level_active ==> if !old(self).skip_level_requirements
                && requirements_unmet(old(self).current()) {
                *final(self) == (GameState {
                    message: Some(Message::FillRecyclingCenter),
                    ..*old(self)
                })
            } else {
                &&& final(self).visited_levels@ == old(self).visited_levels@.update(idx as int, true)
                &&& *final(self) == at_start(
                    GameState {
                        level_active: idx,
                        visited_levels: final(self).visited_levels,
                        ..if old(self).visited_levels@[idx as int] {
                            *old(self)
                        } else {
                            with_standard_stock(*old(self))
                        }
                    },
                )
            },
    {
        if idx >= self.levels.len() || idx == self.level_active {
            return;
        }
        let active = self.level_active;
        assert(self.levels@[active as int].wf());
        if !self.skip_level_requirements && level_requirements_unmet(&self.levels[active]) {
            self.message = Some(Message::FillRecyclingCenter);
            return;
        }
        if !self.visited_levels[idx] {
            self.visited_levels[idx] = true;
            self.standard_stock();
        } else {
            self.visited_levels[idx] = true;
        }
        self.level_active = idx;
        self.place_train_at_start();
    }

    /// Restores the standard stock of track pieces.
    pub fn standard_stock(&mut self)
        requires
            old(self).wf(),
        ensures
            final(self).wf(),
            *final(self) == with_standard_stock(*old(self)),
    {
        proof {
            self.lemma_board_bound(TileType::TrackHorizontal);
            self.lemma_board_bound(TileType::TrackVertical);
            self.lemma_board_bound(TileType::TrackCornerUL);
            self.lemma_board_bound(TileType::TrackCornerUR);
            self.lemma_board_bound(TileType::TrackCornerDL);
            self.lemma_board_bound(TileType::TrackCornerDR);
        }
        self.count_track_h = STANDARD_STRAIGHT;
        self.count_track_v = STANDARD_STRAIGHT;
        self.count_track_ul = STANDARD_CORNER;
        self.count_track_ur = STANDARD_CORNER;
        self.count_track_dl = STANDARD_CORNER;
        self.count_track_dr = STANDARD_CORNER;
    }

    /// Opens every closed tunnel of every room.
    pub fn open_all_tunnels(&mut self)
        requires
            old(self).wf(),
        ensures
            final(self).wf(),
            *final(self) == (GameState { levels: final(self).levels, ..*old(self) }),
            final(self).levels@.len() == old(self).levels@.len(),
            forall|i: int, x: int, y: int|
                0 <= i < final(self).levels@.len() ==> #[trigger] final(self).levels@[i].tile(x, y)
                    == opened(old(self).levels@[i].tile(x, y)),
            forall|i: int|
                0 <= i < final(self).levels@.len() ==> (#[trigger] final(self).levels@[i]).grid_tiles
                    == old(self).levels@[i].grid_tiles && final(self).levels@[i].name
                    == old(self).levels@[i].name && final(self).levels@[i].default_train_start
                    == old(self).levels@[i].default_train_start,
    {
        let ghost s0 = *self;
        let mut i: usize = 0;
        while i < self.levels.len()
            invariant
                s0.wf(),
                *self == (GameState { levels: self.levels, ..s0 }),
                self.levels@.len() == s0.levels@.len(),
                i <= self.levels@.len(),
                forall|j: int| 0 <= j < self.levels@.len() ==> (#[trigger] self.levels@[j]).wf(),
                forall|j: int, x: int, y: int|
                    0 <= j < i ==> #[trigger] self.levels@[j].tile(x, y) == opened(
                        s0.levels@[j].tile(x, y),
                    ),
                forall|j: int| i <= j < self.levels@.len() ==> self.levels@[j] == s0.levels@[j],
                forall|j: int|
                    0 <= j < self.levels@.len() ==> (#[trigger] self.levels@[j]).grid_tiles
                        == s0.levels@[j].grid_tiles && self.levels@[j].name == s0.levels@[j].name
                        && self.levels@[j].default_train_start == s0.levels@[j].default_train_start,
                forall|w: Weight|
                    tunnel_blind(w) ==> #[trigger] levels_weight(self.levels@, w) == levels_weight(
                        s0.levels@,
                        w,
                    ),
            decreases self.levels@.len() - i,
        {
            let ghost before = self.levels@;
            assert(self.levels@[i as int].wf());
            self.levels[i].open_tunnels();
            proof {
                assert forall|w: Weight| tunnel_blind(w) implies #[trigger] levels_weight(
                    self.levels@,
                    w,
                ) == levels_weight(s0.levels@, w) by {
                    lemma_levels_weight_update(before, i as int, self.levels@[i as int], w);
                    assert(self.levels@ == before.update(i as int, self.levels@[i as int]));
                }
            }
            i = i + 1;
        }
        proof {
            assert(tunnel_blind(garbage_weight()));
            assert(tunnel_blind(dropoff_weight()));
            assert(tunnel_blind(full_weight()));
            assert(tunnel_blind(shape_weight(TileType::TrackHorizontal)));
            assert(tunnel_blind(shape_weight(TileType::TrackVertical)));
            assert(tunnel_blind(shape_weight(TileType::TrackCornerUL)));
            assert(tunnel_blind(shape_weight(TileType::TrackCornerUR)));
            assert(tunnel_blind(shape_weight(TileType::TrackCornerDL)));
            assert(tunnel_blind(shape_weight(TileType::TrackCornerDR)));
            assert(self.inventory_ok(TileType::TrackHorizontal));
            assert(self.inventory_ok(TileType::TrackVertical));
            assert(self.inventory_ok(TileType::TrackCornerUL));
            assert(self.inventory_ok(TileType::TrackCornerUR));
            assert(self.inventory_ok(TileType::TrackCornerDL));
            assert(self.inventory_ok(TileType::TrackCornerDR));
        }
    }

    /// The scripted event of the middle room: once the player has spent
    /// five seconds there, every closed tunnel in the world opens and the
    /// player is told so. `dt_us` is the frame time in microseconds.
    pub fn update_level_22_tunnels(&mut self, dt_us: u32)
        requires
            old(self).wf(),
        ensures
            final(self).wf(),
            old(self).level_active != TUNNEL_EVENT_LEVEL || old(self).tunnels_opened ==> *final(self)
                == *old(self),
            old(self).level_active == TUNNEL_EVENT_LEVEL && !old(self).tunnels_opened ==> {
                let t = match old(self).tunnel_timer {
                    Some(t) => t,
                    None => 0,
                } + dt_us;
                &&& final(self).tunnel_timer == Some(t as u64)
                &&& t < TUNNEL_OPEN_DELAY_US ==> *final(self) == (GameState {
                    tunnel_timer: Some(t as u64),
                    ..*old(self)
                })
                &&& t >= TUNNEL_OPEN_DELAY_US ==> {
                    &&& *final(self) == (GameState {
                        levels: final(self).levels,
                        tunnels_opened: true,
                        tunnel_timer: Some(t as u64),
                        message: Some(Message::TunnelsOpened),
                        ..*old(self)
                    })
                    &&& final(self).levels@.len() == LEVEL_COUNT
                    &&& forall|i: int, x: int, y: int|
                        0 <= i < LEVEL_COUNT ==> #[trigger] final(self).levels@[i].tile(x, y)
                            == opened(old(self).levels@[i].tile(x, y))
                    &&& forall|i: int|
                        0 <= i < LEVEL_COUNT ==> (#[trigger] final(self).levels@[i]).grid_tiles
                            == old(self).levels@[i].grid_tiles && final(self).levels@[i].name
                            == old(self).levels@[i].name
                            && final(self).levels@[i].default_train_start
                            == old(self).levels@[i].default_train_start
                }
            },
    {
        if self.level_active != TUNNEL_EVENT_LEVEL || self.tunnels_opened {
            return;
        }
        let elapsed: u64 = match self.tunnel_timer {
            Some(t) => t,
            None => 0,
        };
        let t: u64 = elapsed + dt_us as u64;
        self.tunnel_timer = Some(t);
        if t >= TUNNEL_OPEN_DELAY_US {
            self.tunnels_opened = true;
            self.open_all_tunnels();
            self.message = Some(Message::TunnelsOpened);
        }
    }

    /// Flips the train's animation frame each time a period has run while
    /// it runs. `dt_us` is the frame time in microseconds.
    pub fn update_train_animation(&mut self, dt_us: u32)
        requires
            old(self).wf(),
        ensures
            final(self).wf(),
            old(self).train_state != TrainState::Running ==> *final(self) == *old(self),
            old(self).train_state == TrainState::Running ==> {
                let t = old(self).train_anim_timer + dt_us;
                if t >= TRAIN_ANIM_PERIOD_US {
                    *final(self) == (GameState {
                        train_anim_timer: 0,
                        train_anim_frame: if old(self).train_anim_frame == 0 { 1 } else { 0 },
                        ..*old(self)
                    })
                } else {
                    *final(self) == (GameState { train_anim_timer: t as u64, ..*old(self) })
                }
            },
    {
        if self.train_state != TrainState::Running {
            return;
        }
        let t: u64 = self.train_anim_timer + dt_us as u64;
        if t >= TRAIN_ANIM_PERIOD_US {
            self.train_anim_timer = 0;
            self.train_anim_frame = if self.train_anim_frame == 0 { 1 } else { 0 };
        } else {
            self.train_anim_timer = t;
        }
    }

    /// Shows the help at the start of the game, and again on request.
    pub fn update_help_message(&mut self, requested: bool)
        ensures
            !old(self).help_message_shown ==> *final(self) == (GameState {
                help_message_shown: true,
                message: Some(Message::Help),
                ..*old(self)
            }),
            old(self).help_message_shown ==> *final(self) == if requested {
                GameState { message: Some(Message::Help), ..*old(self) }
            } else {
                *old(self)
            },
    {
        if !self.help_message_shown {
            self.help_message_shown = true;
            self.message = Some(Message::Help);
        } else if requested {
            self.message = Some(Message::Help);
        }
    }

    /// Announces the win, once.
    pub fn update_win_condition(&mut self)
        ensures
            *final(self) == if old(self).game_won && !old(self).win_message_shown {
                GameState { win_message_shown: true, message: Some(Message::Won), ..*old(self) }
            } else {
                *old(self)
            },
    {
        if self.game_won && !self.win_message_shown {
            self.win_message_shown = true;
            self.message = Some(Message::Won);
        }
    }

    /// Dismisses the message on a click or a key press.
    pub fn update_message_dismissal(&mut self, input: bool)
        ensures
            *final(self) == if old(self).message is Some && input {
                GameState { message: None, ..*old(self) }
            } else {
                *old(self)
            },
    {
        if self.message.is_some() && input {
            self.message = None;
        }
    }

    /// Hands the train one more unit of garbage (a debugging aid), unless it
    /// already carries so much that the world's garbage would leave its bound.
    pub fn debug_add_garbage(&mut self)
        requires
            old(self).wf(),
        ensures
            final(self).wf(),
            *final(self) == if old(self).garbage_held < DEBUG_HELD_LIMIT {
                GameState { garbage_held: (old(self).garbage_held + 1) as i32, ..*old(self) }
            } else {
                *old(self)
            },
    {
        proof {
            self.lemma_wf_bounds_levels();
        }
        if self.garbage_held < DEBUG_HELD_LIMIT {
            self.garbage_held = self.garbage_held + 1;
        }
    }

    /// Sets the stock of every track shape to `n` (a debugging aid).
    pub fn set_all_track_counts(&mut self, n: i32)
        requires
            old(self).wf(),
            0 <= n <= MAX_GIVEN_STOCK,
        ensures
            final(self).wf(),
            *final(self) == (GameState {
                count_track_h: n,
                count_track_v: n,
                count_track_ul: n,
                count_track_ur: n,
                count_track_dl: n,
                count_track_dr: n,
                ..*old(self)
            }),
    {
        proof {
            self.lemma_board_bound(TileType::TrackHorizontal);
            self.lemma_board_bound(TileType::TrackVertical);
            self.lemma_board_bound(TileType::TrackCornerUL);
            self.lemma_board_bound(TileType::TrackCornerUR);
            self.lemma_board_bound(TileType::TrackCornerDL);
            self.lemma_board_bound(TileType::TrackCornerDR);
        }
        self.count_track_h = n;
        self.count_track_v = n;
        self.count_track_ul = n;
        self.count_track_ur = n;
        self.count_track_dl = n;
        self.count_track_dr = n;
    }
}

/// Above this load the debugging aid hands out no more garbage: with the
/// most garbage the rooms can hold, the world's total stays in bounds.
pub const DEBUG_HELD_LIMIT: i32 = GARBAGE_LIMIT - 3 * 599076;

/// The largest stock of a shape that can be handed out at once.
pub const MAX_GIVEN_STOCK: i32 = 1_000_000;

/// A row or column of the room grid after a step back and then a step on,
/// each taken only when asked for, neither leaving the grid.
pub open spec fn clamped_step(v: int, back: bool, on: bool) -> int {
    let a = if back {
        if v - 1 < 0 { 0 } else { v - 1 }
    } else {
        v
    };
    if on {
        if a + 1 > 2 { 2 } else { a + 1 }
    } else {
        a
    }
}

/// The room reached from room `active` by the navigation keys: one row or
/// column back or on for each key pressed, never past the edge of the grid.
pub fn navigation_target(active: usize, row_back: bool, row_on: bool, col_back: bool, col_on: bool) -> (r: usize)
    requires
        active < LEVEL_COUNT,
    ensures
        r < LEVEL_COUNT,
        r == clamped_step(active as int / 3, row_back, row_on) * 3 + clamped_step(
            active as int % 3,
            col_back,
            col_on,
        ),
{
    let row = step_within_grid(active / 3, row_back, row_on);
    let col = step_within_grid(active % 3, col_back, col_on);
    row * 3 + col
}

fn step_within_grid(v: usize, back: bool, on: bool) -> (r: usize)
    requires
        v <= 2,
    ensures
        r == clamped_step(v as int, back, on),
        r <= 2,
{
    let a = if back {
        if v == 0 { 0 } else { v - 1 }
    } else {
        v
    };
    if on {
        if a == 2 { 2 } else { a + 1 }
    } else {
        a
    }
}

} // verus!
