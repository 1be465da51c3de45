use vstd::prelude::*;
use crate::game_state::GameState;
use crate::level::{
    cell_weight, dropoff_weight, full_weight, lemma_levels_weight_prefix, levels_weight, max_cells,
    Level, Weight,
};
use crate::tile::{garbage_units, is_track, Coord, TileType, TrainDirection, TrainState};

verus! {

/// Whether a tile is a pickup or a recycling centre, in any state.
pub open spec fn is_garbage_site(t: TileType) -> bool {
    matches!(t,
        TileType::GarbagePickupFull | TileType::GarbagePickupEmpty | TileType::GarbageDropoffEmpty
        | TileType::GarbageDropoffFull1 | TileType::GarbageDropoffFull2
        | TileType::GarbageDropoffFull3)
}

impl GameState {
    /// Recounts the recycling centres, full and in total, over all rooms,
    /// and decides the win: every centre full, and at least one.
    pub fn update_dropoff_counts(&mut self)
        requires
            old(self).wf_core(),
        ensures
            final(self).wf(),
            *final(self) == (GameState {
                total_dropoffs_count: final(self).total_dropoffs_count,
                dropoffs_full_count: final(self).dropoffs_full_count,
                game_won: final(self).game_won,
                ..*old(self)
            }),
    {
        let mut total: i32 = 0;
        let mut full: i32 = 0;
        let mut i: usize = 0;
        proof {
            assert(self.levels@.take(0) =~= Seq::<crate::level::Level>::empty());
        }
        while i < self.levels.len()
            invariant
                self.wf_core(),
                i <= self.levels@.len(),
                0 <= full <= total <= i * max_cells(),
                total == levels_weight(self.levels@.take(i as int), dropoff_weight()),
                full == levels_weight(self.levels@.take(i as int), full_weight()),
            decreases self.levels@.len() - i,
        {
            proof {
                lemma_levels_weight_prefix(self.levels@, i as int, dropoff_weight());
                lemma_levels_weight_prefix(self.levels@, i as int, full_weight());
                assert(self.levels@[i as int].wf());
                crate::level::lemma_cells_weight_bounds(self.levels@[i as int].cells@, dropoff_weight(), 1);
                crate::level::lemma_cells_weight_bounds(self.levels@[i as int].cells@, full_weight(), 1);
                let l = self.levels@[i as int];
                let m = max_cells();
                assert(l.cells@.len() <= m) by (nonlinear_arith)
                    requires
                        l.cells@.len() == (l.width() + 2) * (l.height() + 2),
                        1 <= l.width() <= 256,
                        1 <= l.height() <= 256,
                        m == 258 * 258,
                ;
                assert((i + 1) * m == i * m + m) by (nonlinear_arith);
                assert(i * m <= 8 * m) by (nonlinear_arith)
                    requires
                        i <= 8,
                        m >= 0,
                ;
                // The level's full centres are among its centres.
                lemma_full_le_total(l.cells@);
            }
            let (t, f) = self.levels[i].count_dropoffs();
            total = total + t;
            full = full + f;
            i = i + 1;
        }
        proof {
            assert(self.levels@.take(i as int) =~= self.levels@);
        }
        self.total_dropoffs_count = total;
        self.dropoffs_full_count = full;
        self.game_won = full > 0 && full == total;
    }

    /// Puts `kind` into the cell at `pos` of the room the train is in, and
    /// moves the difference in garbage between the train and the ground.
    fn exchange(&mut self, pos: Coord, kind: TileType)
        requires
            old(self).wf_core(),
            old(self).current().addressable(pos.x as int, pos.y as int),
            old(self).current().tile(pos.x as int, pos.y as int) matches Some(t) && is_garbage_site(t),
            is_garbage_site(kind),
        ensures
            final(self).wf_core(),
            final(self).board_set(*old(self), pos, Some(kind)),
            final(self).garbage_held == old(self).garbage_held + garbage_units(
                old(self).current().tile(pos.x as int, pos.y as int)->Some_0,
            ) - garbage_units(kind),
            *final(self) == (GameState {
                levels: final(self).levels,
                garbage_held: final(self).garbage_held,
                ..*old(self)
            }),
            final(self).garbage_total() == old(self).garbage_total(),
            forall|w: Weight| #[trigger] levels_weight(final(self).levels@, w) == levels_weight(
                old(self).levels@,
                w,
            ) - cell_weight(old(self).current().tile(pos.x as int, pos.y as int), w)
                + cell_weight(Some(kind), w),
    {
        let ghost pre = *self;
        let idx = self.level_active;
        assert(self.levels@[idx as int].wf());
        let prev = match self.levels[idx].get(pos) {
            Some(t) => t,
            None => {
                return;
            },
        };
        let give: i32 = garbage_amount(prev);
        let take: i32 = garbage_amount(kind);
        proof {
            pre.lemma_wf_bounds();
        }
        self.set_current_cell(pos, Some(kind));
        proof {
            let post = *self;
            post.lemma_wf_bounds_levels();
            assert(post.world_garbage() == pre.world_garbage() - give + take);
        }
        self.garbage_held = self.garbage_held + give - take;
        proof {
            assert forall|t: TileType| is_track(t) implies #[trigger] self.board_count(t) == pre.board_count(t) by {
            }
            assert(self.inventory_ok(TileType::TrackHorizontal));
            assert(self.inventory_ok(TileType::TrackVertical));
            assert(self.inventory_ok(TileType::TrackCornerUL));
            assert(self.inventory_ok(TileType::TrackCornerUR));
            assert(self.inventory_ok(TileType::TrackCornerDL));
            assert(self.inventory_ok(TileType::TrackCornerDR));
        }
    }
}

/// Whether `(x, y)` is one of the four cells next to `p`.
pub open spec fn adjacent(p: Coord, x: int, y: int) -> bool {
    (x == p.x && (y == p.y - 1 || y == p.y + 1)) || (y == p.y && (x == p.x - 1 || x == p.x + 1))
}

/// One for a full pickup, else zero.
pub open spec fn full_pickup(c: Option<TileType>) -> int {
    if c == Some(TileType::GarbagePickupFull) { 1 } else { 0 }
}

/// The full pickups among the four cells next to `p`.
pub open spec fn full_pickups_around(l: Level, p: Coord) -> int {
    full_pickup(l.tile(p.x as int, p.y - 1)) + full_pickup(l.tile(p.x as int, p.y + 1))
        + full_pickup(l.tile(p.x - 1, p.y as int)) + full_pickup(l.tile(p.x + 1, p.y as int))
}

/// A cell after collection: a full pickup next to the train is emptied.
pub open spec fn after_pickup(c: Option<TileType>, next_to_train: bool) -> Option<TileType> {
    if next_to_train && c == Some(TileType::GarbagePickupFull) {
        Some(TileType::GarbagePickupEmpty)
    } else {
        c
    }
}

impl GameState {
    /// Empties a full pickup at `pos` onto the train.
    fn pick_up_at(&mut self, pos: Coord)
        requires
            old(self).wf(),
        ensures
            final(self).wf(),
            final(self).garbage_total() == old(self).garbage_total(),
            old(self).current().tile(pos.x as int, pos.y as int) != Some(TileType::GarbagePickupFull)
                ==> *final(self) == *old(self),
            old(self).current().tile(pos.x as int, pos.y as int) == Some(TileType::GarbagePickupFull)
                ==> {
                &&& final(self).board_set(*old(self), pos, Some(TileType::GarbagePickupEmpty))
                &&& final(self).garbage_held == old(self).garbage_held + 1
                &&& *final(self) == (GameState {
                    levels: final(self).levels,
                    garbage_held: final(self).garbage_held,
                    ..*old(self)
                })
            },
    {
        let idx = self.level_active;
        assert(self.levels@[idx as int].wf());
        if self.levels[idx].get(pos) == Some(TileType::GarbagePickupFull) {
            self.exchange(pos, TileType::GarbagePickupEmpty);
        }
    }

    /// While the train runs, collects the garbage of every full pickup next
    /// to it.
    pub fn check_garbage_pickup(&mut self)
        requires
            old(self).wf(),
        ensures
            final(self).wf(),
            final(self).garbage_total() == old(self).garbage_total(),
            old(self).train_state != TrainState::Running ==> *final(self) == *old(self),
            old(self).train_state == TrainState::Running ==> {
                &&& *final(self) == (GameState {
                    levels: final(self).levels,
                    garbage_held: final(self).garbage_held,
                    ..*old(self)
                })
                &&& final(self).levels@ == old(self).levels@.update(
                    old(self).level_active as int,
                    final(self).current(),
                )
                &&& final(self).current().grid_tiles == old(self).current().grid_tiles
                &&& final(self).current().name == old(self).current().name
                &&& final(self).current().default_train_start == old(self).current().default_train_start
                &&& forall|x: int, y: int| #[trigger]
                    final(self).current().tile(x, y) == after_pickup(
                        old(self).current().tile(x, y),
                        adjacent(old(self).train_tile_pos, x, y),
                    )
                &&& final(self).garbage_held == old(self).garbage_held + full_pickups_around(
                    old(self).current(),
                    old(self).train_tile_pos,
                )
            },
    {
        if self.train_state != TrainState::Running {
            return;
        }
        let p = self.train_tile_pos;
        let ghost s0 = *self;
        self.pick_up_at(p.step(TrainDirection::Up));
        let ghost s1 = *self;
        self.pick_up_at(p.step(TrainDirection::Down));
        let ghost s2 = *self;
        self.pick_up_at(p.step(TrainDirection::Left));
        let ghost s3 = *self;
        self.pick_up_at(p.step(TrainDirection::Right));
        proof {
            assert forall|x: int, y: int| #[trigger]
                self.current().tile(x, y) == after_pickup(
                    s0.current().tile(x, y),
                    adjacent(p, x, y),
                ) by {
                assert(s1.current().tile(x, y) == after_pickup(
                    s0.current().tile(x, y), x == p.x && y == p.y - 1));
                assert(s2.current().tile(x, y) == after_pickup(
                    s1.current().tile(x, y), x == p.x && y == p.y + 1));
                assert(s3.current().tile(x, y) == after_pickup(
                    s2.current().tile(x, y), x == p.x - 1 && y == p.y));
            }
            assert(s1.current().tile(p.x as int, p.y + 1) == s0.current().tile(p.x as int, p.y + 1));
            assert(s2.current().tile(p.x - 1, p.y as int) == s0.current().tile(p.x - 1, p.y as int));
            assert(s3.current().tile(p.x + 1, p.y as int) == s0.current().tile(p.x + 1, p.y as int));
            assert(self.levels@ =~= s0.levels@.update(s0.level_active as int, self.current()));
        }
    }
}

/// The fill level of a recycling centre that still has room.
pub open spec fn room_fill(c: Option<TileType>) -> Option<int> {
    match c {
        Some(TileType::GarbageDropoffEmpty) => Some(0),
        Some(TileType::GarbageDropoffFull1) => Some(1),
        Some(TileType::GarbageDropoffFull2) => Some(2),
        _ => None,
    }
}

/// The units a train carrying `held` leaves at cell `c`: as many as the
/// centre has room for, at most what the train carries.
pub open spec fn deposit(c: Option<TileType>, held: int) -> int {
    match room_fill(c) {
        Some(f) => if held <= 0 {
            0
        } else if held < 3 - f {
            held
        } else {
            3 - f
        },
        None => 0,
    }
}

/// The recycling centre holding `f` units.
pub open spec fn dropoff_of(f: int) -> TileType {
    if f <= 0 {
        TileType::GarbageDropoffEmpty
    } else if f == 1 {
        TileType::GarbageDropoffFull1
    } else if f == 2 {
        TileType::GarbageDropoffFull2
    } else {
        TileType::GarbageDropoffFull3
    }
}

/// A cell after `a` units were left at it.
pub open spec fn after_deposit(c: Option<TileType>, a: int) -> Option<TileType> {
    if a > 0 {
        Some(dropoff_of(room_fill(c)->Some_0 + a))
    } else {
        c
    }
}

/// The units left at the cells above, below, left of and right of `p`, in
/// that order, by a train that arrives carrying `held`.
pub open spec fn deposits(l: Level, p: Coord, held: int) -> Seq<int> {
    let au = deposit(l.tile(p.x as int, p.y - 1), held);
    let ad = deposit(l.tile(p.x as int, p.y + 1), held - au);
    let al = deposit(l.tile(p.x - 1, p.y as int), held - au - ad);
    let ar = deposit(l.tile(p.x + 1, p.y as int), held - au - ad - al);
    seq![au, ad, al, ar]
}

/// A cell after the train at `p` has left `a` units at each of its four
/// neighbours, in the order of `deposits`.
pub open spec fn after_dropoff(c: Option<TileType>, p: Coord, a: Seq<int>, x: int, y: int) -> Option<
    TileType,
> {
    if x == p.x && y == p.y - 1 {
        after_deposit(c, a[0])
    } else if x == p.x && y == p.y + 1 {
        after_deposit(c, a[1])
    } else if x == p.x - 1 && y == p.y {
        after_deposit(c, a[2])
    } else if x == p.x + 1 && y == p.y {
        after_deposit(c, a[3])
    } else {
        c
    }
}

impl GameState {
    /// Leaves at a recycling centre at `pos` as much garbage as it has room for.
    fn drop_off_at(&mut self, pos: Coord)
        requires
            old(self).wf_core(),
        ensures
            final(self).wf_core(),
            final(self).garbage_total() == old(self).garbage_total(),
            final(self).garbage_held == old(self).garbage_held - deposit(
                old(self).current().tile(pos.x as int, pos.y as int),
                old(self).garbage_held as int,
            ),
            final(self).level_active == old(self).level_active,
            final(self).levels@ == old(self).levels@.update(
                old(self).level_active as int,
                final(self).current(),
            ),
            final(self).current().grid_tiles == old(self).current().grid_tiles,
            final(self).current().name == old(self).current().name,
            final(self).current().default_train_start == old(self).current().default_train_start,
            forall|x: int, y: int| #[trigger]
                final(self).current().tile(x, y) == if x == pos.x && y == pos.y {
                    after_deposit(
                        old(self).current().tile(x, y),
                        deposit(old(self).current().tile(x, y), old(self).garbage_held as int),
                    )
                } else {
                    old(self).current().tile(x, y)
                },
            *final(self) == (GameState {
                levels: final(self).levels,
                garbage_held: final(self).garbage_held,
                ..*old(self)
            }),
    {
        let held = self.garbage_held;
        if held <= 0 {
            return;
        }
        let idx = self.level_active;
        assert(self.levels@[idx as int].wf());
        let fill: i32 = match self.levels[idx].get(pos) {
            Some(TileType::GarbageDropoffEmpty) => 0,
            Some(TileType::GarbageDropoffFull1) => 1,
            Some(TileType::GarbageDropoffFull2) => 2,
            _ => {
                return;
            },
        };
        let room: i32 = 3 - fill;
        let amount: i32 = if held < room { held } else { room };
        let new_state = match fill + amount {
            1 => TileType::GarbageDropoffFull1,
            2 => TileType::GarbageDropoffFull2,
            _ => TileType::GarbageDropoffFull3,
        };
        self.exchange(pos, new_state);
    }

    /// While the train runs and carries garbage, leaves it at the recycling
    /// centres next to it, above, below, left and right in that order, each
    /// taking as much as it has room for; then recounts the centres.
    pub fn check_garbage_dropoff(&mut self)
        requires
            old(self).wf(),
        ensures
            final(self).wf(),
            final(self).garbage_total() == old(self).garbage_total(),
            old(self).train_state != TrainState::Running || old(self).garbage_held <= 0
                ==> *final(self) == *old(self),
            old(self).train_state == TrainState::Running && old(self).garbage_held > 0 ==> {
                let p = old(self).train_tile_pos;
                let a = deposits(old(self).current(), p, old(self).garbage_held as int);
                &&& *final(self) == (GameState {
                    levels: final(self).levels,
                    garbage_held: final(self).garbage_held,
                    total_dropoffs_count: final(self).total_dropoffs_count,
                    dropoffs_full_count: final(self).dropoffs_full_count,
                    game_won: final(self).game_won,
                    ..*old(self)
                })
                &&& final(self).levels@ == old(self).levels@.update(
                    old(self).level_active as int,
                    final(self).current(),
                )
                &&& final(self).current().grid_tiles == old(self).current().grid_tiles
                &&& final(self).current().name == old(self).current().name
                &&& final(self).current().default_train_start == old(self).current().default_train_start
                &&& forall|x: int, y: int| #[trigger]
                    final(self).current().tile(x, y) == after_dropoff(
                        old(self).current().tile(x, y),
                        p,
                        a,
                        x,
                        y,
                    )
                &&& final(self).garbage_held == old(self).garbage_held - (a[0] + a[1] + a[2] + a[3])
            },
    {
        if self.train_state != TrainState::Running {
            return;
        }
        if self.garbage_held <= 0 {
            return;
        }
        let p = self.train_tile_pos;
        let ghost s0 = *self;
        self.drop_off_at(p.step(TrainDirection::Up));
        let ghost s1 = *self;
        self.drop_off_at(p.step(TrainDirection::Down));
        let ghost s2 = *self;
        self.drop_off_at(p.step(TrainDirection::Left));
        let ghost s3 = *self;
        self.drop_off_at(p.step(TrainDirection::Right));
        let ghost s4 = *self;
        proof {
            let a = deposits(s0.current(), p, s0.garbage_held as int);
            assert(s1.current().tile(p.x as int, p.y + 1) == s0.current().tile(p.x as int, p.y + 1));
            assert(s2.current().tile(p.x - 1, p.y as int) == s0.current().tile(p.x - 1, p.y as int));
            assert(s3.current().tile(p.x + 1, p.y as int) == s0.current().tile(p.x + 1, p.y as int));
            assert forall|x: int, y: int| #[trigger]
                s4.current().tile(x, y) == after_dropoff(s0.current().tile(x, y), p, a, x, y) by {
            }
            assert(s4.levels@ =~= s0.levels@.update(s0.level_active as int, s4.current()));
        }
        self.update_dropoff_counts();
    }
}

/// A cell after a room reset: an emptied pickup is full again, and a
/// recycling centre is empty again.
pub open spec fn restored(c: Option<TileType>) -> Option<TileType> {
    match c {
        Some(TileType::GarbagePickupEmpty) => Some(TileType::GarbagePickupFull),
        Some(TileType::GarbageDropoffFull1) => Some(TileType::GarbageDropoffEmpty),
        Some(TileType::GarbageDropoffFull2) => Some(TileType::GarbageDropoffEmpty),
        Some(TileType::GarbageDropoffFull3) => Some(TileType::GarbageDropoffEmpty),
        _ => c,
    }
}

impl GameState {
    /// Restores the garbage site at `pos`, settling the difference with the train.
    fn restore_at(&mut self, pos: Coord)
        requires
            old(self).wf_core(),
        ensures
            final(self).wf_core(),
            final(self).garbage_total() == old(self).garbage_total(),
            final(self).level_active == old(self).level_active,
            final(self).levels@ == old(self).levels@.update(
                old(self).level_active as int,
                final(self).current(),
            ),
            final(self).current().grid_tiles == old(self).current().grid_tiles,
            final(self).current().name == old(self).current().name,
            final(self).current().default_train_start == old(self).current().default_train_start,
            forall|x: int, y: int| #[trigger]
                final(self).current().tile(x, y) == if x == pos.x && y == pos.y {
                    restored(old(self).current().tile(x, y))
                } else {
                    old(self).current().tile(x, y)
                },
            *final(self) == (GameState {
                levels: final(self).levels,
                garbage_held: final(self).garbage_held,
                ..*old(self)
            }),
    {
        let idx = self.level_active;
        assert(self.levels@[idx as int].wf());
        match self.levels[idx].get(pos) {
            Some(TileType::GarbagePickupEmpty) => self.exchange(pos, TileType::GarbagePickupFull),
            Some(TileType::GarbageDropoffFull1) | Some(TileType::GarbageDropoffFull2) | Some(
                TileType::GarbageDropoffFull3,
            ) => self.exchange(pos, TileType::GarbageDropoffEmpty),
            _ => {},
        }
    }

    /// Resets the room the train is in: every emptied pickup of its playing
    /// field is full again and every recycling centre empty again. The
    /// garbage so put back is taken from the train, and the garbage taken out
    /// of the centres is handed back to it, so that no garbage is made or lost.
    pub fn reset_level(&mut self)
        requires
            old(self).wf(),
        ensures
            final(self).wf(),
            final(self).garbage_total() == old(self).garbage_total(),
            final(self).is_room_reset(*old(self)),
    {
        self.reset_level_cells();
    }

    /// `self` is `o` after a reset of the room the train is in: the same
    /// garbage in all, and every emptied pickup and every recycling centre of
    /// the room's playing field restored.
    pub open spec fn is_room_reset(&self, o: GameState) -> bool {
        &&& self.garbage_total() == o.garbage_total()
        &&& *self == (GameState {
            levels: self.levels,
            garbage_held: self.garbage_held,
            total_dropoffs_count: self.total_dropoffs_count,
            dropoffs_full_count: self.dropoffs_full_count,
            game_won: self.game_won,
            ..o
        })
        &&& self.levels@ == o.levels@.update(o.level_active as int, self.current())
        &&& self.current().grid_tiles == o.current().grid_tiles
        &&& self.current().name == o.current().name
        &&& self.current().default_train_start == o.current().default_train_start
        &&& forall|x: int, y: int| #[trigger]
            self.current().tile(x, y) == if o.current().inside(x, y) {
                restored(o.current().tile(x, y))
            } else {
                o.current().tile(x, y)
            }
    }

    fn reset_level_cells(&mut self)
        requires
            old(self).wf(),
        ensures
            final(self).wf(),
            final(self).garbage_total() == old(self).garbage_total(),
            *final(self) == (GameState {
                levels: final(self).levels,
                garbage_held: final(self).garbage_held,
                total_dropoffs_count: final(self).total_dropoffs_count,
                dropoffs_full_count: final(self).dropoffs_full_count,
                game_won: final(self).game_won,
                ..*old(self)
            }),
            final(self).levels@ == old(self).levels@.update(
                old(self).level_active as int,
                final(self).current(),
            ),
            final(self).current().grid_tiles == old(self).current().grid_tiles,
            final(self).current().name == old(self).current().name,
            final(self).current().default_train_start == old(self).current().default_train_start,
            forall|x: int, y: int| #[trigger]
                final(self).current().tile(x, y) == if old(self).current().inside(x, y) {
                    restored(old(self).current().tile(x, y))
                } else {
                    old(self).current().tile(x, y)
                },
    {
        let idx = self.level_active;
        assert(self.levels@[idx as int].wf());
        let w = self.levels[idx].grid_tiles.x;
        let h = self.levels[idx].grid_tiles.y;
        let ghost s0 = *self;
        let mut y: i32 = 0;
        while y < h
            invariant
                s0.wf(),
                idx == s0.level_active,
                w == s0.current().grid_tiles.x,
                h == s0.current().grid_tiles.y,
                1 <= w,
                self.wf_core(),
                0 <= y <= h,
                self.garbage_total() == s0.garbage_total(),
                self.level_active == idx,
                self.levels@ == s0.levels@.update(idx as int, self.current()),
                self.current().grid_tiles == s0.current().grid_tiles,
                self.current().name == s0.current().name,
                self.current().default_train_start == s0.current().default_train_start,
                *self == (GameState {
                    levels: self.levels,
                    garbage_held: self.garbage_held,
                    ..s0
                }),
                forall|a: int, b: int| #[trigger]
                    self.current().tile(a, b) == if s0.current().inside(a, b) && b < y {
                        restored(s0.current().tile(a, b))
                    } else {
                        s0.current().tile(a, b)
                    },
            decreases h - y,
        {
            let mut x: i32 = 0;
            while x < w
                invariant
                    s0.wf(),
                    idx == s0.level_active,
                    w == s0.current().grid_tiles.x,
                    h == s0.current().grid_tiles.y,
                    self.wf_core(),
                    0 <= y < h,
                    0 <= x <= w,
                    self.garbage_total() == s0.garbage_total(),
                    self.level_active == idx,
                    self.levels@ == s0.levels@.update(idx as int, self.current()),
                    self.current().grid_tiles == s0.current().grid_tiles,
                    self.current().name == s0.current().name,
                    self.current().default_train_start == s0.current().default_train_start,
                    *self == (GameState {
                        levels: self.levels,
                        garbage_held: self.garbage_held,
                        ..s0
                    }),
                    forall|a: int, b: int| #[trigger]
                        self.current().tile(a, b) == if s0.current().inside(a, b) && (b < y || (b
                            == y && a < x)) {
                            restored(s0.current().tile(a, b))
                        } else {
                            s0.current().tile(a, b)
                        },
                decreases w - x,
            {
                self.restore_at(Coord { x, y });
                proof {
                    assert(self.levels@ =~= s0.levels@.update(idx as int, self.current()));
                }
                x = x + 1;
            }
            y = y + 1;
        }
        self.update_dropoff_counts();
    }
}

/// The game is won exactly when the world has a recycling centre and every
/// one of them is full; so it is not won while no centre is full, as at the
/// start, when all of them are empty.
pub proof fn lemma_win_condition(s: GameState)
    requires
        s.wf(),
    ensures
        s.game_won <==> (s.dropoff_total() > 0 && s.dropoff_full() == s.dropoff_total()),
        s.dropoff_full() == 0 ==> !s.game_won,
{
}

/// Resetting a room a second time changes nothing: every tile of every
/// room, the cells of the room reset, the garbage carried and all else stay
/// as the first reset left them.
pub proof fn lemma_reset_idempotent(a: GameState, b: GameState, c: GameState)
    requires
        a.wf(),
        b.wf(),
        c.wf(),
        b.is_room_reset(a),
        c.is_room_reset(b),
    ensures
        c.levels@.len() == b.levels@.len(),
        forall|i: int, x: int, y: int|
            0 <= i < c.levels@.len() ==> #[trigger] c.levels@[i].tile(x, y) == b.levels@[i].tile(x, y),
        c.current().cells@ == b.current().cells@,
        c == (GameState { levels: c.levels, ..b }),
{
    let idx = b.level_active as int;
    assert(b.levels@[idx].wf());
    assert(c.levels@[idx].wf());
    assert forall|x: int, y: int| #[trigger] c.current().tile(x, y) == b.current().tile(x, y) by {
        if b.current().inside(x, y) {
            assert(a.current().inside(x, y));
        }
    }
    c.current().lemma_same_tiles_same_cells(b.current());
    assert forall|w: Weight| #[trigger] levels_weight(c.levels@, w) == levels_weight(b.levels@, w) by {
        crate::level::lemma_levels_weight_update(b.levels@, idx, c.current(), w);
        assert(b.levels@.update(idx, b.current()) =~= b.levels@);
    }
    assert(c.world_garbage() == b.world_garbage());
    assert(c.dropoff_total() == b.dropoff_total());
    assert(c.dropoff_full() == b.dropoff_full());
}

/// The units of garbage a tile holds.
pub fn garbage_amount(t: TileType) -> (r: i32)
    ensures
        r == garbage_units(t),
{
    match t {
        TileType::GarbagePickupFull => 1,
        TileType::GarbageDropoffFull1 => 1,
        TileType::GarbageDropoffFull2 => 2,
        TileType::GarbageDropoffFull3 => 3,
        _ => 0,
    }
}

/// Full recycling centres are never more than all of them.
pub proof fn lemma_full_le_total(cells: Seq<Option<TileType>>)
    ensures
        crate::level::cells_weight(cells, full_weight()) <= crate::level::cells_weight(
            cells,
            dropoff_weight(),
        ),
    decreases cells.len(),
{
    if cells.len() > 0 {
        lemma_full_le_total(cells.drop_last());
    }
}

} // verus!
