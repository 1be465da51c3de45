use vstd::prelude::*;
use crate::game_state::{lemma_world_cell_change, GameState};
use crate::level::{cell_weight, dropoff_weight, full_weight, garbage_weight, levels_weight, Weight};
use crate::tile::{is_track, Coord, TileType};

verus! {

/// Whether a piece of `shape` may go to `pos` in the room the train is in:
/// one is in stock, the cell exists, and it is empty or holds a track piece.
pub open spec fn can_place(s: GameState, pos: Coord, shape: TileType) -> bool {
    &&& s.track_count(shape) > 0
    &&& s.current().addressable(pos.x as int, pos.y as int)
    &&& match s.current().tile(pos.x as int, pos.y as int) {
        Some(t) => is_track(t),
        None => true,
    }
}

/// The track piece that removal at `pos` takes up, if the cell holds one.
pub open spec fn removable(s: GameState, pos: Coord) -> Option<TileType> {
    match s.current().tile(pos.x as int, pos.y as int) {
        Some(t) => if is_track(t) { Some(t) } else { None },
        None => None,
    }
}

/// One if `c` holds `t`, else zero.
pub open spec fn holds(c: Option<TileType>, t: TileType) -> int {
    if c == Some(t) { 1 } else { 0 }
}

impl GameState {
    /// Lays a piece of `shape` at `pos` in the room the train is in. A track
    /// piece already there goes back into stock; a permanent tile, an empty
    /// stock or a cell off the grid make this a no-op.
    pub fn place_track(&mut self, pos: Coord, shape: TileType) -> (placed: bool)
        requires
            old(self).wf(),
        ensures
            final(self).wf(),
            placed == can_place(*old(self), pos, shape),
            !placed ==> *final(self) == *old(self),
            placed ==> final(self).board_set(*old(self), pos, Some(shape)),
            placed ==> final(self).same_but_board(*old(self)),
            placed ==> final(self).selected_tile == old(self).selected_tile,
            placed ==> forall|t: TileType| is_track(t) ==> #[trigger] final(self).track_count(t)
                == old(self).track_count(t) - holds(Some(shape), t) + holds(
                old(self).current().tile(pos.x as int, pos.y as int),
                t,
            ),
            forall|t: TileType| is_track(t) ==> #[trigger] final(self).track_count(t)
                + final(self).board_count(t) == old(self).track_count(t) + old(self).board_count(t),
            old(self).current().tile(pos.x as int, pos.y as int) matches Some(t) && !is_track(t)
                ==> *final(self) == *old(self),
            final(self).garbage_total() == old(self).garbage_total(),
    {
        let count = self.get_track_count(shape);
        if count <= 0 {
            return false;
        }
        let idx = self.level_active;
        assert(self.levels@[idx as int].wf());
        if !self.levels[idx].is_addressable(pos) {
            return false;
        }
        let existing = self.levels[idx].get(pos);
        if let Some(t) = existing {
            if t.is_permanent() {
                return false;
            }
        }
        self.lay_piece(pos, shape, existing);
        true
    }

    /// Lays a piece of `shape` at `pos`, where the cell holds `existing`,
    /// refunding a piece already there.
    #[verifier::rlimit(100)]
    fn lay_piece(&mut self, pos: Coord, shape: TileType, existing: Option<TileType>)
        requires
            old(self).wf(),
            can_place(*old(self), pos, shape),
            existing == old(self).current().tile(pos.x as int, pos.y as int),
        ensures
            final(self).wf(),
            final(self).board_set(*old(self), pos, Some(shape)),
            final(self).same_but_board(*old(self)),
            final(self).selected_tile == old(self).selected_tile,
            forall|t: TileType| is_track(t) ==> #[trigger] final(self).track_count(t)
                == old(self).track_count(t) - holds(Some(shape), t) + holds(existing, t),
            forall|t: TileType| is_track(t) ==> #[trigger] final(self).track_count(t)
                + final(self).board_count(t) == old(self).track_count(t) + old(self).board_count(t),
            final(self).garbage_total() == old(self).garbage_total(),
    {
        let ghost pre = *self;
        proof {
            pre.lemma_wf_bounds();
        }
        if let Some(old_tile) = existing {
            self.increment_track_count(old_tile);
        }
        let ghost mid = *self;
        self.set_current_cell(pos, Some(shape));
        let ghost mid2 = *self;
        self.decrement_track_count(shape);
        proof {
            assert forall|t: TileType| is_track(t) implies #[trigger] self.track_count(t)
                + self.board_count(t) == pre.track_count(t) + pre.board_count(t)
                && self.track_count(t) >= 0 by {
                assert(mid.track_count(t) == pre.track_count(t) + holds(existing, t));
                assert(mid2.track_count(t) == mid.track_count(t));
                assert(self.board_count(t) == mid2.board_count(t));
                assert(mid.board_count(t) == pre.board_count(t));
                assert(mid2.board_count(t) == pre.board_count(t) - holds(existing, t) + holds(Some(shape), t));
            }
            assert forall|t: TileType| is_track(t) implies #[trigger] self.track_count(t)
                == pre.track_count(t) - holds(Some(shape), t) + holds(existing, t) by {
                assert(mid.track_count(t) == pre.track_count(t) + holds(existing, t));
                assert(mid2.track_count(t) == mid.track_count(t));
            }
            assert(levels_weight(self.levels@, garbage_weight()) == levels_weight(pre.levels@, garbage_weight()));
            lemma_track_swap_wf(pre, *self, pos, Some(shape));
        }
    }

    /// Takes up the track piece at `pos` in the room the train is in and
    /// puts it back into stock; an empty cell or a permanent tile make this a
    /// no-op. Returns the shape taken up.
    pub fn remove_track(&mut self, pos: Coord) -> (removed: Option<TileType>)
        requires
            old(self).wf(),
        ensures
            final(self).wf(),
            removed == removable(*old(self), pos),
            removed is None ==> *final(self) == *old(self),
            removed is Some ==> final(self).board_set(*old(self), pos, None),
            removed is Some ==> final(self).same_but_board(*old(self)),
            removed is Some ==> final(self).selected_tile == old(self).selected_tile,
            forall|t: TileType| is_track(t) ==> #[trigger] final(self).track_count(t)
                == old(self).track_count(t) + holds(removed, t),
            forall|t: TileType| is_track(t) ==> #[trigger] final(self).track_count(t)
                + final(self).board_count(t) == old(self).track_count(t) + old(self).board_count(t),
            final(self).garbage_total() == old(self).garbage_total(),
    {
        let idx = self.level_active;
        assert(self.levels@[idx as int].wf());
        let existing = self.levels[idx].get(pos);
        let t = match existing {
            Some(t) => t,
            None => {
                return None;
            },
        };
        if t.is_permanent() {
            return None;
        }
        let ghost pre = *self;
        proof {
            pre.lemma_wf_bounds();
            assert(pre.inventory_ok(t));
            assert(pre.current().addressable(pos.x as int, pos.y as int));
        }
        self.set_current_cell(pos, None);
        let ghost mid = *self;
        proof {
            // The piece was on the board, so the board count was at least one.
            assert(mid.board_count(t) == pre.board_count(t) - 1);
            mid.lemma_board_nonneg(t);
        }
        self.increment_track_count(t);
        proof {
            assert forall|u: TileType| is_track(u) implies #[trigger] self.track_count(u)
                + self.board_count(u) == pre.track_count(u) + pre.board_count(u)
                && self.track_count(u) >= 0 by {
                assert(mid.track_count(u) == pre.track_count(u));
                assert(self.board_count(u) == mid.board_count(u));
                assert(mid.board_count(u) == pre.board_count(u) - holds(Some(t), u));
            }
            assert forall|u: TileType| is_track(u) implies #[trigger] self.track_count(u)
                == pre.track_count(u) + holds(Some(t), u) by {
                assert(mid.track_count(u) == pre.track_count(u));
            }
            assert(levels_weight(self.levels@, garbage_weight()) == levels_weight(pre.levels@, garbage_weight()));
            lemma_track_swap_wf(pre, *self, pos, None);
        }
        Some(t)
    }

    /// Lays the selected piece at the highlighted cell; the selection is
    /// dropped when the last piece of its shape has gone.
    pub fn update_tile_placement(&mut self, highlighted: Option<Coord>)
        requires
            old(self).wf(),
        ensures
            final(self).wf(),
            old(self).selected_tile is None || highlighted is None ==> *final(self) == *old(self),
            old(self).selected_tile is Some && highlighted is Some ==> {
                let shape = old(self).selected_tile->Some_0;
                let pos = highlighted->Some_0;
                let placed = can_place(*old(self), pos, shape);
                &&& !placed ==> *final(self) == *old(self)
                &&& placed ==> final(self).board_set(*old(self), pos, Some(shape))
                &&& placed ==> final(self).same_but_board(*old(self))
                &&& placed ==> final(self).selected_tile == if final(self).track_count(shape) <= 0 {
                    None
                } else {
                    Some(shape)
                }
                &&& placed ==> forall|t: TileType| is_track(t) ==> #[trigger] final(self).track_count(t)
                    == old(self).track_count(t) - holds(Some(shape), t) + holds(
                    old(self).current().tile(pos.x as int, pos.y as int),
                    t,
                )
            },
            forall|t: TileType| is_track(t) ==> #[trigger] final(self).track_count(t)
                + final(self).board_count(t) == old(self).track_count(t) + old(self).board_count(t),
            final(self).garbage_total() == old(self).garbage_total(),
    {
        let shape = match self.selected_tile {
            Some(s) => s,
            None => {
                return;
            },
        };
        let pos = match highlighted {
            Some(p) => p,
            None => {
                return;
            },
        };
        if self.place_track(pos, shape) {
            if self.get_track_count(shape) <= 0 {
                self.selected_tile = None;
            }
        }
    }

    /// Takes up the piece at the highlighted cell and selects its shape.
    pub fn update_tile_removal(&mut self, highlighted: Option<Coord>)
        requires
            old(self).wf(),
        ensures
            final(self).wf(),
            highlighted is None ==> *final(self) == *old(self),
            highlighted matches Some(pos) ==> {
                let removed = removable(*old(self), pos);
                &&& removed is None ==> *final(self) == *old(self)
                &&& removed is Some ==> final(self).board_set(*old(self), pos, None)
                &&& removed is Some ==> final(self).same_but_board(*old(self))
                &&& removed is Some ==> final(self).selected_tile == removed
                &&& forall|t: TileType| is_track(t) ==> #[trigger] final(self).track_count(t)
                    == old(self).track_count(t) + holds(removed, t)
            },
            forall|t: TileType| is_track(t) ==> #[trigger] final(self).track_count(t)
                + final(self).board_count(t) == old(self).track_count(t) + old(self).board_count(t),
            final(self).garbage_total() == old(self).garbage_total(),
    {
        let pos = match highlighted {
            Some(p) => p,
            None => {
                return;
            },
        };
        if let Some(t) = self.remove_track(pos) {
            self.selected_tile = Some(t);
        }
    }

    /// Selects a track shape from the cards, or drops the selection if it is
    /// the selected one; a shape out of stock cannot be selected.
    pub fn toggle_selected_tile(&mut self, tile_type: TileType)
        ensures
            *final(self) == if old(self).track_count(tile_type) <= 0 {
                *old(self)
            } else if old(self).selected_tile == Some(tile_type) {
                GameState { selected_tile: None, ..*old(self) }
            } else {
                GameState { selected_tile: Some(tile_type), ..*old(self) }
            },
    {
        if self.get_track_count(tile_type) <= 0 {
            return;
        }
        if self.selected_tile == Some(tile_type) {
            self.selected_tile = None;
        } else {
            self.selected_tile = Some(tile_type);
        }
    }

    /// Puts `c` into the cell at `pos` of the room the train is in.
    pub(crate) fn set_current_cell(&mut self, pos: Coord, c: Option<TileType>)
        requires
            old(self).level_active < old(self).levels@.len(),
            forall|i: int| 0 <= i < old(self).levels@.len() ==> #[trigger] old(self).levels@[i].wf(),
            old(self).current().addressable(pos.x as int, pos.y as int),
        ensures
            *final(self) == (GameState { levels: final(self).levels, ..*old(self) }),
            final(self).board_set(*old(self), pos, c),
            forall|i: int| 0 <= i < final(self).levels@.len() ==> #[trigger] final(self).levels@[i].wf(),
            forall|w: Weight| #[trigger] levels_weight(final(self).levels@, w) == levels_weight(
                old(self).levels@,
                w,
            ) - cell_weight(old(self).current().tile(pos.x as int, pos.y as int), w) + cell_weight(c, w),
    {
        let idx = self.level_active;
        let ghost pre = *self;
        assert(self.levels@[idx as int].wf());
        match c {
            Some(t) => self.levels[idx].set(pos, t),
            None => self.levels[idx].remove(pos),
        }
        proof {
            lemma_world_cell_change(pre.levels@, idx as int, self.current(), pos, c);
            assert(self.levels@ == pre.levels@.update(idx as int, self.current()));
            assert forall|i: int| 0 <= i < self.levels@.len() implies #[trigger] self.levels@[i].wf() by {
                assert(pre.levels@[i].wf());
            }
        }
    }
}

/// Changing one cell of the room the train is in between track pieces and
/// emptiness, with the stock adjusted so that stock and board together stay
/// the same for every shape, keeps the world well formed.
proof fn lemma_track_swap_wf(pre: GameState, post: GameState, pos: Coord, c: Option<TileType>)
    requires
        pre.wf(),
        post.level_active == pre.level_active,
        post.levels@.len() == pre.levels@.len(),
        forall|i: int| 0 <= i < post.levels@.len() ==> #[trigger] post.levels@[i].wf(),
        forall|w: Weight| #[trigger] levels_weight(post.levels@, w) == levels_weight(pre.levels@, w)
            - cell_weight(pre.current().tile(pos.x as int, pos.y as int), w) + cell_weight(c, w),
        pre.current().tile(pos.x as int, pos.y as int) matches Some(t) ==> is_track(t),
        c matches Some(t) ==> is_track(t),
        forall|t: TileType| is_track(t) ==> #[trigger] post.track_count(t) + post.board_count(t)
            == pre.track_count(t) + pre.board_count(t) && post.track_count(t) >= 0,
        post.same_but_board(pre),
    ensures
        post.wf(),
{
    let old_cell = pre.current().tile(pos.x as int, pos.y as int);
    assert(levels_weight(post.levels@, garbage_weight()) == levels_weight(pre.levels@, garbage_weight()));
    assert(levels_weight(post.levels@, dropoff_weight()) == levels_weight(pre.levels@, dropoff_weight()));
    assert(levels_weight(post.levels@, full_weight()) == levels_weight(pre.levels@, full_weight()));
    assert(post.track_count(TileType::TrackHorizontal) >= 0);
    assert(post.track_count(TileType::TrackVertical) >= 0);
    assert(post.track_count(TileType::TrackCornerUL) >= 0);
    assert(post.track_count(TileType::TrackCornerUR) >= 0);
    assert(post.track_count(TileType::TrackCornerDL) >= 0);
    assert(post.track_count(TileType::TrackCornerDR) >= 0);
}

} // verus!
