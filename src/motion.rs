use vstd::prelude::*;
use crate::game_state::{
    GameState, Message, Offset, GRID_COLUMNS, HALT_UNITS, LEVEL_COUNT, TILE_UNITS, TRAIN_SPEED,
};
use crate::levels::{authored_tile, lemma_first_room_entry_approach_is_empty, ROOM_HEIGHT, ROOM_WIDTH};
use crate::level::{dropoff_weight, full_weight, Level, MAX_GRID};
use crate::tile::{
    connection, dir_dx, dir_dy, is_open_tunnel, is_track, next_direction, tunnel_leads, Coord,
    TileType, TrainDirection, TrainState,
};

verus! {

/// How far the train moves in a frame of `dt_us` microseconds, in sub-tile units.
pub open spec fn frame_advance(dt_us: int) -> int {
    dt_us * TRAIN_SPEED
}

/// The offset after moving `delta` units in direction `d`.
pub open spec fn advanced(o: Offset, d: TrainDirection, delta: int) -> Offset {
    match d {
        TrainDirection::Up => Offset { y: (o.y - delta) as i64, ..o },
        TrainDirection::Down => Offset { y: (o.y + delta) as i64, ..o },
        TrainDirection::Left => Offset { x: (o.x - delta) as i64, ..o },
        TrainDirection::Right => Offset { x: (o.x + delta) as i64, ..o },
    }
}

/// Whether moving `delta` units in direction `d` reaches the next tile.
pub open spec fn crosses(o: Offset, d: TrainDirection, delta: int) -> bool {
    match d {
        TrainDirection::Up => o.y - delta <= -TILE_UNITS,
        TrainDirection::Down => o.y + delta >= TILE_UNITS,
        TrainDirection::Left => o.x - delta <= -TILE_UNITS,
        TrainDirection::Right => o.x + delta >= TILE_UNITS,
    }
}

/// The offset measured from the next tile's centre, one tile further back;
/// never behind that tile's far edge, so that it stays within one tile.
pub open spec fn wrapped(o: Offset, d: TrainDirection) -> Offset {
    match d {
        TrainDirection::Up => Offset { y: min(o.y + TILE_UNITS, TILE_UNITS as int) as i64, ..o },
        TrainDirection::Down => Offset { y: max(o.y - TILE_UNITS, -TILE_UNITS) as i64, ..o },
        TrainDirection::Left => Offset { x: min(o.x + TILE_UNITS, TILE_UNITS as int) as i64, ..o },
        TrainDirection::Right => Offset { x: max(o.x - TILE_UNITS, -TILE_UNITS) as i64, ..o },
    }
}

pub open spec fn min(a: int, b: int) -> int {
    if a < b { a } else { b }
}

pub open spec fn max(a: int, b: int) -> int {
    if a > b { a } else { b }
}

/// The exec form of `wrapped`.
fn wrap_offset(o: Offset, d: TrainDirection) -> (r: Offset)
    requires
        -TILE_UNITS <= o.x <= TILE_UNITS,
        -TILE_UNITS <= o.y <= TILE_UNITS,
    ensures
        r == wrapped(o, d),
{
    match d {
        TrainDirection::Up => {
            let y = o.y + TILE_UNITS;
            Offset { x: o.x, y: if y < TILE_UNITS { y } else { TILE_UNITS } }
        },
        TrainDirection::Down => {
            let y = o.y - TILE_UNITS;
            Offset { x: o.x, y: if y > -TILE_UNITS { y } else { -TILE_UNITS } }
        },
        TrainDirection::Left => {
            let x = o.x + TILE_UNITS;
            Offset { x: if x < TILE_UNITS { x } else { TILE_UNITS }, y: o.y }
        },
        TrainDirection::Right => {
            let x = o.x - TILE_UNITS;
            Offset { x: if x > -TILE_UNITS { x } else { -TILE_UNITS }, y: o.y }
        },
    }
}

/// The offset of a train held just short of the next tile.
pub open spec fn halted(o: Offset, d: TrainDirection) -> Offset {
    match d {
        TrainDirection::Up => Offset { y: (-HALT_UNITS) as i64, ..o },
        TrainDirection::Down => Offset { y: HALT_UNITS, ..o },
        TrainDirection::Left => Offset { x: (-HALT_UNITS) as i64, ..o },
        TrainDirection::Right => Offset { x: HALT_UNITS, ..o },
    }
}

/// The cell one step from `p` in direction `d`.
pub open spec fn step(p: Coord, d: TrainDirection) -> Coord {
    Coord { x: (p.x + dir_dx(d)) as i32, y: (p.y + dir_dy(d)) as i32 }
}

/// The room next to room `i` of the three-by-three grid in direction `d`, if any.
pub open spec fn neighbor_level(i: int, d: TrainDirection) -> Option<int> {
    let col = i % GRID_COLUMNS as int;
    let row = i / GRID_COLUMNS as int;
    match d {
        TrainDirection::Right => if col < 2 { Some(i + 1) } else { None },
        TrainDirection::Left => if col > 0 { Some(i - 1) } else { None },
        TrainDirection::Down => if row < 2 { Some(i + 3) } else { None },
        TrainDirection::Up => if row > 0 { Some(i - 3) } else { None },
    }
}

/// Where a train that leaves through `p` in direction `d` arrives in a room
/// of size `size`: the mirror cell in the border ring on the far side.
pub open spec fn arrival(p: Coord, d: TrainDirection, size: Coord) -> Coord {
    match d {
        TrainDirection::Right => Coord { x: -1i32, y: p.y },
        TrainDirection::Left => Coord { x: size.x, y: p.y },
        TrainDirection::Down => Coord { x: p.x, y: -1i32 },
        TrainDirection::Up => Coord { x: p.x, y: size.y },
    }
}

/// A room may not be left while it has recycling centres and none of them is full.
pub open spec fn requirements_unmet(l: Level) -> bool {
    l.weight(full_weight()) == 0 && l.weight(dropoff_weight()) > 0
}

/// Whether a train that leaves `p` in direction `d` finds a way on: a track
/// piece inside the room that takes the train from that side, or an open
/// tunnel in the border ring.
pub open spec fn continues(l: Level, p: Coord, d: TrainDirection) -> bool {
    let n = step(p, d);
    match l.tile(n.x as int, n.y as int) {
        Some(t) => if l.inside(n.x as int, n.y as int) {
            connection(d, t) is Some
        } else {
            is_open_tunnel(t)
        },
        None => false,
    }
}

/// `s` with the train held short of the next tile, in run state `st`.
pub open spec fn blocked(s: GameState, st: TrainState) -> GameState {
    GameState {
        train_pos_offset: halted(s.train_pos_offset, s.train_direction),
        train_state: st,
        ..s
    }
}

/// The train reaches the border ring at `next`: it enters an arrival
/// tunnel and stops, or leaves through a departure tunnel into the next room,
/// or is held back.
pub open spec fn crossed_border(s: GameState) -> GameState {
    let d = s.train_direction;
    let l = s.current();
    let next = step(s.train_tile_pos, d);
    match l.tile(next.x as int, next.y as int) {
        Some(t) => if is_open_tunnel(t) && !tunnel_leads(d, t) {
            GameState {
                train_pos_offset: wrapped(s.train_pos_offset, d),
                train_tile_pos: next,
                train_state: TrainState::Stopped,
                ..s
            }
        } else if is_open_tunnel(t) && neighbor_level(s.level_active as int, d) is Some {
            if requirements_unmet(l) {
                GameState {
                    train_state: TrainState::Stopped,
                    message: Some(Message::FillRecyclingCenter),
                    ..s
                }
            } else {
                let n = neighbor_level(s.level_active as int, d)->Some_0;
                GameState {
                    level_active: n as usize,
                    train_tile_pos: arrival(s.train_tile_pos, d, s.levels@[n].grid_tiles),
                    train_pos_offset: Offset { x: 0, y: 0 },
                    ..s
                }
            }
        } else {
            blocked(s, TrainState::BrokenRoute)
        },
        None => blocked(s, TrainState::BrokenRoute),
    }
}

/// The train reaches the cell `next` of the playing field: it enters a track
/// piece that takes it from this side and leads on, and is held back otherwise.
pub open spec fn crossed_field(s: GameState) -> GameState {
    let d = s.train_direction;
    let l = s.current();
    let next = step(s.train_tile_pos, d);
    match l.tile(next.x as int, next.y as int) {
        None => blocked(s, TrainState::BrokenRoute),
        Some(t) => if !is_track(t) {
            blocked(s, TrainState::Obstacle)
        } else {
            match connection(d, t) {
                None => blocked(s, TrainState::BrokenRoute),
                Some(nd) => if continues(l, next, nd) {
                    GameState {
                        train_pos_offset: wrapped(s.train_pos_offset, d),
                        train_tile_pos: next,
                        train_direction: nd,
                        ..s
                    }
                } else {
                    blocked(s, TrainState::BrokenRoute)
                },
            }
        },
    }
}

/// One frame of train motion, `delta` sub-tile units long.
pub open spec fn moved(s: GameState, delta: int) -> GameState {
    let d = s.train_direction;
    let next = step(s.train_tile_pos, d);
    if s.train_state != TrainState::Running {
        s
    } else if !crosses(s.train_pos_offset, d, delta) {
        GameState { train_pos_offset: advanced(s.train_pos_offset, d, delta), ..s }
    } else if !s.current().inside(next.x as int, next.y as int) {
        crossed_border(s)
    } else {
        crossed_field(s)
    }
}

impl Coord {
    /// The cell one step away in direction `d`.
    pub fn step(&self, d: TrainDirection) -> (r: Coord)
        requires
            -2 * MAX_GRID <= self.x <= 2 * MAX_GRID,
            -2 * MAX_GRID <= self.y <= 2 * MAX_GRID,
        ensures
            r == step(*self, d),
    {
        match d {
            TrainDirection::Up => Coord { x: self.x, y: self.y - 1 },
            TrainDirection::Down => Coord { x: self.x, y: self.y + 1 },
            TrainDirection::Left => Coord { x: self.x - 1, y: self.y },
            TrainDirection::Right => Coord { x: self.x + 1, y: self.y },
        }
    }
}

/// The room next to room `i` in direction `d`, if the grid has one.
pub fn neighbor_level_index(i: usize, d: TrainDirection) -> (r: Option<usize>)
    requires
        i < LEVEL_COUNT,
    ensures
        r matches Some(n) ==> n < LEVEL_COUNT,
        r == match neighbor_level(i as int, d) {
            Some(n) => Some(n as usize),
            None => None,
        },
{
    let col = i % GRID_COLUMNS;
    let row = i / GRID_COLUMNS;
    match d {
        TrainDirection::Right => if col < 2 { Some(i + 1) } else { None },
        TrainDirection::Left => if col > 0 { Some(i - 1) } else { None },
        TrainDirection::Down => if row < 2 { Some(i + 3) } else { None },
        TrainDirection::Up => if row > 0 { Some(i - 3) } else { None },
    }
}

/// Whether a train leaving `pos` in direction `d` finds a way on.
pub fn has_valid_continuation(level: &Level, pos: Coord, d: TrainDirection) -> (r: bool)
    requires
        level.wf(),
        -2 * MAX_GRID <= pos.x <= 2 * MAX_GRID,
        -2 * MAX_GRID <= pos.y <= 2 * MAX_GRID,
    ensures
        r == continues(*level, pos, d),
{
    let n = pos.step(d);
    match level.get(n) {
        Some(t) => if level.is_inside(n) {
            next_direction(d, t).is_some()
        } else {
            t.is_open_tunnel()
        },
        None => false,
    }
}

/// Whether the room has recycling centres and none of them is full.
pub fn level_requirements_unmet(level: &Level) -> (r: bool)
    requires
        level.wf(),
    ensures
        r == requirements_unmet(*level),
{
    let (total, full) = level.count_dropoffs();
    full == 0 && total > 0
}

/// Whether `t` is an open tunnel oriented along the travel direction `d`.
pub fn tunnel_matches(d: TrainDirection, t: TileType) -> (r: bool)
    ensures
        r == tunnel_leads(d, t),
{
    match (d, t) {
        (TrainDirection::Up, TileType::TunnelUpOpen) => true,
        (TrainDirection::Down, TileType::TunnelDownOpen) => true,
        (TrainDirection::Left, TileType::TunnelLeftOpen) => true,
        (TrainDirection::Right, TileType::TunnelRightOpen) => true,
        _ => false,
    }
}

impl GameState {
    /// Holds the train short of the next tile, in run state `st`.
    fn halt(&mut self, st: TrainState)
        requires
            old(self).wf(),
        ensures
            final(self).wf(),
            *final(self) == blocked(*old(self), st),
    {
        let ghost pre = *self;
        match self.train_direction {
            TrainDirection::Up => self.train_pos_offset.y = -HALT_UNITS,
            TrainDirection::Down => self.train_pos_offset.y = HALT_UNITS,
            TrainDirection::Left => self.train_pos_offset.x = -HALT_UNITS,
            TrainDirection::Right => self.train_pos_offset.x = HALT_UNITS,
        }
        self.train_state = st;
        proof {
            self.lemma_wf_train_moved(pre);
        }
    }

    /// Advances a running train by one frame of `dt_us` microseconds: within
    /// the gap between two tile centres it only moves; on reaching the next
    /// tile it checks that tile, and the one after it, before it enters, and
    /// it may pass through a tunnel into the neighbouring room.
    pub fn update_train_movement(&mut self, dt_us: u32)
        requires
            old(self).wf(),
        ensures
            final(self).wf(),
            *final(self) == moved(*old(self), frame_advance(dt_us as int)),
    {
        if self.train_state != TrainState::Running {
            return;
        }
        let delta: i64 = (dt_us as i64) * TRAIN_SPEED;
        let d = self.train_direction;
        let o = self.train_pos_offset;
        let will_cross = match d {
            TrainDirection::Up => o.y - delta <= -TILE_UNITS,
            TrainDirection::Down => o.y + delta >= TILE_UNITS,
            TrainDirection::Left => o.x - delta <= -TILE_UNITS,
            TrainDirection::Right => o.x + delta >= TILE_UNITS,
        };
        assert(will_cross == crosses(o, d, delta as int));
        if !will_cross {
            self.advance(delta);
            return;
        }
        let idx = self.level_active;
        let next = self.train_tile_pos.step(d);
        assert(self.levels@[idx as int].wf());
        if self.levels[idx].is_inside(next) {
            self.cross_field();
        } else {
            self.cross_border();
        }
    }

    /// Moves the train `delta` units on towards the next tile, short of it.
    fn advance(&mut self, delta: i64)
        requires
            old(self).wf(),
            0 <= delta <= TRAIN_SPEED * u32::MAX as i64,
            !crosses(old(self).train_pos_offset, old(self).train_direction, delta as int),
        ensures
            final(self).wf(),
            *final(self) == (GameState {
                train_pos_offset: advanced(old(self).train_pos_offset, old(self).train_direction, delta as int),
                ..*old(self)
            }),
    {
        let ghost pre = *self;
        let o = self.train_pos_offset;
        self.train_pos_offset = match self.train_direction {
            TrainDirection::Up => Offset { x: o.x, y: o.y - delta },
            TrainDirection::Down => Offset { x: o.x, y: o.y + delta },
            TrainDirection::Left => Offset { x: o.x - delta, y: o.y },
            TrainDirection::Right => Offset { x: o.x + delta, y: o.y },
        };
        proof {
            self.lemma_wf_train_moved(pre);
        }
    }

    /// The crossing onto a cell of the border ring.
    fn cross_border(&mut self)
        requires
            old(self).wf(),
        ensures
            final(self).wf(),
            *final(self) == crossed_border(*old(self)),
    {
        let d = self.train_direction;
        let o = self.train_pos_offset;
        let idx = self.level_active;
        let pos = self.train_tile_pos;
        let next = pos.step(d);
        assert(self.levels@[idx as int].wf());
        let next_tile = self.levels[idx].get(next);
        if let Some(t) = next_tile {
            if t.is_open_tunnel() {
                if !tunnel_matches(d, t) {
                    // Arriving through a tunnel: enter it and stop.
                    let wrapped_offset = wrap_offset(o, d);
                    self.train_pos_offset = wrapped_offset;
                    self.train_tile_pos = next;
                    self.train_state = TrainState::Stopped;
                    return;
                }
                if let Some(n) = neighbor_level_index(idx, d) {
                    if level_requirements_unmet(&self.levels[idx]) {
                        self.train_state = TrainState::Stopped;
                        self.message = Some(Message::FillRecyclingCenter);
                        return;
                    }
                    assert(self.levels@[n as int].wf());
                    let size = self.levels[n].grid_tiles;
                    let arrival_pos = match d {
                        TrainDirection::Right => Coord { x: -1, y: pos.y },
                        TrainDirection::Left => Coord { x: size.x, y: pos.y },
                        TrainDirection::Down => Coord { x: pos.x, y: -1 },
                        TrainDirection::Up => Coord { x: pos.x, y: size.y },
                    };
                    self.level_active = n;
                    self.train_tile_pos = arrival_pos;
                    self.train_pos_offset = Offset { x: 0, y: 0 };
                    return;
                }
            }
        }
        self.halt(TrainState::BrokenRoute);
    }

    /// The crossing onto a cell of the playing field.
    fn cross_field(&mut self)
        requires
            old(self).wf(),
        ensures
            final(self).wf(),
            *final(self) == crossed_field(*old(self)),
    {
        let ghost pre = *self;
        let d = self.train_direction;
        let o = self.train_pos_offset;
        let idx = self.level_active;
        let next = self.train_tile_pos.step(d);
        assert(self.levels@[idx as int].wf());
        match self.levels[idx].get(next) {
            None => self.halt(TrainState::BrokenRoute),
            Some(t) => {
                if !t.is_track() {
                    self.halt(TrainState::Obstacle);
                } else {
                    match next_direction(d, t) {
                        None => self.halt(TrainState::BrokenRoute),
                        Some(nd) => {
                            if has_valid_continuation(&self.levels[idx], next, nd) {
                                let wrapped_offset = wrap_offset(o, d);
                                self.train_pos_offset = wrapped_offset;
                                self.train_tile_pos = next;
                                self.train_direction = nd;
                                proof {
                                    self.lemma_wf_train_moved(pre);
                                }
                            } else {
                                self.halt(TrainState::BrokenRoute);
                            }
                        },
                    }
                }
            },
        }
    }
}

/// The shift of the room index for a move in direction `d` across the
/// three-by-three room grid.
pub open spec fn level_shift(d: TrainDirection) -> int {
    match d {
        TrainDirection::Right => 1,
        TrainDirection::Left => -1,
        TrainDirection::Down => 3,
        TrainDirection::Up => -3,
    }
}

/// The cell the train is heading for.
pub open spec fn ahead(s: GameState) -> Coord {
    step(s.train_tile_pos, s.train_direction)
}

/// Whether the cell ahead lies in the playing field.
pub open spec fn ahead_inside(s: GameState) -> bool {
    s.current().inside(ahead(s).x as int, ahead(s).y as int)
}

/// The tile in the cell ahead.
pub open spec fn tile_ahead(s: GameState) -> Option<TileType> {
    s.current().tile(ahead(s).x as int, ahead(s).y as int)
}

/// The cell ahead holds a track piece that takes the train from its side,
/// but the cell after that piece offers no way on.
pub open spec fn dead_end_ahead(s: GameState) -> bool {
    match tile_ahead(s) {
        Some(t) => match connection(s.train_direction, t) {
            Some(nd) => !continues(s.current(), ahead(s), nd),
            None => false,
        },
        None => false,
    }
}

/// The cell ahead holds an open tunnel oriented along the travel direction.
pub open spec fn exit_ahead(s: GameState) -> bool {
    match tile_ahead(s) {
        Some(t) => tunnel_leads(s.train_direction, t),
        None => false,
    }
}

/// A running train never enters a track piece that leads nowhere: where the
/// piece ahead takes the train but the cell after it offers no track piece
/// and no open tunnel, the train stays on its tile, held short of the piece,
/// with a broken route.
pub proof fn lemma_dead_end_rejected(s: GameState, delta: int)
    requires
        s.wf(),
        s.train_state == TrainState::Running,
        crosses(s.train_pos_offset, s.train_direction, delta),
        ahead_inside(s),
        dead_end_ahead(s),
    ensures
        moved(s, delta).train_state == TrainState::BrokenRoute,
        moved(s, delta).train_tile_pos == s.train_tile_pos,
        moved(s, delta).train_direction == s.train_direction,
        moved(s, delta).train_pos_offset == halted(s.train_pos_offset, s.train_direction),
        moved(s, delta).level_active == s.level_active,
{
}

/// Leaving through an open tunnel oriented along the travel direction, from
/// a room that has a neighbour on that side and whose requirements are met,
/// moves the train into the neighbouring room (one to the right or left,
/// three down or up), onto the mirror cell of the border ring on the far
/// side, with the same direction, still running, at the tile's centre.
pub proof fn lemma_tunnel_exit_mirrors(s: GameState, delta: int)
    requires
        s.wf(),
        s.train_state == TrainState::Running,
        crosses(s.train_pos_offset, s.train_direction, delta),
        !ahead_inside(s),
        exit_ahead(s),
        neighbor_level(s.level_active as int, s.train_direction) is Some,
        !requirements_unmet(s.current()),
    ensures
        moved(s, delta).level_active == s.level_active + level_shift(s.train_direction),
        moved(s, delta).train_tile_pos == arrival(
            s.train_tile_pos,
            s.train_direction,
            moved(s, delta).current().grid_tiles,
        ),
        moved(s, delta).train_direction == s.train_direction,
        moved(s, delta).train_state == TrainState::Running,
        moved(s, delta).train_pos_offset == (Offset { x: 0, y: 0 }),
{
}

/// The first run of the game: started at the first room's default entry with
/// no track laid, the train stays on its tile by the first tile boundary it
/// reaches, held nine tenths of the way there, with a broken route.
pub proof fn lemma_first_run_breaks_at_entry(s: GameState, dt_us: int)
    requires
        s.wf(),
        s.level_active == 0,
        s.current().grid_tiles == (Coord { x: ROOM_WIDTH, y: ROOM_HEIGHT }),
        forall|x: int, y: int| #[trigger] s.current().tile(x, y) == authored_tile(0, x, y),
        s.train_tile_pos == (Coord { x: 10, y: 2 }),
        s.train_direction == TrainDirection::Left,
        s.train_pos_offset == (Offset { x: 0, y: 0 }),
        s.train_state == TrainState::Running,
        frame_advance(dt_us) >= TILE_UNITS,
    ensures
        moved(s, frame_advance(dt_us)).train_state == TrainState::BrokenRoute,
        moved(s, frame_advance(dt_us)).train_tile_pos == s.train_tile_pos,
        moved(s, frame_advance(dt_us)).train_pos_offset == (Offset { x: (-HALT_UNITS) as i64, y: 0 }),
        moved(s, frame_advance(dt_us)).level_active == 0,
{
    lemma_first_room_entry_approach_is_empty();
    assert(s.current().tile(9, 2) == None::<TileType>);
}

} // verus!
