use vstd::prelude::*;
use crate::tile::{garbage_units, is_dropoff, Coord, TileType, TrainDirection};

verus! {

/// The largest width or height, in tiles, that a level may have.
pub const MAX_GRID: i32 = 256;

/// A per-cell measure over tile kinds, summed over layouts.
pub type Weight = spec_fn(TileType) -> int;

/// The measure of one cell: nothing for an empty cell.
pub open spec fn cell_weight(c: Option<TileType>, w: Weight) -> int {
    match c {
        Some(t) => w(t),
        None => 0,
    }
}

/// The sum of a measure over a sequence of cells.
pub open spec fn cells_weight(cells: Seq<Option<TileType>>, w: Weight) -> int
    decreases cells.len(),
{
    if cells.len() == 0 {
        0
    } else {
        cells_weight(cells.drop_last(), w) + cell_weight(cells.last(), w)
    }
}

/// Changing one cell changes the sum by the difference of the two cells.
pub proof fn lemma_cells_weight_update(cells: Seq<Option<TileType>>, i: int, v: Option<TileType>, w: Weight)
    requires
        0 <= i < cells.len(),
    ensures
        cells_weight(cells.update(i, v), w) == cells_weight(cells, w) - cell_weight(cells[i], w)
            + cell_weight(v, w),
    decreases cells.len(),
{
    let u = cells.update(i, v);
    if i == cells.len() - 1 {
        assert(u.drop_last() =~= cells.drop_last());
    } else {
        lemma_cells_weight_update(cells.drop_last(), i, v, w);
        assert(u.drop_last() =~= cells.drop_last().update(i, v));
    }
}

/// A sum of a measure bounded per cell is bounded by the cell count.
pub proof fn lemma_cells_weight_bounds(cells: Seq<Option<TileType>>, w: Weight, k: int)
    requires
        0 <= k,
        forall|t: TileType| 0 <= #[trigger] w(t) <= k,
    ensures
        0 <= cells_weight(cells, w) <= k * cells.len(),
    decreases cells.len(),
{
    if cells.len() > 0 {
        lemma_cells_weight_bounds(cells.drop_last(), w, k);
        assert(k * (cells.len() - 1) + k == k * cells.len()) by (nonlinear_arith);
    }
}

/// One room of the world: its size, a dense grid of cells that covers the
/// playing field and the ring of border cells around it, and the cell where
/// the train enters by default.
pub struct Level {
    pub name: &'static str,
    pub grid_tiles: Coord,
    /// Row-major cells, rows `-1..=height`, columns `-1..=width`.
    pub cells: Vec<Option<TileType>>,
    pub default_train_start: Coord,
}

impl Level {
    pub open spec fn width(&self) -> int {
        self.grid_tiles.x as int
    }

    pub open spec fn height(&self) -> int {
        self.grid_tiles.y as int
    }

    /// Whether `(x, y)` lies in the playing field or in its border ring.
    pub open spec fn addressable(&self, x: int, y: int) -> bool {
        -1 <= x <= self.width() && -1 <= y <= self.height()
    }

    /// Whether `(x, y)` lies in the playing field proper.
    pub open spec fn inside(&self, x: int, y: int) -> bool {
        0 <= x < self.width() && 0 <= y < self.height()
    }

    pub open spec fn index_of(&self, x: int, y: int) -> int {
        (y + 1) * (self.width() + 2) + (x + 1)
    }

    pub open spec fn wf(&self) -> bool {
        &&& 1 <= self.width() <= MAX_GRID
        &&& 1 <= self.height() <= MAX_GRID
        &&& self.cells@.len() == (self.width() + 2) * (self.height() + 2)
        &&& self.addressable(
            self.default_train_start.x as int,
            self.default_train_start.y as int,
        )
    }

    /// The tile at `(x, y)`; `None` for an empty cell or an address off the grid.
    pub open spec fn tile(&self, x: int, y: int) -> Option<TileType> {
        if self.addressable(x, y) && 0 <= self.index_of(x, y) < self.cells@.len() {
            self.cells@[self.index_of(x, y)]
        } else {
            None
        }
    }

    /// The sum of a measure over the level's cells.
    pub open spec fn weight(&self, w: Weight) -> int {
        cells_weight(self.cells@, w)
    }

    pub proof fn lemma_index(&self, x: int, y: int)
        requires
            self.wf(),
            self.addressable(x, y),
        ensures
            0 <= self.index_of(x, y) < self.cells@.len(),
    {
        let ww = self.width() + 2;
        let hh = self.height() + 2;
        let a = x + 1;
        let b = y + 1;
        assert(0 <= b * ww + a < hh * ww) by (nonlinear_arith)
            requires
                0 <= a < ww,
                0 <= b < hh,
        ;
        assert(hh * ww == ww * hh) by (nonlinear_arith);
    }

    pub proof fn lemma_index_injective(&self, x1: int, y1: int, x2: int, y2: int)
        requires
            self.wf(),
            self.addressable(x1, y1),
            self.addressable(x2, y2),
            self.index_of(x1, y1) == self.index_of(x2, y2),
        ensures
            x1 == x2 && y1 == y2,
    {
        let ww = self.width() + 2;
        vstd::arithmetic::div_mod::lemma_fundamental_div_mod_converse(
            self.index_of(x1, y1), ww, y1 + 1, x1 + 1);
        vstd::arithmetic::div_mod::lemma_fundamental_div_mod_converse(
            self.index_of(x2, y2), ww, y2 + 1, x2 + 1);
    }

    /// Two well-formed levels of one size with the same tiles have the same cells.
    pub proof fn lemma_same_tiles_same_cells(&self, o: Level)
        requires
            self.wf(),
            o.wf(),
            self.grid_tiles == o.grid_tiles,
            forall|x: int, y: int| #[trigger] self.tile(x, y) == o.tile(x, y),
        ensures
            self.cells@ == o.cells@,
    {
        let ww = self.width() + 2;
        let hh = self.height() + 2;
        assert forall|j: int| 0 <= j < self.cells@.len() implies self.cells@[j] == o.cells@[j] by {
            vstd::arithmetic::div_mod::lemma_fundamental_div_mod(j, ww);
            let q = j / ww;
            let r = j % ww;
            assert(0 <= r < ww) by {
                vstd::arithmetic::div_mod::lemma_mod_bound(j, ww);
            }
            assert(0 <= q < hh) by (nonlinear_arith)
                requires
                    j == ww * q + r,
                    0 <= r < ww,
                    0 <= j < ww * hh,
                    ww > 0,
            ;
            assert(self.cells@.len() == ww * hh) by (nonlinear_arith)
                requires
                    self.cells@.len() == (self.width() + 2) * (self.height() + 2),
                    ww == self.width() + 2,
                    hh == self.height() + 2,
            ;
            assert(ww * q == q * ww) by (nonlinear_arith);
            assert(self.index_of(r - 1, q - 1) == j);
            assert(self.tile(r - 1, q - 1) == o.tile(r - 1, q - 1));
        }
        assert(self.cells@ =~= o.cells@);
    }

    /// An empty level of the given size.
    pub fn new(name: &'static str, grid_tiles: Coord, default_train_start: Coord) -> (r: Level)
        requires
            1 <= grid_tiles.x <= MAX_GRID,
            1 <= grid_tiles.y <= MAX_GRID,
            -1 <= default_train_start.x <= grid_tiles.x,
            -1 <= default_train_start.y <= grid_tiles.y,
        ensures
            r.wf(),
            r.name == name,
            r.grid_tiles == grid_tiles,
            r.default_train_start == default_train_start,
            forall|x: int, y: int| r.tile(x, y) == None::<TileType>,
            forall|j: int| 0 <= j < r.cells@.len() ==> r.cells@[j] == None::<TileType>,
    {
        let ww: usize = (grid_tiles.x + 2) as usize;
        let hh: usize = (grid_tiles.y + 2) as usize;
        assert(ww * hh <= 258 * 258) by (nonlinear_arith)
            requires
                ww <= 258,
                hh <= 258,
        ;
        let n: usize = ww * hh;
        let mut cells: Vec<Option<TileType>> = Vec::with_capacity(n);
        let mut i: usize = 0;
        while i < n
            invariant
                i <= n,
                cells@.len() == i,
                forall|j: int| 0 <= j < i ==> cells@[j] == None::<TileType>,
            decreases n - i,
        {
            cells.push(None);
            i = i + 1;
        }
        Level { name, grid_tiles, cells, default_train_start }
    }

    /// Whether `pos` lies in the playing field or in its border ring.
    pub fn is_addressable(&self, pos: Coord) -> (r: bool)
        ensures
            r == self.addressable(pos.x as int, pos.y as int),
    {
        -1 <= pos.x && pos.x <= self.grid_tiles.x && -1 <= pos.y && pos.y <= self.grid_tiles.y
    }

    /// Whether `pos` lies in the playing field proper.
    pub fn is_inside(&self, pos: Coord) -> (r: bool)
        ensures
            r == self.inside(pos.x as int, pos.y as int),
    {
        0 <= pos.x && pos.x < self.grid_tiles.x && 0 <= pos.y && pos.y < self.grid_tiles.y
    }

    fn cell_index(&self, pos: Coord) -> (i: usize)
        requires
            self.wf(),
            self.addressable(pos.x as int, pos.y as int),
        ensures
            i == self.index_of(pos.x as int, pos.y as int),
            i < self.cells@.len(),
    {
        proof {
            self.lemma_index(pos.x as int, pos.y as int);
        }
        let row: usize = (pos.y + 1) as usize;
        let stride: usize = (self.grid_tiles.x + 2) as usize;
        let col: usize = (pos.x + 1) as usize;
        assert(row as int == pos.y + 1 && stride as int == self.width() + 2
            && col as int == pos.x + 1);
        assert(row as int * stride as int + col as int == self.index_of(pos.x as int, pos.y as int));
        assert(self.cells@.len() <= usize::MAX) by {
            assert(self.cells.len() == self.cells@.len());
        }
        assert(row as int * stride as int + col as int <= usize::MAX);
        assert(row as int * stride as int <= usize::MAX);
        let base: usize = row * stride;
        base + col
    }

    /// The tile at `pos`, if any.
    pub fn get(&self, pos: Coord) -> (r: Option<TileType>)
        requires
            self.wf(),
        ensures
            r == self.tile(pos.x as int, pos.y as int),
    {
        if !self.is_addressable(pos) {
            return None;
        }
        let i = self.cell_index(pos);
        self.cells[i]
    }

    /// Puts `c` into the cell at `pos`; an address off the grid is left alone.
    fn put(&mut self, pos: Coord, c: Option<TileType>)
        requires
            old(self).wf(),
        ensures
            final(self).wf(),
            final(self).name == old(self).name,
            final(self).grid_tiles == old(self).grid_tiles,
            final(self).default_train_start == old(self).default_train_start,
            !old(self).addressable(pos.x as int, pos.y as int) ==> *final(self) == *old(self),
            old(self).addressable(pos.x as int, pos.y as int) ==> final(self).replaced(
                *old(self),
                pos,
                c,
            ),
    {
        if !self.is_addressable(pos) {
            return;
        }
        let i = self.cell_index(pos);
        let ghost pre = *self;
        self.cells[i] = c;
        proof {
            assert forall|x: int, y: int|
                #![trigger self.tile(x, y)]
                self.tile(x, y) == (if x == pos.x && y == pos.y {
                    c
                } else {
                    pre.tile(x, y)
                }) by {
                if self.addressable(x, y) {
                    self.lemma_index(x, y);
                    if self.index_of(x, y) == i {
                        self.lemma_index_injective(x, y, pos.x as int, pos.y as int);
                    }
                }
            }
            assert forall|w: Weight| #[trigger]
                self.weight(w) == pre.weight(w) - cell_weight(pre.tile(pos.x as int, pos.y as int), w)
                    + cell_weight(c, w) by {
                lemma_cells_weight_update(pre.cells@, i as int, c, w);
            }
        }
    }

    /// `self` is `old` with the cell at `pos` holding `c`: the tile there,
    /// every other tile, and every measure over the cells.
    pub open spec fn replaced(&self, old: Level, pos: Coord, c: Option<TileType>) -> bool {
        &&& forall|x: int, y: int| #[trigger]
            self.tile(x, y) == (if x == pos.x && y == pos.y {
                c
            } else {
                old.tile(x, y)
            })
        &&& forall|w: Weight| #[trigger]
            self.weight(w) == old.weight(w) - cell_weight(old.tile(pos.x as int, pos.y as int), w)
                + cell_weight(c, w)
    }

    /// Places `kind` at `pos`, overwriting what was there; an address off the
    /// grid is left alone.
    pub fn set(&mut self, pos: Coord, kind: TileType)
        requires
            old(self).wf(),
        ensures
            final(self).wf(),
            final(self).name == old(self).name,
            final(self).grid_tiles == old(self).grid_tiles,
            final(self).default_train_start == old(self).default_train_start,
            !old(self).addressable(pos.x as int, pos.y as int) ==> *final(self) == *old(self),
            old(self).addressable(pos.x as int, pos.y as int) ==> final(self).replaced(
                *old(self),
                pos,
                Some(kind),
            ),
    {
        self.put(pos, Some(kind));
    }

    /// Empties the cell at `pos`.
    pub fn remove(&mut self, pos: Coord)
        requires
            old(self).wf(),
        ensures
            final(self).wf(),
            final(self).name == old(self).name,
            final(self).grid_tiles == old(self).grid_tiles,
            final(self).default_train_start == old(self).default_train_start,
            !old(self).addressable(pos.x as int, pos.y as int) ==> *final(self) == *old(self),
            old(self).addressable(pos.x as int, pos.y as int) ==> final(self).replaced(
                *old(self),
                pos,
                None,
            ),
    {
        self.put(pos, None);
    }
}

/// The sum of a measure over every level of a world.
pub open spec fn levels_weight(levels: Seq<Level>, w: Weight) -> int
    decreases levels.len(),
{
    if levels.len() == 0 {
        0
    } else {
        levels_weight(levels.drop_last(), w) + levels.last().weight(w)
    }
}

/// Replacing one level changes the world's sum by the difference of the two levels.
pub proof fn lemma_levels_weight_update(levels: Seq<Level>, i: int, l: Level, w: Weight)
    requires
        0 <= i < levels.len(),
    ensures
        levels_weight(levels.update(i, l), w) == levels_weight(levels, w) - levels[i].weight(w)
            + l.weight(w),
    decreases levels.len(),
{
    let u = levels.update(i, l);
    if i == levels.len() - 1 {
        assert(u.drop_last() =~= levels.drop_last());
    } else {
        lemma_levels_weight_update(levels.drop_last(), i, l, w);
        assert(u.drop_last() =~= levels.drop_last().update(i, l));
    }
}

/// The number of cells of a well-formed level, at most.
pub open spec fn max_cells() -> int {
    (MAX_GRID + 2) * (MAX_GRID + 2)
}

/// A measure bounded per cell is bounded over a world of well-formed levels.
pub proof fn lemma_levels_weight_bounds(levels: Seq<Level>, w: Weight, k: int)
    requires
        0 <= k,
        forall|t: TileType| 0 <= #[trigger] w(t) <= k,
        forall|i: int| 0 <= i < levels.len() ==> #[trigger] levels[i].wf(),
    ensures
        0 <= levels_weight(levels, w) <= k * max_cells() * levels.len(),
    decreases levels.len(),
{
    if levels.len() > 0 {
        let l = levels.last();
        assert(levels[levels.len() - 1].wf());
        lemma_levels_weight_bounds(levels.drop_last(), w, k);
        lemma_cells_weight_bounds(l.cells@, w, k);
        let ww = l.width() + 2;
        let hh = l.height() + 2;
        let m = max_cells();
        assert(ww * hh <= m) by (nonlinear_arith)
            requires
                0 <= ww <= MAX_GRID + 2,
                0 <= hh <= MAX_GRID + 2,
                m == (MAX_GRID + 2) * (MAX_GRID + 2),
        ;
        assert(k * l.cells@.len() <= k * max_cells()) by (nonlinear_arith)
            requires
                0 <= k,
                l.cells@.len() <= max_cells(),
        ;
        assert(k * max_cells() * (levels.len() - 1) + k * max_cells() == k * max_cells()
            * levels.len()) by (nonlinear_arith);
    }
}

/// Adding the next cell to a prefix adds that cell's measure.
pub proof fn lemma_cells_weight_prefix(cells: Seq<Option<TileType>>, i: int, w: Weight)
    requires
        0 <= i < cells.len(),
    ensures
        cells_weight(cells.take(i + 1), w) == cells_weight(cells.take(i), w) + cell_weight(cells[i], w),
{
    assert(cells.take(i + 1).drop_last() =~= cells.take(i));
}

/// Adding the next level to a prefix adds that level's measure.
pub proof fn lemma_levels_weight_prefix(levels: Seq<Level>, i: int, w: Weight)
    requires
        0 <= i < levels.len(),
    ensures
        levels_weight(levels.take(i + 1), w) == levels_weight(levels.take(i), w) + levels[i].weight(w),
{
    assert(levels.take(i + 1).drop_last() =~= levels.take(i));
}

/// Counts one recycling centre for each cell that holds one.
pub open spec fn dropoff_weight() -> Weight {
    |t: TileType| if is_dropoff(t) { 1int } else { 0int }
}

/// Counts one for each recycling centre filled to capacity.
pub open spec fn full_weight() -> Weight {
    |t: TileType| if t == TileType::GarbageDropoffFull3 { 1int } else { 0int }
}

/// Counts the units of garbage that lie on the ground or in recycling centres.
pub open spec fn garbage_weight() -> Weight {
    |t: TileType| garbage_units(t)
}

/// Counts the pieces of one track shape.
pub open spec fn shape_weight(s: TileType) -> Weight {
    |t: TileType| if t == s { 1int } else { 0int }
}

impl Level {
    /// The number of recycling centres in the level, and how many of them are full.
    pub fn count_dropoffs(&self) -> (r: (i32, i32))
        requires
            self.wf(),
        ensures
            r.0 == self.weight(dropoff_weight()),
            r.1 == self.weight(full_weight()),
    {
        let mut total: i32 = 0;
        let mut full: i32 = 0;
        let mut i: usize = 0;
        proof {
            assert(self.cells@.len() <= max_cells()) by (nonlinear_arith)
                requires
                    self.cells@.len() == (self.width() + 2) * (self.height() + 2),
                    1 <= self.width() <= MAX_GRID,
                    1 <= self.height() <= MAX_GRID,
            ;
            assert(self.cells@.take(0) =~= Seq::<Option<TileType>>::empty());
        }
        while i < self.cells.len()
            invariant
                i <= self.cells@.len(),
                self.cells@.len() <= max_cells(),
                0 <= full <= total <= i,
                total == cells_weight(self.cells@.take(i as int), dropoff_weight()),
                full == cells_weight(self.cells@.take(i as int), full_weight()),
            decreases self.cells@.len() - i,
        {
            proof {
                lemma_cells_weight_prefix(self.cells@, i as int, dropoff_weight());
                lemma_cells_weight_prefix(self.cells@, i as int, full_weight());
            }
            match self.cells[i] {
                Some(TileType::GarbageDropoffFull3) => {
                    total = total + 1;
                    full = full + 1;
                },
                Some(TileType::GarbageDropoffEmpty) | Some(TileType::GarbageDropoffFull1) | Some(
                    TileType::GarbageDropoffFull2,
                ) => {
                    total = total + 1;
                },
                _ => {},
            }
            i = i + 1;
        }
        assert(self.cells@.take(i as int) =~= self.cells@);
        (total, full)
    }

    /// The direction in which a train placed at the level's default entry
    /// faces: away from the border ring it stands on.
    pub open spec fn entry_direction_spec(&self) -> TrainDirection {
        let s = self.default_train_start;
        if s.x == -1 {
            TrainDirection::Right
        } else if s.x == self.grid_tiles.x {
            TrainDirection::Left
        } else if s.y == -1 {
            TrainDirection::Down
        } else if s.y == self.grid_tiles.y {
            TrainDirection::Up
        } else {
            TrainDirection::Right
        }
    }

    pub fn entry_direction(&self) -> (r: TrainDirection)
        ensures
            r == self.entry_direction_spec(),
    {
        let s = self.default_train_start;
        if s.x == -1 {
            TrainDirection::Right
        } else if s.x == self.grid_tiles.x {
            TrainDirection::Left
        } else if s.y == -1 {
            TrainDirection::Down
        } else if s.y == self.grid_tiles.y {
            TrainDirection::Up
        } else {
            TrainDirection::Right
        }
    }
}

/// A tile after the tunnels open: a closed tunnel is open, all else stays.
pub open spec fn open_kind(t: TileType) -> TileType {
    match t {
        TileType::TunnelUpClosed => TileType::TunnelUpOpen,
        TileType::TunnelDownClosed => TileType::TunnelDownOpen,
        TileType::TunnelLeftClosed => TileType::TunnelLeftOpen,
        TileType::TunnelRightClosed => TileType::TunnelRightOpen,
        _ => t,
    }
}

pub open spec fn opened(c: Option<TileType>) -> Option<TileType> {
    match c {
        Some(t) => Some(open_kind(t)),
        None => None,
    }
}

/// A measure that does not tell a closed tunnel from an open one.
pub open spec fn tunnel_blind(w: Weight) -> bool {
    forall|t: TileType| #[trigger] w(open_kind(t)) == w(t)
}

/// Sums of a tunnel-blind measure do not change when the tunnels open.
pub proof fn lemma_cells_weight_opened(a: Seq<Option<TileType>>, b: Seq<Option<TileType>>, w: Weight)
    requires
        tunnel_blind(w),
        a.len() == b.len(),
        forall|i: int| 0 <= i < a.len() ==> b[i] == opened(#[trigger] a[i]),
    ensures
        cells_weight(b, w) == cells_weight(a, w),
    decreases a.len(),
{
    if a.len() > 0 {
        let n = a.len() - 1;
        assert(b[n] == opened(a[n]));
        if let Some(t) = a[n] {
            assert(w(open_kind(t)) == w(t));
        }
        lemma_cells_weight_opened(a.drop_last(), b.drop_last(), w);
    }
}

impl Level {
    /// Opens every closed tunnel of the level.
    pub fn open_tunnels(&mut self)
        requires
            old(self).wf(),
        ensures
            final(self).wf(),
            final(self).name == old(self).name,
            final(self).grid_tiles == old(self).grid_tiles,
            final(self).default_train_start == old(self).default_train_start,
            forall|x: int, y: int| #[trigger] final(self).tile(x, y) == opened(old(self).tile(x, y)),
            forall|w: Weight| tunnel_blind(w) ==> #[trigger] final(self).weight(w) == old(self).weight(w),
    {
        let ghost pre = *self;
        let mut i: usize = 0;
        while i < self.cells.len()
            invariant
                self.name == pre.name,
                self.grid_tiles == pre.grid_tiles,
                self.default_train_start == pre.default_train_start,
                self.cells@.len() == pre.cells@.len(),
                i <= self.cells@.len(),
                forall|j: int| 0 <= j < i ==> self.cells@[j] == opened(#[trigger] pre.cells@[j]),
                forall|j: int| i <= j < self.cells@.len() ==> self.cells@[j] == pre.cells@[j],
            decreases self.cells@.len() - i,
        {
            let c = match self.cells[i] {
                Some(TileType::TunnelUpClosed) => Some(TileType::TunnelUpOpen),
                Some(TileType::TunnelDownClosed) => Some(TileType::TunnelDownOpen),
                Some(TileType::TunnelLeftClosed) => Some(TileType::TunnelLeftOpen),
                Some(TileType::TunnelRightClosed) => Some(TileType::TunnelRightOpen),
                other => other,
            };
            self.cells[i] = c;
            i = i + 1;
        }
        proof {
            assert forall|w: Weight| tunnel_blind(w) implies #[trigger] self.weight(w) == pre.weight(w) by {
                lemma_cells_weight_opened(pre.cells@, self.cells@, w);
            }
        }
    }
}

} // verus!
