use vstd::prelude::*;
use crate::game_state::GameState;
use crate::level::{cell_weight, full_weight, lemma_cells_weight_bounds, Level};
use crate::tile::{Coord, TileType, TrainDirection};

verus! {

/// The width of every room, in tiles.
pub const ROOM_WIDTH: i32 = 10;

/// The height of every room, in tiles.
pub const ROOM_HEIGHT: i32 = 7;

/// What stands at one of the two tunnel places of a border side.
#[derive(Clone, Copy, PartialEq, Eq, Structural)]
pub enum TunnelSlot {
    Wall,
    Open,
    Closed,
}

/// How a room is framed: its name, its default entry, and the two tunnel
/// places of each side of its border ring, a third and two thirds of the way along.
pub struct RoomPlan {
    pub name: &'static str,
    pub start: Coord,
    pub up: (TunnelSlot, TunnelSlot),
    pub down: (TunnelSlot, TunnelSlot),
    pub left: (TunnelSlot, TunnelSlot),
    pub right: (TunnelSlot, TunnelSlot),
}

/// The border tile of the side that faces `side`, at a place in state `slot`.
pub open spec fn ring_kind(side: TrainDirection, slot: TunnelSlot) -> TileType {
    match (side, slot) {
        (TrainDirection::Up, TunnelSlot::Wall) => TileType::MountainBorderDown,
        (TrainDirection::Up, TunnelSlot::Open) => TileType::TunnelUpOpen,
        (TrainDirection::Up, TunnelSlot::Closed) => TileType::TunnelUpClosed,
        (TrainDirection::Down, TunnelSlot::Wall) => TileType::MountainBorderUp,
        (TrainDirection::Down, TunnelSlot::Open) => TileType::TunnelDownOpen,
        (TrainDirection::Down, TunnelSlot::Closed) => TileType::TunnelDownClosed,
        (TrainDirection::Left, TunnelSlot::Wall) => TileType::MountainBorderLeft,
        (TrainDirection::Left, TunnelSlot::Open) => TileType::TunnelLeftOpen,
        (TrainDirection::Left, TunnelSlot::Closed) => TileType::TunnelLeftClosed,
        (TrainDirection::Right, TunnelSlot::Wall) => TileType::MountainBorderRight,
        (TrainDirection::Right, TunnelSlot::Open) => TileType::TunnelRightOpen,
        (TrainDirection::Right, TunnelSlot::Closed) => TileType::TunnelRightClosed,
    }
}

/// The state of place `i` along a side of length `len`.
pub open spec fn slot_at(len: int, i: int, slots: (TunnelSlot, TunnelSlot)) -> TunnelSlot {
    if i == len / 3 {
        slots.0
    } else if i == 2 * len / 3 {
        slots.1
    } else {
        TunnelSlot::Wall
    }
}

/// The tile of the border ring of a room framed by `p` at `(x, y)`; `None`
/// off the ring.
pub open spec fn border_tile(p: RoomPlan, x: int, y: int) -> Option<TileType> {
    let w = ROOM_WIDTH as int;
    let h = ROOM_HEIGHT as int;
    if x == -1 && y == -1 {
        Some(TileType::MountainBorderCornerDL)
    } else if x == w && y == -1 {
        Some(TileType::MountainBorderCornerDR)
    } else if x == -1 && y == h {
        Some(TileType::MountainBorderCornerUL)
    } else if x == w && y == h {
        Some(TileType::MountainBorderCornerUR)
    } else if y == -1 && 0 <= x < w {
        Some(ring_kind(TrainDirection::Up, slot_at(w, x, p.up)))
    } else if y == h && 0 <= x < w {
        Some(ring_kind(TrainDirection::Down, slot_at(w, x, p.down)))
    } else if x == -1 && 0 <= y < h {
        Some(ring_kind(TrainDirection::Left, slot_at(h, y, p.left)))
    } else if x == w && 0 <= y < h {
        Some(ring_kind(TrainDirection::Right, slot_at(h, y, p.right)))
    } else {
        None
    }
}

/// The last of `items` placed at `(x, y)`, if any.
pub open spec fn item_at(items: Seq<(i32, i32, TileType)>, x: int, y: int) -> Option<TileType>
    decreases items.len(),
{
    if items.len() == 0 {
        None
    } else if items.last().0 == x && items.last().1 == y {
        Some(items.last().2)
    } else {
        item_at(items.drop_last(), x, y)
    }
}

/// Whether `(x, y)` lies in the playing field of a room.
pub open spec fn in_field(x: int, y: int) -> bool {
    0 <= x < ROOM_WIDTH && 0 <= y < ROOM_HEIGHT
}

/// The tile at `(x, y)` of a room framed by `p` and furnished with `items`.
pub open spec fn planned_tile(p: RoomPlan, items: Seq<(i32, i32, TileType)>, x: int, y: int) -> Option<TileType> {
    if in_field(x, y) {
        item_at(items, x, y)
    } else {
        border_tile(p, x, y)
    }
}

/// The tile at `(x, y)` of room `i` as the game is authored.
pub open spec fn authored_tile(i: int, x: int, y: int) -> Option<TileType> {
    planned_tile(room_plan(i), room_items(i), x, y)
}

/// The frame of each room, row by row from the top left.
pub open spec fn room_plan(i: int) -> RoomPlan {
    if i == 0 {
        RoomPlan {
            name: "1-1",
            start: Coord { x: 10i32, y: 2i32 },
            up: (TunnelSlot::Wall, TunnelSlot::Wall),
            down: (TunnelSlot::Open, TunnelSlot::Closed),
            left: (TunnelSlot::Wall, TunnelSlot::Wall),
            right: (TunnelSlot::Open, TunnelSlot::Closed),
        }
    } else if i == 1 {
        RoomPlan {
            name: "1-2",
            start: Coord { x: 10i32, y: 2i32 },
            up: (TunnelSlot::Wall, TunnelSlot::Wall),
            down: (TunnelSlot::Open, TunnelSlot::Open),
            left: (TunnelSlot::Open, TunnelSlot::Closed),
            right: (TunnelSlot::Open, TunnelSlot::Closed),
        }
    } else if i == 2 {
        RoomPlan {
            name: "1-3",
            start: Coord { x: 3i32, y: 7i32 },
            up: (TunnelSlot::Wall, TunnelSlot::Wall),
            down: (TunnelSlot::Open, TunnelSlot::Closed),
            left: (TunnelSlot::Open, TunnelSlot::Closed),
            right: (TunnelSlot::Wall, TunnelSlot::Wall),
        }
    } else if i == 3 {
        RoomPlan {
            name: "2-1",
            start: Coord { x: 3i32, y: -1i32 },
            up: (TunnelSlot::Open, TunnelSlot::Closed),
            down: (TunnelSlot::Open, TunnelSlot::Closed),
            left: (TunnelSlot::Wall, TunnelSlot::Wall),
            right: (TunnelSlot::Wall, TunnelSlot::Closed),
        }
    } else if i == 4 {
        RoomPlan {
            name: "2-2",
            start: Coord { x: 3i32, y: -1i32 },
            up: (TunnelSlot::Open, TunnelSlot::Open),
            down: (TunnelSlot::Wall, TunnelSlot::Closed),
            left: (TunnelSlot::Wall, TunnelSlot::Closed),
            right: (TunnelSlot::Closed, TunnelSlot::Closed),
        }
    } else if i == 5 {
        RoomPlan {
            name: "2-3",
            start: Coord { x: 3i32, y: 7i32 },
            up: (TunnelSlot::Open, TunnelSlot::Closed),
            down: (TunnelSlot::Open, TunnelSlot::Closed),
            left: (TunnelSlot::Closed, TunnelSlot::Closed),
            right: (TunnelSlot::Wall, TunnelSlot::Wall),
        }
    } else if i == 6 {
        RoomPlan {
            name: "3-1",
            start: Coord { x: 3i32, y: -1i32 },
            up: (TunnelSlot::Open, TunnelSlot::Closed),
            down: (TunnelSlot::Wall, TunnelSlot::Wall),
            left: (TunnelSlot::Wall, TunnelSlot::Wall),
            right: (TunnelSlot::Open, TunnelSlot::Closed),
        }
    } else if i == 7 {
        RoomPlan {
            name: "3-2",
            start: Coord { x: -1i32, y: 2i32 },
            up: (TunnelSlot::Wall, TunnelSlot::Closed),
            down: (TunnelSlot::Wall, TunnelSlot::Wall),
            left: (TunnelSlot::Open, TunnelSlot::Closed),
            right: (TunnelSlot::Open, TunnelSlot::Closed),
        }
    } else {
        RoomPlan {
            name: "3-3",
            start: Coord { x: -1i32, y: 2i32 },
            up: (TunnelSlot::Open, TunnelSlot::Closed),
            down: (TunnelSlot::Wall, TunnelSlot::Wall),
            left: (TunnelSlot::Open, TunnelSlot::Closed),
            right: (TunnelSlot::Wall, TunnelSlot::Wall),
        }
    }
}

/// The obstacles and garbage sites of each room, in the order they are laid.
pub open spec fn room_items(i: int) -> Seq<(i32, i32, TileType)> {
    if i == 0 {
        seq![
            (5i32, 6i32, TileType::Rock1),
            (5i32, 5i32, TileType::Rock1),
            (6i32, 3i32, TileType::Rock1),
            (8i32, 3i32, TileType::House1),
            (5i32, 3i32, TileType::House2),
            (3i32, 4i32, TileType::House1),
            (9i32, 3i32, TileType::Rock1),
            (7i32, 3i32, TileType::GarbagePickupFull),
            (4i32, 3i32, TileType::GarbagePickupFull),
            (2i32, 4i32, TileType::GarbagePickupFull),
            (9i32, 6i32, TileType::GarbagePickupFull),
            (0i32, 0i32, TileType::GarbageDropoffEmpty),
        ]
    } else if i == 1 {
        seq![
            (0i32, 2i32, TileType::Rock1),
            (0i32, 1i32, TileType::Rock1),
            (0i32, 3i32, TileType::Rock1),
            (9i32, 6i32, TileType::GarbagePickupFull),
            (9i32, 5i32, TileType::GarbagePickupFull),
            (0i32, 6i32, TileType::GarbagePickupFull),
            (1i32, 0i32, TileType::GarbagePickupFull),
            (2i32, 0i32, TileType::GarbagePickupFull),
            (3i32, 0i32, TileType::GarbagePickupFull),
            (4i32, 0i32, TileType::GarbagePickupFull),
            (5i32, 0i32, TileType::GarbagePickupFull),
            (6i32, 0i32, TileType::GarbagePickupFull),
            (7i32, 0i32, TileType::GarbagePickupFull),
            (8i32, 0i32, TileType::GarbagePickupFull),
            (9i32, 0i32, TileType::GarbagePickupFull),
            (3i32, 4i32, TileType::GarbagePickupFull),
            (4i32, 4i32, TileType::GarbagePickupFull),
            (5i32, 4i32, TileType::GarbagePickupFull),
            (6i32, 4i32, TileType::GarbagePickupFull),
        ]
    } else if i == 2 {
        seq![
            (9i32, 6i32, TileType::House1),
            (9i32, 5i32, TileType::House2),
            (9i32, 4i32, TileType::House1),
            (9i32, 3i32, TileType::House2),
            (4i32, 6i32, TileType::House1),
            (5i32, 6i32, TileType::House2),
            (4i32, 5i32, TileType::House1),
            (5i32, 5i32, TileType::House2),
            (4i32, 3i32, TileType::House1),
            (4i32, 2i32, TileType::House1),
            (1i32, 5i32, TileType::House2),
            (8i32, 6i32, TileType::House1),
            (8i32, 5i32, TileType::House2),
            (0i32, 0i32, TileType::Rock1),
            (0i32, 3i32, TileType::Rock1),
            (1i32, 3i32, TileType::Rock1),
            (2i32, 1i32, TileType::Rock1),
            (2i32, 2i32, TileType::Rock1),
            (3i32, 5i32, TileType::GarbagePickupFull),
            (9i32, 1i32, TileType::GarbagePickupFull),
            (9i32, 2i32, TileType::GarbagePickupFull),
            (9i32, 0i32, TileType::GarbagePickupFull),
            (5i32, 3i32, TileType::GarbagePickupFull),
            (5i32, 2i32, TileType::GarbagePickupFull),
            (1i32, 2i32, TileType::GarbagePickupFull),
            (6i32, 0i32, TileType::GarbageDropoffEmpty),
            (7i32, 3i32, TileType::GarbageDropoffEmpty),
            (2i32, 3i32, TileType::GarbageDropoffEmpty),
        ]
    } else if i == 3 {
        seq![
            (2i32, 2i32, TileType::House1),
            (5i32, 3i32, TileType::House2),
            (9i32, 1i32, TileType::House1),
            (6i32, 5i32, TileType::Rock1),
            (7i32, 4i32, TileType::Rock1),
            (8i32, 3i32, TileType::Rock1),
            (3i32, 1i32, TileType::Rock1),
            (1i32, 2i32, TileType::GarbagePickupFull),
            (6i32, 3i32, TileType::GarbagePickupFull),
            (8i32, 1i32, TileType::GarbagePickupFull),
            (1i32, 5i32, TileType::GarbageDropoffEmpty),
            (9i32, 6i32, TileType::GarbageDropoffEmpty),
        ]
    } else if i == 4 {
        seq![
            (4i32, 4i32, TileType::GarbagePickupFull),
            (5i32, 4i32, TileType::GarbagePickupFull),
            (4i32, 3i32, TileType::House1),
            (5i32, 3i32, TileType::House2),
            (3i32, 3i32, TileType::Rock1),
            (6i32, 3i32, TileType::Rock1),
            (0i32, 0i32, TileType::GarbageDropoffEmpty),
            (9i32, 0i32, TileType::GarbageDropoffEmpty),
            (0i32, 6i32, TileType::GarbageDropoffEmpty),
            (9i32, 6i32, TileType::GarbageDropoffEmpty),
        ]
    } else if i == 5 {
        seq![
            (1i32, 5i32, TileType::House1),
            (3i32, 5i32, TileType::House2),
            (5i32, 5i32, TileType::House1),
            (7i32, 5i32, TileType::House2),
            (9i32, 5i32, TileType::House1),
            (1i32, 3i32, TileType::House2),
            (2i32, 3i32, TileType::House1),
            (3i32, 3i32, TileType::House2),
            (4i32, 3i32, TileType::House1),
            (6i32, 3i32, TileType::House2),
            (8i32, 3i32, TileType::House1),
            (1i32, 1i32, TileType::House2),
            (3i32, 1i32, TileType::House1),
            (4i32, 1i32, TileType::House2),
            (6i32, 1i32, TileType::House1),
            (7i32, 1i32, TileType::House2),
            (9i32, 1i32, TileType::House1),
            (0i32, 5i32, TileType::GarbagePickupFull),
            (0i32, 1i32, TileType::GarbagePickupFull),
            (9i32, 2i32, TileType::GarbagePickupFull),
            (9i32, 6i32, TileType::GarbagePickupFull),
            (9i32, 0i32, TileType::GarbageDropoffEmpty),
        ]
    } else if i == 6 {
        seq![
            (2i32, 2i32, TileType::House1),
            (1i32, 6i32, TileType::House2),
            (6i32, 4i32, TileType::House1),
            (4i32, 0i32, TileType::Rock1),
            (4i32, 1i32, TileType::Rock1),
            (4i32, 4i32, TileType::Rock1),
            (4i32, 5i32, TileType::Rock1),
            (4i32, 6i32, TileType::Rock1),
            (3i32, 2i32, TileType::GarbagePickupFull),
            (0i32, 6i32, TileType::GarbagePickupFull),
            (5i32, 4i32, TileType::GarbagePickupFull),
            (2i32, 6i32, TileType::GarbageDropoffEmpty),
            (8i32, 3i32, TileType::GarbageDropoffEmpty),
        ]
    } else if i == 7 {
        seq![
            (1i32, 0i32, TileType::House1),
            (9i32, 1i32, TileType::House2),
            (4i32, 4i32, TileType::Rock1),
            (5i32, 4i32, TileType::Rock1),
            (6i32, 4i32, TileType::Rock1),
            (8i32, 2i32, TileType::Rock1),
            (0i32, 0i32, TileType::GarbagePickupFull),
            (2i32, 0i32, TileType::GarbagePickupFull),
            (9i32, 0i32, TileType::GarbagePickupFull),
            (5i32, 6i32, TileType::GarbageDropoffEmpty),
        ]
    } else {
        seq![
            (0i32, 6i32, TileType::House1),
            (1i32, 6i32, TileType::House2),
            (2i32, 6i32, TileType::House1),
            (8i32, 2i32, TileType::House2),
            (9i32, 4i32, TileType::Rock1),
            (5i32, 0i32, TileType::Rock1),
            (5i32, 1i32, TileType::Rock1),
            (0i32, 5i32, TileType::GarbagePickupFull),
            (1i32, 5i32, TileType::GarbagePickupFull),
            (3i32, 6i32, TileType::GarbagePickupFull),
            (7i32, 2i32, TileType::GarbagePickupFull),
            (8i32, 3i32, TileType::GarbagePickupFull),
            (9i32, 2i32, TileType::GarbagePickupFull),
            (5i32, 3i32, TileType::GarbageDropoffEmpty),
            (9i32, 6i32, TileType::GarbageDropoffEmpty),
        ]
    }
}

/// Each room's default entry is a cell of its border ring holding an open
/// tunnel that points out of the room: a train placed there faces into the room.
pub proof fn lemma_entries_are_open_tunnels()
    ensures
        forall|i: int|
            0 <= i < 9 ==> {
                let s = #[trigger] room_plan(i).start;
                authored_tile(i, s.x as int, s.y as int) == Some(
                    if s.x == ROOM_WIDTH {
                        TileType::TunnelRightOpen
                    } else if s.x == -1 {
                        TileType::TunnelLeftOpen
                    } else if s.y == -1 {
                        TileType::TunnelUpOpen
                    } else {
                        TileType::TunnelDownOpen
                    },
                ) && (s.x == -1 || s.x == ROOM_WIDTH || s.y == -1 || s.y == ROOM_HEIGHT)
            },
{
    assert forall|i: int| 0 <= i < 9 implies {
        let s = #[trigger] room_plan(i).start;
        authored_tile(i, s.x as int, s.y as int) == Some(
            if s.x == ROOM_WIDTH {
                TileType::TunnelRightOpen
            } else if s.x == -1 {
                TileType::TunnelLeftOpen
            } else if s.y == -1 {
                TileType::TunnelUpOpen
            } else {
                TileType::TunnelDownOpen
            },
        ) && (s.x == -1 || s.x == ROOM_WIDTH || s.y == -1 || s.y == ROOM_HEIGHT)
    } by {
        if i == 0 {} else if i == 1 {} else if i == 2 {} else if i == 3 {} else if i == 4 {}
        else if i == 5 {} else if i == 6 {} else if i == 7 {} else {}
    }
}

/// Tunnels come in mirrored pairs: a cell of a room's right side and the cell
/// of its right neighbour's left side in the same row are a right-pointing
/// and a left-pointing border tile of the same kind (wall, open or closed
/// tunnel); likewise downwards. The outer edges of the grid of rooms are walls.
pub proof fn lemma_tunnels_pair_up()
    ensures
        forall|i: int, y: int|
            0 <= i < 9 && i % 3 < 2 && 0 <= y < ROOM_HEIGHT ==> {
                let k = slot_at(ROOM_HEIGHT as int, y, room_plan(i).right);
                &&& #[trigger] authored_tile(i, ROOM_WIDTH as int, y) == Some(
                    ring_kind(TrainDirection::Right, k),
                )
                &&& authored_tile(i + 1, -1, y) == Some(ring_kind(TrainDirection::Left, k))
            },
        forall|i: int, x: int|
            0 <= i < 6 && 0 <= x < ROOM_WIDTH ==> {
                let k = slot_at(ROOM_WIDTH as int, x, room_plan(i).down);
                &&& #[trigger] authored_tile(i, x, ROOM_HEIGHT as int) == Some(
                    ring_kind(TrainDirection::Down, k),
                )
                &&& authored_tile(i + 3, x, -1) == Some(ring_kind(TrainDirection::Up, k))
            },
        forall|i: int, y: int|
            0 <= i < 9 && i % 3 == 2 && 0 <= y < ROOM_HEIGHT ==> #[trigger] authored_tile(
                i,
                ROOM_WIDTH as int,
                y,
            ) == Some(TileType::MountainBorderRight),
        forall|i: int, y: int|
            0 <= i < 9 && i % 3 == 0 && 0 <= y < ROOM_HEIGHT ==> #[trigger] authored_tile(i, -1, y)
                == Some(TileType::MountainBorderLeft),
        forall|i: int, x: int|
            0 <= i < 3 && 0 <= x < ROOM_WIDTH ==> #[trigger] authored_tile(i, x, -1) == Some(
                TileType::MountainBorderDown,
            ),
        forall|i: int, x: int|
            6 <= i < 9 && 0 <= x < ROOM_WIDTH ==> #[trigger] authored_tile(i, x, ROOM_HEIGHT as int)
                == Some(TileType::MountainBorderUp),
{
}

/// What a room's playing field may hold when the game starts.
pub open spec fn starting_kind(t: TileType) -> bool {
    matches!(t,
        TileType::Rock1 | TileType::House1 | TileType::House2 | TileType::GarbagePickupFull
        | TileType::GarbageDropoffEmpty)
}

proof fn lemma_item_at_kind(items: Seq<(i32, i32, TileType)>, x: int, y: int)
    requires
        forall|j: int| 0 <= j < items.len() ==> starting_kind((#[trigger] items[j]).2),
    ensures
        item_at(items, x, y) matches Some(t) ==> starting_kind(t),
    decreases items.len(),
{
    if items.len() > 0 {
        assert(starting_kind(items[items.len() - 1].2));
        lemma_item_at_kind(items.drop_last(), x, y);
    }
}

/// At the start, no room holds a track piece, and every garbage site is a
/// full pickup or an empty recycling centre: the playing fields hold only
/// rocks, houses, full pickups and empty centres.
pub proof fn lemma_starting_fields()
    ensures
        forall|i: int, x: int, y: int|
            0 <= i < 9 && in_field(x, y) ==> (#[trigger] authored_tile(i, x, y) matches Some(t)
                ==> starting_kind(t)),
{
    assert forall|i: int, x: int, y: int|
        0 <= i < 9 && in_field(x, y) implies (#[trigger] authored_tile(i, x, y) matches Some(t)
            ==> starting_kind(t)) by {
        assert(forall|j: int| 0 <= j < room_items(i).len() ==> starting_kind((#[trigger] room_items(i)[j]).2));
        lemma_item_at_kind(room_items(i), x, y);
    }
}

/// The cell of the first room just inside its default entry is empty.
pub proof fn lemma_first_room_entry_approach_is_empty()
    ensures
        authored_tile(0, 9, 2) == None::<TileType>,
{
    reveal_with_fuel(item_at, 13);
}

/// The exec form of `ring_kind`.
fn ring_tile(side: TrainDirection, slot: TunnelSlot) -> (r: TileType)
    ensures
        r == ring_kind(side, slot),
{
    match (side, slot) {
        (TrainDirection::Up, TunnelSlot::Wall) => TileType::MountainBorderDown,
        (TrainDirection::Up, TunnelSlot::Open) => TileType::TunnelUpOpen,
        (TrainDirection::Up, TunnelSlot::Closed) => TileType::TunnelUpClosed,
        (TrainDirection::Down, TunnelSlot::Wall) => TileType::MountainBorderUp,
        (TrainDirection::Down, TunnelSlot::Open) => TileType::TunnelDownOpen,
        (TrainDirection::Down, TunnelSlot::Closed) => TileType::TunnelDownClosed,
        (TrainDirection::Left, TunnelSlot::Wall) => TileType::MountainBorderLeft,
        (TrainDirection::Left, TunnelSlot::Open) => TileType::TunnelLeftOpen,
        (TrainDirection::Left, TunnelSlot::Closed) => TileType::TunnelLeftClosed,
        (TrainDirection::Right, TunnelSlot::Wall) => TileType::MountainBorderRight,
        (TrainDirection::Right, TunnelSlot::Open) => TileType::TunnelRightOpen,
        (TrainDirection::Right, TunnelSlot::Closed) => TileType::TunnelRightClosed,
    }
}

/// Puts `kind` at `pos`, in a level that has no full recycling centre.
fn put_tile(level: &mut Level, pos: Coord, kind: TileType)
    requires
        old(level).wf(),
        old(level).weight(full_weight()) == 0,
        old(level).addressable(pos.x as int, pos.y as int),
        kind != TileType::GarbageDropoffFull3,
    ensures
        final(level).wf(),
        final(level).weight(full_weight()) == 0,
        final(level).name == old(level).name,
        final(level).grid_tiles == old(level).grid_tiles,
        final(level).default_train_start == old(level).default_train_start,
        forall|x: int, y: int| #[trigger]
            final(level).tile(x, y) == if x == pos.x && y == pos.y {
                Some(kind)
            } else {
                old(level).tile(x, y)
            },
{
    level.set(pos, kind);
    proof {
        lemma_cells_weight_bounds(level.cells@, full_weight(), 1);
        lemma_cells_weight_bounds(old(level).cells@, full_weight(), 1);
        let c = old(level).tile(pos.x as int, pos.y as int);
        if let Some(t) = c {
            assert(0 <= cell_weight(c, full_weight()));
        }
    }
}

/// Whether `(x, y)` is place `i` of the side of the ring that faces `side`,
/// which runs along row or column `at`.
pub open spec fn side_place(side: TrainDirection, at: int, x: int, y: int) -> int {
    match side {
        TrainDirection::Up | TrainDirection::Down => if y == at { x } else { -1 },
        TrainDirection::Left | TrainDirection::Right => if x == at { y } else { -1 },
    }
}

/// Lays one side of the border ring: the cells `(x, at)` with `x` in `0..len`
/// for the upper and lower sides, `(at, y)` with `y` in `0..len` for the left
/// and right ones, with tunnel places a third and two thirds of the way along.
fn build_side(
    level: &mut Level,
    side: TrainDirection,
    at: i32,
    len: i32,
    slots: (TunnelSlot, TunnelSlot),
)
    requires
        old(level).wf(),
        old(level).weight(full_weight()) == 0,
        0 <= len,
        side is Up || side is Down ==> len <= old(level).width() && -1 <= at
            <= old(level).height(),
        side is Left || side is Right ==> len <= old(level).height() && -1 <= at
            <= old(level).width(),
    ensures
        final(level).wf(),
        final(level).weight(full_weight()) == 0,
        final(level).name == old(level).name,
        final(level).grid_tiles == old(level).grid_tiles,
        final(level).default_train_start == old(level).default_train_start,
        forall|x: int, y: int| #[trigger]
            final(level).tile(x, y) == {
                let k = side_place(side, at as int, x, y);
                if 0 <= k < len {
                    Some(ring_kind(side, slot_at(len as int, k, slots)))
                } else {
                    old(level).tile(x, y)
                }
            },
{
    let mut i: i32 = 0;
    while i < len
        invariant
            level.wf(),
            level.weight(full_weight()) == 0,
            level.name == old(level).name,
            level.grid_tiles == old(level).grid_tiles,
            level.default_train_start == old(level).default_train_start,
            0 <= i <= len,
            side is Up || side is Down ==> len <= old(level).width() && -1 <= at
                <= old(level).height(),
            side is Left || side is Right ==> len <= old(level).height() && -1 <= at
                <= old(level).width(),
            forall|x: int, y: int| #[trigger]
                level.tile(x, y) == {
                    let k = side_place(side, at as int, x, y);
                    if 0 <= k < i {
                        Some(ring_kind(side, slot_at(len as int, k, slots)))
                    } else {
                        old(level).tile(x, y)
                    }
                },
        decreases len - i,
    {
        let slot = if i == len / 3 {
            slots.0
        } else if i == 2 * len / 3 {
            slots.1
        } else {
            TunnelSlot::Wall
        };
        let pos = match side {
            TrainDirection::Up | TrainDirection::Down => Coord { x: i, y: at },
            TrainDirection::Left | TrainDirection::Right => Coord { x: at, y: i },
        };
        put_tile(level, pos, ring_tile(side, slot));
        i = i + 1;
    }
}

/// An empty room enclosed by mountains, with tunnels where the plan says.
fn bordered_level(plan: RoomPlan) -> (r: Level)
    requires
        -1 <= plan.start.x <= ROOM_WIDTH,
        -1 <= plan.start.y <= ROOM_HEIGHT,
    ensures
        r.wf(),
        r.weight(full_weight()) == 0,
        r.name == plan.name,
        r.grid_tiles == (Coord { x: ROOM_WIDTH, y: ROOM_HEIGHT }),
        r.default_train_start == plan.start,
        forall|x: int, y: int| #[trigger]
            r.tile(x, y) == if in_field(x, y) {
                None
            } else {
                border_tile(plan, x, y)
            },
{
    let w = ROOM_WIDTH;
    let h = ROOM_HEIGHT;
    let mut level = Level::new(plan.name, Coord { x: w, y: h }, plan.start);
    proof {
        assert(level.weight(full_weight()) == 0) by {
            empty_cells_weigh_nothing(level.cells@);
        }
    }
    put_tile(&mut level, Coord { x: -1, y: -1 }, TileType::MountainBorderCornerDL);
    put_tile(&mut level, Coord { x: w, y: -1 }, TileType::MountainBorderCornerDR);
    put_tile(&mut level, Coord { x: -1, y: h }, TileType::MountainBorderCornerUL);
    put_tile(&mut level, Coord { x: w, y: h }, TileType::MountainBorderCornerUR);
    build_side(&mut level, TrainDirection::Up, -1, w, plan.up);
    build_side(&mut level, TrainDirection::Down, h, w, plan.down);
    build_side(&mut level, TrainDirection::Left, -1, h, plan.left);
    build_side(&mut level, TrainDirection::Right, w, h, plan.right);
    level
}

proof fn empty_cells_weigh_nothing(cells: Seq<Option<TileType>>)
    requires
        forall|i: int| 0 <= i < cells.len() ==> cells[i] == None::<TileType>,
    ensures
        crate::level::cells_weight(cells, full_weight()) == 0,
    decreases cells.len(),
{
    if cells.len() > 0 {
        empty_cells_weigh_nothing(cells.drop_last());
    }
}

/// Whether every item lies in the playing field and none is a full centre.
pub open spec fn items_ok(items: Seq<(i32, i32, TileType)>) -> bool {
    forall|j: int|
        0 <= j < items.len() ==> in_field((#[trigger] items[j]).0 as int, items[j].1 as int)
            && items[j].2 != TileType::GarbageDropoffFull3
}

/// A room framed by `plan` and furnished with `items`, in order.
fn build_room(plan: RoomPlan, items: &Vec<(i32, i32, TileType)>) -> (r: Level)
    requires
        -1 <= plan.start.x <= ROOM_WIDTH,
        -1 <= plan.start.y <= ROOM_HEIGHT,
        items_ok(items@),
    ensures
        r.wf(),
        r.weight(full_weight()) == 0,
        r.name == plan.name,
        r.grid_tiles == (Coord { x: ROOM_WIDTH, y: ROOM_HEIGHT }),
        r.default_train_start == plan.start,
        forall|x: int, y: int| #[trigger] r.tile(x, y) == planned_tile(plan, items@, x, y),
{
    let ghost start_plan = plan;
    let mut level = bordered_level(plan);
    let mut i: usize = 0;
    proof {
        assert(items@.take(0) =~= Seq::<(i32, i32, TileType)>::empty());
    }
    while i < items.len()
        invariant
            level.wf(),
            level.weight(full_weight()) == 0,
            level.name == start_plan.name,
            level.grid_tiles == (Coord { x: ROOM_WIDTH, y: ROOM_HEIGHT }),
            level.default_train_start == start_plan.start,
            i <= items@.len(),
            items_ok(items@),
            forall|x: int, y: int| #[trigger]
                level.tile(x, y) == planned_tile(start_plan, items@.take(i as int), x, y),
        decreases items@.len() - i,
    {
        let (x, y, kind) = items[i];
        proof {
            assert(in_field(items@[i as int].0 as int, items@[i as int].1 as int));
            let t = items@.take(i as int + 1);
            assert(t.drop_last() =~= items@.take(i as int));
            assert(t.last() == items@[i as int]);
        }
        put_tile(&mut level, Coord { x, y }, kind);
        i = i + 1;
    }
    proof {
        assert(items@.take(i as int) =~= items@);
    }
    level
}

impl GameState {
    /// The nine rooms of the game, row by row from the top left, each ten
    /// tiles by seven: every tile as `authored_tile` gives it, with the names
    /// and default entries of `room_plan`.
    pub fn create_levels() -> (r: Vec<Level>)
        ensures
            r@.len() == 9,
            forall|i: int| 0 <= i < r@.len() ==> (#[trigger] r@[i]).wf(),
            forall|i: int| 0 <= i < r@.len() ==> (#[trigger] r@[i]).weight(full_weight()) == 0,
            forall|i: int|
                0 <= i < r@.len() ==> (#[trigger] r@[i]).name == room_plan(i).name
                    && r@[i].default_train_start == room_plan(i).start && r@[i].grid_tiles == (
                Coord { x: ROOM_WIDTH, y: ROOM_HEIGHT }),
            forall|i: int, x: int, y: int|
                0 <= i < r@.len() ==> #[trigger] r@[i].tile(x, y) == authored_tile(i, x, y),
    {
        let mut levels: Vec<Level> = Vec::with_capacity(9);
        let items: Vec<(i32, i32, TileType)> = vec![
            (5, 6, TileType::Rock1),
            (5, 5, TileType::Rock1),
            (6, 3, TileType::Rock1),
            (8, 3, TileType::House1),
            (5, 3, TileType::House2),
            (3, 4, TileType::House1),
            (9, 3, TileType::Rock1),
            (7, 3, TileType::GarbagePickupFull),
            (4, 3, TileType::GarbagePickupFull),
            (2, 4, TileType::GarbagePickupFull),
            (9, 6, TileType::GarbagePickupFull),
            (0, 0, TileType::GarbageDropoffEmpty),
        ];
        assert(items@ =~= room_items(0));
        let room = build_room(
            RoomPlan {
                name: "1-1",
                start: Coord { x: 10, y: 2 },
                up: (TunnelSlot::Wall, TunnelSlot::Wall),
                down: (TunnelSlot::Open, TunnelSlot::Closed),
                left: (TunnelSlot::Wall, TunnelSlot::Wall),
                right: (TunnelSlot::Open, TunnelSlot::Closed),
            },
            &items,
        );
        let ghost l0 = room;
        levels.push(room);
        let items: Vec<(i32, i32, TileType)> = vec![
            (0, 2, TileType::Rock1),
            (0, 1, TileType::Rock1),
            (0, 3, TileType::Rock1),
            (9, 6, TileType::GarbagePickupFull),
            (9, 5, TileType::GarbagePickupFull),
            (0, 6, TileType::GarbagePickupFull),
            (1, 0, TileType::GarbagePickupFull),
            (2, 0, TileType::GarbagePickupFull),
            (3, 0, TileType::GarbagePickupFull),
            (4, 0, TileType::GarbagePickupFull),
            (5, 0, TileType::GarbagePickupFull),
            (6, 0, TileType::GarbagePickupFull),
            (7, 0, TileType::GarbagePickupFull),
            (8, 0, TileType::GarbagePickupFull),
            (9, 0, TileType::GarbagePickupFull),
            (3, 4, TileType::GarbagePickupFull),
            (4, 4, TileType::GarbagePickupFull),
            (5, 4, TileType::GarbagePickupFull),
            (6, 4, TileType::GarbagePickupFull),
        ];
        assert(items@ =~= room_items(1));
        let room = build_room(
            RoomPlan {
                name: "1-2",
                start: Coord { x: 10, y: 2 },
                up: (TunnelSlot::Wall, TunnelSlot::Wall),
                down: (TunnelSlot::Open, TunnelSlot::Open),
                left: (TunnelSlot::Open, TunnelSlot::Closed),
                right: (TunnelSlot::Open, TunnelSlot::Closed),
            },
            &items,
        );
        let ghost l1 = room;
        levels.push(room);
        let items: Vec<(i32, i32, TileType)> = vec![
            (9, 6, TileType::House1),
            (9, 5, TileType::House2),
            (9, 4, TileType::House1),
            (9, 3, TileType::House2),
            (4, 6, TileType::House1),
            (5, 6, TileType::House2),
            (4, 5, TileType::House1),
            (5, 5, TileType::House2),
            (4, 3, TileType::House1),
            (4, 2, TileType::House1),
            (1, 5, TileType::House2),
            (8, 6, TileType::House1),
            (8, 5, TileType::House2),
            (0, 0, TileType::Rock1),
            (0, 3, TileType::Rock1),
            (1, 3, TileType::Rock1),
            (2, 1, TileType::Rock1),
            (2, 2, TileType::Rock1),
            (3, 5, TileType::GarbagePickupFull),
            (9, 1, TileType::GarbagePickupFull),
            (9, 2, TileType::GarbagePickupFull),
            (9, 0, TileType::GarbagePickupFull),
            (5, 3, TileType::GarbagePickupFull),
            (5, 2, TileType::GarbagePickupFull),
            (1, 2, TileType::GarbagePickupFull),
            (6, 0, TileType::GarbageDropoffEmpty),
            (7, 3, TileType::GarbageDropoffEmpty),
            (2, 3, TileType::GarbageDropoffEmpty),
        ];
        assert(items@ =~= room_items(2));
        let room = build_room(
            RoomPlan {
                name: "1-3",
                start: Coord { x: 3, y: 7 },
                up: (TunnelSlot::Wall, TunnelSlot::Wall),
                down: (TunnelSlot::Open, TunnelSlot::Closed),
                left: (TunnelSlot::Open, TunnelSlot::Closed),
                right: (TunnelSlot::Wall, TunnelSlot::Wall),
            },
            &items,
        );
        let ghost l2 = room;
        levels.push(room);
        let items: Vec<(i32, i32, TileType)> = vec![
            (2, 2, TileType::House1),
            (5, 3, TileType::House2),
            (9, 1, TileType::House1),
            (6, 5, TileType::Rock1),
            (7, 4, TileType::Rock1),
            (8, 3, TileType::Rock1),
            (3, 1, TileType::Rock1),
            (1, 2, TileType::GarbagePickupFull),
            (6, 3, TileType::GarbagePickupFull),
            (8, 1, TileType::GarbagePickupFull),
            (1, 5, TileType::GarbageDropoffEmpty),
            (9, 6, TileType::GarbageDropoffEmpty),
        ];
        assert(items@ =~= room_items(3));
        let room = build_room(
            RoomPlan {
                name: "2-1",
                start: Coord { x: 3, y: -1 },
                up: (TunnelSlot::Open, TunnelSlot::Closed),
                down: (TunnelSlot::Open, TunnelSlot::Closed),
                left: (TunnelSlot::Wall, TunnelSlot::Wall),
                right: (TunnelSlot::Wall, TunnelSlot::Closed),
            },
            &items,
        );
        let ghost l3 = room;
        levels.push(room);
        let items: Vec<(i32, i32, TileType)> = vec![
            (4, 4, TileType::GarbagePickupFull),
            (5, 4, TileType::GarbagePickupFull),
            (4, 3, TileType::House1),
            (5, 3, TileType::House2),
            (3, 3, TileType::Rock1),
            (6, 3, TileType::Rock1),
            (0, 0, TileType::GarbageDropoffEmpty),
            (9, 0, TileType::GarbageDropoffEmpty),
            (0, 6, TileType::GarbageDropoffEmpty),
            (9, 6, TileType::GarbageDropoffEmpty),
        ];
        assert(items@ =~= room_items(4));
        let room = build_room(
            RoomPlan {
                name: "2-2",
                start: Coord { x: 3, y: -1 },
                up: (TunnelSlot::Open, TunnelSlot::Open),
                down: (TunnelSlot::Wall, TunnelSlot::Closed),
                left: (TunnelSlot::Wall, TunnelSlot::Closed),
                right: (TunnelSlot::Closed, TunnelSlot::Closed),
            },
            &items,
        );
        let ghost l4 = room;
        levels.push(room);
        let items: Vec<(i32, i32, TileType)> = vec![
            (1, 5, TileType::House1),
            (3, 5, TileType::House2),
            (5, 5, TileType::House1),
            (7, 5, TileType::House2),
            (9, 5, TileType::House1),
            (1, 3, TileType::House2),
            (2, 3, TileType::House1),
            (3, 3, TileType::House2),
            (4, 3, TileType::House1),
            (6, 3, TileType::House2),
            (8, 3, TileType::House1),
            (1, 1, TileType::House2),
            (3, 1, TileType::House1),
            (4, 1, TileType::House2),
            (6, 1, TileType::House1),
            (7, 1, TileType::House2),
            (9, 1, TileType::House1),
            (0, 5, TileType::GarbagePickupFull),
            (0, 1, TileType::GarbagePickupFull),
            (9, 2, TileType::GarbagePickupFull),
            (9, 6, TileType::GarbagePickupFull),
            (9, 0, TileType::GarbageDropoffEmpty),
        ];
        assert(items@ =~= room_items(5));
        let room = build_room(
            RoomPlan {
                name: "2-3",
                start: Coord { x: 3, y: 7 },
                up: (TunnelSlot::Open, TunnelSlot::Closed),
                down: (TunnelSlot::Open, TunnelSlot::Closed),
                left: (TunnelSlot::Closed, TunnelSlot::Closed),
                right: (TunnelSlot::Wall, TunnelSlot::Wall),
            },
            &items,
        );
        let ghost l5 = room;
        levels.push(room);
        let items: Vec<(i32, i32, TileType)> = vec![
            (2, 2, TileType::House1),
            (1, 6, TileType::House2),
            (6, 4, TileType::House1),
            (4, 0, TileType::Rock1),
            (4, 1, TileType::Rock1),
            (4, 4, TileType::Rock1),
            (4, 5, TileType::Rock1),
            (4, 6, TileType::Rock1),
            (3, 2, TileType::GarbagePickupFull),
            (0, 6, TileType::GarbagePickupFull),
            (5, 4, TileType::GarbagePickupFull),
            (2, 6, TileType::GarbageDropoffEmpty),
            (8, 3, TileType::GarbageDropoffEmpty),
        ];
        assert(items@ =~= room_items(6));
        let room = build_room(
            RoomPlan {
                name: "3-1",
                start: Coord { x: 3, y: -1 },
                up: (TunnelSlot::Open, TunnelSlot::Closed),
                down: (TunnelSlot::Wall, TunnelSlot::Wall),
                left: (TunnelSlot::Wall, TunnelSlot::Wall),
                right: (TunnelSlot::Open, TunnelSlot::Closed),
            },
            &items,
        );
        let ghost l6 = room;
        levels.push(room);
        let items: Vec<(i32, i32, TileType)> = vec![
            (1, 0, TileType::House1),
            (9, 1, TileType::House2),
            (4, 4, TileType::Rock1),
            (5, 4, TileType::Rock1),
            (6, 4, TileType::Rock1),
            (8, 2, TileType::Rock1),
            (0, 0, TileType::GarbagePickupFull),
            (2, 0, TileType::GarbagePickupFull),
            (9, 0, TileType::GarbagePickupFull),
            (5, 6, TileType::GarbageDropoffEmpty),
        ];
        assert(items@ =~= room_items(7));
        let room = build_room(
            RoomPlan {
                name: "3-2",
                start: Coord { x: -1, y: 2 },
                up: (TunnelSlot::Wall, TunnelSlot::Closed),
                down: (TunnelSlot::Wall, TunnelSlot::Wall),
                left: (TunnelSlot::Open, TunnelSlot::Closed),
                right: (TunnelSlot::Open, TunnelSlot::Closed),
            },
            &items,
        );
        let ghost l7 = room;
        levels.push(room);
        let items: Vec<(i32, i32, TileType)> = vec![
            (0, 6, TileType::House1),
            (1, 6, TileType::House2),
            (2, 6, TileType::House1),
            (8, 2, TileType::House2),
            (9, 4, TileType::Rock1),
            (5, 0, TileType::Rock1),
            (5, 1, TileType::Rock1),
            (0, 5, TileType::GarbagePickupFull),
            (1, 5, TileType::GarbagePickupFull),
            (3, 6, TileType::GarbagePickupFull),
            (7, 2, TileType::GarbagePickupFull),
            (8, 3, TileType::GarbagePickupFull),
            (9, 2, TileType::GarbagePickupFull),
            (5, 3, TileType::GarbageDropoffEmpty),
            (9, 6, TileType::GarbageDropoffEmpty),
        ];
        assert(items@ =~= room_items(8));
        let room = build_room(
            RoomPlan {
                name: "3-3",
                start: Coord { x: -1, y: 2 },
                up: (TunnelSlot::Open, TunnelSlot::Closed),
                down: (TunnelSlot::Wall, TunnelSlot::Wall),
                left: (TunnelSlot::Open, TunnelSlot::Closed),
                right: (TunnelSlot::Wall, TunnelSlot::Wall),
            },
            &items,
        );
        let ghost l8 = room;
        levels.push(room);
        proof {
            assert(levels@ =~= seq![l0, l1, l2, l3, l4, l5, l6, l7, l8]);
        }
        levels
    }
}

} // verus!
