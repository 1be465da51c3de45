use vstd::prelude::*;

verus! {

/// The four directions in which the train can face and travel.
#[derive(Clone, Copy, Debug, PartialEq, Eq, Structural)]
pub enum TrainDirection {
    Up,
    Down,
    Left,
    Right,
}

/// The discrete run state of the train.
#[derive(Clone, Copy, Debug, PartialEq, Eq, Structural)]
pub enum TrainState {
    Stopped,
    Running,
    Obstacle,
    BrokenRoute,
    Exiting,
}

/// Every kind of occupant a grid cell can hold.
#[derive(Clone, Copy, Debug, PartialEq, Eq, Structural)]
pub enum TileType {
    // Track pieces
    TrackHorizontal,
    TrackVertical,
    TrackCornerUL,
    TrackCornerUR,
    TrackCornerDL,
    TrackCornerDR,
    // Obstacles
    Rock1,
    House1,
    House2,
    // Garbage system
    GarbagePickupFull,
    GarbagePickupEmpty,
    GarbageDropoffEmpty,
    GarbageDropoffFull1,
    GarbageDropoffFull2,
    GarbageDropoffFull3,
    // Mountain borders
    MountainBorderUp,
    MountainBorderDown,
    MountainBorderLeft,
    MountainBorderRight,
    MountainBorderCornerUL,
    MountainBorderCornerUR,
    MountainBorderCornerDL,
    MountainBorderCornerDR,
    // Tunnels (level connections with state)
    TunnelUpOpen,
    TunnelUpClosed,
    TunnelDownOpen,
    TunnelDownClosed,
    TunnelLeftOpen,
    TunnelLeftClosed,
    TunnelRightOpen,
    TunnelRightClosed,
}

/// A grid coordinate inside a level, the border ring included.
#[derive(Clone, Copy, Debug, PartialEq, Eq, Structural)]
pub struct Coord {
    pub x: i32,
    pub y: i32,
}

/// Whether a tile is one of the six track shapes.
pub open spec fn is_track(t: TileType) -> bool {
    matches!(t,
        TileType::TrackHorizontal | TileType::TrackVertical | TileType::TrackCornerUL
        | TileType::TrackCornerUR | TileType::TrackCornerDL | TileType::TrackCornerDR)
}

/// Whether a tile is an open tunnel, of any orientation.
pub open spec fn is_open_tunnel(t: TileType) -> bool {
    matches!(t,
        TileType::TunnelUpOpen | TileType::TunnelDownOpen | TileType::TunnelLeftOpen
        | TileType::TunnelRightOpen)
}

/// The unit step of a direction; `y` grows downwards.
pub open spec fn dir_dx(d: TrainDirection) -> int {
    match d {
        TrainDirection::Left => -1,
        TrainDirection::Right => 1,
        _ => 0,
    }
}

pub open spec fn dir_dy(d: TrainDirection) -> int {
    match d {
        TrainDirection::Up => -1,
        TrainDirection::Down => 1,
        _ => 0,
    }
}

/// The direction in which the train leaves a track piece that it entered
/// travelling in `d`, or `None` where the piece does not accept `d`.
pub open spec fn connection(d: TrainDirection, t: TileType) -> Option<TrainDirection> {
    match (d, t) {
        (TrainDirection::Left, TileType::TrackHorizontal) => Some(TrainDirection::Left),
        (TrainDirection::Right, TileType::TrackHorizontal) => Some(TrainDirection::Right),
        (TrainDirection::Up, TileType::TrackVertical) => Some(TrainDirection::Up),
        (TrainDirection::Down, TileType::TrackVertical) => Some(TrainDirection::Down),
        // Upper-left corner: joins its lower and right sides.
        (TrainDirection::Down, TileType::TrackCornerUL) => Some(TrainDirection::Right),
        (TrainDirection::Left, TileType::TrackCornerUL) => Some(TrainDirection::Up),
        // Upper-right corner: joins its lower and left sides.
        (TrainDirection::Down, TileType::TrackCornerUR) => Some(TrainDirection::Left),
        (TrainDirection::Right, TileType::TrackCornerUR) => Some(TrainDirection::Up),
        // Lower-left corner: joins its upper and right sides.
        (TrainDirection::Up, TileType::TrackCornerDL) => Some(TrainDirection::Right),
        (TrainDirection::Left, TileType::TrackCornerDL) => Some(TrainDirection::Down),
        // Lower-right corner: joins its upper and left sides.
        (TrainDirection::Up, TileType::TrackCornerDR) => Some(TrainDirection::Left),
        (TrainDirection::Right, TileType::TrackCornerDR) => Some(TrainDirection::Down),
        _ => None,
    }
}

/// Whether `t` is an open tunnel whose orientation is the travel direction `d`.
pub open spec fn tunnel_leads(d: TrainDirection, t: TileType) -> bool {
    match (d, t) {
        (TrainDirection::Up, TileType::TunnelUpOpen) => true,
        (TrainDirection::Down, TileType::TunnelDownOpen) => true,
        (TrainDirection::Left, TileType::TunnelLeftOpen) => true,
        (TrainDirection::Right, TileType::TunnelRightOpen) => true,
        _ => false,
    }
}

/// Units of garbage a tile holds: one on a full pickup, the fill level on a
/// recycling centre.
pub open spec fn garbage_units(t: TileType) -> int {
    match t {
        TileType::GarbagePickupFull => 1,
        TileType::GarbageDropoffFull1 => 1,
        TileType::GarbageDropoffFull2 => 2,
        TileType::GarbageDropoffFull3 => 3,
        _ => 0,
    }
}

/// Whether a tile is a recycling centre, whatever its fill level.
pub open spec fn is_dropoff(t: TileType) -> bool {
    matches!(t,
        TileType::GarbageDropoffEmpty | TileType::GarbageDropoffFull1
        | TileType::GarbageDropoffFull2 | TileType::GarbageDropoffFull3)
}

impl TileType {
    /// Whether the tile is one of the six track shapes.
    pub fn is_track(&self) -> (r: bool)
        ensures
            r == is_track(*self),
    {
        match self {
            TileType::TrackHorizontal | TileType::TrackVertical | TileType::TrackCornerUL
            | TileType::TrackCornerUR | TileType::TrackCornerDL | TileType::TrackCornerDR => true,
            _ => false,
        }
    }

    /// Whether the player can neither place over nor remove this tile: every
    /// kind but the track shapes.
    pub fn is_permanent(&self) -> (r: bool)
        ensures
            r == !is_track(*self),
    {
        !self.is_track()
    }

    /// Whether the tile is an open tunnel.
    pub fn is_open_tunnel(&self) -> (r: bool)
        ensures
            r == is_open_tunnel(*self),
    {
        match self {
            TileType::TunnelUpOpen | TileType::TunnelDownOpen | TileType::TunnelLeftOpen
            | TileType::TunnelRightOpen => true,
            _ => false,
        }
    }
}

/// The outgoing direction for a train that enters a tile of kind `t` while
/// travelling in `d`; `None` where the tile does not take the train from
/// that side.
pub fn next_direction(d: TrainDirection, t: TileType) -> (r: Option<TrainDirection>)
    ensures
        r == connection(d, t),
{
    match (d, t) {
        (TrainDirection::Left, TileType::TrackHorizontal) => Some(TrainDirection::Left),
        (TrainDirection::Right, TileType::TrackHorizontal) => Some(TrainDirection::Right),
        (TrainDirection::Up, TileType::TrackVertical) => Some(TrainDirection::Up),
        (TrainDirection::Down, TileType::TrackVertical) => Some(TrainDirection::Down),
        (TrainDirection::Down, TileType::TrackCornerUL) => Some(TrainDirection::Right),
        (TrainDirection::Left, TileType::TrackCornerUL) => Some(TrainDirection::Up),
        (TrainDirection::Down, TileType::TrackCornerUR) => Some(TrainDirection::Left),
        (TrainDirection::Right, TileType::TrackCornerUR) => Some(TrainDirection::Up),
        (TrainDirection::Up, TileType::TrackCornerDL) => Some(TrainDirection::Right),
        (TrainDirection::Left, TileType::TrackCornerDL) => Some(TrainDirection::Down),
        (TrainDirection::Up, TileType::TrackCornerDR) => Some(TrainDirection::Left),
        (TrainDirection::Right, TileType::TrackCornerDR) => Some(TrainDirection::Down),
        _ => None,
    }
}

} // verus!
