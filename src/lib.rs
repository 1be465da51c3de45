//! A tile-based railway puzzle: a train crosses a three-by-three grid of
//! rooms on track pieces that the player lays from a limited stock, collects
//! garbage from pickup tiles and delivers it to recycling centres.
//!
//! The simulation is exact and integer-valued: the train's progress between
//! two tile centres is kept in millionths of a tile, and frame times are
//! given in microseconds.

pub mod game_state;
pub mod garbage;
pub mod level;
pub mod levels;
pub mod motion;
pub mod placement;
pub mod session;
pub mod tile;
