use garbage_train::game_state::{GameState, Message, Offset, HALT_UNITS, TILE_UNITS};
use garbage_train::level::Level;
use garbage_train::motion::neighbor_level_index;
use garbage_train::session::navigation_target;
use garbage_train::tile::{next_direction, Coord, TileType, TrainDirection, TrainState};

fn c(x: i32, y: i32) -> Coord {
    Coord { x, y }
}

/// Nine empty rooms of the given size, entered by default at `start`.
fn empty_rooms(w: i32, h: i32, start: Coord) -> Vec<Level> {
    (0..9).map(|_| Level::new("room", c(w, h), start)).collect()
}

/// A running train at `pos` in the first room, facing `dir`.
fn running_at(levels: Vec<Level>, pos: Coord, dir: TrainDirection) -> GameState {
    let mut g = GameState::with_levels(levels);
    g.train_tile_pos = pos;
    g.train_direction = dir;
    g.train_pos_offset = Offset { x: 0, y: 0 };
    g.train_state = TrainState::Running;
    g
}

/// Microseconds for the train to go half a tile.
const HALF_TILE_US: u32 = 250_000;

#[test]
fn broken_route_at_first_tile_of_level_zero() {
    let mut g = GameState::new();
    assert_eq!(g.train_tile_pos, c(10, 2));
    assert_eq!(g.train_direction, TrainDirection::Left);
    assert_eq!(g.current_level().get(c(10, 2)), Some(TileType::TunnelRightOpen));
    g.toggle_train();
    assert_eq!(g.train_state, TrainState::Running);
    g.update_train_movement(2 * HALF_TILE_US);
    assert_eq!(g.train_state, TrainState::BrokenRoute);
    assert_eq!(g.train_tile_pos, c(10, 2));
    assert_eq!(g.train_pos_offset, Offset { x: -HALT_UNITS, y: 0 });
}

#[test]
fn train_runs_through_two_horizontal_pieces() {
    let mut levels = empty_rooms(2, 1, c(-1, 0));
    levels[0].set(c(-1, 0), TileType::TunnelLeftOpen);
    levels[0].set(c(2, 0), TileType::TunnelRightOpen);
    let mut g = running_at(levels, c(-1, 0), TrainDirection::Right);
    assert!(g.place_track(c(0, 0), TileType::TrackHorizontal));
    assert!(g.place_track(c(1, 0), TileType::TrackHorizontal));
    let dt: u32 = 100_000;
    for _ in 0..4 {
        g.update_train_movement(dt);
        assert_eq!(g.train_tile_pos, c(-1, 0));
    }
    g.update_train_movement(dt);
    assert_eq!(g.train_tile_pos, c(0, 0));
    assert_eq!(g.train_state, TrainState::Running);
    assert_eq!(g.train_pos_offset, Offset { x: -200_000, y: 0 });
    for _ in 0..5 {
        g.update_train_movement(dt);
        assert_eq!(g.train_tile_pos, c(0, 0));
    }
    g.update_train_movement(dt);
    assert_eq!(g.train_tile_pos, c(1, 0));
    assert_eq!(g.train_state, TrainState::Running);
    assert_eq!(g.train_direction, TrainDirection::Right);
}

#[test]
fn offset_advances_within_a_tile() {
    let levels = empty_rooms(4, 4, c(-1, 0));
    let mut g = running_at(levels, c(1, 1), TrainDirection::Down);
    g.update_train_movement(100_000);
    assert_eq!(g.train_pos_offset, Offset { x: 0, y: 200_000 });
    assert_eq!(g.train_tile_pos, c(1, 1));
    assert_eq!(g.train_state, TrainState::Running);
}

#[test]
fn a_long_frame_crosses_one_tile_boundary() {
    let mut levels = empty_rooms(5, 1, c(-1, 0));
    for x in 0..5 {
        levels[0].set(c(x, 0), TileType::TrackHorizontal);
    }
    let mut g = running_at(levels, c(0, 0), TrainDirection::Right);
    g.update_train_movement(10_000_000);
    assert_eq!(g.train_tile_pos, c(1, 0));
    assert_eq!(g.train_pos_offset, Offset { x: -TILE_UNITS, y: 0 });
}

#[test]
fn dead_end_piece_is_not_entered() {
    let mut levels = empty_rooms(4, 4, c(-1, 0));
    levels[0].set(c(1, 0), TileType::TrackHorizontal);
    levels[0].set(c(2, 0), TileType::TrackHorizontal);
    let mut g = running_at(levels, c(1, 0), TrainDirection::Right);
    g.update_train_movement(2 * HALF_TILE_US);
    assert_eq!(g.train_state, TrainState::BrokenRoute);
    assert_eq!(g.train_tile_pos, c(1, 0));
    assert_eq!(g.train_pos_offset, Offset { x: HALT_UNITS, y: 0 });
}

#[test]
fn obstacle_stops_the_train() {
    let mut levels = empty_rooms(4, 4, c(-1, 0));
    levels[0].set(c(2, 1), TileType::Rock1);
    let mut g = running_at(levels, c(1, 1), TrainDirection::Right);
    g.update_train_movement(2 * HALF_TILE_US);
    assert_eq!(g.train_state, TrainState::Obstacle);
    assert_eq!(g.train_tile_pos, c(1, 1));
    assert_eq!(g.train_pos_offset, Offset { x: HALT_UNITS, y: 0 });
}

#[test]
fn piece_entered_from_the_wrong_side_breaks_the_route() {
    let mut levels = empty_rooms(4, 4, c(-1, 0));
    levels[0].set(c(1, 2), TileType::TrackHorizontal);
    let mut g = running_at(levels, c(1, 1), TrainDirection::Down);
    g.update_train_movement(2 * HALF_TILE_US);
    assert_eq!(g.train_state, TrainState::BrokenRoute);
    assert_eq!(g.train_tile_pos, c(1, 1));
    assert_eq!(g.train_pos_offset, Offset { x: 0, y: HALT_UNITS });
}

#[test]
fn corner_turns_the_train() {
    let mut levels = empty_rooms(4, 4, c(-1, 0));
    levels[0].set(c(1, 1), TileType::TrackCornerUL);
    levels[0].set(c(2, 1), TileType::TrackHorizontal);
    let mut g = running_at(levels, c(1, 0), TrainDirection::Down);
    g.update_train_movement(2 * HALF_TILE_US);
    assert_eq!(g.train_tile_pos, c(1, 1));
    assert_eq!(g.train_direction, TrainDirection::Right);
    assert_eq!(g.train_state, TrainState::Running);
    assert_eq!(g.train_pos_offset, Offset { x: 0, y: -TILE_UNITS });
}

#[test]
fn track_connections_are_fixed() {
    assert_eq!(next_direction(TrainDirection::Down, TileType::TrackCornerUL), Some(TrainDirection::Right));
    assert_eq!(next_direction(TrainDirection::Left, TileType::TrackCornerUL), Some(TrainDirection::Up));
    assert_eq!(next_direction(TrainDirection::Down, TileType::TrackCornerUR), Some(TrainDirection::Left));
    assert_eq!(next_direction(TrainDirection::Right, TileType::TrackCornerUR), Some(TrainDirection::Up));
    assert_eq!(next_direction(TrainDirection::Up, TileType::TrackCornerDL), Some(TrainDirection::Right));
    assert_eq!(next_direction(TrainDirection::Left, TileType::TrackCornerDL), Some(TrainDirection::Down));
    assert_eq!(next_direction(TrainDirection::Up, TileType::TrackCornerDR), Some(TrainDirection::Left));
    assert_eq!(next_direction(TrainDirection::Right, TileType::TrackCornerDR), Some(TrainDirection::Down));
    assert_eq!(next_direction(TrainDirection::Left, TileType::TrackHorizontal), Some(TrainDirection::Left));
    assert_eq!(next_direction(TrainDirection::Up, TileType::TrackHorizontal), None);
    assert_eq!(next_direction(TrainDirection::Up, TileType::TrackVertical), Some(TrainDirection::Up));
    assert_eq!(next_direction(TrainDirection::Right, TileType::TrackVertical), None);
    assert_eq!(next_direction(TrainDirection::Right, TileType::Rock1), None);
    for _ in 0..3 {
        assert_eq!(next_direction(TrainDirection::Up, TileType::TrackCornerUL), None);
    }
}

#[test]
fn tunnel_exit_right_mirrors_to_left_border() {
    let mut levels = empty_rooms(4, 3, c(-1, 1));
    levels[0].set(c(4, 1), TileType::TunnelRightOpen);
    let mut g = running_at(levels, c(3, 1), TrainDirection::Right);
    g.update_train_movement(2 * HALF_TILE_US);
    assert_eq!(g.level_active, 1);
    assert_eq!(g.train_tile_pos, c(-1, 1));
    assert_eq!(g.train_direction, TrainDirection::Right);
    assert_eq!(g.train_state, TrainState::Running);
    assert_eq!(g.train_pos_offset, Offset { x: 0, y: 0 });
}

#[test]
fn tunnel_exit_down_and_up_shift_by_three() {
    let mut levels = empty_rooms(4, 3, c(-1, 1));
    levels[0].set(c(2, 3), TileType::TunnelDownOpen);
    levels[3].set(c(2, -1), TileType::TunnelUpOpen);
    let mut g = running_at(levels, c(2, 2), TrainDirection::Down);
    g.update_train_movement(2 * HALF_TILE_US);
    assert_eq!(g.level_active, 3);
    assert_eq!(g.train_tile_pos, c(2, -1));
    g.train_tile_pos = c(2, 0);
    g.train_direction = TrainDirection::Up;
    g.update_train_movement(2 * HALF_TILE_US);
    assert_eq!(g.level_active, 0);
    assert_eq!(g.train_tile_pos, c(2, 3));
}

#[test]
fn tunnel_exit_without_neighbour_breaks_the_route() {
    let mut levels = empty_rooms(4, 3, c(-1, 1));
    levels[0].set(c(-1, 1), TileType::TunnelLeftOpen);
    let mut g = running_at(levels, c(0, 1), TrainDirection::Left);
    g.update_train_movement(2 * HALF_TILE_US);
    assert_eq!(g.level_active, 0);
    assert_eq!(g.train_state, TrainState::BrokenRoute);
    assert_eq!(g.train_pos_offset, Offset { x: -HALT_UNITS, y: 0 });
}

#[test]
fn closed_tunnel_breaks_the_route() {
    let mut levels = empty_rooms(4, 3, c(-1, 1));
    levels[0].set(c(4, 1), TileType::TunnelRightClosed);
    let mut g = running_at(levels, c(3, 1), TrainDirection::Right);
    g.update_train_movement(2 * HALF_TILE_US);
    assert_eq!(g.level_active, 0);
    assert_eq!(g.train_state, TrainState::BrokenRoute);
    assert_eq!(g.train_tile_pos, c(3, 1));
}

#[test]
fn arriving_through_a_tunnel_enters_it_and_stops() {
    let mut levels = empty_rooms(4, 3, c(-1, 1));
    levels[0].set(c(4, 1), TileType::TunnelLeftOpen);
    let mut g = running_at(levels, c(3, 1), TrainDirection::Right);
    g.update_train_movement(2 * HALF_TILE_US);
    assert_eq!(g.level_active, 0);
    assert_eq!(g.train_tile_pos, c(4, 1));
    assert_eq!(g.train_state, TrainState::Stopped);
    assert_eq!(g.train_pos_offset, Offset { x: -TILE_UNITS, y: 0 });
}

#[test]
fn room_with_empty_centres_cannot_be_left() {
    let mut levels = empty_rooms(4, 3, c(-1, 1));
    levels[0].set(c(4, 1), TileType::TunnelRightOpen);
    levels[0].set(c(0, 0), TileType::GarbageDropoffEmpty);
    let mut g = GameState::with_levels(levels);
    g.train_tile_pos = c(3, 1);
    g.train_direction = TrainDirection::Right;
    g.train_state = TrainState::Running;
    g.update_train_movement(2 * HALF_TILE_US);
    assert_eq!(g.level_active, 0);
    assert_eq!(g.train_state, TrainState::Stopped);
    assert_eq!(g.message, Some(Message::FillRecyclingCenter));
}

#[test]
fn stopped_train_does_not_move() {
    let mut g = GameState::new();
    g.update_train_movement(HALF_TILE_US);
    assert_eq!(g.train_pos_offset, Offset { x: 0, y: 0 });
    assert_eq!(g.train_state, TrainState::Stopped);
}

#[test]
fn toggle_cycles_the_run_state() {
    let mut g = GameState::new();
    g.toggle_train();
    assert_eq!(g.train_state, TrainState::Running);
    g.toggle_train();
    assert_eq!(g.train_state, TrainState::Stopped);
    g.train_state = TrainState::BrokenRoute;
    g.toggle_train();
    assert_eq!(g.train_state, TrainState::Running);
    g.train_state = TrainState::Obstacle;
    g.toggle_train();
    assert_eq!(g.train_state, TrainState::Stopped);
    g.train_state = TrainState::Exiting;
    g.toggle_train();
    assert_eq!(g.train_state, TrainState::Stopped);
}

#[test]
fn create_levels_builds_nine_bordered_rooms() {
    let levels = GameState::create_levels();
    assert_eq!(levels.len(), 9);
    let names = ["1-1", "1-2", "1-3", "2-1", "2-2", "2-3", "3-1", "3-2", "3-3"];
    for (l, name) in levels.iter().zip(names.iter()) {
        assert_eq!(l.name, *name);
        assert_eq!(l.grid_tiles, c(10, 7));
        assert_eq!(l.get(c(-1, -1)), Some(TileType::MountainBorderCornerDL));
        assert_eq!(l.get(c(10, 7)), Some(TileType::MountainBorderCornerUR));
        assert_eq!(l.get(c(0, -1)), Some(TileType::MountainBorderDown));
        assert_eq!(l.get(c(0, 7)), Some(TileType::MountainBorderUp));
        assert_eq!(l.get(c(-1, 0)), Some(TileType::MountainBorderLeft));
        assert_eq!(l.get(c(10, 0)), Some(TileType::MountainBorderRight));
        assert_eq!(l.get(c(11, 0)), None);
    }
    assert_eq!(levels[0].get(c(3, 7)), Some(TileType::TunnelDownOpen));
    assert_eq!(levels[0].get(c(6, 7)), Some(TileType::TunnelDownClosed));
    assert_eq!(levels[0].get(c(10, 4)), Some(TileType::TunnelRightClosed));
    assert_eq!(levels[0].get(c(0, 0)), Some(TileType::GarbageDropoffEmpty));
    assert_eq!(levels[0].get(c(9, 2)), None);
    assert_eq!(levels[2].default_train_start, c(3, 7));
    assert_eq!(levels[3].default_train_start, c(3, -1));
    assert_eq!(levels[7].default_train_start, c(-1, 2));
    assert_eq!(levels[4].get(c(10, 2)), Some(TileType::TunnelRightClosed));
    assert_eq!(levels[1].get(c(6, 7)), Some(TileType::TunnelDownOpen));
}

#[test]
fn neighbours_follow_the_room_grid() {
    assert_eq!(neighbor_level_index(0, TrainDirection::Right), Some(1));
    assert_eq!(neighbor_level_index(0, TrainDirection::Left), None);
    assert_eq!(neighbor_level_index(0, TrainDirection::Up), None);
    assert_eq!(neighbor_level_index(0, TrainDirection::Down), Some(3));
    assert_eq!(neighbor_level_index(4, TrainDirection::Up), Some(1));
    assert_eq!(neighbor_level_index(4, TrainDirection::Left), Some(3));
    assert_eq!(neighbor_level_index(5, TrainDirection::Right), None);
    assert_eq!(neighbor_level_index(8, TrainDirection::Down), None);
}

#[test]
fn piece_beyond_must_take_the_train() {
    let mut levels = empty_rooms(4, 4, c(-1, 0));
    levels[0].set(c(1, 0), TileType::TrackHorizontal);
    levels[0].set(c(2, 0), TileType::TrackHorizontal);
    levels[0].set(c(3, 0), TileType::TrackVertical);
    let mut g = running_at(levels, c(1, 0), TrainDirection::Right);
    g.update_train_movement(2 * HALF_TILE_US);
    assert_eq!(g.train_state, TrainState::BrokenRoute);
    assert_eq!(g.train_tile_pos, c(1, 0));
    assert_eq!(g.train_pos_offset, Offset { x: HALT_UNITS, y: 0 });
}

#[test]
fn corner_beyond_that_takes_the_train_lets_it_on() {
    let mut levels = empty_rooms(4, 4, c(-1, 0));
    levels[0].set(c(1, 0), TileType::TrackHorizontal);
    levels[0].set(c(2, 0), TileType::TrackHorizontal);
    levels[0].set(c(3, 0), TileType::TrackCornerUR);
    let mut g = running_at(levels, c(1, 0), TrainDirection::Right);
    g.update_train_movement(2 * HALF_TILE_US);
    assert_eq!(g.train_state, TrainState::Running);
    assert_eq!(g.train_tile_pos, c(2, 0));
}

#[test]
fn navigation_stays_inside_the_room_grid() {
    assert_eq!(navigation_target(0, true, false, true, false), 0);
    assert_eq!(navigation_target(0, false, true, false, true), 4);
    assert_eq!(navigation_target(8, false, true, false, true), 8);
    assert_eq!(navigation_target(4, true, false, false, false), 1);
    assert_eq!(navigation_target(4, true, true, false, false), 4);
    assert_eq!(navigation_target(2, false, false, false, true), 2);
}
