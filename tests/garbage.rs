use garbage_train::game_state::{GameState, Message, TUNNEL_EVENT_LEVEL};
use garbage_train::level::Level;
use garbage_train::tile::{Coord, TileType, TrainDirection, TrainState};

fn c(x: i32, y: i32) -> Coord {
    Coord { x, y }
}

fn rooms() -> Vec<Level> {
    (0..9).map(|_| Level::new("room", c(6, 6), c(-1, 2))).collect()
}

/// Pickups, centres and the carried load, summed over all rooms.
fn garbage_total(g: &GameState) -> i32 {
    let mut sum = g.garbage_held;
    for l in &g.levels {
        for y in -1..=l.grid_tiles.y {
            for x in -1..=l.grid_tiles.x {
                sum += match l.get(c(x, y)) {
                    Some(TileType::GarbagePickupFull) => 1,
                    Some(TileType::GarbageDropoffFull1) => 1,
                    Some(TileType::GarbageDropoffFull2) => 2,
                    Some(TileType::GarbageDropoffFull3) => 3,
                    _ => 0,
                };
            }
        }
    }
    sum
}

fn running(levels: Vec<Level>, pos: Coord) -> GameState {
    let mut g = GameState::with_levels(levels);
    g.train_tile_pos = pos;
    g.train_direction = TrainDirection::Right;
    g.train_state = TrainState::Running;
    g
}

#[test]
fn pickup_collects_full_neighbours_only() {
    let mut levels = rooms();
    levels[0].set(c(2, 1), TileType::GarbagePickupFull);
    levels[0].set(c(2, 3), TileType::GarbagePickupFull);
    levels[0].set(c(1, 2), TileType::GarbagePickupEmpty);
    levels[0].set(c(3, 3), TileType::GarbagePickupFull);
    let mut g = running(levels, c(2, 2));
    let total = garbage_total(&g);
    g.check_garbage_pickup();
    assert_eq!(g.garbage_held, 2);
    assert_eq!(g.current_level().get(c(2, 1)), Some(TileType::GarbagePickupEmpty));
    assert_eq!(g.current_level().get(c(2, 3)), Some(TileType::GarbagePickupEmpty));
    assert_eq!(g.current_level().get(c(1, 2)), Some(TileType::GarbagePickupEmpty));
    assert_eq!(g.current_level().get(c(3, 3)), Some(TileType::GarbagePickupFull));
    assert_eq!(garbage_total(&g), total);
}

#[test]
fn pickup_needs_a_running_train() {
    let mut levels = rooms();
    levels[0].set(c(2, 1), TileType::GarbagePickupFull);
    let mut g = running(levels, c(2, 2));
    g.train_state = TrainState::BrokenRoute;
    g.check_garbage_pickup();
    assert_eq!(g.garbage_held, 0);
    assert_eq!(g.current_level().get(c(2, 1)), Some(TileType::GarbagePickupFull));
}

#[test]
fn dropoff_fills_centres_in_order() {
    let mut levels = rooms();
    levels[0].set(c(2, 1), TileType::GarbageDropoffFull1);
    levels[0].set(c(3, 2), TileType::GarbageDropoffEmpty);
    levels[0].set(c(1, 2), TileType::GarbageDropoffFull3);
    let mut g = running(levels, c(2, 2));
    g.garbage_held = 4;
    g.check_garbage_dropoff();
    // Above takes two, to full; right takes the other two.
    assert_eq!(g.current_level().get(c(2, 1)), Some(TileType::GarbageDropoffFull3));
    assert_eq!(g.current_level().get(c(3, 2)), Some(TileType::GarbageDropoffFull2));
    assert_eq!(g.current_level().get(c(1, 2)), Some(TileType::GarbageDropoffFull3));
    assert_eq!(g.garbage_held, 0);
    assert_eq!(g.total_dropoffs_count, 3);
    assert_eq!(g.dropoffs_full_count, 2);
    assert!(!g.game_won);
}

#[test]
fn dropoff_leaves_what_does_not_fit() {
    let mut levels = rooms();
    levels[0].set(c(2, 3), TileType::GarbageDropoffEmpty);
    let mut g = running(levels, c(2, 2));
    g.garbage_held = 5;
    g.check_garbage_dropoff();
    assert_eq!(g.current_level().get(c(2, 3)), Some(TileType::GarbageDropoffFull3));
    assert_eq!(g.garbage_held, 2);
}

#[test]
fn dropoff_with_nothing_carried_does_nothing() {
    let mut levels = rooms();
    levels[0].set(c(2, 3), TileType::GarbageDropoffEmpty);
    let mut g = running(levels, c(2, 2));
    g.check_garbage_dropoff();
    assert_eq!(g.current_level().get(c(2, 3)), Some(TileType::GarbageDropoffEmpty));
    assert_eq!(g.garbage_held, 0);
}

#[test]
fn filling_every_centre_wins() {
    let mut levels = rooms();
    levels[0].set(c(2, 3), TileType::GarbageDropoffEmpty);
    levels[0].set(c(2, 0), TileType::GarbagePickupFull);
    levels[0].set(c(3, 2), TileType::GarbagePickupFull);
    levels[0].set(c(1, 2), TileType::GarbagePickupFull);
    let mut g = running(levels, c(2, 2));
    assert!(!g.game_won);
    assert_eq!(g.total_dropoffs_count, 1);
    assert_eq!(g.dropoffs_full_count, 0);
    g.check_garbage_pickup();
    assert_eq!(g.garbage_held, 2);
    g.check_garbage_dropoff();
    assert!(!g.game_won);
    g.train_tile_pos = c(2, 1);
    g.check_garbage_pickup();
    g.train_tile_pos = c(2, 2);
    g.check_garbage_dropoff();
    assert_eq!(g.dropoffs_full_count, 1);
    assert!(g.game_won);
    g.update_win_condition();
    assert_eq!(g.message, Some(Message::Won));
    assert!(g.win_message_shown);
    g.update_message_dismissal(true);
    assert_eq!(g.message, None);
    g.update_win_condition();
    assert_eq!(g.message, None);
}

#[test]
fn new_game_is_not_won() {
    let g = GameState::new();
    assert!(!g.game_won);
    assert_eq!(g.dropoffs_full_count, 0);
    assert_eq!(g.total_dropoffs_count, 16);
    assert_eq!(g.garbage_held, 0);
}

#[test]
fn reset_returns_garbage_and_conserves_it() {
    let mut levels = rooms();
    levels[0].set(c(2, 1), TileType::GarbagePickupFull);
    levels[0].set(c(2, 3), TileType::GarbageDropoffEmpty);
    levels[0].set(c(4, 4), TileType::GarbageDropoffFull2);
    levels[0].set(c(0, 0), TileType::GarbagePickupEmpty);
    let mut g = running(levels, c(2, 2));
    g.garbage_held = 1;
    let total = garbage_total(&g);
    g.check_garbage_pickup();
    g.check_garbage_dropoff();
    assert_eq!(g.current_level().get(c(2, 3)), Some(TileType::GarbageDropoffFull2));
    assert_eq!(garbage_total(&g), total);
    g.reset_level();
    assert_eq!(g.current_level().get(c(2, 1)), Some(TileType::GarbagePickupFull));
    assert_eq!(g.current_level().get(c(0, 0)), Some(TileType::GarbagePickupFull));
    assert_eq!(g.current_level().get(c(2, 3)), Some(TileType::GarbageDropoffEmpty));
    assert_eq!(g.current_level().get(c(4, 4)), Some(TileType::GarbageDropoffEmpty));
    // One unit back from each pickup, two and two out of the centres.
    assert_eq!(g.garbage_held, 0 - 1 - 1 + 2 + 2);
    assert_eq!(garbage_total(&g), total);
    assert_eq!(g.dropoffs_full_count, 0);
}

#[test]
fn reset_train_returns_to_the_default_entry() {
    let mut g = GameState::new();
    g.train_tile_pos = c(4, 4);
    g.train_direction = TrainDirection::Up;
    g.train_state = TrainState::Running;
    g.reset_train();
    assert_eq!(g.train_tile_pos, c(10, 2));
    assert_eq!(g.train_direction, TrainDirection::Left);
    assert_eq!(g.train_state, TrainState::Stopped);
}

#[test]
fn entry_direction_faces_into_the_room() {
    assert_eq!(Level::new("a", c(4, 4), c(-1, 1)).entry_direction(), TrainDirection::Right);
    assert_eq!(Level::new("a", c(4, 4), c(4, 1)).entry_direction(), TrainDirection::Left);
    assert_eq!(Level::new("a", c(4, 4), c(1, -1)).entry_direction(), TrainDirection::Down);
    assert_eq!(Level::new("a", c(4, 4), c(1, 4)).entry_direction(), TrainDirection::Up);
    assert_eq!(Level::new("a", c(4, 4), c(1, 1)).entry_direction(), TrainDirection::Right);
}

#[test]
fn tunnels_open_after_five_seconds_in_the_middle_room() {
    let mut g = GameState::new();
    assert_eq!(g.levels[0].get(c(6, 7)), Some(TileType::TunnelDownClosed));
    g.update_level_22_tunnels(4_000_000);
    assert_eq!(g.tunnel_timer, None);
    g.jump_to_level(TUNNEL_EVENT_LEVEL);
    g.update_level_22_tunnels(3_000_000);
    assert!(!g.tunnels_opened);
    assert_eq!(g.tunnel_timer, Some(3_000_000));
    g.update_level_22_tunnels(2_000_000);
    assert!(g.tunnels_opened);
    assert_eq!(g.message, Some(Message::TunnelsOpened));
    assert_eq!(g.levels[0].get(c(6, 7)), Some(TileType::TunnelDownOpen));
    assert_eq!(g.levels[4].get(c(10, 2)), Some(TileType::TunnelRightOpen));
    assert_eq!(g.levels[4].get(c(0, 0)), Some(TileType::GarbageDropoffEmpty));
}

#[test]
fn animation_flips_each_period() {
    let mut g = GameState::new();
    g.update_train_animation(200_000);
    assert_eq!(g.train_anim_frame, 0);
    g.toggle_train();
    g.update_train_animation(100_000);
    assert_eq!(g.train_anim_frame, 0);
    assert_eq!(g.train_anim_timer, 100_000);
    g.update_train_animation(60_000);
    assert_eq!(g.train_anim_frame, 1);
    assert_eq!(g.train_anim_timer, 0);
}

#[test]
fn help_shows_once_then_on_request() {
    let mut g = GameState::new();
    g.update_help_message(false);
    assert_eq!(g.message, Some(Message::Help));
    g.update_message_dismissal(false);
    assert_eq!(g.message, Some(Message::Help));
    g.update_message_dismissal(true);
    g.update_help_message(false);
    assert_eq!(g.message, None);
    g.update_help_message(true);
    assert_eq!(g.message, Some(Message::Help));
}

#[test]
fn travel_requires_a_full_centre() {
    let mut g = GameState::new();
    g.travel_to_level(1);
    assert_eq!(g.level_active, 0);
    assert_eq!(g.message, Some(Message::FillRecyclingCenter));
    g.skip_level_requirements = true;
    assert!(g.place_track(c(1, 1), TileType::TrackHorizontal));
    g.travel_to_level(1);
    assert_eq!(g.level_active, 1);
    assert!(g.visited_levels[1]);
    assert_eq!(g.get_track_count(TileType::TrackHorizontal), 10);
    assert_eq!(g.train_tile_pos, c(10, 2));
    assert_eq!(g.train_state, TrainState::Stopped);
    assert!(g.place_track(c(1, 1), TileType::TrackHorizontal));
    g.travel_to_level(0);
    assert_eq!(g.level_active, 0);
    assert_eq!(g.get_track_count(TileType::TrackHorizontal), 9);
}

#[test]
fn jump_resets_the_stock() {
    let mut g = GameState::new();
    assert!(g.place_track(c(1, 1), TileType::TrackHorizontal));
    g.jump_to_level(8);
    assert_eq!(g.level_active, 8);
    assert_eq!(g.get_track_count(TileType::TrackHorizontal), 10);
    assert_eq!(g.train_tile_pos, c(-1, 2));
    assert_eq!(g.train_direction, TrainDirection::Right);
    g.jump_to_level(9);
    assert_eq!(g.level_active, 8);
}

#[test]
fn second_reset_changes_nothing() {
    let mut levels = rooms();
    levels[0].set(c(2, 1), TileType::GarbagePickupEmpty);
    levels[0].set(c(2, 3), TileType::GarbageDropoffFull2);
    let mut g = running(levels, c(2, 2));
    g.garbage_held = 1;
    g.reset_level();
    let held = g.garbage_held;
    let tiles: Vec<Option<TileType>> = (0..6).flat_map(|y| (0..6).map(move |x| (x, y)))
        .map(|(x, y)| g.current_level().get(c(x, y)))
        .collect();
    g.reset_level();
    assert_eq!(g.garbage_held, held);
    let again: Vec<Option<TileType>> = (0..6).flat_map(|y| (0..6).map(move |x| (x, y)))
        .map(|(x, y)| g.current_level().get(c(x, y)))
        .collect();
    assert_eq!(tiles, again);
}
