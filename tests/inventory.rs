use garbage_train::game_state::GameState;
use garbage_train::level::Level;
use garbage_train::tile::{Coord, TileType};

fn c(x: i32, y: i32) -> Coord {
    Coord { x, y }
}

fn game() -> GameState {
    let levels: Vec<Level> = (0..9).map(|_| Level::new("room", c(5, 5), c(-1, 0))).collect();
    GameState::with_levels(levels)
}

#[test]
fn new_game_has_standard_stock() {
    let g = GameState::new();
    assert_eq!(g.get_track_count(TileType::TrackHorizontal), 10);
    assert_eq!(g.get_track_count(TileType::TrackVertical), 10);
    assert_eq!(g.get_track_count(TileType::TrackCornerUL), 5);
    assert_eq!(g.get_track_count(TileType::TrackCornerUR), 5);
    assert_eq!(g.get_track_count(TileType::TrackCornerDL), 5);
    assert_eq!(g.get_track_count(TileType::TrackCornerDR), 5);
    assert_eq!(g.get_track_count(TileType::Rock1), 0);
}

#[test]
fn placing_takes_a_piece_and_removing_gives_it_back() {
    let mut g = game();
    assert!(g.place_track(c(1, 1), TileType::TrackVertical));
    assert_eq!(g.get_track_count(TileType::TrackVertical), 9);
    assert_eq!(g.current_level().get(c(1, 1)), Some(TileType::TrackVertical));
    assert_eq!(g.remove_track(c(1, 1)), Some(TileType::TrackVertical));
    assert_eq!(g.get_track_count(TileType::TrackVertical), 10);
    assert_eq!(g.current_level().get(c(1, 1)), None);
}

#[test]
fn placing_over_a_piece_refunds_it() {
    let mut g = game();
    assert!(g.place_track(c(2, 2), TileType::TrackHorizontal));
    assert!(g.place_track(c(2, 2), TileType::TrackCornerDR));
    assert_eq!(g.get_track_count(TileType::TrackHorizontal), 10);
    assert_eq!(g.get_track_count(TileType::TrackCornerDR), 4);
    assert_eq!(g.current_level().get(c(2, 2)), Some(TileType::TrackCornerDR));
}

#[test]
fn stock_never_goes_negative() {
    let mut g = game();
    for x in 0..5 {
        assert!(g.place_track(c(x, 0), TileType::TrackCornerUL));
    }
    assert_eq!(g.get_track_count(TileType::TrackCornerUL), 0);
    assert!(!g.place_track(c(0, 1), TileType::TrackCornerUL));
    assert_eq!(g.get_track_count(TileType::TrackCornerUL), 0);
    assert_eq!(g.current_level().get(c(0, 1)), None);
    g.decrement_track_count(TileType::TrackCornerUL);
    assert_eq!(g.get_track_count(TileType::TrackCornerUL), 0);
}

#[test]
fn permanent_tiles_are_never_replaced_or_removed() {
    let mut levels: Vec<Level> = (0..9).map(|_| Level::new("room", c(5, 5), c(-1, 0))).collect();
    levels[0].set(c(1, 1), TileType::House1);
    levels[0].set(c(2, 2), TileType::GarbagePickupFull);
    levels[0].set(c(5, 2), TileType::TunnelRightClosed);
    let mut g = GameState::with_levels(levels);
    for pos in [c(1, 1), c(2, 2), c(5, 2)] {
        let before = g.current_level().get(pos);
        assert!(!g.place_track(pos, TileType::TrackHorizontal));
        assert_eq!(g.remove_track(pos), None);
        assert_eq!(g.current_level().get(pos), before);
    }
    assert_eq!(g.get_track_count(TileType::TrackHorizontal), 10);
}

#[test]
fn removing_an_empty_cell_does_nothing() {
    let mut g = game();
    assert_eq!(g.remove_track(c(3, 3)), None);
    assert_eq!(g.get_track_count(TileType::TrackHorizontal), 10);
}

#[test]
fn placement_off_the_grid_does_nothing() {
    let mut g = game();
    assert!(!g.place_track(c(9, 9), TileType::TrackHorizontal));
    assert_eq!(g.get_track_count(TileType::TrackHorizontal), 10);
}

#[test]
fn inventory_is_conserved_over_a_sequence() {
    let mut g = game();
    let shapes = [
        TileType::TrackHorizontal,
        TileType::TrackVertical,
        TileType::TrackCornerUL,
        TileType::TrackCornerUR,
        TileType::TrackCornerDL,
        TileType::TrackCornerDR,
    ];
    let mut placed = [0i32; 6];
    let mut removed = [0i32; 6];
    for step in 0..40i32 {
        let k = (step % 6) as usize;
        let pos = c(step % 5, (step / 5) % 5);
        if step % 3 == 2 {
            if let Some(t) = g.remove_track(pos) {
                let j = shapes.iter().position(|s| *s == t).unwrap();
                removed[j] += 1;
            }
        } else {
            let before = g.current_level().get(pos);
            if g.place_track(pos, shapes[k]) {
                placed[k] += 1;
                if let Some(t) = before {
                    let j = shapes.iter().position(|s| *s == t).unwrap();
                    removed[j] += 1;
                }
            }
        }
    }
    let initial = [10, 10, 5, 5, 5, 5];
    for j in 0..6 {
        let now = g.get_track_count(shapes[j]);
        assert!(now >= 0);
        assert_eq!(placed[j] - removed[j], initial[j] - now);
    }
}

#[test]
fn placement_input_uses_the_selection() {
    let mut g = game();
    g.update_tile_placement(Some(c(1, 1)));
    assert_eq!(g.current_level().get(c(1, 1)), None);
    g.toggle_selected_tile(TileType::TrackCornerUR);
    assert_eq!(g.selected_tile, Some(TileType::TrackCornerUR));
    g.update_tile_placement(None);
    assert_eq!(g.current_level().get(c(1, 1)), None);
    for x in 0..5 {
        g.update_tile_placement(Some(c(x, 1)));
    }
    assert_eq!(g.get_track_count(TileType::TrackCornerUR), 0);
    assert_eq!(g.selected_tile, None);
    g.toggle_selected_tile(TileType::TrackCornerUR);
    assert_eq!(g.selected_tile, None);
}

#[test]
fn removal_input_selects_the_removed_shape() {
    let mut g = game();
    assert!(g.place_track(c(4, 4), TileType::TrackCornerDL));
    g.update_tile_removal(Some(c(4, 4)));
    assert_eq!(g.selected_tile, Some(TileType::TrackCornerDL));
    assert_eq!(g.get_track_count(TileType::TrackCornerDL), 5);
    g.toggle_selected_tile(TileType::TrackCornerDL);
    assert_eq!(g.selected_tile, None);
}

#[test]
fn increment_and_decrement_move_one_piece() {
    let mut g = game();
    g.increment_track_count(TileType::TrackVertical);
    assert_eq!(g.get_track_count(TileType::TrackVertical), 11);
    g.decrement_track_count(TileType::TrackVertical);
    g.decrement_track_count(TileType::TrackVertical);
    assert_eq!(g.get_track_count(TileType::TrackVertical), 9);
    g.increment_track_count(TileType::House2);
    assert_eq!(g.get_track_count(TileType::House2), 0);
}
