use dungeon_diver::{is_floor_tile, is_wall_tile};
use dungeon_diver::game_data::GameData;

#[test]
fn floor_tile_ranges() {
    assert!(is_floor_tile(4));
    assert!(is_floor_tile(50));
    assert!(is_floor_tile(81));
    assert!(is_floor_tile(191));
    assert!(is_floor_tile(218));
    assert!(!is_floor_tile(3));
    assert!(!is_floor_tile(82));
    assert!(!is_floor_tile(190));
    assert!(!is_floor_tile(219));
    assert!(!is_floor_tile(-1));
}

#[test]
fn wall_tile_ranges() {
    assert!(is_wall_tile(88));
    assert!(is_wall_tile(120));
    assert!(is_wall_tile(190));
    assert!(!is_wall_tile(87));
    assert!(!is_wall_tile(191));
    assert!(!is_wall_tile(0));
    assert!(!is_wall_tile(-5));
}

#[test]
fn floor_and_wall_are_disjoint() {
    for t in -10..300 {
        assert!(!(is_floor_tile(t) && is_wall_tile(t)), "tile id {} in both classes", t);
    }
}

#[test]
fn new_game_data_starts_clean() {
    let d = GameData::new(640, 480);
    assert_eq!(d.points, 0);
    assert_eq!(d.screen_width, 640);
    assert_eq!(d.screen_height, 480);
    assert!(d.level_start_micros.is_none());
    assert!(d.level_completion_micros.is_none());
    assert!(d.get_elapsed_time().is_none());
}

#[test]
fn score_adds_one_point() {
    let mut d = GameData::new(100, 100);
    d.score();
    d.score();
    assert_eq!(d.points, 2);
}

#[test]
fn elapsed_time_round_trip() {
    let mut d = GameData::new(100, 100);
    d.start_level_timer(100);
    assert!(d.get_elapsed_time().is_none());
    d.complete_level(350);
    assert_eq!(d.get_elapsed_time(), Some(250));
}

#[test]
fn restarting_timer_clears_completion() {
    let mut d = GameData::new(100, 100);
    d.start_level_timer(100);
    d.complete_level(350);
    d.start_level_timer(1000);
    assert!(d.level_completion_micros.is_none());
    assert!(d.get_elapsed_time().is_none());
    d.complete_level(1000);
    assert_eq!(d.get_elapsed_time(), Some(0));
}
