use dungeon_diver::game_data::GameData;
use dungeon_diver::maze_scene::{
    clone_map, EntityKind, MapData, MapEntity, MazeScene, FOV_RADIUS_TILES, TICK_PERIOD_MICROS,
};
use dungeon_diver::scenes::{InputState, SceneSwitch};

fn open_map(w: usize, h: usize) -> MapData {
    let mut tiles = Vec::new();
    for _ in 0..h {
        let mut row = Vec::new();
        for _ in 0..w {
            row.push(4);
        }
        tiles.push(row);
    }
    MapData { grid_w: w, grid_h: h, tile_size_px: 32, tiles, entities: Vec::new() }
}

fn walled_map() -> MapData {
    // 3x3: a wall in the middle, a hole (no tile) at (1,2), an
    // unclassified-but-walkable id at (2,2).
    let tiles = vec![
        vec![4, 4, 4],
        vec![4, 88, 4],
        vec![4, -1, 85],
    ];
    MapData { grid_w: 3, grid_h: 3, tile_size_px: 32, tiles, entities: Vec::new() }
}

#[test]
fn well_formedness_checks_shape() {
    assert!(walled_map().is_well_formed());
    let mut ragged = walled_map();
    ragged.tiles[1].pop();
    assert!(!ragged.is_well_formed());
    let mut oob_entity = walled_map();
    oob_entity.entities.push(MapEntity { kind: EntityKind::Goal, x: 3, y: 0 });
    assert!(!oob_entity.is_well_formed());
    let mut empty = walled_map();
    empty.grid_w = 0;
    assert!(!empty.is_well_formed());
}

#[test]
fn clone_map_copies_everything() {
    let mut m = walled_map();
    m.entities.push(MapEntity { kind: EntityKind::Tank, x: 2, y: 1 });
    let c = clone_map(&m);
    assert_eq!(c.grid_w, m.grid_w);
    assert_eq!(c.grid_h, m.grid_h);
    assert_eq!(c.tile_size_px, m.tile_size_px);
    assert_eq!(c.tiles, m.tiles);
    assert_eq!(c.entities.len(), 1);
    assert!(c.entities[0] == m.entities[0]);
}

#[test]
fn from_map_defaults() {
    let m = MazeScene::from_map(walled_map());
    assert_eq!(m.tile_size, 32);
    assert_eq!((m.player_x, m.player_y), (0, 0));
    assert_eq!(m.fov_radius, FOV_RADIUS_TILES);
    assert_eq!(m.tick_timer, 0);
    assert!(m.queued_move.is_none());
}

#[test]
fn valid_move_classification() {
    let m = MazeScene::from_map(walled_map());
    assert!(m.is_valid_move(0, 0)); // floor
    assert!(!m.is_valid_move(1, 1)); // wall
    assert!(!m.is_valid_move(1, 2)); // negative id: no tile
    assert!(m.is_valid_move(2, 2)); // unclassified id 85 is walkable
    assert!(!m.is_valid_move(3, 0)); // out of bounds
    assert!(!m.is_valid_move(0, 3)); // out of bounds
}

#[test]
fn fov_boundary_squared_distance() {
    let mut m = MazeScene::from_map(open_map(20, 20));
    m.player_x = 8;
    m.player_y = 8;
    // Exactly the radius: distance^2 == 49 == radius^2 is inside.
    assert!(m.in_fov(15, 8));
    assert!(m.in_fov(8, 1));
    // One step past the squared threshold is outside: 7^2 + 1^2 = 50 > 49.
    assert!(!m.in_fov(15, 9));
    assert!(!m.in_fov(16, 8));
    // Out of the grid is never visible.
    assert!(!m.in_fov(25, 8));
}

#[test]
fn visible_bounds_clamp_to_grid() {
    let mut m = MazeScene::from_map(open_map(20, 20));
    m.player_x = 2;
    m.player_y = 18;
    let (min_x, max_x, min_y, max_y) = m.get_visible_bounds();
    assert_eq!(min_x, 0); // 2 - 7 clamps to 0
    assert_eq!(max_x, 10); // 2 + 7 + 1
    assert_eq!(min_y, 11); // 18 - 7
    assert_eq!(max_y, 20); // 18 + 7 + 1 clamps to 20
}

#[test]
fn tile_src_rect_slices_row_major() {
    let r = MazeScene::tile_src_rect(5, 32, 128); // 4 columns
    assert_eq!((r.x, r.y, r.width, r.height), (32, 32, 32, 32));
    let r0 = MazeScene::tile_src_rect(0, 32, 128);
    assert_eq!((r0.x, r0.y), (0, 0));
}

fn held(right: bool, left: bool, down: bool, up: bool) -> InputState {
    let mut i = InputState::idle();
    i.right_held = right;
    i.left_held = left;
    i.down_held = down;
    i.up_held = up;
    i
}

#[test]
fn input_queues_a_move() {
    let mut m = MazeScene::from_map(open_map(5, 5));
    m.player_x = 2;
    m.player_y = 2;
    let sw = m.handle_input(&held(true, false, false, false));
    assert!(matches!(sw, SceneSwitch::Stay));
    assert_eq!(m.queued_move, Some((3, 2)));
}

#[test]
fn input_clamps_at_grid_edge() {
    let mut m = MazeScene::from_map(open_map(5, 5));
    m.player_x = 4;
    m.player_y = 0;
    // Right and up both clamp: the target equals the player cell, so
    // nothing is queued.
    m.handle_input(&held(true, false, false, true));
    assert!(m.queued_move.is_none());
}

#[test]
fn queued_move_is_not_replaced() {
    // While a move is queued, later frames of input are dropped.
    let mut m = MazeScene::from_map(open_map(5, 5));
    m.player_x = 2;
    m.player_y = 2;
    m.handle_input(&held(true, false, false, false));
    assert_eq!(m.queued_move, Some((3, 2)));
    m.handle_input(&held(false, true, false, false));
    m.handle_input(&held(false, false, true, false));
    assert_eq!(m.queued_move, Some((3, 2)));
}

#[test]
fn gamepad_deadzone_is_strict() {
    let mut m = MazeScene::from_map(open_map(5, 5));
    m.player_x = 2;
    m.player_y = 2;
    let mut i = InputState::idle();
    i.gamepad_available = true;
    i.axis_x = 500; // exactly the deadzone: ignored
    m.handle_input(&i);
    assert!(m.queued_move.is_none());
    i.axis_x = 501;
    m.handle_input(&i);
    assert_eq!(m.queued_move, Some((3, 2)));
}

#[test]
fn gamepad_stronger_axis_wins() {
    let mut m = MazeScene::from_map(open_map(5, 5));
    m.player_x = 2;
    m.player_y = 2;
    let mut i = InputState::idle();
    i.gamepad_available = true;
    i.axis_x = 700;
    i.axis_y = -600;
    m.handle_input(&i);
    assert_eq!(m.queued_move, Some((3, 2)));
}

#[test]
fn gamepad_tie_moves_diagonally() {
    let mut m = MazeScene::from_map(open_map(5, 5));
    m.player_x = 2;
    m.player_y = 2;
    let mut i = InputState::idle();
    i.gamepad_available = true;
    i.axis_x = 600;
    i.axis_y = 600;
    m.handle_input(&i);
    assert_eq!(m.queued_move, Some((3, 3)));
}

#[test]
fn pause_key_pushes_pause_scene() {
    let mut m = MazeScene::from_map(open_map(5, 5));
    let mut i = InputState::idle();
    i.pause_pressed = true;
    let sw = m.handle_input(&i);
    assert!(matches!(sw, SceneSwitch::Push(dungeon_diver::scenes::Scene::Pause(_))));
}

#[test]
fn tick_applies_valid_queued_move() {
    let mut m = MazeScene::from_map(open_map(5, 5));
    let mut d = GameData::new(320, 240);
    m.player_x = 2;
    m.player_y = 2;
    m.queued_move = Some((3, 2));
    let sw = m.update(TICK_PERIOD_MICROS, 0, &mut d);
    assert!(matches!(sw, SceneSwitch::Stay));
    assert_eq!((m.player_x, m.player_y), (3, 2));
    assert!(m.queued_move.is_none());
    assert_eq!(m.tick_timer, 0);
}

#[test]
fn tick_drops_invalid_queued_move() {
    let mut m = MazeScene::from_map(walled_map());
    let mut d = GameData::new(320, 240);
    m.player_x = 1;
    m.player_y = 0;
    m.queued_move = Some((1, 1)); // wall
    m.update(TICK_PERIOD_MICROS, 0, &mut d);
    assert_eq!((m.player_x, m.player_y), (1, 0)); // unchanged
    assert!(m.queued_move.is_none()); // consumed anyway
}

#[test]
fn move_waits_for_tick() {
    let mut m = MazeScene::from_map(open_map(5, 5));
    let mut d = GameData::new(320, 240);
    m.player_x = 2;
    m.player_y = 2;
    m.queued_move = Some((3, 2));
    m.update(TICK_PERIOD_MICROS - 1, 0, &mut d);
    assert_eq!((m.player_x, m.player_y), (2, 2));
    assert_eq!(m.queued_move, Some((3, 2)));
    assert_eq!(m.tick_timer, TICK_PERIOD_MICROS - 1);
}

#[test]
fn split_deltas_fire_exactly_one_tick() {
    // One tick period split three ways behaves exactly like one delta of
    // the full period: one tick fires, the move is applied once.
    let mut split = MazeScene::from_map(open_map(5, 5));
    let mut d = GameData::new(320, 240);
    split.player_x = 2;
    split.player_y = 2;
    split.queued_move = Some((3, 2));
    let third = TICK_PERIOD_MICROS / 3;
    split.update(third, 0, &mut d);
    split.update(third, 0, &mut d);
    split.update(TICK_PERIOD_MICROS - 2 * third, 0, &mut d);

    let mut whole = MazeScene::from_map(open_map(5, 5));
    whole.player_x = 2;
    whole.player_y = 2;
    whole.queued_move = Some((3, 2));
    whole.update(TICK_PERIOD_MICROS, 0, &mut d);

    assert_eq!((split.player_x, split.player_y), (3, 2));
    assert_eq!((whole.player_x, whole.player_y), (3, 2));
    assert_eq!(split.tick_timer, 0);
    assert_eq!(whole.tick_timer, 0);
    assert!(split.queued_move.is_none());
    assert!(whole.queued_move.is_none());
}

#[test]
fn camera_centers_on_player() {
    let mut m = MazeScene::from_map(open_map(10, 10));
    let mut d = GameData::new(640, 480);
    m.player_x = 3;
    m.player_y = 4;
    m.update(0, 0, &mut d);
    assert_eq!(m.cam_target_x, 3 * 32 + 16);
    assert_eq!(m.cam_target_y, 4 * 32 + 16);
    assert_eq!(m.cam_offset_x, 320);
    assert_eq!(m.cam_offset_y, 240);
}

#[test]
fn goal_on_player_scores_and_wins() {
    // Player at (5,5) on a 10x10 grid with the goal at (5,5): the next
    // update scores one point and asks to replace the maze with the win
    // screen.
    let mut map = open_map(10, 10);
    map.entities.push(MapEntity { kind: EntityKind::Player, x: 5, y: 5 });
    map.entities.push(MapEntity { kind: EntityKind::Goal, x: 5, y: 5 });
    let mut m = MazeScene::from_map(map);
    let mut d = GameData::new(640, 480);
    m.on_enter(1000, &mut d);
    assert_eq!((m.player_x, m.player_y), (5, 5));
    let sw = m.update(1, 5000, &mut d);
    assert!(matches!(sw, SceneSwitch::Replace(dungeon_diver::scenes::Scene::Win(_))));
    assert_eq!(d.points, 1);
    assert_eq!(d.level_completion_micros, Some(5000));
    assert_eq!(d.get_elapsed_time(), Some(4000));
}

#[test]
fn enter_places_player_and_filters_entities() {
    let mut map = walled_map();
    map.entities.push(MapEntity { kind: EntityKind::Tank, x: 2, y: 1 });
    map.entities.push(MapEntity { kind: EntityKind::Player, x: 2, y: 0 });
    map.entities.push(MapEntity { kind: EntityKind::Player, x: 0, y: 2 });
    let mut m = MazeScene::from_map(map);
    let mut d = GameData::new(640, 480);
    m.on_enter(777, &mut d);
    // First player entity wins; both player entities are filtered out.
    assert_eq!((m.player_x, m.player_y), (2, 0));
    assert_eq!(m.map.entities.len(), 1);
    assert!(m.map.entities[0].kind == EntityKind::Tank);
    // The map's tile size is adopted and the level timer started.
    assert_eq!(m.tile_size, 32);
    assert_eq!(d.level_start_micros, Some(777));
    assert!(d.level_completion_micros.is_none());
}

#[test]
fn enter_falls_back_to_first_walkable_tile() {
    let tiles = vec![
        vec![-1, 88, -1],
        vec![88, 4, 4],
    ];
    let map = MapData { grid_w: 3, grid_h: 2, tile_size_px: 16, tiles, entities: Vec::new() };
    let mut m = MazeScene::from_map(map);
    let mut d = GameData::new(640, 480);
    m.on_enter(0, &mut d);
    assert_eq!((m.player_x, m.player_y), (1, 1));
    assert_eq!(m.tile_size, 16);
}
