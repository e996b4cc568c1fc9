use dungeon_diver::game_data::GameData;
use dungeon_diver::maze_scene::{EntityKind, MapData, MapEntity, MazeScene};
use dungeon_diver::menu_scene::{MenuScene, PauseScene, TitleScene, WinScene};
use dungeon_diver::scenes::{InputState, Scene, SceneManager, SceneSwitch};
use dungeon_diver::utils::{check_collision_point_rect, PixelRect};

fn stage_map() -> MapData {
    let tiles = vec![
        vec![4, 4, 4],
        vec![4, 4, 4],
        vec![4, 4, 4],
    ];
    let entities = vec![
        MapEntity { kind: EntityKind::Player, x: 1, y: 1 },
        MapEntity { kind: EntityKind::Goal, x: 2, y: 2 },
    ];
    MapData { grid_w: 3, grid_h: 3, tile_size_px: 32, tiles, entities }
}

fn click_at(x: i32, y: i32) -> InputState {
    let mut i = InputState::idle();
    i.mouse_pressed = true;
    i.mouse_x = x;
    i.mouse_y = y;
    i
}

#[test]
fn point_rect_collision_includes_borders() {
    let r = PixelRect { x: 10, y: 20, width: 100, height: 50 };
    assert!(check_collision_point_rect(10, 20, &r));
    assert!(check_collision_point_rect(110, 70, &r));
    assert!(check_collision_point_rect(60, 40, &r));
    assert!(!check_collision_point_rect(9, 40, &r));
    assert!(!check_collision_point_rect(111, 40, &r));
    assert!(!check_collision_point_rect(60, 71, &r));
}

#[test]
fn title_click_opens_menu() {
    let t = TitleScene { stage_map: stage_map() };
    let sw = t.handle_input(&click_at(600, 700));
    assert!(matches!(sw, SceneSwitch::Push(Scene::Menu(_))));
    let sw = t.handle_input(&click_at(10, 10));
    assert!(matches!(sw, SceneSwitch::Stay));
    let sw = t.handle_input(&InputState::idle());
    assert!(matches!(sw, SceneSwitch::Stay));
}

#[test]
fn menu_click_starts_maze() {
    let m = MenuScene { stage_map: stage_map() };
    let sw = m.handle_input(&click_at(250, 220));
    match sw {
        SceneSwitch::Push(Scene::Maze(maze)) => {
            assert_eq!(maze.map.grid_w, 3);
            assert_eq!(maze.map.entities.len(), 2);
            assert_eq!((maze.player_x, maze.player_y), (0, 0));
        },
        _ => panic!("expected a maze push"),
    }
    assert!(matches!(m.handle_input(&click_at(500, 500)), SceneSwitch::Stay));
}

#[test]
fn win_click_pops() {
    let w = WinScene;
    assert!(matches!(w.handle_input(&click_at(250, 250)), SceneSwitch::Pop));
    assert!(matches!(w.handle_input(&click_at(0, 0)), SceneSwitch::Stay));
}

#[test]
fn pause_key_pops_pause_scene() {
    let p = PauseScene;
    let mut i = InputState::idle();
    i.pause_pressed = true;
    assert!(matches!(p.handle_input(&i), SceneSwitch::Pop));
    assert!(matches!(p.handle_input(&InputState::idle()), SceneSwitch::Stay));
}

#[test]
fn manager_enters_initial_scene() {
    let mut d = GameData::new(640, 480);
    let maze = MazeScene::from_map(stage_map());
    let mgr = SceneManager::new(Scene::Maze(maze), 42, &mut d);
    assert!(!mgr.should_quit());
    // Entering the maze placed the player and started the timer.
    assert_eq!(d.level_start_micros, Some(42));
    match mgr.top() {
        Some(Scene::Maze(m)) => assert_eq!((m.player_x, m.player_y), (1, 1)),
        _ => panic!("expected the maze on top"),
    }
}

#[test]
fn push_then_pop_restores_prior_scene() {
    // A pushed pause scene popped again leaves the suspended maze exactly
    // as it was, without re-entering it (the level timer keeps its old
    // start time).
    let mut d = GameData::new(640, 480);
    let maze = MazeScene::from_map(stage_map());
    let mut mgr = SceneManager::new(Scene::Maze(maze), 1000, &mut d);
    assert_eq!(d.level_start_micros, Some(1000));

    mgr.apply_switch(SceneSwitch::Push(Scene::Pause(PauseScene)), 2000, &mut d);
    assert!(matches!(mgr.top(), Some(Scene::Pause(_))));
    assert_eq!(d.level_start_micros, Some(1000)); // pause entry is a no-op

    mgr.apply_switch(SceneSwitch::Pop, 3000, &mut d);
    assert!(!mgr.should_quit());
    assert_eq!(d.level_start_micros, Some(1000)); // maze was not re-entered
    match mgr.top() {
        Some(Scene::Maze(m)) => assert_eq!((m.player_x, m.player_y), (1, 1)),
        _ => panic!("expected the maze back on top"),
    }
}

#[test]
fn popping_to_empty_stack_terminates() {
    let mut d = GameData::new(640, 480);
    let mut mgr = SceneManager::new(Scene::Win(WinScene), 0, &mut d);
    assert!(!mgr.should_quit());
    mgr.apply_switch(SceneSwitch::Pop, 0, &mut d);
    assert!(mgr.should_quit());
    // A further pop on the empty stack is legal and changes nothing.
    mgr.apply_switch(SceneSwitch::Pop, 0, &mut d);
    assert!(mgr.should_quit());
}

#[test]
fn quit_switch_sets_flag() {
    let mut d = GameData::new(640, 480);
    let mut mgr = SceneManager::new(Scene::Title(TitleScene { stage_map: stage_map() }), 0, &mut d);
    mgr.apply_switch(SceneSwitch::Quit, 0, &mut d);
    assert!(mgr.should_quit());
}

#[test]
fn replace_swaps_active_scene() {
    let mut d = GameData::new(640, 480);
    let mut mgr = SceneManager::new(Scene::Pause(PauseScene), 0, &mut d);
    mgr.apply_switch(SceneSwitch::Replace(Scene::Win(WinScene)), 0, &mut d);
    assert!(matches!(mgr.top(), Some(Scene::Win(_))));
    assert!(!mgr.should_quit());
}

#[test]
fn frame_update_drives_active_scene() {
    // One frame on a title stack: a click on the start button pushes the
    // menu during the input phase; the update phase then runs on the menu.
    let mut d = GameData::new(1280, 960);
    let mut mgr = SceneManager::new(Scene::Title(TitleScene { stage_map: stage_map() }), 0, &mut d);
    mgr.update(&click_at(600, 700), 16_000, 100, &mut d);
    assert!(matches!(mgr.top(), Some(Scene::Menu(_))));
    assert!(!mgr.should_quit());
}

#[test]
fn full_session_reaches_the_win_screen() {
    let mut d = GameData::new(640, 480);
    let menu = MenuScene { stage_map: stage_map() };
    let mut mgr = SceneManager::new(Scene::Menu(menu), 0, &mut d);

    // Click the stage button: the maze is pushed and entered.
    mgr.update(&click_at(250, 220), 0, 10, &mut d);
    match mgr.top() {
        Some(Scene::Maze(m)) => assert_eq!((m.player_x, m.player_y), (1, 1)),
        _ => panic!("expected the maze on top"),
    }
    assert_eq!(d.level_start_micros, Some(10));

    // Hold right, let a tick pass: the player steps to (2,1).
    let mut right = InputState::idle();
    right.right_held = true;
    mgr.update(&right, 150_000, 20, &mut d);
    // Hold down, let a tick pass: the player steps to (2,2), where the
    // goal sits; the same frame's update scores and swaps in the win
    // screen.
    let mut down = InputState::idle();
    down.down_held = true;
    mgr.update(&down, 150_000, 30, &mut d);

    assert!(matches!(mgr.top(), Some(Scene::Win(_))));
    assert_eq!(d.points, 1);
    assert_eq!(d.level_completion_micros, Some(30));
    assert_eq!(d.get_elapsed_time(), Some(20));
    assert!(!mgr.should_quit());

    // Clicking the win screen pops it, leaving the menu to resume.
    mgr.update(&click_at(250, 250), 0, 40, &mut d);
    assert!(matches!(mgr.top(), Some(Scene::Menu(_))));
}
