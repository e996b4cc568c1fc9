//! The menu-style scenes: title, stage menu, win screen and pause screen.
//!
//! These scenes react to clicks on fixed screen regions (or to the pause
//! key) and otherwise do nothing per frame. The title and menu scenes
//! carry the stage's already-loaded map, so that starting the stage needs
//! no further loading.

use vstd::prelude::*;
use crate::maze_scene::{MapData, MapDataView, MazeScene, map_wf, maze_init, clone_map};
use crate::scenes::{InputState, Scene, SceneSwitch, SceneV, SwitchV, switch_wf};
use crate::utils::{PixelRect, point_in_rect, check_collision_point_rect};

verus! {

/// The click region of the title screen's start button.
pub open spec fn title_start_button() -> PixelRect {
    PixelRect { x: 490, y: 645, width: 300, height: 150 }
}

/// The click region of the menu's stage button.
pub open spec fn menu_stage_button() -> PixelRect {
    PixelRect { x: 200, y: 200, width: 150, height: 50 }
}

/// The click region of the win screen's quit button.
pub open spec fn win_quit_button() -> PixelRect {
    PixelRect { x: 200, y: 200, width: 300, height: 150 }
}

/// Whether this frame clicks inside the given region.
pub open spec fn clicked_in(input: InputState, r: PixelRect) -> bool {
    input.mouse_pressed && point_in_rect(input.mouse_x as int, input.mouse_y as int, r)
}

/// A start screen: a click on the start button opens the stage menu.
pub struct TitleScene {
    pub stage_map: MapData,
}

/// The title screen pushes the stage menu on a start-button click.
pub open spec fn title_input_switch(stage: MapDataView, input: InputState) -> SwitchV {
    if clicked_in(input, title_start_button()) {
        SwitchV::Push(SceneV::Menu(stage))
    } else {
        SwitchV::Stay
    }
}

impl TitleScene {
    pub fn handle_input(&self, input: &InputState) -> (sw: SceneSwitch)
        requires
            map_wf(self.stage_map@),
        ensures
            sw@ == title_input_switch(self.stage_map@, *input),
            switch_wf(sw@),
    {
        if input.mouse_pressed {
            let button_rect = PixelRect { x: 490, y: 645, width: 300, height: 150 };
            if check_collision_point_rect(input.mouse_x, input.mouse_y, &button_rect) {
                return SceneSwitch::Push(Scene::Menu(MenuScene {
                    stage_map: clone_map(&self.stage_map),
                }));
            }
        }
        SceneSwitch::Stay
    }
}

/// A stage-select menu: a click on the stage button starts the maze.
pub struct MenuScene {
    pub stage_map: MapData,
}

/// The menu pushes a freshly constructed maze scene on a stage click.
pub open spec fn menu_input_switch(stage: MapDataView, input: InputState) -> SwitchV {
    if clicked_in(input, menu_stage_button()) {
        SwitchV::Push(SceneV::Maze(maze_init(stage)))
    } else {
        SwitchV::Stay
    }
}

impl MenuScene {
    pub fn handle_input(&self, input: &InputState) -> (sw: SceneSwitch)
        requires
            map_wf(self.stage_map@),
        ensures
            sw@ == menu_input_switch(self.stage_map@, *input),
            switch_wf(sw@),
    {
        if input.mouse_pressed {
            let rectangle = PixelRect { x: 200, y: 200, width: 150, height: 50 };
            if check_collision_point_rect(input.mouse_x, input.mouse_y, &rectangle) {
                return SceneSwitch::Push(Scene::Maze(MazeScene::from_map(clone_map(
                    &self.stage_map,
                ))));
            }
        }
        SceneSwitch::Stay
    }
}

/// A win screen. A click on its button pops the scene; popping (rather
/// than quitting outright) is the chosen policy, returning to the scene
/// beneath.
pub struct WinScene;

/// The win screen pops itself on a button click.
pub open spec fn win_input_switch(input: InputState) -> SwitchV {
    if clicked_in(input, win_quit_button()) {
        SwitchV::Pop
    } else {
        SwitchV::Stay
    }
}

impl WinScene {
    pub fn handle_input(&self, input: &InputState) -> (sw: SceneSwitch)
        ensures
            sw@ == win_input_switch(*input),
            switch_wf(sw@),
    {
        if input.mouse_pressed {
            let rectangle = PixelRect { x: 200, y: 200, width: 300, height: 150 };
            if check_collision_point_rect(input.mouse_x, input.mouse_y, &rectangle) {
                return SceneSwitch::Pop;
            }
        }
        SceneSwitch::Stay
    }
}

/// A pause screen: the resume key pops it, returning to the suspended
/// scene beneath.
pub struct PauseScene;

/// The pause screen pops itself when the pause/resume key is pressed.
pub open spec fn pause_input_switch(input: InputState) -> SwitchV {
    if input.pause_pressed {
        SwitchV::Pop
    } else {
        SwitchV::Stay
    }
}

impl PauseScene {
    pub fn handle_input(&self, input: &InputState) -> (sw: SceneSwitch)
        ensures
            sw@ == pause_input_switch(*input),
            switch_wf(sw@),
    {
        if input.pause_pressed {
            return SceneSwitch::Pop;
        }
        SceneSwitch::Stay
    }
}

} // verus!
