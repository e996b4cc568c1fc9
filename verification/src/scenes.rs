//! The scene protocol: one closed variant set of scenes, the control
//! signals a scene may return, and the manager that owns the scene stack
//! and drives the per-frame lifecycle.
//!
//! Each frame the manager asks the active scene for its reaction to the
//! collected input, applies the returned signal to the stack, then asks the
//! (possibly new) active scene to advance by the elapsed time and applies
//! that signal too. The two signals are honoured independently, in that
//! fixed order.

use vstd::prelude::*;
use crate::game_data::GameData;
use crate::maze_scene::{
    MazeScene, MazeView, MapDataView, maze_wf, map_wf, maze_after_input, maze_input_switch,
    maze_after_update, maze_update_data, maze_update_switch, entered_maze, TICK_PERIOD_MICROS,
};
use crate::menu_scene::{
    TitleScene, MenuScene, WinScene, PauseScene, title_input_switch, menu_input_switch,
    win_input_switch, pause_input_switch,
};

verus! {

/// One frame's worth of collected input, as plain values. The caller polls
/// the input devices and fills this in; the scenes only read it.
#[derive(Clone, Copy)]
pub struct InputState {
    /// Directional keys currently held (either arrow or letter binding).
    pub right_held: bool,
    pub left_held: bool,
    pub down_held: bool,
    pub up_held: bool,
    /// The pause/resume key went down this frame.
    pub pause_pressed: bool,
    /// The primary pointer button went down this frame, and where the
    /// pointer was.
    pub mouse_pressed: bool,
    pub mouse_x: i32,
    pub mouse_y: i32,
    /// Primary gamepad state: whether one is present, and the left stick
    /// deflection in thousandths of full deflection per axis.
    pub gamepad_available: bool,
    pub axis_x: i32,
    pub axis_y: i32,
}

impl InputState {
    /// Stick deflections lie in the unit range, scaled by a thousand.
    pub open spec fn wf(self) -> bool {
        &&& -1000 <= self.axis_x <= 1000
        &&& -1000 <= self.axis_y <= 1000
    }

    /// A frame on which nothing is pressed, held or deflected.
    pub fn idle() -> (r: InputState)
        ensures
            r == InputState::idle_spec(),
    {
        InputState {
            right_held: false,
            left_held: false,
            down_held: false,
            up_held: false,
            pause_pressed: false,
            mouse_pressed: false,
            mouse_x: 0,
            mouse_y: 0,
            gamepad_available: false,
            axis_x: 0,
            axis_y: 0,
        }
    }

    pub open spec fn idle_spec() -> InputState {
        InputState {
            right_held: false,
            left_held: false,
            down_held: false,
            up_held: false,
            pause_pressed: false,
            mouse_pressed: false,
            mouse_x: 0,
            mouse_y: 0,
            gamepad_available: false,
            axis_x: 0,
            axis_y: 0,
        }
    }
}

/// One mode/screen of the program.
pub enum Scene {
    Title(TitleScene),
    Menu(MenuScene),
    Maze(MazeScene),
    Pause(PauseScene),
    Win(WinScene),
}

/// The mathematical content of a scene.
#[verifier::ext_equal]
pub ghost enum SceneV {
    Title(MapDataView),
    Menu(MapDataView),
    Maze(MazeView),
    Pause,
    Win,
}

impl View for Scene {
    type V = SceneV;

    open spec fn view(&self) -> SceneV {
        match self {
            Scene::Title(t) => SceneV::Title(t.stage_map@),
            Scene::Menu(m) => SceneV::Menu(m.stage_map@),
            Scene::Maze(m) => SceneV::Maze(m@),
            Scene::Pause(_) => SceneV::Pause,
            Scene::Win(_) => SceneV::Win,
        }
    }
}

/// A well-formed scene: whatever map it carries is well formed.
pub open spec fn scene_wf(s: SceneV) -> bool {
    match s {
        SceneV::Title(stage) => map_wf(stage),
        SceneV::Menu(stage) => map_wf(stage),
        SceneV::Maze(m) => maze_wf(m),
        SceneV::Pause => true,
        SceneV::Win => true,
    }
}

/// The value a scene returns to request a stack transition.
pub enum SceneSwitch {
    /// No change.
    Stay,
    /// The new scene is entered and becomes active; the prior scene stays
    /// suspended beneath it.
    Push(Scene),
    /// The active scene is removed and the new one entered in its place.
    Replace(Scene),
    /// The active scene is removed; the scene beneath resumes without
    /// being re-entered.
    Pop,
    /// The program should terminate after the current frame.
    Quit,
}

/// The mathematical content of a control signal.
#[verifier::ext_equal]
pub ghost enum SwitchV {
    Stay,
    Push(SceneV),
    Replace(SceneV),
    Pop,
    Quit,
}

impl View for SceneSwitch {
    type V = SwitchV;

    open spec fn view(&self) -> SwitchV {
        match self {
            SceneSwitch::Stay => SwitchV::Stay,
            SceneSwitch::Push(s) => SwitchV::Push(s@),
            SceneSwitch::Replace(s) => SwitchV::Replace(s@),
            SceneSwitch::Pop => SwitchV::Pop,
            SceneSwitch::Quit => SwitchV::Quit,
        }
    }
}

/// A well-formed signal: whatever scene it carries is well formed.
pub open spec fn switch_wf(sw: SwitchV) -> bool {
    match sw {
        SwitchV::Push(s) => scene_wf(s),
        SwitchV::Replace(s) => scene_wf(s),
        _ => true,
    }
}

/// The scene after one frame of input: only the maze has per-frame input
/// state of its own.
pub open spec fn scene_after_input(s: SceneV, input: InputState) -> SceneV {
    match s {
        SceneV::Maze(m) => SceneV::Maze(maze_after_input(m, input)),
        _ => s,
    }
}

/// The signal a scene emits for one frame of input.
pub open spec fn scene_input_switch(s: SceneV, input: InputState) -> SwitchV {
    match s {
        SceneV::Title(stage) => title_input_switch(stage, input),
        SceneV::Menu(stage) => menu_input_switch(stage, input),
        SceneV::Maze(_) => maze_input_switch(input),
        SceneV::Pause => pause_input_switch(input),
        SceneV::Win => win_input_switch(input),
    }
}

/// The scene after advancing by `dt` of real time.
pub open spec fn scene_after_update(s: SceneV, dt: int, d: GameData) -> SceneV {
    match s {
        SceneV::Maze(m) => SceneV::Maze(
            maze_after_update(m, dt, d.screen_width as int, d.screen_height as int),
        ),
        _ => s,
    }
}

/// The shared data after a scene advances by `dt`.
pub open spec fn scene_update_data(s: SceneV, dt: int, d: GameData, now: u64) -> GameData {
    match s {
        SceneV::Maze(m) => maze_update_data(
            maze_after_update(m, dt, d.screen_width as int, d.screen_height as int),
            d,
            now,
        ),
        _ => d,
    }
}

/// The signal a scene emits after advancing by `dt`.
pub open spec fn scene_update_switch(s: SceneV, dt: int, d: GameData) -> SwitchV {
    match s {
        SceneV::Maze(m) => maze_update_switch(
            maze_after_update(m, dt, d.screen_width as int, d.screen_height as int),
        ),
        _ => SwitchV::Stay,
    }
}

/// How entering a scene transforms it and the shared data: entering the
/// maze finishes its setup and starts the level timer; every other scene
/// enters unchanged.
pub open spec fn scene_entered(
    pre: SceneV,
    post: SceneV,
    d0: GameData,
    d1: GameData,
    now: u64,
) -> bool {
    match pre {
        SceneV::Maze(m0) => {
            &&& post matches SceneV::Maze(m1) && entered_maze(
                m0,
                m1,
                d0.screen_width as int,
                d0.screen_height as int,
            )
            &&& d1 == (GameData {
                level_start_micros: Some(now),
                level_completion_micros: None,
                ..d0
            })
        },
        _ => post == pre && d1 == d0,
    }
}

impl Scene {
    /// One-time setup when the scene becomes active.
    pub fn on_enter(&mut self, now_micros: u64, data: &mut GameData)
        requires
            scene_wf(old(self)@),
            old(data).wf(),
        ensures
            scene_entered(old(self)@, final(self)@, *old(data), *final(data), now_micros),
            scene_wf(final(self)@),
            final(data).wf(),
    {
        match self {
            Scene::Maze(m) => m.on_enter(now_micros, data),
            _ => {},
        }
    }

    /// React to one frame of collected input.
    pub fn handle_input(&mut self, input: &InputState) -> (sw: SceneSwitch)
        requires
            scene_wf(old(self)@),
            input.wf(),
        ensures
            final(self)@ == scene_after_input(old(self)@, *input),
            scene_wf(final(self)@),
            sw@ == scene_input_switch(old(self)@, *input),
            switch_wf(sw@),
    {
        match self {
            Scene::Title(t) => t.handle_input(input),
            Scene::Menu(m) => m.handle_input(input),
            Scene::Maze(m) => m.handle_input(input),
            Scene::Pause(p) => p.handle_input(input),
            Scene::Win(w) => w.handle_input(input),
        }
    }

    /// Advance the scene by `dt_micros` of real time.
    pub fn update(&mut self, dt_micros: u64, now_micros: u64, data: &mut GameData) -> (sw: SceneSwitch)
        requires
            scene_wf(old(self)@),
            old(data).wf(),
            old(data).points < u32::MAX,
            dt_micros <= u64::MAX - TICK_PERIOD_MICROS,
            old(data).level_start_micros matches Some(s) ==> s <= now_micros,
        ensures
            final(self)@ == scene_after_update(old(self)@, dt_micros as int, *old(data)),
            scene_wf(final(self)@),
            *final(data) == scene_update_data(old(self)@, dt_micros as int, *old(data), now_micros),
            final(data).wf(),
            sw@ == scene_update_switch(old(self)@, dt_micros as int, *old(data)),
            switch_wf(sw@),
    {
        match self {
            Scene::Maze(m) => m.update(dt_micros, now_micros, data),
            _ => SceneSwitch::Stay,
        }
    }

    /// Cleanup when the scene is removed from the stack; no scene owns
    /// anything that needs explicit release.
    pub fn on_exit(&mut self, data: &mut GameData)
        ensures
            *final(self) == *old(self),
            *final(data) == *old(data),
    {
    }
}

/// Controls switching between scenes: an ordered stack whose last element
/// is the active scene, plus a terminal quit flag.
pub struct SceneManager {
    pub scenes: Vec<Scene>,
    pub quit: bool,
}

/// The mathematical content of the manager.
#[verifier::ext_equal]
pub ghost struct ManagerView {
    pub stack: Seq<SceneV>,
    pub quit: bool,
}

/// The stack of scenes, as their mathematical contents.
pub open spec fn stack_view(s: Seq<Scene>) -> Seq<SceneV> {
    s.map_values(|sc: Scene| sc@)
}

impl View for SceneManager {
    type V = ManagerView;

    open spec fn view(&self) -> ManagerView {
        ManagerView { stack: stack_view(self.scenes@), quit: self.quit }
    }
}

/// A well-formed manager: every scene on the stack is well formed.
pub open spec fn manager_wf(v: ManagerView) -> bool {
    forall|i: int| 0 <= i < v.stack.len() ==> scene_wf(#[trigger] v.stack[i])
}

/// How applying a control signal transforms the stack, the quit flag and
/// the shared data. `Pop` and `Replace` on an empty stack simply leave it
/// empty: termination is detected by `should_quit`, not by a panic.
pub open spec fn apply_switch_rel(
    pre: ManagerView,
    post: ManagerView,
    sw: SwitchV,
    d0: GameData,
    d1: GameData,
    now: u64,
) -> bool {
    match sw {
        SwitchV::Stay => post == pre && d1 == d0,
        SwitchV::Push(s) => {
            &&& post.quit == pre.quit
            &&& post.stack.len() == pre.stack.len() + 1
            &&& post.stack.take(pre.stack.len() as int) == pre.stack
            &&& scene_entered(s, post.stack.last(), d0, d1, now)
        },
        SwitchV::Replace(s) => {
            let rest = if pre.stack.len() > 0 { pre.stack.drop_last() } else { pre.stack };
            &&& post.quit == pre.quit
            &&& post.stack.len() == rest.len() + 1
            &&& post.stack.take(rest.len() as int) == rest
            &&& scene_entered(s, post.stack.last(), d0, d1, now)
        },
        SwitchV::Pop => {
            &&& post.quit == pre.quit
            &&& post.stack == if pre.stack.len() > 0 { pre.stack.drop_last() } else { pre.stack }
            &&& d1 == d0
        },
        SwitchV::Quit => post == (ManagerView { quit: true, ..pre }) && d1 == d0,
    }
}

/// The input phase of one frame: if the stack is non-empty, the active
/// scene reacts to the input and its signal is applied.
pub open spec fn input_phase_rel(
    pre: ManagerView,
    post: ManagerView,
    d0: GameData,
    d1: GameData,
    input: InputState,
    now: u64,
) -> bool {
    if pre.stack.len() == 0 {
        post == pre && d1 == d0
    } else {
        let top = pre.stack.last();
        let stepped = ManagerView {
            stack: pre.stack.update(pre.stack.len() - 1, scene_after_input(top, input)),
            ..pre
        };
        apply_switch_rel(stepped, post, scene_input_switch(top, input), d0, d1, now)
    }
}

/// The update phase of one frame: if the stack is non-empty, the active
/// scene advances by `dt` and its signal is applied.
pub open spec fn update_phase_rel(
    pre: ManagerView,
    post: ManagerView,
    d0: GameData,
    d1: GameData,
    dt: int,
    now: u64,
) -> bool {
    if pre.stack.len() == 0 {
        post == pre && d1 == d0
    } else {
        let top = pre.stack.last();
        let stepped = ManagerView {
            stack: pre.stack.update(pre.stack.len() - 1, scene_after_update(top, dt, d0)),
            ..pre
        };
        apply_switch_rel(
            stepped,
            post,
            scene_update_switch(top, dt, d0),
            scene_update_data(top, dt, d0, now),
            d1,
            now,
        )
    }
}

/// One full frame of the manager: the input phase followed by the update
/// phase, the two signals honoured independently and in that order.
pub open spec fn manager_step_rel(
    pre: ManagerView,
    post: ManagerView,
    d0: GameData,
    d1: GameData,
    input: InputState,
    dt: int,
    now: u64,
) -> bool {
    exists|mid: ManagerView, dmid: GameData|
        #[trigger] input_phase_rel(pre, mid, d0, dmid, input, now) && update_phase_rel(
            mid,
            post,
            dmid,
            d1,
            dt,
            now,
        )
}

/// A push followed immediately by a pop restores the exact prior stack —
/// every suspended scene, the prior top included, keeps its exact state,
/// so nothing is re-entered — and the pop leaves the shared data alone.
pub proof fn lemma_push_then_pop_restores(
    pre: ManagerView,
    mid: ManagerView,
    post: ManagerView,
    s: SceneV,
    d0: GameData,
    d1: GameData,
    d2: GameData,
    now1: u64,
    now2: u64,
)
    requires
        apply_switch_rel(pre, mid, SwitchV::Push(s), d0, d1, now1),
        apply_switch_rel(mid, post, SwitchV::Pop, d1, d2, now2),
    ensures
        post.stack == pre.stack,
        post.quit == pre.quit,
        d2 == d1,
{
    assert(mid.stack.drop_last() =~= mid.stack.take(pre.stack.len() as int));
}

proof fn lemma_stack_view_push(s: Seq<Scene>, x: Scene)
    ensures
        stack_view(s.push(x)) == stack_view(s).push(x@),
{
    assert(stack_view(s.push(x)) =~= stack_view(s).push(x@));
}

proof fn lemma_stack_view_drop_last(s: Seq<Scene>)
    requires
        s.len() > 0,
    ensures
        stack_view(s.drop_last()) == stack_view(s).drop_last(),
{
    assert(stack_view(s.drop_last()) =~= stack_view(s).drop_last());
}

impl SceneManager {
    /// Start with a single scene, entering it immediately.
    pub fn new(initial: Scene, now_micros: u64, data: &mut GameData) -> (mgr: SceneManager)
        requires
            scene_wf(initial@),
            old(data).wf(),
        ensures
            mgr@.quit == false,
            mgr@.stack.len() == 1,
            scene_entered(initial@, mgr@.stack[0], *old(data), *final(data), now_micros),
            manager_wf(mgr@),
            final(data).wf(),
    {
        let mut mgr = SceneManager { scenes: Vec::new(), quit: false };
        let mut scene = initial;
        scene.on_enter(now_micros, data);
        mgr.scenes.push(scene);
        proof {
            assert(mgr@.stack =~= seq![scene@]);
        }
        mgr
    }

    /// Apply a control signal returned by the active scene: push and
    /// replace enter the new scene; pop exits the removed scene; quit
    /// raises the terminal flag.
    pub fn apply_switch(&mut self, switch: SceneSwitch, now_micros: u64, data: &mut GameData)
        requires
            manager_wf(old(self)@),
            switch_wf(switch@),
            old(data).wf(),
        ensures
            apply_switch_rel(old(self)@, final(self)@, switch@, *old(data), *final(data), now_micros),
            manager_wf(final(self)@),
            final(data).wf(),
            final(data).points == old(data).points,
            final(data).screen_width == old(data).screen_width,
            final(data).screen_height == old(data).screen_height,
            final(data).level_start_micros == old(data).level_start_micros
                || final(data).level_start_micros == Some(now_micros),
    {
        let ghost pre = old(self)@;
        match switch {
            SceneSwitch::Stay => {
                proof {
                    assert(self@ =~= pre);
                }
            },
            SceneSwitch::Push(scene) => {
                let mut scene = scene;
                scene.on_enter(now_micros, data);
                let ghost sv = scene@;
                proof {
                    lemma_stack_view_push(self.scenes@, scene);
                }
                self.scenes.push(scene);
                proof {
                    assert(self@.stack == pre.stack.push(sv));
                    assert(pre.stack.push(sv).take(pre.stack.len() as int) =~= pre.stack);
                    assert forall|i: int| 0 <= i < self@.stack.len() implies scene_wf(
                        #[trigger] self@.stack[i],
                    ) by {
                        if i < pre.stack.len() {
                            assert(self@.stack[i] == pre.stack[i]);
                        }
                    }
                }
            },
            SceneSwitch::Replace(scene) => {
                let ghost rest = if pre.stack.len() > 0 { pre.stack.drop_last() } else { pre.stack };
                if self.scenes.len() > 0 {
                    let mut old_scene = self.scenes.pop().unwrap();
                    proof {
                        lemma_stack_view_drop_last(old(self).scenes@);
                        assert(old(self).scenes@.subrange(0, old(self).scenes@.len() - 1)
                            =~= old(self).scenes@.drop_last());
                        assert(self@.stack == rest);
                    }
                    old_scene.on_exit(data);
                }
                let mut scene = scene;
                scene.on_enter(now_micros, data);
                let ghost sv = scene@;
                proof {
                    lemma_stack_view_push(self.scenes@, scene);
                }
                self.scenes.push(scene);
                proof {
                    assert(self@.stack == rest.push(sv));
                    assert(rest.push(sv).take(rest.len() as int) =~= rest);
                    assert forall|i: int| 0 <= i < self@.stack.len() implies scene_wf(
                        #[trigger] self@.stack[i],
                    ) by {
                        if i < rest.len() {
                            assert(rest[i] == pre.stack[i]);
                        }
                    }
                }
            },
            SceneSwitch::Pop => {
                if self.scenes.len() > 0 {
                    let mut old_scene = self.scenes.pop().unwrap();
                    proof {
                        lemma_stack_view_drop_last(old(self).scenes@);
                        assert(old(self).scenes@.subrange(0, old(self).scenes@.len() - 1)
                            =~= old(self).scenes@.drop_last());
                        assert(self@.stack == pre.stack.drop_last());
                        assert forall|i: int| 0 <= i < self@.stack.len() implies scene_wf(
                            #[trigger] self@.stack[i],
                        ) by {
                            assert(self@.stack[i] == pre.stack[i]);
                        }
                    }
                    old_scene.on_exit(data);
                }
            },
            SceneSwitch::Quit => {
                self.quit = true;
                proof {
                    assert(self@ =~= (ManagerView { quit: true, ..pre }));
                }
            },
        }
    }

    /// One frame's worth of control flow: ask the active scene to react
    /// to the collected input and apply its signal, then ask the (possibly
    /// new) active scene to advance by `dt_micros` and apply that signal.
    pub fn update(&mut self, input: &InputState, dt_micros: u64, now_micros: u64, data: &mut GameData)
        requires
            manager_wf(old(self)@),
            input.wf(),
            old(data).wf(),
            old(data).points < u32::MAX,
            dt_micros <= u64::MAX - TICK_PERIOD_MICROS,
            old(data).level_start_micros matches Some(s) ==> s <= now_micros,
        ensures
            manager_step_rel(
                old(self)@,
                final(self)@,
                *old(data),
                *final(data),
                *input,
                dt_micros as int,
                now_micros,
            ),
            manager_wf(final(self)@),
            final(data).wf(),
    {
        let ghost pre = old(self)@;
        let ghost d0 = *data;

        if self.scenes.len() > 0 {
            let mut top = self.scenes.pop().unwrap();
            proof {
                assert(top@ == pre.stack.last());
                assert(scene_wf(top@));
            }
            let sw = top.handle_input(input);
            let ghost tv = top@;
            proof {
                lemma_stack_view_push(self.scenes@, top);
            }
            self.scenes.push(top);
            proof {
                assert(self@.stack =~= pre.stack.update(pre.stack.len() - 1, tv));
                assert forall|i: int| 0 <= i < self@.stack.len() implies scene_wf(
                    #[trigger] self@.stack[i],
                ) by {
                    if i < pre.stack.len() - 1 {
                        assert(self@.stack[i] == pre.stack[i]);
                    }
                }
            }
            self.apply_switch(sw, now_micros, data);
        }

        let ghost mid = self@;
        let ghost dmid = *data;
        proof {
            assert(input_phase_rel(pre, mid, d0, dmid, *input, now_micros));
            assert(dmid.points == d0.points);
            assert(dmid.level_start_micros matches Some(s) ==> s <= now_micros);
        }

        if self.scenes.len() > 0 {
            let mut top = self.scenes.pop().unwrap();
            proof {
                assert(top@ == mid.stack.last());
                assert(scene_wf(top@));
            }
            let sw = top.update(dt_micros, now_micros, data);
            let ghost tv = top@;
            proof {
                lemma_stack_view_push(self.scenes@, top);
            }
            self.scenes.push(top);
            proof {
                assert(self@.stack =~= mid.stack.update(mid.stack.len() - 1, tv));
                assert forall|i: int| 0 <= i < self@.stack.len() implies scene_wf(
                    #[trigger] self@.stack[i],
                ) by {
                    if i < mid.stack.len() - 1 {
                        assert(self@.stack[i] == mid.stack[i]);
                    }
                }
            }
            self.apply_switch(sw, now_micros, data);
        }

        proof {
            assert(update_phase_rel(mid, self@, dmid, *data, dt_micros as int, now_micros));
            assert(manager_step_rel(pre, self@, d0, *data, *input, dt_micros as int, now_micros));
        }
    }

    /// True when the program should end: the quit flag is set or the
    /// stack has become empty.
    pub fn should_quit(&self) -> (r: bool)
        ensures
            r == (self@.quit || self@.stack.len() == 0),
    {
        self.quit || self.scenes.len() == 0
    }

    /// The active scene, for rendering; suspended scenes beneath it are
    /// never drawn.
    pub fn top(&self) -> (r: Option<&Scene>)
        ensures
            match r {
                Some(s) => self@.stack.len() > 0 && s@ == self@.stack.last(),
                None => self@.stack.len() == 0,
            },
    {
        if self.scenes.len() > 0 {
            Some(&self.scenes[self.scenes.len() - 1])
        } else {
            None
        }
    }
}

} // verus!
