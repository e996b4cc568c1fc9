//! The maze-play scene: a discrete grid simulated on a fixed logical tick,
//! with real-time camera tracking and field-of-view culling layered on top.
//!
//! The grid description (`MapData`) is immutable after it is handed in;
//! the scene owns the mutable runtime state (player cell, queued move,
//! tick accumulator, camera focal point).

use vstd::prelude::*;
use vstd::math::abs;
use crate::{wall_tile, is_wall_tile};
use crate::game_data::GameData;
use crate::menu_scene::{PauseScene, WinScene};
use crate::scenes::{InputState, Scene, SceneSwitch, SceneV, SwitchV, switch_wf};
use crate::utils::PixelRect;

verus! {

/// Seconds per logical tick, expressed in microseconds (0.15 s).
pub const TICK_PERIOD_MICROS: u64 = 150000;

/// Field-of-view radius in tiles.
pub const FOV_RADIUS_TILES: i32 = 7;

/// Analog stick deflection, in thousandths of full deflection, below which
/// gamepad input is ignored.
pub const GAMEPAD_DEADZONE: i32 = 500;

/// What an entity on the map is. The map format tags entities with an open
/// set of names; the simulation only distinguishes these, and anything
/// unrecognised is kept as `Other`.
#[derive(Clone, Copy, PartialEq, Eq, Structural)]
pub enum EntityKind {
    Player,
    Goal,
    Tank,
    Shooter,
    Other,
}

/// An entity placed on a grid cell.
#[derive(Clone, Copy, PartialEq, Eq, Structural)]
pub struct MapEntity {
    pub kind: EntityKind,
    pub x: usize,
    pub y: usize,
}

/// An immutable-after-load grid description.
pub struct MapData {
    pub grid_w: usize,
    pub grid_h: usize,
    pub tile_size_px: i32,
    /// Tile ids indexed `[row][col]`; negative ids mean "no tile".
    pub tiles: Vec<Vec<i32>>,
    pub entities: Vec<MapEntity>,
}

/// The mathematical content of a `MapData`.
#[verifier::ext_equal]
pub ghost struct MapDataView {
    pub grid_w: int,
    pub grid_h: int,
    pub tile_size_px: int,
    pub tiles: Seq<Seq<int>>,
    pub entities: Seq<MapEntity>,
}

impl View for MapData {
    type V = MapDataView;

    open spec fn view(&self) -> MapDataView {
        MapDataView {
            grid_w: self.grid_w as int,
            grid_h: self.grid_h as int,
            tile_size_px: self.tile_size_px as int,
            tiles: self.tiles@.map_values(|row: Vec<i32>| row@.map_values(|t: i32| t as int)),
            entities: self.entities@,
        }
    }
}

/// The tile id at cell `(x, y)`.
pub open spec fn tile_at(m: MapDataView, x: int, y: int) -> int {
    m.tiles[y][x]
}

/// A well-formed map: a non-empty rectangular grid with every entity in
/// bounds, and dimensions small enough that pixel arithmetic stays well
/// inside the machine integer ranges.
pub open spec fn map_wf(m: MapDataView) -> bool {
    &&& 0 < m.grid_w <= 0x10000
    &&& 0 < m.grid_h <= 0x10000
    &&& 0 < m.tile_size_px <= 0x1000
    &&& m.tiles.len() == m.grid_h
    &&& forall|y: int| 0 <= y < m.grid_h ==> (#[trigger] m.tiles[y]).len() == m.grid_w
    &&& forall|i: int| 0 <= i < m.entities.len() ==> (#[trigger] m.entities[i]).x < m.grid_w
        && m.entities[i].y < m.grid_h
}

/// A cell may be stepped onto when it is in bounds, holds a tile, and that
/// tile is not a wall. Unclassified non-negative ids are walkable.
pub open spec fn valid_move(m: MapDataView, x: int, y: int) -> bool {
    &&& 0 <= x < m.grid_w
    &&& 0 <= y < m.grid_h
    &&& tile_at(m, x, y) >= 0
    &&& !wall_tile(tile_at(m, x, y))
}

impl MapData {
    /// Decides `map_wf`, so that a freshly parsed map can be rejected as a
    /// fatal configuration error before the simulation ever touches it.
    pub fn is_well_formed(&self) -> (r: bool)
        ensures
            r == map_wf(self@),
    {
        if !(0 < self.grid_w && self.grid_w <= 0x10000) {
            return false;
        }
        if !(0 < self.grid_h && self.grid_h <= 0x10000) {
            return false;
        }
        if !(0 < self.tile_size_px && self.tile_size_px <= 0x1000) {
            return false;
        }
        if self.tiles.len() != self.grid_h {
            return false;
        }
        let mut y: usize = 0;
        while y < self.tiles.len()
            invariant
                y <= self.tiles@.len(),
                forall|j: int| 0 <= j < y ==> (#[trigger] self@.tiles[j]).len() == self.grid_w,
            decreases self.tiles@.len() - y,
        {
            assert(self@.tiles[y as int] == self.tiles@[y as int]@.map_values(|t: i32| t as int));
            if self.tiles[y].len() != self.grid_w {
                return false;
            }
            y = y + 1;
        }
        let mut i: usize = 0;
        while i < self.entities.len()
            invariant
                i <= self.entities@.len(),
                forall|j: int| 0 <= j < i ==> (#[trigger] self.entities@[j]).x < self.grid_w
                    && self.entities@[j].y < self.grid_h,
            decreases self.entities@.len() - i,
        {
            let e = self.entities[i];
            if !(e.x < self.grid_w && e.y < self.grid_h) {
                return false;
            }
            i = i + 1;
        }
        true
    }
}

/// A deep copy of a map, equal to the given one as a value.
pub fn clone_map(m: &MapData) -> (r: MapData)
    ensures
        r@ == m@,
{
    let mut tiles: Vec<Vec<i32>> = Vec::new();
    let mut y: usize = 0;
    while y < m.tiles.len()
        invariant
            y <= m.tiles@.len(),
            tiles@.len() == y,
            forall|j: int| 0 <= j < y ==> (#[trigger] tiles@[j])@ == m.tiles@[j]@,
        decreases m.tiles@.len() - y,
    {
        let row = &m.tiles[y];
        let mut new_row: Vec<i32> = Vec::new();
        let mut x: usize = 0;
        while x < row.len()
            invariant
                x <= row@.len(),
                new_row@ == row@.subrange(0, x as int),
            decreases row@.len() - x,
        {
            new_row.push(row[x]);
            assert(new_row@ =~= row@.subrange(0, x + 1));
            x = x + 1;
        }
        assert(new_row@ =~= row@);
        tiles.push(new_row);
        y = y + 1;
    }
    let mut entities: Vec<MapEntity> = Vec::new();
    let mut i: usize = 0;
    while i < m.entities.len()
        invariant
            i <= m.entities@.len(),
            entities@ == m.entities@.subrange(0, i as int),
        decreases m.entities@.len() - i,
    {
        entities.push(m.entities[i]);
        assert(entities@ =~= m.entities@.subrange(0, i + 1));
        i = i + 1;
    }
    assert(entities@ =~= m.entities@);
    let r = MapData {
        grid_w: m.grid_w,
        grid_h: m.grid_h,
        tile_size_px: m.tile_size_px,
        tiles,
        entities,
    };
    assert(r@.tiles =~= m@.tiles);
    assert(r@ =~= m@);
    r
}

/// The maze-play scene's runtime state.
pub struct MazeScene {
    pub map: MapData,
    /// Square tile edge in pixels, taken from the map on scene entry.
    pub tile_size: i32,
    pub player_x: usize,
    pub player_y: usize,
    /// Camera focal point in world pixels (the centre of the player's tile).
    pub cam_target_x: i32,
    pub cam_target_y: i32,
    /// Camera offset in screen pixels (half the viewport), so the player
    /// appears centred.
    pub cam_offset_x: i32,
    pub cam_offset_y: i32,
    /// Field-of-view radius in tiles.
    pub fov_radius: i32,
    /// Time accumulated towards the next logical tick, in microseconds.
    pub tick_timer: u64,
    /// At most one pending move, applied and consumed on the next tick.
    pub queued_move: Option<(usize, usize)>,
    /// Last discrete gamepad direction, tracked for future edge-detection;
    /// the current logic only ever clears it.
    pub last_gamepad_direction: Option<(i32, i32)>,
}

pub open spec fn cell_view(p: Option<(usize, usize)>) -> Option<(int, int)> {
    match p {
        Some(q) => Some((q.0 as int, q.1 as int)),
        None => None,
    }
}

pub open spec fn dir_view(p: Option<(i32, i32)>) -> Option<(int, int)> {
    match p {
        Some(q) => Some((q.0 as int, q.1 as int)),
        None => None,
    }
}

/// The mathematical content of a `MazeScene`.
#[verifier::ext_equal]
pub ghost struct MazeView {
    pub map: MapDataView,
    pub tile_size: int,
    pub player_x: int,
    pub player_y: int,
    pub cam_target_x: int,
    pub cam_target_y: int,
    pub cam_offset_x: int,
    pub cam_offset_y: int,
    pub fov_radius: int,
    pub tick_timer: int,
    pub queued_move: Option<(int, int)>,
    pub last_gamepad_direction: Option<(int, int)>,
}

impl View for MazeScene {
    type V = MazeView;

    open spec fn view(&self) -> MazeView {
        MazeView {
            map: self.map@,
            tile_size: self.tile_size as int,
            player_x: self.player_x as int,
            player_y: self.player_y as int,
            cam_target_x: self.cam_target_x as int,
            cam_target_y: self.cam_target_y as int,
            cam_offset_x: self.cam_offset_x as int,
            cam_offset_y: self.cam_offset_y as int,
            fov_radius: self.fov_radius as int,
            tick_timer: self.tick_timer as int,
            queued_move: cell_view(self.queued_move),
            last_gamepad_direction: dir_view(self.last_gamepad_direction),
        }
    }
}

/// A well-formed maze scene: its map is well formed, the player cell is in
/// bounds, and the scalar fields sit in the ranges the pixel and tick
/// arithmetic needs.
pub open spec fn maze_wf(v: MazeView) -> bool {
    &&& map_wf(v.map)
    &&& 0 < v.tile_size <= 0x1000
    &&& 0 <= v.player_x < v.map.grid_w
    &&& 0 <= v.player_y < v.map.grid_h
    &&& 0 <= v.fov_radius <= 0x10000
    &&& 0 <= v.tick_timer < TICK_PERIOD_MICROS
}

/// The scene as first constructed from a map, before scene entry.
pub open spec fn maze_init(map: MapDataView) -> MazeView {
    MazeView {
        map,
        tile_size: 32,
        player_x: 0,
        player_y: 0,
        cam_target_x: 0,
        cam_target_y: 0,
        cam_offset_x: 0,
        cam_offset_y: 0,
        fov_radius: FOV_RADIUS_TILES as int,
        tick_timer: 0,
        queued_move: None,
        last_gamepad_direction: None,
    }
}

/// A tile is in the field of view when it is in bounds and its squared
/// Euclidean distance from the player's cell is at most the squared radius.
pub open spec fn fov_contains(v: MazeView, x: int, y: int) -> bool {
    &&& 0 <= x < v.map.grid_w
    &&& 0 <= y < v.map.grid_h
    &&& (x - v.player_x) * (x - v.player_x) + (y - v.player_y) * (y - v.player_y)
        <= v.fov_radius * v.fov_radius
}

/// Rectangular superset of the field of view, clamped to the grid:
/// the first visible column.
pub open spec fn vis_min_x(v: MazeView) -> int {
    if v.player_x - v.fov_radius >= 0 { v.player_x - v.fov_radius } else { 0 }
}

/// One past the last visible column.
pub open spec fn vis_max_x(v: MazeView) -> int {
    if v.player_x + v.fov_radius + 1 <= v.map.grid_w { v.player_x + v.fov_radius + 1 } else { v.map.grid_w }
}

/// The first visible row.
pub open spec fn vis_min_y(v: MazeView) -> int {
    if v.player_y - v.fov_radius >= 0 { v.player_y - v.fov_radius } else { 0 }
}

/// One past the last visible row.
pub open spec fn vis_max_y(v: MazeView) -> int {
    if v.player_y + v.fov_radius + 1 <= v.map.grid_h { v.player_y + v.fov_radius + 1 } else { v.map.grid_h }
}

/// The scene after the camera has tracked the player: the focal point is
/// the centre of the player's tile and the offset is half the viewport.
pub open spec fn with_camera(v: MazeView, screen_w: int, screen_h: int) -> MazeView {
    MazeView {
        cam_target_x: v.player_x * v.tile_size + v.tile_size / 2,
        cam_target_y: v.player_y * v.tile_size + v.tile_size / 2,
        cam_offset_x: screen_w / 2,
        cam_offset_y: screen_h / 2,
        ..v
    }
}

/// One logical tick: the queued move, if any, is consumed, and applied
/// exactly when it is still valid.
pub open spec fn maze_tick(v: MazeView) -> MazeView {
    match v.queued_move {
        Some(t) => MazeView {
            player_x: if valid_move(v.map, t.0, t.1) { t.0 } else { v.player_x },
            player_y: if valid_move(v.map, t.0, t.1) { t.1 } else { v.player_y },
            queued_move: None,
            ..v
        },
        None => v,
    }
}

impl MazeScene {
    /// Build the scene around an already-loaded map, with all runtime
    /// state at its defaults; `on_enter` finishes the setup.
    pub fn from_map(map: MapData) -> (r: MazeScene)
        requires
            map_wf(map@),
        ensures
            r@ == maze_init(map@),
            maze_wf(r@),
    {
        MazeScene {
            map,
            tile_size: 32,
            player_x: 0,
            player_y: 0,
            cam_target_x: 0,
            cam_target_y: 0,
            cam_offset_x: 0,
            cam_offset_y: 0,
            fov_radius: FOV_RADIUS_TILES,
            tick_timer: 0,
            queued_move: None,
            last_gamepad_direction: None,
        }
    }

    /// Whether the player may step onto `(x, y)`.
    pub fn is_valid_move(&self, x: usize, y: usize) -> (r: bool)
        requires
            map_wf(self.map@),
        ensures
            r == valid_move(self.map@, x as int, y as int),
    {
        if x >= self.map.grid_w || y >= self.map.grid_h {
            return false;
        }
        let tid = self.map.tile_id(x, y);
        tid >= 0 && !is_wall_tile(tid)
    }

    /// Whether the tile at `(x, y)` is within the player's field of view.
    pub fn in_fov(&self, x: usize, y: usize) -> (r: bool)
        requires
            maze_wf(self@),
        ensures
            r == fov_contains(self@, x as int, y as int),
    {
        if x >= self.map.grid_w || y >= self.map.grid_h {
            return false;
        }
        let dx = x as i64 - self.player_x as i64;
        let dy = y as i64 - self.player_y as i64;
        proof {
            assert(dx * dx + dy * dy <= 0x200000000int && dx * dx >= 0 && dy * dy >= 0)
                by (nonlinear_arith)
                requires -0x10000 <= dx <= 0x10000 && -0x10000 <= dy <= 0x10000;
            assert(0 <= self@.fov_radius * self@.fov_radius <= 0x100000000int)
                by (nonlinear_arith)
                requires 0 <= self@.fov_radius <= 0x10000;
        }
        let dist_squared = dx * dx + dy * dy;
        let radius_squared = self.fov_radius as i64 * self.fov_radius as i64;
        dist_squared <= radius_squared
    }

    /// The visible tile range `(min_x, max_x, min_y, max_y)`, a rectangular
    /// superset of the field of view clamped to the grid, so that drawing
    /// need not scan the whole map.
    pub fn get_visible_bounds(&self) -> (r: (usize, usize, usize, usize))
        requires
            maze_wf(self@),
        ensures
            r.0 == vis_min_x(self@),
            r.1 == vis_max_x(self@),
            r.2 == vis_min_y(self@),
            r.3 == vis_max_y(self@),
    {
        let radius = self.fov_radius as usize;
        let min_x = if self.player_x >= radius { self.player_x - radius } else { 0 };
        let max_x = if self.player_x + radius + 1 <= self.map.grid_w {
            self.player_x + radius + 1
        } else {
            self.map.grid_w
        };
        let min_y = if self.player_y >= radius { self.player_y - radius } else { 0 };
        let max_y = if self.player_y + radius + 1 <= self.map.grid_h {
            self.player_y + radius + 1
        } else {
            self.map.grid_h
        };
        (min_x, max_x, min_y, max_y)
    }

    /// Track the player with the camera; runs every frame, not gated by
    /// the tick.
    pub fn update_camera(&mut self, data: &GameData)
        requires
            maze_wf(old(self)@),
            data.wf(),
        ensures
            final(self)@ == with_camera(old(self)@, data.screen_width as int, data.screen_height as int),
            maze_wf(final(self)@),
    {
        proof {
            assert(0 <= self@.player_x * self@.tile_size <= 0x10000000int
                && 0 <= self@.player_y * self@.tile_size <= 0x10000000int)
                by (nonlinear_arith)
                requires
                    0 <= self@.player_x <= 0x10000 && 0 <= self@.player_y <= 0x10000
                        && 0 < self@.tile_size <= 0x1000;
        }
        self.cam_target_x = self.player_x as i32 * self.tile_size + self.tile_size / 2;
        self.cam_target_y = self.player_y as i32 * self.tile_size + self.tile_size / 2;
        self.cam_offset_x = data.screen_width / 2;
        self.cam_offset_y = data.screen_height / 2;
    }

    /// Apply the queued move on a logical tick. The move is re-validated at
    /// apply time: it is applied exactly when its target is in bounds,
    /// holds a tile, and that tile is not a wall; otherwise the player
    /// stays put. Either way the queue is emptied.
    pub fn update_player(&mut self)
        requires
            maze_wf(old(self)@),
        ensures
            final(self)@ == maze_tick(old(self)@),
            maze_wf(final(self)@),
    {
        if let Some(target) = self.queued_move {
            self.queued_move = None;
            let (new_x, new_y) = target;
            if self.is_valid_move(new_x, new_y) {
                self.player_x = new_x;
                self.player_y = new_y;
            }
        }
    }

    /// Advance enemy state on a logical tick. Enemy behaviour is an
    /// extension point: the simulation runs it even for enemies outside
    /// the field of view, but no enemy logic is defined yet.
    pub fn update_enemies(&mut self)
        ensures
            *final(self) == *old(self),
    {
    }

    /// The source rectangle of a tile inside a tileset image whose cells
    /// are square and packed row-major.
    pub fn tile_src_rect(tile_id: i32, tile_size: i32, tileset_width: i32) -> (r: PixelRect)
        requires
            0 <= tile_id < 0x10000,
            0 < tile_size <= 0x1000,
            tile_size <= tileset_width <= 0x10000,
        ensures
            ({
                let cols = tileset_width as int / tile_size as int;
                &&& r.x == (tile_id as int % cols) * tile_size
                &&& r.y == (tile_id as int / cols) * tile_size
                &&& r.width == tile_size
                &&& r.height == tile_size
            }),
    {
        let cols = tileset_width / tile_size;
        proof {
            let c = tileset_width as int / tile_size as int;
            assert(1 <= c <= 0x10000 && c * tile_size <= tileset_width)
                by (nonlinear_arith)
                requires
                    0 < tile_size as int <= tileset_width as int <= 0x10000
                        && c == tileset_width as int / tile_size as int;
            assert(0 <= tile_id as int % c < c && 0 <= tile_id as int / c <= tile_id)
                by (nonlinear_arith)
                requires 0 <= tile_id && 1 <= c;
            assert((tile_id as int % c) * tile_size <= (c - 1) * tile_size
                && (c - 1) * tile_size <= c * tile_size
                && (tile_id as int / c) * tile_size <= 0x10000000int)
                by (nonlinear_arith)
                requires
                    0 <= tile_id as int % c < c && 0 <= tile_id as int / c < 0x10000
                        && 0 < tile_size as int <= 0x1000 && 1 <= c;
        }
        let x = (tile_id % cols) * tile_size;
        let y = (tile_id / cols) * tile_size;
        PixelRect { x, y, width: tile_size, height: tile_size }
    }
}

/// Whether the stick is deflected beyond the deadzone on some axis.
pub open spec fn pad_raw_active(input: InputState) -> bool {
    abs(input.axis_x as int) > GAMEPAD_DEADZONE || abs(input.axis_y as int) > GAMEPAD_DEADZONE
}

/// The discrete horizontal direction read off the analog stick: the axis
/// with the greater magnitude wins, and on a tie both axes count, each
/// provided it clears the deadzone.
pub open spec fn pad_dir_x(input: InputState) -> int {
    if !input.gamepad_available || !pad_raw_active(input) {
        0
    } else {
        let ax = abs(input.axis_x as int);
        let ay = abs(input.axis_y as int);
        if ax > ay {
            if input.axis_x > 0 { 1 } else { -1 }
        } else if ay > ax {
            0
        } else if ax > GAMEPAD_DEADZONE {
            if input.axis_x > 0 { 1 } else { -1 }
        } else {
            0
        }
    }
}

/// The discrete vertical direction read off the analog stick.
pub open spec fn pad_dir_y(input: InputState) -> int {
    if !input.gamepad_available || !pad_raw_active(input) {
        0
    } else {
        let ax = abs(input.axis_x as int);
        let ay = abs(input.axis_y as int);
        if ax > ay {
            0
        } else if ay > ax {
            if input.axis_y > 0 { 1 } else { -1 }
        } else if ay > GAMEPAD_DEADZONE {
            if input.axis_y > 0 { 1 } else { -1 }
        } else {
            0
        }
    }
}

/// One step towards larger coordinates, clamped to the grid edge.
pub open spec fn step_toward_max(v: int, dim: int) -> int {
    if v + 1 < dim { v + 1 } else { dim - 1 }
}

/// One step towards zero, clamped at zero.
pub open spec fn step_toward_zero(v: int) -> int {
    if v >= 1 { v - 1 } else { 0 }
}

/// The column a fully applied frame of input steers towards, starting
/// from the player's column: keys first (right before left), then the
/// gamepad direction, each step clamped to the grid.
pub open spec fn input_target_x(px: int, w: int, input: InputState) -> int {
    let x1 = if input.right_held { step_toward_max(px, w) } else { px };
    let x2 = if input.left_held { step_toward_zero(x1) } else { x1 };
    if pad_dir_x(input) > 0 {
        step_toward_max(x2, w)
    } else if pad_dir_x(input) < 0 {
        step_toward_zero(x2)
    } else {
        x2
    }
}

/// The row a fully applied frame of input steers towards (down before up).
pub open spec fn input_target_y(py: int, h: int, input: InputState) -> int {
    let y1 = if input.down_held { step_toward_max(py, h) } else { py };
    let y2 = if input.up_held { step_toward_zero(y1) } else { y1 };
    if pad_dir_y(input) > 0 {
        step_toward_max(y2, h)
    } else if pad_dir_y(input) < 0 {
        step_toward_zero(y2)
    } else {
        y2
    }
}

/// Whether this frame asks for any movement at all.
pub open spec fn movement_requested(input: InputState) -> bool {
    ||| input.right_held
    ||| input.left_held
    ||| input.down_held
    ||| input.up_held
    ||| pad_dir_x(input) != 0
    ||| pad_dir_y(input) != 0
}

/// The stick is present but resting in the deadzone, which clears the
/// tracked gamepad direction.
pub open spec fn pad_resets_tracking(input: InputState) -> bool {
    input.gamepad_available && !pad_raw_active(input)
}

/// The scene after one frame of input. While a move is already queued the
/// frame is dropped entirely; otherwise the input's target cell is queued,
/// provided it differs from the player's cell.
pub open spec fn maze_after_input(v: MazeView, input: InputState) -> MazeView {
    if v.queued_move is Some {
        v
    } else {
        let tx = input_target_x(v.player_x, v.map.grid_w, input);
        let ty = input_target_y(v.player_y, v.map.grid_h, input);
        MazeView {
            queued_move: if movement_requested(input) && (tx != v.player_x || ty != v.player_y) {
                Some((tx, ty))
            } else {
                None
            },
            last_gamepad_direction: if pad_resets_tracking(input) {
                None
            } else {
                v.last_gamepad_direction
            },
            ..v
        }
    }
}

/// The signal the maze emits for a frame of input: the pause key pushes
/// the pause screen, anything else leaves the stack alone.
pub open spec fn maze_input_switch(input: InputState) -> SwitchV {
    if input.pause_pressed { SwitchV::Push(SceneV::Pause) } else { SwitchV::Stay }
}

/// The scene after one frame of elapsed time: the camera tracks the player
/// every frame, the accumulator adds the elapsed time, and when it reaches
/// the tick period it resets to zero and exactly one logical tick fires.
pub open spec fn maze_after_update(v: MazeView, dt: int, screen_w: int, screen_h: int) -> MazeView {
    let v1 = with_camera(v, screen_w, screen_h);
    if v1.tick_timer + dt >= TICK_PERIOD_MICROS {
        maze_tick(MazeView { tick_timer: 0, ..v1 })
    } else {
        MazeView { tick_timer: v1.tick_timer + dt, ..v1 }
    }
}

/// Whether some goal entity shares the player's cell.
pub open spec fn goal_reached(v: MazeView) -> bool {
    exists|i: int|
        0 <= i < v.map.entities.len() && (#[trigger] v.map.entities[i]).kind == EntityKind::Goal
            && v.map.entities[i].x == v.player_x && v.map.entities[i].y == v.player_y
}

/// The shared data after a frame: reaching the goal scores one point and
/// records the completion time.
pub open spec fn maze_update_data(v: MazeView, d: GameData, now: u64) -> GameData {
    if goal_reached(v) {
        GameData {
            points: (d.points + 1) as u32,
            level_completion_micros: Some(now),
            ..d
        }
    } else {
        d
    }
}

/// The signal the maze emits for a frame of elapsed time: reaching the
/// goal replaces the maze with the win screen.
pub open spec fn maze_update_switch(v: MazeView) -> SwitchV {
    if goal_reached(v) { SwitchV::Replace(SceneV::Win) } else { SwitchV::Stay }
}

impl MazeScene {
    /// Translate one frame of input into at most one queued move.
    ///
    /// While a move is already queued further input is dropped until the
    /// queue is consumed, so repeated calls cannot change the queued move.
    /// Held keys and the gamepad queue continuously, frame after frame.
    /// The pause key asks the stack to push the pause screen.
    pub fn handle_input(&mut self, input: &InputState) -> (sw: SceneSwitch)
        requires
            maze_wf(old(self)@),
            input.wf(),
        ensures
            final(self)@ == maze_after_input(old(self)@, *input),
            maze_wf(final(self)@),
            sw@ == maze_input_switch(*input),
            switch_wf(sw@),
    {
        if self.queued_move.is_none() {
            let mut new_x = self.player_x;
            let mut new_y = self.player_y;
            let mut movement_queued = false;

            if input.right_held {
                new_x = if new_x + 1 < self.map.grid_w { new_x + 1 } else { self.map.grid_w - 1 };
                movement_queued = true;
            }
            if input.left_held {
                new_x = if new_x >= 1 { new_x - 1 } else { 0 };
                movement_queued = true;
            }
            if input.down_held {
                new_y = if new_y + 1 < self.map.grid_h { new_y + 1 } else { self.map.grid_h - 1 };
                movement_queued = true;
            }
            if input.up_held {
                new_y = if new_y >= 1 { new_y - 1 } else { 0 };
                movement_queued = true;
            }

            if input.gamepad_available {
                let x_axis = input.axis_x;
                let y_axis = input.axis_y;
                let abs_x = if x_axis < 0 { -x_axis } else { x_axis };
                let abs_y = if y_axis < 0 { -y_axis } else { y_axis };

                if abs_x > GAMEPAD_DEADZONE || abs_y > GAMEPAD_DEADZONE {
                    let mut gamepad_x_dir: i32 = 0;
                    let mut gamepad_y_dir: i32 = 0;

                    if abs_x > abs_y {
                        gamepad_x_dir = if x_axis > 0 { 1 } else { -1 };
                    } else if abs_y > abs_x {
                        gamepad_y_dir = if y_axis > 0 { 1 } else { -1 };
                    } else {
                        if abs_x > GAMEPAD_DEADZONE {
                            gamepad_x_dir = if x_axis > 0 { 1 } else { -1 };
                        }
                        if abs_y > GAMEPAD_DEADZONE {
                            gamepad_y_dir = if y_axis > 0 { 1 } else { -1 };
                        }
                    }
                    assert(gamepad_x_dir as int == pad_dir_x(*input));
                    assert(gamepad_y_dir as int == pad_dir_y(*input));

                    if gamepad_x_dir != 0 {
                        new_x = if gamepad_x_dir > 0 {
                            if new_x + 1 < self.map.grid_w { new_x + 1 } else { self.map.grid_w - 1 }
                        } else {
                            if new_x >= 1 { new_x - 1 } else { 0 }
                        };
                        movement_queued = true;
                    }
                    if gamepad_y_dir != 0 {
                        new_y = if gamepad_y_dir > 0 {
                            if new_y + 1 < self.map.grid_h { new_y + 1 } else { self.map.grid_h - 1 }
                        } else {
                            if new_y >= 1 { new_y - 1 } else { 0 }
                        };
                        movement_queued = true;
                    }
                } else {
                    self.last_gamepad_direction = None;
                }
            }
            assert(new_x as int == input_target_x(old(self)@.player_x, old(self)@.map.grid_w, *input));
            assert(new_y as int == input_target_y(old(self)@.player_y, old(self)@.map.grid_h, *input));
            assert(movement_queued == movement_requested(*input));

            if movement_queued && (new_x != self.player_x || new_y != self.player_y) {
                self.queued_move = Some((new_x, new_y));
            }
        }

        if input.pause_pressed {
            SceneSwitch::Push(Scene::Pause(PauseScene))
        } else {
            SceneSwitch::Stay
        }
    }

    /// Advance the scene by `dt_micros` of real time: the camera tracks the
    /// player every frame; the tick accumulator fires at most one logical
    /// tick, which applies the queued move; and on every frame (tick or
    /// not) a goal entity on the player's cell scores a point, records the
    /// completion time `now_micros`, and replaces this scene with the win
    /// screen.
    pub fn update(&mut self, dt_micros: u64, now_micros: u64, data: &mut GameData) -> (sw: SceneSwitch)
        requires
            maze_wf(old(self)@),
            old(data).wf(),
            old(data).points < u32::MAX,
            dt_micros <= u64::MAX - TICK_PERIOD_MICROS,
            old(data).level_start_micros matches Some(s) ==> s <= now_micros,
        ensures
            final(self)@ == maze_after_update(
                old(self)@,
                dt_micros as int,
                old(data).screen_width as int,
                old(data).screen_height as int,
            ),
            maze_wf(final(self)@),
            *final(data) == maze_update_data(final(self)@, *old(data), now_micros),
            final(data).wf(),
            sw@ == maze_update_switch(final(self)@),
            switch_wf(sw@),
    {
        self.update_camera(data);

        self.tick_timer = self.tick_timer + dt_micros;
        if self.tick_timer >= TICK_PERIOD_MICROS {
            self.tick_timer = 0;
            self.update_player();
            self.update_enemies();
        }

        let ghost data0 = *data;
        let mut i: usize = 0;
        while i < self.map.entities.len()
            invariant
                i <= self.map.entities@.len(),
                *data == *old(data),
                old(data).wf(),
                old(data).points < u32::MAX,
                old(data).level_start_micros matches Some(s) ==> s <= now_micros,
                self@ == maze_after_update(
                    old(self)@,
                    dt_micros as int,
                    old(data).screen_width as int,
                    old(data).screen_height as int,
                ),
                maze_wf(self@),
                forall|j: int| 0 <= j < i ==> !((#[trigger] self.map.entities@[j]).kind
                    == EntityKind::Goal && self.map.entities@[j].x == self.player_x
                    && self.map.entities@[j].y == self.player_y),
            decreases self.map.entities@.len() - i,
        {
            let e = self.map.entities[i];
            if e.kind == EntityKind::Goal && e.x == self.player_x && e.y == self.player_y {
                assert(goal_reached(self@));
                data.score();
                data.complete_level(now_micros);
                return SceneSwitch::Replace(Scene::Win(WinScene));
            }
            i = i + 1;
        }
        assert(!goal_reached(self@));
        SceneSwitch::Stay
    }
}

/// The map's entities with every player entity removed; once the scene is
/// entered the player is simulated separately.
pub open spec fn non_player_entities(s: Seq<MapEntity>) -> Seq<MapEntity> {
    s.filter(|e: MapEntity| e.kind != EntityKind::Player)
}

/// Whether some entity is tagged as the player.
pub open spec fn has_player_entity(s: Seq<MapEntity>) -> bool {
    exists|i: int| 0 <= i < s.len() && (#[trigger] s[i]).kind == EntityKind::Player
}

/// Entity `i` is the first player entity in the list.
pub open spec fn is_first_player_entity(s: Seq<MapEntity>, i: int) -> bool {
    &&& 0 <= i < s.len()
    &&& s[i].kind == EntityKind::Player
    &&& forall|j: int| 0 <= j < i ==> (#[trigger] s[j]).kind != EntityKind::Player
}

/// Whether any cell of the map can be stepped onto.
pub open spec fn has_walkable(m: MapDataView) -> bool {
    exists|x: int, y: int| valid_move(m, x, y)
}

/// `(x, y)` is the first walkable cell in row-major scan order.
pub open spec fn is_first_walkable(m: MapDataView, x: int, y: int) -> bool {
    &&& valid_move(m, x, y)
    &&& forall|x2: int, y2: int| 0 <= y2 < y && 0 <= x2 < m.grid_w ==> !valid_move(m, x2, y2)
    &&& forall|x2: int| 0 <= x2 < x ==> !valid_move(m, x2, y)
}

/// Where the player starts on scene entry: at the first player entity if
/// the map places one, else at the first walkable cell in scan order, else
/// wherever the scene already had it.
pub open spec fn start_cell_ok(pre: MazeView, px: int, py: int) -> bool {
    if has_player_entity(pre.map.entities) {
        exists|i: int|
            #[trigger] is_first_player_entity(pre.map.entities, i) && px == pre.map.entities[i].x
                && py == pre.map.entities[i].y
    } else if has_walkable(pre.map) {
        is_first_walkable(pre.map, px, py)
    } else {
        px == pre.player_x && py == pre.player_y
    }
}

/// How scene entry transforms the maze: the tile size is taken from the
/// map, the player is placed, player entities are filtered out, and the
/// camera snaps to the player. Everything else is kept.
pub open spec fn entered_maze(pre: MazeView, post: MazeView, screen_w: int, screen_h: int) -> bool {
    &&& start_cell_ok(pre, post.player_x, post.player_y)
    &&& post == with_camera(
        MazeView {
            map: MapDataView { entities: non_player_entities(pre.map.entities), ..pre.map },
            tile_size: pre.map.tile_size_px,
            player_x: post.player_x,
            player_y: post.player_y,
            ..pre
        },
        screen_w,
        screen_h,
    )
}

/// The index of the first player entity, if any.
fn find_first_player(entities: &Vec<MapEntity>) -> (r: Option<usize>)
    ensures
        match r {
            Some(i) => is_first_player_entity(entities@, i as int),
            None => !has_player_entity(entities@),
        },
{
    let mut i: usize = 0;
    while i < entities.len()
        invariant
            i <= entities@.len(),
            forall|j: int| 0 <= j < i ==> (#[trigger] entities@[j]).kind != EntityKind::Player,
        decreases entities@.len() - i,
    {
        if entities[i].kind == EntityKind::Player {
            return Some(i);
        }
        i = i + 1;
    }
    None
}

/// The first walkable cell in row-major scan order, if any.
fn find_first_walkable(map: &MapData) -> (r: Option<(usize, usize)>)
    requires
        map_wf(map@),
    ensures
        match r {
            Some(c) => is_first_walkable(map@, c.0 as int, c.1 as int),
            None => !has_walkable(map@),
        },
{
    let mut y: usize = 0;
    while y < map.grid_h
        invariant
            map_wf(map@),
            y <= map@.grid_h,
            forall|x2: int, y2: int| 0 <= y2 < y && 0 <= x2 < map@.grid_w ==> !valid_move(map@, x2, y2),
        decreases map@.grid_h - y,
    {
        let mut x: usize = 0;
        while x < map.grid_w
            invariant
                map_wf(map@),
                y < map@.grid_h,
                x <= map@.grid_w,
                forall|x2: int, y2: int| 0 <= y2 < y && 0 <= x2 < map@.grid_w ==> !valid_move(map@, x2, y2),
                forall|x2: int| 0 <= x2 < x ==> !valid_move(map@, x2, y as int),
            decreases map@.grid_w - x,
        {
            let tid = map.tile_id(x, y);
            if tid >= 0 && !is_wall_tile(tid) {
                return Some((x, y));
            }
            x = x + 1;
        }
        y = y + 1;
    }
    None
}

impl MazeScene {
    /// One-time setup when the scene becomes active: adopt the map's tile
    /// size, place the player (map entity first, then first walkable cell,
    /// then leave it), drop player entities from the simulated list, snap
    /// the camera, and start the level timer at `now_micros`.
    pub fn on_enter(&mut self, now_micros: u64, data: &mut GameData)
        requires
            maze_wf(old(self)@),
            old(data).wf(),
        ensures
            entered_maze(
                old(self)@,
                final(self)@,
                old(data).screen_width as int,
                old(data).screen_height as int,
            ),
            maze_wf(final(self)@),
            *final(data) == (GameData {
                level_start_micros: Some(now_micros),
                level_completion_micros: None,
                ..*old(data)
            }),
            final(data).wf(),
    {
        self.tile_size = self.map.tile_size_px;

        match find_first_player(&self.map.entities) {
            Some(i) => {
                let e = self.map.entities[i];
                self.player_x = e.x;
                self.player_y = e.y;
            },
            None => {
                match find_first_walkable(&self.map) {
                    Some(c) => {
                        self.player_x = c.0;
                        self.player_y = c.1;
                    },
                    None => {},
                }
            },
        }
        assert(start_cell_ok(old(self)@, self@.player_x, self@.player_y));
        assert(self@.player_x < self@.map.grid_w && self@.player_y < self@.map.grid_h);

        let ghost pre_entities = self.map.entities@;
        let mut kept: Vec<MapEntity> = Vec::new();
        let mut i: usize = 0;
        while i < self.map.entities.len()
            invariant
                i <= self.map.entities@.len(),
                map_wf(self.map@),
                self.map.entities@ == pre_entities,
                kept@ == non_player_entities(pre_entities.take(i as int)),
                forall|k: int| 0 <= k < kept@.len() ==> (#[trigger] kept@[k]).x < self.map@.grid_w
                    && kept@[k].y < self.map@.grid_h,
            decreases self.map.entities@.len() - i,
        {
            let e = self.map.entities[i];
            proof {
                lemma_non_player_take_step(pre_entities, i as int);
                assert(self.map@.entities[i as int] == e);
                assert(e.x < self.map@.grid_w && e.y < self.map@.grid_h);
            }
            if !(e.kind == EntityKind::Player) {
                kept.push(e);
            }
            i = i + 1;
        }
        proof {
            assert(pre_entities.take(pre_entities.len() as int) =~= pre_entities);
        }
        self.map.entities = kept;

        self.update_camera(data);
        data.start_level_timer(now_micros);

        proof {
            assert(final(self)@ =~= with_camera(
                MazeView {
                    map: MapDataView {
                        entities: non_player_entities(old(self)@.map.entities),
                        ..old(self)@.map
                    },
                    tile_size: old(self)@.map.tile_size_px,
                    player_x: final(self)@.player_x,
                    player_y: final(self)@.player_y,
                    ..old(self)@
                },
                old(data).screen_width as int,
                old(data).screen_height as int,
            ));
        }
    }
}

/// Filtering the player out of the first `i + 1` entities keeps the first
/// `i` entities' result and appends the next entity exactly when it is not
/// the player.
proof fn lemma_non_player_take_step(s: Seq<MapEntity>, i: int)
    requires
        0 <= i < s.len(),
    ensures
        non_player_entities(s.take(i + 1)) == if s[i].kind != EntityKind::Player {
            non_player_entities(s.take(i)).push(s[i])
        } else {
            non_player_entities(s.take(i))
        },
{
    assert(s.take(i + 1).drop_last() =~= s.take(i));
    assert(s.take(i + 1).last() == s[i]);
    reveal_with_fuel(Seq::filter, 2);
}

/// A queued move is applied on a tick exactly when its target is in
/// bounds, holds a tile, and that tile is not a wall; otherwise the player
/// is unchanged. Either way the queue is consumed, and without a queued
/// move a tick changes nothing.
pub proof fn lemma_move_applied_iff(v: MazeView)
    ensures
        v.queued_move matches Some(t) ==> {
            &&& valid_move(v.map, t.0, t.1) ==> maze_tick(v).player_x == t.0
                && maze_tick(v).player_y == t.1
            &&& !valid_move(v.map, t.0, t.1) ==> maze_tick(v).player_x == v.player_x
                && maze_tick(v).player_y == v.player_y
            &&& maze_tick(v).queued_move is None
        },
        v.queued_move is None ==> maze_tick(v) == v,
{
}

/// The squared-distance check puts a tile at exactly the field-of-view
/// radius inside the field of view, and any tile whose squared distance
/// crosses the threshold outside it.
pub proof fn lemma_fov_boundary(v: MazeView, x: int, y: int)
    requires
        0 <= x < v.map.grid_w,
        0 <= y < v.map.grid_h,
    ensures
        (x - v.player_x) * (x - v.player_x) + (y - v.player_y) * (y - v.player_y)
            == v.fov_radius * v.fov_radius ==> fov_contains(v, x, y),
        (x - v.player_x) * (x - v.player_x) + (y - v.player_y) * (y - v.player_y)
            > v.fov_radius * v.fov_radius ==> !fov_contains(v, x, y),
{
}

/// The rectangular visible bounds are a superset of the field of view:
/// every cell the circular check admits lies inside them.
pub proof fn lemma_visible_bounds_cover_fov(v: MazeView, x: int, y: int)
    requires
        maze_wf(v),
        fov_contains(v, x, y),
    ensures
        vis_min_x(v) <= x < vis_max_x(v),
        vis_min_y(v) <= y < vis_max_y(v),
{
    let dx = x - v.player_x;
    let dy = y - v.player_y;
    let r = v.fov_radius;
    assert(dx * dx >= 0 && dy * dy >= 0) by (nonlinear_arith);
    assert(dx * dx <= r * r && dy * dy <= r * r);
    assert(-r <= dx <= r) by (nonlinear_arith)
        requires dx * dx <= r * r && r >= 0;
    assert(-r <= dy <= r) by (nonlinear_arith)
        requires dy * dy <= r * r && r >= 0;
}

/// While a move is already queued, a frame of input changes nothing: the
/// queued move, and the whole scene, stay exactly as they were.
pub proof fn lemma_input_ignored_while_queued(v: MazeView, input: InputState)
    requires
        v.queued_move is Some,
    ensures
        maze_after_input(v, input) == v,
{
}

/// The sum of a sequence of per-frame time deltas.
pub open spec fn sum_deltas(ds: Seq<int>) -> int
    decreases ds.len(),
{
    if ds.len() == 0 {
        0
    } else {
        ds[0] + sum_deltas(ds.drop_first())
    }
}

/// Every delta in the sequence is non-negative.
pub open spec fn all_nonneg(ds: Seq<int>) -> bool {
    forall|i: int| 0 <= i < ds.len() ==> ds[i] >= 0
}

/// The maze after a whole sequence of frames, one `update` per delta.
pub open spec fn maze_after_updates(v: MazeView, ds: Seq<int>, screen_w: int, screen_h: int) -> MazeView
    decreases ds.len(),
{
    if ds.len() == 0 {
        v
    } else {
        maze_after_updates(maze_after_update(v, ds[0], screen_w, screen_h), ds.drop_first(), screen_w, screen_h)
    }
}

proof fn lemma_sum_nonneg(ds: Seq<int>)
    requires
        all_nonneg(ds),
    ensures
        sum_deltas(ds) >= 0,
    decreases ds.len(),
{
    if ds.len() > 0 {
        lemma_sum_nonneg(ds.drop_first());
    }
}

/// While the accumulated time stays short of the tick period, frames move
/// only the camera and the accumulator: player, queued move and map are
/// untouched.
proof fn lemma_updates_without_tick(v: MazeView, ds: Seq<int>, screen_w: int, screen_h: int)
    requires
        0 <= v.tick_timer,
        all_nonneg(ds),
        v.tick_timer + sum_deltas(ds) < TICK_PERIOD_MICROS,
    ensures
        ({
            let w = maze_after_updates(v, ds, screen_w, screen_h);
            &&& w.player_x == v.player_x
            &&& w.player_y == v.player_y
            &&& w.queued_move == v.queued_move
            &&& w.tick_timer == v.tick_timer + sum_deltas(ds)
            &&& w.map == v.map
        }),
    decreases ds.len(),
{
    if ds.len() > 0 {
        lemma_sum_nonneg(ds.drop_first());
        let v1 = maze_after_update(v, ds[0], screen_w, screen_h);
        lemma_updates_without_tick(v1, ds.drop_first(), screen_w, screen_h);
    }
}

/// Tick determinism: however a time span of exactly one tick period is
/// split into non-negative per-frame deltas, exactly one logical tick
/// fires over the whole sequence — the queued move is applied (or
/// dropped) once, the queue is emptied once, and the accumulator ends at
/// zero — no matter how the span was divided.
pub proof fn lemma_tick_determinism(v: MazeView, ds: Seq<int>, screen_w: int, screen_h: int)
    requires
        0 <= v.tick_timer < TICK_PERIOD_MICROS,
        all_nonneg(ds),
        v.tick_timer + sum_deltas(ds) == TICK_PERIOD_MICROS,
    ensures
        ({
            let w = maze_after_updates(v, ds, screen_w, screen_h);
            &&& w.player_x == maze_tick(v).player_x
            &&& w.player_y == maze_tick(v).player_y
            &&& w.queued_move is None
            &&& w.tick_timer == 0
            &&& w.map == v.map
        }),
    decreases ds.len(),
{
    lemma_sum_nonneg(ds.drop_first());
    let v1 = maze_after_update(v, ds[0], screen_w, screen_h);
    if v.tick_timer + ds[0] >= TICK_PERIOD_MICROS {
        assert(v.tick_timer + ds[0] == TICK_PERIOD_MICROS);
        assert(sum_deltas(ds.drop_first()) == 0);
        lemma_updates_without_tick(v1, ds.drop_first(), screen_w, screen_h);
    } else {
        lemma_tick_determinism(v1, ds.drop_first(), screen_w, screen_h);
    }
}

impl MapData {
    /// The tile id at cell `(x, y)`.
    pub fn tile_id(&self, x: usize, y: usize) -> (t: i32)
        requires
            map_wf(self@),
            x < self@.grid_w,
            y < self@.grid_h,
        ensures
            t == tile_at(self@, x as int, y as int),
    {
        proof {
            assert(self@.tiles[y as int] == self.tiles@[y as int]@.map_values(|t: i32| t as int));
        }
        self.tiles[y][x]
    }
}

} // verus!
