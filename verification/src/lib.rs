//! A small tile-based dungeon game: a scene stack drives per-frame
//! lifecycle calls, and the maze scene runs a tick-based grid simulation
//! with field-of-view culling and a player-centered camera.
//!
//! Tile ids classify the grid: certain ranges are floor, others are wall,
//! anything else that is non-negative is inert but walkable, and negative
//! ids mean no tile at all.

use vstd::prelude::*;

pub mod game_data;
pub mod maze_scene;
pub mod menu_scene;
pub mod scenes;
pub mod utils;

verus! {

/// Floor tiles are the ids drawn as ground.
pub open spec fn floor_tile(tile_id: int) -> bool {
    (4 <= tile_id <= 81) || (191 <= tile_id <= 218)
}

/// Wall tiles block movement.
pub open spec fn wall_tile(tile_id: int) -> bool {
    88 <= tile_id <= 190
}

/// A tile id is floor exactly when it lies in one of the two floor ranges.
pub fn is_floor_tile(tile_id: i32) -> (r: bool)
    ensures
        r == floor_tile(tile_id as int),
{
    (4 <= tile_id && tile_id <= 81) || (191 <= tile_id && tile_id <= 218)
}

/// A tile id is wall exactly when it lies in the wall range.
pub fn is_wall_tile(tile_id: i32) -> (r: bool)
    ensures
        r == wall_tile(tile_id as int),
{
    88 <= tile_id && tile_id <= 190
}

/// No tile id is both floor and wall: the two ranges are disjoint.
pub proof fn lemma_floor_wall_disjoint()
    ensures
        forall|t: int| !(floor_tile(t) && wall_tile(t)),
{
}

} // verus!
