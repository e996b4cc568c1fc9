//! Small screen-space helpers shared by the menu-style scenes.

use vstd::prelude::*;

verus! {

/// An axis-aligned screen rectangle in pixel coordinates.
#[derive(Clone, Copy, PartialEq, Eq, Structural)]
pub struct PixelRect {
    pub x: i32,
    pub y: i32,
    pub width: i32,
    pub height: i32,
}

/// Whether the point lies inside the rectangle, borders included.
pub open spec fn point_in_rect(px: int, py: int, r: PixelRect) -> bool {
    &&& r.x <= px <= r.x + r.width
    &&& r.y <= py <= r.y + r.height
}

/// Point-in-rectangle test for click handling.
pub fn check_collision_point_rect(px: i32, py: i32, rect: &PixelRect) -> (r: bool)
    ensures
        r == point_in_rect(px as int, py as int, *rect),
{
    let in_x = px as i64 >= rect.x as i64 && px as i64 <= rect.x as i64 + rect.width as i64;
    let in_y = py as i64 >= rect.y as i64 && py as i64 <= rect.y as i64 + rect.height as i64;
    in_x && in_y
}

} // verus!
