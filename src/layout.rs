use vstd::prelude::*;
use crate::geometry::Point;
use crate::game_context::GameState;

verus! {

/// Columns of the playing grid.
pub const GRID_X_SIZE: u32 = 40;

/// Rows of the playing grid.
pub const GRID_Y_SIZE: u32 = 30;

/// Side of one grid cell on screen, in pixels.
pub const DOT_SIZE_IN_PXS: u32 = 20;

/// Width of the window, in pixels.
pub const WINDOW_WIDTH: u32 = GRID_X_SIZE * DOT_SIZE_IN_PXS;

/// Height of the window, in pixels.
pub const WINDOW_HEIGHT: u32 = GRID_Y_SIZE * DOT_SIZE_IN_PXS;

/// Whether the pixel corner of cell `p` has coordinates within `i32`.
pub open spec fn cell_fits(p: Point) -> bool {
    &&& i32::MIN <= p.0 * DOT_SIZE_IN_PXS <= i32::MAX
    &&& i32::MIN <= p.1 * DOT_SIZE_IN_PXS <= i32::MAX
}

/// The square that cell `p` covers on screen: left, top, width and height
/// in pixels.
pub fn cell_rect(p: Point) -> (r: (i32, i32, u32, u32))
    requires
        cell_fits(p),
    ensures
        r.0 == p.0 * DOT_SIZE_IN_PXS,
        r.1 == p.1 * DOT_SIZE_IN_PXS,
        r.2 == DOT_SIZE_IN_PXS,
        r.3 == DOT_SIZE_IN_PXS,
{
    let size = DOT_SIZE_IN_PXS as i32;
    (p.0 * size, p.1 * size, DOT_SIZE_IN_PXS, DOT_SIZE_IN_PXS)
}

/// The background colour, as red, green and blue: black while playing, dark
/// grey while paused.
pub fn background_rgb(state: GameState) -> (r: (u8, u8, u8))
    ensures
        state == GameState::Playing ==> r == (0u8, 0u8, 0u8),
        state == GameState::Paused ==> r == (30u8, 30u8, 30u8),
{
    match state {
        GameState::Playing => (0, 0, 0),
        GameState::Paused => (30, 30, 30),
    }
}

} // verus!
