//! The state model of a small grid snake game: points on the grid, the
//! snake's body and its movement, the pause lifecycle, the filter that turns
//! key presses into direction changes, and the arithmetic that places grid
//! cells on screen.

pub mod geometry;
pub mod game_context;
pub mod control;
pub mod layout;
