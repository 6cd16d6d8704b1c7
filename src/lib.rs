//! Geometry and camera arithmetic for drawing a scrollable, zoomable tile
//! world: points, sizes and rectangles over fixed-width integers, the camera,
//! the range of tiles that a window shows, and the mapping between tiles and
//! window pixels.

pub mod camera;
pub mod input;
pub mod num;
pub mod point;
pub mod rect;
pub mod render_game;
pub mod size;
pub mod viewport;
