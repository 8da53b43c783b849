use vstd::prelude::*;
use crate::renderer::PolygonMode;

verus! {

/// The window title.
pub const TITLE: &'static str = "OpenGL Demo";

/// The window width, in pixels.
pub const WINDOW_WIDTH: u32 = 800;

/// The window height, in pixels.
pub const WINDOW_HEIGHT: u32 = 600;

/// The polygon mode the demo starts in.
pub const POLYGON_MODE: PolygonMode = PolygonMode::Line;

} // verus!
