//! A verified model of a first-person 3D rendering pipeline.
//!
//! All geometry, camera state and transform matrices are held in
//! fixed-point arithmetic: one unit is `FX_ONE` raw steps. The camera,
//! the scene container, the shader/texture resource models and the
//! renderer's draw-submission sequence are specified and proved here;
//! the windowing and GPU calls themselves live outside the library.

pub mod camera;
pub mod cube;
pub mod fx;
pub mod game_specs;
pub mod renderer;
pub mod shader;
pub mod texture;
pub mod world;
pub mod mat4;
pub mod trig;
pub mod vec3;
pub mod window;
