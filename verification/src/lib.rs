//! Integer model of an interactive 3D scene: camera, instance grid, orbiting
//! light, pipeline policy and the per-frame command plan.

pub mod camera;
pub mod instance;
pub mod light;
pub mod pipeline;
pub mod renderer;
pub mod state;
pub mod units;
