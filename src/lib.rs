//! Scene-viewer core: input translation, first-person motion, and the
//! handle registry and frame planning of the renderer.

pub mod input_manager;
pub mod motion;
pub mod renderer;
pub mod vertex_layout;
