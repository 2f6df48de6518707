//! A scene of textured quads: the quad geometry, the model matrices and
//! their uniform-buffer layout, the pipeline settings, and the commands each
//! frame hands to the graphics context.

pub mod geometry;
pub mod transform;
pub mod frame;
pub mod shader;
pub mod scene;
pub mod pipeline;
