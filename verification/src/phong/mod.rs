//! Shading with the Phong reflection model.

pub mod deferred_pipeline;
pub mod forward_mesh;
pub mod material;
