//! Effects that work on the image rather than on the scene.

pub mod image_effect;
