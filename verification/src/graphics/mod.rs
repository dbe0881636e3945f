//! The vocabulary shared by every part of the renderer.

pub mod command;
pub mod context;
pub mod error;
pub mod names;
pub mod program;
pub mod shaders;
pub mod text;
pub mod types;
