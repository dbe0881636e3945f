//! Things that can be drawn.

pub mod cache;
pub mod mesh;
