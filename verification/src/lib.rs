//! The rendering core of a real-time 3D toolkit: which shader program to
//! use for a mesh, what to bind to it, and in which order the passes of a
//! deferred Phong pipeline run.
//!
//! The library never talks to a graphics device. Every operation appends
//! [`Command`]s to a [`Context`]; the host takes them from there and carries
//! them out in order. What each operation records is stated in its contract
//! and proved.

pub mod effect;
pub mod graphics;
pub mod light;
pub mod object;
pub mod phong;

pub use crate::effect::image_effect::ImageEffect;
pub use crate::graphics::command::{Command, UniformValue, VertexData};
pub use crate::graphics::context::Context;
pub use crate::graphics::error::Error;
pub use crate::graphics::names::{Attribute, Sampler, Uniform, UniformBlock};
pub use crate::graphics::shaders::{LightType, ShaderSources};
pub use crate::graphics::types::{
    BlendParameters, Camera, ColorTargetTexture2DArray, CullType, DepthFormat,
    DepthTargetTexture2D, DepthTargetTexture2DArray, DepthTestType, ElementBuffer, Format,
    Interpolation, Mat4, Program, RenderStates, Texture, UniformBuffer, Vec4, VertexBuffer,
    Viewport, Wrapping,
};
pub use crate::light::{AmbientLight, DirectionalLight, Light, PointLight, SpotLight};
pub use crate::object::cache::{LightConfiguration, MeshFamily, ProgramVariant, VariantCache};
pub use crate::object::mesh::{CPUMesh, Mesh, MeshProgram, ProgramVariantKey};
pub use crate::phong::deferred_pipeline::{DebugType, PhongDeferredPipeline, PipelineState};
pub use crate::phong::forward_mesh::PhongForwardMesh;
pub use crate::phong::material::{ColorSource, ColorSourceKind, PhongMaterial};
