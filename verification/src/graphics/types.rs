//! Handles to resources of the graphics context, and the plain values that
//! travel with a draw call.
//!
//! Nothing here touches a graphics device. A handle is a name: the number
//! under which the host keeps the real object. The resources that the
//! renderer creates are named by the identifiers that a
//! [`Context`](crate::graphics::context::Context) hands out. What the host
//! holds by itself (matrices, colours, uniform buffers, textures of its own)
//! is named by identifiers of the host's choosing, one namespace for each
//! type.

use vstd::prelude::*;

verus! {

/// A compiled and linked shader program.
#[derive(Clone, Copy, Debug, PartialEq, Eq, Structural)]
pub struct Program {
    pub id: u64,
}

/// A buffer of per-vertex data. `count` is the number of scalars it holds,
/// so a buffer of three-component positions describes `count / 3` vertices.
#[derive(Clone, Copy, Debug, PartialEq, Eq, Structural)]
pub struct VertexBuffer {
    pub id: u64,
    pub count: usize,
}

/// A buffer of vertex indices; `count` is the number of indices.
#[derive(Clone, Copy, Debug, PartialEq, Eq, Structural)]
pub struct ElementBuffer {
    pub id: u64,
    pub count: usize,
}

/// A uniform buffer that the host created and owns, such as the matrices of
/// a camera or the parameters of a light. Its `id` is the host's to choose.
#[derive(Clone, Copy, Debug, PartialEq, Eq, Structural)]
pub struct UniformBuffer {
    pub id: u64,
}

/// A layered colour image that can be rendered into; `depth` is the number
/// of layers.
#[derive(Clone, Copy, Debug, PartialEq, Eq, Structural)]
pub struct ColorTargetTexture2DArray {
    pub id: u64,
    pub width: usize,
    pub height: usize,
    pub depth: usize,
}

/// A layered depth image that can be rendered into; `depth` is the number
/// of layers.
#[derive(Clone, Copy, Debug, PartialEq, Eq, Structural)]
pub struct DepthTargetTexture2DArray {
    pub id: u64,
    pub width: usize,
    pub height: usize,
    pub depth: usize,
}

/// A single-layer depth image that can be rendered into.
#[derive(Clone, Copy, Debug, PartialEq, Eq, Structural)]
pub struct DepthTargetTexture2D {
    pub id: u64,
    pub width: usize,
    pub height: usize,
}

/// Anything that can be bound to a sampler of a program.
///
/// The first three variants name textures that were created through a
/// [`Context`](crate::graphics::context::Context). `Foreign` names a texture
/// that the host created by itself (a shadow map, an image loaded from
/// disk); its `id` is the host's to choose and lives apart from the
/// identifiers that a context hands out.
#[derive(Clone, Copy, Debug, PartialEq, Eq, Structural)]
pub enum Texture {
    ColorTargetArray(ColorTargetTexture2DArray),
    DepthTargetArray(DepthTargetTexture2DArray),
    DepthTarget(DepthTargetTexture2D),
    Foreign { id: u64 },
}

/// How texels are picked when a texture is minified or magnified.
#[derive(Clone, Copy, Debug, PartialEq, Eq, Structural)]
pub enum Interpolation {
    Nearest,
    Linear,
}

/// What a sampler returns outside the unit square.
#[derive(Clone, Copy, Debug, PartialEq, Eq, Structural)]
pub enum Wrapping {
    Repeat,
    MirroredRepeat,
    ClampToEdge,
}

/// The texel layout of a colour texture.
#[derive(Clone, Copy, Debug, PartialEq, Eq, Structural)]
pub enum Format {
    R8,
    RGB8,
    RGBA8,
}

/// The texel layout of a depth texture.
#[derive(Clone, Copy, Debug, PartialEq, Eq, Structural)]
pub enum DepthFormat {
    Depth16,
    Depth24,
    Depth32F,
}

/// Which side of a triangle is discarded.
#[derive(Clone, Copy, Debug, PartialEq, Eq, Structural)]
pub enum CullType {
    Off,
    Back,
    Front,
    FrontAndBack,
}

/// The comparison that a fragment's depth must pass.
#[derive(Clone, Copy, Debug, PartialEq, Eq, Structural)]
pub enum DepthTestType {
    Off,
    Never,
    Less,
    Equal,
    LessOrEqual,
    Greater,
    NotEqual,
    GreaterOrEqual,
    Always,
}

/// How a fragment is combined with what the render target already holds.
#[derive(Clone, Copy, Debug, PartialEq, Eq, Structural)]
pub enum BlendParameters {
    /// The fragment is added to the stored colour, channel by channel.
    Add,
    /// The fragment is weighted by its alpha, the stored colour by one minus
    /// that alpha.
    Transparency,
}

/// The fixed-function state under which a draw call runs. With `blend` set
/// to `None` a fragment that passes the depth test overwrites the stored
/// colour.
#[derive(Clone, Copy, Debug, PartialEq, Eq, Structural)]
pub struct RenderStates {
    pub cull: CullType,
    pub depth_test: DepthTestType,
    pub blend: Option<BlendParameters>,
}

impl RenderStates {
    /// The same state with additive blending switched on.
    pub open spec fn spec_additive(self) -> RenderStates {
        RenderStates { blend: Some(BlendParameters::Add), ..self }
    }

    /// The same state with additive blending switched on.
    pub fn additive(self) -> (states: RenderStates)
        ensures
            states == self.spec_additive(),
    {
        RenderStates { cull: self.cull, depth_test: self.depth_test, blend: Some(BlendParameters::Add) }
    }
}

/// The rectangle of a render target that a draw call may touch.
#[derive(Clone, Copy, Debug, PartialEq, Eq, Structural)]
pub struct Viewport {
    pub x: i32,
    pub y: i32,
    pub width: usize,
    pub height: usize,
}

impl Viewport {
    /// The viewport of the given size whose lower left corner is the origin.
    pub open spec fn spec_new_at_origo(width: usize, height: usize) -> Viewport {
        Viewport { x: 0, y: 0, width, height }
    }

    /// The viewport of the given size whose lower left corner is the origin.
    pub fn new_at_origo(width: usize, height: usize) -> (viewport: Viewport)
        ensures
            viewport == Viewport::spec_new_at_origo(width, height),
    {
        Viewport { x: 0, y: 0, width, height }
    }
}

/// A 4×4 matrix that the host holds, such as the transformation of a mesh.
#[derive(Clone, Copy, Debug, PartialEq, Eq, Structural)]
pub struct Mat4 {
    pub id: u64,
}

/// A vector of four components that the host holds, such as a colour.
#[derive(Clone, Copy, Debug, PartialEq, Eq, Structural)]
pub struct Vec4 {
    pub id: u64,
}

/// The view of a scene. The position and the matrices of the camera stay
/// with the host; the uniform buffer that carries the matrices names the
/// camera.
#[derive(Clone, Copy, Debug, PartialEq, Eq, Structural)]
pub struct Camera {
    pub matrix_buffer: UniformBuffer,
}

impl Camera {
    /// The uniform buffer with the view and projection matrices.
    pub fn matrix_buffer(&self) -> (buffer: UniformBuffer)
        ensures
            buffer == self.matrix_buffer,
    {
        self.matrix_buffer
    }
}

} // verus!
