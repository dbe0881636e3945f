//! The commands that the renderer asks the graphics context to carry out.
//!
//! A command is complete in itself: it names every resource and every value
//! that it works on, so the host can carry out a recording at any later
//! time, in order.

use vstd::prelude::*;
use crate::graphics::names::{Attribute, Sampler, Uniform, UniformBlock};
use crate::graphics::types::{
    Camera, ColorTargetTexture2DArray, DepthFormat, DepthTargetTexture2D,
    DepthTargetTexture2DArray, ElementBuffer, Format, Interpolation, Mat4, Program, RenderStates,
    Texture, UniformBuffer, Vec4, VertexBuffer, Viewport, Wrapping,
};
use crate::light::AmbientLight;
use crate::phong::material::PhongMaterial;

verus! {

/// The value that a uniform is set to. The host works it out from what it
/// holds under the names given here.
#[derive(Clone, Copy, Debug, PartialEq, Eq, Structural)]
pub enum UniformValue {
    /// The matrix itself.
    Matrix(Mat4),
    /// The transpose of the inverse of the matrix.
    InverseTranspose(Mat4),
    /// The inverse of the camera's projection times its view matrix.
    ViewProjectionInverse(Camera),
    /// The position of the camera.
    EyePosition(Camera),
    /// The colour of the ambient light scaled by its intensity.
    AmbientColor(AmbientLight),
    /// The vector itself.
    Vector(Vec4),
    /// An integer, given here.
    Int(i32),
}

/// The data that a vertex buffer is filled with. The arrays of a mesh stay
/// with the host, which keeps them under the identifier of the mesh.
#[derive(Clone, Copy, Debug, PartialEq, Eq, Structural)]
pub enum VertexData {
    /// The positions of a mesh, as floats.
    Positions { mesh: u64 },
    /// The normals of a mesh, as floats.
    Normals { mesh: u64 },
    /// The uv coordinates of a mesh, as floats.
    UvCoordinates { mesh: u64 },
    /// The colours of a mesh, as bytes.
    Colors { mesh: u64 },
    /// The corners of the triangle that covers the viewport.
    ScreenPositions,
    /// The uv coordinates at the corners of that triangle.
    ScreenUvCoordinates,
}

/// One request to the graphics context.
#[allow(inconsistent_fields)]
#[derive(Clone, Debug, PartialEq, Eq)]
pub enum Command {
    /// Compile and link a program from the two sources.
    CreateProgram { program: Program, vertex_shader_source: String, fragment_shader_source: String },
    /// Release a program.
    DeleteProgram { program: Program },
    /// Allocate a vertex buffer and fill it.
    CreateVertexBuffer { buffer: VertexBuffer, data: VertexData },
    /// Release a vertex buffer.
    DeleteVertexBuffer { buffer: VertexBuffer },
    /// Allocate an element buffer and fill it with the indices of a mesh.
    CreateElementBuffer { buffer: ElementBuffer, mesh: u64 },
    /// Release an element buffer.
    DeleteElementBuffer { buffer: ElementBuffer },
    /// Allocate a layered colour texture.
    CreateColorTargetTexture2DArray {
        texture: ColorTargetTexture2DArray,
        min_filter: Interpolation,
        mag_filter: Interpolation,
        mip_map_filter: Option<Interpolation>,
        wrap_s: Wrapping,
        wrap_t: Wrapping,
        format: Format,
    },
    /// Allocate a layered depth texture.
    CreateDepthTargetTexture2DArray {
        texture: DepthTargetTexture2DArray,
        wrap_s: Wrapping,
        wrap_t: Wrapping,
        format: DepthFormat,
    },
    /// Allocate a depth texture.
    CreateDepthTargetTexture2D {
        texture: DepthTargetTexture2D,
        wrap_s: Wrapping,
        wrap_t: Wrapping,
        format: DepthFormat,
    },
    /// Release a texture.
    DeleteTexture { texture: Texture },
    /// Set a uniform of a program.
    SetUniform { program: Program, uniform: Uniform, value: UniformValue },
    /// Bind a uniform buffer to a block of a program.
    UseUniformBlock { program: Program, buffer: UniformBuffer, block: UniformBlock },
    /// Bind a texture to a sampler of a program.
    UseTexture { program: Program, texture: Texture, sampler: Sampler },
    /// Bind a vertex buffer to an attribute of a program.
    UseAttribute { program: Program, buffer: VertexBuffer, attribute: Attribute },
    /// Bind what a material needs beyond the light: its reflection
    /// coefficients and its colour or texture.
    BindMaterial { program: Program, material: PhongMaterial },
    /// Draw `count` consecutive vertices as triangles.
    DrawArrays { program: Program, render_states: RenderStates, viewport: Viewport, count: usize },
    /// Draw the triangles that the whole element buffer lists.
    DrawElements {
        program: Program,
        render_states: RenderStates,
        viewport: Viewport,
        element_buffer: ElementBuffer,
    },
    /// Open a render target on the listed layers of a colour array and on
    /// one layer of a depth array.
    BeginRenderTargetArray {
        color_texture: ColorTargetTexture2DArray,
        depth_texture: DepthTargetTexture2DArray,
        color_layers: Vec<usize>,
        depth_layer: usize,
    },
    /// Clear colour and depth of the open render target.
    ClearRenderTarget,
    /// Close the open render target.
    EndRenderTarget,
    /// Copy one layer of a depth array into a depth texture.
    CopyDepth {
        source: DepthTargetTexture2DArray,
        layer: usize,
        destination: DepthTargetTexture2D,
        viewport: Viewport,
    },
}

/// What a [`Command`] says, with texts and lists as sequences.
#[allow(inconsistent_fields)]
pub enum CommandView {
    CreateProgram {
        program: Program,
        vertex_shader_source: Seq<char>,
        fragment_shader_source: Seq<char>,
    },
    DeleteProgram { program: Program },
    CreateVertexBuffer { buffer: VertexBuffer, data: VertexData },
    DeleteVertexBuffer { buffer: VertexBuffer },
    CreateElementBuffer { buffer: ElementBuffer, mesh: u64 },
    DeleteElementBuffer { buffer: ElementBuffer },
    CreateColorTargetTexture2DArray {
        texture: ColorTargetTexture2DArray,
        min_filter: Interpolation,
        mag_filter: Interpolation,
        mip_map_filter: Option<Interpolation>,
        wrap_s: Wrapping,
        wrap_t: Wrapping,
        format: Format,
    },
    CreateDepthTargetTexture2DArray {
        texture: DepthTargetTexture2DArray,
        wrap_s: Wrapping,
        wrap_t: Wrapping,
        format: DepthFormat,
    },
    CreateDepthTargetTexture2D {
        texture: DepthTargetTexture2D,
        wrap_s: Wrapping,
        wrap_t: Wrapping,
        format: DepthFormat,
    },
    DeleteTexture { texture: Texture },
    SetUniform { program: Program, uniform: Uniform, value: UniformValue },
    UseUniformBlock { program: Program, buffer: UniformBuffer, block: UniformBlock },
    UseTexture { program: Program, texture: Texture, sampler: Sampler },
    UseAttribute { program: Program, buffer: VertexBuffer, attribute: Attribute },
    BindMaterial { program: Program, material: PhongMaterial },
    DrawArrays { program: Program, render_states: RenderStates, viewport: Viewport, count: usize },
    DrawElements {
        program: Program,
        render_states: RenderStates,
        viewport: Viewport,
        element_buffer: ElementBuffer,
    },
    BeginRenderTargetArray {
        color_texture: ColorTargetTexture2DArray,
        depth_texture: DepthTargetTexture2DArray,
        color_layers: Seq<usize>,
        depth_layer: usize,
    },
    ClearRenderTarget,
    EndRenderTarget,
    CopyDepth {
        source: DepthTargetTexture2DArray,
        layer: usize,
        destination: DepthTargetTexture2D,
        viewport: Viewport,
    },
}

impl View for Command {
    type V = CommandView;

    open spec fn view(&self) -> CommandView {
        match *self {
            Command::CreateProgram { program, vertex_shader_source, fragment_shader_source } => {
                CommandView::CreateProgram {
                    program,
                    vertex_shader_source: vertex_shader_source@,
                    fragment_shader_source: fragment_shader_source@,
                }
            },
            Command::DeleteProgram { program } => CommandView::DeleteProgram { program },
            Command::CreateVertexBuffer { buffer, data } => CommandView::CreateVertexBuffer {
                buffer,
                data,
            },
            Command::DeleteVertexBuffer { buffer } => CommandView::DeleteVertexBuffer { buffer },
            Command::CreateElementBuffer { buffer, mesh } => CommandView::CreateElementBuffer {
                buffer,
                mesh,
            },
            Command::DeleteElementBuffer { buffer } => CommandView::DeleteElementBuffer { buffer },
            Command::CreateColorTargetTexture2DArray {
                texture,
                min_filter,
                mag_filter,
                mip_map_filter,
                wrap_s,
                wrap_t,
                format,
            } => CommandView::CreateColorTargetTexture2DArray {
                texture,
                min_filter,
                mag_filter,
                mip_map_filter,
                wrap_s,
                wrap_t,
                format,
            },
            Command::CreateDepthTargetTexture2DArray { texture, wrap_s, wrap_t, format } => {
                CommandView::CreateDepthTargetTexture2DArray { texture, wrap_s, wrap_t, format }
            },
            Command::CreateDepthTargetTexture2D { texture, wrap_s, wrap_t, format } => {
                CommandView::CreateDepthTargetTexture2D { texture, wrap_s, wrap_t, format }
            },
            Command::DeleteTexture { texture } => CommandView::DeleteTexture { texture },
            Command::SetUniform { program, uniform, value } => CommandView::SetUniform {
                program,
                uniform,
                value,
            },
            Command::UseUniformBlock { program, buffer, block } => CommandView::UseUniformBlock {
                program,
                buffer,
                block,
            },
            Command::UseTexture { program, texture, sampler } => CommandView::UseTexture {
                program,
                texture,
                sampler,
            },
            Command::UseAttribute { program, buffer, attribute } => CommandView::UseAttribute {
                program,
                buffer,
                attribute,
            },
            Command::BindMaterial { program, material } => CommandView::BindMaterial {
                program,
                material,
            },
            Command::DrawArrays { program, render_states, viewport, count } => {
                CommandView::DrawArrays { program, render_states, viewport, count }
            },
            Command::DrawElements { program, render_states, viewport, element_buffer } => {
                CommandView::DrawElements { program, render_states, viewport, element_buffer }
            },
            Command::BeginRenderTargetArray {
                color_texture,
                depth_texture,
                color_layers,
                depth_layer,
            } => CommandView::BeginRenderTargetArray {
                color_texture,
                depth_texture,
                color_layers: color_layers@,
                depth_layer,
            },
            Command::ClearRenderTarget => CommandView::ClearRenderTarget,
            Command::EndRenderTarget => CommandView::EndRenderTarget,
            Command::CopyDepth { source, layer, destination, viewport } => CommandView::CopyDepth {
                source,
                layer,
                destination,
                viewport,
            },
        }
    }
}

impl CommandView {
    /// Whether the command draws.
    pub open spec fn is_draw(self) -> bool {
        self is DrawArrays || self is DrawElements
    }

    /// The number of triangles that a draw call covers: one for every three
    /// vertices or indices.
    pub open spec fn triangles(self) -> int
        recommends
            self.is_draw(),
    {
        match self {
            CommandView::DrawArrays { count, .. } => count as int / 3,
            CommandView::DrawElements { element_buffer, .. } => element_buffer.count as int / 3,
            _ => 0,
        }
    }
}

/// Whether the last of the commands draws and no other does.
pub open spec fn draws_once_at_end(commands: Seq<CommandView>) -> bool {
    &&& commands.len() > 0
    &&& commands.last().is_draw()
    &&& forall|i: int| 0 <= i < commands.len() - 1 ==> !(#[trigger] commands[i]).is_draw()
}

/// Whether none of the commands draws.
pub open spec fn draws_nothing(commands: Seq<CommandView>) -> bool {
    forall|i: int| 0 <= i < commands.len() ==> !(#[trigger] commands[i]).is_draw()
}

/// The views of a list of commands, in order.
pub open spec fn views(commands: Seq<Command>) -> Seq<CommandView> {
    commands.map_values(|command: Command| command@)
}

/// Appending a command appends its view.
pub proof fn lemma_views_push(commands: Seq<Command>, command: Command)
    ensures
        views(commands.push(command)) == views(commands).push(command@),
{
    assert(views(commands.push(command)) =~= views(commands).push(command@));
}

} // verus!
