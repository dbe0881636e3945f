//! Meshes on the graphics device and the programs that draw them.

use vstd::prelude::*;
use vstd::string::StringExecFns;
use crate::graphics::command::{
    draws_nothing, draws_once_at_end, Command, CommandView, UniformValue, VertexData,
};
use crate::graphics::context::{lemma_absent_program_is_compiled, Context, ContextView};
use crate::graphics::error::Error;
use crate::graphics::names::{Attribute, Sampler, Uniform, UniformBlock};
use crate::graphics::text::{contains, occurs};
use crate::graphics::types::{
    Camera, ElementBuffer, Mat4, Program, RenderStates, Texture, Vec4, VertexBuffer, Viewport,
};
use crate::object::cache::{MeshFamily, ProgramVariant};

verus! {

/// The declaration by which a fragment shader asks for the position of the
/// fragment in the world.
pub const POSITION_MARKER: &'static str = "in vec3 pos;";

/// The declaration by which a fragment shader asks for the normal.
pub const NORMAL_MARKER: &'static str = "in vec3 nor;";

/// The declaration by which a fragment shader asks for the uv coordinates.
pub const UV_MARKER: &'static str = "in vec2 uvs;";

/// The declaration by which a fragment shader asks for the per-vertex
/// colour.
pub const COLOR_MARKER: &'static str = "in vec4 col;";

/// The part of the vertex shader that every mesh program starts with.
pub const DECLARATIONS: &'static str = "
                layout (std140) uniform Camera
                {
                    mat4 viewProjection;
                    mat4 view;
                    mat4 projection;
                    vec3 position;
                    float padding;
                } camera;

                uniform mat4 modelMatrix;
                in vec3 position;

                ";

/// Declares the position output.
pub const POSITION_OUTPUT: &'static str = "out vec3 pos;";

/// What follows the declaration of the position output.
pub const AFTER_POSITION_OUTPUT: &'static str = " // Positions out
                ";

/// Declares what a shader that reads normals needs.
pub const NORMAL_INPUT: &'static str = "uniform mat4 normalMatrix;
                in vec3 normal;
                out vec3 nor;";

/// What follows the declarations for normals.
pub const AFTER_NORMAL_INPUT: &'static str = " // Normals in/out
                ";

/// Declares what a shader that reads uv coordinates needs.
pub const UV_INPUT: &'static str = "in vec2 uv_coordinates;
                out vec2 uvs;";

/// What follows the declarations for uv coordinates.
pub const AFTER_UV_INPUT: &'static str = " // UV coordinates in/out
                ";

/// Declares what a shader that reads colours needs.
pub const COLOR_INPUT: &'static str = "in vec4 color;
                out vec4 col;";

/// What follows the declarations for colours: the start of `main`, which places the vertex.
pub const MAIN: &'static str = " // Colors in/out

                void main()
                {
                    vec4 worldPosition = modelMatrix * vec4(position, 1.);
                    gl_Position = camera.viewProjection * worldPosition;
                    ";

/// Hands the position in the world on.
pub const POSITION_ASSIGNMENT: &'static str = "pos = worldPosition.xyz;";

/// What follows the assignment of the position output.
pub const AFTER_POSITION_ASSIGNMENT: &'static str = " // Position
                    ";

/// Hands the transformed normal on.
pub const NORMAL_ASSIGNMENT: &'static str = "nor = mat3(normalMatrix) * normal;";

/// What follows the assignment of the normal.
pub const AFTER_NORMAL_ASSIGNMENT: &'static str = " // Normal
                    ";

/// Hands the uv coordinates on.
pub const UV_ASSIGNMENT: &'static str = "uvs = uv_coordinates;";

/// What follows the assignment of the uv coordinates.
pub const AFTER_UV_ASSIGNMENT: &'static str = " // UV coordinates
                    ";

/// Hands the colour on.
pub const COLOR_ASSIGNMENT: &'static str = "col = color;";

/// The end of `main` and of the vertex shader.
pub const END: &'static str = " // Colors
                }
            ";

/// `text` if it is wanted, nothing otherwise.
pub open spec fn spec_optional(wanted: bool, text: Seq<char>) -> Seq<char> {
    if wanted {
        text
    } else {
        Seq::<char>::empty()
    }
}

/// Appends `text` to `source` if it is wanted.
fn append_optional(source: &mut String, wanted: bool, text: &str)
    ensures
        final(source)@ == old(source)@ + spec_optional(wanted, text@),
{
    if wanted {
        source.append(text);
    } else {
        assert(source@ + Seq::<char>::empty() =~= source@);
    }
}

/// What a fragment shader reads from the vertex shader of a mesh program.
///
/// The key is read off the fragment shader's source once, when a program is
/// made from it, and decides the text of the vertex shader.
#[derive(Clone, Copy, Debug, PartialEq, Eq, Structural)]
pub struct ProgramVariantKey {
    /// The fragment shader reads the position of the fragment in the world.
    pub needs_position_output: bool,
    /// The fragment shader reads the normal.
    pub needs_normal: bool,
    /// The fragment shader reads the uv coordinates.
    pub needs_uv: bool,
    /// The fragment shader reads the per-vertex colour.
    pub needs_color: bool,
}

impl ProgramVariantKey {
    /// The key of a fragment shader: each input is needed exactly if the
    /// source holds its declaration.
    pub open spec fn spec_probe(fragment_shader_source: Seq<char>) -> ProgramVariantKey {
        ProgramVariantKey {
            needs_position_output: occurs(fragment_shader_source, POSITION_MARKER@),
            needs_normal: occurs(fragment_shader_source, NORMAL_MARKER@),
            needs_uv: occurs(fragment_shader_source, UV_MARKER@),
            needs_color: occurs(fragment_shader_source, COLOR_MARKER@),
        }
    }

    /// The vertex shader for this key. Each input that the fragment shader
    /// needs adds its declarations before `main` and one assignment inside
    /// it; the rest of the text is fixed.
    pub open spec fn spec_vertex_shader_source(self) -> Seq<char> {
        DECLARATIONS@ + spec_optional(self.needs_position_output, POSITION_OUTPUT@)
            + AFTER_POSITION_OUTPUT@ + spec_optional(self.needs_normal, NORMAL_INPUT@)
            + AFTER_NORMAL_INPUT@ + spec_optional(self.needs_uv, UV_INPUT@)
            + AFTER_UV_INPUT@ + spec_optional(self.needs_color, COLOR_INPUT@)
            + MAIN@ + spec_optional(self.needs_position_output, POSITION_ASSIGNMENT@)
            + AFTER_POSITION_ASSIGNMENT@ + spec_optional(self.needs_normal, NORMAL_ASSIGNMENT@)
            + AFTER_NORMAL_ASSIGNMENT@ + spec_optional(self.needs_uv, UV_ASSIGNMENT@)
            + AFTER_UV_ASSIGNMENT@ + spec_optional(self.needs_color, COLOR_ASSIGNMENT@)
            + END@
    }

    /// Reads the key off the source of a fragment shader.
    pub fn probe(fragment_shader_source: &str) -> (key: ProgramVariantKey)
        ensures
            key == ProgramVariantKey::spec_probe(fragment_shader_source@),
    {
        ProgramVariantKey {
            needs_position_output: contains(fragment_shader_source, POSITION_MARKER),
            needs_normal: contains(fragment_shader_source, NORMAL_MARKER),
            needs_uv: contains(fragment_shader_source, UV_MARKER),
            needs_color: contains(fragment_shader_source, COLOR_MARKER),
        }
    }

    /// Writes the vertex shader for this key.
    pub fn vertex_shader_source(&self) -> (source: String)
        ensures
            source@ == self.spec_vertex_shader_source(),
    {
        let mut source = String::from_str(DECLARATIONS);
        append_optional(&mut source, self.needs_position_output, POSITION_OUTPUT);
        source.append(AFTER_POSITION_OUTPUT);
        append_optional(&mut source, self.needs_normal, NORMAL_INPUT);
        source.append(AFTER_NORMAL_INPUT);
        append_optional(&mut source, self.needs_uv, UV_INPUT);
        source.append(AFTER_UV_INPUT);
        append_optional(&mut source, self.needs_color, COLOR_INPUT);
        source.append(MAIN);
        append_optional(&mut source, self.needs_position_output, POSITION_ASSIGNMENT);
        source.append(AFTER_POSITION_ASSIGNMENT);
        append_optional(&mut source, self.needs_normal, NORMAL_ASSIGNMENT);
        source.append(AFTER_NORMAL_ASSIGNMENT);
        append_optional(&mut source, self.needs_uv, UV_ASSIGNMENT);
        source.append(AFTER_UV_ASSIGNMENT);
        append_optional(&mut source, self.needs_color, COLOR_ASSIGNMENT);
        source.append(END);
        source
    }
}

/// A shader program that draws meshes: a fixed vertex shader, fitted to what
/// the fragment shader reads, and a fragment shader of the caller's choice.
#[derive(Clone, Copy, Debug, PartialEq, Eq, Structural)]
pub struct MeshProgram {
    pub program: Program,
    pub use_normals: bool,
    pub use_uvs: bool,
    pub use_colors: bool,
}

impl MeshProgram {
    /// The program `program` as it is compiled for a fragment shader with
    /// the given key.
    pub open spec fn of_key(program: Program, key: ProgramVariantKey) -> MeshProgram {
        MeshProgram {
            program,
            use_normals: key.needs_normal,
            use_uvs: key.needs_uv,
            use_colors: key.needs_color,
        }
    }

    /// Compiles a program that draws meshes with the given fragment shader.
    ///
    /// The fragment shader gets the position of the fragment by declaring
    /// `in vec3 pos;`, its normal by `in vec3 nor;`, its uv coordinates by
    /// `in vec2 uvs;` and its per-vertex colour by `in vec4 col;`. The vertex
    /// shader is written to provide exactly what is declared.
    ///
    /// Fails, and records nothing, if the context has no identifier left.
    pub fn new(context: &mut Context, fragment_shader_source: &str) -> (result: Result<
        MeshProgram,
        Error,
    >)
        ensures
            (final(context)@, result) == old(context)@.create_mesh_program(
                fragment_shader_source@,
            ),
    {
        if !context.can_allocate(1) {
            return Err(Error::OutOfHandles);
        }
        let key = ProgramVariantKey::probe(fragment_shader_source);
        let program = Program { id: context.fresh_id() };
        context.record(
            Command::CreateProgram {
                program,
                vertex_shader_source: key.vertex_shader_source(),
                fragment_shader_source: String::from_str(fragment_shader_source),
            },
        );
        Ok(
            MeshProgram {
                program,
                use_normals: key.needs_normal,
                use_uvs: key.needs_uv,
                use_colors: key.needs_color,
            },
        )
    }
}

impl std::ops::Deref for MeshProgram {
    type Target = Program;

    fn deref(&self) -> (program: &Program)
        ensures
            *program == self.program,
    {
        &self.program
    }
}

/// What the renderer reads of a mesh in main memory: its name and the
/// length of each of its arrays. The arrays themselves stay with the host,
/// which keeps them under `id` and fills the buffers from them.
#[derive(Clone, Debug, PartialEq, Eq)]
pub struct CPUMesh {
    pub id: u64,
    pub name: String,
    /// The number of position scalars: three for each vertex.
    pub positions: usize,
    /// The number of normal scalars, if the mesh has normals.
    pub normals: Option<usize>,
    /// The number of indices, if the mesh is indexed.
    pub indices: Option<usize>,
    /// The number of uv scalars, if the mesh has uv coordinates.
    pub uvs: Option<usize>,
    /// The number of colour bytes, if the mesh has per-vertex colours.
    pub colors: Option<usize>,
}

/// [`CPUMesh`] with its name as a sequence of characters.
pub struct CPUMeshView {
    pub id: u64,
    pub name: Seq<char>,
    pub positions: usize,
    pub normals: Option<usize>,
    pub indices: Option<usize>,
    pub uvs: Option<usize>,
    pub colors: Option<usize>,
}

impl View for CPUMesh {
    type V = CPUMeshView;

    open spec fn view(&self) -> CPUMeshView {
        CPUMeshView {
            id: self.id,
            name: self.name@,
            positions: self.positions,
            normals: self.normals,
            indices: self.indices,
            uvs: self.uvs,
            colors: self.colors,
        }
    }
}

/// One if the array is there, zero if not.
pub open spec fn present(array: Option<usize>) -> nat {
    match array {
        Some(_) => 1,
        None => 0,
    }
}

impl CPUMeshView {
    /// The number of buffers that the mesh needs on the graphics device.
    pub open spec fn handles(self) -> nat {
        1 + present(self.normals) + present(self.indices) + present(self.uvs) + present(
            self.colors,
        )
    }
}

/// A triangle mesh on the graphics device. It can be drawn with one of the
/// ready-made programs or with a [`MeshProgram`] of the caller's.
pub struct Mesh {
    position_buffer: VertexBuffer,
    normal_buffer: Option<VertexBuffer>,
    index_buffer: Option<ElementBuffer>,
    uv_buffer: Option<VertexBuffer>,
    color_buffer: Option<VertexBuffer>,
}

/// The buffers that a [`Mesh`] holds.
pub struct MeshView {
    pub position_buffer: VertexBuffer,
    pub normal_buffer: Option<VertexBuffer>,
    pub index_buffer: Option<ElementBuffer>,
    pub uv_buffer: Option<VertexBuffer>,
    pub color_buffer: Option<VertexBuffer>,
}

/// The vertex buffer for an array, if the array is there.
pub open spec fn vertex_buffer_at(id: nat, array: Option<usize>) -> Option<VertexBuffer> {
    match array {
        Some(count) => Some(VertexBuffer { id: id as u64, count }),
        None => None,
    }
}

/// The element buffer for an array, if the array is there.
pub open spec fn element_buffer_at(id: nat, array: Option<usize>) -> Option<ElementBuffer> {
    match array {
        Some(count) => Some(ElementBuffer { id: id as u64, count }),
        None => None,
    }
}

/// The command that fills a vertex buffer, if there is a buffer.
pub open spec fn fill(buffer: Option<VertexBuffer>, data: VertexData) -> Seq<CommandView> {
    match buffer {
        Some(buffer) => seq![CommandView::CreateVertexBuffer { buffer, data }],
        None => Seq::<CommandView>::empty(),
    }
}

/// The command that fills an element buffer, if there is a buffer.
pub open spec fn fill_elements(buffer: Option<ElementBuffer>, mesh: u64) -> Seq<CommandView> {
    match buffer {
        Some(buffer) => seq![CommandView::CreateElementBuffer { buffer, mesh }],
        None => Seq::<CommandView>::empty(),
    }
}

/// The command that releases a vertex buffer, if there is a buffer.
pub open spec fn free(buffer: Option<VertexBuffer>) -> Seq<CommandView> {
    match buffer {
        Some(buffer) => seq![CommandView::DeleteVertexBuffer { buffer }],
        None => Seq::<CommandView>::empty(),
    }
}

/// The command that releases an element buffer, if there is a buffer.
pub open spec fn free_elements(buffer: Option<ElementBuffer>) -> Seq<CommandView> {
    match buffer {
        Some(buffer) => seq![CommandView::DeleteElementBuffer { buffer }],
        None => Seq::<CommandView>::empty(),
    }
}

impl MeshView {
    /// The mesh whose buffers take the identifiers from `first_id` on, in
    /// the order positions, normals, indices, uv coordinates, colours; an
    /// array that is not there takes none.
    pub open spec fn at(first_id: nat, mesh: CPUMeshView) -> MeshView {
        let normals = first_id + 1;
        let indices = normals + present(mesh.normals);
        let uvs = indices + present(mesh.indices);
        let colors = uvs + present(mesh.uvs);
        MeshView {
            position_buffer: VertexBuffer { id: first_id as u64, count: mesh.positions },
            normal_buffer: vertex_buffer_at(normals, mesh.normals),
            index_buffer: element_buffer_at(indices, mesh.indices),
            uv_buffer: vertex_buffer_at(uvs, mesh.uvs),
            color_buffer: vertex_buffer_at(colors, mesh.colors),
        }
    }

    /// The commands that fill the buffers of the mesh from the arrays that
    /// the host keeps under `mesh`.
    pub open spec fn creation(self, mesh: u64) -> Seq<CommandView> {
        fill(Some(self.position_buffer), VertexData::Positions { mesh }) + fill(
            self.normal_buffer,
            VertexData::Normals { mesh },
        ) + fill_elements(self.index_buffer, mesh) + fill(
            self.uv_buffer,
            VertexData::UvCoordinates { mesh },
        ) + fill(self.color_buffer, VertexData::Colors { mesh })
    }

    /// The commands that release the buffers of the mesh.
    pub open spec fn destruction(self) -> Seq<CommandView> {
        free(Some(self.position_buffer)) + free(self.normal_buffer) + free_elements(
            self.index_buffer,
        ) + free(self.uv_buffer) + free(self.color_buffer)
    }

    /// The first attribute that the program reads and the mesh lacks, in the
    /// order uv coordinates, normals, colours.
    pub open spec fn missing(self, program: MeshProgram) -> Option<Error> {
        if program.use_uvs && self.uv_buffer is None {
            Some(Error::MissingUvCoordinates)
        } else if program.use_normals && self.normal_buffer is None {
            Some(Error::MissingNormals)
        } else if program.use_colors && self.color_buffer is None {
            Some(Error::MissingColors)
        } else {
            None
        }
    }

    /// What is bound for every draw: the model transformation, the camera
    /// and the positions.
    pub open spec fn base_bindings(
        self,
        program: MeshProgram,
        transformation: Mat4,
        camera: Camera,
    ) -> Seq<CommandView> {
        seq![
            CommandView::SetUniform {
                program: program.program,
                uniform: Uniform::ModelMatrix,
                value: UniformValue::Matrix(transformation),
            },
            CommandView::UseUniformBlock {
                program: program.program,
                buffer: camera.matrix_buffer,
                block: UniformBlock::Camera,
            },
            CommandView::UseAttribute {
                program: program.program,
                buffer: self.position_buffer,
                attribute: Attribute::Position,
            },
        ]
    }

    /// What is bound for the uv coordinates, if the program reads them.
    pub open spec fn uv_bindings(self, program: MeshProgram) -> Seq<CommandView> {
        if program.use_uvs && self.uv_buffer is Some {
            seq![
                CommandView::UseAttribute {
                    program: program.program,
                    buffer: self.uv_buffer->0,
                    attribute: Attribute::UvCoordinates,
                },
            ]
        } else {
            Seq::<CommandView>::empty()
        }
    }

    /// What is bound for the normals, if the program reads them: the matrix
    /// that transforms normals, which is the transpose of the inverse of the
    /// model transformation, then the normals.
    pub open spec fn normal_bindings(self, program: MeshProgram, transformation: Mat4) -> Seq<
        CommandView,
    > {
        if program.use_normals && self.normal_buffer is Some {
            seq![
                CommandView::SetUniform {
                    program: program.program,
                    uniform: Uniform::NormalMatrix,
                    value: UniformValue::InverseTranspose(transformation),
                },
                CommandView::UseAttribute {
                    program: program.program,
                    buffer: self.normal_buffer->0,
                    attribute: Attribute::Normal,
                },
            ]
        } else {
            Seq::<CommandView>::empty()
        }
    }

    /// What is bound for the colours, if the program reads them.
    pub open spec fn color_bindings(self, program: MeshProgram) -> Seq<CommandView> {
        if program.use_colors && self.color_buffer is Some {
            seq![
                CommandView::UseAttribute {
                    program: program.program,
                    buffer: self.color_buffer->0,
                    attribute: Attribute::Color,
                },
            ]
        } else {
            Seq::<CommandView>::empty()
        }
    }

    /// Everything that is bound before the draw. The attributes are bound in
    /// the order uv coordinates, normals, colours, and binding stops at the
    /// first one that the program reads and the mesh lacks.
    pub open spec fn bindings(self, program: MeshProgram, transformation: Mat4, camera: Camera) -> Seq<
        CommandView,
    > {
        self.base_bindings(program, transformation, camera) + if self.missing(program) == Some(
            Error::MissingUvCoordinates,
        ) {
            Seq::<CommandView>::empty()
        } else if self.missing(program) == Some(Error::MissingNormals) {
            self.uv_bindings(program)
        } else if self.missing(program) == Some(Error::MissingColors) {
            self.uv_bindings(program) + self.normal_bindings(program, transformation)
        } else {
            self.uv_bindings(program) + self.normal_bindings(program, transformation)
                + self.color_bindings(program)
        }
    }

    /// The number of vertices: one for every three position scalars.
    pub open spec fn vertex_count(self) -> usize {
        (self.position_buffer.count / 3) as usize
    }

    /// The draw call of the mesh: over all indices if it has an index
    /// buffer, else over all its vertices.
    pub open spec fn draw(self, program: MeshProgram, render_states: RenderStates, viewport: Viewport) -> CommandView {
        match self.index_buffer {
            Some(element_buffer) => CommandView::DrawElements {
                program: program.program,
                render_states,
                viewport,
                element_buffer,
            },
            None => CommandView::DrawArrays {
                program: program.program,
                render_states,
                viewport,
                count: self.vertex_count(),
            },
        }
    }

    /// The commands of one rendering: the bindings and, unless an attribute
    /// is missing, the draw call.
    pub open spec fn render_commands(
        self,
        program: MeshProgram,
        render_states: RenderStates,
        viewport: Viewport,
        transformation: Mat4,
        camera: Camera,
    ) -> Seq<CommandView> {
        if self.missing(program) is None {
            self.bindings(program, transformation, camera).push(
                self.draw(program, render_states, viewport),
            )
        } else {
            self.bindings(program, transformation, camera)
        }
    }

    /// Whether a rendering succeeds, and if not, what is missing.
    pub open spec fn render_result(self, program: MeshProgram) -> Result<(), Error> {
        match self.missing(program) {
            Some(error) => Err(error),
            None => Ok(()),
        }
    }

    /// Rendering with a given program: the context afterwards and the
    /// result.
    pub open spec fn render(
        self,
        context: ContextView,
        program: MeshProgram,
        render_states: RenderStates,
        viewport: Viewport,
        transformation: Mat4,
        camera: Camera,
    ) -> (ContextView, Result<(), Error>) {
        (
            context.record_all(
                self.render_commands(program, render_states, viewport, transformation, camera),
            ),
            self.render_result(program),
        )
    }
    /// Rendering with the shared program of a variant: the program is
    /// fetched, or compiled if this is its first use; then `bindings` are
    /// recorded for it and the mesh is rendered. If the program cannot be
    /// compiled, nothing changes.
    pub open spec fn render_shared(
        self,
        context: ContextView,
        kind: ProgramVariant,
        bindings: spec_fn(Program) -> Seq<CommandView>,
        render_states: RenderStates,
        viewport: Viewport,
        transformation: Mat4,
        camera: Camera,
    ) -> (ContextView, Result<(), Error>) {
        let (fetched, outcome) = context.get_or_create(kind);
        match outcome {
            Ok(program) => self.render(
                fetched.record_all(bindings(program.program)),
                program,
                render_states,
                viewport,
                transformation,
                camera,
            ),
            Err(error) => (context, Err(error)),
        }
    }
}

/// Nothing to bind.
pub open spec fn no_bindings(program: Program) -> Seq<CommandView> {
    Seq::<CommandView>::empty()
}

/// A colour bound to `color`.
pub open spec fn chosen_color(program: Program, color: Vec4) -> Seq<CommandView> {
    seq![
        CommandView::SetUniform {
            program,
            uniform: Uniform::Color,
            value: UniformValue::Vector(color),
        },
    ]
}

/// A texture bound to `tex`.
pub open spec fn surface_texture(program: Program, texture: Texture) -> Seq<CommandView> {
    seq![CommandView::UseTexture { program, texture, sampler: Sampler::Tex }]
}

impl ContextView {
    /// Creating a mesh: the state afterwards and the mesh. It takes one
    /// identifier for each array of the mesh and counts one more live
    /// mesh; without the identifiers, nothing changes.
    pub open spec fn create_mesh(self, mesh: CPUMeshView) -> (ContextView, Result<MeshView, Error>) {
        if self.can_allocate(mesh.handles()) {
            let created = MeshView::at(self.next_id, mesh);
            (
                self.allocate(mesh.handles()).record_all(created.creation(mesh.id)).register(
                    MeshFamily::Mesh,
                ),
                Ok(created),
            )
        } else {
            (self, Err(Error::OutOfHandles))
        }
    }

    /// The state after a mesh has been destroyed: one live mesh less, and
    /// with the last one the shared programs go; then the buffers of the
    /// mesh are released.
    pub open spec fn destroy_mesh(self, mesh: MeshView) -> ContextView {
        self.release(MeshFamily::Mesh).record_all(mesh.destruction())
    }
}

/// A program that reads an attribute which the mesh lacks is refused with
/// an error that names the attribute, and nothing is drawn. In particular a
/// program that reads normals cannot draw a mesh without normals.
pub proof fn lemma_missing_attribute_draws_nothing(
    mesh: MeshView,
    program: MeshProgram,
    render_states: RenderStates,
    viewport: Viewport,
    transformation: Mat4,
    camera: Camera,
)
    requires
        (program.use_uvs && mesh.uv_buffer is None) || (program.use_normals
            && mesh.normal_buffer is None) || (program.use_colors && mesh.color_buffer is None),
    ensures
        mesh.render_result(program) is Err,
        mesh.render_result(program)->Err_0.spec_is_missing_attribute(),
        draws_nothing(
            mesh.render_commands(program, render_states, viewport, transformation, camera),
        ),
        program.use_normals && mesh.normal_buffer is None && !(program.use_uvs
            && mesh.uv_buffer is None) ==> mesh.render_result(program) == Err::<(), Error>(
            Error::MissingNormals,
        ),
{
}

/// A mesh that has what the program reads is drawn with exactly one draw
/// call, which comes last. With an index buffer the call is indexed and
/// covers all indices. Without one it covers the vertices of the mesh, and
/// so one triangle for every three of them.
pub proof fn lemma_one_draw_call(
    mesh: MeshView,
    program: MeshProgram,
    render_states: RenderStates,
    viewport: Viewport,
    transformation: Mat4,
    camera: Camera,
)
    requires
        mesh.missing(program) is None,
    ensures
        mesh.render_result(program) is Ok,
        draws_once_at_end(
            mesh.render_commands(program, render_states, viewport, transformation, camera),
        ),
        mesh.render_commands(program, render_states, viewport, transformation, camera).last()
            == mesh.draw(program, render_states, viewport),
        mesh.index_buffer is Some ==> mesh.draw(program, render_states, viewport)
            == (CommandView::DrawElements {
            program: program.program,
            render_states,
            viewport,
            element_buffer: mesh.index_buffer->0,
        }),
        mesh.index_buffer is None ==> mesh.draw(program, render_states, viewport)
            == (CommandView::DrawArrays {
            program: program.program,
            render_states,
            viewport,
            count: mesh.vertex_count(),
        }) && mesh.draw(program, render_states, viewport).triangles() == mesh.vertex_count() / 3,
{
}

/// The shared programs live as long as the meshes. When the last plain mesh
/// is destroyed, no program of plain meshes is cached any more; and when a
/// mesh has been created after that, asking for such a program compiles it
/// afresh.
pub proof fn lemma_programs_go_with_the_last_mesh(
    context: ContextView,
    last: MeshView,
    next: CPUMeshView,
    kind: ProgramVariant,
)
    requires
        context.wf(),
        context.mesh_programs.live == 1,
        kind.spec_family() == MeshFamily::Mesh,
        context.can_allocate(next.handles() + 1),
    ensures
        context.destroy_mesh(last).wf(),
        context.destroy_mesh(last).mesh_programs.live == 0,
        context.destroy_mesh(last).cached(kind) is None,
        ({
            let (renewed, created) = context.destroy_mesh(last).create_mesh(next);
            let (compiled, outcome) = renewed.get_or_create(kind);
            &&& created is Ok
            &&& renewed.wf()
            &&& renewed.mesh_programs.live == 1
            &&& renewed.cached(kind) is None
            &&& outcome is Ok
            &&& outcome->Ok_0.program == Program { id: renewed.next_id as u64 }
            &&& compiled.recorded.len() == renewed.recorded.len() + 1
            &&& compiled.recorded.last() is CreateProgram
        }),
{
    let destroyed = context.destroy_mesh(last);
    let (renewed, created) = destroyed.create_mesh(next);
    lemma_absent_program_is_compiled(renewed, kind);
}

impl View for Mesh {
    type V = MeshView;

    closed spec fn view(&self) -> MeshView {
        MeshView {
            position_buffer: self.position_buffer,
            normal_buffer: self.normal_buffer,
            index_buffer: self.index_buffer,
            uv_buffer: self.uv_buffer,
            color_buffer: self.color_buffer,
        }
    }
}

/// The result of creating a mesh, with the mesh as its view.
pub open spec fn mesh_view_of(result: Result<Mesh, Error>) -> Result<MeshView, Error> {
    match result {
        Ok(mesh) => Ok(mesh@),
        Err(error) => Err(error),
    }
}

/// Allocates and fills a vertex buffer for an array, if the array is there.
fn create_vertex_buffer(context: &mut Context, array: Option<usize>, data: VertexData) -> (buffer:
    Option<VertexBuffer>)
    requires
        old(context)@.can_allocate(present(array)),
    ensures
        buffer == vertex_buffer_at(old(context)@.next_id, array),
        final(context)@ == old(context)@.allocate(present(array)).record_all(fill(buffer, data)),
{
    match array {
        Some(count) => {
            let buffer = VertexBuffer { id: context.fresh_id(), count };
            context.record(Command::CreateVertexBuffer { buffer, data });
            proof {
                assert(context@.recorded =~= old(context)@.recorded + fill(Some(buffer), data));
            }
            Some(buffer)
        },
        None => {
            proof {
                assert(context@.recorded =~= context@.recorded + fill(None, data));
            }
            None
        },
    }
}

/// Allocates and fills an element buffer for an array, if the array is
/// there.
fn create_element_buffer(context: &mut Context, array: Option<usize>, mesh: u64) -> (buffer:
    Option<ElementBuffer>)
    requires
        old(context)@.can_allocate(present(array)),
    ensures
        buffer == element_buffer_at(old(context)@.next_id, array),
        final(context)@ == old(context)@.allocate(present(array)).record_all(
            fill_elements(buffer, mesh),
        ),
{
    match array {
        Some(count) => {
            let buffer = ElementBuffer { id: context.fresh_id(), count };
            context.record(Command::CreateElementBuffer { buffer, mesh });
            proof {
                assert(context@.recorded =~= old(context)@.recorded + fill_elements(
                    Some(buffer),
                    mesh,
                ));
            }
            Some(buffer)
        },
        None => {
            proof {
                assert(context@.recorded =~= context@.recorded + fill_elements(None, mesh));
            }
            None
        },
    }
}

/// Releases a vertex buffer, if there is one.
fn delete_vertex_buffer(context: &mut Context, buffer: Option<VertexBuffer>)
    ensures
        final(context)@ == old(context)@.record_all(free(buffer)),
{
    match buffer {
        Some(buffer) => {
            context.record(Command::DeleteVertexBuffer { buffer });
            proof {
                assert(context@.recorded =~= old(context)@.recorded + free(Some(buffer)));
            }
        },
        None => {
            proof {
                assert(context@.recorded =~= context@.recorded + free(None));
            }
        },
    }
}

/// One if the array is there, zero if not.
fn count_present(array: &Option<usize>) -> (count: u64)
    ensures
        count == present(*array),
{
    match array {
        Some(_) => 1,
        None => 0,
    }
}

impl CPUMesh {
    /// The number of buffers that the mesh needs on the graphics device.
    pub fn handles(&self) -> (handles: u64)
        ensures
            handles == self@.handles(),
    {
        1 + count_present(&self.normals) + count_present(&self.indices) + count_present(
            &self.uvs,
        ) + count_present(&self.colors)
    }
}

impl Mesh {
    /// Copies the per-vertex data of a mesh to the graphics device, so that
    /// the mesh can be drawn, and counts it among the live meshes.
    ///
    /// Fails, and changes nothing, if the context has fewer identifiers left
    /// than the mesh has arrays.
    pub fn new(context: &mut Context, cpu_mesh: &CPUMesh) -> (result: Result<Mesh, Error>)
        requires
            old(context)@.wf(),
        ensures
            (final(context)@, mesh_view_of(result)) == old(context)@.create_mesh(cpu_mesh@),
            final(context)@.wf(),
    {
        if !context.can_allocate(cpu_mesh.handles()) {
            return Err(Error::OutOfHandles);
        }
        let id = cpu_mesh.id;
        let position_buffer = VertexBuffer { id: context.fresh_id(), count: cpu_mesh.positions };
        context.record(
            Command::CreateVertexBuffer {
                buffer: position_buffer,
                data: VertexData::Positions { mesh: id },
            },
        );
        let normal_buffer = create_vertex_buffer(
            context,
            cpu_mesh.normals,
            VertexData::Normals { mesh: id },
        );
        let index_buffer = create_element_buffer(context, cpu_mesh.indices, id);
        let uv_buffer = create_vertex_buffer(
            context,
            cpu_mesh.uvs,
            VertexData::UvCoordinates { mesh: id },
        );
        let color_buffer = create_vertex_buffer(
            context,
            cpu_mesh.colors,
            VertexData::Colors { mesh: id },
        );
        let mesh = Mesh { position_buffer, normal_buffer, index_buffer, uv_buffer, color_buffer };
        proof {
            let ghost before = old(context)@;
            assert(mesh@ == MeshView::at(before.next_id, cpu_mesh@));
            assert(context@.recorded =~= before.recorded + mesh@.creation(id));
        }
        context.register(MeshFamily::Mesh);
        Ok(mesh)
    }

    /// Removes the mesh from the graphics device: it no longer counts among
    /// the live meshes, and its buffers are released. With the last live
    /// mesh the shared programs are released too.
    pub fn destroy(self, context: &mut Context)
        requires
            old(context)@.wf(),
            old(context)@.mesh_programs.live > 0,
        ensures
            final(context)@ == old(context)@.destroy_mesh(self@),
            final(context)@.wf(),
    {
        context.release(MeshFamily::Mesh);
        let ghost released = context@;
        context.record(Command::DeleteVertexBuffer { buffer: self.position_buffer });
        delete_vertex_buffer(context, self.normal_buffer);
        match self.index_buffer {
            Some(buffer) => {
                context.record(Command::DeleteElementBuffer { buffer });
            },
            None => {},
        }
        delete_vertex_buffer(context, self.uv_buffer);
        delete_vertex_buffer(context, self.color_buffer);
        proof {
            assert(context@.recorded =~= released.recorded + self@.destruction());
        }
    }

    /// Draws the mesh with the given program, as seen by the given camera.
    /// The transformation gives the mesh its place, orientation and scale.
    ///
    /// Fails if the program reads an attribute that the mesh does not have,
    /// for example the normal. Nothing is drawn then; what was bound before
    /// the attribute was found missing stays recorded.
    pub fn render(
        &self,
        context: &mut Context,
        program: &MeshProgram,
        render_states: RenderStates,
        viewport: Viewport,
        transformation: &Mat4,
        camera: &Camera,
    ) -> (result: Result<(), Error>)
        ensures
            (final(context)@, result) == self@.render(
                old(context)@,
                *program,
                render_states,
                viewport,
                *transformation,
                *camera,
            ),
    {
        let ghost before = context@;
        let ghost expected = self@.render_commands(
            *program,
            render_states,
            viewport,
            *transformation,
            *camera,
        );
        let handle = program.program;
        handle.use_uniform(context, Uniform::ModelMatrix, UniformValue::Matrix(*transformation));
        handle.use_uniform_block(context, camera.matrix_buffer(), UniformBlock::Camera);
        handle.use_attribute(context, self.position_buffer, Attribute::Position);
        if program.use_uvs {
            match self.uv_buffer {
                Some(buffer) => {
                    handle.use_attribute(context, buffer, Attribute::UvCoordinates);
                },
                None => {
                    proof {
                        assert(context@.recorded =~= before.recorded + expected);
                    }
                    return Err(Error::MissingUvCoordinates);
                },
            }
        }
        if program.use_normals {
            match self.normal_buffer {
                Some(buffer) => {
                    handle.use_uniform(
                        context,
                        Uniform::NormalMatrix,
                        UniformValue::InverseTranspose(*transformation),
                    );
                    handle.use_attribute(context, buffer, Attribute::Normal);
                },
                None => {
                    proof {
                        assert(context@.recorded =~= before.recorded + expected);
                    }
                    return Err(Error::MissingNormals);
                },
            }
        }
        if program.use_colors {
            match self.color_buffer {
                Some(buffer) => {
                    handle.use_attribute(context, buffer, Attribute::Color);
                },
                None => {
                    proof {
                        assert(context@.recorded =~= before.recorded + expected);
                    }
                    return Err(Error::MissingColors);
                },
            }
        }
        match self.index_buffer {
            Some(element_buffer) => {
                handle.draw_elements(context, render_states, viewport, element_buffer);
            },
            None => {
                handle.draw_arrays(
                    context,
                    render_states,
                    viewport,
                    self.position_buffer.count / 3,
                );
            },
        }
        proof {
            assert(context@.recorded =~= before.recorded + expected);
        }
        Ok(())
    }

    /// Draws only the depth of the mesh, as seen by the given camera. Useful
    /// for shadow maps and for a depth pass before the colours.
    ///
    /// A plain mesh must be alive. Fails, and changes nothing, if the
    /// program has to be compiled and the context has no identifier left.
    pub fn render_depth(
        &self,
        context: &mut Context,
        render_states: RenderStates,
        viewport: Viewport,
        transformation: &Mat4,
        camera: &Camera,
    ) -> (result: Result<(), Error>)
        requires
            old(context)@.wf(),
            old(context)@.mesh_programs.live > 0,
        ensures
            (final(context)@, result) == self@.render_shared(
                old(context)@,
                ProgramVariant::Depth,
                |program: Program| no_bindings(program),
                render_states,
                viewport,
                *transformation,
                *camera,
            ),
            final(context)@.wf(),
    {
        let program = match context.get_or_create(ProgramVariant::Depth) {
            Ok(program) => program,
            Err(error) => {
                return Err(error);
            },
        };
        proof {
            assert(context@.recorded =~= context@.recorded + no_bindings(program.program));
        }
        self.render(context, &program, render_states, viewport, transformation, camera)
    }

    /// Draws the mesh with the colours stored with its vertices.
    ///
    /// A plain mesh must be alive. Fails if the mesh has no colours. Fails,
    /// and changes nothing, if the program has to be compiled and the
    /// context has no identifier left.
    pub fn render_color(
        &self,
        context: &mut Context,
        render_states: RenderStates,
        viewport: Viewport,
        transformation: &Mat4,
        camera: &Camera,
    ) -> (result: Result<(), Error>)
        requires
            old(context)@.wf(),
            old(context)@.mesh_programs.live > 0,
        ensures
            (final(context)@, result) == self@.render_shared(
                old(context)@,
                ProgramVariant::PerVertexColor,
                |program: Program| no_bindings(program),
                render_states,
                viewport,
                *transformation,
                *camera,
            ),
            final(context)@.wf(),
    {
        let program = match context.get_or_create(ProgramVariant::PerVertexColor) {
            Ok(program) => program,
            Err(error) => {
                return Err(error);
            },
        };
        proof {
            assert(context@.recorded =~= context@.recorded + no_bindings(program.program));
        }
        self.render(context, &program, render_states, viewport, transformation, camera)
    }

    /// Draws the mesh in the given colour.
    ///
    /// A plain mesh must be alive. Fails, and changes nothing, if the
    /// program has to be compiled and the context has no identifier left.
    pub fn render_with_color(
        &self,
        context: &mut Context,
        color: &Vec4,
        render_states: RenderStates,
        viewport: Viewport,
        transformation: &Mat4,
        camera: &Camera,
    ) -> (result: Result<(), Error>)
        requires
            old(context)@.wf(),
            old(context)@.mesh_programs.live > 0,
        ensures
            (final(context)@, result) == self@.render_shared(
                old(context)@,
                ProgramVariant::Color,
                |program: Program| chosen_color(program, *color),
                render_states,
                viewport,
                *transformation,
                *camera,
            ),
            final(context)@.wf(),
    {
        let program = match context.get_or_create(ProgramVariant::Color) {
            Ok(program) => program,
            Err(error) => {
                return Err(error);
            },
        };
        let ghost fetched = context@;
        program.program.use_uniform(context, Uniform::Color, UniformValue::Vector(*color));
        proof {
            assert(context@.recorded =~= fetched.recorded + chosen_color(program.program, *color));
        }
        self.render(context, &program, render_states, viewport, transformation, camera)
    }

    /// Draws the mesh with the given texture.
    ///
    /// A plain mesh must be alive. Fails if the mesh has no uv coordinates.
    /// Fails, and changes nothing, if the program has to be compiled and the
    /// context has no identifier left.
    pub fn render_with_texture(
        &self,
        context: &mut Context,
        texture: &Texture,
        render_states: RenderStates,
        viewport: Viewport,
        transformation: &Mat4,
        camera: &Camera,
    ) -> (result: Result<(), Error>)
        requires
            old(context)@.wf(),
            old(context)@.mesh_programs.live > 0,
        ensures
            (final(context)@, result) == self@.render_shared(
                old(context)@,
                ProgramVariant::Texture,
                |program: Program| surface_texture(program, *texture),
                render_states,
                viewport,
                *transformation,
                *camera,
            ),
            final(context)@.wf(),
    {
        let program = match context.get_or_create(ProgramVariant::Texture) {
            Ok(program) => program,
            Err(error) => {
                return Err(error);
            },
        };
        let ghost fetched = context@;
        program.program.use_texture(context, *texture, Sampler::Tex);
        proof {
            assert(context@.recorded =~= fetched.recorded + surface_texture(
                program.program,
                *texture,
            ));
        }
        self.render(context, &program, render_states, viewport, transformation, camera)
    }
}

} // verus!
