//! Meshes that are lit while they are drawn.

use vstd::prelude::*;
use crate::graphics::command::{Command, CommandView, UniformValue};
use crate::graphics::context::{Context, ContextView};
use crate::graphics::error::Error;
use crate::graphics::names::{Sampler, Uniform, UniformBlock};
use crate::graphics::types::{Camera, Mat4, Program, RenderStates, Viewport};
use crate::light::{AmbientLight, DirectionalLight};
use crate::object::cache::{LightConfiguration, MeshFamily, ProgramVariant};
use crate::object::mesh::{CPUMesh, CPUMeshView, Mesh, MeshView};
use crate::phong::material::{ColorSource, PhongMaterial};

verus! {

/// A triangle mesh that is shaded with the Phong model in a forward pass:
/// the light is evaluated while the mesh is drawn.
pub struct PhongForwardMesh {
    pub name: String,
    mesh: Mesh,
    pub material: PhongMaterial,
}

/// What a [`PhongForwardMesh`] holds.
pub struct PhongForwardMeshView {
    pub name: Seq<char>,
    pub mesh: MeshView,
    pub material: PhongMaterial,
}

/// The variant that shades a material under the given lights.
pub open spec fn variant_of(material: PhongMaterial, lights: LightConfiguration) -> ProgramVariant {
    ProgramVariant::spec_forward(material.color_source.spec_kind(), lights)
}

/// The colour of an ambient light scaled by its intensity, bound to
/// `ambientColor`.
pub open spec fn ambient_color(program: Program, light: AmbientLight) -> CommandView {
    CommandView::SetUniform {
        program,
        uniform: Uniform::AmbientColor,
        value: UniformValue::AmbientColor(light),
    }
}

/// The colour of a material bound to `surfaceColor`, or its texture bound to
/// `tex`.
pub open spec fn surface(program: Program, material: PhongMaterial) -> CommandView {
    match material.color_source {
        ColorSource::Color(color) => CommandView::SetUniform {
            program,
            uniform: Uniform::SurfaceColor,
            value: UniformValue::Vector(color),
        },
        ColorSource::Texture(texture) => CommandView::UseTexture {
            program,
            texture,
            sampler: Sampler::Tex,
        },
    }
}

/// What is bound for shading under ambient light: the light's colour, then
/// the surface.
pub open spec fn ambient_bindings(
    program: Program,
    material: PhongMaterial,
    ambient_light: AmbientLight,
) -> Seq<CommandView> {
    seq![ambient_color(program, ambient_light), surface(program, material)]
}

/// What is bound for shading under ambient and directional light: the
/// ambient colour, the eye position, the shadow map and the parameters of
/// the directional light, then the material.
pub open spec fn directional_bindings(
    program: Program,
    material: PhongMaterial,
    camera: Camera,
    ambient_light: AmbientLight,
    light: DirectionalLight,
) -> Seq<CommandView> {
    seq![
        ambient_color(program, ambient_light),
        CommandView::SetUniform {
            program,
            uniform: Uniform::EyePosition,
            value: UniformValue::EyePosition(camera),
        },
        CommandView::UseTexture { program, texture: light.shadow_map, sampler: Sampler::ShadowMap },
        CommandView::UseUniformBlock {
            program,
            buffer: light.buffer,
            block: UniformBlock::DirectionalLightUniform,
        },
        CommandView::BindMaterial { program, material },
    ]
}

impl ContextView {
    /// Creating a lit mesh: the state afterwards and the mesh. A mesh
    /// without normals is refused before anything happens. The others are
    /// created as plain meshes are and count among the live meshes of both
    /// families.
    pub open spec fn create_forward_mesh(self, mesh: CPUMeshView, material: PhongMaterial) -> (
        ContextView,
        Result<PhongForwardMeshView, Error>,
    ) {
        if mesh.normals is None {
            (self, Err(Error::MeshWithoutNormals))
        } else {
            let (created, outcome) = self.create_mesh(mesh);
            match outcome {
                Ok(plain) => (
                    created.register(MeshFamily::PhongForward),
                    Ok(PhongForwardMeshView { name: mesh.name, mesh: plain, material }),
                ),
                Err(error) => (self, Err(error)),
            }
        }
    }

    /// The state after a lit mesh has been destroyed: one live lit mesh
    /// less, and with the last one the shared programs of lit meshes go;
    /// then the plain mesh inside is destroyed.
    pub open spec fn destroy_forward_mesh(self, mesh: PhongForwardMeshView) -> ContextView {
        self.release(MeshFamily::PhongForward).destroy_mesh(mesh.mesh)
    }
}

impl View for PhongForwardMesh {
    type V = PhongForwardMeshView;

    closed spec fn view(&self) -> PhongForwardMeshView {
        PhongForwardMeshView { name: self.name@, mesh: self.mesh@, material: self.material }
    }
}

impl std::ops::Deref for PhongForwardMesh {
    type Target = Mesh;

    fn deref(&self) -> (mesh: &Mesh)
        ensures
            mesh@ == self@.mesh,
    {
        &self.mesh
    }
}

/// The result of creating a lit mesh, with the mesh as its view.
pub open spec fn forward_mesh_view_of(result: Result<PhongForwardMesh, Error>) -> Result<
    PhongForwardMeshView,
    Error,
> {
    match result {
        Ok(mesh) => Ok(mesh@),
        Err(error) => Err(error),
    }
}

impl PhongForwardMesh {
    /// Copies a mesh to the graphics device for shading with the given
    /// material.
    ///
    /// Fails, and changes nothing, if the mesh has no normals, since the
    /// shading is not defined without them, or if the context has fewer
    /// identifiers left than the mesh has arrays.
    pub fn new(context: &mut Context, cpu_mesh: &CPUMesh, material: &PhongMaterial) -> (result:
        Result<PhongForwardMesh, Error>)
        requires
            old(context)@.wf(),
        ensures
            (final(context)@, forward_mesh_view_of(result)) == old(context)@.create_forward_mesh(
                cpu_mesh@,
                *material,
            ),
            final(context)@.wf(),
    {
        if cpu_mesh.normals.is_none() {
            return Err(Error::MeshWithoutNormals);
        }
        let mesh = match Mesh::new(context, cpu_mesh) {
            Ok(mesh) => mesh,
            Err(error) => {
                return Err(error);
            },
        };
        context.register(MeshFamily::PhongForward);
        Ok(PhongForwardMesh { name: cpu_mesh.name.clone(), mesh, material: *material })
    }

    /// Removes the mesh from the graphics device. With the last live lit
    /// mesh the shared programs of lit meshes are released.
    pub fn destroy(self, context: &mut Context)
        requires
            old(context)@.wf(),
            old(context)@.forward_programs.live > 0,
            old(context)@.mesh_programs.live > 0,
        ensures
            final(context)@ == old(context)@.destroy_forward_mesh(self@),
            final(context)@.wf(),
    {
        context.release(MeshFamily::PhongForward);
        self.mesh.destroy(context);
    }

    /// Draws the mesh shaded by an ambient light.
    ///
    /// A lit mesh must be alive. Fails if the shader of the material reads
    /// an attribute that the mesh does not have. Fails, and changes
    /// nothing, if the program has to be compiled and the context has no
    /// identifier left.
    pub fn render_with_ambient(
        &self,
        context: &mut Context,
        render_states: RenderStates,
        viewport: Viewport,
        transformation: &Mat4,
        camera: &Camera,
        ambient_light: &AmbientLight,
    ) -> (result: Result<(), Error>)
        requires
            old(context)@.wf(),
            old(context)@.forward_programs.live > 0,
        ensures
            (final(context)@, result) == self@.mesh.render_shared(
                old(context)@,
                variant_of(self@.material, LightConfiguration::Ambient),
                |program: Program| ambient_bindings(program, self@.material, *ambient_light),
                render_states,
                viewport,
                *transformation,
                *camera,
            ),
            final(context)@.wf(),
    {
        let kind = ProgramVariant::forward(
            self.material.color_source.kind(),
            LightConfiguration::Ambient,
        );
        let program = match context.get_or_create(kind) {
            Ok(program) => program,
            Err(error) => {
                return Err(error);
            },
        };
        let ghost fetched = context@;
        program.program.use_uniform(
            context,
            Uniform::AmbientColor,
            UniformValue::AmbientColor(*ambient_light),
        );
        match self.material.color_source {
            ColorSource::Color(color) => {
                program.program.use_uniform(
                    context,
                    Uniform::SurfaceColor,
                    UniformValue::Vector(color),
                );
            },
            ColorSource::Texture(texture) => {
                program.program.use_texture(context, texture, Sampler::Tex);
            },
        }
        proof {
            assert(context@.recorded =~= fetched.recorded + ambient_bindings(
                program.program,
                self@.material,
                *ambient_light,
            ));
        }
        self.mesh.render(context, &program, render_states, viewport, transformation, camera)
    }

    /// Draws the mesh shaded by an ambient and a directional light.
    ///
    /// A lit mesh must be alive. Fails if the shader of the material reads
    /// an attribute that the mesh does not have. Fails, and changes
    /// nothing, if the program has to be compiled and the context has no
    /// identifier left.
    pub fn render_with_ambient_and_directional(
        &self,
        context: &mut Context,
        render_states: RenderStates,
        viewport: Viewport,
        transformation: &Mat4,
        camera: &Camera,
        ambient_light: &AmbientLight,
        directional_light: &DirectionalLight,
    ) -> (result: Result<(), Error>)
        requires
            old(context)@.wf(),
            old(context)@.forward_programs.live > 0,
        ensures
            (final(context)@, result) == self@.mesh.render_shared(
                old(context)@,
                variant_of(self@.material, LightConfiguration::AmbientDirectional),
                |program: Program|
                    directional_bindings(
                        program,
                        self@.material,
                        *camera,
                        *ambient_light,
                        *directional_light,
                    ),
                render_states,
                viewport,
                *transformation,
                *camera,
            ),
            final(context)@.wf(),
    {
        let kind = ProgramVariant::forward(
            self.material.color_source.kind(),
            LightConfiguration::AmbientDirectional,
        );
        let program = match context.get_or_create(kind) {
            Ok(program) => program,
            Err(error) => {
                return Err(error);
            },
        };
        let ghost fetched = context@;
        let handle = program.program;
        handle.use_uniform(
            context,
            Uniform::AmbientColor,
            UniformValue::AmbientColor(*ambient_light),
        );
        handle.use_uniform(context, Uniform::EyePosition, UniformValue::EyePosition(*camera));
        handle.use_texture(context, directional_light.shadow_map(), Sampler::ShadowMap);
        handle.use_uniform_block(
            context,
            directional_light.buffer(),
            UniformBlock::DirectionalLightUniform,
        );
        self.material.bind(context, &handle);
        proof {
            assert(context@.recorded =~= fetched.recorded + directional_bindings(
                handle,
                self@.material,
                *camera,
                *ambient_light,
                *directional_light,
            ));
        }
        self.mesh.render(context, &program, render_states, viewport, transformation, camera)
    }
}

} // verus!
