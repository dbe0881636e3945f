//! Deferred shading with the Phong reflection model.
//!
//! A frame is drawn in two steps. The geometry pass draws every mesh once
//! and stores what the lights need to know of each pixel: the geometry
//! buffer. The light pass then evaluates one light after the other over the
//! whole viewport and adds up what they contribute.

use vstd::prelude::*;
use crate::effect::image_effect::{ImageEffect, ImageEffectView, SCREEN_VERTICES};
use crate::graphics::command::{draws_once_at_end, Command, CommandView, UniformValue};
use crate::graphics::context::{Context, ContextView};
use crate::graphics::error::Error;
use crate::graphics::names::{Sampler, Uniform, UniformBlock};
use crate::graphics::shaders::{LightType, ShaderSourcesView};
use crate::graphics::types::{
    BlendParameters, Camera, ColorTargetTexture2DArray, CullType, DepthFormat,
    DepthTargetTexture2D, DepthTargetTexture2DArray, DepthTestType, Format, Interpolation,
    Program, RenderStates, Texture, Viewport, Wrapping,
};
use crate::light::{
    each, lemma_lights_in_order, lights_in_order, spec_copied, AmbientLight, DirectionalLight,
    Light, PointLight, SpotLight,
};

verus! {

/// What the light pass shows: the lit scene with `NONE`, one channel of the
/// geometry buffer with any other mode.
#[allow(non_camel_case_types)]
#[derive(Clone, Copy, Debug, PartialEq, Eq, Structural)]
pub enum DebugType {
    POSITION,
    NORMAL,
    COLOR,
    DEPTH,
    DIFFUSE,
    SPECULAR,
    POWER,
    NONE,
}

impl DebugType {
    /// The number by which the debug shader knows the mode.
    pub open spec fn spec_selector(self) -> i32 {
        match self {
            DebugType::POSITION => 0,
            DebugType::NORMAL => 1,
            DebugType::COLOR => 2,
            DebugType::DEPTH => 3,
            DebugType::DIFFUSE => 4,
            DebugType::SPECULAR => 5,
            DebugType::POWER => 6,
            DebugType::NONE => 7,
        }
    }

    /// The number by which the debug shader knows the mode.
    pub fn selector(self) -> (selector: i32)
        ensures
            selector == self.spec_selector(),
    {
        match self {
            DebugType::POSITION => 0,
            DebugType::NORMAL => 1,
            DebugType::COLOR => 2,
            DebugType::DEPTH => 3,
            DebugType::DIFFUSE => 4,
            DebugType::SPECULAR => 5,
            DebugType::POWER => 6,
            DebugType::NONE => 7,
        }
    }
}

/// Where a pipeline stands within a frame.
#[derive(Clone, Copy, Debug, PartialEq, Eq, Structural)]
pub enum PipelineState {
    /// The geometry buffer holds nothing that a light pass may read: the
    /// pipeline is new, or the last frame has been resolved.
    Idle,
    /// A geometry pass has filled the geometry buffer for this frame.
    GeometryWritten,
}

/// The number of colour layers of the geometry buffer.
pub const COLOR_LAYERS: usize = 2;

/// The number of depth layers of the geometry buffer.
pub const DEPTH_LAYERS: usize = 1;

/// The number of identifiers that a new pipeline takes.
pub const PIPELINE_HANDLES: u64 = 14;

/// A pipeline that shades a scene with the Phong reflection model in two
/// steps, under an ambient light and any number of directional, spot and
/// point lights.
pub struct PhongDeferredPipeline {
    ambient_light_effect: ImageEffect,
    directional_light_effect: ImageEffect,
    point_light_effect: ImageEffect,
    spot_light_effect: ImageEffect,
    debug_effect: Option<ImageEffect>,
    /// What the light pass shows. Anything but `NONE` replaces the lighting
    /// by a look into the geometry buffer.
    pub debug_type: DebugType,
    geometry_pass_texture: ColorTargetTexture2DArray,
    geometry_pass_depth_texture: DepthTargetTexture2DArray,
    state: PipelineState,
}

/// What a [`PhongDeferredPipeline`] holds.
pub struct PhongDeferredPipelineView {
    pub ambient_light_effect: ImageEffectView,
    pub directional_light_effect: ImageEffectView,
    pub point_light_effect: ImageEffectView,
    pub spot_light_effect: ImageEffectView,
    /// The effect of the debug modes, once one of them has been used.
    pub debug_effect: Option<ImageEffectView>,
    pub debug_type: DebugType,
    /// The colour layers of the geometry buffer.
    pub geometry_pass_texture: ColorTargetTexture2DArray,
    /// The depth layer of the geometry buffer.
    pub geometry_pass_depth_texture: DepthTargetTexture2DArray,
    pub state: PipelineState,
}

/// The command that allocates the colour layers of a geometry buffer.
pub open spec fn create_color_layers(texture: ColorTargetTexture2DArray) -> CommandView {
    CommandView::CreateColorTargetTexture2DArray {
        texture,
        min_filter: Interpolation::Nearest,
        mag_filter: Interpolation::Nearest,
        mip_map_filter: None,
        wrap_s: Wrapping::ClampToEdge,
        wrap_t: Wrapping::ClampToEdge,
        format: Format::RGBA8,
    }
}

/// The command that allocates the depth layer of a geometry buffer.
pub open spec fn create_depth_layers(texture: DepthTargetTexture2DArray) -> CommandView {
    CommandView::CreateDepthTargetTexture2DArray {
        texture,
        wrap_s: Wrapping::ClampToEdge,
        wrap_t: Wrapping::ClampToEdge,
        format: DepthFormat::Depth32F,
    }
}

impl PhongDeferredPipelineView {
    /// The geometry buffer bound to a program: the colour layers to
    /// `gbuffer`, the depth layer to `depthMap`.
    pub open spec fn bind_geometry(self, program: Program) -> Seq<CommandView> {
        seq![
            CommandView::UseTexture {
                program,
                texture: Texture::ColorTargetArray(self.geometry_pass_texture),
                sampler: Sampler::Gbuffer,
            },
            CommandView::UseTexture {
                program,
                texture: Texture::DepthTargetArray(self.geometry_pass_depth_texture),
                sampler: Sampler::DepthMap,
            },
        ]
    }

    /// The geometry buffer has its two colour layers and its one depth
    /// layer, all of one size.
    pub open spec fn wf(self) -> bool {
        &&& self.geometry_pass_texture.depth == COLOR_LAYERS
        &&& self.geometry_pass_depth_texture.depth == DEPTH_LAYERS
        &&& self.geometry_pass_texture.width == self.geometry_pass_depth_texture.width
        &&& self.geometry_pass_texture.height == self.geometry_pass_depth_texture.height
    }

    /// The pipeline as it is created when `first_id` is the next free
    /// identifier: the four light effects, then a geometry buffer of one
    /// pixel, so that there is always something to bind. No debug effect
    /// yet, no debug mode, and nothing for a light pass to read.
    pub open spec fn at(first_id: nat) -> PhongDeferredPipelineView {
        PhongDeferredPipelineView {
            ambient_light_effect: ImageEffectView::at(first_id),
            directional_light_effect: ImageEffectView::at(first_id + 3),
            point_light_effect: ImageEffectView::at(first_id + 6),
            spot_light_effect: ImageEffectView::at(first_id + 9),
            debug_effect: None,
            debug_type: DebugType::NONE,
            geometry_pass_texture: ColorTargetTexture2DArray {
                id: (first_id + 12) as u64,
                width: 1,
                height: 1,
                depth: COLOR_LAYERS,
            },
            geometry_pass_depth_texture: DepthTargetTexture2DArray {
                id: (first_id + 13) as u64,
                width: 1,
                height: 1,
                depth: DEPTH_LAYERS,
            },
            state: PipelineState::Idle,
        }
    }

    /// The commands that create the pipeline: the effects for ambient,
    /// directional, point and spot light, the two textures of the geometry
    /// buffer, and the geometry buffer bound to the ambient effect.
    pub open spec fn creation(self, shaders: ShaderSourcesView) -> Seq<CommandView> {
        self.ambient_light_effect.creation(shaders.deferred_light_source(LightType::Ambient))
            + self.directional_light_effect.creation(
            shaders.deferred_light_source(LightType::Directional),
        ) + self.point_light_effect.creation(shaders.deferred_light_source(LightType::Point))
            + self.spot_light_effect.creation(shaders.deferred_light_source(LightType::Spot))
            + seq![
            create_color_layers(self.geometry_pass_texture),
            create_depth_layers(self.geometry_pass_depth_texture),
        ] + self.bind_geometry(self.ambient_light_effect.program)
    }
}

/// The render states of the light with the given place in the order of
/// evaluation. Every light is drawn with back faces culled and wherever the
/// depth test passes on less or equal; the first one overwrites what the
/// render target holds, each later one is added to it.
pub open spec fn light_states(index: int) -> RenderStates {
    RenderStates {
        cull: CullType::Back,
        depth_test: DepthTestType::LessOrEqual,
        blend: if index == 0 {
            None
        } else {
            Some(BlendParameters::Add)
        },
    }
}

impl PhongDeferredPipelineView {
    /// The pipeline with a new geometry buffer of the given size, whose two
    /// textures take the identifiers from `first_id` on.
    pub open spec fn resized(self, first_id: nat, width: usize, height: usize) -> PhongDeferredPipelineView {
        PhongDeferredPipelineView {
            geometry_pass_texture: ColorTargetTexture2DArray {
                id: first_id as u64,
                width,
                height,
                depth: COLOR_LAYERS,
            },
            geometry_pass_depth_texture: DepthTargetTexture2DArray {
                id: (first_id + 1) as u64,
                width,
                height,
                depth: DEPTH_LAYERS,
            },
            ..self
        }
    }

    /// The commands that open a geometry pass which turns this pipeline into
    /// `next`: each texture of the geometry buffer is allocated anew and the
    /// old one released; then a render target on both colour layers and the
    /// depth layer is opened and cleared.
    pub open spec fn opening(self, next: PhongDeferredPipelineView) -> Seq<CommandView> {
        seq![
            create_color_layers(next.geometry_pass_texture),
            CommandView::DeleteTexture {
                texture: Texture::ColorTargetArray(self.geometry_pass_texture),
            },
            create_depth_layers(next.geometry_pass_depth_texture),
            CommandView::DeleteTexture {
                texture: Texture::DepthTargetArray(self.geometry_pass_depth_texture),
            },
            CommandView::BeginRenderTargetArray {
                color_texture: next.geometry_pass_texture,
                depth_texture: next.geometry_pass_depth_texture,
                color_layers: seq![0usize, 1usize],
                depth_layer: 0,
            },
            CommandView::ClearRenderTarget,
        ]
    }

    /// The context as the caller's drawing code finds it in a geometry pass
    /// of the given size: two identifiers taken, the render target open and
    /// cleared.
    pub open spec fn opened(self, context: ContextView, width: usize, height: usize) -> ContextView {
        context.allocate(2).record_all(
            self.opening(self.resized(context.next_id, width, height)),
        )
    }

    /// Where the pipeline stands after the caller's drawing code has
    /// returned `result`.
    pub open spec fn written(self, result: Result<(), Error>) -> PhongDeferredPipelineView {
        PhongDeferredPipelineView {
            state: if result is Ok {
                PipelineState::GeometryWritten
            } else {
                PipelineState::Idle
            },
            ..self
        }
    }

    /// What is bound for a light that has a position in the scene: the eye
    /// position and the matrix that takes a pixel back into the world.
    pub open spec fn bind_camera(program: Program, camera: Camera) -> Seq<CommandView> {
        seq![
            CommandView::SetUniform {
                program,
                uniform: Uniform::EyePosition,
                value: UniformValue::EyePosition(camera),
            },
            CommandView::SetUniform {
                program,
                uniform: Uniform::ViewProjectionInverse,
                value: UniformValue::ViewProjectionInverse(camera),
            },
        ]
    }

    /// What is bound for one light before its pass. Every light reads the
    /// geometry buffer. The ambient light adds its colour; the others add
    /// the camera, their shadow map if they have one, and their parameters.
    pub open spec fn light_bindings(self, light: Light, camera: Camera) -> Seq<CommandView> {
        match light {
            Light::Ambient(light) => {
                let program = self.ambient_light_effect.program;
                self.bind_geometry(program).push(
                    CommandView::SetUniform {
                        program,
                        uniform: Uniform::AmbientColor,
                        value: UniformValue::AmbientColor(light),
                    },
                )
            },
            Light::Directional(light) => {
                let program = self.directional_light_effect.program;
                self.bind_geometry(program) + PhongDeferredPipelineView::bind_camera(
                    program,
                    camera,
                ) + seq![
                    CommandView::UseTexture {
                        program,
                        texture: light.shadow_map,
                        sampler: Sampler::ShadowMap,
                    },
                    CommandView::UseUniformBlock {
                        program,
                        buffer: light.buffer,
                        block: UniformBlock::DirectionalLightUniform,
                    },
                ]
            },
            Light::Spot(light) => {
                let program = self.spot_light_effect.program;
                self.bind_geometry(program) + PhongDeferredPipelineView::bind_camera(
                    program,
                    camera,
                ) + seq![
                    CommandView::UseTexture {
                        program,
                        texture: light.shadow_map,
                        sampler: Sampler::ShadowMap,
                    },
                    CommandView::UseUniformBlock {
                        program,
                        buffer: light.buffer,
                        block: UniformBlock::SpotLightUniform,
                    },
                ]
            },
            Light::Point(light) => {
                let program = self.point_light_effect.program;
                self.bind_geometry(program) + PhongDeferredPipelineView::bind_camera(
                    program,
                    camera,
                ) + seq![
                    CommandView::UseUniformBlock {
                        program,
                        buffer: light.buffer,
                        block: UniformBlock::PointLightUniform,
                    },
                ]
            },
        }
    }

    /// The effect that evaluates a light.
    pub open spec fn effect_of(self, light: Light) -> ImageEffectView {
        match light {
            Light::Ambient(_) => self.ambient_light_effect,
            Light::Directional(_) => self.directional_light_effect,
            Light::Spot(_) => self.spot_light_effect,
            Light::Point(_) => self.point_light_effect,
        }
    }

    /// The commands for one light: its bindings, then one pass over the
    /// viewport with the effect of its type.
    pub open spec fn light_commands(
        self,
        light: Light,
        render_states: RenderStates,
        viewport: Viewport,
        camera: Camera,
    ) -> Seq<CommandView> {
        self.light_bindings(light, camera) + self.effect_of(light).pass(render_states, viewport)
    }

    /// The commands for the first `count` lights of a frame.
    pub open spec fn accumulation(
        self,
        lights: Seq<Light>,
        viewport: Viewport,
        camera: Camera,
        count: nat,
    ) -> Seq<CommandView>
        decreases count,
    {
        if count == 0 {
            Seq::<CommandView>::empty()
        } else {
            self.accumulation(lights, viewport, camera, (count - 1) as nat) + self.light_commands(
                lights[count - 1],
                light_states(count - 1),
                viewport,
                camera,
            )
        }
    }

    /// The commands for all lights of a frame, in their order.
    pub open spec fn lighting(self, lights: Seq<Light>, viewport: Viewport, camera: Camera) -> Seq<
        CommandView,
    > {
        self.accumulation(lights, viewport, camera, lights.len())
    }

    /// The commands that show one channel of the geometry buffer: the debug
    /// effect gets the matrix that takes a pixel back into the world, the
    /// geometry buffer and the number of the mode, and runs one pass that
    /// overwrites what the render target holds.
    pub open spec fn debug_commands(
        self,
        effect: ImageEffectView,
        viewport: Viewport,
        camera: Camera,
    ) -> Seq<CommandView> {
        seq![
            CommandView::SetUniform {
                program: effect.program,
                uniform: Uniform::ViewProjectionInverse,
                value: UniformValue::ViewProjectionInverse(camera),
            },
        ] + self.bind_geometry(effect.program) + seq![
            CommandView::SetUniform {
                program: effect.program,
                uniform: Uniform::Type,
                value: UniformValue::Int(self.debug_type.spec_selector()),
            },
        ] + effect.pass(light_states(0), viewport)
    }

    /// A light pass: the pipeline and the context afterwards.
    ///
    /// With a debug mode set, no light is evaluated. The debug effect is
    /// created if this is the first such pass, which takes three
    /// identifiers; without them, nothing changes. Then the mode is shown.
    /// Without a debug mode the lights are evaluated in their order. Either
    /// way the frame is resolved and the pipeline idle again.
    pub open spec fn light_pass(
        self,
        context: ContextView,
        viewport: Viewport,
        camera: Camera,
        lights: Seq<Light>,
    ) -> (PhongDeferredPipelineView, ContextView, Result<(), Error>) {
        let resolved = PhongDeferredPipelineView { state: PipelineState::Idle, ..self };
        if self.debug_type != DebugType::NONE {
            match self.debug_effect {
                Some(effect) => (
                    resolved,
                    context.record_all(self.debug_commands(effect, viewport, camera)),
                    Ok(()),
                ),
                None => {
                    let (created, outcome) = context.create_image_effect(context.shaders.debug);
                    match outcome {
                        Ok(effect) => (
                            PhongDeferredPipelineView { debug_effect: Some(effect), ..resolved },
                            created.record_all(self.debug_commands(effect, viewport, camera)),
                            Ok(()),
                        ),
                        Err(error) => (self, context, Err(error)),
                    }
                },
            }
        } else {
            (resolved, context.record_all(self.lighting(lights, viewport, camera)), Ok(()))
        }
    }

    /// Copying the depth layer of the geometry buffer into a texture of its
    /// own: the context afterwards and the texture. It takes one identifier;
    /// without it, nothing changes.
    pub open spec fn depth_snapshot(self, context: ContextView) -> (
        ContextView,
        Result<DepthTargetTexture2D, Error>,
    ) {
        if context.can_allocate(1) {
            let source = self.geometry_pass_depth_texture;
            let texture = DepthTargetTexture2D {
                id: context.next_id as u64,
                width: source.width,
                height: source.height,
            };
            (
                context.allocate(1).record_all(
                    seq![
                        CommandView::CreateDepthTargetTexture2D {
                            texture,
                            wrap_s: Wrapping::ClampToEdge,
                            wrap_t: Wrapping::ClampToEdge,
                            format: DepthFormat::Depth32F,
                        },
                        CommandView::CopyDepth {
                            source,
                            layer: 0,
                            destination: texture,
                            viewport: Viewport::spec_new_at_origo(source.width, source.height),
                        },
                    ],
                ),
                Ok(texture),
            )
        } else {
            (context, Err(Error::OutOfHandles))
        }
    }
}

/// Evaluating one more light appends its commands.
pub proof fn lemma_accumulation_step(
    pipeline: PhongDeferredPipelineView,
    lights: Seq<Light>,
    viewport: Viewport,
    camera: Camera,
    count: nat,
)
    ensures
        pipeline.accumulation(lights, viewport, camera, count + 1) == pipeline.accumulation(
            lights,
            viewport,
            camera,
            count,
        ) + pipeline.light_commands(
            lights[count as int],
            light_states(count as int),
            viewport,
            camera,
        ),
{
    reveal_with_fuel(PhongDeferredPipelineView::accumulation, 2);
}

/// What the first `count` lights record does not depend on the lights that
/// come after them.
pub proof fn lemma_accumulation_prefix(
    pipeline: PhongDeferredPipelineView,
    lights: Seq<Light>,
    more: Seq<Light>,
    viewport: Viewport,
    camera: Camera,
    count: nat,
)
    requires
        count <= lights.len(),
    ensures
        pipeline.accumulation(lights + more, viewport, camera, count) == pipeline.accumulation(
            lights,
            viewport,
            camera,
            count,
        ),
    decreases count,
{
    if count > 0 {
        lemma_accumulation_prefix(pipeline, lights, more, viewport, camera, (count - 1) as nat);
        assert((lights + more)[count - 1] == lights[count - 1]);
    }
}

/// Every light is evaluated by one pass over the viewport, which is the
/// last thing recorded for it and its only draw call.
pub proof fn lemma_light_draws_once(
    pipeline: PhongDeferredPipelineView,
    light: Light,
    render_states: RenderStates,
    viewport: Viewport,
    camera: Camera,
)
    ensures
        draws_once_at_end(pipeline.light_commands(light, render_states, viewport, camera)),
        pipeline.light_commands(light, render_states, viewport, camera).last()
            == (CommandView::DrawArrays {
            program: pipeline.effect_of(light).program,
            render_states,
            viewport,
            count: SCREEN_VERTICES,
        }),
{
}

/// Lights add up. One more light at the end of a frame leaves what is
/// recorded for the lights before it as it was, and appends its own pass.
/// That pass overwrites the render target if the light is the only one, and
/// is added to what the others have left there if not; alone in a frame the
/// same light records the same commands but for the blending.
pub proof fn lemma_lights_add_up(
    pipeline: PhongDeferredPipelineView,
    lights: Seq<Light>,
    light: Light,
    viewport: Viewport,
    camera: Camera,
)
    ensures
        pipeline.lighting(lights.push(light), viewport, camera) == pipeline.lighting(
            lights,
            viewport,
            camera,
        ) + pipeline.light_commands(light, light_states(lights.len() as int), viewport, camera),
        pipeline.lighting(seq![light], viewport, camera) == pipeline.light_commands(
            light,
            light_states(0),
            viewport,
            camera,
        ),
        light_states(0).blend is None,
        lights.len() > 0 ==> light_states(lights.len() as int) == light_states(0).spec_additive(),
{
    let all = lights.push(light);
    assert(all =~= lights + seq![light]);
    lemma_accumulation_prefix(pipeline, lights, seq![light], viewport, camera, lights.len());
    lemma_accumulation_step(pipeline, all, viewport, camera, lights.len());
    lemma_accumulation_step(pipeline, seq![light], viewport, camera, 0);
    assert(pipeline.lighting(seq![light], viewport, camera) =~= pipeline.light_commands(
        light,
        light_states(0),
        viewport,
        camera,
    ));
}

/// With a debug mode set, a light pass evaluates no light: what it records
/// is the same whatever lights are given. It binds the geometry buffer,
/// the depth layer among it, to the debug effect and runs exactly one pass
/// over the viewport.
pub proof fn lemma_debug_mode_skips_lights(
    pipeline: PhongDeferredPipelineView,
    context: ContextView,
    viewport: Viewport,
    camera: Camera,
    lights: Seq<Light>,
    effect: ImageEffectView,
)
    requires
        pipeline.debug_type != DebugType::NONE,
    ensures
        pipeline.light_pass(context, viewport, camera, lights) == pipeline.light_pass(
            context,
            viewport,
            camera,
            Seq::<Light>::empty(),
        ),
        pipeline.debug_effect == Some(effect) ==> pipeline.light_pass(
            context,
            viewport,
            camera,
            lights,
        ).1 == context.record_all(pipeline.debug_commands(effect, viewport, camera)),
        draws_once_at_end(pipeline.debug_commands(effect, viewport, camera)),
        pipeline.debug_commands(effect, viewport, camera).subrange(4, 7) == effect.pass(
            light_states(0),
            viewport,
        ),
        pipeline.debug_commands(effect, viewport, camera)[2] == (CommandView::UseTexture {
            program: effect.program,
            texture: Texture::DepthTargetArray(pipeline.geometry_pass_depth_texture),
            sampler: Sampler::DepthMap,
        }),
        pipeline.debug_commands(effect, viewport, camera)[3] == (CommandView::SetUniform {
            program: effect.program,
            uniform: Uniform::Type,
            value: UniformValue::Int(pipeline.debug_type.spec_selector()),
        }),
{
    assert(pipeline.debug_commands(effect, viewport, camera).subrange(4, 7) =~= effect.pass(
        light_states(0),
        viewport,
    ));
}

impl ContextView {
    /// Creating a deferred pipeline: the state afterwards and the pipeline.
    /// It takes fourteen identifiers; without them, nothing changes.
    pub open spec fn create_pipeline(self) -> (
        ContextView,
        Result<PhongDeferredPipelineView, Error>,
    ) {
        if self.can_allocate(PIPELINE_HANDLES as nat) {
            let pipeline = PhongDeferredPipelineView::at(self.next_id);
            (
                self.allocate(PIPELINE_HANDLES as nat).record_all(pipeline.creation(self.shaders)),
                Ok(pipeline),
            )
        } else {
            (self, Err(Error::OutOfHandles))
        }
    }
}

impl View for PhongDeferredPipeline {
    type V = PhongDeferredPipelineView;

    closed spec fn view(&self) -> PhongDeferredPipelineView {
        PhongDeferredPipelineView {
            ambient_light_effect: self.ambient_light_effect@,
            directional_light_effect: self.directional_light_effect@,
            point_light_effect: self.point_light_effect@,
            spot_light_effect: self.spot_light_effect@,
            debug_effect: match self.debug_effect {
                Some(effect) => Some(effect@),
                None => None,
            },
            debug_type: self.debug_type,
            geometry_pass_texture: self.geometry_pass_texture,
            geometry_pass_depth_texture: self.geometry_pass_depth_texture,
            state: self.state,
        }
    }
}

/// The result of creating a pipeline, with the pipeline as its view.
pub open spec fn pipeline_view_of(result: Result<PhongDeferredPipeline, Error>) -> Result<
    PhongDeferredPipelineView,
    Error,
> {
    match result {
        Ok(pipeline) => Ok(pipeline@),
        Err(error) => Err(error),
    }
}

impl PhongDeferredPipeline {
    /// Creates a pipeline: compiles the effects of the four types of light
    /// and allocates a geometry buffer of one pixel.
    ///
    /// Fails, and records nothing, if the context has fewer than fourteen
    /// identifiers left.
    pub fn new(context: &mut Context) -> (result: Result<PhongDeferredPipeline, Error>)
        ensures
            (final(context)@, pipeline_view_of(result)) == old(context)@.create_pipeline(),
            result is Ok ==> result->Ok_0@.wf(),
    {
        if !context.can_allocate(PIPELINE_HANDLES) {
            return Err(Error::OutOfHandles);
        }
        let ghost before = context@;
        let source = context.shaders().deferred_light_source(LightType::Ambient);
        let ambient_light_effect = match ImageEffect::new(context, source.as_str()) {
            Ok(effect) => effect,
            Err(error) => {
                return Err(error);
            },
        };
        let source = context.shaders().deferred_light_source(LightType::Directional);
        let directional_light_effect = match ImageEffect::new(context, source.as_str()) {
            Ok(effect) => effect,
            Err(error) => {
                return Err(error);
            },
        };
        let source = context.shaders().deferred_light_source(LightType::Point);
        let point_light_effect = match ImageEffect::new(context, source.as_str()) {
            Ok(effect) => effect,
            Err(error) => {
                return Err(error);
            },
        };
        let source = context.shaders().deferred_light_source(LightType::Spot);
        let spot_light_effect = match ImageEffect::new(context, source.as_str()) {
            Ok(effect) => effect,
            Err(error) => {
                return Err(error);
            },
        };
        let geometry_pass_texture = ColorTargetTexture2DArray {
            id: context.fresh_id(),
            width: 1,
            height: 1,
            depth: COLOR_LAYERS,
        };
        record_color_layers(context, geometry_pass_texture);
        let geometry_pass_depth_texture = DepthTargetTexture2DArray {
            id: context.fresh_id(),
            width: 1,
            height: 1,
            depth: DEPTH_LAYERS,
        };
        record_depth_layers(context, geometry_pass_depth_texture);
        let pipeline = PhongDeferredPipeline {
            ambient_light_effect,
            directional_light_effect,
            point_light_effect,
            spot_light_effect,
            debug_effect: None,
            debug_type: DebugType::NONE,
            geometry_pass_texture,
            geometry_pass_depth_texture,
            state: PipelineState::Idle,
        };
        pipeline.record_geometry(context, *pipeline.ambient_light_effect.program());
        proof {
            assert(pipeline@ == PhongDeferredPipelineView::at(before.next_id));
            assert(context@.recorded =~= before.recorded + pipeline@.creation(before.shaders));
        }
        Ok(pipeline)
    }

    /// Binds the geometry buffer to a program.
    fn record_geometry(&self, context: &mut Context, program: Program)
        ensures
            final(context)@ == old(context)@.record_all(self@.bind_geometry(program)),
    {
        program.use_texture(
            context,
            Texture::ColorTargetArray(self.geometry_pass_texture),
            Sampler::Gbuffer,
        );
        program.use_texture(
            context,
            Texture::DepthTargetArray(self.geometry_pass_depth_texture),
            Sampler::DepthMap,
        );
        proof {
            assert(context@.recorded =~= old(context)@.recorded + self@.bind_geometry(program));
        }
    }

    /// The colour layers of the geometry buffer, as the last geometry pass
    /// left them.
    pub fn geometry_pass_texture(&self) -> (texture: Texture)
        ensures
            texture == Texture::ColorTargetArray(self@.geometry_pass_texture),
    {
        Texture::ColorTargetArray(self.geometry_pass_texture)
    }

    /// The depth layer of the geometry buffer, as the last geometry pass
    /// left it.
    pub fn geometry_pass_depth_texture_array(&self) -> (texture: Texture)
        ensures
            texture == Texture::DepthTargetArray(self@.geometry_pass_depth_texture),
    {
        Texture::DepthTargetArray(self.geometry_pass_depth_texture)
    }

    /// Copies the depth layer of the geometry buffer into a new texture. The
    /// copy keeps what the layer holds now, whatever later geometry passes
    /// write.
    ///
    /// Fails, and records nothing, if the context has no identifier left.
    pub fn geometry_pass_depth_texture(&self, context: &mut Context) -> (result: Result<
        DepthTargetTexture2D,
        Error,
    >)
        ensures
            (final(context)@, result) == self@.depth_snapshot(old(context)@),
    {
        if !context.can_allocate(1) {
            return Err(Error::OutOfHandles);
        }
        let source = self.geometry_pass_depth_texture;
        let texture = DepthTargetTexture2D {
            id: context.fresh_id(),
            width: source.width,
            height: source.height,
        };
        context.record(
            Command::CreateDepthTargetTexture2D {
                texture,
                wrap_s: Wrapping::ClampToEdge,
                wrap_t: Wrapping::ClampToEdge,
                format: DepthFormat::Depth32F,
            },
        );
        context.record(
            Command::CopyDepth {
                source,
                layer: 0,
                destination: texture,
                viewport: Viewport::new_at_origo(source.width, source.height),
            },
        );
        proof {
            assert(context@.recorded =~= self@.depth_snapshot(old(context)@).0.recorded);
        }
        Ok(texture)
    }

    /// Renders the geometry and surface parameters of the scene into a new
    /// geometry buffer of the given size. `render` draws the scene: it is
    /// called once, with the render target open and cleared, and what it
    /// records stands between the opening and the closing of the render
    /// target. Must be followed by a call to
    /// [`light_pass`](Self::light_pass).
    ///
    /// Fails, and changes nothing, if the context has fewer than two
    /// identifiers left; `render` is not called then. Fails with the error
    /// of `render` if that fails; the geometry buffer is new then, but holds
    /// nothing that a light pass may read.
    pub fn geometry_pass<F: FnOnce(&mut Context) -> Result<(), Error>>(
        &mut self,
        context: &mut Context,
        width: usize,
        height: usize,
        render: F,
    ) -> (result: Result<(), Error>)
        requires
            old(context)@.can_allocate(2) ==> forall|during: &mut Context|
                (*during)@ == old(self)@.opened(old(context)@, width, height) ==> call_requires(
                    render,
                    (during,),
                ),
        ensures
            !old(context)@.can_allocate(2) ==> result == Err::<(), Error>(Error::OutOfHandles)
                && final(self)@ == old(self)@ && final(context)@ == old(context)@,
            old(context)@.can_allocate(2) ==> final(self)@ == old(self)@.resized(
                old(context)@.next_id,
                width,
                height,
            ).written(result) && exists|during: &mut Context|
                (*during)@ == old(self)@.opened(old(context)@, width, height)
                    && #[trigger] call_ensures(render, (during,), result) && final(context)@ == (
                *final(during))@.record(CommandView::EndRenderTarget),
            old(self)@.wf() ==> final(self)@.wf(),
    {
        if !context.can_allocate(2) {
            return Err(Error::OutOfHandles);
        }
        let old_color = self.geometry_pass_texture;
        let old_depth = self.geometry_pass_depth_texture;
        let color = ColorTargetTexture2DArray {
            id: context.fresh_id(),
            width,
            height,
            depth: COLOR_LAYERS,
        };
        record_color_layers(context, color);
        context.record(Command::DeleteTexture { texture: Texture::ColorTargetArray(old_color) });
        self.geometry_pass_texture = color;
        let depth = DepthTargetTexture2DArray {
            id: context.fresh_id(),
            width,
            height,
            depth: DEPTH_LAYERS,
        };
        record_depth_layers(context, depth);
        context.record(Command::DeleteTexture { texture: Texture::DepthTargetArray(old_depth) });
        self.geometry_pass_depth_texture = depth;
        let mut color_layers: Vec<usize> = Vec::new();
        color_layers.push(0);
        color_layers.push(1);
        proof {
            assert(color_layers@ =~= seq![0usize, 1usize]);
        }
        context.record(
            Command::BeginRenderTargetArray {
                color_texture: color,
                depth_texture: depth,
                color_layers,
                depth_layer: 0,
            },
        );
        context.record(Command::ClearRenderTarget);
        proof {
            let ghost next = old(self)@.resized(old(context)@.next_id, width, height);
            assert(context@.recorded =~= old(context)@.recorded + old(self)@.opening(next));
            assert(context@ == old(self)@.opened(old(context)@, width, height));
        }
        let result = render(context);
        context.record(Command::EndRenderTarget);
        self.state = match result {
            Ok(_) => PipelineState::GeometryWritten,
            Err(_) => PipelineState::Idle,
        };
        result
    }

    /// Binds what one light needs and runs its pass.
    fn record_light(
        &self,
        context: &mut Context,
        light: Light,
        render_states: RenderStates,
        viewport: Viewport,
        camera: &Camera,
    )
        ensures
            final(context)@ == old(context)@.record_all(
                self@.light_commands(light, render_states, viewport, *camera),
            ),
    {
        match light {
            Light::Ambient(ambient) => {
                let program = *self.ambient_light_effect.program();
                self.record_geometry(context, program);
                program.use_uniform(
                    context,
                    Uniform::AmbientColor,
                    UniformValue::AmbientColor(ambient),
                );
                self.ambient_light_effect.apply(context, render_states, viewport);
            },
            Light::Directional(directional) => {
                let program = *self.directional_light_effect.program();
                self.record_geometry(context, program);
                record_camera(context, program, camera);
                program.use_texture(context, directional.shadow_map(), Sampler::ShadowMap);
                program.use_uniform_block(
                    context,
                    directional.buffer(),
                    UniformBlock::DirectionalLightUniform,
                );
                self.directional_light_effect.apply(context, render_states, viewport);
            },
            Light::Spot(spot) => {
                let program = *self.spot_light_effect.program();
                self.record_geometry(context, program);
                record_camera(context, program, camera);
                program.use_texture(context, spot.shadow_map(), Sampler::ShadowMap);
                program.use_uniform_block(context, spot.buffer(), UniformBlock::SpotLightUniform);
                self.spot_light_effect.apply(context, render_states, viewport);
            },
            Light::Point(point) => {
                let program = *self.point_light_effect.program();
                self.record_geometry(context, program);
                record_camera(context, program, camera);
                program.use_uniform_block(context, point.buffer(), UniformBlock::PointLightUniform);
                self.point_light_effect.apply(context, render_states, viewport);
            },
        }
        proof {
            assert(context@.recorded =~= old(context)@.recorded + self@.light_commands(
                light,
                render_states,
                viewport,
                *camera,
            ));
        }
    }

    /// Shows one channel of the geometry buffer with the given effect.
    fn record_debug(
        &self,
        context: &mut Context,
        effect: &ImageEffect,
        viewport: Viewport,
        camera: &Camera,
    )
        ensures
            final(context)@ == old(context)@.record_all(
                self@.debug_commands(effect@, viewport, *camera),
            ),
    {
        let program = *effect.program();
        program.use_uniform(
            context,
            Uniform::ViewProjectionInverse,
            UniformValue::ViewProjectionInverse(*camera),
        );
        self.record_geometry(context, program);
        program.use_uniform(context, Uniform::Type, UniformValue::Int(self.debug_type.selector()));
        effect.apply(
            context,
            RenderStates {
                cull: CullType::Back,
                depth_test: DepthTestType::LessOrEqual,
                blend: None,
            },
            viewport,
        );
        proof {
            assert(context@.recorded =~= old(context)@.recorded + self@.debug_commands(
                effect@,
                viewport,
                *camera,
            ));
        }
    }

    /// Shades what the last [`geometry_pass`](Self::geometry_pass) wrote with
    /// the given lights, into the render target that the host has opened.
    ///
    /// The ambient light comes first, then the directional lights, the spot
    /// lights and the point lights, each group in the order given. The
    /// first light overwrites the render target, every later one is added.
    /// With a debug mode set, no light is evaluated and the mode is shown
    /// instead.
    ///
    /// A geometry pass must have run for this frame. Fails, and changes
    /// nothing, if the debug effect has to be created and the context has
    /// fewer than three identifiers left.
    pub fn light_pass(
        &mut self,
        context: &mut Context,
        viewport: Viewport,
        camera: &Camera,
        ambient_light: Option<&AmbientLight>,
        directional_lights: &[&DirectionalLight],
        spot_lights: &[&SpotLight],
        point_lights: &[&PointLight],
    ) -> (result: Result<(), Error>)
        requires
            old(self)@.state == PipelineState::GeometryWritten,
        ensures
            (final(self)@, final(context)@, result) == old(self)@.light_pass(
                old(context)@,
                viewport,
                *camera,
                lights_in_order(
                    spec_copied(ambient_light),
                    each(directional_lights@),
                    each(spot_lights@),
                    each(point_lights@),
                ),
            ),
            old(self)@.wf() ==> final(self)@.wf(),
    {
        if self.debug_type != DebugType::NONE {
            match &self.debug_effect {
                Some(effect) => {
                    self.record_debug(context, effect, viewport, camera);
                },
                None => {
                    let source = context.shaders().debug.clone();
                    match ImageEffect::new(context, source.as_str()) {
                        Ok(effect) => {
                            self.record_debug(context, &effect, viewport, camera);
                            self.debug_effect = Some(effect);
                        },
                        Err(error) => {
                            return Err(error);
                        },
                    }
                },
            }
            self.state = PipelineState::Idle;
            return Ok(());
        }
        let ghost ambient = spec_copied(ambient_light);
        let ghost directional = each(directional_lights@);
        let ghost spot = each(spot_lights@);
        let ghost point = each(point_lights@);
        let ghost lights = lights_in_order(ambient, directional, spot, point);
        let ghost before = context@;
        let ghost pipeline = self@;
        let ghost eye = *camera;
        proof {
            lemma_lights_in_order(ambient, directional, spot, point);
        }
        let mut render_states = RenderStates {
            cull: CullType::Back,
            depth_test: DepthTestType::LessOrEqual,
            blend: None,
        };
        let ghost mut done: nat = 0;

        match ambient_light {
            Some(light) => {
                self.record_light(context, Light::Ambient(*light), render_states, viewport, camera);
                render_states = render_states.additive();
                proof {
                    lemma_accumulation_step(pipeline, lights, viewport, eye, 0);
                    done = 1;
                    assert(context@.recorded =~= before.recorded + pipeline.accumulation(
                        lights,
                        viewport,
                        eye,
                        done,
                    ));
                }
            },
            None => {},
        }
        let ghost first = done;

        let mut i: usize = 0;
        while i < directional_lights.len()
            invariant
                i <= directional_lights@.len(),
                done == first + i,
                self@ == pipeline,
                *camera == eye,
                render_states == light_states(done as int),
                context@ == before.record_all(pipeline.accumulation(lights, viewport, eye, done)),
                forall|k: int|
                    0 <= k < directional_lights@.len() ==> #[trigger] lights[first + k]
                        == Light::Directional(*directional_lights@[k]),
            decreases directional_lights@.len() - i,
        {
            let light = Light::Directional(*directional_lights[i]);
            assert(light == lights[first + i]);
            self.record_light(context, light, render_states, viewport, camera);
            render_states = render_states.additive();
            proof {
                lemma_accumulation_step(pipeline, lights, viewport, eye, done);
                assert(context@.recorded =~= before.recorded + pipeline.accumulation(
                    lights,
                    viewport,
                    eye,
                    done + 1,
                ));
                done = done + 1;
            }
            i += 1;
        }
        let ghost second = done;

        let mut i: usize = 0;
        while i < spot_lights.len()
            invariant
                i <= spot_lights@.len(),
                done == second + i,
                self@ == pipeline,
                *camera == eye,
                render_states == light_states(done as int),
                context@ == before.record_all(pipeline.accumulation(lights, viewport, eye, done)),
                forall|k: int|
                    0 <= k < spot_lights@.len() ==> #[trigger] lights[second + k] == Light::Spot(
                        *spot_lights@[k],
                    ),
            decreases spot_lights@.len() - i,
        {
            let light = Light::Spot(*spot_lights[i]);
            assert(light == lights[second + i]);
            self.record_light(context, light, render_states, viewport, camera);
            render_states = render_states.additive();
            proof {
                lemma_accumulation_step(pipeline, lights, viewport, eye, done);
                assert(context@.recorded =~= before.recorded + pipeline.accumulation(
                    lights,
                    viewport,
                    eye,
                    done + 1,
                ));
                done = done + 1;
            }
            i += 1;
        }
        let ghost third = done;

        let mut i: usize = 0;
        while i < point_lights.len()
            invariant
                i <= point_lights@.len(),
                done == third + i,
                self@ == pipeline,
                *camera == eye,
                render_states == light_states(done as int),
                context@ == before.record_all(pipeline.accumulation(lights, viewport, eye, done)),
                forall|k: int|
                    0 <= k < point_lights@.len() ==> #[trigger] lights[third + k] == Light::Point(
                        *point_lights@[k],
                    ),
            decreases point_lights@.len() - i,
        {
            let light = Light::Point(*point_lights[i]);
            assert(light == lights[third + i]);
            self.record_light(context, light, render_states, viewport, camera);
            render_states = render_states.additive();
            proof {
                lemma_accumulation_step(pipeline, lights, viewport, eye, done);
                assert(context@.recorded =~= before.recorded + pipeline.accumulation(
                    lights,
                    viewport,
                    eye,
                    done + 1,
                ));
                done = done + 1;
            }
            i += 1;
        }
        self.state = PipelineState::Idle;
        Ok(())
    }

    /// Where the pipeline stands within the frame.
    pub fn state(&self) -> (state: PipelineState)
        ensures
            state == self@.state,
    {
        self.state
    }

    /// The debug mode.
    pub fn debug_type(&self) -> (debug_type: DebugType)
        ensures
            debug_type == self@.debug_type,
    {
        self.debug_type
    }

    /// Chooses what the light pass shows: the lit scene with
    /// [`DebugType::NONE`], one channel of the geometry buffer otherwise.
    pub fn set_debug_type(&mut self, debug_type: DebugType)
        ensures
            final(self)@ == (PhongDeferredPipelineView { debug_type, ..old(self)@ }),
    {
        self.debug_type = debug_type;
    }
}

/// Records the allocation of the colour layers of a geometry buffer.
fn record_color_layers(context: &mut Context, texture: ColorTargetTexture2DArray)
    ensures
        final(context)@ == old(context)@.record(create_color_layers(texture)),
{
    context.record(
        Command::CreateColorTargetTexture2DArray {
            texture,
            min_filter: Interpolation::Nearest,
            mag_filter: Interpolation::Nearest,
            mip_map_filter: None,
            wrap_s: Wrapping::ClampToEdge,
            wrap_t: Wrapping::ClampToEdge,
            format: Format::RGBA8,
        },
    );
}

/// Records the allocation of the depth layer of a geometry buffer.
fn record_depth_layers(context: &mut Context, texture: DepthTargetTexture2DArray)
    ensures
        final(context)@ == old(context)@.record(create_depth_layers(texture)),
{
    context.record(
        Command::CreateDepthTargetTexture2DArray {
            texture,
            wrap_s: Wrapping::ClampToEdge,
            wrap_t: Wrapping::ClampToEdge,
            format: DepthFormat::Depth32F,
        },
    );
}

/// Binds the eye position and the inverse of the view projection.
fn record_camera(context: &mut Context, program: Program, camera: &Camera)
    ensures
        final(context)@ == old(context)@.record_all(
            PhongDeferredPipelineView::bind_camera(program, *camera),
        ),
{
    program.use_uniform(context, Uniform::EyePosition, UniformValue::EyePosition(*camera));
    program.use_uniform(
        context,
        Uniform::ViewProjectionInverse,
        UniformValue::ViewProjectionInverse(*camera),
    );
    proof {
        assert(context@.recorded =~= old(context)@.recorded
            + PhongDeferredPipelineView::bind_camera(program, *camera));
    }
}

} // verus!
