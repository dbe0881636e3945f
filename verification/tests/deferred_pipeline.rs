use render_core::{
    AmbientLight, Attribute, BlendParameters, Camera, ColorTargetTexture2DArray, Command, Context,
    CPUMesh, CullType, DebugType, DepthFormat, DepthTargetTexture2D, DepthTargetTexture2DArray,
    DepthTestType, DirectionalLight, Error, Format, Interpolation, Mat4, Mesh, MeshProgram,
    PhongDeferredPipeline, PipelineState, PointLight, Program, RenderStates, Sampler,
    ShaderSources, SpotLight, Texture, Uniform, UniformBlock, UniformBuffer, UniformValue,
    VertexBuffer, VertexData, Viewport, Wrapping,
};

fn sources() -> ShaderSources {
    ShaderSources {
        light_shared: "// light shared".to_string(),
        deferred_light_shared: "// deferred shared".to_string(),
        ambient_light: "// ambient".to_string(),
        directional_light: "// directional".to_string(),
        point_light: "// point".to_string(),
        spot_light: "// spot".to_string(),
        debug: "// debug".to_string(),
        colored_forward_ambient: String::new(),
        textured_forward_ambient: String::new(),
        colored_forward_ambient_directional: String::new(),
        textured_forward_ambient_directional: String::new(),
    }
}

const EFFECT_VERTEX_SHADER: &str = "in vec3 position;
                                                    in vec2 uv_coordinate;
                                                    out vec2 uv;
                                                    void main()
                                                    {
                                                        uv = uv_coordinate;
                                                        gl_Position = vec4(position, 1.0);
                                                    }";

const AMBIENT: Program = Program { id: 0 };
const DIRECTIONAL: Program = Program { id: 3 };
const POINT: Program = Program { id: 6 };
const SPOT: Program = Program { id: 9 };

fn camera() -> Camera {
    Camera { matrix_buffer: UniformBuffer { id: 70 } }
}

fn opaque() -> RenderStates {
    RenderStates { cull: CullType::Back, depth_test: DepthTestType::LessOrEqual, blend: None }
}

fn additive() -> RenderStates {
    RenderStates {
        cull: CullType::Back,
        depth_test: DepthTestType::LessOrEqual,
        blend: Some(BlendParameters::Add),
    }
}

fn effect_creation(first_id: u64, fragment: &str) -> Vec<Command> {
    vec![
        Command::CreateProgram {
            program: Program { id: first_id },
            vertex_shader_source: EFFECT_VERTEX_SHADER.to_string(),
            fragment_shader_source: fragment.to_string(),
        },
        Command::CreateVertexBuffer {
            buffer: VertexBuffer { id: first_id + 1, count: 9 },
            data: VertexData::ScreenPositions,
        },
        Command::CreateVertexBuffer {
            buffer: VertexBuffer { id: first_id + 2, count: 6 },
            data: VertexData::ScreenUvCoordinates,
        },
    ]
}

fn create_color(id: u64, width: usize, height: usize) -> Command {
    Command::CreateColorTargetTexture2DArray {
        texture: ColorTargetTexture2DArray { id, width, height, depth: 2 },
        min_filter: Interpolation::Nearest,
        mag_filter: Interpolation::Nearest,
        mip_map_filter: None,
        wrap_s: Wrapping::ClampToEdge,
        wrap_t: Wrapping::ClampToEdge,
        format: Format::RGBA8,
    }
}

fn create_depth(id: u64, width: usize, height: usize) -> Command {
    Command::CreateDepthTargetTexture2DArray {
        texture: DepthTargetTexture2DArray { id, width, height, depth: 1 },
        wrap_s: Wrapping::ClampToEdge,
        wrap_t: Wrapping::ClampToEdge,
        format: DepthFormat::Depth32F,
    }
}

fn color_texture(id: u64, width: usize, height: usize) -> Texture {
    Texture::ColorTargetArray(ColorTargetTexture2DArray { id, width, height, depth: 2 })
}

fn depth_texture(id: u64, width: usize, height: usize) -> Texture {
    Texture::DepthTargetArray(DepthTargetTexture2DArray { id, width, height, depth: 1 })
}

fn bind_geometry(program: Program, color: Texture, depth: Texture) -> Vec<Command> {
    vec![
        Command::UseTexture { program, texture: color, sampler: Sampler::Gbuffer },
        Command::UseTexture { program, texture: depth, sampler: Sampler::DepthMap },
    ]
}

fn bind_camera(program: Program) -> Vec<Command> {
    vec![
        Command::SetUniform {
            program,
            uniform: Uniform::EyePosition,
            value: UniformValue::EyePosition(camera()),
        },
        Command::SetUniform {
            program,
            uniform: Uniform::ViewProjectionInverse,
            value: UniformValue::ViewProjectionInverse(camera()),
        },
    ]
}

fn pass(program: Program, states: RenderStates, viewport: Viewport) -> Vec<Command> {
    vec![
        Command::UseAttribute {
            program,
            buffer: VertexBuffer { id: program.id + 1, count: 9 },
            attribute: Attribute::Position,
        },
        Command::UseAttribute {
            program,
            buffer: VertexBuffer { id: program.id + 2, count: 6 },
            attribute: Attribute::UvCoordinate,
        },
        Command::DrawArrays { program, render_states: states, viewport, count: 3 },
    ]
}

fn draws(commands: &[Command]) -> Vec<(Program, Option<BlendParameters>)> {
    let mut found = Vec::new();
    for command in commands {
        match command {
            Command::DrawArrays { program, render_states, .. } => {
                found.push((*program, render_states.blend))
            }
            Command::DrawElements { program, render_states, .. } => {
                found.push((*program, render_states.blend))
            }
            _ => {}
        }
    }
    found
}

fn directional(id: u64) -> DirectionalLight {
    DirectionalLight {
        shadow_map: Texture::Foreign { id: 100 + id },
        buffer: UniformBuffer { id: 200 + id },
    }
}

fn spot(id: u64) -> SpotLight {
    SpotLight { shadow_map: Texture::Foreign { id: 300 + id }, buffer: UniformBuffer { id: 400 + id } }
}

fn point(id: u64) -> PointLight {
    PointLight { buffer: UniformBuffer { id: 500 + id } }
}

fn written_pipeline(context: &mut Context, width: usize, height: usize) -> PhongDeferredPipeline {
    let mut pipeline = PhongDeferredPipeline::new(context).unwrap();
    pipeline.geometry_pass(context, width, height, |_: &mut Context| Ok(())).unwrap();
    context.take_commands();
    pipeline
}

#[test]
fn new_compiles_four_effects_and_allocates_one_pixel() {
    let mut context = Context::new(sources());
    let pipeline = PhongDeferredPipeline::new(&mut context).unwrap();
    let mut expected = Vec::new();
    expected.extend(effect_creation(0, "// light shared\n// deferred shared\n// ambient"));
    expected.extend(effect_creation(3, "// light shared\n// deferred shared\n// directional"));
    expected.extend(effect_creation(6, "// light shared\n// deferred shared\n// point"));
    expected.extend(effect_creation(9, "// light shared\n// deferred shared\n// spot"));
    expected.push(create_color(12, 1, 1));
    expected.push(create_depth(13, 1, 1));
    expected.extend(bind_geometry(AMBIENT, color_texture(12, 1, 1), depth_texture(13, 1, 1)));
    assert_eq!(context.commands(), &expected);
    assert_eq!(pipeline.debug_type, DebugType::NONE);
    assert_eq!(pipeline.debug_type(), DebugType::NONE);
    assert_eq!(pipeline.state(), PipelineState::Idle);
    assert_eq!(pipeline.geometry_pass_texture(), color_texture(12, 1, 1));
    assert_eq!(pipeline.geometry_pass_depth_texture_array(), depth_texture(13, 1, 1));
}

#[test]
fn new_fails_without_fourteen_identifiers() {
    let mut context = Context::with_first_id(sources(), u64::MAX - 13);
    assert_eq!(PhongDeferredPipeline::new(&mut context).err(), Some(Error::OutOfHandles));
    assert!(context.commands().is_empty());
    let mut context = Context::with_first_id(sources(), u64::MAX - 14);
    assert!(PhongDeferredPipeline::new(&mut context).is_ok());
    assert_eq!(context.commands().len(), 16);
}

#[test]
fn geometry_pass_replaces_the_geometry_buffer() {
    let mut context = Context::new(sources());
    let mut pipeline = PhongDeferredPipeline::new(&mut context).unwrap();
    context.take_commands();
    let result = pipeline.geometry_pass(&mut context, 640, 480, |_: &mut Context| Ok(()));
    assert_eq!(result, Ok(()));
    assert_eq!(
        context.commands(),
        &vec![
            create_color(14, 640, 480),
            Command::DeleteTexture { texture: color_texture(12, 1, 1) },
            create_depth(15, 640, 480),
            Command::DeleteTexture { texture: depth_texture(13, 1, 1) },
            Command::BeginRenderTargetArray {
                color_texture: ColorTargetTexture2DArray { id: 14, width: 640, height: 480, depth: 2 },
                depth_texture: DepthTargetTexture2DArray { id: 15, width: 640, height: 480, depth: 1 },
                color_layers: vec![0, 1],
                depth_layer: 0,
            },
            Command::ClearRenderTarget,
            Command::EndRenderTarget,
        ]
    );
    assert_eq!(pipeline.state(), PipelineState::GeometryWritten);
    assert_eq!(pipeline.geometry_pass_texture(), color_texture(14, 640, 480));
    assert_eq!(pipeline.geometry_pass_depth_texture_array(), depth_texture(15, 640, 480));
}

#[test]
fn geometry_pass_runs_the_callback_inside_the_render_target() {
    let mut context = Context::new(sources());
    let mut pipeline = PhongDeferredPipeline::new(&mut context).unwrap();
    let description = CPUMesh {
        id: 1,
        name: "two triangles".to_string(),
        positions: 18,
        normals: None,
        indices: None,
        uvs: None,
        colors: None,
    };
    let mesh = Mesh::new(&mut context, &description).unwrap();
    context.take_commands();
    let program =
        MeshProgram { program: Program { id: 900 }, use_normals: false, use_uvs: false, use_colors: false };
    let viewport = Viewport::new_at_origo(256, 256);
    let result = pipeline.geometry_pass(&mut context, 256, 256, |context: &mut Context| {
        mesh.render(context, &program, opaque(), viewport, &Mat4 { id: 1 }, &camera())
    });
    assert_eq!(result, Ok(()));
    let commands = context.commands();
    assert_eq!(commands.len(), 6 + 4 + 1);
    assert_eq!(commands[5], Command::ClearRenderTarget);
    assert_eq!(
        commands[9],
        Command::DrawArrays {
            program: Program { id: 900 },
            render_states: opaque(),
            viewport,
            count: 6,
        }
    );
    assert_eq!(commands[10], Command::EndRenderTarget);
}

#[test]
fn geometry_pass_hands_on_the_error_of_the_callback() {
    let mut context = Context::new(sources());
    let mut pipeline = PhongDeferredPipeline::new(&mut context).unwrap();
    pipeline.geometry_pass(&mut context, 8, 8, |_: &mut Context| Ok(())).unwrap();
    assert_eq!(pipeline.state(), PipelineState::GeometryWritten);
    context.take_commands();
    let result =
        pipeline.geometry_pass(&mut context, 16, 16, |_: &mut Context| Err(Error::MissingNormals));
    assert_eq!(result, Err(Error::MissingNormals));
    assert_eq!(pipeline.state(), PipelineState::Idle);
    assert_eq!(context.commands().len(), 7);
    assert_eq!(context.commands()[6], Command::EndRenderTarget);
    assert_eq!(pipeline.geometry_pass_texture(), color_texture(16, 16, 16));
}

#[test]
fn geometry_pass_fails_without_identifiers_and_does_not_call_back() {
    let mut context = Context::with_first_id(sources(), u64::MAX - 15);
    let mut pipeline = PhongDeferredPipeline::new(&mut context).unwrap();
    context.take_commands();
    let mut called = false;
    let result = pipeline.geometry_pass(&mut context, 8, 8, |_: &mut Context| {
        called = true;
        Ok(())
    });
    assert_eq!(result, Err(Error::OutOfHandles));
    assert!(!called);
    assert!(context.commands().is_empty());
    assert_eq!(pipeline.state(), PipelineState::Idle);
    assert_eq!(pipeline.geometry_pass_texture(), color_texture(u64::MAX - 3, 1, 1));
}

#[test]
fn light_pass_with_ambient_light_only() {
    let mut context = Context::new(sources());
    let mut pipeline = written_pipeline(&mut context, 256, 256);
    let viewport = Viewport::new_at_origo(256, 256);
    let ambient = AmbientLight { id: 1 };
    let result =
        pipeline.light_pass(&mut context, viewport, &camera(), Some(&ambient), &[], &[], &[]);
    assert_eq!(result, Ok(()));
    let mut expected =
        bind_geometry(AMBIENT, color_texture(14, 256, 256), depth_texture(15, 256, 256));
    expected.push(Command::SetUniform {
        program: AMBIENT,
        uniform: Uniform::AmbientColor,
        value: UniformValue::AmbientColor(ambient),
    });
    expected.extend(pass(AMBIENT, opaque(), viewport));
    assert_eq!(context.commands(), &expected);
    assert_eq!(pipeline.state(), PipelineState::Idle);
}

#[test]
fn light_pass_evaluates_the_lights_in_order() {
    let mut context = Context::new(sources());
    let mut pipeline = written_pipeline(&mut context, 64, 64);
    let viewport = Viewport::new_at_origo(64, 64);
    let ambient = AmbientLight { id: 1 };
    pipeline
        .light_pass(
            &mut context,
            viewport,
            &camera(),
            Some(&ambient),
            &[&directional(1), &directional(2)],
            &[&spot(1)],
            &[&point(1), &point(2)],
        )
        .unwrap();
    assert_eq!(
        draws(context.commands()),
        vec![
            (AMBIENT, None),
            (DIRECTIONAL, Some(BlendParameters::Add)),
            (DIRECTIONAL, Some(BlendParameters::Add)),
            (SPOT, Some(BlendParameters::Add)),
            (POINT, Some(BlendParameters::Add)),
            (POINT, Some(BlendParameters::Add)),
        ]
    );
    let buffers: Vec<UniformBuffer> = context
        .commands()
        .iter()
        .filter_map(|command| match command {
            Command::UseUniformBlock { buffer, .. } => Some(*buffer),
            _ => None,
        })
        .collect();
    assert_eq!(
        buffers,
        vec![
            UniformBuffer { id: 201 },
            UniformBuffer { id: 202 },
            UniformBuffer { id: 401 },
            UniformBuffer { id: 501 },
            UniformBuffer { id: 502 },
        ]
    );
}

#[test]
fn light_pass_binds_what_each_light_needs() {
    let mut context = Context::new(sources());
    let mut pipeline = written_pipeline(&mut context, 64, 64);
    let viewport = Viewport { x: 3, y: 4, width: 60, height: 50 };
    let color = color_texture(14, 64, 64);
    let depth = depth_texture(15, 64, 64);
    pipeline
        .light_pass(&mut context, viewport, &camera(), None, &[&directional(1)], &[&spot(2)], &[&point(3)])
        .unwrap();
    let mut expected = Vec::new();
    expected.extend(bind_geometry(DIRECTIONAL, color, depth));
    expected.extend(bind_camera(DIRECTIONAL));
    expected.push(Command::UseTexture {
        program: DIRECTIONAL,
        texture: Texture::Foreign { id: 101 },
        sampler: Sampler::ShadowMap,
    });
    expected.push(Command::UseUniformBlock {
        program: DIRECTIONAL,
        buffer: UniformBuffer { id: 201 },
        block: UniformBlock::DirectionalLightUniform,
    });
    expected.extend(pass(DIRECTIONAL, opaque(), viewport));
    expected.extend(bind_geometry(SPOT, color, depth));
    expected.extend(bind_camera(SPOT));
    expected.push(Command::UseTexture {
        program: SPOT,
        texture: Texture::Foreign { id: 302 },
        sampler: Sampler::ShadowMap,
    });
    expected.push(Command::UseUniformBlock {
        program: SPOT,
        buffer: UniformBuffer { id: 402 },
        block: UniformBlock::SpotLightUniform,
    });
    expected.extend(pass(SPOT, additive(), viewport));
    expected.extend(bind_geometry(POINT, color, depth));
    expected.extend(bind_camera(POINT));
    expected.push(Command::UseUniformBlock {
        program: POINT,
        buffer: UniformBuffer { id: 503 },
        block: UniformBlock::PointLightUniform,
    });
    expected.extend(pass(POINT, additive(), viewport));
    assert_eq!(context.commands(), &expected);
}

#[test]
fn the_first_light_overwrites_whichever_it_is() {
    for case in 0..3 {
        let mut context = Context::new(sources());
        let mut pipeline = written_pipeline(&mut context, 8, 8);
        let directional_lights = if case == 0 { vec![directional(1)] } else { vec![] };
        let spot_lights = if case <= 1 { vec![spot(1), spot(2)] } else { vec![] };
        let point_lights = vec![point(1)];
        let directional_refs: Vec<&DirectionalLight> = directional_lights.iter().collect();
        let spot_refs: Vec<&SpotLight> = spot_lights.iter().collect();
        let point_refs: Vec<&PointLight> = point_lights.iter().collect();
        pipeline
            .light_pass(
                &mut context,
                Viewport::new_at_origo(8, 8),
                &camera(),
                None,
                &directional_refs,
                &spot_refs,
                &point_refs,
            )
            .unwrap();
        let blends: Vec<Option<BlendParameters>> =
            draws(context.commands()).iter().map(|draw| draw.1).collect();
        assert_eq!(blends[0], None);
        assert!(blends[1..].iter().all(|blend| *blend == Some(BlendParameters::Add)));
        assert_eq!(blends.len(), directional_lights.len() + spot_lights.len() + 1);
    }
}

#[test]
fn ambient_then_directional_is_the_ambient_pass_and_the_directional_pass_added() {
    let viewport = Viewport::new_at_origo(32, 32);
    let ambient = AmbientLight { id: 1 };
    let light = directional(1);

    let mut context = Context::new(sources());
    let mut pipeline = written_pipeline(&mut context, 32, 32);
    pipeline
        .light_pass(&mut context, viewport, &camera(), Some(&ambient), &[&light], &[], &[])
        .unwrap();
    let both = context.take_commands();

    let mut context = Context::new(sources());
    let mut pipeline = written_pipeline(&mut context, 32, 32);
    pipeline.light_pass(&mut context, viewport, &camera(), Some(&ambient), &[], &[], &[]).unwrap();
    let ambient_alone = context.take_commands();

    let mut context = Context::new(sources());
    let mut pipeline = written_pipeline(&mut context, 32, 32);
    pipeline.light_pass(&mut context, viewport, &camera(), None, &[&light], &[], &[]).unwrap();
    let directional_alone = context.take_commands();

    let added: Vec<Command> = directional_alone
        .iter()
        .map(|command| match command {
            Command::DrawArrays { program, render_states, viewport, count } => Command::DrawArrays {
                program: *program,
                render_states: render_states.additive(),
                viewport: *viewport,
                count: *count,
            },
            other => other.clone(),
        })
        .collect();
    let mut expected = ambient_alone.clone();
    expected.extend(added);
    assert_eq!(both, expected);
    assert_eq!(draws(&ambient_alone), vec![(AMBIENT, None)]);
    assert_eq!(draws(&directional_alone), vec![(DIRECTIONAL, None)]);
}

#[test]
fn light_pass_without_lights_records_nothing() {
    let mut context = Context::new(sources());
    let mut pipeline = written_pipeline(&mut context, 8, 8);
    let result = pipeline.light_pass(
        &mut context,
        Viewport::new_at_origo(8, 8),
        &camera(),
        None,
        &[],
        &[],
        &[],
    );
    assert_eq!(result, Ok(()));
    assert!(context.commands().is_empty());
    assert_eq!(pipeline.state(), PipelineState::Idle);
}

#[test]
fn debug_depth_runs_one_pass_bound_to_the_depth_array() {
    let mut context = Context::new(sources());
    let mut pipeline = written_pipeline(&mut context, 128, 128);
    pipeline.debug_type = DebugType::DEPTH;
    let viewport = Viewport::new_at_origo(128, 128);
    let ambient = AmbientLight { id: 1 };
    let result = pipeline.light_pass(
        &mut context,
        viewport,
        &camera(),
        Some(&ambient),
        &[&directional(1)],
        &[&spot(1)],
        &[&point(1)],
    );
    assert_eq!(result, Ok(()));
    let debug = Program { id: 16 };
    let mut expected = effect_creation(16, "// debug");
    expected.push(Command::SetUniform {
        program: debug,
        uniform: Uniform::ViewProjectionInverse,
        value: UniformValue::ViewProjectionInverse(camera()),
    });
    expected.extend(bind_geometry(
        debug,
        color_texture(14, 128, 128),
        depth_texture(15, 128, 128),
    ));
    expected.push(Command::SetUniform {
        program: debug,
        uniform: Uniform::Type,
        value: UniformValue::Int(3),
    });
    expected.extend(pass(debug, opaque(), viewport));
    assert_eq!(context.commands(), &expected);
    assert_eq!(draws(context.commands()), vec![(debug, None)]);
    assert_eq!(pipeline.state(), PipelineState::Idle);
}

#[test]
fn debug_effect_is_created_once() {
    let mut context = Context::new(sources());
    let mut pipeline = written_pipeline(&mut context, 8, 8);
    pipeline.set_debug_type(DebugType::NORMAL);
    let viewport = Viewport::new_at_origo(8, 8);
    pipeline.light_pass(&mut context, viewport, &camera(), None, &[], &[], &[]).unwrap();
    assert_eq!(context.commands().len(), 3 + 7);
    context.take_commands();
    pipeline.geometry_pass(&mut context, 8, 8, |_: &mut Context| Ok(())).unwrap();
    context.take_commands();
    pipeline.debug_type = DebugType::POWER;
    pipeline.light_pass(&mut context, viewport, &camera(), None, &[], &[], &[&point(1)]).unwrap();
    assert_eq!(context.commands().len(), 7);
    assert_eq!(
        context.commands()[3],
        Command::SetUniform {
            program: Program { id: 16 },
            uniform: Uniform::Type,
            value: UniformValue::Int(6),
        }
    );
    assert_eq!(draws(context.commands()), vec![(Program { id: 16 }, None)]);
}

#[test]
fn debug_modes_have_their_numbers() {
    assert_eq!(DebugType::POSITION.selector(), 0);
    assert_eq!(DebugType::NORMAL.selector(), 1);
    assert_eq!(DebugType::COLOR.selector(), 2);
    assert_eq!(DebugType::DEPTH.selector(), 3);
    assert_eq!(DebugType::DIFFUSE.selector(), 4);
    assert_eq!(DebugType::SPECULAR.selector(), 5);
    assert_eq!(DebugType::POWER.selector(), 6);
    assert_eq!(DebugType::NONE.selector(), 7);
}

#[test]
fn debug_fails_without_identifiers_and_changes_nothing() {
    let mut context = Context::with_first_id(sources(), u64::MAX - 18);
    let mut pipeline = written_pipeline(&mut context, 8, 8);
    pipeline.debug_type = DebugType::COLOR;
    let result = pipeline.light_pass(
        &mut context,
        Viewport::new_at_origo(8, 8),
        &camera(),
        None,
        &[],
        &[],
        &[],
    );
    assert_eq!(result, Err(Error::OutOfHandles));
    assert!(context.commands().is_empty());
    assert_eq!(pipeline.state(), PipelineState::GeometryWritten);
    pipeline.debug_type = DebugType::NONE;
    let result = pipeline.light_pass(
        &mut context,
        Viewport::new_at_origo(8, 8),
        &camera(),
        None,
        &[],
        &[],
        &[&point(1)],
    );
    assert_eq!(result, Ok(()));
    assert_eq!(draws(context.commands()), vec![(POINT_AT_END, None)]);
}

const POINT_AT_END: Program = Program { id: u64::MAX - 18 + 6 };

#[test]
fn depth_texture_is_a_copy_of_layer_zero() {
    let mut context = Context::new(sources());
    let pipeline = written_pipeline(&mut context, 300, 200);
    let texture = pipeline.geometry_pass_depth_texture(&mut context).unwrap();
    assert_eq!(texture, DepthTargetTexture2D { id: 16, width: 300, height: 200 });
    assert_eq!(
        context.commands(),
        &vec![
            Command::CreateDepthTargetTexture2D {
                texture,
                wrap_s: Wrapping::ClampToEdge,
                wrap_t: Wrapping::ClampToEdge,
                format: DepthFormat::Depth32F,
            },
            Command::CopyDepth {
                source: DepthTargetTexture2DArray { id: 15, width: 300, height: 200, depth: 1 },
                layer: 0,
                destination: texture,
                viewport: Viewport { x: 0, y: 0, width: 300, height: 200 },
            },
        ]
    );
    let again = pipeline.geometry_pass_depth_texture(&mut context).unwrap();
    assert_eq!(again, DepthTargetTexture2D { id: 17, width: 300, height: 200 });
}

#[test]
fn depth_texture_fails_without_an_identifier() {
    let mut context = Context::with_first_id(sources(), u64::MAX - 16);
    let pipeline = written_pipeline(&mut context, 8, 8);
    assert_eq!(pipeline.geometry_pass_depth_texture(&mut context).err(), Some(Error::OutOfHandles));
    assert!(context.commands().is_empty());
}

#[test]
fn a_frame_of_two_triangles_under_white_ambient_light() {
    let mut context = Context::new(sources());
    let mut pipeline = PhongDeferredPipeline::new(&mut context).unwrap();
    let description = CPUMesh {
        id: 1,
        name: "two triangles".to_string(),
        positions: 18,
        normals: None,
        indices: None,
        uvs: None,
        colors: None,
    };
    let mesh = Mesh::new(&mut context, &description).unwrap();
    context.take_commands();
    let viewport = Viewport::new_at_origo(256, 256);
    let white = AmbientLight { id: 1 };
    let geometry_states =
        RenderStates { cull: CullType::Off, depth_test: DepthTestType::LessOrEqual, blend: None };
    pipeline
        .geometry_pass(&mut context, 256, 256, |context: &mut Context| {
            mesh.render_depth(context, geometry_states, viewport, &Mat4 { id: 0 }, &camera())
        })
        .unwrap();
    pipeline.light_pass(&mut context, viewport, &camera(), Some(&white), &[], &[], &[]).unwrap();
    let commands = context.take_commands();
    let color = color_texture(15, 256, 256);
    let depth = depth_texture(16, 256, 256);
    let kinds: Vec<&str> = commands
        .iter()
        .map(|command| match command {
            Command::CreateColorTargetTexture2DArray { .. } => "create color",
            Command::CreateDepthTargetTexture2DArray { .. } => "create depth",
            Command::DeleteTexture { .. } => "delete texture",
            Command::BeginRenderTargetArray { .. } => "begin",
            Command::ClearRenderTarget => "clear",
            Command::EndRenderTarget => "end",
            Command::CreateProgram { .. } => "create program",
            Command::SetUniform { .. } => "uniform",
            Command::UseUniformBlock { .. } => "block",
            Command::UseAttribute { .. } => "attribute",
            Command::UseTexture { .. } => "texture",
            Command::DrawArrays { .. } => "draw",
            _ => "other",
        })
        .collect();
    assert_eq!(
        kinds,
        vec![
            "create color", "delete texture", "create depth", "delete texture", "begin", "clear",
            "create program", "uniform", "block", "attribute", "draw", "end", "texture",
            "texture", "uniform", "attribute", "attribute", "draw",
        ]
    );
    assert_eq!(
        commands[10],
        Command::DrawArrays {
            program: Program { id: 17 },
            render_states: geometry_states,
            viewport,
            count: 6,
        }
    );
    let mut lighting = bind_geometry(AMBIENT, color, depth);
    lighting.push(Command::SetUniform {
        program: AMBIENT,
        uniform: Uniform::AmbientColor,
        value: UniformValue::AmbientColor(white),
    });
    lighting.extend(pass(AMBIENT, opaque(), viewport));
    assert_eq!(&commands[12..], &lighting[..]);
    assert_eq!(pipeline.state(), PipelineState::Idle);
}
