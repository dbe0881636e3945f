use render_core::{
    Attribute, BlendParameters, ColorSource, ColorSourceKind, Command, Context, CullType,
    DepthTestType, ElementBuffer, LightConfiguration, Mat4, PhongMaterial, Program,
    ProgramVariant, RenderStates, Sampler, ShaderSources, Texture, Uniform, UniformBlock,
    UniformBuffer, UniformValue, Vec4, VertexBuffer, Viewport,
};

fn context() -> Context {
    Context::new(ShaderSources {
        light_shared: String::new(),
        deferred_light_shared: String::new(),
        ambient_light: String::new(),
        directional_light: String::new(),
        point_light: String::new(),
        spot_light: String::new(),
        debug: String::new(),
        colored_forward_ambient: String::new(),
        textured_forward_ambient: String::new(),
        colored_forward_ambient_directional: String::new(),
        textured_forward_ambient_directional: String::new(),
    })
}

#[test]
fn a_program_records_what_is_bound_to_it() {
    let mut context = context();
    let program = Program { id: 12 };
    program.use_uniform(&mut context, Uniform::ModelMatrix, UniformValue::Matrix(Mat4 { id: 1 }));
    program.use_uniform(&mut context, Uniform::Type, UniformValue::Int(-4));
    program.use_uniform_block(&mut context, UniformBuffer { id: 2 }, UniformBlock::Camera);
    program.use_texture(&mut context, Texture::Foreign { id: 3 }, Sampler::ShadowMap);
    program.use_attribute(&mut context, VertexBuffer { id: 4, count: 30 }, Attribute::Normal);
    assert_eq!(
        context.commands(),
        &vec![
            Command::SetUniform {
                program,
                uniform: Uniform::ModelMatrix,
                value: UniformValue::Matrix(Mat4 { id: 1 }),
            },
            Command::SetUniform { program, uniform: Uniform::Type, value: UniformValue::Int(-4) },
            Command::UseUniformBlock {
                program,
                buffer: UniformBuffer { id: 2 },
                block: UniformBlock::Camera,
            },
            Command::UseTexture {
                program,
                texture: Texture::Foreign { id: 3 },
                sampler: Sampler::ShadowMap,
            },
            Command::UseAttribute {
                program,
                buffer: VertexBuffer { id: 4, count: 30 },
                attribute: Attribute::Normal,
            },
        ]
    );
}

#[test]
fn a_program_records_its_draw_calls() {
    let mut context = context();
    let program = Program { id: 12 };
    let states = RenderStates {
        cull: CullType::Front,
        depth_test: DepthTestType::Always,
        blend: Some(BlendParameters::Transparency),
    };
    let viewport = Viewport { x: -5, y: 7, width: 10, height: 20 };
    program.draw_arrays(&mut context, states, viewport, 33);
    program.draw_elements(&mut context, states, viewport, ElementBuffer { id: 9, count: 6 });
    assert_eq!(
        context.commands(),
        &vec![
            Command::DrawArrays { program, render_states: states, viewport, count: 33 },
            Command::DrawElements {
                program,
                render_states: states,
                viewport,
                element_buffer: ElementBuffer { id: 9, count: 6 },
            },
        ]
    );
}

#[test]
fn additive_changes_only_the_blending() {
    let states =
        RenderStates { cull: CullType::Front, depth_test: DepthTestType::Greater, blend: None };
    assert_eq!(
        states.additive(),
        RenderStates {
            cull: CullType::Front,
            depth_test: DepthTestType::Greater,
            blend: Some(BlendParameters::Add),
        }
    );
    assert_eq!(states.additive().additive(), states.additive());
}

#[test]
fn a_material_is_bound_as_a_whole() {
    let mut context = context();
    let material = PhongMaterial { id: 8, color_source: ColorSource::Color(Vec4 { id: 2 }) };
    material.bind(&mut context, &Program { id: 5 });
    assert_eq!(
        context.commands(),
        &vec![Command::BindMaterial { program: Program { id: 5 }, material }]
    );
    assert_eq!(material.color_source.kind(), ColorSourceKind::Color);
    assert_eq!(ColorSource::Texture(Texture::Foreign { id: 1 }).kind(), ColorSourceKind::Texture);
}

#[test]
fn two_by_two_forward_variants() {
    assert_eq!(
        ProgramVariant::forward(ColorSourceKind::Color, LightConfiguration::Ambient),
        ProgramVariant::ColorAmbient
    );
    assert_eq!(
        ProgramVariant::forward(ColorSourceKind::Color, LightConfiguration::AmbientDirectional),
        ProgramVariant::ColorAmbientDirectional
    );
    assert_eq!(
        ProgramVariant::forward(ColorSourceKind::Texture, LightConfiguration::Ambient),
        ProgramVariant::TextureAmbient
    );
    assert_eq!(
        ProgramVariant::forward(ColorSourceKind::Texture, LightConfiguration::AmbientDirectional),
        ProgramVariant::TextureAmbientDirectional
    );
}

#[test]
fn a_context_can_start_at_any_identifier() {
    let mut context = Context::with_first_id(
        ShaderSources {
            light_shared: String::new(),
            deferred_light_shared: String::new(),
            ambient_light: String::new(),
            directional_light: String::new(),
            point_light: String::new(),
            spot_light: String::new(),
            debug: String::new(),
            colored_forward_ambient: String::new(),
            textured_forward_ambient: String::new(),
            colored_forward_ambient_directional: String::new(),
            textured_forward_ambient_directional: String::new(),
        },
        1000,
    );
    assert_eq!(context.fresh_id(), 1000);
    assert_eq!(context.fresh_id(), 1001);
    assert!(context.can_allocate(u64::MAX - 1002));
    assert!(!context.can_allocate(u64::MAX - 1001));
}
