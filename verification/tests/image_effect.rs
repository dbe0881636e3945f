use render_core::{
    Attribute, BlendParameters, Command, Context, CullType, DepthTestType, Error, ImageEffect,
    Program, RenderStates, ShaderSources, VertexBuffer, VertexData, Viewport,
};

fn sources() -> ShaderSources {
    ShaderSources {
        light_shared: "// light shared".to_string(),
        deferred_light_shared: "// deferred shared".to_string(),
        ambient_light: "// ambient".to_string(),
        directional_light: "// directional".to_string(),
        point_light: "// point".to_string(),
        spot_light: "// spot".to_string(),
        debug: "// debug".to_string(),
        colored_forward_ambient: String::new(),
        textured_forward_ambient: String::new(),
        colored_forward_ambient_directional: String::new(),
        textured_forward_ambient_directional: String::new(),
    }
}

const VERTEX_SHADER: &str = "in vec3 position;
                                                    in vec2 uv_coordinate;
                                                    out vec2 uv;
                                                    void main()
                                                    {
                                                        uv = uv_coordinate;
                                                        gl_Position = vec4(position, 1.0);
                                                    }";

#[test]
fn new_compiles_the_program_and_fills_the_triangle() {
    let mut context = Context::new(sources());
    let effect = ImageEffect::new(&mut context, "void main() {}").unwrap();
    assert_eq!(*effect.program(), Program { id: 0 });
    assert_eq!(
        context.commands(),
        &vec![
            Command::CreateProgram {
                program: Program { id: 0 },
                vertex_shader_source: VERTEX_SHADER.to_string(),
                fragment_shader_source: "void main() {}".to_string(),
            },
            Command::CreateVertexBuffer {
                buffer: VertexBuffer { id: 1, count: 9 },
                data: VertexData::ScreenPositions,
            },
            Command::CreateVertexBuffer {
                buffer: VertexBuffer { id: 2, count: 6 },
                data: VertexData::ScreenUvCoordinates,
            },
        ]
    );
}

#[test]
fn effects_get_identifiers_of_their_own() {
    let mut context = Context::new(sources());
    let first = ImageEffect::new(&mut context, "a").unwrap();
    let second = ImageEffect::new(&mut context, "b").unwrap();
    assert_eq!(*first.program(), Program { id: 0 });
    assert_eq!(*second.program(), Program { id: 3 });
    assert_eq!(context.commands().len(), 6);
    assert_eq!(
        context.commands()[4],
        Command::CreateVertexBuffer {
            buffer: VertexBuffer { id: 4, count: 9 },
            data: VertexData::ScreenPositions,
        }
    );
}

#[test]
fn apply_binds_the_triangle_and_draws_three_vertices() {
    let mut context = Context::new(sources());
    let effect = ImageEffect::new(&mut context, "void main() {}").unwrap();
    context.take_commands();
    let states = RenderStates {
        cull: CullType::Back,
        depth_test: DepthTestType::LessOrEqual,
        blend: Some(BlendParameters::Add),
    };
    let viewport = Viewport { x: 10, y: 20, width: 640, height: 480 };
    effect.apply(&mut context, states, viewport);
    assert_eq!(
        context.commands(),
        &vec![
            Command::UseAttribute {
                program: Program { id: 0 },
                buffer: VertexBuffer { id: 1, count: 9 },
                attribute: Attribute::Position,
            },
            Command::UseAttribute {
                program: Program { id: 0 },
                buffer: VertexBuffer { id: 2, count: 6 },
                attribute: Attribute::UvCoordinate,
            },
            Command::DrawArrays {
                program: Program { id: 0 },
                render_states: states,
                viewport,
                count: 3,
            },
        ]
    );
}

#[test]
fn apply_can_be_repeated() {
    let mut context = Context::new(sources());
    let effect = ImageEffect::new(&mut context, "void main() {}").unwrap();
    context.take_commands();
    let states = RenderStates { cull: CullType::Off, depth_test: DepthTestType::Off, blend: None };
    let viewport = Viewport::new_at_origo(4, 4);
    effect.apply(&mut context, states, viewport);
    effect.apply(&mut context, states.additive(), viewport);
    assert_eq!(context.commands().len(), 6);
    assert_eq!(
        context.commands()[5],
        Command::DrawArrays {
            program: Program { id: 0 },
            render_states: RenderStates {
                cull: CullType::Off,
                depth_test: DepthTestType::Off,
                blend: Some(BlendParameters::Add),
            },
            viewport,
            count: 3,
        }
    );
}

#[test]
fn screen_triangle_is_given_in_halves() {
    assert_eq!(ImageEffect::screen_positions(), vec![-6, -2, 0, 6, -2, 0, 0, 4, 0]);
    assert_eq!(ImageEffect::screen_uv_coordinates(), vec![-2, 0, 4, 0, 1, 3]);
    let positions: Vec<f32> =
        ImageEffect::screen_positions().iter().map(|&half| half as f32 / 2.0).collect();
    assert_eq!(positions, vec![-3.0, -1.0, 0.0, 3.0, -1.0, 0.0, 0.0, 2.0, 0.0]);
    let uvs: Vec<f32> =
        ImageEffect::screen_uv_coordinates().iter().map(|&half| half as f32 / 2.0).collect();
    assert_eq!(uvs, vec![-1.0, 0.0, 2.0, 0.0, 0.5, 1.5]);
}

#[test]
fn screen_triangle_covers_the_corners_of_the_viewport() {
    let p = ImageEffect::screen_positions();
    let corners = [(-2, -2), (2, -2), (2, 2), (-2, 2), (0, 0)];
    for &(x, y) in corners.iter() {
        for corner in 0..3 {
            let a = (corner + 1) % 3;
            let b = (corner + 2) % 3;
            let weight = (p[3 * b] - p[3 * a]) * (y - p[3 * a + 1])
                - (p[3 * b + 1] - p[3 * a + 1]) * (x - p[3 * a]);
            assert!(weight >= 0);
        }
    }
}

#[test]
fn viewport_at_origo() {
    assert_eq!(Viewport::new_at_origo(256, 128), Viewport { x: 0, y: 0, width: 256, height: 128 });
}

#[test]
fn an_effect_takes_three_identifiers() {
    let mut context = Context::new(sources());
    assert!(context.can_allocate(3));
    assert!(context.can_allocate(u64::MAX));
    let result = ImageEffect::new(&mut context, "void main() {}");
    assert!(result.is_ok());
    assert!(!context.can_allocate(u64::MAX));
    assert!(context.can_allocate(u64::MAX - 3));
    assert_eq!(Error::OutOfHandles, Error::OutOfHandles);
}
