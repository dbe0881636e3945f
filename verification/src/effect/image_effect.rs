//! A pass over the whole viewport with a fragment shader of the caller's
//! choice.

use vstd::prelude::*;
use vstd::string::StringExecFns;
use crate::graphics::command::{Command, CommandView, VertexData};
use crate::graphics::context::{Context, ContextView};
use crate::graphics::error::Error;
use crate::graphics::names::Attribute;
use crate::graphics::types::{Program, RenderStates, VertexBuffer, Viewport};

verus! {

/// The vertex shader of every image effect: it hands the uv coordinate on
/// and places the vertex where its position says.
pub const VERTEX_SHADER: &'static str = "in vec3 position;
                                                    in vec2 uv_coordinate;
                                                    out vec2 uv;
                                                    void main()
                                                    {
                                                        uv = uv_coordinate;
                                                        gl_Position = vec4(position, 1.0);
                                                    }";

/// The number of scalars in the positions of the screen triangle.
pub const POSITION_SCALARS: usize = 9;

/// The number of scalars in the uv coordinates of the screen triangle.
pub const UV_SCALARS: usize = 6;

/// The number of vertices that a screen-space pass draws.
pub const SCREEN_VERTICES: usize = 3;

/// The corners of the screen triangle in clip space, x, y and z of each, in
/// halves: the triangle reaches from (-3, -1) over (3, -1) to (0, 2).
pub open spec fn spec_screen_positions() -> Seq<int> {
    seq![-6, -2, 0, 6, -2, 0, 0, 4, 0]
}

/// The uv coordinates at the corners of the screen triangle, u and v of
/// each, in halves: (-1, 0), (2, 0) and (0.5, 1.5).
pub open spec fn spec_screen_uv_coordinates() -> Seq<int> {
    seq![-2, 0, 4, 0, 1, 3]
}

/// Twice the signed area of the triangle `a`, `b`, `p`: positive where `p`
/// lies to the left of the edge from `a` to `b`.
pub open spec fn edge(ax: int, ay: int, bx: int, by: int, px: int, py: int) -> int {
    (bx - ax) * (py - ay) - (by - ay) * (px - ax)
}

/// The weight of one corner of the screen triangle at the point
/// (`x` / `unit`, `y` / `unit`) of clip space: the edge function of the
/// opposite side, with every length scaled by two times `unit`.
pub open spec fn screen_weight(corner: int, x: int, y: int, unit: int) -> int {
    let p = spec_screen_positions();
    let a = (corner + 1) % 3;
    let b = (corner + 2) % 3;
    edge(
        unit * p[3 * a],
        unit * p[3 * a + 1],
        unit * p[3 * b],
        unit * p[3 * b + 1],
        2 * x,
        2 * y,
    )
}

/// The screen triangle covers the viewport, and its uv coordinates run from
/// zero to one across it. At every point (`x` / `unit`, `y` / `unit`) of
/// clip space between -1 and 1 the weight of no corner is negative, so the
/// point lies in the triangle; and the uv coordinate interpolated there is
/// ((`x` / `unit` + 1) / 2, (`y` / `unit` + 1) / 2).
pub proof fn lemma_screen_triangle_covers_viewport(x: int, y: int, unit: int)
    requires
        unit > 0,
        -unit <= x <= unit,
        -unit <= y <= unit,
    ensures
        screen_weight(0, x, y, unit) >= 0,
        screen_weight(1, x, y, unit) >= 0,
        screen_weight(2, x, y, unit) >= 0,
        screen_weight(0, x, y, unit) + screen_weight(1, x, y, unit) + screen_weight(2, x, y, unit)
            == 72 * unit * unit,
        (screen_weight(0, x, y, unit) * spec_screen_uv_coordinates()[0] + screen_weight(
            1,
            x,
            y,
            unit,
        ) * spec_screen_uv_coordinates()[2] + screen_weight(2, x, y, unit)
            * spec_screen_uv_coordinates()[4]) == 72 * unit * (x + unit),
        (screen_weight(0, x, y, unit) * spec_screen_uv_coordinates()[1] + screen_weight(
            1,
            x,
            y,
            unit,
        ) * spec_screen_uv_coordinates()[3] + screen_weight(2, x, y, unit)
            * spec_screen_uv_coordinates()[5]) == 72 * unit * (y + unit),
{
    let w0 = screen_weight(0, x, y, unit);
    let w1 = screen_weight(1, x, y, unit);
    let w2 = screen_weight(2, x, y, unit);
    assert(w0 == (unit * 0 - unit * 6) * (2 * y - unit * (-2)) - (unit * 4 - unit * (-2)) * (2 * x
        - unit * 6));
    assert(w1 == (unit * (-6) - unit * 0) * (2 * y - unit * 4) - (unit * (-2) - unit * 4) * (2 * x
        - unit * 0));
    assert(w2 == (unit * 6 - unit * (-6)) * (2 * y - unit * (-2)) - (unit * (-2) - unit * (-2)) * (
    2 * x - unit * (-6)));
    assert(w0 == 12 * (unit * (2 * unit - x - y))) by (nonlinear_arith)
        requires
            w0 == (unit * 0 - unit * 6) * (2 * y - unit * (-2)) - (unit * 4 - unit * (-2)) * (2 * x
                - unit * 6),
    ;
    assert(w1 == 12 * (unit * (x - y + 2 * unit))) by (nonlinear_arith)
        requires
            w1 == (unit * (-6) - unit * 0) * (2 * y - unit * 4) - (unit * (-2) - unit * 4) * (2 * x
                - unit * 0),
    ;
    assert(w2 == 24 * (unit * (y + unit))) by (nonlinear_arith)
        requires
            w2 == (unit * 6 - unit * (-6)) * (2 * y - unit * (-2)) - (unit * (-2) - unit * (-2))
                * (2 * x - unit * (-6)),
    ;
    assert(unit * (2 * unit - x - y) >= 0) by (nonlinear_arith)
        requires
            unit > 0,
            2 * unit - x - y >= 0,
    ;
    assert(unit * (x - y + 2 * unit) >= 0) by (nonlinear_arith)
        requires
            unit > 0,
            x - y + 2 * unit >= 0,
    ;
    assert(unit * (y + unit) >= 0) by (nonlinear_arith)
        requires
            unit > 0,
            y + unit >= 0,
    ;
    assert(w0 + w1 + w2 == 72 * unit * unit) by (nonlinear_arith)
        requires
            w0 == 12 * (unit * (2 * unit - x - y)),
            w1 == 12 * (unit * (x - y + 2 * unit)),
            w2 == 24 * (unit * (y + unit)),
    ;
    assert(w0 * (-2) + w1 * 4 + w2 * 1 == 72 * unit * (x + unit)) by (nonlinear_arith)
        requires
            w0 == 12 * (unit * (2 * unit - x - y)),
            w1 == 12 * (unit * (x - y + 2 * unit)),
            w2 == 24 * (unit * (y + unit)),
    ;
    assert(w0 * 0 + w1 * 0 + w2 * 3 == 72 * unit * (y + unit)) by (nonlinear_arith)
        requires
            w2 == 24 * (unit * (y + unit)),
    ;
}

/// A pass over the whole viewport: one triangle that covers it, drawn with a
/// fixed vertex shader and a fragment shader of the caller's choice. Every
/// light of the deferred pipeline is evaluated by such a pass, and so is
/// anything else that works on the image as a whole.
pub struct ImageEffect {
    program: Program,
    positions: VertexBuffer,
    uvs: VertexBuffer,
}

/// The handles that an [`ImageEffect`] holds.
pub struct ImageEffectView {
    pub program: Program,
    pub positions: VertexBuffer,
    pub uvs: VertexBuffer,
}

impl ImageEffectView {
    /// The vertex shader of every image effect: it hands the uv coordinate
    /// on and places the vertex where its position says.
    pub open spec fn vertex_shader_source() -> Seq<char> {
        VERTEX_SHADER@
    }

    /// The effect whose three resources take the identifiers from `first_id`
    /// on.
    pub open spec fn at(first_id: nat) -> ImageEffectView {
        ImageEffectView {
            program: Program { id: first_id as u64 },
            positions: VertexBuffer { id: (first_id + 1) as u64, count: POSITION_SCALARS },
            uvs: VertexBuffer { id: (first_id + 2) as u64, count: UV_SCALARS },
        }
    }

    /// The commands that create the effect: compile the program, then fill
    /// the two buffers of the screen triangle.
    pub open spec fn creation(self, fragment_shader_source: Seq<char>) -> Seq<CommandView> {
        seq![
            CommandView::CreateProgram {
                program: self.program,
                vertex_shader_source: ImageEffectView::vertex_shader_source(),
                fragment_shader_source,
            },
            CommandView::CreateVertexBuffer {
                buffer: self.positions,
                data: VertexData::ScreenPositions,
            },
            CommandView::CreateVertexBuffer {
                buffer: self.uvs,
                data: VertexData::ScreenUvCoordinates,
            },
        ]
    }

    /// The commands of one pass: bind the two attributes of the screen
    /// triangle, then draw its three vertices.
    pub open spec fn pass(self, render_states: RenderStates, viewport: Viewport) -> Seq<
        CommandView,
    > {
        seq![
            CommandView::UseAttribute {
                program: self.program,
                buffer: self.positions,
                attribute: Attribute::Position,
            },
            CommandView::UseAttribute {
                program: self.program,
                buffer: self.uvs,
                attribute: Attribute::UvCoordinate,
            },
            CommandView::DrawArrays {
                program: self.program,
                render_states,
                viewport,
                count: SCREEN_VERTICES,
            },
        ]
    }
}

impl ContextView {
    /// Creating an image effect: the state afterwards and the effect. It
    /// takes three identifiers; without them, nothing changes.
    pub open spec fn create_image_effect(self, fragment_shader_source: Seq<char>) -> (
        ContextView,
        Result<ImageEffectView, Error>,
    ) {
        if self.can_allocate(3) {
            let effect = ImageEffectView::at(self.next_id);
            (
                self.allocate(3).record_all(effect.creation(fragment_shader_source)),
                Ok(effect),
            )
        } else {
            (self, Err(Error::OutOfHandles))
        }
    }
}

impl View for ImageEffect {
    type V = ImageEffectView;

    closed spec fn view(&self) -> ImageEffectView {
        ImageEffectView { program: self.program, positions: self.positions, uvs: self.uvs }
    }
}

/// The result of creating an effect, with the effect as its view.
pub open spec fn view_of(result: Result<ImageEffect, Error>) -> Result<ImageEffectView, Error> {
    match result {
        Ok(effect) => Ok(effect@),
        Err(error) => Err(error),
    }
}

impl ImageEffect {
    /// Creates an effect with the given fragment shader. The shader reads
    /// the uv coordinate of the fragment from `in vec2 uv;`.
    ///
    /// Fails, and records nothing, if the context has fewer than three
    /// identifiers left.
    pub fn new(context: &mut Context, fragment_shader: &str) -> (result: Result<ImageEffect, Error>)
        ensures
            (final(context)@, view_of(result)) == old(context)@.create_image_effect(
                fragment_shader@,
            ),
    {
        if !context.can_allocate(3) {
            return Err(Error::OutOfHandles);
        }
        let program = Program { id: context.fresh_id() };
        let positions = VertexBuffer { id: context.fresh_id(), count: POSITION_SCALARS };
        let uvs = VertexBuffer { id: context.fresh_id(), count: UV_SCALARS };
        context.record(
            Command::CreateProgram {
                program,
                vertex_shader_source: String::from_str(
                    VERTEX_SHADER,
                ),
                fragment_shader_source: String::from_str(fragment_shader),
            },
        );
        context.record(
            Command::CreateVertexBuffer { buffer: positions, data: VertexData::ScreenPositions },
        );
        context.record(
            Command::CreateVertexBuffer { buffer: uvs, data: VertexData::ScreenUvCoordinates },
        );
        let effect = ImageEffect { program, positions, uvs };
        proof {
            let ghost before = old(context)@;
            assert(effect@ == ImageEffectView::at(before.next_id));
            assert(context@.recorded =~= before.recorded + effect@.creation(fragment_shader@));
        }
        Ok(effect)
    }

    /// The corners of the screen triangle, x, y and z of each, in halves of
    /// a clip-space unit. This is what the host fills the position buffer of
    /// an effect with.
    pub fn screen_positions() -> (positions: Vec<i32>)
        ensures
            positions@.len() == POSITION_SCALARS,
            forall|i: int|
                0 <= i < positions@.len() ==> positions@[i] as int == spec_screen_positions()[i],
    {
        let mut positions: Vec<i32> = Vec::new();
        positions.push(-6);
        positions.push(-2);
        positions.push(0);
        positions.push(6);
        positions.push(-2);
        positions.push(0);
        positions.push(0);
        positions.push(4);
        positions.push(0);
        positions
    }

    /// The uv coordinates at the corners of the screen triangle, u and v of
    /// each, in halves. This is what the host fills the uv buffer of an
    /// effect with.
    pub fn screen_uv_coordinates() -> (coordinates: Vec<i32>)
        ensures
            coordinates@.len() == UV_SCALARS,
            forall|i: int|
                0 <= i < coordinates@.len() ==> coordinates@[i] as int
                    == spec_screen_uv_coordinates()[i],
    {
        let mut coordinates: Vec<i32> = Vec::new();
        coordinates.push(-2);
        coordinates.push(0);
        coordinates.push(4);
        coordinates.push(0);
        coordinates.push(1);
        coordinates.push(3);
        coordinates
    }

    /// The program of the effect, for binding what the fragment shader
    /// reads.
    pub fn program(&self) -> (program: &Program)
        ensures
            *program == self@.program,
    {
        &self.program
    }

    /// Records one pass over the viewport under the given render states.
    pub fn apply(&self, context: &mut Context, render_states: RenderStates, viewport: Viewport)
        ensures
            final(context)@ == old(context)@.record_all(self@.pass(render_states, viewport)),
    {
        self.program.use_attribute(context, self.positions, Attribute::Position);
        self.program.use_attribute(context, self.uvs, Attribute::UvCoordinate);
        self.program.draw_arrays(context, render_states, viewport, SCREEN_VERTICES);
        proof {
            assert(context@.recorded =~= old(context)@.recorded + self@.pass(
                render_states,
                viewport,
            ));
        }
    }
}

} // verus!
