//! The programs that draw meshes, compiled once and shared.
//!
//! Each way of drawing a mesh has a program of its own. A program is
//! compiled when it is first asked for and kept for as long as a mesh of its
//! family is alive; when the last one goes, the programs of the family go
//! with it.

use vstd::prelude::*;
use vstd::string::StringExecFns;
use crate::graphics::shaders::{join, spec_join, ShaderSources, ShaderSourcesView};
use crate::object::mesh::MeshProgram;
use crate::phong::material::ColorSourceKind;

verus! {

/// The kinds of mesh that keep programs alive.
#[derive(Clone, Copy, Debug, PartialEq, Eq, Structural)]
pub enum MeshFamily {
    /// Plain meshes: [`Mesh`](crate::object::mesh::Mesh).
    Mesh,
    /// Meshes lit in a forward pass:
    /// [`PhongForwardMesh`](crate::phong::forward_mesh::PhongForwardMesh).
    PhongForward,
}

/// The ways of drawing a mesh. Each has one slot in the cache of its family.
#[derive(Clone, Copy, Debug, PartialEq, Eq, Structural)]
pub enum ProgramVariant {
    /// Depth only.
    Depth,
    /// One colour for the whole mesh.
    Color,
    /// A texture.
    Texture,
    /// The colours stored with the vertices.
    PerVertexColor,
    /// A coloured material under ambient light.
    ColorAmbient,
    /// A coloured material under ambient and directional light.
    ColorAmbientDirectional,
    /// A textured material under ambient light.
    TextureAmbient,
    /// A textured material under ambient and directional light.
    TextureAmbientDirectional,
}

/// The lights that a forward pass evaluates.
#[derive(Clone, Copy, Debug, PartialEq, Eq, Structural)]
pub enum LightConfiguration {
    /// An ambient light only.
    Ambient,
    /// An ambient and a directional light.
    AmbientDirectional,
}

/// The fragment shader that writes depth only.
pub const DEPTH_FRAGMENT_SHADER: &'static str = "void main() {}";

/// The fragment shader that writes the colour stored with the vertices.
pub const PER_VERTEX_COLOR_FRAGMENT_SHADER: &'static str = "
                                                in vec4 col;
                                                layout (location = 0) out vec4 outColor;
                                                void main()
                                                {
                                                    outColor = col/255.0;
                                                }
                                                ";

/// The fragment shader that writes one colour.
pub const COLOR_FRAGMENT_SHADER: &'static str = "
                    uniform vec4 color;
                    layout (location = 0) out vec4 outColor;
                    void main()
                    {
                        outColor = color;
                    }";

/// The fragment shader that writes the colour of a texture.
pub const TEXTURE_FRAGMENT_SHADER: &'static str = "
                    uniform sampler2D tex;
                    in vec2 uvs;
                    layout (location = 0) out vec4 outColor;
                    void main()
                    {
                        outColor = texture(tex, vec2(uvs.x, 1.0 - uvs.y));
                    }";

/// The number of slots in the cache of one family.
pub const SLOTS: usize = 4;

impl ProgramVariant {
    /// The variant that shades a lit mesh: one for each pairing of a kind
    /// of colour source with a configuration of lights.
    pub open spec fn spec_forward(color: ColorSourceKind, lights: LightConfiguration) -> ProgramVariant {
        match (color, lights) {
            (ColorSourceKind::Color, LightConfiguration::Ambient) => ProgramVariant::ColorAmbient,
            (
                ColorSourceKind::Color,
                LightConfiguration::AmbientDirectional,
            ) => ProgramVariant::ColorAmbientDirectional,
            (ColorSourceKind::Texture, LightConfiguration::Ambient) => ProgramVariant::TextureAmbient,
            (
                ColorSourceKind::Texture,
                LightConfiguration::AmbientDirectional,
            ) => ProgramVariant::TextureAmbientDirectional,
        }
    }

    /// The family whose meshes are drawn this way.
    pub open spec fn spec_family(self) -> MeshFamily {
        match self {
            ProgramVariant::Depth => MeshFamily::Mesh,
            ProgramVariant::Color => MeshFamily::Mesh,
            ProgramVariant::Texture => MeshFamily::Mesh,
            ProgramVariant::PerVertexColor => MeshFamily::Mesh,
            ProgramVariant::ColorAmbient => MeshFamily::PhongForward,
            ProgramVariant::ColorAmbientDirectional => MeshFamily::PhongForward,
            ProgramVariant::TextureAmbient => MeshFamily::PhongForward,
            ProgramVariant::TextureAmbientDirectional => MeshFamily::PhongForward,
        }
    }

    /// The slot of this variant in the cache of its family.
    pub open spec fn spec_slot(self) -> int {
        match self {
            ProgramVariant::Depth => 0,
            ProgramVariant::Color => 1,
            ProgramVariant::Texture => 2,
            ProgramVariant::PerVertexColor => 3,
            ProgramVariant::ColorAmbient => 0,
            ProgramVariant::ColorAmbientDirectional => 1,
            ProgramVariant::TextureAmbient => 2,
            ProgramVariant::TextureAmbientDirectional => 3,
        }
    }

    /// The fragment shader of this variant. Those of plain meshes are fixed;
    /// those of lit meshes come from the sources that the host supplied,
    /// the directional ones behind the shared light declarations.
    pub open spec fn spec_fragment_shader_source(self, shaders: ShaderSourcesView) -> Seq<char> {
        match self {
            ProgramVariant::Depth => DEPTH_FRAGMENT_SHADER@,
            ProgramVariant::Color => COLOR_FRAGMENT_SHADER@,
            ProgramVariant::Texture => TEXTURE_FRAGMENT_SHADER@,
            ProgramVariant::PerVertexColor => PER_VERTEX_COLOR_FRAGMENT_SHADER@,
            ProgramVariant::ColorAmbient => shaders.colored_forward_ambient,
            ProgramVariant::ColorAmbientDirectional => spec_join(
                shaders.light_shared,
                shaders.colored_forward_ambient_directional,
            ),
            ProgramVariant::TextureAmbient => shaders.textured_forward_ambient,
            ProgramVariant::TextureAmbientDirectional => spec_join(
                shaders.light_shared,
                shaders.textured_forward_ambient_directional,
            ),
        }
    }

    /// The variant that shades a lit mesh with the given kind of colour
    /// source under the given lights.
    pub fn forward(color: ColorSourceKind, lights: LightConfiguration) -> (kind: ProgramVariant)
        ensures
            kind == ProgramVariant::spec_forward(color, lights),
            kind.spec_family() == MeshFamily::PhongForward,
    {
        match color {
            ColorSourceKind::Color => match lights {
                LightConfiguration::Ambient => ProgramVariant::ColorAmbient,
                LightConfiguration::AmbientDirectional => ProgramVariant::ColorAmbientDirectional,
            },
            ColorSourceKind::Texture => match lights {
                LightConfiguration::Ambient => ProgramVariant::TextureAmbient,
                LightConfiguration::AmbientDirectional => ProgramVariant::TextureAmbientDirectional,
            },
        }
    }

    /// The family whose meshes are drawn this way.
    pub fn family(self) -> (family: MeshFamily)
        ensures
            family == self.spec_family(),
    {
        match self {
            ProgramVariant::Depth => MeshFamily::Mesh,
            ProgramVariant::Color => MeshFamily::Mesh,
            ProgramVariant::Texture => MeshFamily::Mesh,
            ProgramVariant::PerVertexColor => MeshFamily::Mesh,
            ProgramVariant::ColorAmbient => MeshFamily::PhongForward,
            ProgramVariant::ColorAmbientDirectional => MeshFamily::PhongForward,
            ProgramVariant::TextureAmbient => MeshFamily::PhongForward,
            ProgramVariant::TextureAmbientDirectional => MeshFamily::PhongForward,
        }
    }

    /// The slot of this variant in the cache of its family.
    pub fn slot(self) -> (slot: usize)
        ensures
            slot == self.spec_slot(),
            slot < SLOTS,
    {
        match self {
            ProgramVariant::Depth => 0,
            ProgramVariant::Color => 1,
            ProgramVariant::Texture => 2,
            ProgramVariant::PerVertexColor => 3,
            ProgramVariant::ColorAmbient => 0,
            ProgramVariant::ColorAmbientDirectional => 1,
            ProgramVariant::TextureAmbient => 2,
            ProgramVariant::TextureAmbientDirectional => 3,
        }
    }

    /// The fragment shader of this variant.
    pub fn fragment_shader_source(self, shaders: &ShaderSources) -> (source: String)
        ensures
            source@ == self.spec_fragment_shader_source(shaders@),
    {
        match self {
            ProgramVariant::Depth => String::from_str(DEPTH_FRAGMENT_SHADER),
            ProgramVariant::Color => String::from_str(
                COLOR_FRAGMENT_SHADER,
            ),
            ProgramVariant::Texture => String::from_str(
                TEXTURE_FRAGMENT_SHADER,
            ),
            ProgramVariant::PerVertexColor => String::from_str(
                PER_VERTEX_COLOR_FRAGMENT_SHADER,
            ),
            ProgramVariant::ColorAmbient => shaders.colored_forward_ambient.clone(),
            ProgramVariant::ColorAmbientDirectional => join(
                shaders.light_shared.as_str(),
                shaders.colored_forward_ambient_directional.as_str(),
            ),
            ProgramVariant::TextureAmbient => shaders.textured_forward_ambient.clone(),
            ProgramVariant::TextureAmbientDirectional => join(
                shaders.light_shared.as_str(),
                shaders.textured_forward_ambient_directional.as_str(),
            ),
        }
    }
}

/// The four pairings of a kind of colour source with a configuration of
/// lights have four programs: no two pairings share a variant, and every
/// variant of lit meshes belongs to one of them.
pub proof fn lemma_forward_variants_are_distinct(
    color: ColorSourceKind,
    lights: LightConfiguration,
    other_color: ColorSourceKind,
    other_lights: LightConfiguration,
    kind: ProgramVariant,
)
    ensures
        ProgramVariant::spec_forward(color, lights).spec_family() == MeshFamily::PhongForward,
        ProgramVariant::spec_forward(color, lights) == ProgramVariant::spec_forward(
            other_color,
            other_lights,
        ) ==> color == other_color && lights == other_lights,
        kind.spec_family() == MeshFamily::PhongForward ==> exists|
            color: ColorSourceKind,
            lights: LightConfiguration,
        | kind == #[trigger] ProgramVariant::spec_forward(color, lights),
{
    if kind.spec_family() == MeshFamily::PhongForward {
        match kind {
            ProgramVariant::ColorAmbient => {
                assert(kind == ProgramVariant::spec_forward(
                    ColorSourceKind::Color,
                    LightConfiguration::Ambient,
                ));
            },
            ProgramVariant::ColorAmbientDirectional => {
                assert(kind == ProgramVariant::spec_forward(
                    ColorSourceKind::Color,
                    LightConfiguration::AmbientDirectional,
                ));
            },
            ProgramVariant::TextureAmbient => {
                assert(kind == ProgramVariant::spec_forward(
                    ColorSourceKind::Texture,
                    LightConfiguration::Ambient,
                ));
            },
            _ => {
                assert(kind == ProgramVariant::spec_forward(
                    ColorSourceKind::Texture,
                    LightConfiguration::AmbientDirectional,
                ));
            },
        }
    }
}

/// The programs of one family and the number of its meshes that are alive.
pub struct VariantCache {
    slots: Vec<Option<MeshProgram>>,
    live: u64,
}

/// What a [`VariantCache`] holds.
pub struct VariantCacheView {
    /// The program in each slot, if it has been compiled.
    pub slots: Seq<Option<MeshProgram>>,
    /// The number of meshes that are alive.
    pub live: nat,
}

/// The program in a slot as a list: one program or none.
pub open spec fn held(slot: Option<MeshProgram>) -> Seq<MeshProgram> {
    match slot {
        Some(program) => seq![program],
        None => Seq::<MeshProgram>::empty(),
    }
}

impl VariantCacheView {
    /// No program and no mesh.
    pub open spec fn empty() -> VariantCacheView {
        VariantCacheView { slots: seq![None, None, None, None], live: 0 }
    }

    /// Every variant has its slot, and there is no program without a mesh.
    pub open spec fn wf(self) -> bool {
        &&& self.slots.len() == SLOTS
        &&& self.live == 0 ==> self.slots == VariantCacheView::empty().slots
    }

    /// The programs that are held, in the order of their slots.
    pub open spec fn programs(self) -> Seq<MeshProgram> {
        held(self.slots[0]) + held(self.slots[1]) + held(self.slots[2]) + held(self.slots[3])
    }

    /// The cache with `program` in a slot.
    pub open spec fn store(self, slot: int, program: MeshProgram) -> VariantCacheView {
        VariantCacheView { slots: self.slots.update(slot, Some(program)), ..self }
    }

    /// The cache after one more mesh has come alive.
    pub open spec fn register(self) -> VariantCacheView {
        VariantCacheView { live: self.live + 1, ..self }
    }

    /// The programs that go when one mesh goes: all of them with the last
    /// mesh, none before.
    pub open spec fn released(self) -> Seq<MeshProgram> {
        if self.live == 1 {
            self.programs()
        } else {
            Seq::<MeshProgram>::empty()
        }
    }

    /// The cache after one mesh has gone.
    pub open spec fn release(self) -> VariantCacheView {
        if self.live == 1 {
            VariantCacheView::empty()
        } else {
            VariantCacheView { live: (self.live - 1) as nat, ..self }
        }
    }
}

impl View for VariantCache {
    type V = VariantCacheView;

    closed spec fn view(&self) -> VariantCacheView {
        VariantCacheView { slots: self.slots@, live: self.live as nat }
    }
}

impl VariantCache {
    /// A cache with no program and no mesh.
    pub fn new() -> (cache: VariantCache)
        ensures
            cache@ == VariantCacheView::empty(),
    {
        let mut slots: Vec<Option<MeshProgram>> = Vec::new();
        slots.push(None);
        slots.push(None);
        slots.push(None);
        slots.push(None);
        proof {
            assert(slots@ =~= VariantCacheView::empty().slots);
        }
        VariantCache { slots, live: 0 }
    }

    /// The number of meshes that are alive.
    pub fn live(&self) -> (live: u64)
        ensures
            live == self@.live,
    {
        self.live
    }

    /// The program in a slot, if it has been compiled.
    pub fn get(&self, slot: usize) -> (program: Option<MeshProgram>)
        requires
            self@.wf(),
            slot < SLOTS,
        ensures
            program == self@.slots[slot as int],
    {
        self.slots[slot]
    }

    /// Puts a program into a slot.
    pub fn store(&mut self, slot: usize, program: MeshProgram)
        requires
            old(self)@.wf(),
            old(self)@.live > 0,
            slot < SLOTS,
        ensures
            final(self)@ == old(self)@.store(slot as int, program),
            final(self)@.wf(),
    {
        self.slots.set(slot, Some(program));
    }

    /// Counts one more mesh.
    pub fn register(&mut self)
        requires
            old(self)@.wf(),
            old(self)@.live < u64::MAX,
        ensures
            final(self)@ == old(self)@.register(),
            final(self)@.wf(),
    {
        self.live = self.live + 1;
    }

    /// Counts one mesh less and returns the programs that go with it.
    pub fn release(&mut self) -> (released: Vec<MeshProgram>)
        requires
            old(self)@.wf(),
            old(self)@.live > 0,
        ensures
            released@ == old(self)@.released(),
            final(self)@ == old(self)@.release(),
            final(self)@.wf(),
    {
        let mut released: Vec<MeshProgram> = Vec::new();
        self.live = self.live - 1;
        if self.live == 0 {
            push_held(&mut released, self.slots[0]);
            push_held(&mut released, self.slots[1]);
            push_held(&mut released, self.slots[2]);
            push_held(&mut released, self.slots[3]);
            self.slots.set(0, None);
            self.slots.set(1, None);
            self.slots.set(2, None);
            self.slots.set(3, None);
            proof {
                assert(self.slots@ =~= VariantCacheView::empty().slots);
                assert(released@ =~= old(self)@.programs());
            }
        }
        released
    }
}

/// Appends the program in a slot, if there is one.
fn push_held(programs: &mut Vec<MeshProgram>, slot: Option<MeshProgram>)
    ensures
        final(programs)@ == old(programs)@ + held(slot),
{
    match slot {
        Some(program) => {
            programs.push(program);
            assert(programs@ =~= old(programs)@ + held(slot));
        },
        None => {
            assert(programs@ =~= old(programs)@ + held(slot));
        },
    }
}

} // verus!
