//! The fragment shader sources of the Phong model.
//!
//! The renderer does not prescribe the text of these shaders, only how they
//! are put together and what is bound to the programs made from them. The
//! host supplies the texts when it creates a
//! [`Context`](crate::graphics::context::Context).

use vstd::prelude::*;
use vstd::string::StringExecFns;

verus! {

/// The shader sources that the host supplies.
#[derive(Clone, Debug, PartialEq, Eq)]
pub struct ShaderSources {
    /// Declarations shared by every shader that evaluates a light.
    pub light_shared: String,
    /// Declarations shared by the light shaders of the deferred pipeline:
    /// how a surface is read back from the geometry buffer.
    pub deferred_light_shared: String,
    /// The body of the deferred ambient light shader.
    pub ambient_light: String,
    /// The body of the deferred directional light shader.
    pub directional_light: String,
    /// The body of the deferred point light shader.
    pub point_light: String,
    /// The body of the deferred spot light shader.
    pub spot_light: String,
    /// The shader that shows one channel of the geometry buffer.
    pub debug: String,
    /// Forward shading of a coloured surface under ambient light.
    pub colored_forward_ambient: String,
    /// Forward shading of a textured surface under ambient light.
    pub textured_forward_ambient: String,
    /// The body for a coloured surface under ambient and directional light.
    pub colored_forward_ambient_directional: String,
    /// The body for a textured surface under ambient and directional light.
    pub textured_forward_ambient_directional: String,
}

/// [`ShaderSources`] with each text as a sequence of characters.
pub struct ShaderSourcesView {
    pub light_shared: Seq<char>,
    pub deferred_light_shared: Seq<char>,
    pub ambient_light: Seq<char>,
    pub directional_light: Seq<char>,
    pub point_light: Seq<char>,
    pub spot_light: Seq<char>,
    pub debug: Seq<char>,
    pub colored_forward_ambient: Seq<char>,
    pub textured_forward_ambient: Seq<char>,
    pub colored_forward_ambient_directional: Seq<char>,
    pub textured_forward_ambient_directional: Seq<char>,
}

impl View for ShaderSources {
    type V = ShaderSourcesView;

    open spec fn view(&self) -> ShaderSourcesView {
        ShaderSourcesView {
            light_shared: self.light_shared@,
            deferred_light_shared: self.deferred_light_shared@,
            ambient_light: self.ambient_light@,
            directional_light: self.directional_light@,
            point_light: self.point_light@,
            spot_light: self.spot_light@,
            debug: self.debug@,
            colored_forward_ambient: self.colored_forward_ambient@,
            textured_forward_ambient: self.textured_forward_ambient@,
            colored_forward_ambient_directional: self.colored_forward_ambient_directional@,
            textured_forward_ambient_directional: self.textured_forward_ambient_directional@,
        }
    }
}

/// The light of a deferred pass.
#[derive(Clone, Copy, Debug, PartialEq, Eq, Structural)]
pub enum LightType {
    Ambient,
    Directional,
    Point,
    Spot,
}

/// Two texts joined by a line break.
pub open spec fn spec_join(first: Seq<char>, second: Seq<char>) -> Seq<char> {
    first + "\n"@ + second
}

/// Two texts joined by a line break.
pub fn join(first: &str, second: &str) -> (joined: String)
    ensures
        joined@ == spec_join(first@, second@),
{
    let mut joined = String::from_str(first);
    joined.append("\n");
    joined.append(second);
    joined
}

impl ShaderSourcesView {
    /// The body of the deferred shader for one type of light.
    pub open spec fn light_body(self, light: LightType) -> Seq<char> {
        match light {
            LightType::Ambient => self.ambient_light,
            LightType::Directional => self.directional_light,
            LightType::Point => self.point_light,
            LightType::Spot => self.spot_light,
        }
    }

    /// The fragment shader of the deferred pass for one type of light: the
    /// shared light declarations, the shared reading of the geometry
    /// buffer and the body for that light, each on lines of its own.
    pub open spec fn deferred_light_source(self, light: LightType) -> Seq<char> {
        spec_join(spec_join(self.light_shared, self.deferred_light_shared), self.light_body(light))
    }
}

impl ShaderSources {
    /// The fragment shader of the deferred pass for one type of light.
    pub fn deferred_light_source(&self, light: LightType) -> (source: String)
        ensures
            source@ == self@.deferred_light_source(light),
    {
        let head = join(self.light_shared.as_str(), self.deferred_light_shared.as_str());
        match light {
            LightType::Ambient => join(head.as_str(), self.ambient_light.as_str()),
            LightType::Directional => join(head.as_str(), self.directional_light.as_str()),
            LightType::Point => join(head.as_str(), self.point_light.as_str()),
            LightType::Spot => join(head.as_str(), self.spot_light.as_str()),
        }
    }
}

} // verus!
