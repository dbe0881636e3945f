//! Lights, as far as the renderer handles them.
//!
//! Colour, intensity, direction and the like stay with the host, packed into
//! the uniform buffer of each light. The renderer binds that buffer and,
//! where the light casts shadows, its shadow map.

use vstd::prelude::*;
use crate::graphics::types::{Texture, UniformBuffer};

verus! {

/// A light that reaches every surface from every side. Its colour and
/// intensity stay with the host, which keeps them under `id`.
#[derive(Clone, Copy, Debug, PartialEq, Eq, Structural)]
pub struct AmbientLight {
    pub id: u64,
}

/// A light that shines from one direction everywhere, with a shadow map.
#[derive(Clone, Copy, Debug, PartialEq, Eq, Structural)]
pub struct DirectionalLight {
    pub shadow_map: Texture,
    pub buffer: UniformBuffer,
}

impl DirectionalLight {
    /// The texture that holds the depths seen from the light.
    pub fn shadow_map(&self) -> (texture: Texture)
        ensures
            texture == self.shadow_map,
    {
        self.shadow_map
    }

    /// The uniform buffer with the parameters of the light.
    pub fn buffer(&self) -> (buffer: UniformBuffer)
        ensures
            buffer == self.buffer,
    {
        self.buffer
    }
}

/// A light that shines from a point into a cone, with a shadow map.
#[derive(Clone, Copy, Debug, PartialEq, Eq, Structural)]
pub struct SpotLight {
    pub shadow_map: Texture,
    pub buffer: UniformBuffer,
}

impl SpotLight {
    /// The texture that holds the depths seen from the light.
    pub fn shadow_map(&self) -> (texture: Texture)
        ensures
            texture == self.shadow_map,
    {
        self.shadow_map
    }

    /// The uniform buffer with the parameters of the light.
    pub fn buffer(&self) -> (buffer: UniformBuffer)
        ensures
            buffer == self.buffer,
    {
        self.buffer
    }
}

/// A light that shines from a point in all directions.
#[derive(Clone, Copy, Debug, PartialEq, Eq, Structural)]
pub struct PointLight {
    pub buffer: UniformBuffer,
}

impl PointLight {
    /// The uniform buffer with the parameters of the light.
    pub fn buffer(&self) -> (buffer: UniformBuffer)
        ensures
            buffer == self.buffer,
    {
        self.buffer
    }
}

/// One light of a frame, in the order in which the deferred pipeline
/// evaluates them.
#[derive(Clone, Copy, Debug, PartialEq, Eq, Structural)]
pub enum Light {
    Ambient(AmbientLight),
    Directional(DirectionalLight),
    Spot(SpotLight),
    Point(PointLight),
}

/// The light behind an optional reference.
pub open spec fn spec_copied(light: Option<&AmbientLight>) -> Option<AmbientLight> {
    match light {
        Some(light) => Some(*light),
        None => None,
    }
}

/// The lights behind a list of references.
pub open spec fn each<L>(lights: Seq<&L>) -> Seq<L> {
    lights.map_values(|light: &L| *light)
}

/// Nothing or the ambient light.
pub open spec fn ambient_lights(ambient_light: Option<AmbientLight>) -> Seq<Light> {
    match ambient_light {
        Some(light) => seq![Light::Ambient(light)],
        None => Seq::<Light>::empty(),
    }
}

/// The lights of a frame in the order of their evaluation: the ambient light
/// if there is one, then the directional lights, the spot lights and the
/// point lights, each group in the order given.
pub open spec fn lights_in_order(
    ambient_light: Option<AmbientLight>,
    directional_lights: Seq<DirectionalLight>,
    spot_lights: Seq<SpotLight>,
    point_lights: Seq<PointLight>,
) -> Seq<Light> {
    ambient_lights(ambient_light) + directional_lights.map_values(
        |light: DirectionalLight| Light::Directional(light),
    ) + spot_lights.map_values(|light: SpotLight| Light::Spot(light)) + point_lights.map_values(
        |light: PointLight| Light::Point(light),
    )
}

/// Where each light stands in the order of evaluation.
pub proof fn lemma_lights_in_order(
    ambient_light: Option<AmbientLight>,
    directional_lights: Seq<DirectionalLight>,
    spot_lights: Seq<SpotLight>,
    point_lights: Seq<PointLight>,
)
    ensures
        ({
            let lights = lights_in_order(
                ambient_light,
                directional_lights,
                spot_lights,
                point_lights,
            );
            let first = ambient_lights(ambient_light).len() as int;
            &&& lights.len() == first + directional_lights.len() + spot_lights.len()
                + point_lights.len()
            &&& first == if ambient_light is Some {
                1int
            } else {
                0int
            }
            &&& ambient_light is Some ==> lights[0] == Light::Ambient(ambient_light->0)
            &&& forall|i: int|
                0 <= i < directional_lights.len() ==> #[trigger] lights[first + i]
                    == Light::Directional(directional_lights[i])
            &&& forall|i: int|
                0 <= i < spot_lights.len() ==> #[trigger] lights[first + directional_lights.len()
                    + i] == Light::Spot(spot_lights[i])
            &&& forall|i: int|
                0 <= i < point_lights.len() ==> #[trigger] lights[first + directional_lights.len()
                    + spot_lights.len() + i] == Light::Point(point_lights[i])
        }),
{
}

} // verus!
