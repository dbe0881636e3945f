//! The identifiers by which shader programs know their inputs.
//!
//! A program declares uniforms, uniform blocks, samplers and vertex
//! attributes by name. The renderer uses a fixed set of them; each is a
//! variant here, and `name` gives the identifier as the shader source
//! spells it.

use vstd::prelude::*;

verus! {

/// A per-vertex input of a vertex shader.
#[derive(Clone, Copy, Debug, PartialEq, Eq, Structural)]
pub enum Attribute {
    /// `position`, three components.
    Position,
    /// `uv_coordinate`, two components: the input of a screen-space pass.
    UvCoordinate,
    /// `uv_coordinates`, two components: the input of a mesh program.
    UvCoordinates,
    /// `normal`, three components.
    Normal,
    /// `color`, four components.
    Color,
}

impl Attribute {
    /// The identifier in the shader source.
    pub open spec fn spec_name(self) -> Seq<char> {
        match self {
            Attribute::Position => "position"@,
            Attribute::UvCoordinate => "uv_coordinate"@,
            Attribute::UvCoordinates => "uv_coordinates"@,
            Attribute::Normal => "normal"@,
            Attribute::Color => "color"@,
        }
    }

    /// The number of scalars that one vertex contributes.
    pub open spec fn spec_components(self) -> usize {
        match self {
            Attribute::Position => 3,
            Attribute::UvCoordinate => 2,
            Attribute::UvCoordinates => 2,
            Attribute::Normal => 3,
            Attribute::Color => 4,
        }
    }

    /// The identifier in the shader source.
    pub fn name(self) -> (name: &'static str)
        ensures
            name@ == self.spec_name(),
    {
        match self {
            Attribute::Position => "position",
            Attribute::UvCoordinate => "uv_coordinate",
            Attribute::UvCoordinates => "uv_coordinates",
            Attribute::Normal => "normal",
            Attribute::Color => "color",
        }
    }

    /// The number of scalars that one vertex contributes.
    pub fn components(self) -> (components: usize)
        ensures
            components == self.spec_components(),
    {
        match self {
            Attribute::Position => 3,
            Attribute::UvCoordinate => 2,
            Attribute::UvCoordinates => 2,
            Attribute::Normal => 3,
            Attribute::Color => 4,
        }
    }
}

/// A uniform variable of a program.
#[derive(Clone, Copy, Debug, PartialEq, Eq, Structural)]
pub enum Uniform {
    ModelMatrix,
    NormalMatrix,
    Color,
    SurfaceColor,
    AmbientColor,
    EyePosition,
    ViewProjectionInverse,
    Type,
}

impl Uniform {
    /// The identifier in the shader source.
    pub open spec fn spec_name(self) -> Seq<char> {
        match self {
            Uniform::ModelMatrix => "modelMatrix"@,
            Uniform::NormalMatrix => "normalMatrix"@,
            Uniform::Color => "color"@,
            Uniform::SurfaceColor => "surfaceColor"@,
            Uniform::AmbientColor => "ambientColor"@,
            Uniform::EyePosition => "eyePosition"@,
            Uniform::ViewProjectionInverse => "viewProjectionInverse"@,
            Uniform::Type => "type"@,
        }
    }

    /// The identifier in the shader source.
    pub fn name(self) -> (name: &'static str)
        ensures
            name@ == self.spec_name(),
    {
        match self {
            Uniform::ModelMatrix => "modelMatrix",
            Uniform::NormalMatrix => "normalMatrix",
            Uniform::Color => "color",
            Uniform::SurfaceColor => "surfaceColor",
            Uniform::AmbientColor => "ambientColor",
            Uniform::EyePosition => "eyePosition",
            Uniform::ViewProjectionInverse => "viewProjectionInverse",
            Uniform::Type => "type",
        }
    }
}

/// A uniform block of a program.
#[derive(Clone, Copy, Debug, PartialEq, Eq, Structural)]
pub enum UniformBlock {
    Camera,
    DirectionalLightUniform,
    SpotLightUniform,
    PointLightUniform,
}

impl UniformBlock {
    /// The identifier in the shader source.
    pub open spec fn spec_name(self) -> Seq<char> {
        match self {
            UniformBlock::Camera => "Camera"@,
            UniformBlock::DirectionalLightUniform => "DirectionalLightUniform"@,
            UniformBlock::SpotLightUniform => "SpotLightUniform"@,
            UniformBlock::PointLightUniform => "PointLightUniform"@,
        }
    }

    /// The identifier in the shader source.
    pub fn name(self) -> (name: &'static str)
        ensures
            name@ == self.spec_name(),
    {
        match self {
            UniformBlock::Camera => "Camera",
            UniformBlock::DirectionalLightUniform => "DirectionalLightUniform",
            UniformBlock::SpotLightUniform => "SpotLightUniform",
            UniformBlock::PointLightUniform => "PointLightUniform",
        }
    }
}

/// A texture sampler of a program.
#[derive(Clone, Copy, Debug, PartialEq, Eq, Structural)]
pub enum Sampler {
    /// `tex`: the colour texture of a surface.
    Tex,
    /// `gbuffer`: the colour layers written by a geometry pass.
    Gbuffer,
    /// `depthMap`: the depth layer written by a geometry pass.
    DepthMap,
    /// `shadowMap`: the shadow map of a light.
    ShadowMap,
}

impl Sampler {
    /// The identifier in the shader source.
    pub open spec fn spec_name(self) -> Seq<char> {
        match self {
            Sampler::Tex => "tex"@,
            Sampler::Gbuffer => "gbuffer"@,
            Sampler::DepthMap => "depthMap"@,
            Sampler::ShadowMap => "shadowMap"@,
        }
    }

    /// The identifier in the shader source.
    pub fn name(self) -> (name: &'static str)
        ensures
            name@ == self.spec_name(),
    {
        match self {
            Sampler::Tex => "tex",
            Sampler::Gbuffer => "gbuffer",
            Sampler::DepthMap => "depthMap",
            Sampler::ShadowMap => "shadowMap",
        }
    }
}

} // verus!
