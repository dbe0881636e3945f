//! Surface materials of the Phong model.

use vstd::prelude::*;
use crate::graphics::command::{Command, CommandView};
use crate::graphics::context::Context;
use crate::graphics::types::{Program, Texture, Vec4};

verus! {

/// Where the colour of a surface comes from.
#[derive(Clone, Copy, Debug, PartialEq, Eq, Structural)]
pub enum ColorSource {
    Color(Vec4),
    Texture(Texture),
}

/// Whether a surface has one colour or a texture.
#[derive(Clone, Copy, Debug, PartialEq, Eq, Structural)]
pub enum ColorSourceKind {
    Color,
    Texture,
}

impl ColorSource {
    /// Whether this is a colour or a texture.
    pub open spec fn spec_kind(self) -> ColorSourceKind {
        match self {
            ColorSource::Color(_) => ColorSourceKind::Color,
            ColorSource::Texture(_) => ColorSourceKind::Texture,
        }
    }

    /// Whether this is a colour or a texture.
    pub fn kind(&self) -> (kind: ColorSourceKind)
        ensures
            kind == self.spec_kind(),
    {
        match self {
            ColorSource::Color(_) => ColorSourceKind::Color,
            ColorSource::Texture(_) => ColorSourceKind::Texture,
        }
    }
}

/// The material of a Phong-shaded surface. Its reflection coefficients stay
/// with the host, which keeps them under `id`.
#[derive(Clone, Copy, Debug, PartialEq, Eq, Structural)]
pub struct PhongMaterial {
    pub id: u64,
    pub color_source: ColorSource,
}

impl PhongMaterial {
    /// Binds the material to a program: its reflection coefficients and its
    /// colour or texture.
    pub fn bind(&self, context: &mut Context, program: &Program)
        ensures
            final(context)@ == old(context)@.record(
                CommandView::BindMaterial { program: *program, material: *self },
            ),
    {
        context.record(Command::BindMaterial { program: *program, material: *self });
    }
}

} // verus!
