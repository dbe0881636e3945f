//! What can be done with a compiled program: set its uniforms, bind buffers
//! and textures to its inputs, and draw with it.

use vstd::prelude::*;
use crate::graphics::command::{Command, CommandView, UniformValue};
use crate::graphics::context::Context;
use crate::graphics::names::{Attribute, Sampler, Uniform, UniformBlock};
use crate::graphics::types::{
    ElementBuffer, Program, RenderStates, Texture, UniformBuffer, VertexBuffer, Viewport,
};

verus! {

impl Program {
    /// Sets a uniform.
    pub fn use_uniform(&self, context: &mut Context, uniform: Uniform, value: UniformValue)
        ensures
            final(context)@ == old(context)@.record(
                CommandView::SetUniform { program: *self, uniform, value },
            ),
    {
        context.record(Command::SetUniform { program: *self, uniform, value });
    }

    /// Binds a uniform buffer to a uniform block.
    pub fn use_uniform_block(&self, context: &mut Context, buffer: UniformBuffer, block: UniformBlock)
        ensures
            final(context)@ == old(context)@.record(
                CommandView::UseUniformBlock { program: *self, buffer, block },
            ),
    {
        context.record(Command::UseUniformBlock { program: *self, buffer, block });
    }

    /// Binds a texture to a sampler.
    pub fn use_texture(&self, context: &mut Context, texture: Texture, sampler: Sampler)
        ensures
            final(context)@ == old(context)@.record(
                CommandView::UseTexture { program: *self, texture, sampler },
            ),
    {
        context.record(Command::UseTexture { program: *self, texture, sampler });
    }

    /// Binds a vertex buffer to an attribute.
    pub fn use_attribute(&self, context: &mut Context, buffer: VertexBuffer, attribute: Attribute)
        ensures
            final(context)@ == old(context)@.record(
                CommandView::UseAttribute { program: *self, buffer, attribute },
            ),
    {
        context.record(Command::UseAttribute { program: *self, buffer, attribute });
    }

    /// Draws `count` consecutive vertices as triangles.
    pub fn draw_arrays(
        &self,
        context: &mut Context,
        render_states: RenderStates,
        viewport: Viewport,
        count: usize,
    )
        ensures
            final(context)@ == old(context)@.record(
                CommandView::DrawArrays { program: *self, render_states, viewport, count },
            ),
    {
        context.record(Command::DrawArrays { program: *self, render_states, viewport, count });
    }

    /// Draws the triangles that the whole element buffer lists.
    pub fn draw_elements(
        &self,
        context: &mut Context,
        render_states: RenderStates,
        viewport: Viewport,
        element_buffer: ElementBuffer,
    )
        ensures
            final(context)@ == old(context)@.record(
                CommandView::DrawElements { program: *self, render_states, viewport, element_buffer },
            ),
    {
        context.record(
            Command::DrawElements { program: *self, render_states, viewport, element_buffer },
        );
    }
}

} // verus!
