use vstd::prelude::*;

use crate::auto_binder::SlotBinder;
use crate::buffer::{Buffer, VertexArray, VertexAttrib};
use crate::clear_buffers::ClearBuffers;
use crate::color_buffer::ColorBuffer;
use crate::context::{Call, Context};
use crate::framebuffer::{Framebuffer, FramebufferObject};
use crate::prelude::Bindable;
use crate::shader::Program;
use crate::texture::Texture;
use crate::viewport::Viewport;

verus! {

/// One resource of any kind the library can bind, so that resources of
/// different kinds can be bound together, in one list.
pub enum Binding<'a> {
    Buffer(&'a Buffer),
    VertexArray(&'a VertexArray),
    VertexAttrib(&'a VertexAttrib),
    Texture(&'a Texture),
    TextureSlot(SlotBinder<'a, Texture>),
    Framebuffer(&'a Framebuffer),
    FramebufferObject(&'a FramebufferObject),
    Program(&'a Program),
    Viewport(&'a Viewport),
    ClearBuffers(&'a ClearBuffers),
    ColorBuffer(&'a ColorBuffer),
}

impl<'a> Bindable for Binding<'a> {
    open spec fn bind_calls(&self) -> Seq<Call> {
        match self {
            Binding::Buffer(b) => b.bind_calls(),
            Binding::VertexArray(b) => b.bind_calls(),
            Binding::VertexAttrib(b) => b.bind_calls(),
            Binding::Texture(b) => b.bind_calls(),
            Binding::TextureSlot(b) => b.bind_calls(),
            Binding::Framebuffer(b) => b.bind_calls(),
            Binding::FramebufferObject(b) => b.bind_calls(),
            Binding::Program(b) => b.bind_calls(),
            Binding::Viewport(b) => b.bind_calls(),
            Binding::ClearBuffers(b) => b.bind_calls(),
            Binding::ColorBuffer(b) => b.bind_calls(),
        }
    }

    open spec fn bind_at_calls(&self, slot: u32) -> Seq<Call> {
        match self {
            Binding::Buffer(b) => b.bind_at_calls(slot),
            Binding::VertexArray(b) => b.bind_at_calls(slot),
            Binding::VertexAttrib(b) => b.bind_at_calls(slot),
            Binding::Texture(b) => b.bind_at_calls(slot),
            Binding::TextureSlot(b) => b.bind_at_calls(slot),
            Binding::Framebuffer(b) => b.bind_at_calls(slot),
            Binding::FramebufferObject(b) => b.bind_at_calls(slot),
            Binding::Program(b) => b.bind_at_calls(slot),
            Binding::Viewport(b) => b.bind_at_calls(slot),
            Binding::ClearBuffers(b) => b.bind_at_calls(slot),
            Binding::ColorBuffer(b) => b.bind_at_calls(slot),
        }
    }

    open spec fn unbind_calls(&self) -> Seq<Call> {
        match self {
            Binding::Buffer(b) => b.unbind_calls(),
            Binding::VertexArray(b) => b.unbind_calls(),
            Binding::VertexAttrib(b) => b.unbind_calls(),
            Binding::Texture(b) => b.unbind_calls(),
            Binding::TextureSlot(b) => b.unbind_calls(),
            Binding::Framebuffer(b) => b.unbind_calls(),
            Binding::FramebufferObject(b) => b.unbind_calls(),
            Binding::Program(b) => b.unbind_calls(),
            Binding::Viewport(b) => b.unbind_calls(),
            Binding::ClearBuffers(b) => b.unbind_calls(),
            Binding::ColorBuffer(b) => b.unbind_calls(),
        }
    }

    open spec fn unbind_at_calls(&self, slot: u32) -> Seq<Call> {
        match self {
            Binding::Buffer(b) => b.unbind_at_calls(slot),
            Binding::VertexArray(b) => b.unbind_at_calls(slot),
            Binding::VertexAttrib(b) => b.unbind_at_calls(slot),
            Binding::Texture(b) => b.unbind_at_calls(slot),
            Binding::TextureSlot(b) => b.unbind_at_calls(slot),
            Binding::Framebuffer(b) => b.unbind_at_calls(slot),
            Binding::FramebufferObject(b) => b.unbind_at_calls(slot),
            Binding::Program(b) => b.unbind_at_calls(slot),
            Binding::Viewport(b) => b.unbind_at_calls(slot),
            Binding::ClearBuffers(b) => b.unbind_at_calls(slot),
            Binding::ColorBuffer(b) => b.unbind_at_calls(slot),
        }
    }

    fn bind(&self, ctx: &mut Context) {
        match self {
            Binding::Buffer(b) => b.bind(ctx),
            Binding::VertexArray(b) => b.bind(ctx),
            Binding::VertexAttrib(b) => b.bind(ctx),
            Binding::Texture(b) => b.bind(ctx),
            Binding::TextureSlot(b) => b.bind(ctx),
            Binding::Framebuffer(b) => b.bind(ctx),
            Binding::FramebufferObject(b) => b.bind(ctx),
            Binding::Program(b) => b.bind(ctx),
            Binding::Viewport(b) => b.bind(ctx),
            Binding::ClearBuffers(b) => b.bind(ctx),
            Binding::ColorBuffer(b) => b.bind(ctx),
        }
    }

    fn bind_at(&self, ctx: &mut Context, slot: u32) {
        match self {
            Binding::Buffer(b) => b.bind_at(ctx, slot),
            Binding::VertexArray(b) => b.bind_at(ctx, slot),
            Binding::VertexAttrib(b) => b.bind_at(ctx, slot),
            Binding::Texture(b) => b.bind_at(ctx, slot),
            Binding::TextureSlot(b) => b.bind_at(ctx, slot),
            Binding::Framebuffer(b) => b.bind_at(ctx, slot),
            Binding::FramebufferObject(b) => b.bind_at(ctx, slot),
            Binding::Program(b) => b.bind_at(ctx, slot),
            Binding::Viewport(b) => b.bind_at(ctx, slot),
            Binding::ClearBuffers(b) => b.bind_at(ctx, slot),
            Binding::ColorBuffer(b) => b.bind_at(ctx, slot),
        }
    }

    fn unbind(&self, ctx: &mut Context) {
        match self {
            Binding::Buffer(b) => b.unbind(ctx),
            Binding::VertexArray(b) => b.unbind(ctx),
            Binding::VertexAttrib(b) => b.unbind(ctx),
            Binding::Texture(b) => b.unbind(ctx),
            Binding::TextureSlot(b) => b.unbind(ctx),
            Binding::Framebuffer(b) => b.unbind(ctx),
            Binding::FramebufferObject(b) => b.unbind(ctx),
            Binding::Program(b) => b.unbind(ctx),
            Binding::Viewport(b) => b.unbind(ctx),
            Binding::ClearBuffers(b) => b.unbind(ctx),
            Binding::ColorBuffer(b) => b.unbind(ctx),
        }
    }

    fn unbind_at(&self, ctx: &mut Context, slot: u32) {
        match self {
            Binding::Buffer(b) => b.unbind_at(ctx, slot),
            Binding::VertexArray(b) => b.unbind_at(ctx, slot),
            Binding::VertexAttrib(b) => b.unbind_at(ctx, slot),
            Binding::Texture(b) => b.unbind_at(ctx, slot),
            Binding::TextureSlot(b) => b.unbind_at(ctx, slot),
            Binding::Framebuffer(b) => b.unbind_at(ctx, slot),
            Binding::FramebufferObject(b) => b.unbind_at(ctx, slot),
            Binding::Program(b) => b.unbind_at(ctx, slot),
            Binding::Viewport(b) => b.unbind_at(ctx, slot),
            Binding::ClearBuffers(b) => b.unbind_at(ctx, slot),
            Binding::ColorBuffer(b) => b.unbind_at(ctx, slot),
        }
    }
}

} // verus!
