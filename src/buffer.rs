use vstd::prelude::*;

use crate::context::{Call, Command, Context};
use crate::gl;
use crate::prelude::Bindable;

verus! {

/// A native buffer object bound to one target.
#[derive(Clone, Debug, Default, PartialEq, Eq, Structural)]
pub struct Buffer {
    buffer_type: u32,
    vbo: u32,
}

impl Buffer {
    /// The target the buffer is bound to.
    pub closed spec fn buffer_type(&self) -> u32 {
        self.buffer_type
    }

    /// The native name of the buffer.
    pub closed spec fn spec_id(&self) -> u32 {
        self.vbo
    }

    /// Wraps the newly generated buffer `vbo` for `buffer_type`, and binds it.
    pub fn new(ctx: &mut Context, buffer_type: u32, vbo: u32) -> (r: Buffer)
        ensures
            r.buffer_type() == buffer_type,
            r.spec_id() == vbo,
            final(ctx)@ == old(ctx)@.push(Call::BindBuffer { target: buffer_type, buffer: vbo }),
    {
        ctx.issue(Command::BindBuffer { target: buffer_type, buffer: vbo });
        Buffer { buffer_type, vbo }
    }

    /// A vertex attribute buffer.
    pub fn new_array(ctx: &mut Context, vbo: u32) -> (r: Buffer)
        ensures
            r.buffer_type() == gl::ARRAY_BUFFER,
            r.spec_id() == vbo,
            final(ctx)@ == old(ctx)@.push(
                Call::BindBuffer { target: gl::ARRAY_BUFFER, buffer: vbo },
            ),
    {
        Self::new(ctx, gl::ARRAY_BUFFER, vbo)
    }

    /// A vertex index buffer.
    pub fn new_element_array(ctx: &mut Context, vbo: u32) -> (r: Buffer)
        ensures
            r.buffer_type() == gl::ELEMENT_ARRAY_BUFFER,
            r.spec_id() == vbo,
            final(ctx)@ == old(ctx)@.push(
                Call::BindBuffer { target: gl::ELEMENT_ARRAY_BUFFER, buffer: vbo },
            ),
    {
        Self::new(ctx, gl::ELEMENT_ARRAY_BUFFER, vbo)
    }

    /// A buffer of indirect draw commands.
    pub fn new_draw_indirect(ctx: &mut Context, vbo: u32) -> (r: Buffer)
        ensures
            r.buffer_type() == gl::DRAW_INDIRECT_BUFFER,
            r.spec_id() == vbo,
            final(ctx)@ == old(ctx)@.push(
                Call::BindBuffer { target: gl::DRAW_INDIRECT_BUFFER, buffer: vbo },
            ),
    {
        Self::new(ctx, gl::DRAW_INDIRECT_BUFFER, vbo)
    }

    /// The native name of the buffer.
    pub fn id(&self) -> (r: u32)
        ensures
            r == self.spec_id(),
    {
        self.vbo
    }

    /// Replaces the buffer's store with `data`, for data set once and drawn
    /// many times.
    pub fn static_draw_data(&self, ctx: &mut Context, data: &[u8])
        ensures
            final(ctx)@ == old(ctx)@.push(
                Call::BufferData {
                    target: self.buffer_type(),
                    size: -1isize,
                    data: Some(data@),
                    usage: gl::STATIC_DRAW,
                },
            ),
    {
        let bytes = vstd::slice::slice_to_vec(data);
        ctx.issue(
            Command::BufferData {
                target: self.buffer_type,
                size: -1,
                data: Some(bytes),
                usage: gl::STATIC_DRAW,
            },
        );
    }

    /// Replaces the buffer's store with `data`, for data that changes
    /// every frame.
    pub fn stream_draw_data(&self, ctx: &mut Context, data: &[u8])
        ensures
            final(ctx)@ == old(ctx)@.push(
                Call::BufferData {
                    target: self.buffer_type(),
                    size: -1isize,
                    data: Some(data@),
                    usage: gl::STREAM_DRAW,
                },
            ),
    {
        let bytes = vstd::slice::slice_to_vec(data);
        ctx.issue(
            Command::BufferData {
                target: self.buffer_type,
                size: -1,
                data: Some(bytes),
                usage: gl::STREAM_DRAW,
            },
        );
    }

    /// Allocates an uninitialised store for `size` items of type `T`, for
    /// data that changes every frame.
    pub fn stream_draw_data_null<T>(&self, ctx: &mut Context, size: usize)
        requires
            size * vstd::layout::size_of::<T>() <= isize::MAX,
        ensures
            final(ctx)@ == old(ctx)@.push(
                Call::BufferData {
                    target: self.buffer_type(),
                    size: (size * vstd::layout::size_of::<T>()) as isize,
                    data: None,
                    usage: gl::STREAM_DRAW,
                },
            ),
    {
        let item = core::mem::size_of::<T>();
        let bytes = size * item;
        ctx.issue(
            Command::BufferData {
                target: self.buffer_type,
                size: bytes as isize,
                data: None,
                usage: gl::STREAM_DRAW,
            },
        );
    }

    /// Overwrites the start of the buffer's store with `data`.
    pub fn update(&self, ctx: &mut Context, data: &[u8])
        ensures
            final(ctx)@ == old(ctx)@.push(
                Call::BufferSubData { target: self.buffer_type(), offset: 0isize, data: data@ },
            ),
    {
        self.update_partial(ctx, 0, data);
    }

    /// Overwrites the buffer's store with `data`, from byte `offset` on.
    pub fn update_partial(&self, ctx: &mut Context, offset: isize, data: &[u8])
        ensures
            final(ctx)@ == old(ctx)@.push(
                Call::BufferSubData { target: self.buffer_type(), offset, data: data@ },
            ),
    {
        let bytes = vstd::slice::slice_to_vec(data);
        ctx.issue(Command::BufferSubData { target: self.buffer_type, offset, data: bytes });
    }

    /// Deletes the native buffer.
    pub fn delete(self, ctx: &mut Context)
        ensures
            final(ctx)@ == old(ctx)@.push(Call::DeleteBuffer { buffer: self.spec_id() }),
    {
        ctx.issue(Command::DeleteBuffer { buffer: self.vbo });
    }
}

impl Bindable for Buffer {
    open spec fn bind_calls(&self) -> Seq<Call> {
        seq![Call::BindBuffer { target: self.buffer_type(), buffer: self.spec_id() }]
    }

    open spec fn bind_at_calls(&self, slot: u32) -> Seq<Call> {
        self.bind_calls()
    }

    /// Releasing binds the null buffer to the target.
    open spec fn unbind_calls(&self) -> Seq<Call> {
        seq![Call::BindBuffer { target: self.buffer_type(), buffer: 0 }]
    }

    open spec fn unbind_at_calls(&self, slot: u32) -> Seq<Call> {
        self.unbind_calls()
    }

    fn bind(&self, ctx: &mut Context) {
        ctx.issue(Command::BindBuffer { target: self.buffer_type, buffer: self.vbo });
    }

    fn bind_at(&self, ctx: &mut Context, slot: u32) {
        self.bind(ctx);
    }

    fn unbind(&self, ctx: &mut Context) {
        ctx.issue(Command::BindBuffer { target: self.buffer_type, buffer: 0 });
    }

    fn unbind_at(&self, ctx: &mut Context, slot: u32) {
        self.unbind(ctx);
    }
}

/// How a vertex attribute is read from the bound array buffer.
#[derive(Clone, Copy, Debug, PartialEq, Eq, Structural)]
pub struct VertexAttrib {
    pub location: u32,
    pub components: i32,
    pub data_type: u32,
    pub normalized: u8,
    pub stride: i32,
    pub offset: isize,
}

impl VertexAttrib {
    /// Attribute `location`: `components` values of `data_type` per vertex,
    /// `stride` bytes apart, the first `offset` bytes into the buffer.
    pub fn new(
        location: u32,
        components: i32,
        data_type: u32,
        normalized: u8,
        stride: i32,
        offset: isize,
    ) -> (r: Self)
        ensures
            r == (VertexAttrib { location, components, data_type, normalized, stride, offset }),
    {
        Self { location, components, data_type, normalized, stride, offset }
    }

    /// The calls that enable the attribute and describe its layout.
    pub open spec fn enable_calls(&self) -> Seq<Call> {
        seq![
            Call::EnableVertexAttribArray { index: self.location },
            Call::VertexAttribPointer {
                index: self.location,
                size: self.components,
                data_type: self.data_type,
                normalized: self.normalized,
                stride: self.stride,
                offset: self.offset,
            },
        ]
    }

    fn enable(&self, ctx: &mut Context)
        ensures
            final(ctx)@ == old(ctx)@ + self.enable_calls(),
    {
        ctx.issue(Command::EnableVertexAttribArray { index: self.location });
        ctx.issue(
            Command::VertexAttribPointer {
                index: self.location,
                size: self.components,
                data_type: self.data_type,
                normalized: self.normalized,
                stride: self.stride,
                offset: self.offset,
            },
        );
        assert(ctx@ =~= old(ctx)@ + self.enable_calls());
    }
}

impl Bindable for VertexAttrib {
    open spec fn bind_calls(&self) -> Seq<Call> {
        self.enable_calls()
    }

    open spec fn bind_at_calls(&self, slot: u32) -> Seq<Call> {
        self.bind_calls()
    }

    open spec fn unbind_calls(&self) -> Seq<Call> {
        seq![Call::DisableVertexAttribArray { index: self.location }]
    }

    open spec fn unbind_at_calls(&self, slot: u32) -> Seq<Call> {
        self.unbind_calls()
    }

    fn bind(&self, ctx: &mut Context) {
        self.enable(ctx);
    }

    fn bind_at(&self, ctx: &mut Context, slot: u32) {
        self.bind(ctx);
    }

    fn unbind(&self, ctx: &mut Context) {
        ctx.issue(Command::DisableVertexAttribArray { index: self.location });
    }

    fn unbind_at(&self, ctx: &mut Context, slot: u32) {
        self.unbind(ctx);
    }
}

/// A native vertex array object.
#[derive(Clone, Debug, Default, PartialEq, Eq, Structural)]
pub struct VertexArray {
    vao: u32,
}

impl VertexArray {
    /// The native name of the vertex array.
    pub closed spec fn spec_id(&self) -> u32 {
        self.vao
    }

    /// Wraps the newly generated vertex array `vao`.
    pub fn new(vao: u32) -> (r: VertexArray)
        ensures
            r.spec_id() == vao,
    {
        VertexArray { vao }
    }

    /// The native name of the vertex array.
    pub fn id(&self) -> (r: u32)
        ensures
            r == self.spec_id(),
    {
        self.vao
    }

    /// Enables `attr` and describes its layout.
    pub fn enable_attrib(&self, ctx: &mut Context, attr: &VertexAttrib)
        ensures
            final(ctx)@ == old(ctx)@ + attr.enable_calls(),
    {
        attr.enable(ctx);
    }

    /// Disables `attr`; the vertex array is used up and deleted after it.
    pub fn disable_attrib(self, ctx: &mut Context, attr: &VertexAttrib)
        ensures
            final(ctx)@ == old(ctx)@ + seq![
                Call::DisableVertexAttribArray { index: attr.location },
                Call::DeleteVertexArray { array: self.spec_id() },
            ],
    {
        ctx.issue(Command::DisableVertexAttribArray { index: attr.location });
        self.delete(ctx);
        assert(ctx@ =~= old(ctx)@ + seq![
            Call::DisableVertexAttribArray { index: attr.location },
            Call::DeleteVertexArray { array: self.spec_id() },
        ]);
    }

    /// Deletes the native vertex array.
    pub fn delete(self, ctx: &mut Context)
        ensures
            final(ctx)@ == old(ctx)@.push(Call::DeleteVertexArray { array: self.spec_id() }),
    {
        ctx.issue(Command::DeleteVertexArray { array: self.vao });
    }
}

impl Bindable for VertexArray {
    open spec fn bind_calls(&self) -> Seq<Call> {
        seq![Call::BindVertexArray { array: self.spec_id() }]
    }

    open spec fn bind_at_calls(&self, slot: u32) -> Seq<Call> {
        self.bind_calls()
    }

    /// Releasing binds the null vertex array.
    open spec fn unbind_calls(&self) -> Seq<Call> {
        seq![Call::BindVertexArray { array: 0 }]
    }

    open spec fn unbind_at_calls(&self, slot: u32) -> Seq<Call> {
        self.unbind_calls()
    }

    fn bind(&self, ctx: &mut Context) {
        ctx.issue(Command::BindVertexArray { array: self.vao });
    }

    fn bind_at(&self, ctx: &mut Context, slot: u32) {
        self.bind(ctx);
    }

    fn unbind(&self, ctx: &mut Context) {
        ctx.issue(Command::BindVertexArray { array: 0 });
    }

    fn unbind_at(&self, ctx: &mut Context, slot: u32) {
        self.unbind(ctx);
    }
}

} // verus!
