use vstd::prelude::*;

verus! {

/// One call into the native graphics API.
///
/// Floating-point arguments travel as their IEEE-754 bit patterns, so that a
/// value reaches the native call exactly as the caller gave it.
#[derive(Clone, Debug, PartialEq, Eq)]
#[allow(inconsistent_fields)]
pub enum Command {
    ActiveTexture { texture: u32 },
    AttachShader { program: u32, shader: u32 },
    BindAttribLocation { program: u32, index: u32, name: String },
    BindBuffer { target: u32, buffer: u32 },
    BindFramebuffer { target: u32, framebuffer: u32 },
    BindTexture { target: u32, texture: u32 },
    BindVertexArray { array: u32 },
    BlendFunc { sfactor: u32, dfactor: u32 },
    BufferData { target: u32, size: isize, data: Option<Vec<u8>>, usage: u32 },
    BufferSubData { target: u32, offset: isize, data: Vec<u8> },
    Clear { mask: u32 },
    ClearColor { red: u32, green: u32, blue: u32, alpha: u32 },
    ClearDepthf { depth: u32 },
    ClearStencil { stencil: i32 },
    CompileShader { shader: u32 },
    DeleteBuffer { buffer: u32 },
    DeleteFramebuffer { framebuffer: u32 },
    DeleteProgram { program: u32 },
    DeleteShader { shader: u32 },
    DeleteTexture { texture: u32 },
    DeleteVertexArray { array: u32 },
    DetachShader { program: u32, shader: u32 },
    Disable { cap: u32 },
    DisableVertexAttribArray { index: u32 },
    EglImageTargetTexture2DOes { target: u32, image: usize },
    Enable { cap: u32 },
    EnableVertexAttribArray { index: u32 },
    FramebufferTexture2D { target: u32, attachment: u32, textarget: u32, texture: u32, level: i32 },
    GenerateMipmap { target: u32 },
    LinkProgram { program: u32 },
    ShaderSource { shader: u32, source: String },
    TexImage2D {
        target: u32,
        level: i32,
        internal_format: i32,
        width: i32,
        height: i32,
        border: i32,
        format: u32,
        texel: u32,
        data: Option<Vec<u8>>,
    },
    TexParameteri { target: u32, pname: u32, param: i32 },
    Uniform1f { location: i32, v0: u32 },
    Uniform1fv { location: i32, values: Vec<u32> },
    Uniform1i { location: i32, v0: i32 },
    Uniform1ui { location: i32, v0: u32 },
    Uniform2f { location: i32, v0: u32, v1: u32 },
    Uniform3f { location: i32, v0: u32, v1: u32, v2: u32 },
    Uniform4f { location: i32, v0: u32, v1: u32, v2: u32, v3: u32 },
    UniformMatrix4fv { location: i32, transpose: u8, values: Vec<u32> },
    UseProgram { program: u32 },
    VertexAttribPointer {
        index: u32,
        size: i32,
        data_type: u32,
        normalized: u8,
        stride: i32,
        offset: isize,
    },
    Viewport { x: i32, y: i32, width: i32, height: i32 },
}

/// What a `Command` means: the same call, with byte, number and text
/// arguments seen as sequences.
#[allow(inconsistent_fields)]
pub enum Call {
    ActiveTexture { texture: u32 },
    AttachShader { program: u32, shader: u32 },
    BindAttribLocation { program: u32, index: u32, name: Seq<char> },
    BindBuffer { target: u32, buffer: u32 },
    BindFramebuffer { target: u32, framebuffer: u32 },
    BindTexture { target: u32, texture: u32 },
    BindVertexArray { array: u32 },
    BlendFunc { sfactor: u32, dfactor: u32 },
    BufferData { target: u32, size: isize, data: Option<Seq<u8>>, usage: u32 },
    BufferSubData { target: u32, offset: isize, data: Seq<u8> },
    Clear { mask: u32 },
    ClearColor { red: u32, green: u32, blue: u32, alpha: u32 },
    ClearDepthf { depth: u32 },
    ClearStencil { stencil: i32 },
    CompileShader { shader: u32 },
    DeleteBuffer { buffer: u32 },
    DeleteFramebuffer { framebuffer: u32 },
    DeleteProgram { program: u32 },
    DeleteShader { shader: u32 },
    DeleteTexture { texture: u32 },
    DeleteVertexArray { array: u32 },
    DetachShader { program: u32, shader: u32 },
    Disable { cap: u32 },
    DisableVertexAttribArray { index: u32 },
    EglImageTargetTexture2DOes { target: u32, image: usize },
    Enable { cap: u32 },
    EnableVertexAttribArray { index: u32 },
    FramebufferTexture2D { target: u32, attachment: u32, textarget: u32, texture: u32, level: i32 },
    GenerateMipmap { target: u32 },
    LinkProgram { program: u32 },
    ShaderSource { shader: u32, source: Seq<char> },
    TexImage2D {
        target: u32,
        level: i32,
        internal_format: i32,
        width: i32,
        height: i32,
        border: i32,
        format: u32,
        texel: u32,
        data: Option<Seq<u8>>,
    },
    TexParameteri { target: u32, pname: u32, param: i32 },
    Uniform1f { location: i32, v0: u32 },
    Uniform1fv { location: i32, values: Seq<u32> },
    Uniform1i { location: i32, v0: i32 },
    Uniform1ui { location: i32, v0: u32 },
    Uniform2f { location: i32, v0: u32, v1: u32 },
    Uniform3f { location: i32, v0: u32, v1: u32, v2: u32 },
    Uniform4f { location: i32, v0: u32, v1: u32, v2: u32, v3: u32 },
    UniformMatrix4fv { location: i32, transpose: u8, values: Seq<u32> },
    UseProgram { program: u32 },
    VertexAttribPointer {
        index: u32,
        size: i32,
        data_type: u32,
        normalized: u8,
        stride: i32,
        offset: isize,
    },
    Viewport { x: i32, y: i32, width: i32, height: i32 },
}

/// The contents of an optional byte vector.
pub open spec fn bytes_view(data: &Option<Vec<u8>>) -> Option<Seq<u8>> {
    match data {
        Some(d) => Some(d@),
        None => None,
    }
}

impl View for Command {
    type V = Call;

    open spec fn view(&self) -> Call {
        match self {
            Command::ActiveTexture { texture } => Call::ActiveTexture { texture: *texture },
            Command::AttachShader { program, shader } => Call::AttachShader {
                program: *program,
                shader: *shader,
            },
            Command::BindAttribLocation { program, index, name } => Call::BindAttribLocation {
                program: *program,
                index: *index,
                name: name@,
            },
            Command::BindBuffer { target, buffer } => Call::BindBuffer {
                target: *target,
                buffer: *buffer,
            },
            Command::BindFramebuffer { target, framebuffer } => Call::BindFramebuffer {
                target: *target,
                framebuffer: *framebuffer,
            },
            Command::BindTexture { target, texture } => Call::BindTexture {
                target: *target,
                texture: *texture,
            },
            Command::BindVertexArray { array } => Call::BindVertexArray { array: *array },
            Command::BlendFunc { sfactor, dfactor } => Call::BlendFunc {
                sfactor: *sfactor,
                dfactor: *dfactor,
            },
            Command::BufferData { target, size, data, usage } => Call::BufferData {
                target: *target,
                size: *size,
                data: bytes_view(data),
                usage: *usage,
            },
            Command::BufferSubData { target, offset, data } => Call::BufferSubData {
                target: *target,
                offset: *offset,
                data: data@,
            },
            Command::Clear { mask } => Call::Clear { mask: *mask },
            Command::ClearColor { red, green, blue, alpha } => Call::ClearColor {
                red: *red,
                green: *green,
                blue: *blue,
                alpha: *alpha,
            },
            Command::ClearDepthf { depth } => Call::ClearDepthf { depth: *depth },
            Command::ClearStencil { stencil } => Call::ClearStencil { stencil: *stencil },
            Command::CompileShader { shader } => Call::CompileShader { shader: *shader },
            Command::DeleteBuffer { buffer } => Call::DeleteBuffer { buffer: *buffer },
            Command::DeleteFramebuffer { framebuffer } => Call::DeleteFramebuffer {
                framebuffer: *framebuffer,
            },
            Command::DeleteProgram { program } => Call::DeleteProgram { program: *program },
            Command::DeleteShader { shader } => Call::DeleteShader { shader: *shader },
            Command::DeleteTexture { texture } => Call::DeleteTexture { texture: *texture },
            Command::DeleteVertexArray { array } => Call::DeleteVertexArray { array: *array },
            Command::DetachShader { program, shader } => Call::DetachShader {
                program: *program,
                shader: *shader,
            },
            Command::Disable { cap } => Call::Disable { cap: *cap },
            Command::DisableVertexAttribArray { index } => Call::DisableVertexAttribArray {
                index: *index,
            },
            Command::EglImageTargetTexture2DOes {
                target,
                image,
            } => Call::EglImageTargetTexture2DOes {
                target: *target,
                image: *image,
            },
            Command::Enable { cap } => Call::Enable { cap: *cap },
            Command::EnableVertexAttribArray { index } => Call::EnableVertexAttribArray {
                index: *index,
            },
            Command::FramebufferTexture2D {
                target,
                attachment,
                textarget,
                texture,
                level,
            } => Call::FramebufferTexture2D {
                target: *target,
                attachment: *attachment,
                textarget: *textarget,
                texture: *texture,
                level: *level,
            },
            Command::GenerateMipmap { target } => Call::GenerateMipmap { target: *target },
            Command::LinkProgram { program } => Call::LinkProgram { program: *program },
            Command::ShaderSource { shader, source } => Call::ShaderSource {
                shader: *shader,
                source: source@,
            },
            Command::TexImage2D {
                target,
                level,
                internal_format,
                width,
                height,
                border,
                format,
                texel,
                data,
            } => Call::TexImage2D {
                target: *target,
                level: *level,
                internal_format: *internal_format,
                width: *width,
                height: *height,
                border: *border,
                format: *format,
                texel: *texel,
                data: bytes_view(data),
            },
            Command::TexParameteri { target, pname, param } => Call::TexParameteri {
                target: *target,
                pname: *pname,
                param: *param,
            },
            Command::Uniform1f { location, v0 } => Call::Uniform1f { location: *location, v0: *v0 },
            Command::Uniform1fv { location, values } => Call::Uniform1fv {
                location: *location,
                values: values@,
            },
            Command::Uniform1i { location, v0 } => Call::Uniform1i { location: *location, v0: *v0 },
            Command::Uniform1ui { location, v0 } => Call::Uniform1ui {
                location: *location,
                v0: *v0,
            },
            Command::Uniform2f { location, v0, v1 } => Call::Uniform2f {
                location: *location,
                v0: *v0,
                v1: *v1,
            },
            Command::Uniform3f { location, v0, v1, v2 } => Call::Uniform3f {
                location: *location,
                v0: *v0,
                v1: *v1,
                v2: *v2,
            },
            Command::Uniform4f { location, v0, v1, v2, v3 } => Call::Uniform4f {
                location: *location,
                v0: *v0,
                v1: *v1,
                v2: *v2,
                v3: *v3,
            },
            Command::UniformMatrix4fv { location, transpose, values } => Call::UniformMatrix4fv {
                location: *location,
                transpose: *transpose,
                values: values@,
            },
            Command::UseProgram { program } => Call::UseProgram { program: *program },
            Command::VertexAttribPointer {
                index,
                size,
                data_type,
                normalized,
                stride,
                offset,
            } => Call::VertexAttribPointer {
                index: *index,
                size: *size,
                data_type: *data_type,
                normalized: *normalized,
                stride: *stride,
                offset: *offset,
            },
            Command::Viewport { x, y, width, height } => Call::Viewport {
                x: *x,
                y: *y,
                width: *width,
                height: *height,
            },
        }
    }
}

/// An explicit graphics context: the ordered record of the native calls
/// that the library has issued and that are still to be performed.
///
/// Every operation of the library takes the context it works on; the
/// driver side takes the calls out with `take_commands` and performs them
/// in order.
pub struct Context {
    commands: Vec<Command>,
}

impl View for Context {
    type V = Seq<Call>;

    closed spec fn view(&self) -> Seq<Call> {
        self.commands@.map_values(|c: Command| c@)
    }
}

impl Context {
    /// A context that has issued nothing yet.
    pub fn new() -> (r: Self)
        ensures
            r@ == Seq::<Call>::empty(),
    {
        Context { commands: Vec::new() }
    }

    /// Issues one native call after those issued so far.
    pub fn issue(&mut self, command: Command)
        ensures
            final(self)@ == old(self)@.push(command@),
    {
        self.commands.push(command);
    }

    /// The calls issued and not yet taken, oldest first.
    pub fn commands(&self) -> (r: &[Command])
        ensures
            r@.map_values(|c: Command| c@) == self@,
    {
        self.commands.as_slice()
    }

    /// The number of calls issued and not yet taken.
    pub fn len(&self) -> (r: usize)
        ensures
            r == self@.len(),
    {
        self.commands.len()
    }

    /// Takes out every call issued so far, oldest first, and leaves the
    /// record empty.
    pub fn take_commands(&mut self) -> (r: Vec<Command>)
        ensures
            r@.map_values(|c: Command| c@) == old(self)@,
            final(self)@ == Seq::<Call>::empty(),
    {
        let mut taken: Vec<Command> = Vec::new();
        std::mem::swap(&mut taken, &mut self.commands);
        taken
    }
}

} // verus!
