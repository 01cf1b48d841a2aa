use vstd::prelude::*;
use vstd::string::{StringExecFns, StringSliceAdditionalSpecFns};

use crate::context::{Call, Command, Context};
use crate::error::Error;
use crate::gl;
use crate::prelude::Bindable;
use crate::variant::Variant;

verus! {

/// A value to write into a shader uniform, borrowed from its owner.
///
/// Floating-point components are IEEE-754 bit patterns; a matrix is given
/// column by column.
#[derive(Clone, Copy, Debug)]
pub enum UniformValue<'a> {
    Unknown,
    Int(i32),
    UnsignedInt(u32),
    Float(u32),
    Float2(&'a [u32; 2]),
    Float3(&'a [u32; 3]),
    Float4(&'a [u32; 4]),
    FloatV(&'a [u32]),
    Matrix4(&'a [u32; 16]),
}

/// The one native call that writes `value` into the uniform at `location`.
/// A matrix is never transposed.
pub open spec fn uniform_call(location: i32, value: UniformValue) -> Call
    recommends
        !(value is Unknown),
{
    match value {
        UniformValue::Int(v) => Call::Uniform1i { location, v0: v },
        UniformValue::UnsignedInt(v) => Call::Uniform1ui { location, v0: v },
        UniformValue::Float(v) => Call::Uniform1f { location, v0: v },
        UniformValue::Float2(v) => Call::Uniform2f { location, v0: v@[0], v1: v@[1] },
        UniformValue::Float3(v) => Call::Uniform3f { location, v0: v@[0], v1: v@[1], v2: v@[2] },
        UniformValue::Float4(v) => Call::Uniform4f {
            location,
            v0: v@[0],
            v1: v@[1],
            v2: v@[2],
            v3: v@[3],
        },
        UniformValue::FloatV(v) => Call::Uniform1fv { location, values: v@ },
        UniformValue::Matrix4(m) => Call::UniformMatrix4fv {
            location,
            transpose: gl::FALSE,
            values: m@,
        },
        UniformValue::Unknown => arbitrary(),
    }
}

/// A name and a value, for a shader uniform.
#[derive(Clone, Debug)]
pub struct Parameter {
    name: &'static str,
    value: Variant,
}

/// The calls that apply a parameter holding `value` to the uniform that a
/// lookup gave: none when the lookup failed, and none for a value that no
/// uniform setter takes.
pub open spec fn parameter_calls(value: Variant, location: Result<i32, Error>) -> Seq<Call> {
    match location {
        Ok(loc) => match value {
            Variant::Int(v) => seq![Call::Uniform1i { location: loc, v0: v }],
            Variant::UInt(v) => seq![Call::Uniform1ui { location: loc, v0: v }],
            Variant::Float(v) => seq![Call::Uniform1f { location: loc, v0: v }],
            Variant::Float2(v) => seq![Call::Uniform2f { location: loc, v0: v@[0], v1: v@[1] }],
            Variant::Float3(v) => seq![
                Call::Uniform3f { location: loc, v0: v@[0], v1: v@[1], v2: v@[2] },
            ],
            Variant::Float4(v) => seq![
                Call::Uniform4f { location: loc, v0: v@[0], v1: v@[1], v2: v@[2], v3: v@[3] },
            ],
            Variant::FloatV(v) => seq![Call::Uniform1fv { location: loc, values: v@ }],
            Variant::Matrix4(m) => seq![
                Call::UniformMatrix4fv { location: loc, transpose: gl::FALSE, values: m@ },
            ],
            Variant::Unknown | Variant::Bool(_) => seq![],
        },
        Err(_) => seq![],
    }
}

impl Parameter {
    /// The name of the uniform.
    pub closed spec fn spec_name(&self) -> &'static str {
        self.name
    }

    /// The value of the uniform.
    pub closed spec fn spec_value(&self) -> Variant {
        self.value
    }

    /// The parameter `name` holding `value`.
    pub fn new(name: &'static str, value: Variant) -> (r: Self)
        ensures
            r.spec_name() == name,
            r.spec_value() == value,
    {
        Self { name, value }
    }

    /// Writes the value into the uniform of `prog` at `location`, the
    /// result of looking up the parameter's name in `prog`.
    pub fn apply_to(&self, ctx: &mut Context, prog: &Program, location: Result<i32, Error>)
        ensures
            final(ctx)@ == old(ctx)@ + parameter_calls(self.spec_value(), location),
    {
        match location {
            Ok(loc) => {
                match &self.value {
                    Variant::Int(v) => prog.set_uniform(ctx, loc, UniformValue::Int(*v)),
                    Variant::UInt(v) => prog.set_uniform(ctx, loc, UniformValue::UnsignedInt(*v)),
                    Variant::Float(v) => prog.set_uniform(ctx, loc, UniformValue::Float(*v)),
                    Variant::Float2(v) => prog.set_uniform(ctx, loc, UniformValue::Float2(v)),
                    Variant::Float3(v) => prog.set_uniform(ctx, loc, UniformValue::Float3(v)),
                    Variant::Float4(v) => prog.set_uniform(ctx, loc, UniformValue::Float4(v)),
                    Variant::FloatV(v) => prog.set_uniform(
                        ctx,
                        loc,
                        UniformValue::FloatV(v.as_slice()),
                    ),
                    Variant::Matrix4(m) => prog.set_uniform(ctx, loc, UniformValue::Matrix4(m)),
                    _ => {},
                }
            },
            Err(_) => {},
        }
        assert(ctx@ =~= old(ctx)@ + parameter_calls(self.spec_value(), location));
    }

    /// The name of the uniform.
    pub fn name(&self) -> (r: &'static str)
        ensures
            r == self.spec_name(),
    {
        self.name
    }

    /// The value of the uniform.
    pub fn value(&self) -> (r: &Variant)
        ensures
            *r == self.spec_value(),
    {
        &self.value
    }

    /// Renames the parameter.
    pub fn set_name(&mut self, name: &'static str)
        ensures
            final(self).spec_name() == name,
            final(self).spec_value() == old(self).spec_value(),
    {
        self.name = name;
    }

    /// Replaces the value.
    pub fn set_value(&mut self, value: Variant)
        ensures
            final(self).spec_name() == old(self).spec_name(),
            final(self).spec_value() == value,
    {
        self.value = value;
    }
}

/// A linked native program object.
#[derive(Clone, Debug, Default, PartialEq, Eq, Structural)]
pub struct Program {
    id: u32,
}

impl Program {
    /// The native name of the program.
    pub closed spec fn spec_id(&self) -> u32 {
        self.id
    }

    /// The native name of the program.
    pub fn id(&self) -> (r: u32)
        ensures
            r == self.spec_id(),
    {
        self.id
    }

    /// Starts building program `program_id`, a newly created native
    /// program, from pre-compiled `shaders`: attaches each in order and
    /// links. The link status decides the rest, see `PendingProgram::finish`.
    pub fn from_shaders(ctx: &mut Context, program_id: u32, shaders: &[Shader]) -> (r:
        PendingProgram)
        ensures
            r.spec_id() == program_id,
            r.shader_ids() == shader_ids(shaders@),
            final(ctx)@ == old(ctx)@ + attach_calls(program_id, shader_ids(shaders@)).push(
                Call::LinkProgram { program: program_id },
            ),
    {
        let ghost start = ctx@;
        let mut ids: Vec<u32> = Vec::new();
        let mut i: usize = 0;
        while i < shaders.len()
            invariant
                i <= shaders@.len(),
                ids@ == shader_ids(shaders@.subrange(0, i as int)),
                ctx@ == start + attach_calls(program_id, ids@),
            decreases shaders@.len() - i,
        {
            let id = shaders[i].id();
            ctx.issue(Command::AttachShader { program: program_id, shader: id });
            ids.push(id);
            proof {
                assert(shaders@.subrange(0, i + 1) =~= shaders@.subrange(0, i as int).push(
                    shaders@[i as int],
                ));
                assert(attach_calls(program_id, ids@) =~= attach_calls(
                    program_id,
                    ids@.drop_last(),
                ).push(Call::AttachShader { program: program_id, shader: id }));
                assert(ids@.drop_last() =~= shader_ids(shaders@.subrange(0, i as int)));
            }
            i = i + 1;
        }
        assert(shaders@.subrange(0, shaders@.len() as int) =~= shaders@);
        ctx.issue(Command::LinkProgram { program: program_id });
        PendingProgram { id: program_id, shaders: ids }
    }

    /// Associates attribute `name` with the generic attribute `location`.
    pub fn bind_attrib(&self, ctx: &mut Context, name: &str, location: u32)
        ensures
            final(ctx)@ == old(ctx)@.push(
                Call::BindAttribLocation { program: self.spec_id(), index: location, name: name@ },
            ),
    {
        let name = name.to_owned();
        ctx.issue(Command::BindAttribLocation { program: self.id, index: location, name });
    }

    /// The result of looking up an attribute: the native lookup gives -1
    /// for a name that is not an active attribute, and `error` then holds
    /// the native error code read after it.
    pub fn locate_attrib(&self, location: i32, error: Error) -> (r: Result<i32, Error>)
        ensures
            r == lookup_result(location, error),
    {
        if location == -1 {
            Err(error)
        } else {
            Ok(location)
        }
    }

    /// The result of looking up a uniform: the native lookup gives -1 for
    /// a name that is not an active uniform, and `error` then holds the
    /// native error code read after it.
    pub fn locate_uniform(&self, location: i32, error: Error) -> (r: Result<i32, Error>)
        ensures
            r == lookup_result(location, error),
    {
        if location == -1 {
            Err(error)
        } else {
            Ok(location)
        }
    }

    /// Deletes the native program.
    pub fn delete(self, ctx: &mut Context)
        ensures
            final(ctx)@ == old(ctx)@.push(Call::DeleteProgram { program: self.spec_id() }),
    {
        ctx.issue(Command::DeleteProgram { program: self.id });
    }

    /// Writes `value` into the uniform at `location` with the one setter
    /// that its shape calls for.
    pub fn set_uniform(&self, ctx: &mut Context, location: i32, value: UniformValue)
        requires
            !(value is Unknown),
        ensures
            final(ctx)@ == old(ctx)@.push(uniform_call(location, value)),
    {
        match value {
            UniformValue::Int(v) => ctx.issue(Command::Uniform1i { location, v0: v }),
            UniformValue::UnsignedInt(v) => ctx.issue(Command::Uniform1ui { location, v0: v }),
            UniformValue::Float(v) => ctx.issue(Command::Uniform1f { location, v0: v }),
            UniformValue::Float2(v) => ctx.issue(
                Command::Uniform2f { location, v0: v[0], v1: v[1] },
            ),
            UniformValue::Float3(v) => ctx.issue(
                Command::Uniform3f { location, v0: v[0], v1: v[1], v2: v[2] },
            ),
            UniformValue::Float4(v) => ctx.issue(
                Command::Uniform4f { location, v0: v[0], v1: v[1], v2: v[2], v3: v[3] },
            ),
            UniformValue::FloatV(v) => {
                let values = vstd::slice::slice_to_vec(v);
                ctx.issue(Command::Uniform1fv { location, values });
            },
            UniformValue::Matrix4(m) => {
                let values = vstd::slice::slice_to_vec(m.as_slice());
                ctx.issue(Command::UniformMatrix4fv { location, transpose: gl::FALSE, values });
            },
            // Excluded by the precondition: there is no setter for it.
            UniformValue::Unknown => {},
        }
    }
}

impl Bindable for Program {
    open spec fn bind_calls(&self) -> Seq<Call> {
        seq![Call::UseProgram { program: self.spec_id() }]
    }

    open spec fn bind_at_calls(&self, slot: u32) -> Seq<Call> {
        self.bind_calls()
    }

    /// Releasing makes no program current.
    open spec fn unbind_calls(&self) -> Seq<Call> {
        seq![Call::UseProgram { program: 0 }]
    }

    open spec fn unbind_at_calls(&self, slot: u32) -> Seq<Call> {
        self.unbind_calls()
    }

    fn bind(&self, ctx: &mut Context) {
        ctx.issue(Command::UseProgram { program: self.id });
    }

    fn bind_at(&self, ctx: &mut Context, slot: u32) {
        self.bind(ctx);
    }

    fn unbind(&self, ctx: &mut Context) {
        ctx.issue(Command::UseProgram { program: 0 });
    }

    fn unbind_at(&self, ctx: &mut Context, slot: u32) {
        self.unbind(ctx);
    }
}

/// The native names of `shaders`, in order.
pub open spec fn shader_ids(shaders: Seq<Shader>) -> Seq<u32> {
    shaders.map_values(|s: Shader| s.spec_id())
}

/// Attaching each of `shaders` to `program`, in order.
pub open spec fn attach_calls(program: u32, shaders: Seq<u32>) -> Seq<Call> {
    shaders.map_values(|s: u32| Call::AttachShader { program, shader: s })
}

/// Detaching each of `shaders` from `program`, in order.
pub open spec fn detach_calls(program: u32, shaders: Seq<u32>) -> Seq<Call> {
    shaders.map_values(|s: u32| Call::DetachShader { program, shader: s })
}

/// A location lookup's result: the sentinel -1 becomes `error`.
pub open spec fn lookup_result(location: i32, error: Error) -> Result<i32, Error> {
    if location == -1 {
        Err(error)
    } else {
        Ok(location)
    }
}

/// A program whose shaders are attached and whose link was asked for.
pub struct PendingProgram {
    id: u32,
    shaders: Vec<u32>,
}

impl PendingProgram {
    /// The native name of the program.
    pub closed spec fn spec_id(&self) -> u32 {
        self.id
    }

    /// The native names of the attached shaders, in order.
    pub closed spec fn shader_ids(&self) -> Seq<u32> {
        self.shaders@
    }

    /// Completes the build once the native link status is known: a status
    /// of 0 is a failed link, which gives `info_log`; otherwise every shader
    /// is detached, in order, and the program is made current.
    pub fn finish(self, ctx: &mut Context, link_status: i32, info_log: String) -> (r: Result<
        Program,
        String,
    >)
        ensures
            link_status == 0 ==> r == Err::<Program, String>(info_log) && final(ctx)@ == old(ctx)@,
            link_status != 0 ==> {
                &&& r is Ok
                &&& r->Ok_0.spec_id() == self.spec_id()
                &&& final(ctx)@ == old(ctx)@ + detach_calls(self.spec_id(), self.shader_ids()).push(
                    Call::UseProgram { program: self.spec_id() },
                )
            },
    {
        if link_status == 0 {
            return Err(info_log);
        }
        let ghost start = ctx@;
        let mut i: usize = 0;
        while i < self.shaders.len()
            invariant
                i <= self.shaders@.len(),
                ctx@ == start + detach_calls(self.id, self.shaders@.subrange(0, i as int)),
            decreases self.shaders@.len() - i,
        {
            ctx.issue(Command::DetachShader { program: self.id, shader: self.shaders[i] });
            proof {
                assert(detach_calls(self.id, self.shaders@.subrange(0, i + 1)) =~= detach_calls(
                    self.id,
                    self.shaders@.subrange(0, i as int),
                ).push(Call::DetachShader { program: self.id, shader: self.shaders@[i as int] }));
            }
            i = i + 1;
        }
        assert(self.shaders@.subrange(0, self.shaders@.len() as int) =~= self.shaders@);
        ctx.issue(Command::UseProgram { program: self.id });
        Ok(Program { id: self.id })
    }
}

/// A compiled native shader object.
#[derive(Clone, Debug, Default, PartialEq, Eq, Structural)]
pub struct Shader {
    id: u32,
}

impl Shader {
    /// The native name of the shader.
    pub closed spec fn spec_id(&self) -> u32 {
        self.id
    }

    /// The native name of the shader.
    pub fn id(&self) -> (r: u32)
        ensures
            r == self.spec_id(),
    {
        self.id
    }

    /// The kind of shader a file holds, told by the end of its path:
    /// `.vs`, `.vert`, `vs.glsl` or `vert.glsl` for a vertex shader, `.fs`,
    /// `.frag`, `fs.glsl` or `frag.glsl` for a fragment shader.
    pub fn detect_kind(path: &str) -> (r: Result<u32, String>)
        ensures
            is_vertex_path(path) ==> r == Ok::<u32, String>(gl::VERTEX_SHADER),
            !is_vertex_path(path) && is_fragment_path(path) ==> r == Ok::<u32, String>(
                gl::FRAGMENT_SHADER,
            ),
            !is_vertex_path(path) && !is_fragment_path(path) ==> r is Err && r->Err_0@
                == unknown_kind_message(path@),
    {
        if ends_with(path, ".vs") || ends_with(path, ".vert") || ends_with(path, "vs.glsl")
            || ends_with(path, "vert.glsl") {
            return Ok(gl::VERTEX_SHADER);
        }
        if ends_with(path, ".fs") || ends_with(path, ".frag") || ends_with(path, "fs.glsl")
            || ends_with(path, "frag.glsl") {
            return Ok(gl::FRAGMENT_SHADER);
        }
        let mut message = String::from_str("Unknown Shader Type: ");
        message.append(path);
        message.append("!");
        Err(message)
    }

    /// Starts compiling `source` into `id`, a newly created native shader.
    /// The compile status decides the rest, see `PendingShader::finish`.
    pub fn from_source(ctx: &mut Context, id: u32, source: &str) -> (r: PendingShader)
        ensures
            r.spec_id() == id,
            final(ctx)@ == old(ctx)@ + seq![
                Call::ShaderSource { shader: id, source: source@ },
                Call::CompileShader { shader: id },
            ],
    {
        let text = source.to_owned();
        ctx.issue(Command::ShaderSource { shader: id, source: text });
        ctx.issue(Command::CompileShader { shader: id });
        assert(ctx@ =~= old(ctx)@ + seq![
            Call::ShaderSource { shader: id, source: source@ },
            Call::CompileShader { shader: id },
        ]);
        PendingShader { id }
    }

    /// Starts compiling the source held in `bytes` into `id`; invalid UTF-8
    /// sequences become replacement characters.
    pub fn from_bytes(ctx: &mut Context, id: u32, bytes: &[u8]) -> (r: PendingShader)
        ensures
            r.spec_id() == id,
            final(ctx)@ == old(ctx)@ + seq![
                Call::ShaderSource { shader: id, source: utf8_lossy(bytes@) },
                Call::CompileShader { shader: id },
            ],
    {
        let source = decode_lossy(bytes);
        Self::from_source(ctx, id, source.as_str())
    }

    /// Deletes the native shader.
    pub fn delete(self, ctx: &mut Context)
        ensures
            final(ctx)@ == old(ctx)@.push(Call::DeleteShader { shader: self.spec_id() }),
    {
        ctx.issue(Command::DeleteShader { shader: self.id });
    }
}

/// Whether the bytes of `s` end with the bytes of `suffix`.
pub open spec fn has_suffix(s: &str, suffix: &str) -> bool {
    let b = s.spec_bytes();
    let x = suffix.spec_bytes();
    x.len() <= b.len() && b.subrange(b.len() - x.len(), b.len() as int) == x
}

/// Whether `path` names a vertex shader file.
pub open spec fn is_vertex_path(path: &str) -> bool {
    has_suffix(path, ".vs") || has_suffix(path, ".vert") || has_suffix(path, "vs.glsl")
        || has_suffix(path, "vert.glsl")
}

/// Whether `path` names a fragment shader file.
pub open spec fn is_fragment_path(path: &str) -> bool {
    has_suffix(path, ".fs") || has_suffix(path, ".frag") || has_suffix(path, "fs.glsl")
        || has_suffix(path, "frag.glsl")
}

/// The message for a path of no known shader kind.
pub open spec fn unknown_kind_message(path: Seq<char>) -> Seq<char> {
    "Unknown Shader Type: "@ + path + "!"@
}

fn ends_with(s: &str, suffix: &str) -> (r: bool)
    ensures
        r == has_suffix(s, suffix),
{
    let b = s.as_bytes();
    let x = suffix.as_bytes();
    if x.len() > b.len() {
        return false;
    }
    let start = b.len() - x.len();
    let mut i: usize = 0;
    while i < x.len()
        invariant
            b@ == s.spec_bytes(),
            x@ == suffix.spec_bytes(),
            x@.len() <= b@.len() <= usize::MAX,
            start == b@.len() - x@.len(),
            i <= x@.len(),
            forall|j: int| 0 <= j < i ==> b@[start + j] == x@[j],
        decreases x@.len() - i,
    {
        if b[start + i] != x[i] {
            assert(b@.subrange(start as int, b@.len() as int)[i as int] != x@[i as int]);
            return false;
        }
        i = i + 1;
    }
    assert(b@.subrange(start as int, b@.len() as int) =~= x@);
    true
}

/// What decoding `bytes` as UTF-8 gives when every invalid sequence is
/// replaced by U+FFFD.
pub uninterp spec fn utf8_lossy(bytes: Seq<u8>) -> Seq<char>;

/// Relies on `String::from_utf8_lossy`: the text of `bytes`, with invalid
/// sequences replaced; valid UTF-8 decodes unchanged.
#[verifier::external_body]
fn decode_lossy(bytes: &[u8]) -> (r: String)
    ensures
        r@ == utf8_lossy(bytes@),
        vstd::utf8::valid_utf8(bytes@) ==> r@ == vstd::utf8::decode_utf8(bytes@),
{
    String::from_utf8_lossy(bytes).into_owned()
}

/// A shader whose source was handed to the compiler.
pub struct PendingShader {
    id: u32,
}

impl PendingShader {
    /// The native name of the shader.
    pub closed spec fn spec_id(&self) -> u32 {
        self.id
    }

    /// Completes the build once the native compile status is known: a
    /// status of 0 is a failed compile, which gives `info_log`.
    pub fn finish(self, compile_status: i32, info_log: String) -> (r: Result<Shader, String>)
        ensures
            compile_status == 0 ==> r == Err::<Shader, String>(info_log),
            compile_status != 0 ==> r is Ok && r->Ok_0.spec_id() == self.spec_id(),
    {
        if compile_status == 0 {
            Err(info_log)
        } else {
            Ok(Shader { id: self.id })
        }
    }
}

/// Writing a uniform loses nothing: two values that give the same call at
/// the same location are the same value, so the call carries the kind of
/// the value and each of its components, in order.
pub proof fn uniform_call_is_lossless(location: i32, a: UniformValue, b: UniformValue)
    requires
        !(a is Unknown),
        !(b is Unknown),
        uniform_call(location, a) == uniform_call(location, b),
    ensures
        a == b,
{
    broadcast use vstd::array::group_array_axioms, vstd::slice::group_slice_axioms;

    match a {
        UniformValue::Float2(x) => {
            let y = b->Float2_0;
            assert(*x =~= *y);
        },
        UniformValue::Float3(x) => {
            let y = b->Float3_0;
            assert(*x =~= *y);
        },
        UniformValue::Float4(x) => {
            let y = b->Float4_0;
            assert(*x =~= *y);
        },
        UniformValue::FloatV(x) => {
            let y = b->FloatV_0;
            assert(x =~= y);
        },
        UniformValue::Matrix4(x) => {
            let y = b->Matrix4_0;
            assert(*x =~= *y);
        },
        _ => {},
    }
}

} // verus!
