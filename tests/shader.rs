use glplus::{Command, Context, Error, Parameter, Program, Shader, UniformValue, Variant};

const VERTEX_SHADER: u32 = 0x8B31;
const FRAGMENT_SHADER: u32 = 0x8B30;

fn bits(v: &[f32]) -> Vec<u32> {
    v.iter().map(|f| f.to_bits()).collect()
}

fn program(ctx: &mut Context) -> Program {
    Program::from_shaders(ctx, 3, &[]).finish(ctx, 1, String::new()).unwrap()
}

#[test]
fn each_uniform_value_makes_one_setter_call() {
    let mut ctx = Context::new();
    let prog = program(&mut ctx);
    ctx.take_commands();
    let v2 = [1.5f32.to_bits(), 2.5f32.to_bits()];
    let v3 = [1.0f32.to_bits(), 2.0f32.to_bits(), 3.0f32.to_bits()];
    let v4 = [4.0f32.to_bits(), 3.0f32.to_bits(), 2.0f32.to_bits(), 1.0f32.to_bits()];
    let fv = bits(&[0.25, 0.5, 0.75]);
    let mut m = [0u32; 16];
    for (i, x) in m.iter_mut().enumerate() {
        *x = (i as f32).to_bits();
    }
    prog.set_uniform(&mut ctx, 1, UniformValue::Int(-4));
    prog.set_uniform(&mut ctx, 2, UniformValue::UnsignedInt(9));
    prog.set_uniform(&mut ctx, 3, UniformValue::Float(0.5f32.to_bits()));
    prog.set_uniform(&mut ctx, 4, UniformValue::Float2(&v2));
    prog.set_uniform(&mut ctx, 5, UniformValue::Float3(&v3));
    prog.set_uniform(&mut ctx, 6, UniformValue::Float4(&v4));
    prog.set_uniform(&mut ctx, 7, UniformValue::FloatV(&fv));
    prog.set_uniform(&mut ctx, 8, UniformValue::Matrix4(&m));
    assert_eq!(
        ctx.take_commands(),
        vec![
            Command::Uniform1i { location: 1, v0: -4 },
            Command::Uniform1ui { location: 2, v0: 9 },
            Command::Uniform1f { location: 3, v0: 0.5f32.to_bits() },
            Command::Uniform2f { location: 4, v0: 1.5f32.to_bits(), v1: 2.5f32.to_bits() },
            Command::Uniform3f {
                location: 5,
                v0: 1.0f32.to_bits(),
                v1: 2.0f32.to_bits(),
                v2: 3.0f32.to_bits(),
            },
            Command::Uniform4f {
                location: 6,
                v0: 4.0f32.to_bits(),
                v1: 3.0f32.to_bits(),
                v2: 2.0f32.to_bits(),
                v3: 1.0f32.to_bits(),
            },
            Command::Uniform1fv { location: 7, values: fv.clone() },
            Command::UniformMatrix4fv { location: 8, transpose: 0, values: m.to_vec() },
        ]
    );
}

#[test]
fn parameter_applies_through_a_found_location() {
    let mut ctx = Context::new();
    let prog = program(&mut ctx);
    ctx.take_commands();
    let v3 = [1u32, 2, 3];
    let param = Parameter::new("light", Variant::Float3(v3));
    param.apply_to(&mut ctx, &prog, prog.locate_uniform(12, Error::new(0)));
    assert_eq!(
        ctx.take_commands(),
        vec![Command::Uniform3f { location: 12, v0: 1, v1: 2, v2: 3 }]
    );
    param.apply_to(&mut ctx, &prog, prog.locate_uniform(-1, Error::new(0x0502)));
    assert_eq!(ctx.len(), 0);
    Parameter::new("flag", Variant::Bool(1)).apply_to(&mut ctx, &prog, Ok(2));
    Parameter::new("none", Variant::Unknown).apply_to(&mut ctx, &prog, Ok(2));
    assert_eq!(ctx.len(), 0);
    Parameter::new("n", Variant::UInt(5)).apply_to(&mut ctx, &prog, Ok(2));
    assert_eq!(ctx.take_commands(), vec![Command::Uniform1ui { location: 2, v0: 5 }]);
}

#[test]
fn parameter_accessors() {
    let mut param = Parameter::new("a", Variant::Int(1));
    assert_eq!(param.name(), "a");
    assert_eq!(param.value(), &Variant::Int(1));
    param.set_name("b");
    param.set_value(Variant::FloatV(vec![1, 2]));
    assert_eq!(param.name(), "b");
    assert_eq!(param.value(), &Variant::FloatV(vec![1, 2]));
}

#[test]
fn lookups_turn_the_sentinel_into_an_error() {
    let mut ctx = Context::new();
    let prog = program(&mut ctx);
    assert_eq!(prog.locate_uniform(0, Error::new(0)), Ok(0));
    assert_eq!(prog.locate_attrib(3, Error::new(0)), Ok(3));
    assert_eq!(prog.locate_attrib(-1, Error::new(0x0501)), Err(Error::new(0x0501)));
    assert_eq!(prog.locate_uniform(-1, Error::new(0x0502)), Err(Error::new(0x0502)));
}

#[test]
fn detect_kind_by_suffix() {
    for p in ["a.vs", "b.vert", "dir/basic_vs.glsl", "vert.glsl"] {
        assert_eq!(Shader::detect_kind(p), Ok(VERTEX_SHADER), "{}", p);
    }
    for p in ["a.fs", "b.frag", "x_fs.glsl", "shaders/frag.glsl"] {
        assert_eq!(Shader::detect_kind(p), Ok(FRAGMENT_SHADER), "{}", p);
    }
    assert_eq!(
        Shader::detect_kind("main.glsl"),
        Err("Unknown Shader Type: main.glsl!".to_string())
    );
    assert_eq!(Shader::detect_kind(""), Err("Unknown Shader Type: !".to_string()));
    assert_eq!(Shader::detect_kind("vs"), Err("Unknown Shader Type: vs!".to_string()));
}

#[test]
fn shader_compile_outcomes() {
    let mut ctx = Context::new();
    let pending = Shader::from_source(&mut ctx, 4, "void main() {}");
    assert_eq!(
        ctx.take_commands(),
        vec![
            Command::ShaderSource { shader: 4, source: "void main() {}".to_string() },
            Command::CompileShader { shader: 4 },
        ]
    );
    let shader = pending.finish(1, String::new()).unwrap();
    assert_eq!(shader.id(), 4);
    let failed = Shader::from_source(&mut ctx, 5, "bad").finish(0, "error: bad".to_string());
    assert_eq!(failed, Err("error: bad".to_string()));
}

#[test]
fn shader_from_bytes_replaces_invalid_utf8() {
    let mut ctx = Context::new();
    Shader::from_bytes(&mut ctx, 6, b"ok\xFFend");
    assert_eq!(
        ctx.commands()[0],
        Command::ShaderSource { shader: 6, source: "ok\u{FFFD}end".to_string() }
    );
    ctx.take_commands();
    Shader::from_bytes(&mut ctx, 6, "µ".as_bytes());
    assert_eq!(ctx.commands()[0], Command::ShaderSource { shader: 6, source: "µ".to_string() });
}

#[test]
fn program_link_outcomes() {
    let mut ctx = Context::new();
    let a = Shader::from_source(&mut ctx, 1, "a").finish(1, String::new()).unwrap();
    let b = Shader::from_source(&mut ctx, 2, "b").finish(1, String::new()).unwrap();
    ctx.take_commands();
    let pending = Program::from_shaders(&mut ctx, 10, &[a.clone(), b.clone()]);
    assert_eq!(
        ctx.take_commands(),
        vec![
            Command::AttachShader { program: 10, shader: 1 },
            Command::AttachShader { program: 10, shader: 2 },
            Command::LinkProgram { program: 10 },
        ]
    );
    let prog = pending.finish(&mut ctx, 1, String::new()).unwrap();
    assert_eq!(prog.id(), 10);
    assert_eq!(
        ctx.take_commands(),
        vec![
            Command::DetachShader { program: 10, shader: 1 },
            Command::DetachShader { program: 10, shader: 2 },
            Command::UseProgram { program: 10 },
        ]
    );
    let pending = Program::from_shaders(&mut ctx, 11, &[a, b]);
    ctx.take_commands();
    let failed = pending.finish(&mut ctx, 0, "link failed".to_string());
    assert_eq!(failed, Err("link failed".to_string()));
    assert_eq!(ctx.len(), 0);
}

#[test]
fn program_attrib_and_delete() {
    let mut ctx = Context::new();
    let prog = program(&mut ctx);
    ctx.take_commands();
    prog.bind_attrib(&mut ctx, "position", 0);
    prog.delete(&mut ctx);
    assert_eq!(
        ctx.take_commands(),
        vec![
            Command::BindAttribLocation { program: 3, index: 0, name: "position".to_string() },
            Command::DeleteProgram { program: 3 },
        ]
    );
}
