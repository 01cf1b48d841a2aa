use glplus::{
    AutoBinder, Bindable, Binding, Buffer, ClearBuffers, ColorBuffer, Command, Context, Program,
    SlotBinder, Texture, TextureLoadOptions, VertexArray, VertexAttrib, Viewport,
};

const ARRAY_BUFFER: u32 = 0x8892;
const TEXTURE_2D: u32 = 0x0DE1;
const TEXTURE0: u32 = 0x84C0;

fn program(ctx: &mut Context, id: u32) -> Program {
    glplus::Program::from_shaders(ctx, id, &[]).finish(ctx, 1, String::new()).unwrap()
}

fn texture(ctx: &mut Context, id: u32) -> Texture {
    Texture::load(ctx, id, TextureLoadOptions::default()).unwrap()
}

#[test]
fn guard_over_three_resources_nests() {
    let mut ctx = Context::new();
    let a = Buffer::new_array(&mut ctx, 7);
    let b = VertexArray::new(8);
    let c = program(&mut ctx, 9);
    ctx.take_commands();
    let items = [Binding::Buffer(&a), Binding::VertexArray(&b), Binding::Program(&c)];
    let guard = AutoBinder::new(&mut ctx, items.iter().collect());
    assert_eq!(
        ctx.take_commands(),
        vec![
            Command::BindBuffer { target: ARRAY_BUFFER, buffer: 7 },
            Command::BindVertexArray { array: 8 },
            Command::UseProgram { program: 9 },
        ]
    );
    guard.release(&mut ctx);
    assert_eq!(
        ctx.take_commands(),
        vec![
            Command::UseProgram { program: 0 },
            Command::BindVertexArray { array: 0 },
            Command::BindBuffer { target: ARRAY_BUFFER, buffer: 0 },
        ]
    );
}

#[test]
fn guard_over_four_buffers_releases_in_reverse() {
    let mut ctx = Context::new();
    let buffers: Vec<Buffer> = (1..=4u32).map(|i| Buffer::new(&mut ctx, 100 + i, i)).collect();
    ctx.take_commands();
    let guard = AutoBinder::new(&mut ctx, buffers.iter().collect());
    let bound: Vec<Command> =
        (1..=4u32).map(|i| Command::BindBuffer { target: 100 + i, buffer: i }).collect();
    assert_eq!(ctx.take_commands(), bound);
    guard.release(&mut ctx);
    let released: Vec<Command> =
        (1..=4u32).rev().map(|i| Command::BindBuffer { target: 100 + i, buffer: 0 }).collect();
    assert_eq!(ctx.take_commands(), released);
}

#[test]
fn guard_over_nothing_issues_nothing() {
    let mut ctx = Context::new();
    let guard: AutoBinder<Buffer> = AutoBinder::new(&mut ctx, Vec::new());
    assert_eq!(ctx.len(), 0);
    guard.release(&mut ctx);
    assert!(ctx.commands().is_empty());
}

#[test]
fn slot_binder_binds_at_its_slot() {
    let mut ctx = Context::new();
    let tex = texture(&mut ctx, 5);
    ctx.take_commands();
    let slot = SlotBinder::new(&tex, 3);
    slot.bind(&mut ctx);
    assert_eq!(
        ctx.take_commands(),
        vec![
            Command::ActiveTexture { texture: TEXTURE0 + 3 },
            Command::BindTexture { target: TEXTURE_2D, texture: 5 },
        ]
    );
    slot.unbind(&mut ctx);
    assert_eq!(ctx.take_commands(), vec![Command::BindTexture { target: TEXTURE_2D, texture: 0 }]);
}

#[test]
fn slot_binder_explicit_slot_wins() {
    let mut ctx = Context::new();
    let tex = texture(&mut ctx, 5);
    ctx.take_commands();
    let slot = SlotBinder::new(&tex, 3);
    slot.bind_at(&mut ctx, 1);
    assert_eq!(
        ctx.take_commands(),
        vec![
            Command::ActiveTexture { texture: TEXTURE0 + 1 },
            Command::BindTexture { target: TEXTURE_2D, texture: 5 },
        ]
    );
}

#[test]
fn texture_unit_wraps_around() {
    let mut ctx = Context::new();
    let tex = texture(&mut ctx, 5);
    ctx.take_commands();
    tex.bind_at(&mut ctx, u32::MAX);
    assert_eq!(
        ctx.commands()[0],
        Command::ActiveTexture { texture: TEXTURE0.wrapping_add(u32::MAX) }
    );
    tex.unbind_at(&mut ctx, 2);
    assert_eq!(
        ctx.take_commands()[2..].to_vec(),
        vec![
            Command::BindTexture { target: TEXTURE_2D, texture: 0 },
            Command::ActiveTexture { texture: TEXTURE0 },
        ]
    );
}

#[test]
fn mixed_guard_with_slot_binder() {
    let mut ctx = Context::new();
    let tex = texture(&mut ctx, 4);
    let vp = Viewport::with_size(640, 480);
    ctx.take_commands();
    let items = [Binding::Viewport(&vp), Binding::TextureSlot(SlotBinder::new(&tex, 2))];
    let guard = AutoBinder::new(&mut ctx, items.iter().collect());
    assert_eq!(
        ctx.take_commands(),
        vec![
            Command::Viewport { x: 0, y: 0, width: 640, height: 480 },
            Command::ActiveTexture { texture: TEXTURE0 + 2 },
            Command::BindTexture { target: TEXTURE_2D, texture: 4 },
        ]
    );
    guard.release(&mut ctx);
    assert_eq!(ctx.take_commands(), vec![Command::BindTexture { target: TEXTURE_2D, texture: 0 }]);
}

#[test]
fn viewport_without_area_binds_nothing() {
    let mut ctx = Context::new();
    Viewport::with_size(0, 480).bind(&mut ctx);
    Viewport::with_size(-3, 4).bind(&mut ctx);
    assert_eq!(ctx.len(), 0);
    Viewport::with_offset(1, 2, -3, -4).bind(&mut ctx);
    assert_eq!(
        ctx.take_commands(),
        vec![Command::Viewport { x: 1, y: 2, width: -3, height: -4 }]
    );
}

#[test]
fn viewport_accessors() {
    let mut vp = Viewport::with_offset(1, 2, 3, 4);
    assert_eq!(vp.get_offset(), (1, 2));
    assert_eq!(vp.get_size(), (3, 4));
    vp.set_offset(5, 6);
    vp.set_size(7, 8);
    assert_eq!(vp, Viewport { x: 5, y: 6, w: 7, h: 8 });
}

#[test]
fn vertex_attrib_binds_and_releases() {
    let mut ctx = Context::new();
    let attr = VertexAttrib::new(2, 3, 0x1406, 0, 12, 4);
    attr.bind(&mut ctx);
    attr.unbind(&mut ctx);
    assert_eq!(
        ctx.take_commands(),
        vec![
            Command::EnableVertexAttribArray { index: 2 },
            Command::VertexAttribPointer {
                index: 2,
                size: 3,
                data_type: 0x1406,
                normalized: 0,
                stride: 12,
                offset: 4,
            },
            Command::DisableVertexAttribArray { index: 2 },
        ]
    );
}

#[test]
fn vertex_array_attribs() {
    let mut ctx = Context::new();
    let vao = VertexArray::new(11);
    let attr = VertexAttrib::new(0, 2, 0x1406, 1, 8, 0);
    vao.enable_attrib(&mut ctx, &attr);
    assert_eq!(ctx.len(), 2);
    ctx.take_commands();
    vao.disable_attrib(&mut ctx, &attr);
    assert_eq!(
        ctx.take_commands(),
        vec![
            Command::DisableVertexAttribArray { index: 0 },
            Command::DeleteVertexArray { array: 11 },
        ]
    );
}

#[test]
fn clear_buffers_clears_what_is_set() {
    let mut ctx = Context::new();
    let one = 1.0f32.to_bits();
    let clear = ClearBuffers::new().with_color(Some([0, 0, 0, one])).with_stencil(Some(7));
    clear.bind(&mut ctx);
    assert_eq!(
        ctx.take_commands(),
        vec![
            Command::ClearColor { red: 0, green: 0, blue: 0, alpha: one },
            Command::ClearStencil { stencil: 7 },
            Command::Clear { mask: 0x4000 | 0x400 },
        ]
    );
    let mut clear = ClearBuffers::new();
    clear.bind(&mut ctx);
    assert_eq!(ctx.len(), 0);
    clear.set_depth(one);
    clear.bind(&mut ctx);
    assert_eq!(
        ctx.take_commands(),
        vec![Command::ClearDepthf { depth: one }, Command::Clear { mask: 0x100 }]
    );
}

#[test]
fn color_buffer_clears_once_a_color_is_set() {
    let mut ctx = Context::new();
    let mut color = ColorBuffer::new();
    color.bind(&mut ctx);
    assert_eq!(ctx.len(), 0);
    let half = 0.5f32.to_bits();
    color.set_clear_color([half, half, half, half]);
    color.set_clear_color([half, half, half, 0]);
    Binding::ColorBuffer(&color).bind(&mut ctx);
    color.set_default_blend_func(&mut ctx);
    color.enable_blend(&mut ctx);
    color.disable_blend(&mut ctx);
    color.clear(&mut ctx);
    assert_eq!(
        ctx.take_commands(),
        vec![
            Command::ClearColor { red: half, green: half, blue: half, alpha: 0 },
            Command::Clear { mask: 0x4000 },
            Command::BlendFunc { sfactor: 0x0302, dfactor: 0x0303 },
            Command::Enable { cap: 0x0BE2 },
            Command::Disable { cap: 0x0BE2 },
            Command::Clear { mask: 0x4000 },
        ]
    );
}
