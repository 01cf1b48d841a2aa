use glplus::{
    Bindable, Buffer, Command, Context, Framebuffer, FramebufferObject, Texture, TextureFilter,
    TextureFormat, TextureLoadOptions, TextureLoader, TextureTarget, TextureTexel, TextureWrap,
};

const TEXTURE_2D: u32 = 0x0DE1;
const TEXTURE_3D: u32 = 0x806F;
const FRAMEBUFFER: u32 = 0x8D40;

fn param(target: u32, pname: u32, value: u32) -> Command {
    Command::TexParameteri { target, pname, param: value as i32 }
}

#[test]
fn buffer_creation_binds() {
    let mut ctx = Context::new();
    let a = Buffer::new_array(&mut ctx, 1);
    let e = Buffer::new_element_array(&mut ctx, 2);
    let d = Buffer::new_draw_indirect(&mut ctx, 3);
    assert_eq!((a.id(), e.id(), d.id()), (1, 2, 3));
    assert_eq!(
        ctx.take_commands(),
        vec![
            Command::BindBuffer { target: 0x8892, buffer: 1 },
            Command::BindBuffer { target: 0x8893, buffer: 2 },
            Command::BindBuffer { target: 0x8F3F, buffer: 3 },
        ]
    );
}

#[test]
fn buffer_data_calls() {
    let mut ctx = Context::new();
    let buf = Buffer::new(&mut ctx, 0x8892, 4);
    ctx.take_commands();
    buf.static_draw_data(&mut ctx, &[1, 2, 3]);
    buf.stream_draw_data(&mut ctx, &[4]);
    buf.stream_draw_data_null::<f32>(&mut ctx, 10);
    buf.update(&mut ctx, &[9, 9]);
    buf.update_partial(&mut ctx, 8, &[7]);
    buf.delete(&mut ctx);
    assert_eq!(
        ctx.take_commands(),
        vec![
            Command::BufferData {
                target: 0x8892,
                size: -1,
                data: Some(vec![1, 2, 3]),
                usage: 0x88E4,
            },
            Command::BufferData { target: 0x8892, size: -1, data: Some(vec![4]), usage: 0x88E0 },
            Command::BufferData { target: 0x8892, size: 40, data: None, usage: 0x88E0 },
            Command::BufferSubData { target: 0x8892, offset: 0, data: vec![9, 9] },
            Command::BufferSubData { target: 0x8892, offset: 8, data: vec![7] },
            Command::DeleteBuffer { buffer: 4 },
        ]
    );
}

#[test]
fn largest_uninitialised_store() {
    let mut ctx = Context::new();
    let buf = Buffer::new(&mut ctx, 0x8892, 1);
    ctx.take_commands();
    buf.stream_draw_data_null::<u8>(&mut ctx, isize::MAX as usize);
    buf.stream_draw_data_null::<[f32; 4]>(&mut ctx, 0);
    assert_eq!(
        ctx.take_commands(),
        vec![
            Command::BufferData { target: 0x8892, size: isize::MAX, data: None, usage: 0x88E0 },
            Command::BufferData { target: 0x8892, size: 0, data: None, usage: 0x88E0 },
        ]
    );
}

#[test]
fn texture_load_with_defaults() {
    let mut ctx = Context::new();
    let tex = Texture::load(&mut ctx, 3, TextureLoadOptions::default()).unwrap();
    assert_eq!(tex.id(), 3);
    assert_eq!(tex.target(), TextureTarget::Texture2D);
    assert_eq!(
        ctx.take_commands(),
        vec![
            Command::BindTexture { target: TEXTURE_2D, texture: 3 },
            param(TEXTURE_2D, 0x2801, 0x2600),
            param(TEXTURE_2D, 0x2800, 0x2600),
            param(TEXTURE_2D, 0x2802, 0x812F),
            param(TEXTURE_2D, 0x2803, 0x812F),
        ]
    );
}

#[test]
fn texture_load_from_rgb_bytes() {
    let mut ctx = Context::new();
    let pixels = [255u8, 0, 0, 0, 255, 0];
    let options = TextureLoadOptions::from_bytes_rgb(&pixels, 2, 1);
    Texture::load(&mut ctx, 1, options).unwrap();
    let calls = ctx.take_commands();
    assert_eq!(calls.len(), 6);
    assert_eq!(
        calls[5],
        Command::TexImage2D {
            target: TEXTURE_2D,
            level: 0,
            internal_format: 0x8051,
            width: 2,
            height: 1,
            border: 0,
            format: 0x1907,
            texel: 0x1401,
            data: Some(pixels.to_vec()),
        }
    );
    let rgba = TextureLoadOptions::from_bytes_rgba(&pixels, 1, 1);
    assert_eq!(rgba.internal_format, TextureFormat::Rgba);
    assert_eq!(rgba.format, TextureFormat::Rgba);
}

#[test]
fn texture_loader_builds_options() {
    let mut ctx = Context::new();
    let mut loader = TextureLoader::default();
    loader
        .with_3d()
        .with_size(4, 2)
        .with_internal_format(TextureFormat::R8)
        .with_format(TextureFormat::Red)
        .with_texel(TextureTexel::F32)
        .with_min_linear()
        .with_mag_nearest()
        .with_gen_mipmaps()
        .with_allocate_storage();
    let tex = loader.load(&mut ctx, 9).unwrap();
    assert_eq!(tex.target(), TextureTarget::Texture3D);
    assert_eq!(
        ctx.take_commands(),
        vec![
            Command::BindTexture { target: TEXTURE_3D, texture: 9 },
            param(TEXTURE_3D, 0x2801, 0x2601),
            param(TEXTURE_3D, 0x2800, 0x2600),
            param(TEXTURE_3D, 0x2802, 0x812F),
            param(TEXTURE_3D, 0x2803, 0x812F),
            Command::TexImage2D {
                target: TEXTURE_3D,
                level: 0,
                internal_format: 0x8229,
                width: 4,
                height: 2,
                border: 0,
                format: 0x1903,
                texel: 0x1406,
                data: None,
            },
            Command::GenerateMipmap { target: TEXTURE_3D },
        ]
    );
}

#[test]
fn texture_loader_filter_shortcuts() {
    let mut loader = TextureLoader::default();
    loader.with_linear();
    assert_eq!(loader.options.min_filter, TextureFilter::Linear);
    assert_eq!(loader.options.mag_filter, TextureFilter::Linear);
    loader.with_nearest().with_min_nearest().with_mag_linear().with_2d();
    assert_eq!(loader.options.min_filter, TextureFilter::Nearest);
    assert_eq!(loader.options.mag_filter, TextureFilter::Linear);
    let pixels = [1u8];
    loader.with_bytes(&pixels).with_egl_image(42);
    assert_eq!(loader.options.target, TextureTarget::TextureExternalOES);
    assert_eq!(loader.options.egl_image, Some(42));
}

#[test]
fn texture_parameters() {
    let mut ctx = Context::new();
    let tex = Texture::load(&mut ctx, 2, TextureLoadOptions::default()).unwrap();
    ctx.take_commands();
    tex.set_filters(&mut ctx, TextureFilter::Linear, TextureFilter::Nearest);
    tex.set_wraps(&mut ctx, TextureWrap::Repeat, TextureWrap::MirroredRepeat);
    tex.update_with_egl_image(&mut ctx, 77);
    tex.delete(&mut ctx);
    assert_eq!(
        ctx.take_commands(),
        vec![
            param(TEXTURE_2D, 0x2801, 0x2601),
            param(TEXTURE_2D, 0x2800, 0x2600),
            param(TEXTURE_2D, 0x2802, 0x2901),
            param(TEXTURE_2D, 0x2803, 0x8370),
            Command::EglImageTargetTexture2DOes { target: TEXTURE_2D, image: 77 },
            Command::DeleteTexture { texture: 2 },
        ]
    );
}

#[test]
fn screen_framebuffer_takes_no_attachment() {
    let mut ctx = Context::new();
    let screen = Framebuffer::with_screen(&mut ctx);
    assert_eq!(screen.id(), 0);
    screen.set_color_texture(&mut ctx, 5);
    screen.set_depth_texture(&mut ctx, 5);
    screen.set_stencil_texture(&mut ctx, 5);
    screen.delete(&mut ctx);
    assert_eq!(
        ctx.take_commands(),
        vec![Command::BindFramebuffer { target: FRAMEBUFFER, framebuffer: 0 }]
    );
}

#[test]
fn framebuffer_attachments() {
    let mut ctx = Context::new();
    let fb = Framebuffer::new(&mut ctx, 6);
    fb.set_depth_texture(&mut ctx, 2);
    fb.set_stencil_texture(&mut ctx, 3);
    fb.bind_at(&mut ctx, 0x8CA8);
    fb.unbind_at(&mut ctx, 0x8CA8);
    fb.delete(&mut ctx);
    let attach = |attachment: u32, texture: u32| Command::FramebufferTexture2D {
        target: FRAMEBUFFER,
        attachment,
        textarget: TEXTURE_2D,
        texture,
        level: 0,
    };
    assert_eq!(
        ctx.take_commands(),
        vec![
            Command::BindFramebuffer { target: FRAMEBUFFER, framebuffer: 6 },
            attach(0x8D00, 2),
            Command::BindFramebuffer { target: FRAMEBUFFER, framebuffer: 6 },
            attach(0x8D20, 3),
            Command::BindFramebuffer { target: FRAMEBUFFER, framebuffer: 0 },
            Command::BindFramebuffer { target: 0x8CA8, framebuffer: 6 },
            Command::BindFramebuffer { target: 0x8CA8, framebuffer: 0 },
            Command::BindFramebuffer { target: FRAMEBUFFER, framebuffer: 0 },
            Command::DeleteFramebuffer { framebuffer: 6 },
        ]
    );
}

#[test]
fn framebuffer_object_renders_into_its_texture() {
    let mut ctx = Context::new();
    let fbo = FramebufferObject::with_texture_rgba(&mut ctx, 8, 9, 64, 32);
    assert_eq!((fbo.width(), fbo.height()), (64, 32));
    assert_eq!(fbo.framebuffer().id(), 8);
    assert_eq!(fbo.texture().id(), 9);
    let calls = ctx.take_commands();
    assert_eq!(calls[0], Command::BindFramebuffer { target: FRAMEBUFFER, framebuffer: 8 });
    assert_eq!(calls[1], Command::BindTexture { target: TEXTURE_2D, texture: 9 });
    assert_eq!(calls[2], param(TEXTURE_2D, 0x2801, 0x2601));
    assert_eq!(
        calls[6],
        Command::TexImage2D {
            target: TEXTURE_2D,
            level: 0,
            internal_format: 0x1908,
            width: 64,
            height: 32,
            border: 0,
            format: 0x1908,
            texel: 0x1401,
            data: None,
        }
    );
    assert_eq!(
        calls[7],
        Command::FramebufferTexture2D {
            target: FRAMEBUFFER,
            attachment: 0x8CE0,
            textarget: TEXTURE_2D,
            texture: 9,
            level: 0,
        }
    );
    assert_eq!(calls.len(), 8);
    fbo.bind(&mut ctx);
    fbo.unbind(&mut ctx);
    assert_eq!(
        ctx.take_commands(),
        vec![
            Command::BindFramebuffer { target: FRAMEBUFFER, framebuffer: 8 },
            Command::BindTexture { target: TEXTURE_2D, texture: 9 },
            Command::BindTexture { target: TEXTURE_2D, texture: 0 },
            Command::BindFramebuffer { target: FRAMEBUFFER, framebuffer: 0 },
        ]
    );
    fbo.delete(&mut ctx);
    assert_eq!(ctx.len(), 3);
}
