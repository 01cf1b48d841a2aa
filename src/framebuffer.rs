use vstd::prelude::*;

use crate::context::{Call, Command, Context};
use crate::gl;
use crate::prelude::Bindable;
use crate::texture::{
    load_calls, Texture, TextureFilter, TextureFormat, TextureLoadOptions, TextureLoader,
    TextureTarget, TextureTexel, TextureWrap,
};

verus! {

/// The call that attaches a two-dimensional texture to the bound framebuffer.
pub open spec fn attach_call(attachment: u32, texture: u32) -> Call {
    Call::FramebufferTexture2D {
        target: gl::FRAMEBUFFER,
        attachment,
        textarget: gl::TEXTURE_2D,
        texture,
        level: 0,
    }
}

/// A native framebuffer object; the name 0 stands for the screen.
#[derive(Debug, PartialEq, Eq, Structural)]
pub struct Framebuffer {
    id: u32,
}

impl Framebuffer {
    /// The native name of the framebuffer.
    pub closed spec fn spec_id(&self) -> u32 {
        self.id
    }

    /// Wraps `id`, a newly generated framebuffer, and binds it.
    pub fn new(ctx: &mut Context, id: u32) -> (r: Self)
        ensures
            r.spec_id() == id,
            final(ctx)@ == old(ctx)@.push(
                Call::BindFramebuffer { target: gl::FRAMEBUFFER, framebuffer: id },
            ),
    {
        ctx.issue(Command::BindFramebuffer { target: gl::FRAMEBUFFER, framebuffer: id });
        Self { id }
    }

    /// The framebuffer of the screen surface, bound.
    pub fn with_screen(ctx: &mut Context) -> (r: Self)
        ensures
            r.spec_id() == 0,
            final(ctx)@ == old(ctx)@.push(
                Call::BindFramebuffer { target: gl::FRAMEBUFFER, framebuffer: 0 },
            ),
    {
        ctx.issue(Command::BindFramebuffer { target: gl::FRAMEBUFFER, framebuffer: 0 });
        Self { id: 0 }
    }

    /// The native name of the framebuffer.
    pub fn id(&self) -> (r: u32)
        ensures
            r == self.spec_id(),
    {
        self.id
    }

    /// Attaches `texture` as colour buffer; the screen takes no attachment.
    pub fn set_color_texture(&self, ctx: &mut Context, texture: u32)
        ensures
            final(ctx)@ == if self.spec_id() != 0 {
                old(ctx)@.push(attach_call(gl::COLOR_ATTACHMENT0, texture))
            } else {
                old(ctx)@
            },
    {
        if self.id != 0 {
            ctx.issue(
                Command::FramebufferTexture2D {
                    target: gl::FRAMEBUFFER,
                    attachment: gl::COLOR_ATTACHMENT0,
                    textarget: gl::TEXTURE_2D,
                    texture,
                    level: 0,
                },
            );
        }
    }

    /// Attaches `texture` as depth buffer; the screen takes no attachment.
    pub fn set_depth_texture(&self, ctx: &mut Context, texture: u32)
        ensures
            final(ctx)@ == if self.spec_id() != 0 {
                old(ctx)@.push(attach_call(gl::DEPTH_ATTACHMENT, texture))
            } else {
                old(ctx)@
            },
    {
        if self.id != 0 {
            ctx.issue(
                Command::FramebufferTexture2D {
                    target: gl::FRAMEBUFFER,
                    attachment: gl::DEPTH_ATTACHMENT,
                    textarget: gl::TEXTURE_2D,
                    texture,
                    level: 0,
                },
            );
        }
    }

    /// Attaches `texture` as stencil buffer, binding the framebuffer around
    /// the attachment; the screen takes no attachment.
    pub fn set_stencil_texture(&self, ctx: &mut Context, texture: u32)
        ensures
            final(ctx)@ == if self.spec_id() != 0 {
                old(ctx)@ + self.bind_calls() + seq![attach_call(gl::STENCIL_ATTACHMENT, texture)]
                    + self.unbind_calls()
            } else {
                old(ctx)@
            },
    {
        if self.id != 0 {
            self.bind(ctx);
            ctx.issue(
                Command::FramebufferTexture2D {
                    target: gl::FRAMEBUFFER,
                    attachment: gl::STENCIL_ATTACHMENT,
                    textarget: gl::TEXTURE_2D,
                    texture,
                    level: 0,
                },
            );
            self.unbind(ctx);
            assert(ctx@ =~= old(ctx)@ + self.bind_calls() + seq![
                attach_call(gl::STENCIL_ATTACHMENT, texture),
            ] + self.unbind_calls());
        }
    }

    /// Releases and deletes the native framebuffer; the screen stays.
    pub fn delete(self, ctx: &mut Context)
        ensures
            final(ctx)@ == if self.spec_id() != 0 {
                old(ctx)@ + self.unbind_calls().push(
                    Call::DeleteFramebuffer { framebuffer: self.spec_id() },
                )
            } else {
                old(ctx)@
            },
    {
        if self.id != 0 {
            self.unbind(ctx);
            ctx.issue(Command::DeleteFramebuffer { framebuffer: self.id });
            assert(ctx@ =~= old(ctx)@ + self.unbind_calls().push(
                Call::DeleteFramebuffer { framebuffer: self.spec_id() },
            ));
        }
    }
}

impl Bindable for Framebuffer {
    open spec fn bind_calls(&self) -> Seq<Call> {
        seq![Call::BindFramebuffer { target: gl::FRAMEBUFFER, framebuffer: self.spec_id() }]
    }

    /// The slot is the framebuffer target to bind to.
    open spec fn bind_at_calls(&self, slot: u32) -> Seq<Call> {
        seq![Call::BindFramebuffer { target: slot, framebuffer: self.spec_id() }]
    }

    open spec fn unbind_calls(&self) -> Seq<Call> {
        seq![Call::BindFramebuffer { target: gl::FRAMEBUFFER, framebuffer: 0 }]
    }

    open spec fn unbind_at_calls(&self, slot: u32) -> Seq<Call> {
        seq![Call::BindFramebuffer { target: slot, framebuffer: 0 }]
    }

    fn bind(&self, ctx: &mut Context) {
        ctx.issue(Command::BindFramebuffer { target: gl::FRAMEBUFFER, framebuffer: self.id });
    }

    fn bind_at(&self, ctx: &mut Context, slot: u32) {
        ctx.issue(Command::BindFramebuffer { target: slot, framebuffer: self.id });
    }

    fn unbind(&self, ctx: &mut Context) {
        ctx.issue(Command::BindFramebuffer { target: gl::FRAMEBUFFER, framebuffer: 0 });
    }

    fn unbind_at(&self, ctx: &mut Context, slot: u32) {
        ctx.issue(Command::BindFramebuffer { target: slot, framebuffer: 0 });
    }
}

/// What besides colour a framebuffer object renders into.
#[derive(Clone, Copy, Debug, PartialEq, Eq, Structural)]
pub enum FramebufferAttachment {
    NoAttachment,
    CombinedDepthStencil,
    Depth,
}

/// The options of the colour texture of a framebuffer object: `width` by
/// `height` texels in `format`, filtered linearly, with storage allocated.
pub open spec fn color_texture_options(
    width: usize,
    height: usize,
    format: TextureFormat,
) -> TextureLoadOptions<'static> {
    TextureLoadOptions {
        path: None,
        bytes: None,
        egl_image: None,
        target: TextureTarget::Texture2D,
        level: 0,
        internal_format: format,
        width,
        height,
        format,
        texel: TextureTexel::U8,
        min_filter: TextureFilter::Linear,
        mag_filter: TextureFilter::Linear,
        wrap_s: TextureWrap::ClampToEdge,
        wrap_t: TextureWrap::ClampToEdge,
        gen_mipmaps: false,
        allocate_storage: true,
    }
}

/// The calls of building a framebuffer object: binding framebuffer
/// `fb_id`, loading its colour texture into `texture_id`, then attaching the
/// texture, which the screen's framebuffer does not take.
pub open spec fn object_calls(
    fb_id: u32,
    texture_id: u32,
    width: usize,
    height: usize,
    format: TextureFormat,
) -> Seq<Call> {
    let attach = if fb_id != 0 {
        seq![attach_call(gl::COLOR_ATTACHMENT0, texture_id)]
    } else {
        seq![]
    };
    seq![Call::BindFramebuffer { target: gl::FRAMEBUFFER, framebuffer: fb_id }] + load_calls(
        texture_id,
        color_texture_options(width, height, format),
    ) + attach
}

/// A framebuffer that renders into a texture of its own.
#[derive(Debug)]
pub struct FramebufferObject {
    width: usize,
    height: usize,
    texture_format: TextureFormat,
    attachment: FramebufferAttachment,
    fb: Framebuffer,
    texture: Texture,
}

impl FramebufferObject {
    /// The width in texels.
    pub closed spec fn spec_width(&self) -> usize {
        self.width
    }

    /// The height in texels.
    pub closed spec fn spec_height(&self) -> usize {
        self.height
    }

    /// The framebuffer.
    pub closed spec fn spec_framebuffer(&self) -> Framebuffer {
        self.fb
    }

    /// The colour texture.
    pub closed spec fn spec_texture(&self) -> Texture {
        self.texture
    }

    /// Builds a framebuffer object of `width` by `height` texels in
    /// `texture_format`, from `fb_id`, a newly generated framebuffer, and
    /// `texture_id`, a newly generated texture.
    pub fn new(
        ctx: &mut Context,
        fb_id: u32,
        texture_id: u32,
        width: usize,
        height: usize,
        texture_format: TextureFormat,
    ) -> (r: Self)
        ensures
            r.spec_width() == width,
            r.spec_height() == height,
            r.spec_framebuffer().spec_id() == fb_id,
            r.spec_texture().spec_id() == texture_id,
            r.spec_texture().spec_target() == TextureTarget::Texture2D,
            final(ctx)@ == old(ctx)@ + object_calls(
                fb_id,
                texture_id,
                width,
                height,
                texture_format,
            ),
    {
        let ghost start = ctx@;
        let fb = Framebuffer::new(ctx, fb_id);
        let mut loader = TextureLoader::default();
        loader.with_size(width, height).with_internal_format(texture_format).with_format(
            texture_format,
        ).with_linear().with_allocate_storage();
        assert(loader.options == color_texture_options(width, height, texture_format));
        let texture = loader.load(ctx, texture_id).unwrap();
        fb.set_color_texture(ctx, texture.id());
        assert(ctx@ =~= start + object_calls(fb_id, texture_id, width, height, texture_format));
        Self {
            width,
            height,
            texture_format,
            attachment: FramebufferAttachment::NoAttachment,
            fb,
            texture,
        }
    }

    /// A framebuffer object with an RGBA colour texture.
    pub fn with_texture_rgba(
        ctx: &mut Context,
        fb_id: u32,
        texture_id: u32,
        width: usize,
        height: usize,
    ) -> (r: Self)
        ensures
            r.spec_width() == width,
            r.spec_height() == height,
            r.spec_framebuffer().spec_id() == fb_id,
            r.spec_texture().spec_id() == texture_id,
            r.spec_texture().spec_target() == TextureTarget::Texture2D,
            final(ctx)@ == old(ctx)@ + object_calls(
                fb_id,
                texture_id,
                width,
                height,
                TextureFormat::Rgba,
            ),
    {
        Self::new(ctx, fb_id, texture_id, width, height, TextureFormat::Rgba)
    }

    /// The width in texels.
    pub fn width(&self) -> (r: usize)
        ensures
            r == self.spec_width(),
    {
        self.width
    }

    /// The height in texels.
    pub fn height(&self) -> (r: usize)
        ensures
            r == self.spec_height(),
    {
        self.height
    }

    /// The framebuffer.
    pub fn framebuffer(&self) -> (r: &Framebuffer)
        ensures
            *r == self.spec_framebuffer(),
    {
        &self.fb
    }

    /// The colour texture.
    pub fn texture(&self) -> (r: &Texture)
        ensures
            *r == self.spec_texture(),
    {
        &self.texture
    }

    /// Deletes the framebuffer, then the texture.
    pub fn delete(self, ctx: &mut Context)
        ensures
            final(ctx)@ == (if self.spec_framebuffer().spec_id() != 0 {
                old(ctx)@ + self.spec_framebuffer().unbind_calls().push(
                    Call::DeleteFramebuffer { framebuffer: self.spec_framebuffer().spec_id() },
                )
            } else {
                old(ctx)@
            }).push(Call::DeleteTexture { texture: self.spec_texture().spec_id() }),
    {
        let FramebufferObject { fb, texture, .. } = self;
        fb.delete(ctx);
        texture.delete(ctx);
    }
}

impl Bindable for FramebufferObject {
    /// Binds the framebuffer, then the texture.
    open spec fn bind_calls(&self) -> Seq<Call> {
        self.spec_framebuffer().bind_calls() + self.spec_texture().bind_calls()
    }

    /// Binds the framebuffer, then the texture at `slot`.
    open spec fn bind_at_calls(&self, slot: u32) -> Seq<Call> {
        self.spec_framebuffer().bind_calls() + self.spec_texture().bind_at_calls(slot)
    }

    /// Releases the texture, then the framebuffer.
    open spec fn unbind_calls(&self) -> Seq<Call> {
        self.spec_texture().unbind_calls() + self.spec_framebuffer().unbind_calls()
    }

    /// Releases the texture at `slot`, then the framebuffer.
    open spec fn unbind_at_calls(&self, slot: u32) -> Seq<Call> {
        self.spec_texture().unbind_at_calls(slot) + self.spec_framebuffer().unbind_calls()
    }

    fn bind(&self, ctx: &mut Context) {
        self.fb.bind(ctx);
        self.texture.bind(ctx);
    }

    fn bind_at(&self, ctx: &mut Context, slot: u32) {
        self.fb.bind(ctx);
        self.texture.bind_at(ctx, slot);
    }

    fn unbind(&self, ctx: &mut Context) {
        self.texture.unbind(ctx);
        self.fb.unbind(ctx);
    }

    fn unbind_at(&self, ctx: &mut Context, slot: u32) {
        self.texture.unbind_at(ctx, slot);
        self.fb.unbind(ctx);
    }
}

} // verus!
