use vstd::prelude::*;

use crate::context::{bytes_view, Call, Command, Context};
use crate::gl;
use crate::prelude::Bindable;

verus! {

/// How texels are sampled when a texture is minified or magnified.
#[derive(Clone, Copy, Debug, PartialEq, Eq, Structural)]
pub enum TextureFilter {
    Nearest,
    Linear,
}

impl TextureFilter {
    /// The native enumerant of the filter.
    pub open spec fn spec_raw(self) -> u32 {
        match self {
            TextureFilter::Nearest => gl::NEAREST,
            TextureFilter::Linear => gl::LINEAR,
        }
    }

    /// The native enumerant of the filter.
    pub fn raw(self) -> (r: u32)
        ensures
            r == self.spec_raw(),
    {
        match self {
            TextureFilter::Nearest => gl::NEAREST,
            TextureFilter::Linear => gl::LINEAR,
        }
    }
}

impl Default for TextureFilter {
    fn default() -> (r: Self)
        ensures
            r == TextureFilter::Nearest,
    {
        TextureFilter::Nearest
    }
}

/// The layout of a texture's texels.
#[derive(Clone, Copy, Debug, PartialEq, Eq, Structural)]
pub enum TextureFormat {
    Alpha,
    Luminance,
    LuminanceAlpha,
    R8,
    R8SNorm,
    R16F,
    Red,
    Rg,
    Rgb,
    Rgb8,
    Rgba,
}

impl TextureFormat {
    /// The native enumerant of the format.
    pub open spec fn spec_raw(self) -> u32 {
        match self {
            TextureFormat::Alpha => gl::ALPHA,
            TextureFormat::Luminance => gl::LUMINANCE,
            TextureFormat::LuminanceAlpha => gl::LUMINANCE_ALPHA,
            TextureFormat::R8 => gl::R8,
            TextureFormat::R8SNorm => gl::R8_SNORM,
            TextureFormat::R16F => gl::R16F,
            TextureFormat::Red => gl::RED,
            TextureFormat::Rg => gl::RG,
            TextureFormat::Rgb => gl::RGB,
            TextureFormat::Rgb8 => gl::RGB8,
            TextureFormat::Rgba => gl::RGBA,
        }
    }

    /// The native enumerant of the format.
    pub fn raw(self) -> (r: u32)
        ensures
            r == self.spec_raw(),
    {
        match self {
            TextureFormat::Alpha => gl::ALPHA,
            TextureFormat::Luminance => gl::LUMINANCE,
            TextureFormat::LuminanceAlpha => gl::LUMINANCE_ALPHA,
            TextureFormat::R8 => gl::R8,
            TextureFormat::R8SNorm => gl::R8_SNORM,
            TextureFormat::R16F => gl::R16F,
            TextureFormat::Red => gl::RED,
            TextureFormat::Rg => gl::RG,
            TextureFormat::Rgb => gl::RGB,
            TextureFormat::Rgb8 => gl::RGB8,
            TextureFormat::Rgba => gl::RGBA,
        }
    }
}

impl Default for TextureFormat {
    fn default() -> (r: Self)
        ensures
            r == TextureFormat::Rgba,
    {
        TextureFormat::Rgba
    }
}

/// The binding point of a texture.
#[derive(Clone, Copy, Debug, PartialEq, Eq, Structural)]
pub enum TextureTarget {
    Texture2D,
    Texture2DArray,
    Texture3D,
    TextureExternalOES,
    TextureCubeMapPositiveX,
    TextureCubeMapNegativeX,
    TextureCubeMapPositiveY,
    TextureCubeMapNegativeY,
    TextureCubeMapPositiveZ,
    TextureCubeMapNegativeZ,
}

impl TextureTarget {
    /// The native enumerant of the target.
    pub open spec fn spec_raw(self) -> u32 {
        match self {
            TextureTarget::Texture2D => gl::TEXTURE_2D,
            TextureTarget::Texture2DArray => gl::TEXTURE_2D_ARRAY,
            TextureTarget::Texture3D => gl::TEXTURE_3D,
            TextureTarget::TextureExternalOES => gl::TEXTURE_EXTERNAL_OES,
            TextureTarget::TextureCubeMapPositiveX => gl::TEXTURE_CUBE_MAP_POSITIVE_X,
            TextureTarget::TextureCubeMapNegativeX => gl::TEXTURE_CUBE_MAP_NEGATIVE_X,
            TextureTarget::TextureCubeMapPositiveY => gl::TEXTURE_CUBE_MAP_POSITIVE_Y,
            TextureTarget::TextureCubeMapNegativeY => gl::TEXTURE_CUBE_MAP_NEGATIVE_Y,
            TextureTarget::TextureCubeMapPositiveZ => gl::TEXTURE_CUBE_MAP_POSITIVE_Z,
            TextureTarget::TextureCubeMapNegativeZ => gl::TEXTURE_CUBE_MAP_NEGATIVE_Z,
        }
    }

    /// The native enumerant of the target.
    pub fn raw(self) -> (r: u32)
        ensures
            r == self.spec_raw(),
    {
        match self {
            TextureTarget::Texture2D => gl::TEXTURE_2D,
            TextureTarget::Texture2DArray => gl::TEXTURE_2D_ARRAY,
            TextureTarget::Texture3D => gl::TEXTURE_3D,
            TextureTarget::TextureExternalOES => gl::TEXTURE_EXTERNAL_OES,
            TextureTarget::TextureCubeMapPositiveX => gl::TEXTURE_CUBE_MAP_POSITIVE_X,
            TextureTarget::TextureCubeMapNegativeX => gl::TEXTURE_CUBE_MAP_NEGATIVE_X,
            TextureTarget::TextureCubeMapPositiveY => gl::TEXTURE_CUBE_MAP_POSITIVE_Y,
            TextureTarget::TextureCubeMapNegativeY => gl::TEXTURE_CUBE_MAP_NEGATIVE_Y,
            TextureTarget::TextureCubeMapPositiveZ => gl::TEXTURE_CUBE_MAP_POSITIVE_Z,
            TextureTarget::TextureCubeMapNegativeZ => gl::TEXTURE_CUBE_MAP_NEGATIVE_Z,
        }
    }
}

impl Default for TextureTarget {
    fn default() -> (r: Self)
        ensures
            r == TextureTarget::Texture2D,
    {
        TextureTarget::Texture2D
    }
}

/// The data type of a texel's components.
#[allow(non_camel_case_types)]
#[derive(Clone, Copy, Debug, PartialEq, Eq, Structural)]
pub enum TextureTexel {
    S8,
    U8,
    F16,
    F32,
    S16,
    U16_565,
    U16_4444,
    U16_5551,
}

impl TextureTexel {
    /// The native enumerant of the texel type.
    pub open spec fn spec_raw(self) -> u32 {
        match self {
            TextureTexel::S8 => gl::BYTE,
            TextureTexel::U8 => gl::UNSIGNED_BYTE,
            TextureTexel::F16 => gl::HALF_FLOAT,
            TextureTexel::F32 => gl::FLOAT,
            TextureTexel::S16 => gl::SHORT,
            TextureTexel::U16_565 => gl::UNSIGNED_SHORT_5_6_5,
            TextureTexel::U16_4444 => gl::UNSIGNED_SHORT_4_4_4_4,
            TextureTexel::U16_5551 => gl::UNSIGNED_SHORT_5_5_5_1,
        }
    }

    /// The native enumerant of the texel type.
    pub fn raw(self) -> (r: u32)
        ensures
            r == self.spec_raw(),
    {
        match self {
            TextureTexel::S8 => gl::BYTE,
            TextureTexel::U8 => gl::UNSIGNED_BYTE,
            TextureTexel::F16 => gl::HALF_FLOAT,
            TextureTexel::F32 => gl::FLOAT,
            TextureTexel::S16 => gl::SHORT,
            TextureTexel::U16_565 => gl::UNSIGNED_SHORT_5_6_5,
            TextureTexel::U16_4444 => gl::UNSIGNED_SHORT_4_4_4_4,
            TextureTexel::U16_5551 => gl::UNSIGNED_SHORT_5_5_5_1,
        }
    }
}

impl Default for TextureTexel {
    fn default() -> (r: Self)
        ensures
            r == TextureTexel::U8,
    {
        TextureTexel::U8
    }
}

/// How texture coordinates outside `[0, 1]` are resolved.
#[derive(Clone, Copy, Debug, PartialEq, Eq, Structural)]
pub enum TextureWrap {
    ClampToEdge,
    MirroredRepeat,
    Repeat,
}

impl TextureWrap {
    /// The native enumerant of the wrap mode.
    pub open spec fn spec_raw(self) -> u32 {
        match self {
            TextureWrap::ClampToEdge => gl::CLAMP_TO_EDGE,
            TextureWrap::MirroredRepeat => gl::MIRRORED_REPEAT,
            TextureWrap::Repeat => gl::REPEAT,
        }
    }

    /// The native enumerant of the wrap mode.
    pub fn raw(self) -> (r: u32)
        ensures
            r == self.spec_raw(),
    {
        match self {
            TextureWrap::ClampToEdge => gl::CLAMP_TO_EDGE,
            TextureWrap::MirroredRepeat => gl::MIRRORED_REPEAT,
            TextureWrap::Repeat => gl::REPEAT,
        }
    }
}

impl Default for TextureWrap {
    fn default() -> (r: Self)
        ensures
            r == TextureWrap::ClampToEdge,
    {
        TextureWrap::ClampToEdge
    }
}

/// Everything that loading a texture needs.
#[derive(Clone, Copy, Debug)]
pub struct TextureLoadOptions<'b> {
    pub path: Option<&'b str>,
    pub bytes: Option<&'b [u8]>,
    pub egl_image: Option<usize>,
    pub target: TextureTarget,
    pub level: usize,
    pub internal_format: TextureFormat,
    pub width: usize,
    pub height: usize,
    pub format: TextureFormat,
    pub texel: TextureTexel,
    pub min_filter: TextureFilter,
    pub mag_filter: TextureFilter,
    pub wrap_s: TextureWrap,
    pub wrap_t: TextureWrap,
    pub gen_mipmaps: bool,
    pub allocate_storage: bool,
}

impl<'b> TextureLoadOptions<'b> {
    /// Whether every option but those named by the caller has its default.
    pub open spec fn defaults_but_image(&self) -> bool {
        &&& self.path.is_none()
        &&& self.egl_image.is_none()
        &&& self.target == TextureTarget::Texture2D
        &&& self.level == 0
        &&& self.texel == TextureTexel::U8
        &&& self.min_filter == TextureFilter::Nearest
        &&& self.mag_filter == TextureFilter::Nearest
        &&& self.wrap_s == TextureWrap::ClampToEdge
        &&& self.wrap_t == TextureWrap::ClampToEdge
        &&& !self.gen_mipmaps
        &&& !self.allocate_storage
    }

    /// Whether these are the default options.
    pub open spec fn is_default(&self) -> bool {
        &&& self.defaults_but_image()
        &&& self.bytes.is_none()
        &&& self.internal_format == TextureFormat::Rgba
        &&& self.width == 0
        &&& self.height == 0
        &&& self.format == TextureFormat::Rgba
    }

    /// Options for an RGB image of `width` by `height` texels.
    pub fn from_bytes_rgb(bytes: &'b [u8], width: usize, height: usize) -> (r: Self)
        ensures
            r.defaults_but_image(),
            r.bytes == Some(bytes),
            r.internal_format == TextureFormat::Rgb8,
            r.format == TextureFormat::Rgb,
            r.width == width,
            r.height == height,
    {
        Self {
            bytes: Some(bytes),
            internal_format: TextureFormat::Rgb8,
            width,
            height,
            format: TextureFormat::Rgb,
            ..Self::default()
        }
    }

    /// Options for an RGBA image of `width` by `height` texels.
    pub fn from_bytes_rgba(bytes: &'b [u8], width: usize, height: usize) -> (r: Self)
        ensures
            r.defaults_but_image(),
            r.bytes == Some(bytes),
            r.internal_format == TextureFormat::Rgba,
            r.format == TextureFormat::Rgba,
            r.width == width,
            r.height == height,
    {
        Self {
            bytes: Some(bytes),
            internal_format: TextureFormat::Rgba,
            width,
            height,
            format: TextureFormat::Rgba,
            ..Self::default()
        }
    }
}

impl<'b> Default for TextureLoadOptions<'b> {
    fn default() -> (r: Self)
        ensures
            r.is_default(),
    {
        Self {
            path: None,
            bytes: None,
            egl_image: None,
            target: TextureTarget::Texture2D,
            level: 0,
            internal_format: TextureFormat::Rgba,
            width: 0,
            height: 0,
            texel: TextureTexel::U8,
            format: TextureFormat::Rgba,
            min_filter: TextureFilter::Nearest,
            mag_filter: TextureFilter::Nearest,
            wrap_s: TextureWrap::ClampToEdge,
            wrap_t: TextureWrap::ClampToEdge,
            gen_mipmaps: false,
            allocate_storage: false,
        }
    }
}

/// Collects the options of a texture, then loads it.
pub struct TextureLoader<'b> {
    pub options: TextureLoadOptions<'b>,
}

impl<'b> TextureLoader<'b> {
    /// A loader with the default options.
    pub fn default() -> (r: Self)
        ensures
            r.options.is_default(),
    {
        Self { options: TextureLoadOptions::default() }
    }

    pub fn with_bytes(&mut self, bytes: &'b [u8]) -> (r: &mut Self)
        ensures
            r.options == (TextureLoadOptions { bytes: Some(bytes), ..old(self).options }),
            *final(self) == *final(r),
    {
        self.options.bytes = Some(bytes);
        self
    }

    /// Loads from an EGL image, on the external target.
    pub fn with_egl_image(&mut self, egl_image: usize) -> (r: &mut Self)
        ensures
            r.options == (TextureLoadOptions {
                egl_image: Some(egl_image),
                target: TextureTarget::TextureExternalOES,
                ..old(self).options
            }),
            *final(self) == *final(r),
    {
        self.options.egl_image = Some(egl_image);
        self.options.target = TextureTarget::TextureExternalOES;
        self
    }

    /// Loads a two-dimensional texture.
    pub fn with_2d(&mut self) -> (r: &mut Self)
        ensures
            r.options == (TextureLoadOptions {
                target: TextureTarget::Texture2D,
                ..old(self).options
            }),
            *final(self) == *final(r),
    {
        self.options.target = TextureTarget::Texture2D;
        self
    }

    /// Loads a three-dimensional texture.
    pub fn with_3d(&mut self) -> (r: &mut Self)
        ensures
            r.options == (TextureLoadOptions {
                target: TextureTarget::Texture3D,
                ..old(self).options
            }),
            *final(self) == *final(r),
    {
        self.options.target = TextureTarget::Texture3D;
        self
    }

    /// Sets the size in texels.
    pub fn with_size(&mut self, width: usize, height: usize) -> (r: &mut Self)
        ensures
            r.options == (TextureLoadOptions { width, height, ..old(self).options }),
            *final(self) == *final(r),
    {
        self.options.width = width;
        self.options.height = height;
        self
    }

    /// Sets the format the texture is stored in.
    pub fn with_internal_format(&mut self, internal_format: TextureFormat) -> (r: &mut Self)
        ensures
            r.options == (TextureLoadOptions { internal_format, ..old(self).options }),
            *final(self) == *final(r),
    {
        self.options.internal_format = internal_format;
        self
    }

    /// Sets the format of the given texels.
    pub fn with_format(&mut self, format: TextureFormat) -> (r: &mut Self)
        ensures
            r.options == (TextureLoadOptions { format, ..old(self).options }),
            *final(self) == *final(r),
    {
        self.options.format = format;
        self
    }

    /// Sets the data type of the given texels.
    pub fn with_texel(&mut self, texel: TextureTexel) -> (r: &mut Self)
        ensures
            r.options == (TextureLoadOptions { texel, ..old(self).options }),
            *final(self) == *final(r),
    {
        self.options.texel = texel;
        self
    }

    /// Minifies with the nearest texel.
    pub fn with_min_nearest(&mut self) -> (r: &mut Self)
        ensures
            r.options == (TextureLoadOptions {
                min_filter: TextureFilter::Nearest,
                ..old(self).options
            }),
            *final(self) == *final(r),
    {
        self.options.min_filter = TextureFilter::Nearest;
        self
    }

    /// Minifies with a weighted average of texels.
    pub fn with_min_linear(&mut self) -> (r: &mut Self)
        ensures
            r.options == (TextureLoadOptions {
                min_filter: TextureFilter::Linear,
                ..old(self).options
            }),
            *final(self) == *final(r),
    {
        self.options.min_filter = TextureFilter::Linear;
        self
    }

    /// Magnifies with the nearest texel.
    pub fn with_mag_nearest(&mut self) -> (r: &mut Self)
        ensures
            r.options == (TextureLoadOptions {
                mag_filter: TextureFilter::Nearest,
                ..old(self).options
            }),
            *final(self) == *final(r),
    {
        self.options.mag_filter = TextureFilter::Nearest;
        self
    }

    /// Magnifies with a weighted average of texels.
    pub fn with_mag_linear(&mut self) -> (r: &mut Self)
        ensures
            r.options == (TextureLoadOptions {
                mag_filter: TextureFilter::Linear,
                ..old(self).options
            }),
            *final(self) == *final(r),
    {
        self.options.mag_filter = TextureFilter::Linear;
        self
    }

    /// Minifies and magnifies with the nearest texel.
    pub fn with_nearest(&mut self) -> (r: &mut Self)
        ensures
            r.options == (TextureLoadOptions {
                min_filter: TextureFilter::Nearest,
                mag_filter: TextureFilter::Nearest,
                ..old(self).options
            }),
            *final(self) == *final(r),
    {
        self.options.min_filter = TextureFilter::Nearest;
        self.options.mag_filter = TextureFilter::Nearest;
        self
    }

    /// Minifies and magnifies with a weighted average of texels.
    pub fn with_linear(&mut self) -> (r: &mut Self)
        ensures
            r.options == (TextureLoadOptions {
                min_filter: TextureFilter::Linear,
                mag_filter: TextureFilter::Linear,
                ..old(self).options
            }),
            *final(self) == *final(r),
    {
        self.options.min_filter = TextureFilter::Linear;
        self.options.mag_filter = TextureFilter::Linear;
        self
    }

    /// Generates mipmaps after loading.
    pub fn with_gen_mipmaps(&mut self) -> (r: &mut Self)
        ensures
            r.options == (TextureLoadOptions { gen_mipmaps: true, ..old(self).options }),
            *final(self) == *final(r),
    {
        self.options.gen_mipmaps = true;
        self
    }

    /// Allocates storage even when no texels are given.
    pub fn with_allocate_storage(&mut self) -> (r: &mut Self)
        ensures
            r.options == (TextureLoadOptions { allocate_storage: true, ..old(self).options }),
            *final(self) == *final(r),
    {
        self.options.allocate_storage = true;
        self
    }

    /// Loads the texture into `id`, a newly generated native texture.
    pub fn load(&self, ctx: &mut Context, id: u32) -> (r: Result<Texture, String>)
        ensures
            r is Ok,
            r->Ok_0.spec_id() == id,
            r->Ok_0.spec_target() == self.options.target,
            r->Ok_0.width() == self.options.width,
            r->Ok_0.height() == self.options.height,
            final(ctx)@ == old(ctx)@ + load_calls(id, self.options),
    {
        Texture::load(ctx, id, self.options)
    }
}

/// The call that sets one integer parameter of a texture on `target`.
pub open spec fn parameter_call(target: TextureTarget, pname: u32, value: u32) -> Call {
    Call::TexParameteri { target: target.spec_raw(), pname, param: value as i32 }
}

/// The calls that set the two filters of a texture on `target`.
pub open spec fn filter_calls(target: TextureTarget, min: TextureFilter, mag: TextureFilter) -> Seq<
    Call,
> {
    seq![
        parameter_call(target, gl::TEXTURE_MIN_FILTER, min.spec_raw()),
        parameter_call(target, gl::TEXTURE_MAG_FILTER, mag.spec_raw()),
    ]
}

/// The calls that set the two wrap modes of a texture on `target`.
pub open spec fn wrap_calls(target: TextureTarget, wrap_s: TextureWrap, wrap_t: TextureWrap) -> Seq<
    Call,
> {
    seq![
        parameter_call(target, gl::TEXTURE_WRAP_S, wrap_s.spec_raw()),
        parameter_call(target, gl::TEXTURE_WRAP_T, wrap_t.spec_raw()),
    ]
}

/// The call that specifies the image of a texture on `target`, from
/// `data` or, without data, as storage only.
pub open spec fn image_call(target: TextureTarget, options: TextureLoadOptions, data: Option<
    Seq<u8>,
>) -> Call {
    Call::TexImage2D {
        target: target.spec_raw(),
        level: options.level as i32,
        internal_format: options.internal_format.spec_raw() as i32,
        width: options.width as i32,
        height: options.height as i32,
        border: 0,
        format: options.format.spec_raw(),
        texel: options.texel.spec_raw(),
        data,
    }
}

/// The calls of updating a texture on `target` with `options`: filters,
/// wrap modes, then the image when texels are given or storage is asked
/// for, the EGL image when one is given, and mipmaps when asked for.
pub open spec fn update_calls(target: TextureTarget, options: TextureLoadOptions) -> Seq<Call> {
    let image = match options.bytes {
        Some(b) => seq![image_call(target, options, Some(b@))],
        None => if options.allocate_storage {
            seq![image_call(target, options, None)]
        } else {
            seq![]
        },
    };
    let egl = match options.egl_image {
        Some(img) => seq![
            Call::EglImageTargetTexture2DOes { target: target.spec_raw(), image: img },
        ],
        None => seq![],
    };
    let mipmaps = if options.gen_mipmaps {
        seq![Call::GenerateMipmap { target: target.spec_raw() }]
    } else {
        seq![]
    };
    filter_calls(target, options.min_filter, options.mag_filter) + wrap_calls(
        target,
        options.wrap_s,
        options.wrap_t,
    ) + image + egl + mipmaps
}

/// The calls of loading texture `id` with `options`: binding it, then
/// updating it.
pub open spec fn load_calls(id: u32, options: TextureLoadOptions) -> Seq<Call> {
    seq![Call::BindTexture { target: options.target.spec_raw(), texture: id }] + update_calls(
        options.target,
        options,
    )
}

/// The native texture unit of a slot: `TEXTURE0 + slot`, wrapping around.
pub open spec fn texture_unit(slot: u32) -> u32 {
    if gl::TEXTURE0 + slot <= u32::MAX {
        (gl::TEXTURE0 + slot) as u32
    } else {
        (gl::TEXTURE0 + slot - u32::MAX - 1) as u32
    }
}

fn unit_of(slot: u32) -> (r: u32)
    ensures
        r == texture_unit(slot),
{
    if slot <= u32::MAX - gl::TEXTURE0 {
        gl::TEXTURE0 + slot
    } else {
        slot - (u32::MAX - gl::TEXTURE0) - 1
    }
}

/// A native texture object.
#[derive(Debug, Default)]
pub struct Texture {
    id: u32,
    target: TextureTarget,
    width: usize,
    height: usize,
}

impl Texture {
    /// The native name of the texture.
    pub closed spec fn spec_id(&self) -> u32 {
        self.id
    }

    /// The target the texture is bound to.
    pub closed spec fn spec_target(&self) -> TextureTarget {
        self.target
    }

    /// The width in texels the texture was loaded with.
    pub closed spec fn width(&self) -> usize {
        self.width
    }

    /// The height in texels the texture was loaded with.
    pub closed spec fn height(&self) -> usize {
        self.height
    }

    /// Loads `id`, a newly generated native texture, with `options`; the
    /// texture is left bound.
    pub fn load(ctx: &mut Context, id: u32, options: TextureLoadOptions) -> (r: Result<
        Texture,
        String,
    >)
        ensures
            r is Ok,
            r->Ok_0.spec_id() == id,
            r->Ok_0.spec_target() == options.target,
            r->Ok_0.width() == options.width,
            r->Ok_0.height() == options.height,
            final(ctx)@ == old(ctx)@ + load_calls(id, options),
    {
        let texture = Texture {
            id,
            target: options.target,
            width: options.width,
            height: options.height,
        };
        let ghost start = ctx@;
        texture.bind(ctx);
        match texture.update(ctx, options) {
            Ok(()) => {},
            Err(e) => {
                return Err(e);
            },
        }
        assert(ctx@ =~= start + load_calls(id, options));
        Ok(texture)
    }

    fn set_parameter(&self, ctx: &mut Context, pname: u32, value: u32)
        ensures
            final(ctx)@ == old(ctx)@.push(parameter_call(self.spec_target(), pname, value)),
    {
        ctx.issue(
            Command::TexParameteri { target: self.target.raw(), pname, param: value as i32 },
        );
    }

    /// Sets the minifying filter.
    pub fn set_min_filter(&self, ctx: &mut Context, filter: TextureFilter)
        ensures
            final(ctx)@ == old(ctx)@.push(
                parameter_call(self.spec_target(), gl::TEXTURE_MIN_FILTER, filter.spec_raw()),
            ),
    {
        self.set_parameter(ctx, gl::TEXTURE_MIN_FILTER, filter.raw());
    }

    /// Sets the magnifying filter.
    pub fn set_mag_filter(&self, ctx: &mut Context, filter: TextureFilter)
        ensures
            final(ctx)@ == old(ctx)@.push(
                parameter_call(self.spec_target(), gl::TEXTURE_MAG_FILTER, filter.spec_raw()),
            ),
    {
        self.set_parameter(ctx, gl::TEXTURE_MAG_FILTER, filter.raw());
    }

    /// Sets both filters.
    pub fn set_filters(
        &self,
        ctx: &mut Context,
        min_filter: TextureFilter,
        mag_filter: TextureFilter,
    )
        ensures
            final(ctx)@ == old(ctx)@ + filter_calls(self.spec_target(), min_filter, mag_filter),
    {
        self.set_min_filter(ctx, min_filter);
        self.set_mag_filter(ctx, mag_filter);
        assert(ctx@ =~= old(ctx)@ + filter_calls(self.spec_target(), min_filter, mag_filter));
    }

    /// Sets the wrap mode of the S coordinate.
    pub fn set_wrap_s(&self, ctx: &mut Context, wrap_s: TextureWrap)
        ensures
            final(ctx)@ == old(ctx)@.push(
                parameter_call(self.spec_target(), gl::TEXTURE_WRAP_S, wrap_s.spec_raw()),
            ),
    {
        self.set_parameter(ctx, gl::TEXTURE_WRAP_S, wrap_s.raw());
    }

    /// Sets the wrap mode of the T coordinate.
    pub fn set_wrap_t(&self, ctx: &mut Context, wrap_t: TextureWrap)
        ensures
            final(ctx)@ == old(ctx)@.push(
                parameter_call(self.spec_target(), gl::TEXTURE_WRAP_T, wrap_t.spec_raw()),
            ),
    {
        self.set_parameter(ctx, gl::TEXTURE_WRAP_T, wrap_t.raw());
    }

    /// Sets both wrap modes.
    pub fn set_wraps(&self, ctx: &mut Context, wrap_s: TextureWrap, wrap_t: TextureWrap)
        ensures
            final(ctx)@ == old(ctx)@ + wrap_calls(self.spec_target(), wrap_s, wrap_t),
    {
        self.set_wrap_s(ctx, wrap_s);
        self.set_wrap_t(ctx, wrap_t);
        assert(ctx@ =~= old(ctx)@ + wrap_calls(self.spec_target(), wrap_s, wrap_t));
    }

    fn specify_image(&self, ctx: &mut Context, options: TextureLoadOptions, data: Option<Vec<u8>>)
        ensures
            final(ctx)@ == old(ctx)@.push(
                image_call(self.spec_target(), options, bytes_view(&data)),
            ),
    {
        ctx.issue(
            Command::TexImage2D {
                target: self.target.raw(),
                level: options.level as i32,
                internal_format: options.internal_format.raw() as i32,
                width: options.width as i32,
                height: options.height as i32,
                border: 0,
                format: options.format.raw(),
                texel: options.texel.raw(),
                data,
            },
        );
    }

    /// Updates the texture's parameters and contents with `options`.
    pub fn update(&self, ctx: &mut Context, options: TextureLoadOptions) -> (r: Result<(), String>)
        ensures
            r is Ok,
            final(ctx)@ == old(ctx)@ + update_calls(self.spec_target(), options),
    {
        let ghost start = ctx@;
        self.set_filters(ctx, options.min_filter, options.mag_filter);
        self.set_wraps(ctx, options.wrap_s, options.wrap_t);
        match options.bytes {
            Some(bytes) => {
                let data = vstd::slice::slice_to_vec(bytes);
                self.specify_image(ctx, options, Some(data));
            },
            None => {
                if options.allocate_storage {
                    self.specify_image(ctx, options, None);
                }
            },
        }
        match options.egl_image {
            Some(image) => {
                ctx.issue(Command::EglImageTargetTexture2DOes { target: self.target.raw(), image });
            },
            None => {},
        }
        if options.gen_mipmaps {
            ctx.issue(Command::GenerateMipmap { target: self.target.raw() });
        }
        assert(ctx@ =~= start + update_calls(self.spec_target(), options));
        Ok(())
    }

    /// Points the texture at the contents of an EGL image; the texture must
    /// be bound.
    pub fn update_with_egl_image(&self, ctx: &mut Context, egl_image: usize)
        ensures
            final(ctx)@ == old(ctx)@.push(
                Call::EglImageTargetTexture2DOes {
                    target: self.spec_target().spec_raw(),
                    image: egl_image,
                },
            ),
    {
        ctx.issue(
            Command::EglImageTargetTexture2DOes { target: self.target.raw(), image: egl_image },
        );
    }

    /// The native name of the texture.
    pub fn id(&self) -> (r: u32)
        ensures
            r == self.spec_id(),
    {
        self.id
    }

    /// The target the texture is bound to.
    pub fn target(&self) -> (r: TextureTarget)
        ensures
            r == self.spec_target(),
    {
        self.target
    }

    /// Deletes the native texture.
    pub fn delete(self, ctx: &mut Context)
        ensures
            final(ctx)@ == old(ctx)@.push(Call::DeleteTexture { texture: self.spec_id() }),
    {
        ctx.issue(Command::DeleteTexture { texture: self.id });
    }
}

impl Bindable for Texture {
    open spec fn bind_calls(&self) -> Seq<Call> {
        seq![Call::BindTexture { target: self.spec_target().spec_raw(), texture: self.spec_id() }]
    }

    /// Selects the texture unit of `slot`, then binds.
    open spec fn bind_at_calls(&self, slot: u32) -> Seq<Call> {
        seq![Call::ActiveTexture { texture: texture_unit(slot) }] + self.bind_calls()
    }

    /// Releasing binds the null texture to the target.
    open spec fn unbind_calls(&self) -> Seq<Call> {
        seq![Call::BindTexture { target: self.spec_target().spec_raw(), texture: 0 }]
    }

    /// Releases, then selects the first texture unit again.
    open spec fn unbind_at_calls(&self, slot: u32) -> Seq<Call> {
        self.unbind_calls().push(Call::ActiveTexture { texture: gl::TEXTURE0 })
    }

    fn bind(&self, ctx: &mut Context) {
        ctx.issue(Command::BindTexture { target: self.target.raw(), texture: self.id });
    }

    fn bind_at(&self, ctx: &mut Context, slot: u32) {
        ctx.issue(Command::ActiveTexture { texture: unit_of(slot) });
        self.bind(ctx);
        assert(ctx@ =~= old(ctx)@ + self.bind_at_calls(slot));
    }

    fn unbind(&self, ctx: &mut Context) {
        ctx.issue(Command::BindTexture { target: self.target.raw(), texture: 0 });
    }

    fn unbind_at(&self, ctx: &mut Context, slot: u32) {
        self.unbind(ctx);
        ctx.issue(Command::ActiveTexture { texture: gl::TEXTURE0 });
    }
}

} // verus!
