//! Images: textures with a sampler descriptor and an optional blend mode of
//! their own.

use vstd::prelude::*;
use vstd::string::StringExecFns;
use crate::context::Context;
use crate::error::{GameError, GameResult};
use crate::graphics::drawable::{draw_image_raw, drawn, image_properties, Drawable};
use crate::graphics::shader::is_no_pipeline;
use crate::graphics::codec::{decode_rgba, decoded_rgba};
use crate::graphics::context::GraphicsState;
use crate::graphics::pixels::{solid_buffer, solid_pixels};
use crate::graphics::types::{DrawParam, InstanceProperties};
use crate::graphics::factory::{Factory, FactoryState, ResourceRequestView};
use crate::graphics::types::{BlendMode, FilterMode, SamplerInfo, TextureId, WrapMode};
use crate::text::{decimal, decimal_text};

verus! {

/// What an image stands for.
pub struct ImageState {
    /// The texture that holds the texels.
    pub texture: TextureId,
    /// How the texture is sampled.
    pub sampler_info: SamplerInfo,
    /// The blend mode used while this image is drawn, if it has one of its own.
    pub blend_mode: Option<BlendMode>,
    /// The width in texels.
    pub width: u32,
    /// The height in texels.
    pub height: u32,
}

/// Image data held by the backend, ready to be drawn. Both sides are at
/// least one texel and fit in 16 bits.
#[derive(Debug, Clone, Copy)]
pub struct Image {
    pub(crate) texture: TextureId,
    pub(crate) sampler_info: SamplerInfo,
    pub(crate) blend_mode: Option<BlendMode>,
    pub(crate) width: u32,
    pub(crate) height: u32,
}

/// The description of the error returned for an image without area.
pub open spec fn zero_size_text(width: u16, height: u16) -> Seq<char> {
    "Tried to create a texture of size "@ + decimal_text(width as nat) + "x"@ + decimal_text(
        height as nat,
    ) + ", each dimension must be >0"@
}

/// Whether `r` is the resource-load error for an image of the given size.
pub open spec fn is_zero_size_error<T>(r: GameResult<T>, width: u16, height: u16) -> bool {
    match r {
        Err(GameError::ResourceLoadError(msg)) => msg@ == zero_size_text(width, height),
        _ => false,
    }
}

/// Whether `r` is the render error that reports that no texture name is left.
pub open spec fn is_out_of_textures<T>(r: GameResult<T>) -> bool {
    match r {
        Err(GameError::RenderError(msg)) => msg@ == crate::graphics::factory::out_of_textures_text(),
        _ => false,
    }
}

/// What `Image::make_raw` returns and leaves behind, given the factory it
/// found: the image if there is one, and the factory afterwards.
pub open spec fn raw_image(
    factory: FactoryState,
    sampler_info: SamplerInfo,
    width: u16,
    height: u16,
    rgba: Seq<u8>,
) -> (Option<ImageState>, FactoryState) {
    if width == 0 || height == 0 || factory.next_texture == u64::MAX {
        (None, factory)
    } else {
        (
            Some(
                ImageState {
                    texture: TextureId(factory.next_texture),
                    sampler_info,
                    blend_mode: None,
                    width: width as u32,
                    height: height as u32,
                },
            ),
            FactoryState {
                next_texture: (factory.next_texture + 1) as u64,
                requests: factory.requests.push(
                    ResourceRequestView::Texture {
                        id: TextureId(factory.next_texture),
                        width,
                        height,
                        pixels: rgba,
                    },
                ),
            },
        )
    }
}

/// Whether `r` is what the construction of an image of the given size returns
/// when the factory was found in state `factory`.
pub open spec fn is_raw_image(
    r: GameResult<Image>,
    factory: FactoryState,
    sampler_info: SamplerInfo,
    width: u16,
    height: u16,
    rgba: Seq<u8>,
) -> bool {
    if width == 0 || height == 0 {
        is_zero_size_error(r, width, height)
    } else if factory.next_texture == u64::MAX {
        is_out_of_textures(r)
    } else {
        match r {
            Ok(image) => Some(image@) == raw_image(factory, sampler_info, width, height, rgba).0,
            Err(_) => false,
        }
    }
}

/// The graphics state after the construction of an image of the given size.
pub open spec fn with_raw_image(
    g: GraphicsState,
    width: u16,
    height: u16,
    rgba: Seq<u8>,
) -> GraphicsState {
    GraphicsState {
        factory: raw_image(g.factory, g.default_sampler_info, width, height, rgba).1,
        ..g
    }
}

/// Whether `r` is the resource-load error with the given description.
pub open spec fn is_load_error<T>(r: GameResult<T>, text: Seq<char>) -> bool {
    match r {
        Err(GameError::ResourceLoadError(msg)) => msg@ == text,
        _ => false,
    }
}

/// A 32-bit size as the 16 bits that an image keeps of it.
pub open spec fn low_16_bits(n: u32) -> u16 {
    (n % 0x1_0000) as u16
}

impl View for Image {
    type V = ImageState;

    closed spec fn view(&self) -> ImageState {
        ImageState {
            texture: self.texture,
            sampler_info: self.sampler_info,
            blend_mode: self.blend_mode,
            width: self.width,
            height: self.height,
        }
    }
}

fn zero_size_message(width: u16, height: u16) -> (msg: String)
    ensures
        msg@ == zero_size_text(width, height),
{
    let w = decimal(width as u64);
    let h = decimal(height as u64);
    let msg = "Tried to create a texture of size ".to_owned().concat(w.as_str()).concat("x").concat(
        h.as_str(),
    ).concat(", each dimension must be >0");
    msg
}

impl Image {
    /// Both sides are at least one texel and fit in 16 bits.
    #[verifier::type_invariant]
    pub closed spec fn inv(self) -> bool {
        1 <= self.width <= 0xffff && 1 <= self.height <= 0xffff
    }

    /// The error for an image of the given size, of which one side is zero.
    pub(crate) fn zero_size_error(width: u16, height: u16) -> (e: GameError)
        ensures
            e is ResourceLoadError,
            e.message() == zero_size_text(width, height),
    {
        GameError::ResourceLoadError(zero_size_message(width, height))
    }

    /// An image that reads from a texture that exists already.
    pub(crate) fn from_texture(
        texture: TextureId,
        sampler_info: SamplerInfo,
        width: u16,
        height: u16,
    ) -> (image: Image)
        requires
            width >= 1,
            height >= 1,
        ensures
            image@ == (ImageState {
                texture,
                sampler_info,
                blend_mode: None,
                width: width as u32,
                height: height as u32,
            }),
    {
        Image {
            texture,
            sampler_info,
            blend_mode: None,
            width: width as u32,
            height: height as u32,
        }
    }

    /// Creates an image of `width` by `height` texels from a buffer of RGBA8
    /// values, with the given sampler descriptor and no blend mode of its own.
    ///
    /// A side of zero is refused with a resource-load error before anything is
    /// asked of the factory. Otherwise the factory records the texture, with a
    /// copy of `rgba` as it is; the call fails only if no texture name is left.
    pub fn make_raw(
        factory: &mut Factory,
        sampler_info: &SamplerInfo,
        width: u16,
        height: u16,
        rgba: &[u8],
    ) -> (r: GameResult<Image>)
        ensures
            is_raw_image(r, old(factory)@, *sampler_info, width, height, rgba@),
            final(factory)@ == raw_image(old(factory)@, *sampler_info, width, height, rgba@).1,
            r is Ok ==> r->Ok_0@.width == width && r->Ok_0@.height == height,
            (width == 0 || height == 0) ==> is_zero_size_error(r, width, height),
    {
        if width == 0 || height == 0 {
            let msg = zero_size_message(width, height);
            return Err(GameError::ResourceLoadError(msg));
        }
        let texture = factory.create_texture(width, height, rgba)?;
        Ok(
            Image {
                texture,
                sampler_info: *sampler_info,
                blend_mode: None,
                width: width as u32,
                height: height as u32,
            },
        )
    }

    /// Decodes an image file and creates an image from its texels. `encoded`
    /// holds the bytes of the file.
    ///
    /// Fails with a resource-load error that carries the decoder's text if the
    /// bytes cannot be decoded, and as [`Image::from_rgba8`] does otherwise.
    pub fn new(context: &mut Context, encoded: &[u8]) -> (r: GameResult<Image>)
        requires
            old(context).wf(),
        ensures
            final(context).wf(),
            final(context).conf == old(context).conf,
            match decoded_rgba(encoded@) {
                Ok((width, height, rgba)) => is_raw_image(
                    r,
                    old(context).gfx_context@.factory,
                    old(context).gfx_context@.default_sampler_info,
                    low_16_bits(width),
                    low_16_bits(height),
                    rgba,
                ) && final(context).gfx_context@ == with_raw_image(
                    old(context).gfx_context@,
                    low_16_bits(width),
                    low_16_bits(height),
                    rgba,
                ),
                Err(text) => is_load_error(r, text) && final(context).gfx_context@ == old(context).gfx_context@,
            },
    {
        let decoded = decode_rgba(encoded);
        Image::from_decoded(context, decoded)
    }

    /// Creates an image from what the decoder made of an image file: the
    /// width, the height and the texels, or the text of its error. Only the
    /// low 16 bits of each side are kept.
    pub fn from_decoded(context: &mut Context, decoded: Result<(u32, u32, Vec<u8>), String>) -> (r:
        GameResult<Image>)
        requires
            old(context).wf(),
        ensures
            final(context).wf(),
            final(context).conf == old(context).conf,
            match decoded {
                Ok((width, height, rgba)) => is_raw_image(
                    r,
                    old(context).gfx_context@.factory,
                    old(context).gfx_context@.default_sampler_info,
                    low_16_bits(width),
                    low_16_bits(height),
                    rgba@,
                ) && final(context).gfx_context@ == with_raw_image(
                    old(context).gfx_context@,
                    low_16_bits(width),
                    low_16_bits(height),
                    rgba@,
                ),
                Err(text) => is_load_error(r, text@) && final(context).gfx_context@ == old(context).gfx_context@,
            },
    {
        match decoded {
            Ok((width, height, rgba)) => {
                let w: u16 = (width % 0x1_0000) as u16;
                let h: u16 = (height % 0x1_0000) as u16;
                Image::from_rgba8(context, w, h, rgba.as_slice())
            },
            Err(text) => Err(GameError::ResourceLoadError(text)),
        }
    }

    /// Creates an image of `width` by `height` texels from a buffer of RGBA8
    /// values, with the default sampler descriptor of the context.
    ///
    /// A side of zero always gives a resource-load error, never an image
    /// without area. Otherwise the image has exactly the sides asked for. The
    /// buffer is handed on as it is: that it holds `width * height * 4`
    /// bytes is for the caller to see to.
    pub fn from_rgba8(context: &mut Context, width: u16, height: u16, rgba: &[u8]) -> (r:
        GameResult<Image>)
        requires
            old(context).wf(),
        ensures
            final(context).wf(),
            final(context).conf == old(context).conf,
            is_raw_image(
                r,
                old(context).gfx_context@.factory,
                old(context).gfx_context@.default_sampler_info,
                width,
                height,
                rgba@,
            ),
            final(context).gfx_context@ == with_raw_image(
                old(context).gfx_context@,
                width,
                height,
                rgba@,
            ),
            r is Ok ==> r->Ok_0@.width == width && r->Ok_0@.height == height,
            (width == 0 || height == 0) ==> is_zero_size_error(r, width, height),
    {
        context.gfx_context.create_image(width, height, rgba)
    }

    /// Creates a square image of `size` by `size` texels that all have the
    /// colour `color`, given as red, green, blue and alpha.
    pub fn solid(context: &mut Context, size: u16, color: (u8, u8, u8, u8)) -> (r: GameResult<
        Image,
    >)
        requires
            old(context).wf(),
        ensures
            final(context).wf(),
            final(context).conf == old(context).conf,
            is_raw_image(
                r,
                old(context).gfx_context@.factory,
                old(context).gfx_context@.default_sampler_info,
                size,
                size,
                solid_pixels(size as nat * size as nat, color.0, color.1, color.2, color.3),
            ),
            final(context).gfx_context@ == with_raw_image(
                old(context).gfx_context@,
                size,
                size,
                solid_pixels(size as nat * size as nat, color.0, color.1, color.2, color.3),
            ),
            size == 0 ==> is_zero_size_error(r, size, size),
    {
        let (r, g, b, a) = color;
        assert(size as nat * size as nat <= 0xffff * 0xffff) by (nonlinear_arith)
            requires
                size <= 0xffff,
        ;
        let size_squared: usize = size as usize * size as usize;
        let buffer = solid_buffer(size_squared, r, g, b, a);
        Image::from_rgba8(context, size, size, buffer.as_slice())
    }

    /// The width of the image in texels: at least 1, and no more than fits in
    /// 16 bits.
    pub fn width(&self) -> (w: u32)
        ensures
            w == self@.width,
            1 <= w <= 0xffff,
    {
        proof {
            use_type_invariant(self);
        }
        self.width
    }

    /// The height of the image in texels: at least 1, and no more than fits in
    /// 16 bits.
    pub fn height(&self) -> (h: u32)
        ensures
            h == self@.height,
            1 <= h <= 0xffff,
    {
        proof {
            use_type_invariant(self);
        }
        self.height
    }

    /// The texture that holds the texels.
    pub fn texture(&self) -> (t: TextureId)
        ensures
            t == self@.texture,
    {
        self.texture
    }

    /// The sampler descriptor of the image.
    pub fn sampler_info(&self) -> (info: SamplerInfo)
        ensures
            info == self@.sampler_info,
    {
        self.sampler_info
    }

    /// The filter mode of the image.
    pub fn get_filter(&self) -> (mode: FilterMode)
        ensures
            mode == self@.sampler_info.filter,
    {
        self.sampler_info.filter
    }

    /// Sets the filter mode of the image.
    pub fn set_filter(&mut self, mode: FilterMode)
        ensures
            final(self)@ == (ImageState {
                sampler_info: SamplerInfo { filter: mode, ..old(self)@.sampler_info },
                ..old(self)@
            }),
    {
        proof {
            use_type_invariant(&*self);
        }
        self.sampler_info.filter = mode;
    }

    /// The wrap modes of the image along X and along Y.
    pub fn get_wrap(&self) -> (wrap: (WrapMode, WrapMode))
        ensures
            wrap == (self@.sampler_info.wrap_x, self@.sampler_info.wrap_y),
    {
        (self.sampler_info.wrap_x, self.sampler_info.wrap_y)
    }

    /// Sets the wrap modes of the image along X and along Y.
    pub fn set_wrap(&mut self, wrap_x: WrapMode, wrap_y: WrapMode)
        ensures
            final(self)@ == (ImageState {
                sampler_info: SamplerInfo { wrap_x, wrap_y, ..old(self)@.sampler_info },
                ..old(self)@
            }),
    {
        proof {
            use_type_invariant(&*self);
        }
        self.sampler_info.wrap_x = wrap_x;
        self.sampler_info.wrap_y = wrap_y;
    }
}

impl Drawable for Image {
    /// Draws the image at its own size in texels. While the image is drawn,
    /// its own blend mode is in force if it has one; afterwards the earlier
    /// mode is back.
    fn draw_ex(&self, ctx: &mut Context, param: DrawParam) -> (r: GameResult<()>)
        ensures
            final(ctx).conf == old(ctx).conf,
            final(ctx).gfx_context@ == drawn(
                old(ctx).gfx_context@,
                self@,
                image_properties(self@, param, false),
            ).0,
            r is Ok <==> drawn(
                old(ctx).gfx_context@,
                self@,
                image_properties(self@, param, false),
            ).1,
            r is Err ==> is_no_pipeline(r),
    {
        let properties = InstanceProperties {
            src: param.src,
            transform: param.trans,
            color: param.color,
            scale: (self.width, self.height),
            flip_vertical: false,
        };
        draw_image_raw(self, &mut ctx.gfx_context, properties)
    }

    fn set_blend_mode(&mut self, mode: Option<BlendMode>)
        ensures
            final(self)@ == (ImageState { blend_mode: mode, ..old(self)@ }),
    {
        proof {
            use_type_invariant(&*self);
        }
        self.blend_mode = mode;
    }

    fn get_blend_mode(&self) -> (mode: Option<BlendMode>)
        ensures
            mode == self@.blend_mode,
    {
        self.blend_mode
    }
}

} // verus!
