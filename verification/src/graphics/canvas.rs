//! Canvases: textures that can be rendered into and then drawn like images.
//!
//! A render texture stores its rows bottom-up. That is put right exactly
//! once on each way out of a canvas: when the canvas is drawn, by marking the
//! draw call as flipped, and when its texels are extracted, by reversing the
//! rows of what was read back.

use vstd::prelude::*;
use crate::conf::NumSamples;
use crate::context::Context;
use crate::error::{GameError, GameResult};
use crate::graphics::codec::{encode_png, png_encoding};
use crate::graphics::context::GraphicsState;
use crate::graphics::drawable::{draw_image_raw, drawn, image_properties, Drawable};
use crate::graphics::factory::{FactoryState, ResourceRequestView};
use crate::graphics::image::{
    is_load_error,
    is_out_of_textures,
    is_raw_image,
    is_zero_size_error,
    low_16_bits,
    with_raw_image,
    Image,
    ImageState,
};
use crate::graphics::pixels::{flip_pixel_data, flipped};
use crate::graphics::shader::is_no_pipeline;
use crate::graphics::types::{
    AaMode,
    BlendMode,
    DrawParam,
    FilterMode,
    ImageFormat,
    InstanceProperties,
    RenderTarget,
    SamplerInfo,
    TextureId,
};

verus! {

/// What a canvas stands for: the texture to render into, and the image that
/// reads from the same texture.
pub struct CanvasState {
    pub target: TextureId,
    pub image: ImageState,
}

/// A render target that is also an image.
#[derive(Debug, Clone, Copy)]
pub struct Canvas {
    target: TextureId,
    image: Image,
}

impl View for Canvas {
    type V = CanvasState;

    closed spec fn view(&self) -> CanvasState {
        CanvasState { target: self.target, image: self.image@ }
    }
}

/// The anti-aliasing of a canvas with the given number of samples.
pub open spec fn aa_mode(samples: NumSamples) -> AaMode {
    match samples {
        NumSamples::One => AaMode::Single,
        s => AaMode::Multi(s.count()),
    }
}

/// What `Canvas::new` returns and leaves behind, given the graphics state it
/// found: the canvas if there is one, and the state afterwards.
pub open spec fn new_canvas(
    g: GraphicsState,
    width: u16,
    height: u16,
    samples: NumSamples,
    color_format: gfx::format::Format,
) -> (Option<CanvasState>, GraphicsState) {
    if width == 0 || height == 0 || g.factory.next_texture == u64::MAX {
        (None, g)
    } else {
        (
            Some(
                CanvasState {
                    target: TextureId(g.factory.next_texture),
                    image: ImageState {
                        texture: TextureId(g.factory.next_texture),
                        sampler_info: g.default_sampler_info,
                        blend_mode: None,
                        width: width as u32,
                        height: height as u32,
                    },
                },
            ),
            GraphicsState {
                factory: FactoryState {
                    next_texture: (g.factory.next_texture + 1) as u64,
                    requests: g.factory.requests.push(
                        ResourceRequestView::RenderTexture {
                            id: TextureId(g.factory.next_texture),
                            width,
                            height,
                            aa: aa_mode(samples),
                            format: color_format,
                        },
                    ),
                },
                ..g
            },
        )
    }
}

/// Whether `r` is what `Canvas::new` returns for the given size when it finds
/// the graphics state `g`.
pub open spec fn is_new_canvas(
    r: GameResult<Canvas>,
    g: GraphicsState,
    width: u16,
    height: u16,
    samples: NumSamples,
    color_format: gfx::format::Format,
) -> bool {
    if width == 0 || height == 0 {
        is_zero_size_error(r, width, height)
    } else if g.factory.next_texture == u64::MAX {
        is_out_of_textures(r)
    } else {
        match r {
            Ok(canvas) => Some(canvas@) == new_canvas(g, width, height, samples, color_format).0,
            Err(_) => false,
        }
    }
}

/// The description of the error returned when the bytes read back from a
/// canvas are not four for each of its texels.
pub open spec fn readback_size_text() -> Seq<char> {
    "The pixel data read back does not have the size of the canvas"@
}

/// The texels of a canvas the right way up, given what was read back from
/// its texture; nothing if that is not four bytes for each texel.
pub open spec fn upright(canvas: CanvasState, raw: Seq<u8>) -> Option<Seq<u8>> {
    if raw.len() == canvas.image.height as nat * (canvas.image.width as nat * 4) {
        Some(flipped(canvas.image.width as nat, canvas.image.height as nat, raw))
    } else {
        None
    }
}

/// Whether `r` is the render error that reports a readback of the wrong size.
pub open spec fn is_readback_size_error<T>(r: GameResult<T>) -> bool {
    match r {
        Err(GameError::RenderError(msg)) => msg@ == readback_size_text(),
        _ => false,
    }
}

/// Whether `r` is what becomes of the encoder's outcome: the bytes of the
/// file, or a resource-load error with the encoder's text.
pub open spec fn is_encoded(r: GameResult<Vec<u8>>, outcome: Result<Seq<u8>, Seq<char>>) -> bool {
    match outcome {
        Ok(file) => r is Ok && r->Ok_0@ == file,
        Err(text) => is_load_error(r, text),
    }
}

impl Canvas {
    /// Creates a canvas of the given size with the given number of samples
    /// per pixel and the given colour format. The canvas gets the default
    /// sampler descriptor and no blend mode of its own.
    ///
    /// A side of zero is refused with a resource-load error. Otherwise the
    /// render texture is requested from the factory; the call fails only if
    /// no texture name is left.
    pub fn new(
        ctx: &mut Context,
        width: u16,
        height: u16,
        samples: NumSamples,
        color_format: gfx::format::Format,
    ) -> (r: GameResult<Canvas>)
        requires
            old(ctx).wf(),
        ensures
            final(ctx).wf(),
            final(ctx).conf == old(ctx).conf,
            is_new_canvas(r, old(ctx).gfx_context@, width, height, samples, color_format),
            final(ctx).gfx_context@ == new_canvas(
                old(ctx).gfx_context@,
                width,
                height,
                samples,
                color_format,
            ).1,
    {
        let aa = match samples {
            NumSamples::One => AaMode::Single,
            s => AaMode::Multi(s.to_u8()),
        };
        let texture = ctx.gfx_context.create_render_texture(width, height, aa, color_format)?;
        let sampler_info = ctx.gfx_context.default_sampler_info();
        let image = Image::from_texture(texture, sampler_info, width, height);
        Ok(Canvas { target: texture, image })
    }

    /// Creates a canvas of the size of the window's drawable area, without
    /// multisampling. Only the low 16 bits of each side are kept.
    pub fn with_window_size(
        ctx: &mut Context,
        drawable_size: (u32, u32),
        color_format: gfx::format::Format,
    ) -> (r: GameResult<Canvas>)
        requires
            old(ctx).wf(),
        ensures
            final(ctx).wf(),
            final(ctx).conf == old(ctx).conf,
            is_new_canvas(
                r,
                old(ctx).gfx_context@,
                low_16_bits(drawable_size.0),
                low_16_bits(drawable_size.1),
                NumSamples::One,
                color_format,
            ),
            final(ctx).gfx_context@ == new_canvas(
                old(ctx).gfx_context@,
                low_16_bits(drawable_size.0),
                low_16_bits(drawable_size.1),
                NumSamples::One,
                color_format,
            ).1,
    {
        let (w, h) = drawable_size;
        Canvas::new(
            ctx,
            (w % 0x1_0000) as u16,
            (h % 0x1_0000) as u16,
            NumSamples::One,
            color_format,
        )
    }

    /// The image that reads from the canvas's texture. Its rows are stored
    /// bottom-up; `to_image` gives an image the right way up.
    pub fn raw_image(&self) -> (image: &Image)
        ensures
            image@ == self@.image,
    {
        &self.image
    }

    /// The render target of the canvas.
    pub fn target(&self) -> (target: RenderTarget)
        ensures
            target == RenderTarget::Canvas(self@.target),
    {
        RenderTarget::Canvas(self.target)
    }

    /// The texels of the canvas as RGBA8 values, top row first. `raw` is what
    /// was read back from the canvas's texture, bottom row first; it must
    /// hold four bytes for each texel, else a render error is returned.
    pub fn to_rgba8(&self, raw: Vec<u8>) -> (r: GameResult<Vec<u8>>)
        ensures
            match upright(self@, raw@) {
                Some(rgba) => r is Ok && r->Ok_0@ == rgba,
                None => is_readback_size_error(r),
            },
    {
        let width: u32 = self.image.width();
        let height: u32 = self.image.height();
        assert(height as u64 * (width as u64 * 4) <= 0xffff * (0xffff * 4)) by (nonlinear_arith)
            requires
                width <= 0xffff,
                height <= 0xffff,
        ;
        let expected: u64 = height as u64 * (width as u64 * 4);
        if raw.len() as u64 != expected {
            return Err(
                GameError::RenderError(
                    "The pixel data read back does not have the size of the canvas".to_owned(),
                ),
            );
        }
        let mut pixel_data = raw;
        flip_pixel_data(&mut pixel_data, width as usize, height as usize);
        Ok(pixel_data)
    }

    /// Creates an image with the content of the canvas, the right way up.
    /// `raw` is what was read back from the canvas's texture.
    pub fn to_image(&self, ctx: &mut Context, raw: Vec<u8>) -> (r: GameResult<Image>)
        requires
            old(ctx).wf(),
        ensures
            final(ctx).wf(),
            final(ctx).conf == old(ctx).conf,
            match upright(self@, raw@) {
                Some(rgba) => is_raw_image(
                    r,
                    old(ctx).gfx_context@.factory,
                    old(ctx).gfx_context@.default_sampler_info,
                    self@.image.width as u16,
                    self@.image.height as u16,
                    rgba,
                ) && final(ctx).gfx_context@ == with_raw_image(
                    old(ctx).gfx_context@,
                    self@.image.width as u16,
                    self@.image.height as u16,
                    rgba,
                ),
                None => is_readback_size_error(r) && final(ctx).gfx_context@ == old(ctx).gfx_context@,
            },
    {
        let pixel_data = self.to_rgba8(raw)?;
        Image::from_rgba8(ctx, self.width(), self.height(), pixel_data.as_slice())
    }

    /// Encodes the content of the canvas, the right way up, in the given file
    /// format and returns the bytes of the file. `raw` is what was read back
    /// from the canvas's texture.
    pub fn encode(&self, raw: Vec<u8>, format: ImageFormat) -> (r: GameResult<Vec<u8>>)
        ensures
            match upright(self@, raw@) {
                Some(rgba) => is_encoded(
                    r,
                    png_encoding(rgba, self@.image.width, self@.image.height),
                ),
                None => is_readback_size_error(r),
            },
    {
        let data = self.to_rgba8(raw)?;
        match format {
            ImageFormat::Png => {
                let outcome = encode_png(
                    data.as_slice(),
                    self.image.width(),
                    self.image.height(),
                );
                Canvas::encoded(outcome)
            },
        }
    }

    /// Turns the encoder's outcome into the library's: the bytes of the file
    /// as they are, an error as a resource-load error with the same text.
    pub fn encoded(outcome: Result<Vec<u8>, String>) -> (r: GameResult<Vec<u8>>)
        ensures
            match outcome {
                Ok(file) => r is Ok && r->Ok_0@ == file@,
                Err(text) => is_load_error(r, text@),
            },
    {
        match outcome {
            Ok(file) => Ok(file),
            Err(text) => Err(GameError::ResourceLoadError(text)),
        }
    }

    /// The width of the canvas in texels.
    pub fn width(&self) -> (w: u16)
        ensures
            w == self@.image.width,
            w >= 1,
    {
        self.image.width() as u16
    }

    /// The height of the canvas in texels.
    pub fn height(&self) -> (h: u16)
        ensures
            h == self@.image.height,
            h >= 1,
    {
        self.image.height() as u16
    }

    /// The filter mode of the canvas.
    pub fn filter(&self) -> (mode: FilterMode)
        ensures
            mode == self@.image.sampler_info.filter,
    {
        self.image.get_filter()
    }

    /// Sets the filter mode of the canvas.
    pub fn set_filter(&mut self, mode: FilterMode)
        ensures
            final(self)@ == (CanvasState {
                image: ImageState {
                    sampler_info: SamplerInfo { filter: mode, ..old(self)@.image.sampler_info },
                    ..old(self)@.image
                },
                ..old(self)@
            }),
    {
        self.image.set_filter(mode)
    }
}

impl Drawable for Canvas {
    /// Draws the canvas like an image of its size, marked as stored
    /// bottom-up, so that it appears the right way up.
    fn draw_ex(&self, ctx: &mut Context, param: DrawParam) -> (r: GameResult<()>)
        ensures
            final(ctx).conf == old(ctx).conf,
            final(ctx).gfx_context@ == drawn(
                old(ctx).gfx_context@,
                self@.image,
                image_properties(self@.image, param, true),
            ).0,
            r is Ok <==> drawn(
                old(ctx).gfx_context@,
                self@.image,
                image_properties(self@.image, param, true),
            ).1,
            r is Err ==> is_no_pipeline(r),
    {
        let properties = InstanceProperties {
            src: param.src,
            transform: param.trans,
            color: param.color,
            scale: (self.image.width(), self.image.height()),
            flip_vertical: true,
        };
        draw_image_raw(&self.image, &mut ctx.gfx_context, properties)
    }

    fn set_blend_mode(&mut self, mode: Option<BlendMode>)
        ensures
            final(self)@ == (CanvasState {
                image: ImageState { blend_mode: mode, ..old(self)@.image },
                ..old(self)@
            }),
    {
        self.image.set_blend_mode(mode);
    }

    fn get_blend_mode(&self) -> (mode: Option<BlendMode>)
        ensures
            mode == self@.image.blend_mode,
    {
        self.image.get_blend_mode()
    }
}

/// Makes `target` the canvas that is rendered to from now on; with `None`,
/// rendering goes to the screen again. There is one active target, not a
/// stack of them.
pub fn set_canvas(ctx: &mut Context, target: Option<&Canvas>)
    requires
        old(ctx).wf(),
    ensures
        final(ctx).wf(),
        final(ctx).conf == old(ctx).conf,
        final(ctx).gfx_context@ == old(ctx).gfx_context@.with_target(
            match target {
                Some(surface) => RenderTarget::Canvas(surface@.target),
                None => RenderTarget::Screen,
            },
        ),
{
    match target {
        Some(surface) => {
            ctx.gfx_context.set_render_target(surface.target());
        },
        None => {
            ctx.gfx_context.set_render_target(RenderTarget::Screen);
        },
    }
}

} // verus!
