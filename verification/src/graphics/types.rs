//! Plain value types of the drawing interface.

use vstd::prelude::*;
use crate::conf::FullscreenType;

verus! {

/// `gfx::format::Format`, a surface type paired with a channel type. The
/// library only passes it on to whoever creates the render texture.
#[verifier::external_type_specification]
#[verifier::external_body]
pub struct ExFormat(gfx::format::Format);

/// How the pixels of a draw call are combined with what is already there.
#[derive(Clone, Copy, Debug, PartialEq, Eq, Structural, Hash)]
pub enum BlendMode {
    /// Source over destination, weighted by alpha.
    Alpha,
    /// Source added to destination.
    Add,
    /// Source subtracted from destination.
    Subtract,
    /// Destination inverted by the source.
    Invert,
    /// Source multiplied with destination.
    Multiply,
    /// Source replaces destination.
    Replace,
    /// The lighter of source and destination.
    Lighten,
    /// The darker of source and destination.
    Darken,
}

/// How a texture is sampled when it is scaled.
#[derive(Clone, Copy, Debug, PartialEq, Eq, Structural, Hash)]
pub enum FilterMode {
    /// Neighbouring texels are blended.
    Linear,
    /// The nearest texel is taken.
    Nearest,
}

/// What a sampler returns outside the unit square.
#[derive(Clone, Copy, Debug, PartialEq, Eq, Structural, Hash)]
pub enum WrapMode {
    /// The texture repeats.
    Tile,
    /// The texture repeats, mirrored at each edge.
    Mirror,
    /// The edge texel is extended.
    Clamp,
    /// A border colour is used.
    Border,
}

/// The file formats that pixel data can be encoded to.
#[derive(Clone, Copy, Debug, PartialEq, Eq, Structural, Hash)]
pub enum ImageFormat {
    /// Portable Network Graphics.
    Png,
}

/// Describes a sampler: the filter and the wrap mode along X and along Y.
#[derive(Clone, Copy, Debug, PartialEq, Eq, Structural, Hash)]
pub struct SamplerInfo {
    /// The filter used when scaling.
    pub filter: FilterMode,
    /// The wrap mode along the X axis.
    pub wrap_x: WrapMode,
    /// The wrap mode along the Y axis.
    pub wrap_y: WrapMode,
}

impl SamplerInfo {
    /// A descriptor with the given filter and the same wrap mode on both axes.
    pub fn new(filter: FilterMode, wrap: WrapMode) -> (r: SamplerInfo)
        ensures
            r == (SamplerInfo { filter, wrap_x: wrap, wrap_y: wrap }),
    {
        SamplerInfo { filter, wrap_x: wrap, wrap_y: wrap }
    }
}

/// Names a texture that the backend holds.
#[derive(Clone, Copy, Debug, PartialEq, Eq, Structural, Hash)]
pub struct TextureId(pub u64);

/// Names a vertex or index buffer that the backend holds.
#[derive(Clone, Copy, Debug, PartialEq, Eq, Structural, Hash)]
pub struct BufferId(pub u64);

/// Names a sampler: its position in the sampler cache.
#[derive(Clone, Copy, Debug, PartialEq, Eq, Structural, Hash)]
pub struct SamplerId(pub usize);

/// Where draw calls and clears end up.
#[derive(Clone, Copy, Debug, PartialEq, Eq, Structural, Hash)]
pub enum RenderTarget {
    /// The window's own surface.
    Screen,
    /// The render texture of a canvas.
    Canvas(TextureId),
}

/// Anti-aliasing of a texture.
#[derive(Clone, Copy, Debug, PartialEq, Eq, Structural, Hash)]
pub enum AaMode {
    /// One sample per pixel.
    Single,
    /// That many samples per pixel.
    Multi(u8),
}

/// A range of indices to draw, with the index buffer that holds them.
#[derive(Clone, Copy, Debug, PartialEq, Eq, Hash)]
pub struct Slice {
    /// The first index.
    pub start: u32,
    /// One past the last index.
    pub end: u32,
    /// Added to every index.
    pub base_vertex: u32,
    /// The number of instances and the first instance, if instanced.
    pub instances: Option<(u32, u32)>,
    /// The index buffer.
    pub buffer: BufferId,
}

/// The parameters of one draw call as the library sees them: the part of the
/// texture to show, the tint, and the transform already in matrix form.
#[derive(Clone, Copy, Debug)]
pub struct DrawParam {
    /// The part of the texture to draw, as fractions of the whole: x, y, w, h.
    pub src: glam::Vec4,
    /// The tint: red, green, blue, alpha.
    pub color: glam::Vec4,
    /// The model transform of this draw call.
    pub trans: glam::Mat4,
}

/// The per-draw record that the backend writes into the instance buffer.
///
/// `scale` and `flip_vertical` are decided here and folded into the transform
/// by the backend when it fills the buffer: the unit quad is stretched to
/// `scale` texels times the fraction selected by `src`, and, for a render
/// texture, turned upside down once.
#[derive(Clone, Copy, Debug)]
pub struct InstanceProperties {
    /// The part of the texture to draw.
    pub src: glam::Vec4,
    /// The transform of the draw call.
    pub transform: glam::Mat4,
    /// The tint.
    pub color: glam::Vec4,
    /// The size in texels of the whole texture, or `(1, 1)` for untextured geometry.
    pub scale: (u32, u32),
    /// Whether the rows of the texture are stored bottom-up.
    pub flip_vertical: bool,
}

impl InstanceProperties {
    /// The record of a draw call that uses `param` as it is.
    pub fn from(p: DrawParam) -> (r: InstanceProperties)
        ensures
            r == Self::spec_from(p),
    {
        InstanceProperties {
            src: p.src,
            transform: p.trans,
            color: p.color,
            scale: (1u32, 1u32),
            flip_vertical: false,
        }
    }

    /// The record of a draw call that uses `param` as it is.
    pub open spec fn spec_from(p: DrawParam) -> InstanceProperties {
        InstanceProperties {
            src: p.src,
            transform: p.trans,
            color: p.color,
            scale: (1u32, 1u32),
            flip_vertical: false,
        }
    }
}

/// What the bound pipeline reads and writes: the vertex buffer, the texture
/// with its sampler, and the render target.
#[derive(Clone, Copy, Debug, PartialEq, Eq, Structural, Hash)]
pub struct PipelineData {
    /// The bound vertex buffer.
    pub vbuf: BufferId,
    /// The bound texture.
    pub texture: TextureId,
    /// The sampler that the texture is read through.
    pub sampler: SamplerId,
    /// The active render target.
    pub out: RenderTarget,
}

/// What the window and its OpenGL context are created with.
#[derive(Clone, Copy, Debug, PartialEq, Eq, Hash)]
pub struct WindowRequest {
    /// The major version of OpenGL to ask for.
    pub gl_major: u8,
    /// The minor version of OpenGL to ask for.
    pub gl_minor: u8,
    /// The bits of the red, green, blue and alpha channels.
    pub channel_bits: (u8, u8, u8, u8),
    /// The number of samples per pixel, if the surface is multisampled.
    pub multisample: Option<u8>,
    /// The width of the window.
    pub width: u32,
    /// The height of the window.
    pub height: u32,
    /// Whether the user may resize the window.
    pub resizable: bool,
    /// Whether a high-density surface is requested.
    pub allow_highdpi: bool,
}

/// One thing for the backend to do. Commands are carried out in the order in
/// which they were recorded.
#[derive(Clone, Copy, Debug)]
pub enum Command {
    /// Create the window and its OpenGL context.
    CreateWindow { request: WindowRequest },
    /// Set the size of the window.
    SetWindowSize { width: u32, height: u32 },
    /// Show or hide the window's border.
    SetBordered { bordered: bool },
    /// Change the fullscreen state.
    SetFullscreen { fullscreen: FullscreenType },
    /// Set the smallest size the window may take.
    SetMinimumSize { width: u32, height: u32 },
    /// Set the largest size the window may take.
    SetMaximumSize { width: u32, height: u32 },
    /// Set the swap interval: 1 waits for the display, 0 does not.
    SetSwapInterval { interval: i32 },
    /// Take the render target and depth views from the window again.
    UpdateViews,
    /// Submit what was recorded, show the frame and release unused resources.
    Present,
    /// Clear the target to the colour.
    Clear { target: RenderTarget, color: glam::Vec4 },
    /// Upload the model-view-projection matrix.
    UpdateGlobals { mvp: glam::Mat4 },
    /// Upload the record of the next draw call.
    UpdateInstance { properties: InstanceProperties },
    /// Draw the slice with the pipeline of `shader` for `blend_mode`.
    Draw { slice: Slice, shader: usize, blend_mode: BlendMode, data: PipelineData },
}

} // verus!
