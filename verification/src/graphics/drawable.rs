//! What can be drawn, and how an image is drawn.

use vstd::prelude::*;
use crate::context::Context;
use crate::error::GameResult;
use crate::graphics::context::{GraphicsContext, GraphicsState};
use crate::graphics::image::{Image, ImageState};
use crate::graphics::shader::is_no_pipeline;
use crate::graphics::types::{BlendMode, Command, DrawParam, InstanceProperties};

verus! {

/// Anything that can be drawn to the active render target.
///
/// A drawable may draw with a blend mode of its own. Whatever it does, a draw
/// that succeeds leaves the blend mode of the active shader as it found it.
/// The matrix stacks and the selected shader are the caller's business.
pub trait Drawable {
    /// Draws the object with the given parameters.
    fn draw_ex(&self, ctx: &mut Context, param: DrawParam) -> (r: GameResult<()>)
        requires
            old(ctx).wf(),
        ensures
            final(ctx).wf(),
            r is Ok ==> final(ctx).gfx_context@.blend_mode() == old(ctx).gfx_context@.blend_mode(),
    ;

    /// Sets the blend mode that this drawable draws with; `None` leaves the
    /// choice to the active shader.
    fn set_blend_mode(&mut self, mode: Option<BlendMode>);

    /// The blend mode that this drawable draws with, if it has one of its own.
    fn get_blend_mode(&self) -> (mode: Option<BlendMode>);
}

/// The record of a draw call of an image: the parameters as given, the
/// image's size in texels as the scale, and whether its rows are stored
/// bottom-up.
pub open spec fn image_properties(
    image: ImageState,
    param: DrawParam,
    flip_vertical: bool,
) -> InstanceProperties {
    InstanceProperties {
        src: param.src,
        transform: param.trans,
        color: param.color,
        scale: (image.width, image.height),
        flip_vertical,
    }
}

/// The state once the record has been uploaded and the unit quad, the
/// image's texture and its sampler have been bound.
pub open spec fn bound(
    g: GraphicsState,
    image: ImageState,
    properties: InstanceProperties,
) -> GraphicsState {
    g.with_command(Command::UpdateInstance { properties }).with_texture(
        image.texture,
        image.sampler_info,
    )
}

/// Whether the image draws with a blend mode other than the one in force.
pub open spec fn overrides(g: GraphicsState, image: ImageState) -> bool {
    match image.blend_mode {
        Some(mode) => mode != g.blend_mode(),
        None => false,
    }
}

/// What drawing an image does to the graphics state, and whether it succeeds.
///
/// The record is uploaded and the texture bound in any case. If the image has
/// a blend mode of its own that differs from the one in force, the draw call
/// is made under that mode and the earlier mode is put back afterwards. Each
/// step needs a pipeline for the blend mode it selects; the first step that
/// lacks one ends the draw, and what was done up to then stays.
pub open spec fn drawn(g: GraphicsState, image: ImageState, properties: InstanceProperties) -> (
    GraphicsState,
    bool,
) {
    let b = bound(g, image, properties);
    if overrides(b, image) {
        let mode = image.blend_mode->Some_0;
        if !b.supports(mode) {
            (b, false)
        } else {
            let switched = b.with_blend_mode(mode);
            let done = switched.with_command(switched.draw_command(None));
            if done.supports(b.blend_mode()) {
                (done.with_blend_mode(b.blend_mode()), true)
            } else {
                (done, false)
            }
        }
    } else if b.supports(b.blend_mode()) {
        (b.with_command(b.draw_command(None)), true)
    } else {
        (b, false)
    }
}

/// Draws `image` as the unit quad with the given record.
pub fn draw_image_raw(image: &Image, gfx: &mut GraphicsContext, properties: InstanceProperties) -> (r:
    GameResult<()>)
    requires
        old(gfx).wf(),
    ensures
        final(gfx).wf(),
        final(gfx)@ == drawn(old(gfx)@, image@, properties).0,
        r is Ok <==> drawn(old(gfx)@, image@, properties).1,
        r is Err ==> is_no_pipeline(r),
{
    gfx.update_instance_properties(properties)?;
    gfx.bind_texture(image.texture(), image.sampler_info());
    let previous_mode: Option<BlendMode> = if let Some(mode) = image.get_blend_mode() {
        let current_mode = gfx.get_blend_mode();
        if current_mode != mode {
            gfx.set_blend_mode(mode)?;
            Some(current_mode)
        } else {
            None
        }
    } else {
        None
    };
    gfx.draw(None)?;
    if let Some(mode) = previous_mode {
        gfx.set_blend_mode(mode)?;
    }
    Ok(())
}

/// A draw that succeeds leaves the blend mode of the active shader as it
/// found it, whether or not the image drew with a mode of its own.
pub proof fn lemma_draw_restores_blend_mode(
    g: GraphicsState,
    image: ImageState,
    properties: InstanceProperties,
)
    requires
        g.wf(),
        drawn(g, image, properties).1,
    ensures
        drawn(g, image, properties).0.blend_mode() == g.blend_mode(),
        drawn(g, image, properties).0.current_shader == g.current_shader,
{
}

} // verus!
