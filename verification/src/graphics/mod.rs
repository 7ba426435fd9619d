//! Graphics state: matrix stacks, shaders and blend modes, samplers, images
//! and canvases, and the commands handed to the backend.
//!
//! The functions of this module work on the graphics context of a
//! [`Context`]. Changes to the matrix stacks and to the projection take
//! effect only with the next [`apply_transformations`]: several changes can be
//! made before one upload.

pub mod backend;
pub mod canvas;
pub mod codec;
pub mod context;
pub mod drawable;
pub mod factory;
pub mod gpu;
pub mod image;
pub mod matrix;
pub mod pixels;
pub mod sampler;
pub mod shader;
pub mod stack;
pub mod types;

use vstd::prelude::*;
use crate::conf::{FullscreenType, WindowMode};
use crate::context::Context;
use crate::error::GameResult;
use crate::graphics::context::{clamped, window_mode_commands, GraphicsState};
use crate::graphics::stack::{popped, pushed, with_top};
use crate::graphics::drawable::Drawable;
use crate::graphics::matrix::{mat4_identity, mat4_is_identity, mat4_mul, mat4_product};
use crate::graphics::sampler::{cache_with, requests_with};
use crate::graphics::shader::is_no_pipeline;
use crate::graphics::types::{BlendMode, Command, DrawParam, FilterMode};

verus! {

/// Records the clearing of the active render target to the background colour.
pub fn clear(ctx: &mut Context)
    requires
        old(ctx).wf(),
    ensures
        final(ctx).wf(),
        final(ctx).conf == old(ctx).conf,
        final(ctx).window_mode == old(ctx).window_mode,
        final(ctx).gfx_context@ == old(ctx).gfx_context@.with_command(
            Command::Clear {
                target: old(ctx).gfx_context@.data.out,
                color: old(ctx).gfx_context@.background_color,
            },
        ),
{
    ctx.gfx_context.clear();
}

/// Draws `drawable` with the given parameters: there is a call of the
/// drawable's own `draw_ex` with these parameters that found the context as
/// this function found it, left it as this function leaves it, and returned
/// what this function returns. Whatever the drawable, a draw that succeeds
/// leaves the blend mode of the active shader as it found it.
pub fn draw_ex<D: Drawable>(ctx: &mut Context, drawable: &D, params: DrawParam) -> (r: GameResult<()>)
    requires
        old(ctx).wf(),
    ensures
        final(ctx).wf(),
        r is Ok ==> final(ctx).gfx_context@.blend_mode() == old(ctx).gfx_context@.blend_mode(),
        (exists|c: &mut Context|
            mut_ref_current(c) == *old(ctx) && #[trigger] call_ensures(
                D::draw_ex,
                (drawable, c, params),
                r,
            ) && mut_ref_future(c) == *final(ctx)),
{
    drawable.draw_ex(ctx, params)
}

/// Records the end of the frame.
pub fn present(ctx: &mut Context)
    requires
        old(ctx).wf(),
    ensures
        final(ctx).wf(),
        final(ctx).conf == old(ctx).conf,
        final(ctx).window_mode == old(ctx).window_mode,
        final(ctx).gfx_context@ == old(ctx).gfx_context@.with_command(Command::Present),
{
    ctx.gfx_context.present();
}

/// The background colour.
pub fn get_background_color(ctx: &Context) -> (color: glam::Vec4)
    ensures
        color == ctx.gfx_context@.background_color,
{
    ctx.gfx_context.background_color()
}

/// The filter mode that new images get.
pub fn get_default_filter(ctx: &Context) -> (mode: FilterMode)
    ensures
        mode == ctx.gfx_context@.default_sampler_info.filter,
{
    ctx.gfx_context.default_sampler_info().filter
}

/// The rectangle of the coordinate system: x, y, w, h.
pub fn get_screen_coordinates(ctx: &Context) -> (rect: glam::Vec4)
    ensures
        rect == ctx.gfx_context@.screen_rect,
{
    ctx.gfx_context.screen_rect()
}

/// Sets the background colour.
pub fn set_background_color(ctx: &mut Context, color: glam::Vec4)
    requires
        old(ctx).wf(),
    ensures
        final(ctx).wf(),
        final(ctx).conf == old(ctx).conf,
        final(ctx).window_mode == old(ctx).window_mode,
        final(ctx).gfx_context@ == (GraphicsState {
            background_color: color,
            ..old(ctx).gfx_context@
        }),
{
    ctx.gfx_context.set_background_color(color);
}

/// Sets the filter mode that new images get. Images that exist keep theirs.
pub fn set_default_filter(ctx: &mut Context, mode: FilterMode)
    requires
        old(ctx).wf(),
    ensures
        final(ctx).wf(),
        final(ctx).conf == old(ctx).conf,
        final(ctx).window_mode == old(ctx).window_mode,
        final(ctx).gfx_context@ == (GraphicsState {
            samplers: cache_with(old(ctx).gfx_context@.samplers, clamped(mode)),
            factory: requests_with(
                old(ctx).gfx_context@.factory,
                old(ctx).gfx_context@.samplers,
                clamped(mode),
            ),
            default_sampler_info: clamped(mode),
            ..old(ctx).gfx_context@
        }),
{
    ctx.gfx_context.set_default_filter(mode);
}

/// Makes `rect` the rectangle of the coordinate system, with `projection` as
/// the orthographic projection derived from it, and applies the change at
/// once: the model-view-projection matrix is recomputed and its upload
/// recorded.
pub fn set_screen_coordinates(context: &mut Context, rect: glam::Vec4, projection: glam::Mat4) -> (r:
    GameResult<()>)
    requires
        old(context).wf(),
    ensures
        final(context).wf(),
        final(context).conf == old(context).conf,
        final(context).window_mode == old(context).window_mode,
        r is Ok,
        final(context).gfx_context@ == applied(
            GraphicsState { screen_rect: rect, projection, ..old(context).gfx_context@ },
        ),
{
    let gfx = &mut context.gfx_context;
    gfx.set_projection_rect(rect, projection);
    gfx.calculate_transform_matrix();
    gfx.update_globals()
}

/// Replaces the projection matrix.
pub fn set_projection(context: &mut Context, proj: glam::Mat4)
    requires
        old(context).wf(),
    ensures
        final(context).wf(),
        final(context).conf == old(context).conf,
        final(context).window_mode == old(context).window_mode,
        final(context).gfx_context@ == (GraphicsState {
            projection: proj,
            ..old(context).gfx_context@
        }),
{
    context.gfx_context.set_projection(proj);
}

/// Multiplies the projection matrix by `transform` from the left.
pub fn transform_projection(context: &mut Context, transform: glam::Mat4)
    requires
        old(context).wf(),
    ensures
        final(context).wf(),
        final(context).conf == old(context).conf,
        final(context).window_mode == old(context).window_mode,
        final(context).gfx_context@ == (GraphicsState {
            projection: mat4_product(transform, old(context).gfx_context@.projection),
            ..old(context).gfx_context@
        }),
{
    let gfx = &mut context.gfx_context;
    let curr = gfx.get_projection();
    gfx.set_projection(mat4_mul(&transform, &curr));
}

/// The projection matrix.
pub fn get_projection(context: &Context) -> (mat: glam::Mat4)
    ensures
        mat == context.gfx_context@.projection,
{
    context.gfx_context.get_projection()
}

/// Pushes `transform` onto the model matrix stack; without a matrix, pushes a
/// copy of the current one.
pub fn push_transform(context: &mut Context, transform: Option<glam::Mat4>)
    requires
        old(context).wf(),
    ensures
        final(context).wf(),
        final(context).conf == old(context).conf,
        final(context).window_mode == old(context).window_mode,
        final(context).gfx_context@ == (GraphicsState {
            transforms: pushed(
                old(context).gfx_context@.transforms,
                match transform {
                    Some(t) => t,
                    None => old(context).gfx_context@.transforms.last(),
                },
            ),
            ..old(context).gfx_context@
        }),
{
    let gfx = &mut context.gfx_context;
    if let Some(t) = transform {
        gfx.push_transform(t);
    } else {
        let copy = gfx.get_transform();
        gfx.push_transform(copy);
    }
}

/// Pops the model matrix stack, unless only its base element is left.
pub fn pop_transform(context: &mut Context)
    requires
        old(context).wf(),
    ensures
        final(context).wf(),
        final(context).conf == old(context).conf,
        final(context).window_mode == old(context).window_mode,
        final(context).gfx_context@ == (GraphicsState {
            transforms: popped(old(context).gfx_context@.transforms),
            ..old(context).gfx_context@
        }),
{
    context.gfx_context.pop_transform();
}

/// Replaces the current model matrix.
pub fn set_transform(context: &mut Context, transform: glam::Mat4)
    requires
        old(context).wf(),
    ensures
        final(context).wf(),
        final(context).conf == old(context).conf,
        final(context).window_mode == old(context).window_mode,
        final(context).gfx_context@ == (GraphicsState {
            transforms: with_top(old(context).gfx_context@.transforms, transform),
            ..old(context).gfx_context@
        }),
{
    context.gfx_context.set_transform(transform);
}

/// The current model matrix.
pub fn get_transform(context: &Context) -> (t: glam::Mat4)
    requires
        context.wf(),
    ensures
        t == context.gfx_context@.transforms.last(),
{
    context.gfx_context.get_transform()
}

/// Multiplies the current model matrix by `transform` from the left.
pub fn transform(context: &mut Context, transform: glam::Mat4)
    requires
        old(context).wf(),
    ensures
        final(context).wf(),
        final(context).conf == old(context).conf,
        final(context).window_mode == old(context).window_mode,
        final(context).gfx_context@ == (GraphicsState {
            transforms: with_top(
                old(context).gfx_context@.transforms,
                mat4_product(transform, old(context).gfx_context@.transforms.last()),
            ),
            ..old(context).gfx_context@
        }),
{
    let gfx = &mut context.gfx_context;
    let curr = gfx.get_transform();
    gfx.set_transform(mat4_mul(&transform, &curr));
}

/// Replaces the current model matrix by the identity.
pub fn origin(context: &mut Context)
    requires
        old(context).wf(),
    ensures
        final(context).wf(),
        final(context).conf == old(context).conf,
        final(context).window_mode == old(context).window_mode,
        mat4_is_identity(final(context).gfx_context@.transforms.last()),
        final(context).gfx_context@ == (GraphicsState {
            transforms: with_top(
                old(context).gfx_context@.transforms,
                final(context).gfx_context@.transforms.last(),
            ),
            ..old(context).gfx_context@
        }),
{
    context.gfx_context.set_transform(mat4_identity());
}

/// Pushes `view` onto the view matrix stack.
pub fn push_view(context: &mut Context, view: glam::Mat4)
    requires
        old(context).wf(),
    ensures
        final(context).wf(),
        final(context).conf == old(context).conf,
        final(context).window_mode == old(context).window_mode,
        final(context).gfx_context@ == (GraphicsState {
            views: pushed(old(context).gfx_context@.views, view),
            ..old(context).gfx_context@
        }),
{
    context.gfx_context.push_view(view);
}

/// Pops the view matrix stack, unless only its base element is left.
pub fn pop_view(context: &mut Context)
    requires
        old(context).wf(),
    ensures
        final(context).wf(),
        final(context).conf == old(context).conf,
        final(context).window_mode == old(context).window_mode,
        final(context).gfx_context@ == (GraphicsState {
            views: popped(old(context).gfx_context@.views),
            ..old(context).gfx_context@
        }),
{
    context.gfx_context.pop_view();
}

/// Replaces the current view matrix.
pub fn set_view(context: &mut Context, view: glam::Mat4)
    requires
        old(context).wf(),
    ensures
        final(context).wf(),
        final(context).conf == old(context).conf,
        final(context).window_mode == old(context).window_mode,
        final(context).gfx_context@ == (GraphicsState {
            views: with_top(old(context).gfx_context@.views, view),
            ..old(context).gfx_context@
        }),
{
    context.gfx_context.set_view(view);
}

/// The current view matrix.
pub fn get_view(context: &Context) -> (v: glam::Mat4)
    requires
        context.wf(),
    ensures
        v == context.gfx_context@.views.last(),
{
    context.gfx_context.get_view()
}

/// Multiplies the current view matrix by `transform` from the left.
pub fn transform_view(context: &mut Context, transform: glam::Mat4)
    requires
        old(context).wf(),
    ensures
        final(context).wf(),
        final(context).conf == old(context).conf,
        final(context).window_mode == old(context).window_mode,
        final(context).gfx_context@ == (GraphicsState {
            views: with_top(
                old(context).gfx_context@.views,
                mat4_product(transform, old(context).gfx_context@.views.last()),
            ),
            ..old(context).gfx_context@
        }),
{
    let gfx = &mut context.gfx_context;
    let curr = gfx.get_view();
    gfx.set_view(mat4_mul(&transform, &curr));
}

/// The state once the model-view-projection matrix has been recomputed from
/// the projection and the tops of the two stacks, and its upload recorded.
pub open spec fn applied(g: GraphicsState) -> GraphicsState {
    GraphicsState {
        mvp: g.composed(),
        commands: g.commands.push(Command::UpdateGlobals { mvp: g.composed() }),
        ..g
    }
}

/// Recomputes the model-view-projection matrix and records its upload. Until
/// this is called, changes to the stacks and to the projection do not show.
pub fn apply_transformations(context: &mut Context) -> (r: GameResult<()>)
    requires
        old(context).wf(),
    ensures
        final(context).wf(),
        final(context).conf == old(context).conf,
        final(context).window_mode == old(context).window_mode,
        r is Ok,
        final(context).gfx_context@ == applied(old(context).gfx_context@),
{
    let gfx = &mut context.gfx_context;
    gfx.calculate_transform_matrix();
    gfx.update_globals()
}

/// Sets the blend mode of the active shader. Fails with a render error,
/// changing nothing, if that shader has no pipeline for `mode`.
pub fn set_blend_mode(ctx: &mut Context, mode: BlendMode) -> (r: GameResult<()>)
    requires
        old(ctx).wf(),
    ensures
        final(ctx).wf(),
        final(ctx).conf == old(ctx).conf,
        final(ctx).window_mode == old(ctx).window_mode,
        old(ctx).gfx_context@.supports(mode) ==> r is Ok && final(ctx).gfx_context@ == old(ctx).gfx_context@.with_blend_mode(mode),
        !old(ctx).gfx_context@.supports(mode) ==> is_no_pipeline(r) && final(ctx).gfx_context@
            == old(ctx).gfx_context@,
{
    ctx.gfx_context.set_blend_mode(mode)
}

/// The blend mode of the active shader.
pub fn get_blend_mode(ctx: &Context) -> (mode: BlendMode)
    requires
        ctx.wf(),
    ensures
        mode == ctx.gfx_context@.blend_mode(),
{
    ctx.gfx_context.get_blend_mode()
}

/// Records what makes the window take the given mode, and then the swap
/// interval that the mode asks for.
pub fn set_mode(context: &mut Context, mode: WindowMode) -> (r: GameResult<()>)
    requires
        old(context).wf(),
    ensures
        final(context).wf(),
        final(context).conf == old(context).conf,
        final(context).window_mode == old(context).window_mode,
        r is Ok,
        final(context).gfx_context@ == (GraphicsState {
            commands: old(context).gfx_context@.commands + mode_commands(mode),
            ..old(context).gfx_context@
        }),
{
    context.gfx_context.set_window_mode(mode)?;
    context.gfx_context.set_vsync(mode.vsync);
    assert(context.gfx_context@.commands =~= old(context).gfx_context@.commands + mode_commands(
        mode,
    ));
    Ok(())
}

/// The commands that `set_mode` records for a window mode.
pub open spec fn mode_commands(mode: WindowMode) -> Seq<Command> {
    window_mode_commands(mode).push(
        Command::SetSwapInterval { interval: if mode.vsync { 1i32 } else { 0i32 } },
    )
}

/// Records the change to real fullscreen, or back to a window.
pub fn set_fullscreen(context: &mut Context, fullscreen: bool) -> (r: GameResult<()>)
    requires
        old(context).wf(),
    ensures
        final(context).wf(),
        final(context).conf == old(context).conf,
        final(context).window_mode == old(context).window_mode,
        r is Ok,
        final(context).gfx_context@ == old(context).gfx_context@.with_command(
            Command::SetFullscreen {
                fullscreen: if fullscreen {
                    FullscreenType::True
                } else {
                    FullscreenType::Off
                },
            },
        ),
{
    let fs_type = if fullscreen {
        FullscreenType::True
    } else {
        FullscreenType::Off
    };
    context.gfx_context.set_fullscreen(fs_type);
    Ok(())
}

/// Records what gives the window the given size and otherwise the mode that
/// the game was started with. The mode kept in the context does not change.
pub fn set_resolution(context: &mut Context, width: u32, height: u32) -> (r: GameResult<()>)
    requires
        old(context).wf(),
    ensures
        final(context).wf(),
        final(context).conf == old(context).conf,
        final(context).window_mode == old(context).window_mode,
        r is Ok,
        final(context).gfx_context@ == (GraphicsState {
            commands: old(context).gfx_context@.commands + mode_commands(
                WindowMode { width, height, ..old(context).window_mode },
            ),
            ..old(context).gfx_context@
        }),
{
    let mut window_mode = context.window_mode;
    window_mode.width = width;
    window_mode.height = height;
    set_mode(context, window_mode)
}

/// A display size as the pair of unsigned numbers that it is reported as: a
/// negative number wraps around.
pub open spec fn as_unsigned(n: i32) -> u32 {
    if n >= 0 {
        n as u32
    } else {
        (n + 0x1_0000_0000) as u32
    }
}

/// The fullscreen resolutions of a display, given the modes that the video
/// subsystem reports for it, as pairs of width and height.
pub fn get_fullscreen_modes(display_idx: i32, display_count: i32, modes: &Vec<(i32, i32)>) -> (r:
    GameResult<Vec<(u32, u32)>>)
    requires
        display_idx < display_count,
    ensures
        r is Ok,
        r->Ok_0@.len() == modes@.len(),
        forall|i: int|
            0 <= i < modes@.len() ==> r->Ok_0@[i] == (
                as_unsigned(modes@[i].0),
                as_unsigned(modes@[i].1),
            ),
{
    let mut out: Vec<(u32, u32)> = Vec::new();
    let mut i: usize = 0;
    while i < modes.len()
        invariant
            i <= modes@.len(),
            out@.len() == i,
            forall|j: int|
                0 <= j < i ==> out@[j] == (as_unsigned(modes@[j].0), as_unsigned(modes@[j].1)),
        decreases modes@.len() - i,
    {
        let (w, h) = modes[i];
        out.push((to_unsigned(w), to_unsigned(h)));
        i += 1;
    }
    Ok(out)
}

fn to_unsigned(n: i32) -> (r: u32)
    ensures
        r == as_unsigned(n),
{
    if n >= 0 {
        n as u32
    } else {
        (n as i64 + 0x1_0000_0000) as u32
    }
}

} // verus!
