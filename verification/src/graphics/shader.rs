//! Pixel shaders: each one owns the pipelines it was built with, one per blend
//! mode, and remembers which of them is active.

use vstd::prelude::*;
use vstd::slice::slice_to_vec;
use crate::error::{GameError, GameResult};
use crate::graphics::types::BlendMode;

verus! {

/// Names a shader: its position in the registry of the graphics context.
pub type PixelShaderId = usize;

/// What a shader stands for: the blend modes it has a pipeline for, and the
/// blend mode it currently draws with.
pub struct ShaderState {
    pub modes: Seq<BlendMode>,
    pub active: BlendMode,
}

/// A registered shader.
#[derive(Debug, Clone)]
pub struct PixelShader {
    blend_modes: Vec<BlendMode>,
    active_blend_mode: BlendMode,
}

/// The description of the error returned when a shader has no pipeline for a
/// blend mode.
pub open spec fn no_pipeline_text() -> Seq<char> {
    "Could not find a pipeline for the specified shader and BlendMode"@
}

/// Whether `r` is the render error that reports a missing pipeline.
pub open spec fn is_no_pipeline(r: GameResult<()>) -> bool {
    match r {
        Err(GameError::RenderError(msg)) => msg@ == no_pipeline_text(),
        _ => false,
    }
}

impl View for PixelShader {
    type V = ShaderState;

    closed spec fn view(&self) -> ShaderState {
        ShaderState { modes: self.blend_modes@, active: self.active_blend_mode }
    }
}

impl DeepView for PixelShader {
    type V = ShaderState;

    open spec fn deep_view(&self) -> ShaderState {
        self@
    }
}

impl PixelShader {
    /// A shader with one pipeline for each of the given blend modes, or for
    /// `Alpha` alone if none are given. It starts out drawing with `Alpha`.
    pub fn new(blend_modes: Option<&[BlendMode]>) -> (shader: PixelShader)
        ensures
            shader@ == (ShaderState {
                modes: match blend_modes {
                    Some(modes) => modes@,
                    None => seq![BlendMode::Alpha],
                },
                active: BlendMode::Alpha,
            }),
    {
        let modes = match blend_modes {
            Some(modes) => slice_to_vec(modes),
            None => {
                let mut v: Vec<BlendMode> = Vec::new();
                v.push(BlendMode::Alpha);
                assert(v@ =~= seq![BlendMode::Alpha]);
                v
            },
        };
        PixelShader { blend_modes: modes, active_blend_mode: BlendMode::Alpha }
    }

    /// Whether the shader has a pipeline for `mode`.
    pub fn supports(&self, mode: BlendMode) -> (b: bool)
        ensures
            b == self@.modes.contains(mode),
    {
        let n: usize = self.blend_modes.len();
        let mut i: usize = 0;
        while i < n
            invariant
                n == self.blend_modes@.len(),
                i <= n,
                forall|j: int| 0 <= j < i ==> self.blend_modes@[j] != mode,
            decreases n - i,
        {
            if self.blend_modes[i] == mode {
                return true;
            }
            i += 1;
        }
        false
    }

    /// Makes `mode` the active blend mode, if the shader has a pipeline for
    /// it; otherwise reports a render error and changes nothing.
    pub fn set_blend_mode(&mut self, mode: BlendMode) -> (r: GameResult<()>)
        ensures
            old(self)@.modes.contains(mode) ==> r is Ok && final(self)@ == (ShaderState {
                active: mode,
                ..old(self)@
            }),
            !old(self)@.modes.contains(mode) ==> is_no_pipeline(r) && final(self)@ == old(self)@,
    {
        if !self.supports(mode) {
            return Err(
                GameError::RenderError(
                    "Could not find a pipeline for the specified shader and BlendMode".to_owned(),
                ),
            );
        }
        self.active_blend_mode = mode;
        Ok(())
    }

    /// The active blend mode.
    pub fn get_blend_mode(&self) -> (mode: BlendMode)
        ensures
            mode == self@.active,
    {
        self.active_blend_mode
    }

    /// Checks that the shader can draw: it needs a pipeline for its active
    /// blend mode.
    pub fn draw(&self) -> (r: GameResult<()>)
        ensures
            self@.modes.contains(self@.active) ==> r is Ok,
            !self@.modes.contains(self@.active) ==> is_no_pipeline(r),
    {
        if !self.supports(self.active_blend_mode) {
            return Err(
                GameError::RenderError(
                    "Could not find a pipeline for the specified shader and BlendMode".to_owned(),
                ),
            );
        }
        Ok(())
    }
}

} // verus!
