//! The context that every operation of the framework works on.

use vstd::prelude::*;
use crate::conf::{Conf, WindowMode};
use crate::graphics::context::GraphicsContext;

verus! {

/// The state of a running game: its configuration and its graphics context.
#[derive(Debug)]
pub struct Context {
    /// The configuration that the game was started with.
    pub conf: Conf,
    /// The window mode that the game was started with.
    pub window_mode: WindowMode,
    /// The graphics context.
    pub gfx_context: GraphicsContext,
}

impl Context {
    /// The graphics context is well formed.
    pub open spec fn wf(&self) -> bool {
        self.gfx_context.wf()
    }
}

} // verus!
