//! Verified core of a small 2D game framework: configuration values, the
//! coroutine state machine, and the state kept by the graphics context.
//!
//! The library never talks to a window or a GPU. Every operation updates plain
//! state and, where the outside world has to act, appends a command or a
//! resource request that the embedding program carries out.

pub mod conf;
pub mod context;
pub mod coroutine;
pub mod error;
pub mod text;
pub mod graphics;
