//! Descriptions of what shaders are bound to.

pub mod bind_group;
