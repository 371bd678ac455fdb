//! Typed handles for the resources of a graphics context: vertex arrays,
//! buffers, vertex attributes and shader programs.
//!
//! The handles never touch the context themselves. Every operation returns the
//! call that is to be made on it as a plain value, and a [`graphics::context::Context`]
//! keeps track of the bindings that were asked for, so that the operations
//! which depend on a binding can demand it.

pub mod custom_error;
pub mod graphics;
