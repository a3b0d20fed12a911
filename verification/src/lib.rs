//! Batched immediate-mode rendering core.
//!
//! Drawing code talks to a [`gfx::Gfx`] context as if every draw were
//! independent. The context merges geometry that shares GPU state into
//! batches, keeps the scoped overrides (transform, camera, blend mode, shader,
//! canvas) strictly nested, and records every operation the GPU has to perform
//! as a [`gfx::GpuCommand`], in order. A driver outside this crate takes the
//! recorded commands and performs them.
//!
//! [`window::Window`] keeps what follows from the events of the window
//! system: the states of keys and buttons, the pointer, the last poll's text.

pub mod gfx;
pub mod window;
