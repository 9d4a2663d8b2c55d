//! GPU execution backend for an immediate-mode 2-D vector-graphics API.
//!
//! The crate takes already-tessellated path geometry (fill fans and stroke
//! strips) together with paint descriptors, batches them into per-frame
//! draw calls, and plans the exact stencil/blend/draw sequence that a GPU
//! must execute to render antialiased, possibly concave shapes.  The GPU
//! itself is modelled as an explicit command log: every operation the
//! executor would issue is a value of an enum, so the planned sequence is a
//! plain value that contracts pin down and tests can inspect.  A thin
//! unverified adapter interprets the log against a real graphics context.

pub mod float32;

pub mod types;

pub mod xform;

pub mod texture;

pub mod uniforms;

pub mod paint;

pub mod calls;

pub mod renderer;

