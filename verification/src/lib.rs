//! Rendering of axis-aligned quads filled with multi-stop linear or radial
//! color gradients, for a GPU-accelerated 2D backend: a fixed-capacity packed
//! encoding of gradient ramps, a stable partition of each frame's instances
//! into per-kind batches, growable per-kind instance buffers whose capacity
//! tracks batch size across frames, and per-kind pipeline descriptions with a
//! bit-exact instance layout. Device objects themselves (buffers, pipelines,
//! passes) are consumed as opaque capabilities by unverified glue around this
//! crate, which replays exactly the states and commands computed here.

pub mod buffer;
pub mod gradient;
pub mod packed;
pub mod pipeline;
pub mod quad;
