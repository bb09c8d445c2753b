use vstd::prelude::*;

verus! {

/// Instance capacity the per-kind buffers start out with.
pub const INITIAL_INSTANCES: usize = 2000;

/// Kind-independent shape description of one gradient quad. Every float of
/// the wire format is carried as its 32-bit word, so the record is plain data
/// and its byte layout is stated exactly.
#[derive(Debug, Clone, Copy, PartialEq, Eq)]
pub struct Quad {
    /// Top-left corner, as two 32-bit float words `[x, y]`.
    pub position: [u32; 2],
    /// Width and height, as two 32-bit float words `[w, h]`.
    pub scale: [u32; 2],
    /// Border color, as four 32-bit float words `[r, g, b, a]`.
    pub border_color: [u32; 4],
    /// Border radius per corner, as four 32-bit float words.
    pub border_radius: [u32; 4],
    /// Border width, as one 32-bit float word.
    pub border_width: u32,
    /// Whether the quad snaps to the pixel grid (`0` or `1`).
    pub snap: u32,
}

} // verus!
