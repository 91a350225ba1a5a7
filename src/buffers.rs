//! The per-instance record handed to the GPU backend, and the shared quad.
use vstd::prelude::*;

verus! {

/// One box as the renderer draws it. The field order is the order of the
/// backend's per-instance vertex attributes.
#[derive(Clone, Copy, Debug, PartialEq, Eq)]
pub struct Instance {
    /// Draw rectangle: x, y, width, height.
    pub dimensions: [i64; 4],
    /// Premultiplied background colour.
    pub color: [u8; 4],
    /// Top-left, top-right, bottom-left, bottom-right.
    pub border_radius: [i32; 4],
    /// Top, right, bottom, left.
    pub border_size: [i32; 4],
    pub border_color: [u8; 4],
    /// Outline width and offset.
    pub outline: [i32; 2],
    pub outline_color: [u8; 4],
    /// Brightness, saturate, contrast, invert.
    pub filter: [i32; 4],
    pub grayscale: i32,
    pub scale: [i32; 2],
    pub rotation: i32,
    pub translate: [i32; 2],
    pub skew: [i32; 2],
}

/// The index buffer of the unit quad: two triangles over four corners.
pub fn quad_indices() -> (r: Vec<u16>)
    ensures
        r@ == seq![0u16, 1u16, 3u16, 1u16, 2u16, 3u16],
{
    vec![0, 1, 3, 1, 2, 3]
}

} // verus!
