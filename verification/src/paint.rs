//! What the GUI toolkit hands over for a frame.

use vstd::prelude::*;
use crate::vertex::PaintVertex;

verus! {

/// One batch of triangles that is drawn with the same bound texture and bind
/// groups: vertices, and indices into them.
#[derive(Clone, Debug, PartialEq, Eq)]
pub struct PaintBatch {
    pub vertices: Vec<PaintVertex>,
    pub indices: Vec<u32>,
}

/// The shared font and icon bitmap: one byte of alpha per pixel, row by row.
#[derive(Clone, Debug, PartialEq, Eq)]
pub struct FontAtlas {
    pub width: usize,
    pub height: usize,
    pub pixels: Vec<u8>,
}

/// The size of the screen in logical pixels, each dimension as the bit
/// pattern of a single-precision number.
#[derive(Clone, Copy, Debug, PartialEq, Eq)]
pub struct ScreenSize {
    pub width: u32,
    pub height: u32,
}

impl PaintBatch {
    /// A draw counts its indices with 32 bits: a batch has no more than that.
    pub open spec fn is_drawable(&self) -> bool {
        self.indices@.len() <= u32::MAX
    }

    /// Tells whether one draw can cover the batch.
    pub fn check_drawable(&self) -> (ok: bool)
        ensures
            ok == self.is_drawable(),
    {
        self.indices.len() <= u32::MAX as usize
    }
}

impl FontAtlas {
    /// The bitmap holds one byte for every pixel, and a texture can have its
    /// dimensions.
    pub open spec fn is_valid(&self) -> bool {
        &&& self.width <= u32::MAX
        &&& self.height <= u32::MAX
        &&& self.pixels@.len() == self.width * self.height
    }

    /// Tells whether the atlas can be uploaded.
    pub fn check_valid(&self) -> (ok: bool)
        ensures
            ok == self.is_valid(),
    {
        if self.width > u32::MAX as usize || self.height > u32::MAX as usize {
            return false;
        }
        let width = self.width as u64;
        let height = self.height as u64;
        assert(width * height <= 0xFFFF_FFFF * 0xFFFF_FFFF) by (nonlinear_arith)
            requires
                width <= 0xFFFF_FFFF,
                height <= 0xFFFF_FFFF,
        ;
        self.pixels.len() as u64 == width * height
    }
}

/// Every batch of a frame can be covered by one draw.
pub open spec fn all_drawable(batches: Seq<PaintBatch>) -> bool {
    forall|i: int| 0 <= i < batches.len() ==> (#[trigger] batches[i]).is_drawable()
}

} // verus!
