//! The kernel framebuffer: pixel addressing.
use vstd::prelude::*;

use crate::boot::FrameBufferInfo;

verus! {

/// A linear 32-bit-per-pixel framebuffer at address `addr`.
#[derive(Clone, Copy, Debug, PartialEq, Eq, Structural)]
pub struct FrameBuffer {
    pub addr: usize,
    pub info: FrameBufferInfo,
}

/// Byte offset of pixel `(x, y)` in a framebuffer `width` pixels wide.
pub open spec fn spec_pixel_offset(width: usize, x: usize, y: usize) -> int {
    y * (width * 4) + x * 4
}

impl FrameBuffer {
    /// Byte offset of pixel `(x, y)`; its four bytes follow.
    pub fn pixel_offset(&self, x: usize, y: usize) -> (r: usize)
        requires
            self.info.width * 4 <= usize::MAX,
            spec_pixel_offset(self.info.width, x, y) + 3 <= usize::MAX,
        ensures
            r == spec_pixel_offset(self.info.width, x, y),
    {
        let stride_bytes = self.info.width * 4;
        proof {
            assert(0 <= y * stride_bytes <= spec_pixel_offset(self.info.width, x, y)) by (nonlinear_arith)
                requires
                    spec_pixel_offset(self.info.width, x, y) == y * stride_bytes + x * 4,
                    stride_bytes >= 0,
                    x >= 0,
                    y >= 0,
            ;
        }
        y * stride_bytes + x * 4
    }
}

} // verus!
