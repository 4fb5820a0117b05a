//! The RGB framebuffer a frame is composed into: 256x240 pixels, three
//! bytes per pixel.

use vstd::prelude::*;

verus! {

/// Framebuffer width in pixels.
pub const FRAME_WIDTH: usize = 256;
/// Framebuffer height in pixels.
pub const FRAME_HEIGHT: usize = 240;

/// A 256x240 RGB surface stored row-major, three bytes per pixel.
pub struct Frame {
    pub data: Vec<u8>,
}

/// The framebuffer after one pixel write: three consecutive bytes change
/// when the target lies inside the buffer, nothing otherwise.
pub open spec fn spec_set_pixel(d: Seq<u8>, x: int, y: int, rgb: (u8, u8, u8)) -> Seq<u8> {
    let base = y * 768 + x * 3;
    if base + 2 < d.len() {
        d.update(base, rgb.0).update(base + 1, rgb.1).update(base + 2, rgb.2)
    } else {
        d
    }
}

impl Frame {
    /// A black frame.
    pub fn new() -> (r: Frame)
        ensures
            r.data@ == Seq::new((256 * 240 * 3) as nat, |i: int| 0u8),
    {
        Frame { data: crate::cartridge::filled_vec(0, 256 * 240 * 3) }
    }

    /// Write one RGB pixel; writes outside the surface are dropped.
    pub fn set_pixel(&mut self, x: usize, y: usize, rgb: (u8, u8, u8))
        requires
            x < 4096,
            y < 4096,
        ensures
            final(self).data@ == spec_set_pixel(old(self).data@, x as int, y as int, rgb),
    {
        let base = y * 768 + x * 3;
        if base + 2 < self.data.len() {
            self.data.set(base, rgb.0);
            self.data.set(base + 1, rgb.1);
            self.data.set(base + 2, rgb.2);
        }
    }
}

} // verus!
