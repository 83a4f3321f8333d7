//! A row-major RGB frame of bytes, top row first, three bytes per pixel.
use vstd::prelude::*;

verus! {

/// Bytes that one pixel takes: red, green and blue.
pub const CHANNELS: usize = 3;

/// Index of the red byte of the pixel in row `i`, column `j` of a frame
/// `width` pixels wide; green and blue follow it.
pub open spec fn pixel_offset(width: int, i: int, j: int) -> int {
    (i * width + j) * 3
}

/// An RGB frame with 8 bits per channel, as an image encoder takes it.
pub struct Framebuffer {
    pub width: usize,
    pub height: usize,
    pub buf: Vec<u8>,
}

impl Framebuffer {
    /// The buffer holds exactly one RGB triple per pixel.
    pub open spec fn wf(&self) -> bool {
        self.buf@.len() == self.width * self.height * 3
    }

    /// A black frame of `width` by `height` pixels.
    pub fn new(width: usize, height: usize) -> (r: Self)
        requires
            width * height * 3 <= usize::MAX,
        ensures
            r.wf(),
            r.width == width,
            r.height == height,
            r.buf@ == Seq::new((width * height * 3) as nat, |k: int| 0u8),
    {
        assert(width * height <= width * height * 3) by (nonlinear_arith);
        let n: usize = width * height * CHANNELS;
        let buf = vec![0u8; n];
        assert(buf@ =~= Seq::new((width * height * 3) as nat, |k: int| 0u8));
        Framebuffer { width, height, buf }
    }

    /// Stores the quantized colour `rgb` at row `i`, column `j`; every other
    /// byte of the frame stays as it was.
    pub fn write(&mut self, i: usize, j: usize, rgb: [u8; 3])
        requires
            old(self).wf(),
            i < old(self).height,
            j < old(self).width,
        ensures
            final(self).wf(),
            final(self).width == old(self).width,
            final(self).height == old(self).height,
            final(self).buf@ == old(self).buf@.update(
                pixel_offset(old(self).width as int, i as int, j as int),
                rgb[0],
            ).update(pixel_offset(old(self).width as int, i as int, j as int) + 1, rgb[1]).update(
                pixel_offset(old(self).width as int, i as int, j as int) + 2,
                rgb[2],
            ),
    {
        let ghost w = self.width as int;
        let ghost h = self.height as int;
        proof {
            assert(self.buf@.len() == self.buf.len());
            assert(0 <= i * w && i * w + j < w * h && (i * w + j) * 3 + 2 < w * h * 3)
                by (nonlinear_arith)
                requires
                    0 <= i < h,
                    0 <= j < w,
            ;
        }
        let p: usize = (i * self.width + j) * CHANNELS;
        self.buf.set(p, rgb[0]);
        self.buf.set(p + 1, rgb[1]);
        self.buf.set(p + 2, rgb[2]);
    }
}

} // verus!
