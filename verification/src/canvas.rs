use vstd::prelude::*;

verus! {

/// An 8-bit RGB color.
#[derive(Clone, Copy, PartialEq, Eq, Structural, Debug)]
pub struct RGBColor {
    pub r: u8,
    pub g: u8,
    pub b: u8,
}

/// A CPU-side pixel buffer: one RGBA byte quadruple per pixel, rows stored
/// top to bottom.
pub struct Canvas {
    pub width: usize,
    pub height: usize,
    pub buffer: Vec<u8>,
}

impl Canvas {
    /// The buffer holds exactly four bytes per pixel.
    pub open spec fn wf(self) -> bool {
        self.buffer.len() == self.width * self.height * 4
    }

    pub fn new(width: usize, height: usize) -> (c: Canvas)
        requires
            width * height * 4 <= usize::MAX,
        ensures
            c.width == width,
            c.height == height,
            c.wf(),
            forall|i: int| 0 <= i < c.buffer.len() ==> c.buffer[i] == 0,
    {
        proof {
            assert(width * height * 4 == (width * height) * 4) by (nonlinear_arith);
        }
        Canvas { width, height, buffer: vec![0; width * height * 4] }
    }

    /// Write one pixel: its three color bytes and a fully opaque alpha.
    pub fn put_pixel(&mut self, x: usize, y: usize, color: RGBColor)
        requires
            old(self).wf(),
            x < old(self).width,
            y < old(self).height,
        ensures
            final(self).wf(),
            final(self).width == old(self).width,
            final(self).height == old(self).height,
            ({
                let off = (y * old(self).width + x) * 4;
                final(self).buffer@ == old(self).buffer@.update(off as int, color.r).update(
                    off + 1,
                    color.g,
                ).update(off + 2, color.b).update(off + 3, 255u8)
            }),
    {
        proof {
            assert((y * self.width + x) * 4 + 4 <= self.width * self.height * 4)
                by (nonlinear_arith)
                requires
                    x < self.width,
                    y < self.height,
            ;
        }
        let offset: usize = (y * self.width + x) * 4;
        self.buffer.set(offset, color.r);
        self.buffer.set(offset + 1, color.g);
        self.buffer.set(offset + 2, color.b);
        self.buffer.set(offset + 3, 255);
    }
}

} // verus!
