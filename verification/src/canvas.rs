//! The picture: a buffer of pixels, four bytes each.
use vstd::prelude::*;
use crate::color::RGBColor;

verus! {

/// A picture of `width` by `height` pixels, row after row, each pixel as
/// red, green, blue and opacity.
pub struct Canvas {
    pub width: usize,
    pub height: usize,
    pub buffer: Vec<u8>,
}

/// The place in the buffer of the first byte of the pixel `(x, y)` of a
/// picture `width` wide.
pub open spec fn offset(x: int, y: int, width: int) -> int {
    (y * width + x) * 4
}

impl Canvas {
    /// A canvas is well formed when its buffer holds four bytes for each
    /// pixel.
    pub open spec fn wf(self) -> bool {
        self.buffer@.len() == self.width * self.height * 4
    }

    /// The colour of the pixel `(x, y)`.
    pub open spec fn pixel(self, x: int, y: int) -> RGBColor {
        let at = offset(x, y, self.width as int);
        RGBColor {
            r: self.buffer@[at],
            g: self.buffer@[at + 1],
            b: self.buffer@[at + 2],
            a: self.buffer@[at + 3],
        }
    }

    /// A picture of `width` by `height` pixels, all of them clear.
    pub fn new(width: usize, height: usize) -> (r: Canvas)
        requires
            width * height * 4 <= usize::MAX,
        ensures
            r.wf(),
            r.width == width,
            r.height == height,
            forall|i: int| 0 <= i < r.buffer@.len() ==> r.buffer@[i] == 0,
    {
        assert(width * height <= width * height * 4) by (nonlinear_arith)
            requires
                width * height >= 0,
        ;
        assert(width * height >= 0) by (nonlinear_arith)
            requires
                width >= 0,
                height >= 0,
        ;
        let total: usize = width * height * 4;
        let mut buffer: Vec<u8> = Vec::new();
        let mut i: usize = 0;
        while i < total
            invariant
                i <= total,
                buffer@.len() == i,
                forall|k: int| 0 <= k < i ==> buffer@[k] == 0,
            decreases total - i,
        {
            buffer.push(0);
            i += 1;
        }
        Canvas { width, height, buffer }
    }

    /// Paints the pixel `(x, y)`, which must lie in the picture, with the
    /// colour `color`, opaque whatever its opacity. No other pixel changes.
    pub fn put_pixel(&mut self, x: usize, y: usize, color: RGBColor)
        requires
            old(self).wf(),
            x < old(self).width,
            y < old(self).height,
        ensures
            final(self).wf(),
            final(self).width == old(self).width,
            final(self).height == old(self).height,
            final(self).pixel(x as int, y as int) == (RGBColor { a: 255, ..color }),
            forall|i: int|
                0 <= i < old(self).buffer@.len() && !(offset(x as int, y as int, old(self).width as int)
                    <= i < offset(x as int, y as int, old(self).width as int) + 4)
                    ==> final(self).buffer@[i] == old(self).buffer@[i],
    {
        proof {
            lemma_offset_in_range(x as int, y as int, self.width as int, self.height as int);
        }
        let total: usize = self.buffer.len();
        let offset: usize = (y * self.width + x) * 4;

        self.buffer.set(offset, color.r);
        self.buffer.set(offset + 1, color.g);
        self.buffer.set(offset + 2, color.b);
        self.buffer.set(offset + 3, 255);
    }

    /// The colour of the pixel `(x, y)`, which must lie in the picture.
    pub fn get_pixel(&self, x: usize, y: usize) -> (r: RGBColor)
        requires
            self.wf(),
            x < self.width,
            y < self.height,
        ensures
            r == self.pixel(x as int, y as int),
    {
        proof {
            lemma_offset_in_range(x as int, y as int, self.width as int, self.height as int);
        }
        let total: usize = self.buffer.len();
        let offset: usize = (y * self.width + x) * 4;
        RGBColor {
            r: self.buffer[offset],
            g: self.buffer[offset + 1],
            b: self.buffer[offset + 2],
            a: self.buffer[offset + 3],
        }
    }
}

/// The four bytes of a pixel of the picture lie in its buffer.
pub proof fn lemma_offset_in_range(x: int, y: int, width: int, height: int)
    requires
        0 <= x < width,
        0 <= y < height,
    ensures
        0 <= y * width <= y * width + x < width * height,
        0 <= offset(x, y, width),
        offset(x, y, width) + 4 <= width * height * 4,
{
    assert(0 <= y * width && y * width + x < width * height) by (nonlinear_arith)
        requires
            0 <= x < width,
            0 <= y < height,
    ;
}

} // verus!
