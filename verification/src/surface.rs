//! The 1-bit pixel surface that the layout draws on: a framebuffer with a
//! fixed bounding box whose only mutation primitive fills a rectangle with
//! a color and never fails.

use vstd::prelude::*;
use vstd::pervasive::VecAdditionalExecFns;
use crate::geometry::{Point, Rectangle, Size};

verus! {

/// The two states of a 1-bit pixel.
#[derive(Clone, Copy, PartialEq, Eq, Structural, Debug)]
pub enum Color {
    On,
    Off,
}

/// An addressable 1-bit drawable region with a fixed bounding box.
pub struct Framebuffer {
    width: u32,
    height: u32,
    pixels: Vec<Color>,
}

impl Framebuffer {
    /// Well-formed: each side fits the supported range and the flat pixel
    /// store covers exactly width * height cells.
    pub closed spec fn wf(self) -> bool {
        &&& self.width < 0x10000
        &&& self.height < 0x10000
        &&& self.pixels@.len() == self.width * self.height
    }

    pub closed spec fn spec_width(self) -> int {
        self.width as int
    }

    pub closed spec fn spec_height(self) -> int {
        self.height as int
    }

    /// The color of the pixel at (x, y); meaningful for
    /// 0 <= x < width and 0 <= y < height.
    pub closed spec fn color_at(self, x: int, y: int) -> Color {
        self.pixels@[y * self.width + x]
    }

    /// A fresh surface with every pixel `On`.
    pub fn new(width: u32, height: u32) -> (fb: Framebuffer)
        requires
            width < 0x10000,
            height < 0x10000,
        ensures
            fb.wf(),
            fb.spec_width() == width,
            fb.spec_height() == height,
            forall|x: int, y: int|
                0 <= x < width && 0 <= y < height ==> fb.color_at(x, y) == Color::On,
    {
        proof {
            assert((width as int) * (height as int) < 0x100000000) by (nonlinear_arith)
                requires
                    width < 0x10000,
                    height < 0x10000,
            ;
        }
        let n: usize = (width as usize) * (height as usize);
        let mut pixels: Vec<Color> = Vec::new();
        let mut i: usize = 0;
        while i < n
            invariant
                i <= n,
                pixels@.len() == i,
                forall|k: int| 0 <= k < i ==> pixels@[k] == Color::On,
            decreases n - i,
        {
            pixels.push(Color::On);
            i = i + 1;
        }
        let fb = Framebuffer { width, height, pixels };
        proof {
            assert forall|x: int, y: int|
                0 <= x < width && 0 <= y < height implies fb.color_at(x, y) == Color::On by {
                lemma_flat_index_in_range(x, y, width as int, height as int);
            }
        }
        fb
    }

    pub fn width(&self) -> (w: u32)
        ensures
            w == self.spec_width(),
    {
        self.width
    }

    pub fn height(&self) -> (h: u32)
        ensures
            h == self.spec_height(),
    {
        self.height
    }

    /// The fixed bounding box of this surface, anchored at the origin.
    pub fn bounding_box(&self) -> (r: Rectangle)
        ensures
            r.top_left == (Point { x: 0, y: 0 }),
            r.size.width == self.spec_width(),
            r.size.height == self.spec_height(),
    {
        Rectangle {
            top_left: Point { x: 0, y: 0 },
            size: Size { width: self.width, height: self.height },
        }
    }

    /// The color of the pixel at (x, y).
    pub fn pixel(&self, x: u32, y: u32) -> (c: Color)
        requires
            self.wf(),
            x < self.spec_width(),
            y < self.spec_height(),
        ensures
            c == self.color_at(x as int, y as int),
    {
        proof {
            lemma_flat_index_in_range(x as int, y as int, self.spec_width(), self.spec_height());
        }
        let idx: usize = (y as usize) * (self.width as usize) + (x as usize);
        self.pixels[idx]
    }

    /// Fills the part of `rect` that lies on the surface with `color`,
    /// leaving every other pixel as it was. The one mutation primitive;
    /// it cannot fail, whatever rectangle it is given.
    pub fn fill_rect(&mut self, rect: Rectangle, color: Color)
        requires
            old(self).wf(),
        ensures
            final(self).wf(),
            final(self).spec_width() == old(self).spec_width(),
            final(self).spec_height() == old(self).spec_height(),
            forall|x: int, y: int|
                0 <= x < old(self).spec_width() && 0 <= y < old(self).spec_height()
                    ==> final(self).color_at(x, y) == (if rect.spec_contains(x, y) {
                        color
                    } else {
                        old(self).color_at(x, y)
                    }),
    {
        let w: i64 = self.width as i64;
        let h: i64 = self.height as i64;
        let rx: i64 = rect.top_left.x as i64;
        let ry: i64 = rect.top_left.y as i64;
        let rx_end: i64 = rx + rect.size.width as i64;
        let ry_end: i64 = ry + rect.size.height as i64;
        let x0: i64 = if rx > 0 { rx } else { 0 };
        let y0: i64 = if ry > 0 { ry } else { 0 };
        let x1: i64 = if rx_end < w { rx_end } else { w };
        let y1: i64 = if ry_end < h { ry_end } else { h };

        let ghost fb0 = *self;
        if x0 < x1 && y0 < y1 {
            let mut y: i64 = y0;
            while y < y1
                invariant
                    self.wf(),
                    self.spec_width() == fb0.spec_width(),
                    self.spec_height() == fb0.spec_height(),
                    0 <= y0 <= y <= y1 <= fb0.spec_height(),
                    0 <= x0 < x1 <= fb0.spec_width(),
                    forall|px: int, py: int|
                        0 <= px < fb0.spec_width() && 0 <= py < fb0.spec_height()
                            ==> self.color_at(px, py) == (if x0 <= px < x1 && y0 <= py < y {
                                color
                            } else {
                                fb0.color_at(px, py)
                            }),
                decreases y1 - y,
            {
                let mut x: i64 = x0;
                while x < x1
                    invariant
                        self.wf(),
                        self.spec_width() == fb0.spec_width(),
                        self.spec_height() == fb0.spec_height(),
                        0 <= y0 <= y < y1 <= fb0.spec_height(),
                        0 <= x0 <= x <= x1 <= fb0.spec_width(),
                        forall|px: int, py: int|
                            0 <= px < fb0.spec_width() && 0 <= py < fb0.spec_height()
                                ==> self.color_at(px, py) == (if (x0 <= px < x1 && y0 <= py < y)
                                        || (x0 <= px < x && py == y) {
                                    color
                                } else {
                                    fb0.color_at(px, py)
                                }),
                    decreases x1 - x,
                {
                    proof {
                        lemma_flat_index_in_range(
                            x as int, y as int, fb0.spec_width(), fb0.spec_height(),
                        );
                    }
                    let idx: usize = (y * (self.width as i64) + x) as usize;
                    let ghost prev = *self;
                    self.pixels.set(idx, color);
                    proof {
                        assert forall|px: int, py: int|
                            0 <= px < fb0.spec_width() && 0 <= py < fb0.spec_height()
                                implies self.color_at(px, py) == (if (x0 <= px < x1 && y0 <= py < y)
                                    || (x0 <= px < x + 1 && py == y) {
                                color
                            } else {
                                fb0.color_at(px, py)
                            }) by {
                            lemma_flat_index_in_range(px, py, fb0.spec_width(), fb0.spec_height());
                            if px == x as int && py == y as int {
                                assert(self.color_at(px, py) == color);
                            } else {
                                lemma_flat_index_injective(
                                    fb0.spec_width(), px, py, x as int, y as int,
                                );
                                assert(self.color_at(px, py) == prev.color_at(px, py));
                                assert(prev.color_at(px, py) == (if (x0 <= px < x1 && y0 <= py < y)
                                        || (x0 <= px < x && py == y) {
                                    color
                                } else {
                                    fb0.color_at(px, py)
                                }));
                            }
                        }
                    }
                    x = x + 1;
                }
                y = y + 1;
            }
        }
        proof {
            assert forall|px: int, py: int|
                0 <= px < fb0.spec_width() && 0 <= py < fb0.spec_height()
                    implies self.color_at(px, py) == (if rect.spec_contains(px, py) {
                    color
                } else {
                    fb0.color_at(px, py)
                }) by {
                assert(rect.spec_contains(px, py) == (x0 <= px < x1 && y0 <= py < y1));
            }
        }
    }
}

/// A flat row-major index stays inside a w * h pixel store, and both fit
/// comfortably below 2^32 for the supported surface sizes.
proof fn lemma_flat_index_in_range(x: int, y: int, w: int, h: int)
    requires
        0 <= x < w < 0x10000,
        0 <= y < h < 0x10000,
    ensures
        0 <= y * w,
        y * w + x < w * h,
        w * h < 0x100000000,
{
    assert(0 <= y * w && y * w + x < w * h && w * h < 0x100000000) by (nonlinear_arith)
        requires
            0 <= x < w < 0x10000,
            0 <= y < h < 0x10000,
    ;
}

/// Distinct in-range pixel coordinates have distinct flat indices.
proof fn lemma_flat_index_injective(w: int, x1: int, y1: int, x2: int, y2: int)
    requires
        0 <= x1 < w,
        0 <= x2 < w,
        0 <= y1,
        0 <= y2,
        !(x1 == x2 && y1 == y2),
    ensures
        y1 * w + x1 != y2 * w + x2,
{
    assert(y1 * w + x1 != y2 * w + x2) by (nonlinear_arith)
        requires
            0 <= x1 < w,
            0 <= x2 < w,
            0 <= y1,
            0 <= y2,
            !(x1 == x2 && y1 == y2),
    ;
}

} // verus!
