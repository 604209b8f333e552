//! The in-memory pixel grid mirrored to the physical LED matrix.

use vstd::prelude::*;

use crate::color::Rgb;
use crate::{DISPLAY_HEIGHT, DISPLAY_WIDTH};

verus! {

/// A full frame of pixels, row-major: the pixel at `(x, y)` sits at index
/// `y * DISPLAY_WIDTH + x`.
pub struct Frame {
    /// The pixels, row-major.
    pub pixels: Vec<Rgb>,
}

/// Index of the pixel at `(x, y)`.
pub open spec fn pix(x: int, y: int) -> int {
    y * DISPLAY_WIDTH + x
}

impl Frame {
    /// The frame always holds exactly one pixel per matrix position.
    pub open spec fn wf(self) -> bool {
        self.pixels@.len() == DISPLAY_WIDTH * DISPLAY_HEIGHT
    }

    /// The pixels, row-major.
    pub open spec fn view(self) -> Seq<Rgb> {
        self.pixels@
    }

    /// The pixel at `(x, y)`.
    pub open spec fn at(self, x: int, y: int) -> Rgb {
        self.pixels@[pix(x, y)]
    }

    /// A frame with every pixel set to `c`.
    pub fn filled(c: Rgb) -> (f: Frame)
        ensures
            f.wf(),
            forall|i: int| 0 <= i < f.view().len() ==> f.view()[i] == c,
    {
        let mut pixels: Vec<Rgb> = Vec::new();
        let mut i: usize = 0;
        while i < DISPLAY_WIDTH * DISPLAY_HEIGHT
            invariant
                i == pixels@.len(),
                i <= DISPLAY_WIDTH * DISPLAY_HEIGHT,
                forall|j: int| 0 <= j < i ==> pixels@[j] == c,
            decreases DISPLAY_WIDTH * DISPLAY_HEIGHT - i,
        {
            pixels.push(c);
            i += 1;
        }
        Frame { pixels }
    }

    /// A blank (all-black) frame.
    pub fn new() -> (f: Frame)
        ensures
            f.wf(),
            forall|i: int| 0 <= i < f.view().len() ==> f.view()[i] == Rgb::black_spec(),
    {
        Frame::filled(Rgb::black())
    }

    /// Set every pixel to `c`.
    pub fn fill(&mut self, c: Rgb)
        requires
            old(self).wf(),
        ensures
            final(self).wf(),
            forall|i: int| 0 <= i < final(self).view().len() ==> final(self).view()[i] == c,
    {
        let mut i: usize = 0;
        while i < DISPLAY_WIDTH * DISPLAY_HEIGHT
            invariant
                self.wf(),
                i <= DISPLAY_WIDTH * DISPLAY_HEIGHT,
                forall|j: int| 0 <= j < i ==> self.pixels@[j] == c,
            decreases DISPLAY_WIDTH * DISPLAY_HEIGHT - i,
        {
            self.pixels.set(i, c);
            i += 1;
        }
    }

    /// Clear every pixel to black.
    pub fn clear_all(&mut self)
        requires
            old(self).wf(),
        ensures
            final(self).wf(),
            forall|i: int| 0 <= i < final(self).view().len() ==> final(self).view()[i]
                == Rgb::black_spec(),
    {
        self.fill(Rgb::black());
    }

    /// Set the pixel at `(x, y)`; positions outside the matrix are ignored.
    pub fn set_pixel(&mut self, x: usize, y: usize, c: Rgb)
        requires
            old(self).wf(),
        ensures
            final(self).wf(),
            x < DISPLAY_WIDTH && y < DISPLAY_HEIGHT ==> final(self).view() == old(
                self,
            ).view().update(pix(x as int, y as int), c),
            !(x < DISPLAY_WIDTH && y < DISPLAY_HEIGHT) ==> final(self).view() == old(self).view(),
    {
        if x < DISPLAY_WIDTH && y < DISPLAY_HEIGHT {
            proof {
                lemma_pix_bounds(x as int, y as int);
            }
            self.pixels.set(y * DISPLAY_WIDTH + x, c);
        }
    }

    /// Whether the pixel at `(x, y)` holds exactly the color `c`.
    pub fn is_match(&self, x: usize, y: usize, c: Rgb) -> (r: bool)
        requires
            self.wf(),
            x < DISPLAY_WIDTH,
            y < DISPLAY_HEIGHT,
        ensures
            r == (self.at(x as int, y as int) == c),
    {
        proof {
            lemma_pix_bounds(x as int, y as int);
        }
        let p = self.pixels[y * DISPLAY_WIDTH + x];
        p == c
    }

    /// Repaint every pixel holding exactly `from` with `to`, so a color
    /// change restyles what is already on the display.
    pub fn replace_color_with_new(&mut self, from: Rgb, to: Rgb)
        requires
            old(self).wf(),
        ensures
            final(self).wf(),
            forall|i: int|
                0 <= i < final(self).view().len() ==> final(self).view()[i] == (if old(
                    self,
                ).view()[i] == from {
                    to
                } else {
                    old(self).view()[i]
                }),
    {
        let mut i: usize = 0;
        while i < DISPLAY_WIDTH * DISPLAY_HEIGHT
            invariant
                self.wf(),
                i <= DISPLAY_WIDTH * DISPLAY_HEIGHT,
                forall|j: int|
                    0 <= j < i ==> self.view()[j] == (if old(self).view()[j] == from {
                        to
                    } else {
                        old(self).view()[j]
                    }),
                forall|j: int|
                    i <= j < self.view().len() ==> self.view()[j] == old(self).view()[j],
            decreases DISPLAY_WIDTH * DISPLAY_HEIGHT - i,
        {
            let ghost prev = self.pixels@;
            if self.pixels[i] == from {
                self.pixels.set(i, to);
            }
            proof {
                assert(forall|j: int| 0 <= j < self.view().len() && j != i ==> self.view()[j]
                    == prev[j]);
            }
            i += 1;
        }
    }

    /// Fill the rectangle of width `w` and height `h` whose top-left corner
    /// is `(x0, y0)`; parts outside the matrix are clipped.
    pub fn fill_rect(&mut self, x0: usize, y0: usize, w: usize, h: usize, c: Rgb)
        requires
            old(self).wf(),
            x0 + w <= usize::MAX,
            y0 + h <= usize::MAX,
        ensures
            final(self).wf(),
            forall|x: int, y: int|
                0 <= x < DISPLAY_WIDTH && 0 <= y < DISPLAY_HEIGHT ==> final(self).at(x, y) == (
                if x0 <= x < x0 + w && y0 <= y < y0 + h {
                    c
                } else {
                    old(self).at(x, y)
                }),
    {
        let mut dy: usize = 0;
        while dy < h
            invariant
                self.wf(),
                dy <= h,
                x0 + w <= usize::MAX,
                y0 + h <= usize::MAX,
                forall|x: int, y: int|
                    0 <= x < DISPLAY_WIDTH && 0 <= y < DISPLAY_HEIGHT ==> self.at(x, y) == (
                    if x0 <= x < x0 + w && y0 <= y < y0 + dy {
                        c
                    } else {
                        old(self).at(x, y)
                    }),
            decreases h - dy,
        {
            let mut dx: usize = 0;
            while dx < w
                invariant
                    self.wf(),
                    dx <= w,
                    dy < h,
                    x0 + w <= usize::MAX,
                    y0 + h <= usize::MAX,
                    forall|x: int, y: int|
                        0 <= x < DISPLAY_WIDTH && 0 <= y < DISPLAY_HEIGHT ==> self.at(x, y) == (
                        if x0 <= x < x0 + w && (y0 <= y < y0 + dy || (y == y0 + dy && x < x0
                            + dx)) {
                            c
                        } else {
                            old(self).at(x, y)
                        }),
                decreases w - dx,
            {
                let px = x0 + dx;
                let py = y0 + dy;
                let ghost before = *self;
                proof {
                    assert forall|x: int, y: int|
                        0 <= x < DISPLAY_WIDTH && 0 <= y < DISPLAY_HEIGHT implies before.at(x, y)
                        == (if x0 <= x < x0 + w && (y0 <= y < y0 + dy || (y == y0 + dy && x < x0
                        + dx)) {
                        c
                    } else {
                        old(self).at(x, y)
                    }) by {}
                }
                self.set_pixel(px, py, c);
                proof {
                    assert forall|x: int, y: int|
                        0 <= x < DISPLAY_WIDTH && 0 <= y < DISPLAY_HEIGHT implies self.at(x, y)
                        == (if x0 <= x < x0 + w && (y0 <= y < y0 + dy || (y == y0 + dy && x < x0
                        + dx + 1)) {
                        c
                    } else {
                        old(self).at(x, y)
                    }) by {
                        lemma_pix_bounds(x, y);
                        assert(before.at(x, y) == (if x0 <= x < x0 + w && (y0 <= y < y0 + dy || (y
                            == y0 + dy && x < x0 + dx)) {
                            c
                        } else {
                            old(self).at(x, y)
                        }));
                        if px < DISPLAY_WIDTH && py < DISPLAY_HEIGHT {
                            lemma_pix_bounds(px as int, py as int);
                            if x == px && y == py {
                                assert(self.at(x, y) == c);
                            } else {
                                if pix(x, y) == pix(px as int, py as int) {
                                    lemma_pix_injective(x, y, px as int, py as int);
                                }
                                assert(self.at(x, y) == before.at(x, y));
                            }
                        } else {
                            assert(self.view() == before.view());
                            assert(self.at(x, y) == before.at(x, y));
                        }
                    }
                }
                dx += 1;
            }
            proof {
                assert forall|x: int, y: int|
                    0 <= x < DISPLAY_WIDTH && 0 <= y < DISPLAY_HEIGHT implies self.at(x, y) == (
                if x0 <= x < x0 + w && y0 <= y < y0 + dy + 1 {
                    c
                } else {
                    old(self).at(x, y)
                }) by {}
            }
            dy += 1;
        }
    }
}

/// A pixel inside the matrix has its index inside the frame.
pub proof fn lemma_pix_bounds(x: int, y: int)
    requires
        0 <= x < DISPLAY_WIDTH,
        0 <= y < DISPLAY_HEIGHT,
    ensures
        0 <= pix(x, y) < DISPLAY_WIDTH * DISPLAY_HEIGHT,
        pix(x, y) == y * DISPLAY_WIDTH + x,
{
}

/// Distinct positions have distinct indices.
pub proof fn lemma_pix_injective(x1: int, y1: int, x2: int, y2: int)
    requires
        0 <= x1 < DISPLAY_WIDTH,
        0 <= y1 < DISPLAY_HEIGHT,
        0 <= x2 < DISPLAY_WIDTH,
        0 <= y2 < DISPLAY_HEIGHT,
        pix(x1, y1) == pix(x2, y2),
    ensures
        x1 == x2 && y1 == y2,
{
}

impl Rgb {
    /// Black, at the spec level.
    pub open spec fn black_spec() -> Rgb {
        Rgb { r: 0, g: 0, b: 0 }
    }
}

} // verus!
