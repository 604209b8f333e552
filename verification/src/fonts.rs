//! The hand-drawn 6x11 digit glyphs the clock is rendered with.
//!
//! Each digit occupies a cell six columns wide spanning the full matrix
//! height. [`digit_on`] is the glyph itself: which cell positions are lit.
//! [`draw_digit`] paints exactly those positions and nothing else.

use vstd::prelude::*;

use crate::color::Rgb;
use crate::frame::{lemma_pix_bounds, lemma_pix_injective, pix, Frame};
use crate::{DISPLAY_HEIGHT, DISPLAY_WIDTH};

verus! {

/// Width of one digit cell in pixels.
pub const DIGIT_WIDTH: usize = 6;

/// Lit positions of the zero glyph.
pub open spec fn zero_on(col: int, row: int) -> bool {
    if col == 0 || col == 5 {
        1 <= row <= 9
    } else if col == 1 || col == 4 {
        true
    } else {
        row <= 1 || row >= 9
    }
}

/// Lit positions of the one glyph.
pub open spec fn one_on(col: int, row: int) -> bool {
    if col == 0 || col == 1 {
        2 <= row <= 3 || 9 <= row
    } else if col == 2 {
        1 <= row
    } else if col == 3 {
        true
    } else {
        9 <= row
    }
}

/// Lit positions of the two glyph.
pub open spec fn two_on(col: int, row: int) -> bool {
    if row == 0 {
        1 <= col <= 4
    } else if row == 1 {
        true
    } else if row == 2 {
        col < 2 || col > 3
    } else if row == 3 || row == 4 {
        col > 3
    } else if row == 5 {
        2 <= col <= 4
    } else if row == 6 {
        1 <= col <= 3
    } else if row == 7 {
        col < 3
    } else if row == 8 {
        col < 2
    } else {
        true
    }
}

/// Lit positions of the three glyph.
pub open spec fn three_on(col: int, row: int) -> bool {
    if col == 0 {
        row == 1 || row == 2 || row == 8 || row == 9
    } else if col == 1 {
        row <= 2 || row == 5 || row >= 8
    } else if col == 5 {
        row != 0 && row != 10
    } else if col == 4 {
        true
    } else {
        row <= 1 || row >= 9 || row == 5
    }
}

/// Lit positions of the four glyph.
pub open spec fn four_on(col: int, row: int) -> bool {
    if col == 0 {
        4 <= row <= 7
    } else if col == 1 {
        3 <= row <= 7
    } else if col == 2 {
        row == 2 || row == 3 || row == 6 || row == 7
    } else if col == 3 {
        row == 1 || row == 2 || row == 6 || row == 7
    } else {
        true
    }
}

/// Lit positions of the five glyph.
pub open spec fn five_on(col: int, row: int) -> bool {
    if col == 0 {
        row <= 4 || 7 <= row <= 9
    } else if col == 1 {
        row != 6
    } else if col == 2 || col == 3 {
        row <= 1 || row == 4 || row == 5 || row == 9 || row == 10
    } else if col == 4 {
        row != 2 && row != 3
    } else {
        row != 2 && row != 3 && row != 4 && row != 10
    }
}

/// Lit positions of the six glyph.
pub open spec fn six_on(col: int, row: int) -> bool {
    if col == 0 {
        1 <= row <= 9
    } else if col == 1 {
        true
    } else if col == 2 || col == 3 {
        row <= 1 || row == 4 || row == 5 || row == 9 || row == 10
    } else if col == 4 {
        row != 3
    } else {
        row != 0 && row != 3 && row != 4 && row != 10
    }
}

/// Lit positions of the seven glyph.
pub open spec fn seven_on(col: int, row: int) -> bool {
    if row <= 1 {
        true
    } else if col == 5 {
        row == 2
    } else if col == 4 {
        row == 2 || row == 3
    } else if col == 3 {
        3 <= row
    } else if col == 2 {
        4 <= row
    } else {
        false
    }
}

/// Lit positions of the eight glyph.
pub open spec fn eight_on(col: int, row: int) -> bool {
    if col == 0 || col == 5 {
        row != 0 && row != 5 && row != 10
    } else if col == 1 || col == 4 {
        true
    } else {
        row != 2 && row != 3 && row != 7 && row != 8
    }
}

/// Lit positions of the nine glyph.
pub open spec fn nine_on(col: int, row: int) -> bool {
    if col == 0 {
        row != 0 && !(5 <= row <= 7) && row != 10
    } else if col == 1 {
        row != 6 && row != 7
    } else if col == 2 || col == 3 {
        !(2 <= row <= 3) && !(6 <= row <= 8)
    } else if col == 4 {
        true
    } else {
        row != 0 && row != 10
    }
}

/// The glyph of digit `d`: whether the cell position `(col, row)` is lit.
/// Values of ten and above share the eight glyph, as the firmware's fallback
/// did.
pub open spec fn digit_on(d: u8, col: int, row: int) -> bool {
    if d == 0 {
        zero_on(col, row)
    } else if d == 1 {
        one_on(col, row)
    } else if d == 2 {
        two_on(col, row)
    } else if d == 3 {
        three_on(col, row)
    } else if d == 4 {
        four_on(col, row)
    } else if d == 5 {
        five_on(col, row)
    } else if d == 6 {
        six_on(col, row)
    } else if d == 7 {
        seven_on(col, row)
    } else if d == 9 {
        nine_on(col, row)
    } else {
        eight_on(col, row)
    }
}

/// Whether the cell position `(col, row)` of digit `d` is lit.
fn digit_pixel(d: u8, col: usize, row: usize) -> (r: bool)
    ensures
        r == digit_on(d, col as int, row as int),
{
    if d == 0 {
        if col == 0 || col == 5 {
            1 <= row && row <= 9
        } else if col == 1 || col == 4 {
            true
        } else {
            row <= 1 || row >= 9
        }
    } else if d == 1 {
        if col == 0 || col == 1 {
            (2 <= row && row <= 3) || 9 <= row
        } else if col == 2 {
            1 <= row
        } else if col == 3 {
            true
        } else {
            9 <= row
        }
    } else if d == 2 {
        if row == 0 {
            1 <= col && col <= 4
        } else if row == 1 {
            true
        } else if row == 2 {
            col < 2 || col > 3
        } else if row == 3 || row == 4 {
            col > 3
        } else if row == 5 {
            2 <= col && col <= 4
        } else if row == 6 {
            1 <= col && col <= 3
        } else if row == 7 {
            col < 3
        } else if row == 8 {
            col < 2
        } else {
            true
        }
    } else if d == 3 {
        if col == 0 {
            row == 1 || row == 2 || row == 8 || row == 9
        } else if col == 1 {
            row <= 2 || row == 5 || row >= 8
        } else if col == 5 {
            row != 0 && row != 10
        } else if col == 4 {
            true
        } else {
            row <= 1 || row >= 9 || row == 5
        }
    } else if d == 4 {
        if col == 0 {
            4 <= row && row <= 7
        } else if col == 1 {
            3 <= row && row <= 7
        } else if col == 2 {
            row == 2 || row == 3 || row == 6 || row == 7
        } else if col == 3 {
            row == 1 || row == 2 || row == 6 || row == 7
        } else {
            true
        }
    } else if d == 5 {
        if col == 0 {
            row <= 4 || (7 <= row && row <= 9)
        } else if col == 1 {
            row != 6
        } else if col == 2 || col == 3 {
            row <= 1 || row == 4 || row == 5 || row == 9 || row == 10
        } else if col == 4 {
            row != 2 && row != 3
        } else {
            row != 2 && row != 3 && row != 4 && row != 10
        }
    } else if d == 6 {
        if col == 0 {
            1 <= row && row <= 9
        } else if col == 1 {
            true
        } else if col == 2 || col == 3 {
            row <= 1 || row == 4 || row == 5 || row == 9 || row == 10
        } else if col == 4 {
            row != 3
        } else {
            row != 0 && row != 3 && row != 4 && row != 10
        }
    } else if d == 7 {
        if row <= 1 {
            true
        } else if col == 5 {
            row == 2
        } else if col == 4 {
            row == 2 || row == 3
        } else if col == 3 {
            3 <= row
        } else if col == 2 {
            4 <= row
        } else {
            false
        }
    } else if d == 9 {
        if col == 0 {
            row != 0 && !(5 <= row && row <= 7) && row != 10
        } else if col == 1 {
            row != 6 && row != 7
        } else if col == 2 || col == 3 {
            !(2 <= row && row <= 3) && !(6 <= row && row <= 8)
        } else if col == 4 {
            true
        } else {
            row != 0 && row != 10
        }
    } else {
        if col == 0 || col == 5 {
            row != 0 && row != 5 && row != 10
        } else if col == 1 || col == 4 {
            true
        } else {
            row != 2 && row != 3 && row != 7 && row != 8
        }
    }
}

/// Draw digit `d` with its cell's left edge at column `start`: exactly the
/// glyph's lit positions take the color, every other pixel of the frame is
/// untouched.
pub fn draw_digit(frame: &mut Frame, d: u8, start: usize, color: Rgb)
    requires
        old(frame).wf(),
        start + DIGIT_WIDTH <= DISPLAY_WIDTH,
    ensures
        final(frame).wf(),
        forall|x: int, y: int|
            0 <= x < DISPLAY_WIDTH && 0 <= y < DISPLAY_HEIGHT ==> final(frame).at(x, y) == (
            if start <= x < start + DIGIT_WIDTH && digit_on(d, x - start, y) {
                color
            } else {
                old(frame).at(x, y)
            }),
{
    let mut col: usize = 0;
    while col < DIGIT_WIDTH
        invariant
            frame.wf(),
            col <= DIGIT_WIDTH,
            start + DIGIT_WIDTH <= DISPLAY_WIDTH,
            forall|x: int, y: int|
                0 <= x < DISPLAY_WIDTH && 0 <= y < DISPLAY_HEIGHT ==> frame.at(x, y) == (
                if start <= x < start + col && digit_on(d, x - start, y) {
                    color
                } else {
                    old(frame).at(x, y)
                }),
        decreases DIGIT_WIDTH - col,
    {
        let mut row: usize = 0;
        while row < DISPLAY_HEIGHT
            invariant
                frame.wf(),
                col < DIGIT_WIDTH,
                row <= DISPLAY_HEIGHT,
                start + DIGIT_WIDTH <= DISPLAY_WIDTH,
                forall|x: int, y: int|
                    0 <= x < DISPLAY_WIDTH && 0 <= y < DISPLAY_HEIGHT ==> frame.at(x, y) == (
                    if start <= x < start + col && digit_on(d, x - start, y) {
                        color
                    } else if x == start + col && y < row && digit_on(d, x - start, y) {
                        color
                    } else {
                        old(frame).at(x, y)
                    }),
            decreases DISPLAY_HEIGHT - row,
        {
            let ghost before = *frame;
            let lit = digit_pixel(d, col, row);
            if lit {
                frame.set_pixel(start + col, row, color);
            }
            proof {
                let px = (start + col) as int;
                let py = row as int;
                assert forall|x: int, y: int|
                    0 <= x < DISPLAY_WIDTH && 0 <= y < DISPLAY_HEIGHT implies frame.at(x, y) == (
                if start <= x < start + col && digit_on(d, x - start, y) {
                    color
                } else if x == start + col && y < row + 1 && digit_on(d, x - start, y) {
                    color
                } else {
                    old(frame).at(x, y)
                }) by {
                    lemma_pix_bounds(x, y);
                    lemma_pix_bounds(px, py);
                    if lit {
                        if x == px && y == py {
                            assert(frame.at(x, y) == color);
                        } else {
                            if pix(x, y) == pix(px, py) {
                                lemma_pix_injective(x, y, px, py);
                            }
                            assert(frame.at(x, y) == before.at(x, y));
                        }
                    } else {
                        assert(frame.at(x, y) == before.at(x, y));
                    }
                }
            }
            row += 1;
        }
        col += 1;
    }
}

} // verus!
