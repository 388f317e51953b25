//! The 16x16 LED matrix: its serpentine wiring and the three patterns that
//! are painted onto it.
//!
//! Coordinates are zero based with `(0, 0)` at the top left; `x` grows to the
//! right and `y` grows downwards. The strip starts at the top left, runs down
//! the first column, up the second, down the third, and so on.

use vstd::prelude::*;
use crate::config::NeopixelMatrixPattern;
use crate::pixel::Rgb8;

verus! {

/// Number of LEDs along each side of the matrix.
pub const MATRIX_WIDTH: usize = 16;

/// Number of LEDs in the matrix.
pub const MATRIX_LENGTH: usize = 256;

/// Number of LEDs in a frame.
pub const TOTAL_NEOPIXEL_LENGTH: usize = MATRIX_LENGTH;

/// Length of the SPI buffer for one frame: twelve bytes per LED and the latch gap.
pub const NEOPIXEL_MATRIX_BUFFER_SIZE: usize = 3212;

/// Position on the strip of the LED in column `x`, row `y`.
pub open spec fn xy_index(x: int, y: int) -> int {
    if x % 2 == 0 {
        x * 16 + y
    } else {
        x * 16 + (15 - y)
    }
}

/// Column of the LED at strip position `i`.
pub open spec fn column_of(i: int) -> int {
    i / 16
}

/// Row of the LED at strip position `i`.
pub open spec fn row_of(i: int) -> int {
    if (i / 16) % 2 == 0 {
        i % 16
    } else {
        15 - i % 16
    }
}

/// Every cell of the matrix lies on the strip, and its strip position leads
/// back to the same cell.
pub proof fn lemma_xy_index_inverse(x: int, y: int)
    requires
        0 <= x < 16,
        0 <= y < 16,
    ensures
        0 <= xy_index(x, y) < 256,
        column_of(xy_index(x, y)) == x,
        row_of(xy_index(x, y)) == y,
{
}

/// Every strip position belongs to exactly the cell that `column_of` and
/// `row_of` name.
pub proof fn lemma_xy_index_covers(i: int)
    requires
        0 <= i < 256,
    ensures
        0 <= column_of(i) < 16,
        0 <= row_of(i) < 16,
        xy_index(column_of(i), row_of(i)) == i,
{
}

/// Two different cells never share a strip position.
pub proof fn lemma_xy_index_unique(x1: int, y1: int, x2: int, y2: int)
    requires
        0 <= x1 < 16,
        0 <= y1 < 16,
        0 <= x2 < 16,
        0 <= y2 < 16,
        xy_index(x1, y1) == xy_index(x2, y2),
    ensures
        x1 == x2,
        y1 == y2,
{
    lemma_xy_index_inverse(x1, y1);
    lemma_xy_index_inverse(x2, y2);
}

/// The element of `arr` that stands for the LED in column `x`, row `y`.
pub fn xy<T>(arr: &mut [T], x: usize, y: usize) -> (cell: &mut T)
    requires
        x % 2 == 1 ==> y < MATRIX_WIDTH,
        xy_index(x as int, y as int) < old(arr)@.len(),
    ensures
        *cell == old(arr)@[xy_index(x as int, y as int)],
        final(arr)@ == old(arr)@.update(xy_index(x as int, y as int), *final(cell)),
{
    let len: usize = arr.len();
    assert(xy_index(x as int, y as int) < len);
    let index: usize = if x % 2 == 0 {
        // Even columns run downwards.
        (x * MATRIX_WIDTH) + y
    } else {
        // Odd columns run upwards.
        (x * MATRIX_WIDTH) + (MATRIX_WIDTH - 1 - y)
    };
    &mut arr[index]
}

/// One bar of the bar pattern: how many rows are lit, counted from the
/// bottom, and in which colour.
#[derive(Clone, Copy, Debug, PartialEq, Eq, Structural)]
pub struct Bar {
    pub height: usize,
    pub color: Rgb8,
}

/// What is to be painted: a pattern together with the colour levels that the
/// spectrum analysis produced for each of its channels.
#[derive(Clone, Copy, Debug)]
pub enum PatternFrame {
    /// Four 8x8 quadrants: top left, top right, bottom left, bottom right.
    Stripes([Rgb8; 4]),
    /// Eight bars, two columns each, growing from the bottom.
    Bars([Bar; 8]),
    /// Four 8x8 quadrants in the same places as `Stripes`.
    Quarters([Rgb8; 4]),
}

/// Which quadrant the cell in column `x`, row `y` belongs to.
pub open spec fn quadrant_of(x: int, y: int) -> int {
    (if y < 8 { 0int } else { 2int }) + (if x < 8 { 0int } else { 1int })
}

/// Whether a bar of the given height lights row `y`.
pub open spec fn bar_lights_row(height: int, y: int) -> bool {
    y + height >= 16
}

/// Colour of the cell in column `x`, row `y` when `frame` is painted.
pub open spec fn pixel_at(frame: PatternFrame, x: int, y: int) -> Rgb8 {
    match frame {
        PatternFrame::Stripes(colors) => colors@[quadrant_of(x, y)],
        PatternFrame::Quarters(colors) => colors@[quadrant_of(x, y)],
        PatternFrame::Bars(bars) => if bar_lights_row(bars@[x / 2].height as int, y) {
            bars@[x / 2].color
        } else {
            Rgb8::black()
        },
    }
}

/// The framebuffer that shows `frame`, in strip order.
pub open spec fn rendered(frame: PatternFrame) -> Seq<Rgb8> {
    Seq::new(MATRIX_LENGTH as nat, |i: int| pixel_at(frame, column_of(i), row_of(i)))
}

#[verifier::rlimit(40)]
fn paint_quadrants(colors: &[Rgb8; 4]) -> (fb: [Rgb8; MATRIX_LENGTH])
    ensures
        forall|x: int, y: int|
            0 <= x < 16 && 0 <= y < 16 ==> fb@[#[trigger] xy_index(x, y)] == colors@[quadrant_of(
                x,
                y,
            )],
{
    let mut fb: [Rgb8; MATRIX_LENGTH] = [Rgb8::new(0, 0, 0); MATRIX_LENGTH];
    let mut q: usize = 0;
    while q < 4
        invariant
            q <= 4,
            forall|x: int, y: int|
                0 <= x < 16 && 0 <= y < 16 && quadrant_of(x, y) < q ==> fb@[#[trigger] xy_index(
                    x,
                    y,
                )] == colors@[quadrant_of(x, y)],
        decreases 4 - q,
    {
        let offset_x: usize = if q % 2 == 0 { 0 } else { 8 };
        let offset_y: usize = if q < 2 { 0 } else { 8 };
        let color = colors[q];
        let mut y: usize = 0;
        while y < 8
            invariant
                y <= 8,
                q < 4,
                offset_x == if q % 2 == 0 { 0usize } else { 8usize },
                offset_y == if q < 2 { 0usize } else { 8usize },
                color == colors@[q as int],
                forall|cx: int, cy: int|
                    0 <= cx < 16 && 0 <= cy < 16 && (quadrant_of(cx, cy) < q || (quadrant_of(
                        cx,
                        cy,
                    ) == q && cy < offset_y + y)) ==> fb@[#[trigger] xy_index(cx, cy)]
                        == colors@[quadrant_of(cx, cy)],
            decreases 8 - y,
        {
            let mut x: usize = 0;
            while x < 8
                invariant
                    x <= 8,
                    y < 8,
                    q < 4,
                    offset_x == if q % 2 == 0 { 0usize } else { 8usize },
                    offset_y == if q < 2 { 0usize } else { 8usize },
                    color == colors@[q as int],
                    forall|cx: int, cy: int|
                        0 <= cx < 16 && 0 <= cy < 16 && (quadrant_of(cx, cy) < q || (quadrant_of(
                            cx,
                            cy,
                        ) == q && (cy < offset_y + y || (cy == offset_y + y && cx < offset_x
                            + x)))) ==> fb@[#[trigger] xy_index(cx, cy)] == colors@[quadrant_of(
                            cx,
                            cy,
                        )],
                decreases 8 - x,
            {
                let pixel_x: usize = offset_x + x;
                let pixel_y: usize = offset_y + y;
                let ghost before = fb@;
                let cell = xy(&mut fb, pixel_x, pixel_y);
                *cell = color;
                proof {
                    assert forall|cx: int, cy: int|
                        0 <= cx < 16 && 0 <= cy < 16 && (quadrant_of(cx, cy) < q || (quadrant_of(
                            cx,
                            cy,
                        ) == q && (cy < offset_y + y || (cy == offset_y + y && cx < offset_x + x
                            + 1)))) implies fb@[#[trigger] xy_index(cx, cy)] == colors@[quadrant_of(
                        cx,
                        cy,
                    )] by {
                        lemma_xy_index_inverse(cx, cy);
                        lemma_xy_index_inverse(pixel_x as int, pixel_y as int);
                        if cx == pixel_x && cy == pixel_y {
                        } else {
                            assert(xy_index(cx, cy) != xy_index(pixel_x as int, pixel_y as int));
                            assert(fb@[xy_index(cx, cy)] == before[xy_index(cx, cy)]);
                        }
                    }
                }
                x += 1;
            }
            y += 1;
        }
        q += 1;
    }
    fb
}

#[verifier::rlimit(40)]
fn paint_bars(bars: &[Bar; 8]) -> (fb: [Rgb8; MATRIX_LENGTH])
    ensures
        forall|x: int, y: int|
            0 <= x < 16 && 0 <= y < 16 ==> fb@[#[trigger] xy_index(x, y)] == pixel_at(
                PatternFrame::Bars(*bars),
                x,
                y,
            ),
{
    let mut fb: [Rgb8; MATRIX_LENGTH] = [Rgb8::new(0, 0, 0); MATRIX_LENGTH];
    let ghost frame = PatternFrame::Bars(*bars);
    assert forall|i: int| 0 <= i < 256 implies fb@[i] == Rgb8::black() by {}
    let mut x: usize = 0;
    while x < 16
        invariant
            x <= 16,
            frame == PatternFrame::Bars(*bars),
            forall|cx: int, cy: int|
                0 <= cx < x && 0 <= cy < 16 ==> fb@[#[trigger] xy_index(cx, cy)] == pixel_at(
                    frame,
                    cx,
                    cy,
                ),
            forall|cx: int, cy: int|
                x <= cx < 16 && 0 <= cy < 16 ==> fb@[#[trigger] xy_index(cx, cy)] == Rgb8::black(),
        decreases 16 - x,
    {
        let bar = bars[x / 2];
        let rows: usize = if bar.height < MATRIX_WIDTH { bar.height } else { MATRIX_WIDTH };
        let mut k: usize = 0;
        while k < rows
            invariant
                k <= rows,
                rows <= 16,
                x < 16,
                rows == if bar.height < 16 { bar.height } else { 16usize },
                bar == bars@[x as int / 2],
                frame == PatternFrame::Bars(*bars),
                forall|cx: int, cy: int|
                    0 <= cx < x && 0 <= cy < 16 ==> fb@[#[trigger] xy_index(cx, cy)] == pixel_at(
                        frame,
                        cx,
                        cy,
                    ),
                forall|cx: int, cy: int|
                    x < cx < 16 && 0 <= cy < 16 ==> fb@[#[trigger] xy_index(cx, cy)]
                        == Rgb8::black(),
                forall|cy: int|
                    0 <= cy < 16 ==> fb@[#[trigger] xy_index(x as int, cy)] == if cy + k >= 16 {
                        bar.color
                    } else {
                        Rgb8::black()
                    },
            decreases rows - k,
        {
            let pixel_y: usize = MATRIX_WIDTH - 1 - k;
            let ghost before = fb@;
            let cell = xy(&mut fb, x, pixel_y);
            *cell = bar.color;
            proof {
                lemma_xy_index_inverse(x as int, pixel_y as int);
                assert forall|cx: int, cy: int| 0 <= cx < 16 && 0 <= cy < 16 && !(cx == x && cy
                    == pixel_y) implies fb@[#[trigger] xy_index(cx, cy)] == before[xy_index(
                    cx,
                    cy,
                )] by {
                    lemma_xy_index_inverse(cx, cy);
                }
            }
            k += 1;
        }
        x += 1;
    }
    fb
}

/// Paints `frame` into a fresh framebuffer of 256 pixels in strip order.
///
/// Every pixel of the result is decided by `frame` alone: a quadrant pattern
/// fills each 8x8 quadrant with its channel's colour, and the bar pattern
/// lights the lowest `height` rows of each two-column bar (all sixteen when
/// `height` is larger) and leaves the rows above black.
pub fn render_pattern(frame: &PatternFrame) -> (fb: [Rgb8; MATRIX_LENGTH])
    ensures
        fb@ == rendered(*frame),
        forall|x: int, y: int|
            0 <= x < 16 && 0 <= y < 16 ==> fb@[#[trigger] xy_index(x, y)] == pixel_at(*frame, x, y),
{
    let fb = match frame {
        PatternFrame::Stripes(colors) => paint_quadrants(colors),
        PatternFrame::Bars(bars) => paint_bars(bars),
        PatternFrame::Quarters(colors) => paint_quadrants(colors),
    };
    proof {
        assert forall|i: int| 0 <= i < 256 implies fb@[i] == pixel_at(
            *frame,
            column_of(i),
            row_of(i),
        ) by {
            lemma_xy_index_covers(i);
        }
        assert(fb@ =~= rendered(*frame));
    }
    fb
}


/// What `frame_for` paints for a configured pattern: the levels of its
/// channels in order, and for bars the heights as well.
pub open spec fn frame_of(
    pattern: NeopixelMatrixPattern,
    colors: Seq<Rgb8>,
    heights: Seq<usize>,
) -> PatternFrame {
    match pattern {
        NeopixelMatrixPattern::Stripes(_) => PatternFrame::Stripes(
            [colors[0], colors[1], colors[2], colors[3]],
        ),
        NeopixelMatrixPattern::Bars(_) => PatternFrame::Bars(
            [
                Bar { height: heights[0], color: colors[0] },
                Bar { height: heights[1], color: colors[1] },
                Bar { height: heights[2], color: colors[2] },
                Bar { height: heights[3], color: colors[3] },
                Bar { height: heights[4], color: colors[4] },
                Bar { height: heights[5], color: colors[5] },
                Bar { height: heights[6], color: colors[6] },
                Bar { height: heights[7], color: colors[7] },
            ],
        ),
        NeopixelMatrixPattern::Quarters(_) => PatternFrame::Quarters(
            [colors[0], colors[1], colors[2], colors[3]],
        ),
    }
}

/// Puts the levels that were computed for the channels of `pattern` into
/// the frame to paint. `colors` and `heights` are indexed by channel;
/// entries beyond the pattern's channels, and the heights of a quadrant
/// pattern, are not looked at.
pub fn frame_for(pattern: &NeopixelMatrixPattern, colors: &[Rgb8; 8], heights: &[usize; 8]) -> (frame:
    PatternFrame)
    ensures
        frame == frame_of(*pattern, colors@, heights@),
{
    match pattern {
        NeopixelMatrixPattern::Stripes(_) => {
            let quad: [Rgb8; 4] = [colors[0], colors[1], colors[2], colors[3]];
            assert(quad =~= frame_of(*pattern, colors@, heights@)->Stripes_0);
            PatternFrame::Stripes(quad)
        },
        NeopixelMatrixPattern::Bars(_) => {
            let bars: [Bar; 8] = [
                Bar { height: heights[0], color: colors[0] },
                Bar { height: heights[1], color: colors[1] },
                Bar { height: heights[2], color: colors[2] },
                Bar { height: heights[3], color: colors[3] },
                Bar { height: heights[4], color: colors[4] },
                Bar { height: heights[5], color: colors[5] },
                Bar { height: heights[6], color: colors[6] },
                Bar { height: heights[7], color: colors[7] },
            ];
            assert(bars =~= frame_of(*pattern, colors@, heights@)->Bars_0);
            PatternFrame::Bars(bars)
        },
        NeopixelMatrixPattern::Quarters(_) => {
            let quad: [Rgb8; 4] = [colors[0], colors[1], colors[2], colors[3]];
            assert(quad =~= frame_of(*pattern, colors@, heights@)->Quarters_0);
            PatternFrame::Quarters(quad)
        },
    }
}

/// Both quadrant patterns paint the same picture from the same levels.
pub proof fn lemma_quadrant_patterns_agree(colors: [Rgb8; 4])
    ensures
        rendered(PatternFrame::Stripes(colors)) == rendered(PatternFrame::Quarters(colors)),
{
    assert(rendered(PatternFrame::Stripes(colors)) =~= rendered(PatternFrame::Quarters(colors)));
}

/// A frame leaves no pixel to chance: two framebuffers that show the same
/// frame are the same, whatever was painted before.
pub proof fn lemma_every_pixel_is_painted(frame: PatternFrame, i: int)
    requires
        0 <= i < MATRIX_LENGTH,
    ensures
        rendered(frame).len() == MATRIX_LENGTH,
        rendered(frame)[i] == pixel_at(frame, column_of(i), row_of(i)),
        0 <= column_of(i) < 16 && 0 <= row_of(i) < 16,
{
}

} // verus!
