//! Border frames as stacks of one-pixel rings around the content rectangle.
//!
//! A ring at distance `k` is the outline of the content rectangle grown by
//! `k` pixels on every side.  Its top and left edges take one colour, its
//! bottom and right edges another, and an on/off pattern may thin it out.
//! Every border style is a stack of such rings, painted from the innermost
//! outwards; what a stack leaves at a pixel is `ring_stack`.

use vstd::prelude::*;
use crate::color::{dark_shade, light_shade, shades};
use crate::config::BorderStyle;
use crate::plugin::BordersPlugin;
use crate::raster::{PixelBuffer, Rgba8};

verus! {

/// Whether position `pos` along an edge is painted by a pattern of `dash`
/// painted pixels followed by `gap` skipped ones.
pub open spec fn dash_on(pos: int, dash: int, gap: int) -> bool {
    pos % (dash + gap) < dash
}

/// Whether `(qx, qy)` is a painted pixel of the horizontal run from `x1` to
/// `x2` (both included) in row `y`.  The pattern starts at `x1`.
pub open spec fn on_row(x1: int, x2: int, y: int, dash: int, gap: int, qx: int, qy: int) -> bool {
    qy == y && x1 <= qx <= x2 && dash_on(qx - x1, dash, gap)
}

/// Whether `(qx, qy)` is a painted pixel of the vertical run from `y1` to
/// `y2` (both included) in column `x`.  The pattern starts at `y1`.
pub open spec fn on_col(y1: int, y2: int, x: int, dash: int, gap: int, qx: int, qy: int) -> bool {
    qx == x && y1 <= qy <= y2 && dash_on(qy - y1, dash, gap)
}

/// What one ring with corners `(x1, y1)` and `(x2, y2)` leaves at `(qx, qy)`
/// over the pixel `under`.  The edges are painted top, bottom, left, right,
/// so where they meet the later one shows: the right edge wins over the left,
/// both over the bottom edge, and that over the top edge.
pub open spec fn ring_pixel(
    x1: int,
    y1: int,
    x2: int,
    y2: int,
    top: Rgba8,
    bottom: Rgba8,
    dash: int,
    gap: int,
    under: Rgba8,
    qx: int,
    qy: int,
) -> Rgba8 {
    if on_col(y1, y2, x2, dash, gap, qx, qy) {
        bottom
    } else if on_col(y1, y2, x1, dash, gap, qx, qy) {
        top
    } else if on_row(x1, x2, y2, dash, gap, qx, qy) {
        bottom
    } else if on_row(x1, x2, y1, dash, gap, qx, qy) {
        top
    } else {
        under
    }
}

/// Left or top coordinate of the ring at distance `k` from a content edge at
/// `c`.  It may lie before the canvas; what does is not drawn.
pub open spec fn ring_low(c: int, k: int) -> int {
    c - k
}

/// Right or bottom coordinate of the ring at distance `k` from content that
/// starts at `c` and is `len` long.
pub open spec fn ring_high(c: int, len: int, k: int) -> int {
    c + len + k - 1
}

/// What the ring at distance `k` around the content rectangle leaves at
/// `(qx, qy)`.
pub open spec fn frame_pixel(
    cx: int,
    cy: int,
    cw: int,
    ch: int,
    k: int,
    top: Rgba8,
    bottom: Rgba8,
    dash: int,
    gap: int,
    under: Rgba8,
    qx: int,
    qy: int,
) -> Rgba8 {
    ring_pixel(
        ring_low(cx, k),
        ring_low(cy, k),
        ring_high(cx, cw, k),
        ring_high(cy, ch, k),
        top,
        bottom,
        dash,
        gap,
        under,
        qx,
        qy,
    )
}

/// What the rings at distances `first + 1` to `first + count` leave at
/// `(qx, qy)`, painted in that order over the pixel `under`.
pub open spec fn ring_stack(
    cx: int,
    cy: int,
    cw: int,
    ch: int,
    first: int,
    count: nat,
    top: Rgba8,
    bottom: Rgba8,
    dash: int,
    gap: int,
    under: Rgba8,
    qx: int,
    qy: int,
) -> Rgba8
    decreases count,
{
    if count == 0 {
        under
    } else {
        frame_pixel(
            cx,
            cy,
            cw,
            ch,
            first + count,
            top,
            bottom,
            dash,
            gap,
            ring_stack(
                cx,
                cy,
                cw,
                ch,
                first,
                (count - 1) as nat,
                top,
                bottom,
                dash,
                gap,
                under,
                qx,
                qy,
            ),
            qx,
            qy,
        )
    }
}

/// How far `(qx, qy)` lies outside the content rectangle: the larger of its
/// horizontal and vertical overshoot, 0 inside.
pub open spec fn frame_distance(cx: int, cy: int, cw: int, ch: int, qx: int, qy: int) -> int {
    let dx = if qx < cx {
        cx - qx
    } else if qx >= cx + cw {
        qx - (cx + cw) + 1
    } else {
        0
    };
    let dy = if qy < cy {
        cy - qy
    } else if qy >= cy + ch {
        qy - (cy + ch) + 1
    } else {
        0
    };
    if dx >= dy {
        dx
    } else {
        dy
    }
}

/// Position of the pixel `q` along a run that starts at `low`, within one
/// period of the pattern.
fn pattern_position(q: i64, low: i64, period: u64) -> (pos: u64)
    requires
        low <= q,
        period > 0,
    ensures
        pos == (q - low) % (period as int),
{
    let along: u128 = (q as i128 - low as i128) as u128;
    (along % (period as u128)) as u64
}

/// Paints the run from `x1` to `x2` (both included) of row `y` with `color`,
/// following the pattern, which starts at `x1`.  What falls outside the
/// buffer is dropped.
pub fn paint_row(
    image: &mut PixelBuffer,
    y: i64,
    x1: i64,
    x2: i64,
    color: Rgba8,
    dash: u32,
    gap: u32,
)
    requires
        dash + gap > 0,
    ensures
        final(image).same_size(*old(image)),
        forall|qx: int, qy: int|
            final(image).contains(qx, qy) ==> #[trigger] final(image).at(qx, qy) == if on_row(
                x1 as int,
                x2 as int,
                y as int,
                dash as int,
                gap as int,
                qx,
                qy,
            ) {
                color
            } else {
                old(image).at(qx, qy)
            },
{
    let ghost before = *image;
    let width: i64 = image.width() as i64;
    let height: i64 = image.height() as i64;
    if y < 0 || y >= height || x1 >= width {
        return ;
    }
    let start: i64 = if x1 < 0 {
        0
    } else {
        x1
    };
    let stop: i64 = if x2 < width {
        x2 + 1
    } else {
        width
    };
    let period: u64 = dash as u64 + gap as u64;
    let mut x: i64 = start;
    while x < stop
        invariant
            start <= x,
            start == if x1 < 0 {
                0
            } else {
                x1 as int
            },
            stop <= width,
            stop == if x2 < width {
                x2 + 1
            } else {
                width as int
            },
            0 <= y < height,
            width == before.w(),
            height == before.h(),
            width <= u32::MAX,
            height <= u32::MAX,
            period == dash + gap,
            period > 0,
            image.same_size(before),
            forall|qx: int, qy: int|
                image.contains(qx, qy) ==> #[trigger] image.at(qx, qy) == if qx < x && on_row(
                    x1 as int,
                    x2 as int,
                    y as int,
                    dash as int,
                    gap as int,
                    qx,
                    qy,
                ) {
                    color
                } else {
                    before.at(qx, qy)
                },
        decreases stop - x,
    {
        if pattern_position(x, x1, period) < dash as u64 {
            image.put_pixel(x as u32, y as u32, color);
        }
        x = x + 1;
    }
}

/// Paints the run from `y1` to `y2` (both included) of column `x` with
/// `color`, following the pattern, which starts at `y1`.  What falls
/// outside the buffer is dropped.
pub fn paint_col(
    image: &mut PixelBuffer,
    x: i64,
    y1: i64,
    y2: i64,
    color: Rgba8,
    dash: u32,
    gap: u32,
)
    requires
        dash + gap > 0,
    ensures
        final(image).same_size(*old(image)),
        forall|qx: int, qy: int|
            final(image).contains(qx, qy) ==> #[trigger] final(image).at(qx, qy) == if on_col(
                y1 as int,
                y2 as int,
                x as int,
                dash as int,
                gap as int,
                qx,
                qy,
            ) {
                color
            } else {
                old(image).at(qx, qy)
            },
{
    let ghost before = *image;
    let width: i64 = image.width() as i64;
    let height: i64 = image.height() as i64;
    if x < 0 || x >= width || y1 >= height {
        return ;
    }
    let start: i64 = if y1 < 0 {
        0
    } else {
        y1
    };
    let stop: i64 = if y2 < height {
        y2 + 1
    } else {
        height
    };
    let period: u64 = dash as u64 + gap as u64;
    let mut y: i64 = start;
    while y < stop
        invariant
            start <= y,
            start == if y1 < 0 {
                0
            } else {
                y1 as int
            },
            stop <= height,
            stop == if y2 < height {
                y2 + 1
            } else {
                height as int
            },
            0 <= x < width,
            width == before.w(),
            height == before.h(),
            width <= u32::MAX,
            height <= u32::MAX,
            period == dash + gap,
            period > 0,
            image.same_size(before),
            forall|qx: int, qy: int|
                image.contains(qx, qy) ==> #[trigger] image.at(qx, qy) == if qy < y && on_col(
                    y1 as int,
                    y2 as int,
                    x as int,
                    dash as int,
                    gap as int,
                    qx,
                    qy,
                ) {
                    color
                } else {
                    before.at(qx, qy)
                },
        decreases stop - y,
    {
        if pattern_position(y, y1, period) < dash as u64 {
            image.put_pixel(x as u32, y as u32, color);
        }
        y = y + 1;
    }
}

/// Paints one ring with corners `(x1, y1)` and `(x2, y2)`: the top and left
/// edges in `top`, the bottom and right edges in `bottom`.
pub fn draw_ring(
    image: &mut PixelBuffer,
    x1: i64,
    y1: i64,
    x2: i64,
    y2: i64,
    top: Rgba8,
    bottom: Rgba8,
    dash: u32,
    gap: u32,
)
    requires
        dash + gap > 0,
    ensures
        final(image).same_size(*old(image)),
        forall|qx: int, qy: int|
            final(image).contains(qx, qy) ==> #[trigger] final(image).at(qx, qy) == ring_pixel(
                x1 as int,
                y1 as int,
                x2 as int,
                y2 as int,
                top,
                bottom,
                dash as int,
                gap as int,
                old(image).at(qx, qy),
                qx,
                qy,
            ),
{
    paint_row(image, y1, x1, x2, top, dash, gap);
    paint_row(image, y2, x1, x2, bottom, dash, gap);
    paint_col(image, x1, y1, y2, top, dash, gap);
    paint_col(image, x2, y1, y2, bottom, dash, gap);
}

/// Largest coordinate and length that `draw_rings` takes: far beyond any
/// canvas, and small enough for 64-bit arithmetic.
pub const RING_REACH: i64 = 0x100_0000_0000;

/// Paints the rings at distances `first + 1` to `first + count` around the
/// content rectangle, innermost first.  The content rectangle may start
/// before the canvas.
pub fn draw_rings(
    image: &mut PixelBuffer,
    cx: i64,
    cy: i64,
    cw: i64,
    ch: i64,
    first: u32,
    count: u32,
    top: Rgba8,
    bottom: Rgba8,
    dash: u32,
    gap: u32,
)
    requires
        dash + gap > 0,
        -RING_REACH <= cx <= RING_REACH,
        -RING_REACH <= cy <= RING_REACH,
        0 <= cw <= RING_REACH,
        0 <= ch <= RING_REACH,
    ensures
        final(image).same_size(*old(image)),
        forall|qx: int, qy: int|
            final(image).contains(qx, qy) ==> #[trigger] final(image).at(qx, qy) == ring_stack(
                cx as int,
                cy as int,
                cw as int,
                ch as int,
                first as int,
                count as nat,
                top,
                bottom,
                dash as int,
                gap as int,
                old(image).at(qx, qy),
                qx,
                qy,
            ),
{
    let ghost before = *image;
    let mut i: u32 = 0;
    while i < count
        invariant
            i <= count,
            dash + gap > 0,
            -RING_REACH <= cx <= RING_REACH,
            -RING_REACH <= cy <= RING_REACH,
            0 <= cw <= RING_REACH,
            0 <= ch <= RING_REACH,
            image.same_size(before),
            forall|qx: int, qy: int|
                image.contains(qx, qy) ==> #[trigger] image.at(qx, qy) == ring_stack(
                    cx as int,
                    cy as int,
                    cw as int,
                    ch as int,
                    first as int,
                    i as nat,
                    top,
                    bottom,
                    dash as int,
                    gap as int,
                    before.at(qx, qy),
                    qx,
                    qy,
                ),
        decreases count - i,
    {
        let k: i64 = first as i64 + i as i64 + 1;
        draw_ring(image, cx - k, cy - k, cx + cw + k - 1, cy + ch + k - 1, top, bottom, dash, gap);
        i = i + 1;
    }
}

/// Length of the painted runs of a dashed border.
pub const DASH_LEN: u32 = 10;

/// Length of the skipped runs of a dashed border.
pub const DASH_GAP: u32 = 5;

/// Length of the painted runs of a dotted border.
pub const DOT_LEN: u32 = 2;

/// Length of the skipped runs of a dotted border.
pub const DOT_GAP: u32 = 2;

/// A solid border of `border` rings in one colour.
pub open spec fn solid_pixel(
    cx: int,
    cy: int,
    cw: int,
    ch: int,
    border: nat,
    color: Rgba8,
    under: Rgba8,
    qx: int,
    qy: int,
) -> Rgba8 {
    ring_stack(cx, cy, cw, ch, 0, border, color, color, 1, 0, under, qx, qy)
}

/// A border of `border` rings in one colour, each edge of each ring broken
/// into runs of `dash` painted and `gap` skipped pixels.  The pattern starts
/// anew at the low end of every edge.
pub open spec fn dashed_pixel(
    cx: int,
    cy: int,
    cw: int,
    ch: int,
    border: nat,
    color: Rgba8,
    dash: int,
    gap: int,
    under: Rgba8,
    qx: int,
    qy: int,
) -> Rgba8 {
    ring_stack(cx, cy, cw, ch, 0, border, color, color, dash, gap, under, qx, qy)
}

/// Width of each of the two bands of a double border.
pub open spec fn double_band(border: int) -> int {
    border / 3
}

/// Width of the empty band between the two bands of a double border: what
/// the two bands leave of the thickness.
pub open spec fn double_gap(border: int) -> int {
    border - 2 * double_band(border)
}

/// A double border: a solid band against the content, and a second solid
/// band of the same width around the rectangle that the first band and the
/// empty band make with the content.
pub open spec fn double_pixel(
    cx: int,
    cy: int,
    cw: int,
    ch: int,
    border: nat,
    color: Rgba8,
    under: Rgba8,
    qx: int,
    qy: int,
) -> Rgba8 {
    let band = double_band(border as int);
    let shift = band + double_gap(border as int);
    solid_pixel(
        ring_low(cx, shift),
        ring_low(cy, shift),
        cw + 2 * shift,
        ch + 2 * shift,
        band as nat,
        color,
        solid_pixel(cx, cy, cw, ch, band as nat, color, under, qx, qy),
        qx,
        qy,
    )
}

/// A grooved or ridged border: two bands of half the thickness each.  A
/// groove has its outer band dark on top and left and light on bottom and
/// right, and its inner band the other way round; a ridge swaps the two.
pub open spec fn relief_pixel(
    cx: int,
    cy: int,
    cw: int,
    ch: int,
    border: nat,
    color: Rgba8,
    groove: bool,
    under: Rgba8,
    qx: int,
    qy: int,
) -> Rgba8 {
    let half = border / 2;
    let light = light_shade(color);
    let dark = dark_shade(color);
    let outer_top = if groove {
        dark
    } else {
        light
    };
    let outer_bottom = if groove {
        light
    } else {
        dark
    };
    let inner_top = outer_bottom;
    let inner_bottom = outer_top;
    let outer = ring_stack(
        cx,
        cy,
        cw,
        ch,
        half as int,
        half,
        outer_top,
        outer_bottom,
        1,
        0,
        under,
        qx,
        qy,
    );
    ring_stack(cx, cy, cw, ch, 0, half, inner_top, inner_bottom, 1, 0, outer, qx, qy)
}

/// An inset or outset border: one band of the whole thickness, dark on top
/// and left and light on bottom and right for an inset, the other way round
/// for an outset.
pub open spec fn bevel_pixel(
    cx: int,
    cy: int,
    cw: int,
    ch: int,
    border: nat,
    color: Rgba8,
    inset: bool,
    under: Rgba8,
    qx: int,
    qy: int,
) -> Rgba8 {
    let light = light_shade(color);
    let dark = dark_shade(color);
    ring_stack(
        cx,
        cy,
        cw,
        ch,
        0,
        border,
        if inset {
            dark
        } else {
            light
        },
        if inset {
            light
        } else {
            dark
        },
        1,
        0,
        under,
        qx,
        qy,
    )
}

/// What a border of the given style leaves at `(qx, qy)` over `under`.
pub open spec fn border_pixel(
    style: BorderStyle,
    cx: int,
    cy: int,
    cw: int,
    ch: int,
    border: nat,
    color: Rgba8,
    under: Rgba8,
    qx: int,
    qy: int,
) -> Rgba8 {
    match style {
        BorderStyle::Solid => solid_pixel(cx, cy, cw, ch, border, color, under, qx, qy),
        BorderStyle::Double => double_pixel(cx, cy, cw, ch, border, color, under, qx, qy),
        BorderStyle::Dashed => dashed_pixel(
            cx,
            cy,
            cw,
            ch,
            border,
            color,
            DASH_LEN as int,
            DASH_GAP as int,
            under,
            qx,
            qy,
        ),
        BorderStyle::Dotted => dashed_pixel(
            cx,
            cy,
            cw,
            ch,
            border,
            color,
            DOT_LEN as int,
            DOT_GAP as int,
            under,
            qx,
            qy,
        ),
        BorderStyle::Groove => relief_pixel(cx, cy, cw, ch, border, color, true, under, qx, qy),
        BorderStyle::Ridge => relief_pixel(cx, cy, cw, ch, border, color, false, under, qx, qy),
        BorderStyle::Inset => bevel_pixel(cx, cy, cw, ch, border, color, true, under, qx, qy),
        BorderStyle::Outset => bevel_pixel(cx, cy, cw, ch, border, color, false, under, qx, qy),
    }
}

impl BordersPlugin {
    /// The light and the dark shade of `base`, in that order.
    pub fn calculate_3d_colors(&self, base: Rgba8) -> (pair: (Rgba8, Rgba8))
        ensures
            pair.0 == light_shade(base),
            pair.1 == dark_shade(base),
    {
        shades(base)
    }

    /// Draws a solid border `border` pixels thick around the content
    /// rectangle.
    pub fn draw_solid_border(
        &self,
        image: &mut PixelBuffer,
        cx: u32,
        cy: u32,
        cw: u32,
        ch: u32,
        border: u32,
        color: Rgba8,
    )
        ensures
            final(image).same_size(*old(image)),
            forall|qx: int, qy: int|
                final(image).contains(qx, qy) ==> #[trigger] final(image).at(qx, qy)
                    == solid_pixel(
                    cx as int,
                    cy as int,
                    cw as int,
                    ch as int,
                    border as nat,
                    color,
                    old(image).at(qx, qy),
                    qx,
                    qy,
                ),
    {
        draw_rings(image, cx as i64, cy as i64, cw as i64, ch as i64, 0, border, color, color, 1, 0);
    }

    /// Draws a double border: two solid bands of a third of the thickness
    /// each, with what is left of the thickness empty between them.
    pub fn draw_double_border(
        &self,
        image: &mut PixelBuffer,
        cx: u32,
        cy: u32,
        cw: u32,
        ch: u32,
        border: u32,
        color: Rgba8,
    )
        ensures
            final(image).same_size(*old(image)),
            forall|qx: int, qy: int|
                final(image).contains(qx, qy) ==> #[trigger] final(image).at(qx, qy)
                    == double_pixel(
                    cx as int,
                    cy as int,
                    cw as int,
                    ch as int,
                    border as nat,
                    color,
                    old(image).at(qx, qy),
                    qx,
                    qy,
                ),
    {
        let band: u32 = border / 3;
        let gap: u32 = border - band - band;
        let shift: i64 = band as i64 + gap as i64;
        draw_rings(image, cx as i64, cy as i64, cw as i64, ch as i64, 0, band, color, color, 1, 0);
        draw_rings(
            image,
            cx as i64 - shift,
            cy as i64 - shift,
            cw as i64 + 2 * shift,
            ch as i64 + 2 * shift,
            0,
            band,
            color,
            color,
            1,
            0,
        );
    }

    /// Draws a border whose edges are broken into runs of `dash_len` painted
    /// and `gap_len` skipped pixels.
    pub fn draw_dashed_border(
        &self,
        image: &mut PixelBuffer,
        cx: u32,
        cy: u32,
        cw: u32,
        ch: u32,
        border: u32,
        color: Rgba8,
        dash_len: u32,
        gap_len: u32,
    )
        requires
            dash_len + gap_len > 0,
        ensures
            final(image).same_size(*old(image)),
            forall|qx: int, qy: int|
                final(image).contains(qx, qy) ==> #[trigger] final(image).at(qx, qy)
                    == dashed_pixel(
                    cx as int,
                    cy as int,
                    cw as int,
                    ch as int,
                    border as nat,
                    color,
                    dash_len as int,
                    gap_len as int,
                    old(image).at(qx, qy),
                    qx,
                    qy,
                ),
    {
        draw_rings(
            image,
            cx as i64,
            cy as i64,
            cw as i64,
            ch as i64,
            0,
            border,
            color,
            color,
            dash_len,
            gap_len,
        );
    }

    /// Draws a grooved (`groove`) or ridged border from the two shades of
    /// `color`.
    pub fn draw_3d_border(
        &self,
        image: &mut PixelBuffer,
        cx: u32,
        cy: u32,
        cw: u32,
        ch: u32,
        border: u32,
        color: Rgba8,
        groove: bool,
    )
        ensures
            final(image).same_size(*old(image)),
            forall|qx: int, qy: int|
                final(image).contains(qx, qy) ==> #[trigger] final(image).at(qx, qy)
                    == relief_pixel(
                    cx as int,
                    cy as int,
                    cw as int,
                    ch as int,
                    border as nat,
                    color,
                    groove,
                    old(image).at(qx, qy),
                    qx,
                    qy,
                ),
    {
        let half: u32 = border / 2;
        let (light, dark) = self.calculate_3d_colors(color);
        let (outer_top, outer_bottom, inner_top, inner_bottom) = if groove {
            (dark, light, light, dark)
        } else {
            (light, dark, dark, light)
        };
        draw_rings(
            image,
            cx as i64,
            cy as i64,
            cw as i64,
            ch as i64,
            half,
            half,
            outer_top,
            outer_bottom,
            1,
            0,
        );
        draw_rings(
            image,
            cx as i64,
            cy as i64,
            cw as i64,
            ch as i64,
            0,
            half,
            inner_top,
            inner_bottom,
            1,
            0,
        );
    }

    /// Draws an inset (`inset`) or outset border from the two shades of
    /// `color`.
    pub fn draw_inset_border(
        &self,
        image: &mut PixelBuffer,
        cx: u32,
        cy: u32,
        cw: u32,
        ch: u32,
        border: u32,
        color: Rgba8,
        inset: bool,
    )
        ensures
            final(image).same_size(*old(image)),
            forall|qx: int, qy: int|
                final(image).contains(qx, qy) ==> #[trigger] final(image).at(qx, qy)
                    == bevel_pixel(
                    cx as int,
                    cy as int,
                    cw as int,
                    ch as int,
                    border as nat,
                    color,
                    inset,
                    old(image).at(qx, qy),
                    qx,
                    qy,
                ),
    {
        let (light, dark) = self.calculate_3d_colors(color);
        let (top_color, bottom_color) = if inset {
            (dark, light)
        } else {
            (light, dark)
        };
        draw_rings(
            image,
            cx as i64,
            cy as i64,
            cw as i64,
            ch as i64,
            0,
            border,
            top_color,
            bottom_color,
            1,
            0,
        );
    }

    /// Draws the configured border around the content rectangle: the
    /// configured style, thickness and colour.  A thickness of 0 draws
    /// nothing.
    pub fn draw_border(
        &self,
        image: &mut PixelBuffer,
        content_x: u32,
        content_y: u32,
        content_w: u32,
        content_h: u32,
    )
        ensures
            final(image).same_size(*old(image)),
            forall|qx: int, qy: int|
                final(image).contains(qx, qy) ==> #[trigger] final(image).at(qx, qy)
                    == border_pixel(
                    self.settings().style,
                    content_x as int,
                    content_y as int,
                    content_w as int,
                    content_h as int,
                    self.settings().size as nat,
                    self.settings().color,
                    old(image).at(qx, qy),
                    qx,
                    qy,
                ),
    {
        let border = self.config().size;
        let color = self.config().color;
        if border == 0 {
            proof {
                assert forall|qx: int, qy: int| image.contains(qx, qy) implies image.at(qx, qy)
                    == border_pixel(
                    self.settings().style,
                    content_x as int,
                    content_y as int,
                    content_w as int,
                    content_h as int,
                    0,
                    color,
                    #[trigger] image.at(qx, qy),
                    qx,
                    qy,
                ) by {
                    lemma_no_border(
                        self.settings().style,
                        content_x as int,
                        content_y as int,
                        content_w as int,
                        content_h as int,
                        color,
                        image.at(qx, qy),
                        qx,
                        qy,
                    );
                }
            }
            return ;
        }
        match self.config().style {
            BorderStyle::Solid => {
                self.draw_solid_border(image, content_x, content_y, content_w, content_h, border, color);
            },
            BorderStyle::Double => {
                self.draw_double_border(
                    image,
                    content_x,
                    content_y,
                    content_w,
                    content_h,
                    border,
                    color,
                );
            },
            BorderStyle::Dashed => {
                self.draw_dashed_border(
                    image,
                    content_x,
                    content_y,
                    content_w,
                    content_h,
                    border,
                    color,
                    DASH_LEN,
                    DASH_GAP,
                );
            },
            BorderStyle::Dotted => {
                self.draw_dashed_border(
                    image,
                    content_x,
                    content_y,
                    content_w,
                    content_h,
                    border,
                    color,
                    DOT_LEN,
                    DOT_GAP,
                );
            },
            BorderStyle::Groove => {
                self.draw_3d_border(
                    image,
                    content_x,
                    content_y,
                    content_w,
                    content_h,
                    border,
                    color,
                    true,
                );
            },
            BorderStyle::Ridge => {
                self.draw_3d_border(
                    image,
                    content_x,
                    content_y,
                    content_w,
                    content_h,
                    border,
                    color,
                    false,
                );
            },
            BorderStyle::Inset => {
                self.draw_inset_border(
                    image,
                    content_x,
                    content_y,
                    content_w,
                    content_h,
                    border,
                    color,
                    true,
                );
            },
            BorderStyle::Outset => {
                self.draw_inset_border(
                    image,
                    content_x,
                    content_y,
                    content_w,
                    content_h,
                    border,
                    color,
                    false,
                );
            },
        }
    }
}

/// A border of thickness 0 changes nothing, whatever its style.
pub proof fn lemma_no_border(
    style: BorderStyle,
    cx: int,
    cy: int,
    cw: int,
    ch: int,
    color: Rgba8,
    under: Rgba8,
    qx: int,
    qy: int,
)
    ensures
        border_pixel(style, cx, cy, cw, ch, 0, color, under, qx, qy) == under,
{
}

/// A stack of solid rings in one colour is a band: it paints the pixels
/// whose distance from the content rectangle lies between `first + 1` and
/// `first + count`, and no others.
pub proof fn lemma_solid_band(
    cx: int,
    cy: int,
    cw: int,
    ch: int,
    first: int,
    count: nat,
    color: Rgba8,
    under: Rgba8,
    qx: int,
    qy: int,
)
    requires
        0 <= first,
        0 <= cw,
        0 <= ch,
    ensures
        ring_stack(cx, cy, cw, ch, first, count, color, color, 1, 0, under, qx, qy) == if first
            < frame_distance(cx, cy, cw, ch, qx, qy) <= first + count {
            color
        } else {
            under
        },
    decreases count,
{
    if count > 0 {
        lemma_solid_band(cx, cy, cw, ch, first, (count - 1) as nat, color, under, qx, qy);
        let k = first + count;
        assert(dash_on(qx - ring_low(cx, k), 1, 0));
        assert(dash_on(qy - ring_low(cy, k), 1, 0));
    }
}

/// The two bands and the empty band of a double border add up to its
/// thickness.
pub proof fn lemma_double_split(border: int)
    requires
        0 <= border,
    ensures
        0 <= double_band(border),
        double_band(border) <= double_gap(border),
        double_band(border) + double_gap(border) + double_band(border) == border,
{
}

/// A double border paints the pixels within `double_band` of the content
/// rectangle and those further than `border - double_band` but no further
/// than `border` from it: its outermost ring lies exactly `border` pixels
/// from the content.
pub proof fn lemma_double_bands(
    cx: int,
    cy: int,
    cw: int,
    ch: int,
    border: nat,
    color: Rgba8,
    under: Rgba8,
    qx: int,
    qy: int,
)
    requires
        0 <= cw,
        0 <= ch,
    ensures
        double_pixel(cx, cy, cw, ch, border, color, under, qx, qy) == if 0 < frame_distance(
            cx,
            cy,
            cw,
            ch,
            qx,
            qy,
        ) <= double_band(border as int) || border - double_band(border as int) < frame_distance(
            cx,
            cy,
            cw,
            ch,
            qx,
            qy,
        ) <= border {
            color
        } else {
            under
        },
{
    let band = double_band(border as int);
    let shift = band + double_gap(border as int);
    let inner = solid_pixel(cx, cy, cw, ch, band as nat, color, under, qx, qy);
    lemma_solid_band(cx, cy, cw, ch, 0, band as nat, color, under, qx, qy);
    lemma_solid_band(
        cx - shift,
        cy - shift,
        cw + 2 * shift,
        ch + 2 * shift,
        0,
        band as nat,
        color,
        inner,
        qx,
        qy,
    );
}

} // verus!
