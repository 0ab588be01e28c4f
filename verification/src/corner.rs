//! Rounded corners: a mask that makes the pixels outside a quarter circle
//! fully transparent in each corner of the bordered rectangle.
//!
//! The bordered rectangle is the content rectangle grown by the border.  In
//! each of its corners lies a square of `radius` by `radius` pixels.  The
//! rounding origin of a corner is the pixel of that square that lies
//! furthest inside; a pixel of the square is cleared when its distance from
//! that origin exceeds the radius.  Seen from its own outer corner every
//! square is treated alike, which makes the four corners mirror images.

use vstd::prelude::*;
use crate::border::ring_low;
use crate::plugin::BordersPlugin;
use crate::raster::{PixelBuffer, Rgba8};

verus! {

/// The radius the mask works with.  A radius beyond the border plus half of
/// the content's smaller side would make the corner squares overlap; it is
/// cut down to that limit.
pub open spec fn effective_radius(radius: int, border: int, cw: int, ch: int) -> int {
    let smaller = if cw <= ch {
        cw
    } else {
        ch
    };
    let limit = border + smaller / 2;
    if radius > limit {
        limit
    } else {
        radius
    }
}

/// Whether the mask clears the pixel that lies `i` columns and `j` rows
/// inside the outer corner of a corner square: it belongs to the square, and
/// its distance from the rounding origin exceeds the radius.
pub open spec fn corner_hit(radius: int, i: int, j: int) -> bool {
    &&& 0 <= i < radius
    &&& 0 <= j < radius
    &&& (radius - 1 - i) * (radius - 1 - i) + (radius - 1 - j) * (radius - 1 - j) > radius
        * radius
}

/// First column, or row, of the bordered rectangle.  It may lie before the
/// canvas; what does is not there to be cleared.
pub open spec fn outer_low(c: int, border: int) -> int {
    ring_low(c, border)
}

/// Last column, or row, of the bordered rectangle.
pub open spec fn outer_high(c: int, len: int, border: int) -> int {
    c + len + border - 1
}

/// Whether a mask of the given radius clears `(qx, qy)`: whether one of the
/// four corner squares of the bordered rectangle clears it.
pub open spec fn corner_cleared(
    cx: int,
    cy: int,
    cw: int,
    ch: int,
    border: int,
    radius: int,
    qx: int,
    qy: int,
) -> bool {
    let from_left = qx - outer_low(cx, border);
    let from_right = outer_high(cx, cw, border) - qx;
    let from_top = qy - outer_low(cy, border);
    let from_bottom = outer_high(cy, ch, border) - qy;
    ||| corner_hit(radius, from_left, from_top)
    ||| corner_hit(radius, from_right, from_top)
    ||| corner_hit(radius, from_left, from_bottom)
    ||| corner_hit(radius, from_right, from_bottom)
}

/// A fully transparent pixel.
pub open spec fn clear_pixel() -> Rgba8 {
    [0u8, 0u8, 0u8, 0u8]
}

/// What the corner mask leaves at `(qx, qy)` of the pixel `under`.
pub open spec fn masked_pixel(
    cx: int,
    cy: int,
    cw: int,
    ch: int,
    border: int,
    radius: int,
    under: Rgba8,
    qx: int,
    qy: int,
) -> Rgba8 {
    if corner_cleared(cx, cy, cw, ch, border, effective_radius(radius, border, cw, ch), qx, qy) {
        clear_pixel()
    } else {
        under
    }
}

/// How many pixels `q` lies inside an edge at `edge`: counted towards higher
/// coordinates from a low edge, towards lower ones from a high edge.
pub open spec fn inward(edge: int, high: bool, q: int) -> int {
    if high {
        edge - q
    } else {
        q - edge
    }
}

/// Decides `corner_hit` for a pixel of the corner square.
fn hits(radius: u64, i: u64, j: u64) -> (yes: bool)
    requires
        i < radius,
        j < radius,
        radius <= 0x2_0000_0000,
    ensures
        yes == corner_hit(radius as int, i as int, j as int),
{
    let a: u128 = (radius - 1 - i) as u128;
    let b: u128 = (radius - 1 - j) as u128;
    let r: u128 = radius as u128;
    assert(a * a <= 0x4_0000_0000_0000_0000 && b * b <= 0x4_0000_0000_0000_0000 && r * r
        <= 0x4_0000_0000_0000_0000) by (nonlinear_arith)
        requires
            0 <= a <= 0x2_0000_0000,
            0 <= b <= 0x2_0000_0000,
            0 <= r <= 0x2_0000_0000,
    ;
    a * a + b * b > r * r
}

/// The coordinate that lies `i` pixels inside an edge, where there is one.
fn inside(edge: i64, high: bool, i: u64) -> (q: Option<u64>)
    requires
        -0x4_0000_0000 <= edge <= 0x4_0000_0000,
        i <= 0x2_0000_0000,
    ensures
        match q {
            Some(v) => inward(edge as int, high, v as int) == i,
            None => forall|v: int| 0 <= v ==> inward(edge as int, high, v) != i,
        },
{
    let at: i64 = if high {
        edge - i as i64
    } else {
        edge + i as i64
    };
    if at >= 0 {
        Some(at as u64)
    } else {
        None
    }
}

/// Clears, in the column that lies `i` pixels inside the vertical edge, the
/// pixels that one corner square clears.
fn clear_corner_column(
    image: &mut PixelBuffer,
    radius: u64,
    edge_x: i64,
    high_x: bool,
    edge_y: i64,
    high_y: bool,
    i: u64,
)
    requires
        i < radius,
        radius <= 0x2_0000_0000,
        -0x4_0000_0000 <= edge_x <= 0x4_0000_0000,
        -0x4_0000_0000 <= edge_y <= 0x4_0000_0000,
    ensures
        final(image).same_size(*old(image)),
        forall|qx: int, qy: int|
            final(image).contains(qx, qy) ==> #[trigger] final(image).at(qx, qy) == if inward(
                edge_x as int,
                high_x,
                qx,
            ) == i && corner_hit(
                radius as int,
                inward(edge_x as int, high_x, qx),
                inward(edge_y as int, high_y, qy),
            ) {
                clear_pixel()
            } else {
                old(image).at(qx, qy)
            },
{
    let ghost before = *image;
    let column = inside(edge_x, high_x, i);
    let mut j: u64 = 0;
    while j < radius
        invariant
            j <= radius,
            i < radius,
            radius <= 0x2_0000_0000,
            -0x4_0000_0000 <= edge_y <= 0x4_0000_0000,
            match column {
                Some(v) => inward(edge_x as int, high_x, v as int) == i,
                None => forall|v: int| 0 <= v ==> inward(edge_x as int, high_x, v) != i,
            },
            image.same_size(before),
            forall|qx: int, qy: int|
                image.contains(qx, qy) ==> #[trigger] image.at(qx, qy) == if inward(
                    edge_x as int,
                    high_x,
                    qx,
                ) == i && inward(edge_y as int, high_y, qy) < j && corner_hit(
                    radius as int,
                    inward(edge_x as int, high_x, qx),
                    inward(edge_y as int, high_y, qy),
                ) {
                    clear_pixel()
                } else {
                    before.at(qx, qy)
                },
        decreases radius - j,
    {
        if hits(radius, i, j) {
            let row = inside(edge_y, high_y, j);
            match (column, row) {
                (Some(x), Some(y)) => {
                    image.put_pixel_clipped(x, y, [0, 0, 0, 0]);
                },
                _ => {},
            }
        }
        j = j + 1;
    }
}

/// Clears the pixels that one corner square clears.  The square lies in the
/// corner that the edges at `edge_x` and `edge_y` make.
fn clear_corner(
    image: &mut PixelBuffer,
    radius: u64,
    edge_x: i64,
    high_x: bool,
    edge_y: i64,
    high_y: bool,
)
    requires
        radius <= 0x2_0000_0000,
        -0x4_0000_0000 <= edge_x <= 0x4_0000_0000,
        -0x4_0000_0000 <= edge_y <= 0x4_0000_0000,
    ensures
        final(image).same_size(*old(image)),
        forall|qx: int, qy: int|
            final(image).contains(qx, qy) ==> #[trigger] final(image).at(qx, qy) == if corner_hit(
                radius as int,
                inward(edge_x as int, high_x, qx),
                inward(edge_y as int, high_y, qy),
            ) {
                clear_pixel()
            } else {
                old(image).at(qx, qy)
            },
{
    let ghost before = *image;
    let mut i: u64 = 0;
    while i < radius
        invariant
            i <= radius,
            radius <= 0x2_0000_0000,
            -0x4_0000_0000 <= edge_x <= 0x4_0000_0000,
            -0x4_0000_0000 <= edge_y <= 0x4_0000_0000,
            image.same_size(before),
            forall|qx: int, qy: int|
                image.contains(qx, qy) ==> #[trigger] image.at(qx, qy) == if inward(
                    edge_x as int,
                    high_x,
                    qx,
                ) < i && corner_hit(
                    radius as int,
                    inward(edge_x as int, high_x, qx),
                    inward(edge_y as int, high_y, qy),
                ) {
                    clear_pixel()
                } else {
                    before.at(qx, qy)
                },
        decreases radius - i,
    {
        clear_corner_column(image, radius, edge_x, high_x, edge_y, high_y, i);
        i = i + 1;
    }
}

impl BordersPlugin {
    /// Rounds the corners of the bordered rectangle with the configured
    /// radius, cut down where it is too large for the rectangle.
    pub fn apply_corner_mask(&self, image: &mut PixelBuffer, cx: u32, cy: u32, cw: u32, ch: u32)
        ensures
            final(image).same_size(*old(image)),
            forall|qx: int, qy: int|
                final(image).contains(qx, qy) ==> #[trigger] final(image).at(qx, qy)
                    == masked_pixel(
                    cx as int,
                    cy as int,
                    cw as int,
                    ch as int,
                    self.settings().size as int,
                    self.settings().corner_radius as int,
                    old(image).at(qx, qy),
                    qx,
                    qy,
                ),
    {
        let border: u64 = self.config().size as u64;
        let smaller: u64 = if cw <= ch {
            cw as u64
        } else {
            ch as u64
        };
        let limit: u64 = border + smaller / 2;
        let radius: u64 = if self.config().corner_radius as u64 > limit {
            limit
        } else {
            self.config().corner_radius as u64
        };
        if radius == 0 {
            return ;
        }
        let left: i64 = cx as i64 - border as i64;
        let top: i64 = cy as i64 - border as i64;
        let right: i64 = cx as i64 + cw as i64 + border as i64 - 1;
        let bottom: i64 = cy as i64 + ch as i64 + border as i64 - 1;
        clear_corner(image, radius, left, false, top, false);
        clear_corner(image, radius, right, true, top, false);
        clear_corner(image, radius, left, false, bottom, true);
        clear_corner(image, radius, right, true, bottom, true);
    }
}

/// A radius of 0 masks nothing.
pub proof fn lemma_no_radius(
    cx: int,
    cy: int,
    cw: int,
    ch: int,
    border: int,
    under: Rgba8,
    qx: int,
    qy: int,
)
    ensures
        masked_pixel(cx, cy, cw, ch, border, 0, under, qx, qy) == under,
{
}

/// The mask is symmetric: it clears a pixel exactly when it clears the
/// pixel's mirror image in the vertical axis of the bordered rectangle, and
/// exactly when it clears its mirror image in the horizontal axis.
pub proof fn lemma_corner_mask_mirror(
    cx: int,
    cy: int,
    cw: int,
    ch: int,
    border: int,
    radius: int,
    qx: int,
    qy: int,
)
    ensures
        corner_cleared(cx, cy, cw, ch, border, radius, qx, qy) == corner_cleared(
            cx,
            cy,
            cw,
            ch,
            border,
            radius,
            outer_low(cx, border) + outer_high(cx, cw, border) - qx,
            qy,
        ),
        corner_cleared(cx, cy, cw, ch, border, radius, qx, qy) == corner_cleared(
            cx,
            cy,
            cw,
            ch,
            border,
            radius,
            qx,
            outer_low(cy, border) + outer_high(cy, ch, border) - qy,
        ),
{
}

/// Around square content the mask is also symmetric in the diagonal of the
/// bordered rectangle: it clears the pixel `dx` columns and `dy` rows from
/// the rectangle's first pixel exactly when it clears the one `dy` columns
/// and `dx` rows from it.
pub proof fn lemma_corner_mask_transpose(
    cx: int,
    cy: int,
    side: int,
    border: int,
    radius: int,
    dx: int,
    dy: int,
)
    ensures
        corner_cleared(
            cx,
            cy,
            side,
            side,
            border,
            radius,
            outer_low(cx, border) + dx,
            outer_low(cy, border) + dy,
        ) == corner_cleared(
            cx,
            cy,
            side,
            side,
            border,
            radius,
            outer_low(cx, border) + dy,
            outer_low(cy, border) + dx,
        ),
{
    let a = side + 2 * border - 1 - dx;
    let b = side + 2 * border - 1 - dy;
    assert(corner_hit(radius, dx, dy) == corner_hit(radius, dy, dx));
    assert(corner_hit(radius, a, dy) == corner_hit(radius, dy, a));
    assert(corner_hit(radius, dx, b) == corner_hit(radius, b, dx));
    assert(corner_hit(radius, a, b) == corner_hit(radius, b, a));
}

} // verus!
