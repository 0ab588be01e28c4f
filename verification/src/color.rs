//! Colour arithmetic on RGBA8 pixels: the two shades that the relief styles
//! derive from a border colour, and source-over compositing.

use vstd::prelude::*;
use crate::raster::Rgba8;

verus! {

/// How far a shade moves each colour channel away from the base colour.
pub const SHADE_STEP: u8 = 60;

/// A channel brightened by `SHADE_STEP`, stopping at 255.
pub open spec fn lighten(v: u8) -> u8 {
    if v + SHADE_STEP > 255 {
        255u8
    } else {
        (v + SHADE_STEP) as u8
    }
}

/// A channel darkened by `SHADE_STEP`, stopping at 0.
pub open spec fn darken(v: u8) -> u8 {
    if v < SHADE_STEP {
        0u8
    } else {
        (v - SHADE_STEP) as u8
    }
}

/// The light shade of a colour: every colour channel lightened, alpha kept.
pub open spec fn light_shade(base: Rgba8) -> Rgba8 {
    [lighten(base[0]), lighten(base[1]), lighten(base[2]), base[3]]
}

/// The dark shade of a colour: every colour channel darkened, alpha kept.
pub open spec fn dark_shade(base: Rgba8) -> Rgba8 {
    [darken(base[0]), darken(base[1]), darken(base[2]), base[3]]
}

/// Computes the light and the dark shade of `base`, in that order.
pub fn shades(base: Rgba8) -> (pair: (Rgba8, Rgba8))
    ensures
        pair.0 == light_shade(base),
        pair.1 == dark_shade(base),
{
    let light: Rgba8 = [
        base[0].saturating_add(SHADE_STEP),
        base[1].saturating_add(SHADE_STEP),
        base[2].saturating_add(SHADE_STEP),
        base[3],
    ];
    let dark: Rgba8 = [
        base[0].saturating_sub(SHADE_STEP),
        base[1].saturating_sub(SHADE_STEP),
        base[2].saturating_sub(SHADE_STEP),
        base[3],
    ];
    (light, dark)
}

/// The weight that source-over compositing divides by: the resulting alpha
/// on a scale where opaque is 255 * 255.
pub open spec fn over_weight(dst_a: int, src_a: int) -> int {
    255 * src_a + dst_a * (255 - src_a)
}

/// The alpha of `src` over `dst`: `src_a + dst_a * (1 - src_a)` on the unit
/// scale, brought back to 8 bits by truncation.
pub open spec fn over_alpha(dst_a: int, src_a: int) -> int {
    over_weight(dst_a, src_a) / 255
}

/// One colour channel of `src` over `dst`:
/// `(src_c * src_a + dst_c * dst_a * (1 - src_a)) / out_a` on the unit scale,
/// truncated.  Meaningful where `over_weight(dst_a, src_a) > 0`.
pub open spec fn over_channel(dst_c: int, dst_a: int, src_c: int, src_a: int) -> int {
    (255 * src_c * src_a + dst_c * dst_a * (255 - src_a)) / over_weight(dst_a, src_a)
}

/// The pixel that results from compositing `src` over `dst`.  Where both are
/// fully transparent the destination is kept as it is.
pub open spec fn blend_over(dst: Rgba8, src: Rgba8) -> Rgba8 {
    if over_weight(dst[3] as int, src[3] as int) == 0 {
        dst
    } else {
        [
            over_channel(dst[0] as int, dst[3] as int, src[0] as int, src[3] as int) as u8,
            over_channel(dst[1] as int, dst[3] as int, src[1] as int, src[3] as int) as u8,
            over_channel(dst[2] as int, dst[3] as int, src[2] as int, src[3] as int) as u8,
            over_alpha(dst[3] as int, src[3] as int) as u8,
        ]
    }
}

/// A composited channel is a weighted mean of two bytes, so it is a byte.
pub proof fn lemma_over_channel_is_byte(dst_c: int, dst_a: int, src_c: int, src_a: int)
    requires
        0 <= dst_c <= 255,
        0 <= dst_a <= 255,
        0 <= src_c <= 255,
        0 <= src_a <= 255,
        over_weight(dst_a, src_a) > 0,
    ensures
        0 <= over_channel(dst_c, dst_a, src_c, src_a) <= 255,
        0 <= 255 * src_c * src_a + dst_c * dst_a * (255 - src_a) <= 255 * over_weight(
            dst_a,
            src_a,
        ),
        over_weight(dst_a, src_a) <= 255 * 255,
{
    let w = over_weight(dst_a, src_a);
    let num = 255 * src_c * src_a + dst_c * dst_a * (255 - src_a);
    assert(0 <= 255 * src_c * src_a <= 255 * (255 * src_a)) by (nonlinear_arith)
        requires
            0 <= src_c <= 255,
            0 <= src_a,
    ;
    assert(0 <= dst_c * dst_a * (255 - src_a) <= 255 * (dst_a * (255 - src_a))) by (nonlinear_arith)
        requires
            0 <= dst_c <= 255,
            0 <= dst_a,
            0 <= 255 - src_a,
    ;
    assert(0 <= dst_a * (255 - src_a) <= 255 * (255 - src_a)) by (nonlinear_arith)
        requires
            0 <= dst_a <= 255,
            0 <= 255 - src_a,
    ;
    assert(0 <= num / w <= 255) by (nonlinear_arith)
        requires
            0 <= num <= 255 * w,
            w > 0,
    ;
}

/// Computes one composited colour channel.
fn mix_channel(dst_c: u8, dst_a: u8, src_c: u8, src_a: u8) -> (c: u8)
    requires
        over_weight(dst_a as int, src_a as int) > 0,
    ensures
        c == over_channel(dst_c as int, dst_a as int, src_c as int, src_a as int),
{
    proof {
        lemma_over_channel_is_byte(dst_c as int, dst_a as int, src_c as int, src_a as int);
    }
    let rest: u32 = 255 - src_a as u32;
    assert(0 <= (255 * src_c) * src_a <= 255 * 255 * 255 && 0 <= dst_c * dst_a <= 255 * 255 && 0
        <= (dst_c * dst_a) * rest <= 255 * 255 * 255 && 0 <= dst_a * rest <= 255 * 255)
        by (nonlinear_arith)
        requires
            0 <= src_c <= 255,
            0 <= src_a <= 255,
            0 <= dst_c <= 255,
            0 <= dst_a <= 255,
            0 <= rest <= 255,
    ;
    let lead: u32 = 255 * (src_c as u32) * (src_a as u32);
    let keep: u32 = (dst_c as u32) * (dst_a as u32) * rest;
    let weight: u32 = 255 * (src_a as u32) + (dst_a as u32) * rest;
    ((lead + keep) / weight) as u8
}

/// Composites one pixel over another.
pub fn blend(dst: Rgba8, src: Rgba8) -> (out: Rgba8)
    ensures
        out == blend_over(dst, src),
{
    let rest: u32 = 255 - src[3] as u32;
    assert(0 <= dst[3] * rest <= 255 * 255) by (nonlinear_arith)
        requires
            0 <= dst[3] <= 255,
            0 <= rest <= 255,
    ;
    let weight: u32 = 255 * (src[3] as u32) + (dst[3] as u32) * rest;
    if weight == 0 {
        return dst;
    }
    [
        mix_channel(dst[0], dst[3], src[0], src[3]),
        mix_channel(dst[1], dst[3], src[1], src[3]),
        mix_channel(dst[2], dst[3], src[2], src[3]),
        (weight / 255) as u8,
    ]
}

/// With an opaque source a composited channel is the source's.
pub proof fn lemma_over_opaque_source(dst_c: int, dst_a: int, src_c: int)
    ensures
        over_weight(dst_a, 255) == 255 * 255,
        over_alpha(dst_a, 255) == 255,
        over_channel(dst_c, dst_a, src_c, 255) == src_c,
{
    let gone: int = 255 - 255;
    assert(dst_a * gone == 0);
    assert(dst_c * dst_a * gone == 0) by (nonlinear_arith)
        requires
            gone == 0,
    ;
    assert(255 * src_c * 255 == src_c * 65025);
}

/// With a fully transparent source over a visible destination a composited
/// channel is the destination's.
pub proof fn lemma_over_transparent_source(dst_c: int, dst_a: int, src_c: int)
    requires
        dst_a > 0,
    ensures
        over_weight(dst_a, 0) == 255 * dst_a,
        over_alpha(dst_a, 0) == dst_a,
        over_channel(dst_c, dst_a, src_c, 0) == dst_c,
{
    let full: int = 255 - 0;
    let m: int = dst_a * full;
    assert(255 * src_c * 0 == 0);
    assert(dst_c * dst_a * full == dst_c * m) by (nonlinear_arith)
        requires
            m == dst_a * full,
    ;
    assert((dst_c * m) / m == dst_c) by (nonlinear_arith)
        requires
            m > 0,
    ;
}

/// An opaque source replaces the destination.
pub proof fn lemma_blend_opaque_source(dst: Rgba8, src: Rgba8)
    requires
        src[3] == 255,
    ensures
        blend_over(dst, src) == src,
{
    lemma_over_opaque_source(dst[0] as int, dst[3] as int, src[0] as int);
    lemma_over_opaque_source(dst[1] as int, dst[3] as int, src[1] as int);
    lemma_over_opaque_source(dst[2] as int, dst[3] as int, src[2] as int);
    assert(blend_over(dst, src) =~= src);
}

/// A fully transparent source leaves the destination as it is.
pub proof fn lemma_blend_transparent_source(dst: Rgba8, src: Rgba8)
    requires
        src[3] == 0,
    ensures
        blend_over(dst, src) == dst,
{
    if dst[3] > 0 {
        lemma_over_transparent_source(dst[0] as int, dst[3] as int, src[0] as int);
        lemma_over_transparent_source(dst[1] as int, dst[3] as int, src[1] as int);
        lemma_over_transparent_source(dst[2] as int, dst[3] as int, src[2] as int);
        assert(blend_over(dst, src) =~= dst);
    }
}

} // verus!
