//! The drop shadow: a rectangle the size of the content, moved by the
//! configured offset, whose opacity falls off with the distance from that
//! rectangle.
//!
//! Distances are Euclidean, so they are roots of integers.  The engine never
//! computes a root: every comparison that involves one is squared until it
//! is a comparison of integers, which makes the falloff exact.

use vstd::prelude::*;
use vstd::arithmetic::div_mod::{lemma_div_pos_is_pos, lemma_fundamental_div_mod, lemma_mod_pos_bound};
use crate::color::{blend, blend_over};
use crate::config::ShadowConfig;
use crate::plugin::BordersPlugin;
use crate::raster::{PixelBuffer, Rgba8};

verus! {

/// Whether a shadow of opacity `alpha` and blur radius `blur` still has
/// opacity `level` at the distance whose square is `dist_sq`, that is whether
///
/// `level / alpha <= (1 - sqrt(dist_sq) / blur)^2`.
///
/// Multiplied out, this is
/// `2 * alpha * blur * sqrt(dist_sq) <= alpha * (blur^2 + dist_sq) - level * blur^2`,
/// and squaring both sides removes the root.
pub open spec fn falloff_reaches(alpha: int, blur: int, dist_sq: int, level: int) -> bool {
    let rest = alpha * (blur * blur + dist_sq) - level * (blur * blur);
    let pull = 2 * alpha * blur;
    rest >= 0 && pull * pull * dist_sq <= rest * rest
}

/// The greatest opacity not above `level` that the shadow still has at the
/// given distance, or 0.
pub open spec fn falloff_from(alpha: int, blur: int, dist_sq: int, level: nat) -> nat
    decreases level,
{
    if level == 0 || falloff_reaches(alpha, blur, dist_sq, level as int) {
        level
    } else {
        falloff_from(alpha, blur, dist_sq, (level - 1) as nat)
    }
}

/// The opacity of a blurred shadow at the distance whose square is
/// `dist_sq`: `alpha * (1 - sqrt(dist_sq) / blur)^2`, truncated to a whole
/// number.  Meaningful for `blur > 0` and `dist_sq <= blur^2`.
pub open spec fn falloff_alpha(alpha: int, blur: int, dist_sq: int) -> nat {
    falloff_from(alpha, blur, dist_sq, alpha as nat)
}

/// Compares `c * sqrt(n)` with `r` without a root and without the squares of
/// `c * c * n` and `r * r`, which may be too large to compute: with
/// `r = q * c + t`, the comparison is decided by `q * q` alone unless `n`
/// lies strictly between `q * q` and `(q + 1) * (q + 1)`.
pub proof fn lemma_root_compare(c: int, r: int, n: int)
    requires
        c > 0,
        r >= 0,
        n >= 0,
    ensures
        0 <= r % c < c,
        0 <= r / c,
        r == (r / c) * c + r % c,
        n <= (r / c) * (r / c) ==> c * c * n <= r * r,
        n >= (r / c + 1) * (r / c + 1) ==> !(c * c * n <= r * r),
        (c * c * n <= r * r) <==> (n - (r / c) * (r / c)) * (c * c) <= (r % c) * (2 * (r / c) * c + r
            % c),
{
    let q = r / c;
    let t = r % c;
    lemma_fundamental_div_mod(r, c);
    lemma_mod_pos_bound(r, c);
    lemma_div_pos_is_pos(r, c);
    assert(r == q * c + t) by (nonlinear_arith)
        requires
            r == c * q + t,
    ;
    assert(r * r == q * q * (c * c) + t * (2 * q * c + t)) by (nonlinear_arith)
        requires
            r == q * c + t,
    ;
    assert(c * c * n - q * q * (c * c) == (n - q * q) * (c * c)) by (nonlinear_arith);
    if n <= q * q {
        assert((n - q * q) * (c * c) <= 0) by (nonlinear_arith)
            requires
                n - q * q <= 0,
        ;
        assert(t * (2 * q * c + t) >= 0) by (nonlinear_arith)
            requires
                t >= 0,
                q >= 0,
                c > 0,
        ;
    }
    if n >= (q + 1) * (q + 1) {
        assert((n - q * q) * (c * c) >= (2 * q + 1) * (c * c)) by (nonlinear_arith)
            requires
                n >= (q + 1) * (q + 1),
        ;
        assert(t * (2 * q * c + t) < (2 * q + 1) * (c * c)) by (nonlinear_arith)
            requires
                0 <= t < c,
                q >= 0,
        ;
    }
}

/// `falloff_from` finds an opacity the shadow has, or 0, and passes over
/// none that it has.
pub proof fn lemma_falloff_from_greatest(alpha: int, blur: int, dist_sq: int, start: nat)
    ensures
        falloff_from(alpha, blur, dist_sq, start) <= start,
        falloff_from(alpha, blur, dist_sq, start) == 0 || falloff_reaches(
            alpha,
            blur,
            dist_sq,
            falloff_from(alpha, blur, dist_sq, start) as int,
        ),
        forall|level: int|
            falloff_from(alpha, blur, dist_sq, start) < level <= start ==> !#[trigger] falloff_reaches(
                alpha,
                blur,
                dist_sq,
                level,
            ),
    decreases start,
{
    if start > 0 && !falloff_reaches(alpha, blur, dist_sq, start as int) {
        lemma_falloff_from_greatest(alpha, blur, dist_sq, (start - 1) as nat);
    }
}

/// At distance 0 the shadow has its full opacity.
pub proof fn lemma_falloff_at_rectangle(alpha: int, blur: int)
    requires
        alpha >= 0,
    ensures
        falloff_alpha(alpha, blur, 0) == alpha,
{
    let pull = 2 * alpha * blur;
    assert(alpha * (blur * blur + 0) - alpha * (blur * blur) == 0);
    assert(pull * pull * 0 == 0);
}

/// At the blur radius the shadow has faded out.
pub proof fn lemma_falloff_at_radius(alpha: int, blur: int)
    requires
        0 <= alpha,
        blur > 0,
    ensures
        falloff_alpha(alpha, blur, blur * blur) == 0,
{
    let bb = blur * blur;
    let pull = 2 * alpha * blur;
    lemma_falloff_from_greatest(alpha, blur, bb, alpha as nat);
    let found = falloff_from(alpha, blur, bb, alpha as nat) as int;
    if found > 0 {
        let rest = alpha * (bb + bb) - found * bb;
        let full = alpha * (bb + bb);
        assert(bb > 0) by (nonlinear_arith)
            requires
                bb == blur * blur,
                blur > 0,
        ;
        assert(pull * pull * bb == full * full) by (nonlinear_arith)
            requires
                pull == 2 * alpha * blur,
                bb == blur * blur,
                full == alpha * (bb + bb),
        ;
        assert(rest < full) by (nonlinear_arith)
            requires
                rest == full - found * bb,
                found > 0,
                bb > 0,
        ;
        assert(rest * rest < full * full) by (nonlinear_arith)
            requires
                0 <= rest < full,
        ;
    }
}

/// The shadow never grows more opaque with distance: of two distances within
/// the blur radius, the larger has the smaller or the same opacity.
pub proof fn lemma_falloff_monotone(alpha: int, blur: int, near_sq: int, far_sq: int)
    requires
        0 <= alpha,
        blur > 0,
        0 <= near_sq <= far_sq <= blur * blur,
    ensures
        falloff_alpha(alpha, blur, far_sq) <= falloff_alpha(alpha, blur, near_sq),
{
    lemma_falloff_from_greatest(alpha, blur, far_sq, alpha as nat);
    lemma_falloff_from_greatest(alpha, blur, near_sq, alpha as nat);
    let found = falloff_from(alpha, blur, far_sq, alpha as nat) as int;
    if found > 0 {
        lemma_falloff_reaches_nearer(alpha, blur, near_sq, far_sq, found);
    }
}

/// An opacity that the shadow has at some distance within the blur radius
/// it also has at every smaller distance.
pub proof fn lemma_falloff_reaches_nearer(
    alpha: int,
    blur: int,
    near_sq: int,
    far_sq: int,
    level: int,
)
    requires
        0 <= alpha,
        0 <= level,
        blur > 0,
        0 <= near_sq <= far_sq <= blur * blur,
        falloff_reaches(alpha, blur, far_sq, level),
    ensures
        falloff_reaches(alpha, blur, near_sq, level),
{
    let bb = blur * blur;
    let pull = 2 * alpha * blur;
    let far = alpha * (bb + far_sq) - level * bb;
    let near = alpha * (bb + near_sq) - level * bb;
    let step = far_sq - near_sq;
    assert(bb > 0) by (nonlinear_arith)
        requires
            bb == blur * blur,
            blur > 0,
    ;
    assert(near == far - alpha * step) by (nonlinear_arith)
        requires
            far == alpha * (bb + far_sq) - level * bb,
            near == alpha * (bb + near_sq) - level * bb,
            step == far_sq - near_sq,
    ;
    let twice = 2 * alpha * far_sq;
    // far >= 2 * alpha * far_sq, since far^2 >= (2 * alpha * blur)^2 * far_sq
    // and blur^2 >= far_sq
    assert(pull * pull * far_sq >= twice * twice) by (nonlinear_arith)
        requires
            pull == 2 * alpha * blur,
            twice == 2 * alpha * far_sq,
            bb == blur * blur,
            0 <= far_sq <= bb,
            alpha >= 0,
    ;
    assert(twice >= 0) by (nonlinear_arith)
        requires
            twice == 2 * alpha * far_sq,
            alpha >= 0,
            far_sq >= 0,
    ;
    assert(far >= twice) by (nonlinear_arith)
        requires
            far >= 0,
            twice >= 0,
            far * far >= twice * twice,
    ;
    assert(alpha * step >= 0 && alpha * step <= twice) by (nonlinear_arith)
        requires
            twice == 2 * alpha * far_sq,
            0 <= step <= far_sq,
            alpha >= 0,
    ;
    assert(near >= 0);
    // far <= 2 * alpha * blur^2
    assert(far <= 2 * alpha * bb) by (nonlinear_arith)
        requires
            far == alpha * (bb + far_sq) - level * bb,
            far_sq <= bb,
            level >= 0,
            bb > 0,
            alpha >= 0,
    ;
    let drop = alpha * step;
    assert(near * near == far * far - 2 * drop * far + drop * drop) by (nonlinear_arith)
        requires
            near == far - drop,
    ;
    assert(pull * pull * near_sq == pull * pull * far_sq - 4 * alpha * bb * drop)
        by (nonlinear_arith)
        requires
            pull == 2 * alpha * blur,
            bb == blur * blur,
            drop == alpha * step,
            step == far_sq - near_sq,
    ;
    assert(2 * drop * far <= 4 * alpha * bb * drop) by (nonlinear_arith)
        requires
            drop >= 0,
            far <= 2 * alpha * bb,
    ;
    assert(drop * drop >= 0) by (nonlinear_arith);
}

/// Decides `falloff_reaches` in 128-bit arithmetic.
fn reaches(alpha: u8, blur: u32, dist_sq: u128, level: u8) -> (yes: bool)
    requires
        alpha > 0,
        blur > 0,
        dist_sq <= blur * blur,
    ensures
        yes == falloff_reaches(alpha as int, blur as int, dist_sq as int, level as int),
{
    let a: u128 = alpha as u128;
    let b: u128 = blur as u128;
    assert(0 < b * b <= 0x1_0000_0000_0000_0000) by (nonlinear_arith)
        requires
            0 < b <= 0xFFFF_FFFF,
    ;
    let bb: u128 = b * b;
    assert(0 <= a * (bb + dist_sq) <= 0x200_0000_0000_0000_0000 && a * (bb + dist_sq) <= (2 * a
        * b) * b) by (nonlinear_arith)
        requires
            0 < a <= 255,
            0 <= dist_sq <= bb,
            bb <= 0x1_0000_0000_0000_0000,
            bb == b * b,
    ;
    let have: u128 = a * (bb + dist_sq);
    assert(0 <= level * bb <= 0x100_0000_0000_0000_0000) by (nonlinear_arith)
        requires
            0 <= level <= 255,
            0 <= bb <= 0x1_0000_0000_0000_0000,
    ;
    let need: u128 = (level as u128) * bb;
    if need > have {
        return false;
    }
    let rest: u128 = have - need;
    assert(0 < 2 * a * b <= 0x200_0000_0000) by (nonlinear_arith)
        requires
            0 < a <= 255,
            0 < b <= 0xFFFF_FFFF,
    ;
    let pull: u128 = 2 * a * b;
    let q: u128 = rest / pull;
    let t: u128 = rest % pull;
    proof {
        lemma_root_compare(pull as int, rest as int, dist_sq as int);
        assert(q <= b) by (nonlinear_arith)
            requires
                rest == q * pull + t,
                t >= 0,
                pull > 0,
                rest <= pull * b,
        ;
    }
    assert(q * q <= 0x1_0000_0000_0000_0000 && (q + 1) * (q + 1) <= 0x4_0000_0000_0000_0000)
        by (nonlinear_arith)
        requires
            0 <= q <= 0xFFFF_FFFF,
    ;
    let low: u128 = q * q;
    if dist_sq <= low {
        return true;
    }
    let high: u128 = (q + 1) * (q + 1);
    if dist_sq >= high {
        return false;
    }
    assert(dist_sq - low <= 0x2_0000_0000) by (nonlinear_arith)
        requires
            dist_sq < (q + 1) * (q + 1),
            low == q * q,
            q <= 0xFFFF_FFFF,
    ;
    assert(pull * pull <= 0x4_0000_0000_0000_0000_0000) by (nonlinear_arith)
        requires
            0 < pull <= 0x200_0000_0000,
    ;
    let square: u128 = pull * pull;
    assert((dist_sq - low) * square <= 0x8_0000_0000_0000_0000_0000_0000_0000) by (nonlinear_arith)
        requires
            0 <= dist_sq - low <= 0x2_0000_0000,
            0 <= square <= 0x4_0000_0000_0000_0000_0000,
    ;
    assert(2 * q * pull <= 0x400_0000_0000_0000_0000) by (nonlinear_arith)
        requires
            0 <= q <= 0xFFFF_FFFF,
            0 < pull <= 0x200_0000_0000,
    ;
    let span: u128 = 2 * q * pull + t;
    assert(t * span <= 0x10_0000_0000_0000_0000_0000_0000_0000) by (nonlinear_arith)
        requires
            0 <= t <= 0x200_0000_0000,
            0 <= span <= 0x800_0000_0000_0000_0000,
    ;
    (dist_sq - low) * square <= t * span
}

/// Computes the opacity of a blurred shadow at the distance whose square is
/// `dist_sq`.
pub fn falloff(alpha: u8, blur: u32, dist_sq: u128) -> (level: u8)
    requires
        blur > 0,
        dist_sq <= blur * blur,
    ensures
        level == falloff_alpha(alpha as int, blur as int, dist_sq as int),
{
    let mut level: u8 = alpha;
    while level > 0 && !reaches(alpha, blur, dist_sq, level)
        invariant
            level <= alpha,
            blur > 0,
            dist_sq <= blur * blur,
            falloff_alpha(alpha as int, blur as int, dist_sq as int) == falloff_from(
                alpha as int,
                blur as int,
                dist_sq as int,
                level as nat,
            ),
        decreases level,
    {
        level = level - 1;
    }
    level
}

/// How far position `v` lies outside the span of `len` pixels that starts
/// at 0: 0 inside, 1 for the pixels next to it, and so on.
pub open spec fn outside_by(v: int, len: int) -> int {
    if v < 0 {
        -v
    } else if v >= len {
        v - len + 1
    } else {
        0
    }
}

/// Square of the distance of `(x, y)` from a rectangle of `cw` by `ch`
/// pixels whose first pixel is `(0, 0)`.
pub open spec fn rect_dist_sq(cw: int, ch: int, x: int, y: int) -> int {
    outside_by(x, cw) * outside_by(x, cw) + outside_by(y, ch) * outside_by(y, ch)
}

/// Whether a shadow with the given blur radius paints the pixel at `(x, y)`,
/// counted from the first pixel of the shadow's rectangle.  A pixel is
/// painted when it lies in the rectangle grown by `blur` pixels on every
/// side and no further than `blur` from the rectangle itself.  Without blur
/// these are the pixels of the rectangle.
pub open spec fn shadow_covers(blur: int, cw: int, ch: int, x: int, y: int) -> bool {
    &&& -blur <= x < cw + blur
    &&& -blur <= y < ch + blur
    &&& rect_dist_sq(cw, ch, x, y) <= blur * blur
}

/// Opacity of a shadow at the distance whose square is `dist_sq`: the
/// configured opacity without blur, the falloff with it.
pub open spec fn shadow_alpha(alpha: int, blur: int, dist_sq: int) -> int {
    if blur > 0 {
        falloff_alpha(alpha, blur, dist_sq) as int
    } else {
        alpha
    }
}

/// What a shadow whose rectangle starts at `(ax, ay)` leaves at `(qx, qy)`
/// over the pixel `under`: where it paints, its colour at the opacity of
/// that distance, composited over `under`.
pub open spec fn shadow_pixel(
    shadow: ShadowConfig,
    ax: int,
    ay: int,
    cw: int,
    ch: int,
    under: Rgba8,
    qx: int,
    qy: int,
) -> Rgba8 {
    let x = qx - ax;
    let y = qy - ay;
    if shadow_covers(shadow.blur_radius as int, cw, ch, x, y) {
        blend_over(
            under,
            [
                shadow.color[0],
                shadow.color[1],
                shadow.color[2],
                shadow_alpha(
                    shadow.color[3] as int,
                    shadow.blur_radius as int,
                    rect_dist_sq(cw, ch, x, y),
                ) as u8,
            ],
        )
    } else {
        under
    }
}

/// Computes `outside_by`.
fn outside(v: i64, len: u32) -> (d: u64)
    requires
        -0x8_0000_0000 <= v <= 0x8_0000_0000,
    ensures
        d == outside_by(v as int, len as int),
{
    if v < 0 {
        (-v) as u64
    } else if v >= len as i64 {
        (v - len as i64 + 1) as u64
    } else {
        0
    }
}

/// Paints what the shadow leaves in row `py` of the canvas.
fn shade_row(
    image: &mut PixelBuffer,
    shadow: &ShadowConfig,
    ax: i64,
    ay: i64,
    cw: u32,
    ch: u32,
    py: u32,
)
    requires
        py < old(image).h(),
        -0x1_0000_0000 <= ax <= 0x6_0000_0000,
        -0x1_0000_0000 <= ay <= 0x6_0000_0000,
    ensures
        final(image).same_size(*old(image)),
        forall|qx: int, qy: int|
            final(image).contains(qx, qy) ==> #[trigger] final(image).at(qx, qy) == if qy == py {
                shadow_pixel(
                    *shadow,
                    ax as int,
                    ay as int,
                    cw as int,
                    ch as int,
                    old(image).at(qx, qy),
                    qx,
                    qy,
                )
            } else {
                old(image).at(qx, qy)
            },
{
    let ghost before = *image;
    let blur: i64 = shadow.blur_radius as i64;
    let y: i64 = py as i64 - ay;
    if y < -blur || y >= ch as i64 + blur {
        return ;
    }
    let dist_y: u128 = outside(y, ch) as u128;
    let width: i64 = image.width() as i64;
    let first: i64 = if ax - blur < 0 {
        0
    } else {
        ax - blur
    };
    let last: i64 = if ax + cw as i64 + blur < width {
        ax + cw as i64 + blur
    } else {
        width
    };
    assert(blur * blur == (blur as u128) * (blur as u128) && 0 <= blur * blur
        <= 0x1_0000_0000_0000_0000 && dist_y * dist_y <= 0x1_0000_0000_0000_0000) by (nonlinear_arith)
        requires
            0 <= blur <= 0xFFFF_FFFF,
            0 <= dist_y <= 0x1_0000_0000,
    ;
    let reach_sq: u128 = (blur as u128) * (blur as u128);
    let dy_sq: u128 = dist_y * dist_y;
    let mut px: i64 = first;
    while px < last
        invariant
            first <= px,
            0 <= first,
            last <= width,
            first == if ax - blur < 0 {
                0
            } else {
                ax - blur
            },
            last == if ax + cw + blur < width {
                ax + cw + blur
            } else {
                width as int
            },
            width == before.w(),
            width <= u32::MAX,
            py < before.h(),
            blur == shadow.blur_radius,
            reach_sq == blur * blur,
            y == py - ay,
            -blur <= y < ch + blur,
            dy_sq == outside_by(y as int, ch as int) * outside_by(y as int, ch as int),
            dy_sq <= 0x1_0000_0000_0000_0000,
            -0x1_0000_0000 <= ax <= 0x6_0000_0000,
            image.same_size(before),
            forall|qx: int, qy: int|
                image.contains(qx, qy) ==> #[trigger] image.at(qx, qy) == if qy == py && qx < px {
                    shadow_pixel(
                        *shadow,
                        ax as int,
                        ay as int,
                        cw as int,
                        ch as int,
                        before.at(qx, qy),
                        qx,
                        qy,
                    )
                } else {
                    before.at(qx, qy)
                },
        decreases last - px,
    {
        let x: i64 = px - ax;
        let dist_x: u128 = outside(x, cw) as u128;
        assert(dist_x * dist_x <= 0x1_0000_0000_0000_0000) by (nonlinear_arith)
            requires
                0 <= dist_x <= 0x1_0000_0000,
        ;
        let dist_sq: u128 = dist_x * dist_x + dy_sq;
        if dist_sq <= reach_sq {
            let alpha: u8 = if blur > 0 {
                falloff(shadow.color[3], shadow.blur_radius, dist_sq)
            } else {
                shadow.color[3]
            };
            let under: Rgba8 = image.get_pixel(px as u32, py);
            let paint: Rgba8 = [shadow.color[0], shadow.color[1], shadow.color[2], alpha];
            image.put_pixel(px as u32, py, blend(under, paint));
        }
        px = px + 1;
    }
}

impl BordersPlugin {
    /// Composites `src` over the pixel at `(x, y)`; does nothing outside the
    /// buffer.
    pub fn blend_pixel(&self, image: &mut PixelBuffer, x: u32, y: u32, src: Rgba8)
        ensures
            final(image).same_size(*old(image)),
            forall|qx: int, qy: int|
                final(image).contains(qx, qy) ==> #[trigger] final(image).at(qx, qy) == if qx == x
                    && qy == y {
                    blend_over(old(image).at(qx, qy), src)
                } else {
                    old(image).at(qx, qy)
                },
    {
        if x >= image.width() || y >= image.height() {
            return ;
        }
        let dst: Rgba8 = image.get_pixel(x, y);
        image.put_pixel(x, y, blend(dst, src));
    }

    /// Paints the shadow of a `content_w` by `content_h` rectangle.  The
    /// shadow's rectangle starts at the content's place on the canvas moved
    /// by the shadow's offset.
    pub fn draw_shadow(
        &self,
        image: &mut PixelBuffer,
        content_w: u32,
        content_h: u32,
        shadow: &ShadowConfig,
    )
        ensures
            final(image).same_size(*old(image)),
            forall|qx: int, qy: int|
                final(image).contains(qx, qy) ==> #[trigger] final(image).at(qx, qy)
                    == shadow_pixel(
                    *shadow,
                    self.settings().content_x() + shadow.offset_x,
                    self.settings().content_y() + shadow.offset_y,
                    content_w as int,
                    content_h as int,
                    old(image).at(qx, qy),
                    qx,
                    qy,
                ),
    {
        let ghost before = *image;
        let origin = self.content_origin();
        let ax: i64 = origin.0 as i64 + shadow.offset_x as i64;
        let ay: i64 = origin.1 as i64 + shadow.offset_y as i64;
        let blur: i64 = shadow.blur_radius as i64;
        let height: i64 = image.height() as i64;
        let first: i64 = if ay - blur < 0 {
            0
        } else {
            ay - blur
        };
        let last: i64 = if ay + content_h as i64 + blur < height {
            ay + content_h as i64 + blur
        } else {
            height
        };
        let mut py: i64 = first;
        while py < last
            invariant
                first <= py,
                0 <= first,
                last <= height,
                first == if ay - blur < 0 {
                    0
                } else {
                    ay - blur
                },
                last == if ay + content_h + blur < height {
                    ay + content_h + blur
                } else {
                    height as int
                },
                height == before.h(),
                height <= u32::MAX,
                blur == shadow.blur_radius,
                -0x1_0000_0000 <= ax <= 0x6_0000_0000,
                -0x1_0000_0000 <= ay <= 0x6_0000_0000,
                image.same_size(before),
                forall|qx: int, qy: int|
                    image.contains(qx, qy) ==> #[trigger] image.at(qx, qy) == if qy < py {
                        shadow_pixel(
                            *shadow,
                            ax as int,
                            ay as int,
                            content_w as int,
                            content_h as int,
                            before.at(qx, qy),
                            qx,
                            qy,
                        )
                    } else {
                        before.at(qx, qy)
                    },
            decreases last - py,
        {
            shade_row(image, shadow, ax, ay, content_w, content_h, py as u32);
            py = py + 1;
        }
    }
}

/// A shadow paints nothing further than its blur radius from its rectangle.
pub proof fn lemma_shadow_bounded(
    shadow: ShadowConfig,
    ax: int,
    ay: int,
    cw: int,
    ch: int,
    under: Rgba8,
    qx: int,
    qy: int,
)
    requires
        rect_dist_sq(cw, ch, qx - ax, qy - ay) > shadow.blur_radius * shadow.blur_radius,
    ensures
        shadow_pixel(shadow, ax, ay, cw, ch, under, qx, qy) == under,
{
}

/// A shadow without blur is its rectangle: it composites its colour over
/// the pixels of the rectangle and leaves every other pixel as it is.
pub proof fn lemma_sharp_shadow(
    shadow: ShadowConfig,
    ax: int,
    ay: int,
    cw: int,
    ch: int,
    under: Rgba8,
    qx: int,
    qy: int,
)
    requires
        shadow.blur_radius == 0,
    ensures
        shadow_pixel(shadow, ax, ay, cw, ch, under, qx, qy) == if ax <= qx < ax + cw && ay <= qy
            < ay + ch {
            blend_over(under, shadow.color)
        } else {
            under
        },
{
    let dx = outside_by(qx - ax, cw);
    let dy = outside_by(qy - ay, ch);
    assert(dx * dx + dy * dy <= 0 <==> dx == 0 && dy == 0) by (nonlinear_arith)
        requires
            dx >= 0,
            dy >= 0,
    ;
    let paint: Rgba8 = [shadow.color[0], shadow.color[1], shadow.color[2], shadow.color[3]];
    assert(paint =~= shadow.color);
}

/// Of two pixels within the blur radius of the shadow's rectangle, the one
/// further from it is painted with the lower or the same opacity.
pub proof fn lemma_shadow_fades(shadow: ShadowConfig, cw: int, ch: int, x1: int, y1: int, x2: int, y2: int)
    requires
        shadow.blur_radius > 0,
        rect_dist_sq(cw, ch, x1, y1) <= rect_dist_sq(cw, ch, x2, y2),
        rect_dist_sq(cw, ch, x2, y2) <= shadow.blur_radius * shadow.blur_radius,
    ensures
        shadow_alpha(
            shadow.color[3] as int,
            shadow.blur_radius as int,
            rect_dist_sq(cw, ch, x2, y2),
        ) <= shadow_alpha(
            shadow.color[3] as int,
            shadow.blur_radius as int,
            rect_dist_sq(cw, ch, x1, y1),
        ),
{
    let near = rect_dist_sq(cw, ch, x1, y1);
    assert(near >= 0) by (nonlinear_arith)
        requires
            near == outside_by(x1, cw) * outside_by(x1, cw) + outside_by(y1, ch) * outside_by(
                y1,
                ch,
            ),
    ;
    lemma_falloff_monotone(
        shadow.color[3] as int,
        shadow.blur_radius as int,
        near,
        rect_dist_sq(cw, ch, x2, y2),
    );
}

} // verus!
