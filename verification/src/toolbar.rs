//! What the capture toolbar computes: how large the bar is, where it sits
//! on the screen, which button a click lands on, and how its colours are
//! packed for the window system.

use vstd::prelude::*;
use crate::hotbar::{HotbarConfig, HotbarPosition, HotbarSize};
use crate::raster::Rgba8;

verus! {

/// Distance the bar keeps from the left, right and top edges of the screen.
pub const EDGE_MARGIN: i64 = 10;

/// Distance the bar keeps from the bottom edge of the screen.
pub const BOTTOM_MARGIN: i64 = 50;

/// A colour as the window system takes it for drawing: red in the lowest
/// byte, then green, then blue; alpha is left out.
pub open spec fn colorref_of(rgba: Rgba8) -> int {
    rgba[0] + 256 * rgba[1] + 65536 * rgba[2]
}

/// A colour as the window system takes it for a tint: red in the lowest
/// byte, then green, blue and alpha.
pub open spec fn gradient_of(rgba: Rgba8) -> int {
    rgba[0] + 256 * rgba[1] + 65536 * rgba[2] + 16777216 * rgba[3]
}

/// Packs a colour for drawing.
pub fn rgb_to_colorref(rgba: Rgba8) -> (packed: u32)
    ensures
        packed == colorref_of(rgba),
{
    rgba[0] as u32 + 256 * (rgba[1] as u32) + 65536 * (rgba[2] as u32)
}

/// Packs a colour for a tint.
pub fn gradient_color(rgba: Rgba8) -> (packed: u32)
    ensures
        packed == gradient_of(rgba),
{
    rgba[0] as u32 + 256 * (rgba[1] as u32) + 65536 * (rgba[2] as u32) + 16777216 * (
    rgba[3] as u32)
}

/// Half of `v`, rounded towards zero.
pub open spec fn half_towards_zero(v: int) -> int {
    if v >= 0 {
        v / 2
    } else {
        -((-v) / 2)
    }
}

/// Width of a bar with `count` buttons: the padding on both sides, the
/// buttons, and the spacing between them.
pub open spec fn bar_width(size: HotbarSize, count: int) -> int {
    2 * size.padding + count * size.button_width + (if count > 0 {
        count - 1
    } else {
        0
    }) * size.spacing
}

/// Height of a bar: the padding above and below, and one button.
pub open spec fn bar_height(size: HotbarSize) -> int {
    2 * size.padding + size.button_height
}

/// Where the top left corner of a `bar_w` by `bar_h` bar goes on a
/// `screen_w` by `screen_h` screen.
pub open spec fn bar_origin(
    position: HotbarPosition,
    screen_w: int,
    screen_h: int,
    bar_w: int,
    bar_h: int,
) -> (int, int) {
    let centre_x = half_towards_zero(screen_w - bar_w);
    let centre_y = half_towards_zero(screen_h - bar_h);
    let right = screen_w - bar_w - EDGE_MARGIN;
    let bottom = screen_h - bar_h - BOTTOM_MARGIN;
    match position {
        HotbarPosition::Top => (centre_x, EDGE_MARGIN as int),
        HotbarPosition::Bottom => (centre_x, bottom),
        HotbarPosition::Left => (EDGE_MARGIN as int, centre_y),
        HotbarPosition::Right => (right, centre_y),
        HotbarPosition::TopLeft => (EDGE_MARGIN as int, EDGE_MARGIN as int),
        HotbarPosition::TopRight => (right, EDGE_MARGIN as int),
        HotbarPosition::BottomLeft => (EDGE_MARGIN as int, bottom),
        HotbarPosition::BottomRight => (right, bottom),
        HotbarPosition::Custom { x, y } => (x as int, y as int),
    }
}

/// Column where button `i` starts, counted from the left edge of the bar.
pub open spec fn button_left(size: HotbarSize, i: int) -> int {
    size.padding + i * (size.button_width + size.spacing)
}

/// Whether the point `(x, y)` of the bar lies on button `i`.
pub open spec fn on_button(size: HotbarSize, i: int, x: int, y: int) -> bool {
    &&& button_left(size, i) <= x < button_left(size, i) + size.button_width
    &&& size.padding <= y < size.padding + size.button_height
}

/// Places a bar on the screen.
pub fn place_bar(position: HotbarPosition, screen_w: i32, screen_h: i32, bar_w: i32, bar_h: i32) -> (origin:
    (i64, i64))
    ensures
        (origin.0 as int, origin.1 as int) == bar_origin(
            position,
            screen_w as int,
            screen_h as int,
            bar_w as int,
            bar_h as int,
        ),
{
    let free_w: i64 = screen_w as i64 - bar_w as i64;
    let free_h: i64 = screen_h as i64 - bar_h as i64;
    let centre_x: i64 = if free_w >= 0 {
        free_w / 2
    } else {
        -((-free_w) / 2)
    };
    let centre_y: i64 = if free_h >= 0 {
        free_h / 2
    } else {
        -((-free_h) / 2)
    };
    let right: i64 = free_w - EDGE_MARGIN;
    let bottom: i64 = free_h - BOTTOM_MARGIN;
    match position {
        HotbarPosition::Top => (centre_x, EDGE_MARGIN),
        HotbarPosition::Bottom => (centre_x, bottom),
        HotbarPosition::Left => (EDGE_MARGIN, centre_y),
        HotbarPosition::Right => (right, centre_y),
        HotbarPosition::TopLeft => (EDGE_MARGIN, EDGE_MARGIN),
        HotbarPosition::TopRight => (right, EDGE_MARGIN),
        HotbarPosition::BottomLeft => (EDGE_MARGIN, bottom),
        HotbarPosition::BottomRight => (right, bottom),
        HotbarPosition::Custom { x, y } => (x as i64, y as i64),
    }
}

impl HotbarConfig {
    /// Width and height of the bar, or `None` where one of them is no
    /// 32-bit window size.
    pub fn bar_size(&self) -> (size: Option<(i32, i32)>)
        ensures
            size.is_some() == (bar_width(self.size, self.buttons@.len() as int) <= i32::MAX
                && bar_height(self.size) <= i32::MAX),
            size matches Some(s) ==> s.0 == bar_width(self.size, self.buttons@.len() as int) && s.1
                == bar_height(self.size),
    {
        let count: u128 = self.buttons.len() as u128;
        let gaps: u128 = if count > 0 {
            count - 1
        } else {
            0
        };
        let button_width: u128 = self.size.button_width as u128;
        let spacing: u128 = self.size.spacing as u128;
        assert(0 <= count * button_width <= 0x1_0000_0000_0000_0000 * 0x1_0000_0000 && 0 <= gaps
            * spacing <= 0x1_0000_0000_0000_0000 * 0x1_0000_0000) by (nonlinear_arith)
            requires
                0 <= count <= 0x1_0000_0000_0000_0000,
                0 <= gaps <= 0x1_0000_0000_0000_0000,
                0 <= button_width <= 0x1_0000_0000,
                0 <= spacing <= 0x1_0000_0000,
        ;
        let width: u128 = 2 * (self.size.padding as u128) + count * button_width + gaps * spacing;
        let height: u128 = 2 * (self.size.padding as u128) + self.size.button_height as u128;
        if width <= i32::MAX as u128 && height <= i32::MAX as u128 {
            Some((width as i32, height as i32))
        } else {
            None
        }
    }

    /// The button that the point `(x, y)` of the bar lies on: the first one,
    /// from the left, that contains it.
    pub fn button_at(&self, x: i32, y: i32) -> (hit: Option<usize>)
        ensures
            match hit {
                Some(i) => {
                    &&& i < self.buttons@.len()
                    &&& on_button(self.size, i as int, x as int, y as int)
                    &&& forall|j: int| 0 <= j < i ==> !on_button(self.size, j, x as int, y as int)
                },
                None => forall|j: int|
                    0 <= j < self.buttons@.len() ==> !on_button(self.size, j, x as int, y as int),
            },
    {
        let top: i64 = self.size.padding as i64;
        let bottom: i64 = top + self.size.button_height as i64;
        if (y as i64) < top || (y as i64) >= bottom {
            return None;
        }
        let step: i128 = self.size.button_width as i128 + self.size.spacing as i128;
        let count: usize = self.buttons.len();
        let mut left: i128 = self.size.padding as i128;
        let mut i: usize = 0;
        while i < count
            invariant
                i <= count,
                count == self.buttons@.len(),
                step == self.size.button_width + self.size.spacing,
                left == button_left(self.size, i as int),
                0 <= left <= 0x1_0000_0000 + i * 0x2_0000_0000,
                self.size.padding <= y < self.size.padding + self.size.button_height,
                forall|j: int| 0 <= j < i ==> !on_button(self.size, j, x as int, y as int),
            decreases count - i,
        {
            if left <= x as i128 && (x as i128) < left + self.size.button_width as i128 {
                return Some(i);
            }
            assert((i + 1) * step == i * step + step && 0 <= i * step) by (nonlinear_arith)
                requires
                    0 <= i,
                    0 <= step,
            ;
            left = left + step;
            i = i + 1;
        }
        None
    }
}

} // verus!
