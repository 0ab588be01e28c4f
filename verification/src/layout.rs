//! Sizing the canvas: how much room border, padding and shadow need around
//! the source image, and where the source image comes to lie.

use vstd::prelude::*;
use crate::config::BorderConfig;
use crate::plugin::BordersPlugin;
use crate::raster::PixelBuffer;

verus! {

/// The absolute value of `v`.
pub open spec fn magnitude(v: int) -> int {
    if v < 0 {
        -v
    } else {
        v
    }
}

/// The room a shadow needs along one axis: its offset, to either side, and
/// its blur radius on both sides.
pub open spec fn shadow_extent(offset: int, blur: int) -> int {
    magnitude(offset) + 2 * blur
}

impl BorderConfig {
    /// Horizontal room for the shadow; 0 without a shadow.
    pub open spec fn extent_x(&self) -> int {
        match self.shadow {
            Some(shadow) => shadow_extent(shadow.offset_x as int, shadow.blur_radius as int),
            None => 0,
        }
    }

    /// Vertical room for the shadow; 0 without a shadow.
    pub open spec fn extent_y(&self) -> int {
        match self.shadow {
            Some(shadow) => shadow_extent(shadow.offset_y as int, shadow.blur_radius as int),
            None => 0,
        }
    }

    /// Width of the canvas for a source image `src_w` wide.
    pub open spec fn canvas_width(&self, src_w: int) -> int {
        src_w + 2 * (self.size + self.padding) + self.extent_x()
    }

    /// Height of the canvas for a source image `src_h` high.
    pub open spec fn canvas_height(&self, src_h: int) -> int {
        src_h + 2 * (self.size + self.padding) + self.extent_y()
    }

    /// Column of the canvas where the source image starts.  Of the room for
    /// the shadow, the half rounded down lies behind the content and the
    /// rest before it.
    pub open spec fn content_x(&self) -> int {
        self.size + self.padding + (self.extent_x() - self.extent_x() / 2)
    }

    /// Row of the canvas where the source image starts.
    pub open spec fn content_y(&self) -> int {
        self.size + self.padding + (self.extent_y() - self.extent_y() / 2)
    }

    /// Whether the canvas for a `src_w` by `src_h` source image can be made:
    /// its sides must be 32-bit numbers and its pixels must fit in memory.
    pub open spec fn canvas_fits(&self, src_w: int, src_h: int) -> bool {
        &&& self.canvas_width(src_w) <= u32::MAX
        &&& self.canvas_height(src_h) <= u32::MAX
        &&& PixelBuffer::allocatable(self.canvas_width(src_w), self.canvas_height(src_h))
    }
}

/// Size of a canvas and the place of the content on it.
#[derive(Debug, Clone, Copy)]
pub struct CanvasLayout {
    pub width: u32,
    pub height: u32,
    pub content_x: u32,
    pub content_y: u32,
}

/// The room a shadow needs along one axis.
fn axis_extent(offset: i32, blur: u32) -> (extent: u64)
    ensures
        extent == shadow_extent(offset as int, blur as int),
{
    let wide: i64 = offset as i64;
    let reach: u64 = if wide < 0 {
        (-wide) as u64
    } else {
        wide as u64
    };
    reach + 2 * (blur as u64)
}

impl BordersPlugin {
    /// The room the configured shadow needs, horizontally and vertically;
    /// `(0, 0)` without a shadow.
    pub fn calculate_shadow_extra(&self) -> (extra: (u64, u64))
        ensures
            extra.0 == self.settings().extent_x(),
            extra.1 == self.settings().extent_y(),
            extra.0 <= 0x3_0000_0000,
            extra.1 <= 0x3_0000_0000,
    {
        match &self.config().shadow {
            Some(shadow) => (
                axis_extent(shadow.offset_x, shadow.blur_radius),
                axis_extent(shadow.offset_y, shadow.blur_radius),
            ),
            None => (0, 0),
        }
    }

    /// Where the content starts on the canvas: column and row.
    pub fn content_origin(&self) -> (origin: (u64, u64))
        ensures
            origin.0 == self.settings().content_x(),
            origin.1 == self.settings().content_y(),
            origin.0 <= 0x5_0000_0000,
            origin.1 <= 0x5_0000_0000,
    {
        let extra = self.calculate_shadow_extra();
        let inset: u64 = self.config().size as u64 + self.config().padding as u64;
        (inset + (extra.0 - extra.0 / 2), inset + (extra.1 - extra.1 / 2))
    }

    /// Sizes the canvas for a `src_w` by `src_h` source image and places the
    /// content on it, or returns `None` where such a canvas cannot be made.
    pub fn canvas_layout(&self, src_w: u32, src_h: u32) -> (layout: Option<CanvasLayout>)
        ensures
            layout.is_some() == self.settings().canvas_fits(src_w as int, src_h as int),
            layout matches Some(l) ==> {
                &&& l.width == self.settings().canvas_width(src_w as int)
                &&& l.height == self.settings().canvas_height(src_h as int)
                &&& l.content_x == self.settings().content_x()
                &&& l.content_y == self.settings().content_y()
            },
    {
        let extra = self.calculate_shadow_extra();
        let origin = self.content_origin();
        let inset: u64 = self.config().size as u64 + self.config().padding as u64;
        let width: u64 = src_w as u64 + 2 * inset + extra.0;
        let height: u64 = src_h as u64 + 2 * inset + extra.1;
        if width > u32::MAX as u64 || height > u32::MAX as u64 {
            return None;
        }
        if !PixelBuffer::can_allocate(width as u32, height as u32) {
            return None;
        }
        Some(
            CanvasLayout {
                width: width as u32,
                height: height as u32,
                content_x: origin.0 as u32,
                content_y: origin.1 as u32,
            },
        )
    }
}

/// Without a shadow the canvas is the source image grown by border and
/// padding on every side, and the content starts right behind them.
pub proof fn lemma_canvas_without_shadow(config: BorderConfig, src_w: int, src_h: int)
    requires
        config.shadow is None,
    ensures
        config.canvas_width(src_w) == src_w + 2 * (config.size + config.padding),
        config.canvas_height(src_h) == src_h + 2 * (config.size + config.padding),
        config.content_x() == config.size + config.padding,
        config.content_y() == config.size + config.padding,
{
}

/// The content, with border and padding around it, always lies on the
/// canvas: there are at least `size + padding` pixels before it and after
/// it, in both directions.
pub proof fn lemma_content_on_canvas(config: BorderConfig, src_w: int, src_h: int)
    ensures
        config.content_x() >= config.size + config.padding,
        config.content_y() >= config.size + config.padding,
        config.content_x() + src_w + config.size + config.padding <= config.canvas_width(src_w),
        config.content_y() + src_h + config.size + config.padding <= config.canvas_height(src_h),
{
}

} // verus!
