//! The compositing pipeline: canvas, shadow, border, content, corner mask.

use vstd::prelude::*;
use crate::border::border_pixel;
use crate::config::{BorderConfig, CaptureMode};
use crate::corner::{corner_cleared, effective_radius, masked_pixel};
use crate::plugin::BordersPlugin;
use crate::raster::{PixelBuffer, Rgba8};
use crate::shadow::shadow_pixel;

verus! {

/// Whether `(qx, qy)` lies in the rectangle of `cw` by `ch` pixels that
/// starts at `(cx, cy)`.
pub open spec fn in_rect(cx: int, cy: int, cw: int, ch: int, qx: int, qy: int) -> bool {
    cx <= qx < cx + cw && cy <= qy < cy + ch
}

/// What the canvas holds at `(qx, qy)` before the content is copied in: the
/// background, the shadow over it, the border over both.
pub open spec fn backdrop_pixel(config: BorderConfig, cw: int, ch: int, qx: int, qy: int) -> Rgba8 {
    let cx = config.content_x();
    let cy = config.content_y();
    let shaded = match config.shadow {
        Some(shadow) => shadow_pixel(
            shadow,
            cx + shadow.offset_x,
            cy + shadow.offset_y,
            cw,
            ch,
            config.background(),
            qx,
            qy,
        ),
        None => config.background(),
    };
    border_pixel(config.style, cx, cy, cw, ch, config.size as nat, config.color, shaded, qx, qy)
}

/// What the canvas holds at `(qx, qy)` once the content is copied in: the
/// source image's own pixel in the content area, the backdrop elsewhere.
pub open spec fn filled_pixel(config: BorderConfig, source: PixelBuffer, qx: int, qy: int) -> Rgba8 {
    let cx = config.content_x();
    let cy = config.content_y();
    if in_rect(cx, cy, source.w(), source.h(), qx, qy) {
        source.at(qx - cx, qy - cy)
    } else {
        backdrop_pixel(config, source.w(), source.h(), qx, qy)
    }
}

/// What the finished canvas holds at `(qx, qy)`: the filled canvas with the
/// corners rounded.
pub open spec fn composed_pixel(config: BorderConfig, source: PixelBuffer, qx: int, qy: int) -> Rgba8 {
    masked_pixel(
        config.content_x(),
        config.content_y(),
        source.w(),
        source.h(),
        config.size as int,
        config.corner_radius as int,
        filled_pixel(config, source, qx, qy),
        qx,
        qy,
    )
}

/// What the plugin answers when the host has captured an image.
pub enum CaptureResponse {
    /// The capture is left as it is.
    Continue,
    /// The capture is replaced by this image.
    ModifiedImage(PixelBuffer),
}

/// Copies row `y` of `source` into `canvas`, the source's first pixel going
/// to `(cx, cy)`; what falls outside the canvas is dropped.
fn copy_row(canvas: &mut PixelBuffer, source: &PixelBuffer, cx: u32, cy: u32, y: u32)
    requires
        y < source.h(),
    ensures
        final(canvas).same_size(*old(canvas)),
        forall|qx: int, qy: int|
            final(canvas).contains(qx, qy) ==> #[trigger] final(canvas).at(qx, qy) == if qy == cy
                + y && cx <= qx < cx + source.w() {
                source.at(qx - cx, y as int)
            } else {
                old(canvas).at(qx, qy)
            },
{
    let ghost before = *canvas;
    let width: u32 = source.width();
    let mut x: u32 = 0;
    while x < width
        invariant
            x <= width,
            width == source.w(),
            y < source.h(),
            canvas.same_size(before),
            forall|qx: int, qy: int|
                canvas.contains(qx, qy) ==> #[trigger] canvas.at(qx, qy) == if qy == cy + y && cx
                    <= qx < cx + x {
                    source.at(qx - cx, y as int)
                } else {
                    before.at(qx, qy)
                },
        decreases width - x,
    {
        let pixel: Rgba8 = source.get_pixel(x, y);
        canvas.put_pixel_clipped(cx as u64 + x as u64, cy as u64 + y as u64, pixel);
        x = x + 1;
    }
}

/// Copies `source` into `canvas`, its first pixel going to `(cx, cy)`; what
/// falls outside the canvas is dropped.
pub fn copy_content(canvas: &mut PixelBuffer, source: &PixelBuffer, cx: u32, cy: u32)
    ensures
        final(canvas).same_size(*old(canvas)),
        forall|qx: int, qy: int|
            final(canvas).contains(qx, qy) ==> #[trigger] final(canvas).at(qx, qy) == if in_rect(
                cx as int,
                cy as int,
                source.w(),
                source.h(),
                qx,
                qy,
            ) {
                source.at(qx - cx, qy - cy)
            } else {
                old(canvas).at(qx, qy)
            },
{
    let ghost before = *canvas;
    let height: u32 = source.height();
    let mut y: u32 = 0;
    while y < height
        invariant
            y <= height,
            height == source.h(),
            canvas.same_size(before),
            forall|qx: int, qy: int|
                canvas.contains(qx, qy) ==> #[trigger] canvas.at(qx, qy) == if in_rect(
                    cx as int,
                    cy as int,
                    source.w(),
                    y as int,
                    qx,
                    qy,
                ) {
                    source.at(qx - cx, qy - cy)
                } else {
                    before.at(qx, qy)
                },
        decreases height - y,
    {
        copy_row(canvas, source, cx, cy, y);
        y = y + 1;
    }
}

impl BordersPlugin {
    /// Composes the bordered image for `image`: a canvas in the background
    /// colour, the shadow, the border, the image itself, and rounded
    /// corners, in that order.
    pub fn apply_border(&self, image: &PixelBuffer) -> (canvas: PixelBuffer)
        requires
            self.settings().canvas_fits(image.w(), image.h()),
        ensures
            canvas.w() == self.settings().canvas_width(image.w()),
            canvas.h() == self.settings().canvas_height(image.h()),
            forall|qx: int, qy: int|
                canvas.contains(qx, qy) ==> #[trigger] canvas.at(qx, qy) == composed_pixel(
                    self.settings(),
                    *image,
                    qx,
                    qy,
                ),
    {
        self.try_apply_border(image).unwrap()
    }

    /// Answers a finished capture: the bordered image where the settings
    /// apply to captures of `mode`, and no change where they do not.  A
    /// disabled plugin never changes a capture.  Where the settings apply,
    /// the canvas must be one that can be made.
    pub fn on_post_capture(&self, image: &PixelBuffer, mode: &CaptureMode) -> (response:
        CaptureResponse)
        requires
            self.settings().applies_to(*mode) ==> self.settings().canvas_fits(image.w(), image.h()),
        ensures
            !self.settings().enabled ==> response is Continue,
            match response {
                CaptureResponse::Continue => !self.settings().applies_to(*mode),
                CaptureResponse::ModifiedImage(canvas) => {
                    &&& self.settings().applies_to(*mode)
                    &&& canvas.w() == self.settings().canvas_width(image.w())
                    &&& canvas.h() == self.settings().canvas_height(image.h())
                    &&& forall|qx: int, qy: int|
                        canvas.contains(qx, qy) ==> #[trigger] canvas.at(qx, qy) == composed_pixel(
                            self.settings(),
                            *image,
                            qx,
                            qy,
                        )
                },
            },
    {
        if !self.should_process(mode) {
            return CaptureResponse::Continue;
        }
        CaptureResponse::ModifiedImage(self.apply_border(image))
    }

    /// Answers a finished capture whatever its size: as `on_post_capture`
    /// does, or `None` where the settings apply to captures of `mode` and
    /// the canvas for the bordered image cannot be made.
    pub fn try_on_post_capture(&self, image: &PixelBuffer, mode: &CaptureMode) -> (answer: Option<
        CaptureResponse,
    >)
        ensures
            answer.is_none() == (self.settings().applies_to(*mode) && !self.settings().canvas_fits(
                image.w(),
                image.h(),
            )),
            !self.settings().enabled ==> answer matches Some(CaptureResponse::Continue),
            answer matches Some(response) ==> match response {
                CaptureResponse::Continue => !self.settings().applies_to(*mode),
                CaptureResponse::ModifiedImage(canvas) => {
                    &&& self.settings().applies_to(*mode)
                    &&& canvas.w() == self.settings().canvas_width(image.w())
                    &&& canvas.h() == self.settings().canvas_height(image.h())
                    &&& forall|qx: int, qy: int|
                        canvas.contains(qx, qy) ==> #[trigger] canvas.at(qx, qy) == composed_pixel(
                            self.settings(),
                            *image,
                            qx,
                            qy,
                        )
                },
            },
    {
        if self.should_process(mode) && self.canvas_layout(image.width(), image.height()).is_none() {
            return None;
        }
        Some(self.on_post_capture(image, mode))
    }

    /// Composes the bordered image for `image`, or returns `None` where the
    /// canvas it needs cannot be made.
    pub fn try_apply_border(&self, image: &PixelBuffer) -> (made: Option<PixelBuffer>)
        ensures
            made.is_some() == self.settings().canvas_fits(image.w(), image.h()),
            made matches Some(canvas) ==> {
                &&& canvas.w() == self.settings().canvas_width(image.w())
                &&& canvas.h() == self.settings().canvas_height(image.h())
                &&& forall|qx: int, qy: int|
                    canvas.contains(qx, qy) ==> #[trigger] canvas.at(qx, qy) == composed_pixel(
                        self.settings(),
                        *image,
                        qx,
                        qy,
                    )
            },
    {
        let (orig_width, orig_height) = image.dimensions();
        let layout = match self.canvas_layout(orig_width, orig_height) {
            Some(layout) => layout,
            None => {
                return None;
            },
        };
        let background: Rgba8 = match self.config().background_color {
            Some(color) => color,
            None => [0, 0, 0, 0],
        };
        let mut canvas = PixelBuffer::from_pixel(layout.width, layout.height, background);
        match &self.config().shadow {
            Some(shadow) => {
                self.draw_shadow(&mut canvas, orig_width, orig_height, shadow);
            },
            None => {},
        }
        self.draw_border(&mut canvas, layout.content_x, layout.content_y, orig_width, orig_height);
        copy_content(&mut canvas, image, layout.content_x, layout.content_y);
        if self.config().corner_radius > 0 {
            self.apply_corner_mask(
                &mut canvas,
                layout.content_x,
                layout.content_y,
                orig_width,
                orig_height,
            );
        }
        Some(canvas)
    }
}

/// The content area of the finished canvas reproduces the source image
/// pixel for pixel, wherever the corner mask does not clear it.
pub proof fn lemma_content_fidelity(config: BorderConfig, source: PixelBuffer, x: int, y: int)
    requires
        source.contains(x, y),
        !corner_cleared(
            config.content_x(),
            config.content_y(),
            source.w(),
            source.h(),
            config.size as int,
            effective_radius(
                config.corner_radius as int,
                config.size as int,
                source.w(),
                source.h(),
            ),
            config.content_x() + x,
            config.content_y() + y,
        ),
    ensures
        composed_pixel(config, source, config.content_x() + x, config.content_y() + y) == source.at(
            x,
            y,
        ),
{
}

/// Without rounded corners the whole content area of the finished canvas
/// reproduces the source image pixel for pixel.
pub proof fn lemma_content_fidelity_unmasked(
    config: BorderConfig,
    source: PixelBuffer,
    x: int,
    y: int,
)
    requires
        source.contains(x, y),
        config.corner_radius == 0,
    ensures
        composed_pixel(config, source, config.content_x() + x, config.content_y() + y) == source.at(
            x,
            y,
        ),
{
}

} // verus!
