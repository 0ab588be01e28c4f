//! The pixel buffer the engine reads and writes.
//!
//! A [`PixelBuffer`] holds an `image::RgbaImage`.  Verus cannot look inside
//! that type, so this module names what a buffer holds (its width, its height
//! and its pixels) and states, without proof, what the few `image` methods the
//! engine relies on do to them.  Everything else in the crate is proved from
//! those statements.

use vstd::prelude::*;

verus! {

/// One RGBA8 pixel: red, green, blue, alpha.
pub type Rgba8 = [u8; 4];

/// A width by height grid of RGBA8 pixels, stored by the `image` crate.
#[verifier::external_body]
pub struct PixelBuffer {
    inner: image::RgbaImage,
}

/// Number of pixel columns of a buffer.
pub uninterp spec fn buffer_width(buf: PixelBuffer) -> nat;

/// Number of pixel rows of a buffer.
pub uninterp spec fn buffer_height(buf: PixelBuffer) -> nat;

/// The pixels of a buffer, keyed by `(x, y)`.  Only the keys inside the
/// buffer carry meaning.
pub uninterp spec fn buffer_pixels(buf: PixelBuffer) -> Map<(int, int), Rgba8>;

/// `image::ImageBuffer::width`: the width the buffer was made with.
#[verifier::external_body]
fn raw_width(buf: &PixelBuffer) -> (w: u32)
    ensures
        w == buffer_width(*buf),
{
    buf.inner.width()
}

/// `image::ImageBuffer::height`: the height the buffer was made with.
#[verifier::external_body]
fn raw_height(buf: &PixelBuffer) -> (h: u32)
    ensures
        h == buffer_height(*buf),
{
    buf.inner.height()
}

/// `image::ImageBuffer::get_pixel`: the pixel stored at `(x, y)`.  The method
/// panics outside the image; `requires` leaves those coordinates out.
#[verifier::external_body]
fn raw_get_pixel(buf: &PixelBuffer, x: u32, y: u32) -> (p: Rgba8)
    requires
        x < buffer_width(*buf),
        y < buffer_height(*buf),
    ensures
        p == buffer_pixels(*buf)[(x as int, y as int)],
{
    buf.inner.get_pixel(x, y).0
}

/// `image::ImageBuffer::put_pixel`: overwrites the pixel at `(x, y)`, keeps
/// every other pixel and the size.  The method panics outside the image;
/// `requires` leaves those coordinates out.
#[verifier::external_body]
fn raw_put_pixel(buf: &mut PixelBuffer, x: u32, y: u32, p: Rgba8)
    requires
        x < buffer_width(*old(buf)),
        y < buffer_height(*old(buf)),
    ensures
        buffer_width(*final(buf)) == buffer_width(*old(buf)),
        buffer_height(*final(buf)) == buffer_height(*old(buf)),
        buffer_pixels(*final(buf)) == buffer_pixels(*old(buf)).insert((x as int, y as int), p),
{
    buf.inner.put_pixel(x, y, image::Rgba(p));
}

/// `image::ImageBuffer::from_pixel`: a new image of the given size whose
/// pixels all equal `p`.  The method panics when the buffer would need more
/// bytes than a `Vec` can hold; `requires` leaves those sizes out.
#[verifier::external_body]
fn raw_from_pixel(w: u32, h: u32, p: Rgba8) -> (buf: PixelBuffer)
    requires
        4 * w * h <= isize::MAX,
    ensures
        buffer_width(buf) == w,
        buffer_height(buf) == h,
        forall|x: int, y: int|
            0 <= x < w && 0 <= y < h ==> #[trigger] buffer_pixels(buf)[(x, y)] == p,
{
    PixelBuffer { inner: image::RgbaImage::from_pixel(w, h, image::Rgba(p)) }
}

impl PixelBuffer {
    /// Width in pixels.
    pub open spec fn w(&self) -> int {
        buffer_width(*self) as int
    }

    /// Height in pixels.
    pub open spec fn h(&self) -> int {
        buffer_height(*self) as int
    }

    /// Whether `(x, y)` lies inside the buffer.
    pub open spec fn contains(&self, x: int, y: int) -> bool {
        0 <= x < self.w() && 0 <= y < self.h()
    }

    /// The pixel at `(x, y)`; meaningful where `contains(x, y)`.
    pub open spec fn at(&self, x: int, y: int) -> Rgba8 {
        buffer_pixels(*self)[(x, y)]
    }

    /// Two buffers of one size.
    pub open spec fn same_size(&self, other: PixelBuffer) -> bool {
        self.w() == other.w() && self.h() == other.h()
    }

    /// Whether a `width` by `height` buffer can be allocated: its four bytes
    /// per pixel must fit in a `Vec`.
    pub open spec fn allocatable(width: int, height: int) -> bool {
        4 * width * height <= isize::MAX
    }

    pub fn width(&self) -> (w: u32)
        ensures
            w == self.w(),
    {
        raw_width(self)
    }

    pub fn height(&self) -> (h: u32)
        ensures
            h == self.h(),
    {
        raw_height(self)
    }

    pub fn dimensions(&self) -> (d: (u32, u32))
        ensures
            d.0 == self.w(),
            d.1 == self.h(),
    {
        (raw_width(self), raw_height(self))
    }

    /// Reads the pixel at `(x, y)`, which must lie inside the buffer.
    pub fn get_pixel(&self, x: u32, y: u32) -> (p: Rgba8)
        requires
            self.contains(x as int, y as int),
        ensures
            p == self.at(x as int, y as int),
    {
        raw_get_pixel(self, x, y)
    }

    /// Reads the pixel at `(x, y)`, or `None` outside the buffer.
    pub fn get_pixel_checked(&self, x: u32, y: u32) -> (p: Option<Rgba8>)
        ensures
            p == if self.contains(x as int, y as int) {
                Some(self.at(x as int, y as int))
            } else {
                None
            },
    {
        if x < raw_width(self) && y < raw_height(self) {
            Some(raw_get_pixel(self, x, y))
        } else {
            None
        }
    }

    /// Overwrites the pixel at `(x, y)`, which must lie inside the buffer.
    pub fn put_pixel(&mut self, x: u32, y: u32, p: Rgba8)
        requires
            old(self).contains(x as int, y as int),
        ensures
            final(self).same_size(*old(self)),
            forall|qx: int, qy: int|
                final(self).contains(qx, qy) ==> #[trigger] final(self).at(qx, qy) == if qx == x
                    && qy == y {
                    p
                } else {
                    old(self).at(qx, qy)
                },
    {
        raw_put_pixel(self, x, y, p);
    }

    /// A clipped write: overwrites the pixel at `(x, y)` where that lies
    /// inside the buffer and does nothing elsewhere.
    pub fn put_pixel_clipped(&mut self, x: u64, y: u64, p: Rgba8)
        ensures
            final(self).same_size(*old(self)),
            forall|qx: int, qy: int|
                final(self).contains(qx, qy) ==> #[trigger] final(self).at(qx, qy) == if qx == x
                    && qy == y {
                    p
                } else {
                    old(self).at(qx, qy)
                },
    {
        if x < raw_width(self) as u64 && y < raw_height(self) as u64 {
            raw_put_pixel(self, x as u32, y as u32, p);
        }
    }

    /// A new buffer of the given size filled with `p`.
    pub fn from_pixel(width: u32, height: u32, p: Rgba8) -> (buf: PixelBuffer)
        requires
            Self::allocatable(width as int, height as int),
        ensures
            buf.w() == width,
            buf.h() == height,
            forall|x: int, y: int| buf.contains(x, y) ==> #[trigger] buf.at(x, y) == p,
    {
        raw_from_pixel(width, height, p)
    }

    /// Decides at run time whether a buffer of the given size can be
    /// allocated.
    pub fn can_allocate(width: u32, height: u32) -> (ok: bool)
        ensures
            ok == Self::allocatable(width as int, height as int),
    {
        assert(0 <= width * height <= 0xFFFF_FFFF * 0xFFFF_FFFF && 4 * width * height == 4 * (width
            * height)) by (nonlinear_arith)
            requires
                0 <= width <= 0xFFFF_FFFF,
                0 <= height <= 0xFFFF_FFFF,
        ;
        let cells: u64 = width as u64 * height as u64;
        cells <= (isize::MAX as u64) / 4
    }

    /// A new buffer of the given size filled with `p`, or `None` where such
    /// a buffer cannot be allocated.
    pub fn try_from_pixel(width: u32, height: u32, p: Rgba8) -> (made: Option<PixelBuffer>)
        ensures
            made.is_some() == Self::allocatable(width as int, height as int),
            made matches Some(buf) ==> {
                &&& buf.w() == width
                &&& buf.h() == height
                &&& forall|x: int, y: int| buf.contains(x, y) ==> #[trigger] buf.at(x, y) == p
            },
    {
        if Self::can_allocate(width, height) {
            Some(raw_from_pixel(width, height, p))
        } else {
            None
        }
    }
}

} // verus!
