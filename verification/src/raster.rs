//! The page buffer: a fixed-size grid of RGB pixels, kept in an
//! `image::RgbImage` and seen by the proofs as a map from coordinates to
//! colours.

use vstd::prelude::*;

verus! {

/// One pixel: red, green and blue, eight bits each.
#[derive(Clone, Copy, Debug, PartialEq, Eq, Structural)]
pub struct Color {
    pub r: u8,
    pub g: u8,
    pub b: u8,
}

impl Color {
    /// Unprinted paper.
    pub open spec fn spec_white() -> Color {
        Color { r: 255, g: 255, b: 255 }
    }

    /// Full ink on all three channels.
    pub open spec fn spec_black() -> Color {
        Color { r: 0, g: 0, b: 0 }
    }

    #[verifier::when_used_as_spec(spec_white)]
    pub fn white() -> (c: Color)
        ensures
            c == Color::spec_white(),
    {
        Color { r: 255, g: 255, b: 255 }
    }

    #[verifier::when_used_as_spec(spec_black)]
    pub fn black() -> (c: Color)
        ensures
            c == Color::spec_black(),
    {
        Color { r: 0, g: 0, b: 0 }
    }
}

/// What the proofs know of a page: its size and the colour at each
/// coordinate `(x, y)`, `x` counting columns from the left and `y` rows from
/// the top.
pub struct Raster {
    pub width: nat,
    pub height: nat,
    pub pixels: Map<(int, int), Color>,
}

impl Raster {
    /// Whether `(x, y)` lies on the page.
    pub open spec fn contains(self, x: int, y: int) -> bool {
        0 <= x < self.width && 0 <= y < self.height
    }

    /// The page with other pixels and the same size.
    pub open spec fn with_pixels(self, pixels: Map<(int, int), Color>) -> Raster {
        Raster { width: self.width, height: self.height, pixels }
    }

    /// A page holds a colour at each of its coordinates and nowhere else.
    pub open spec fn wf(self) -> bool {
        forall|k: (int, int)| #[trigger] self.pixels.dom().contains(k) <==> self.contains(k.0, k.1)
    }

    /// The page of `width` by `height` on which every pixel has the colour
    /// `c`.
    pub open spec fn uniform(width: nat, height: nat, c: Color) -> Raster {
        Raster { width, height, pixels: uniform_pixels(width, height, c) }
    }

    /// The part of the page that a window of `width` by `height` with its
    /// top left corner at `(x, y)` shows. A window that reaches over the page
    /// is cut at its edges, down to nothing where its corner lies off the
    /// page.
    pub open spec fn window(self, x: nat, y: nat, width: nat, height: nat) -> Raster {
        let left = if x < self.width {
            x
        } else {
            self.width
        };
        let top = if y < self.height {
            y
        } else {
            self.height
        };
        let w = if width < self.width - left {
            width
        } else {
            (self.width - left) as nat
        };
        let h = if height < self.height - top {
            height
        } else {
            (self.height - top) as nat
        };
        Raster {
            width: w,
            height: h,
            pixels: Map::new(
                |k: (int, int)| 0 <= k.0 < w && 0 <= k.1 < h,
                |k: (int, int)| self.pixels[(left + k.0, top + k.1)],
            ),
        }
    }

    /// Byte `i` of the page as it lies in memory: the rows from the top, in
    /// each row the pixels from the left, of each pixel red, green and blue.
    pub open spec fn byte(self, i: int) -> u8 {
        let pixel = self.pixels[((i / 3) % (self.width as int), (i / 3) / (self.width as int))];
        if i % 3 == 0 {
            pixel.r
        } else if i % 3 == 1 {
            pixel.g
        } else {
            pixel.b
        }
    }

    /// The bytes of the page as they lie in memory, three for each pixel.
    pub open spec fn bytes(self) -> Seq<u8> {
        Seq::new(3 * self.width * self.height, |i: int| self.byte(i))
    }
}

/// The pixels of a page of `width` by `height` on which every pixel has the
/// colour `c`.
pub open spec fn uniform_pixels(width: nat, height: nat, c: Color) -> Map<(int, int), Color> {
    Map::new(|k: (int, int)| 0 <= k.0 < width && 0 <= k.1 < height, |k: (int, int)| c)
}

/// A page buffer. The pixels live in an `image::RgbImage`, which the verifier
/// does not look into: it knows the buffer by `raster_width`,
/// `raster_height` and `raster_pixels`.
#[verifier::external_body]
pub struct RasterImage {
    buffer: image::RgbImage,
}

/// The number of pixel columns of the buffer.
pub uninterp spec fn raster_width(img: RasterImage) -> nat;

/// The number of pixel rows of the buffer.
pub uninterp spec fn raster_height(img: RasterImage) -> nat;

/// The colour that the buffer holds at each coordinate `(x, y)`.
pub uninterp spec fn raster_pixels(img: RasterImage) -> Map<(int, int), Color>;

impl View for RasterImage {
    type V = Raster;

    /// The size of the buffer, and its colour at each coordinate of the page.
    open spec fn view(&self) -> Raster {
        Raster {
            width: raster_width(*self),
            height: raster_height(*self),
            pixels: Map::new(
                |k: (int, int)|
                    0 <= k.0 < raster_width(*self) && 0 <= k.1 < raster_height(*self),
                |k: (int, int)| raster_pixels(*self)[k],
            ),
        }
    }
}

/// `ImageBuffer::from_pixel`: a buffer of the given size with every pixel set
/// to `c`. The call panics where the three bytes per pixel do not fit in a
/// vector, which `requires` leaves out.
#[verifier::external_body]
pub(crate) fn buffer_from_pixel(width: u32, height: u32, c: Color) -> (img: RasterImage)
    requires
        3 * width * height <= isize::MAX,
    ensures
        raster_width(img) == width,
        raster_height(img) == height,
        raster_pixels(img) == uniform_pixels(width as nat, height as nat, c),
{
    RasterImage { buffer: image::RgbImage::from_pixel(width, height, image::Rgb([c.r, c.g, c.b])) }
}

/// `ImageBuffer::width`.
#[verifier::external_body]
pub(crate) fn buffer_width(img: &RasterImage) -> (w: u32)
    ensures
        w == raster_width(*img),
{
    img.buffer.width()
}

/// `ImageBuffer::height`.
#[verifier::external_body]
pub(crate) fn buffer_height(img: &RasterImage) -> (h: u32)
    ensures
        h == raster_height(*img),
{
    img.buffer.height()
}

/// `ImageBuffer::get_pixel`: the pixel at `(x, y)`. The call panics outside
/// the buffer, which `requires` leaves out.
#[verifier::external_body]
pub(crate) fn buffer_get_pixel(img: &RasterImage, x: u32, y: u32) -> (c: Color)
    requires
        x < raster_width(*img),
        y < raster_height(*img),
    ensures
        c == raster_pixels(*img)[(x as int, y as int)],
{
    let p = img.buffer.get_pixel(x, y);
    Color { r: p.0[0], g: p.0[1], b: p.0[2] }
}

/// `ImageBuffer::put_pixel`: stores `c` at `(x, y)` and leaves the size and
/// every other pixel as they were. The call panics outside the buffer, which
/// `requires` leaves out.
#[verifier::external_body]
pub(crate) fn buffer_put_pixel(img: &mut RasterImage, x: u32, y: u32, c: Color)
    requires
        x < raster_width(*old(img)),
        y < raster_height(*old(img)),
    ensures
        raster_width(*final(img)) == raster_width(*old(img)),
        raster_height(*final(img)) == raster_height(*old(img)),
        raster_pixels(*final(img)) == raster_pixels(*old(img)).insert((x as int, y as int), c),
{
    img.buffer.put_pixel(x, y, image::Rgb([c.r, c.g, c.b]))
}

/// `ImageBuffer::as_raw`: the bytes of the buffer, three for each pixel, row
/// after row from the top. The buffers of this library are made by
/// `ImageBuffer::from_pixel` and `SubImage::to_image`, which give them no
/// byte more.
#[verifier::external_body]
pub(crate) fn buffer_as_raw(img: &RasterImage) -> (bytes: &[u8])
    ensures
        bytes@ == img@.bytes(),
{
    img.buffer.as_raw().as_slice()
}

/// `imageops::crop_imm`, and `SubImage::to_image` on what it returns: a new
/// buffer that holds the part of `img` which the window shows. The first
/// cuts the window at the edges of the buffer, the second copies its pixels.
#[verifier::external_body]
pub(crate) fn buffer_crop(img: &RasterImage, x: u32, y: u32, width: u32, height: u32) -> (out:
    RasterImage)
    ensures
        out@ == img@.window(x as nat, y as nat, width as nat, height as nat),
{
    RasterImage { buffer: image::imageops::crop_imm(&img.buffer, x, y, width, height).to_image() }
}

/// What the proofs know of a buffer is a page: it holds a colour at each of
/// its coordinates and nowhere else.
pub proof fn lemma_view_wf(img: RasterImage)
    ensures
        img@.wf(),
{
}

impl RasterImage {
    /// A page of `width` by `height` pixels, all of the colour `c`; `None`
    /// where a buffer of that size cannot be addressed.
    pub fn filled(width: u32, height: u32, c: Color) -> (r: Option<RasterImage>)
        ensures
            r is Some <==> 3 * width * height <= isize::MAX,
            r matches Some(img) ==> img@ == Raster::uniform(width as nat, height as nat, c),
    {
        assert(width * height <= 0xffff_ffff * 0xffff_ffff) by (nonlinear_arith)
            requires
                width <= 0xffff_ffff,
                height <= 0xffff_ffff,
        ;
        let area: u64 = (width as u64) * (height as u64);
        assert(3 * area == 3 * width * height) by (nonlinear_arith)
            requires
                area == width * height,
        ;
        if 3 * (area as u128) <= isize::MAX as u128 {
            let img = buffer_from_pixel(width, height, c);
            assert(img@.pixels =~= uniform_pixels(width as nat, height as nat, c));
            Some(img)
        } else {
            None
        }
    }

    /// The number of pixel columns.
    pub fn width(&self) -> (w: u32)
        ensures
            w == self@.width,
    {
        buffer_width(self)
    }

    /// The number of pixel rows.
    pub fn height(&self) -> (h: u32)
        ensures
            h == self@.height,
    {
        buffer_height(self)
    }

    /// The bytes of the page as they lie in memory, three for each pixel.
    pub fn as_bytes(&self) -> (bytes: &[u8])
        ensures
            bytes@ == self@.bytes(),
    {
        buffer_as_raw(self)
    }

    /// The colour at `(x, y)`, or `None` off the page.
    pub fn pixel(&self, x: u32, y: u32) -> (r: Option<Color>)
        ensures
            r == if self@.contains(x as int, y as int) {
                Some(self@.pixels[(x as int, y as int)])
            } else {
                None
            },
    {
        if x < buffer_width(self) && y < buffer_height(self) {
            Some(buffer_get_pixel(self, x, y))
        } else {
            None
        }
    }

    /// Stores `c` at `(x, y)` if that lies on the page, and tells whether it
    /// did. A write off the page changes nothing.
    pub fn set_pixel(&mut self, x: u32, y: u32, c: Color) -> (written: bool)
        ensures
            written == old(self)@.contains(x as int, y as int),
            final(self)@ == if written {
                old(self)@.with_pixels(old(self)@.pixels.insert((x as int, y as int), c))
            } else {
                old(self)@
            },
    {
        if x < buffer_width(self) && y < buffer_height(self) {
            buffer_put_pixel(self, x, y, c);
            assert(self@.pixels =~= old(self)@.pixels.insert((x as int, y as int), c));
            true
        } else {
            false
        }
    }
}

} // verus!
