//! The part of a page that was printed: what is left when the blank margins
//! are cut away.

use vstd::prelude::*;

use crate::raster::{buffer_crop, buffer_get_pixel, Color, Raster, RasterImage};

verus! {

/// Whether ink lies on every channel of the pixel: none of them is at full
/// strength.
pub open spec fn spec_is_dark(c: Color) -> bool {
    c.r != 255 && c.g != 255 && c.b != 255
}

#[verifier::when_used_as_spec(spec_is_dark)]
pub fn is_dark(c: Color) -> (d: bool)
    ensures
        d == spec_is_dark(c),
{
    c.r != 255 && c.g != 255 && c.b != 255
}

/// Whether one of the first `cols` pixels of the row `y` is dark.
pub open spec fn dark_in_row(page: Raster, y: int, cols: int) -> bool {
    exists|x: int| 0 <= x < cols && spec_is_dark(#[trigger] page.pixels[(x, y)])
}

/// Whether the row `y` of the page holds a dark pixel.
pub open spec fn row_is_dark(page: Raster, y: int) -> bool {
    dark_in_row(page, y, page.width as int)
}

/// Whether `y` is the first row of the page that holds a dark pixel, counted
/// from the top.
pub open spec fn is_first_dark_row(page: Raster, y: int) -> bool {
    &&& 0 <= y < page.height
    &&& row_is_dark(page, y)
    &&& forall|above: int| 0 <= above < y ==> !row_is_dark(page, above)
}

/// The first row of the page that holds a dark pixel; `None` where no row
/// does.
pub fn first_dark_row(img: &RasterImage) -> (r: Option<u32>)
    ensures
        match r {
            Some(y) => is_first_dark_row(img@, y as int),
            None => forall|y: int| 0 <= y < img@.height ==> !row_is_dark(img@, y),
        },
{
    let width = img.width();
    let height = img.height();
    let mut y: u32 = 0;
    while y < height
        invariant
            y <= height,
            width == img@.width,
            height == img@.height,
            forall|above: int| 0 <= above < y ==> !row_is_dark(img@, above),
        decreases height - y,
    {
        let mut x: u32 = 0;
        while x < width
            invariant
                x <= width,
                y < height,
                width == img@.width,
                height == img@.height,
                forall|above: int| 0 <= above < y ==> !row_is_dark(img@, above),
                !dark_in_row(img@, y as int, x as int),
            decreases width - x,
        {
            let c = buffer_get_pixel(img, x, y);
            if is_dark(c) {
                assert(spec_is_dark(img@.pixels[(x as int, y as int)]));
                return Some(y);
            }
            x = x + 1;
        }
        y = y + 1;
    }
    None
}

/// The window that shows what was printed on `img`, where a job reported
/// `covered`, as `(x, y, width, height)`: from the left margin to the
/// furthest column covered, and from the first dark row to the lowest row
/// covered. `None` where the page holds no dark row, or none above the
/// lowest row covered.
pub fn window_of_print(img: &RasterImage, covered: (u32, u32)) -> (r: Option<(u32, u32, u32, u32)>)
    ensures
        match r {
            Some(w) => {
                &&& w.0 == 0
                &&& is_first_dark_row(img@, w.1 as int)
                &&& w.1 <= covered.1
                &&& w.2 == covered.0
                &&& w.3 == covered.1 - w.1
            },
            None => forall|y: int| is_first_dark_row(img@, y) ==> y > covered.1,
        },
{
    match first_dark_row(img) {
        Some(first) => {
            if first <= covered.1 {
                Some((0, first, covered.0, covered.1 - first))
            } else {
                None
            }
        },
        None => None,
    }
}

/// A new page that holds what was printed on `img`, where a job reported
/// `covered`: the part of `img` in the window of `window_of_print`, or `None`
/// where that has none.
pub fn crop_to_print(img: &RasterImage, covered: (u32, u32)) -> (r: Option<RasterImage>)
    ensures
        match r {
            Some(out) => exists|first: int|
                {
                    &&& #[trigger] is_first_dark_row(img@, first)
                    &&& first <= covered.1
                    &&& out@ == img@.window(
                        0,
                        first as nat,
                        covered.0 as nat,
                        (covered.1 - first) as nat,
                    )
                },
            None => forall|y: int| is_first_dark_row(img@, y) ==> y > covered.1,
        },
{
    match window_of_print(img, covered) {
        Some(w) => Some(buffer_crop(img, w.0, w.1, w.2, w.3)),
        None => None,
    }
}

} // verus!
