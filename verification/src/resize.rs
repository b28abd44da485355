//! Nearest-neighbor downsampling of the pixel grid to the resolved
//! output dimensions, done by the `image` crate.

use vstd::prelude::*;
use crate::image_data::Img;
use crate::image_data::Rgba;

verus! {

/// What `image::imageops::resize` with nearest-neighbor filtering
/// returns for a `src_w` by `src_h` row-major grid scaled to `w` by `h`:
/// a function of its arguments alone.
pub uninterp spec fn resized_of(
    pixels: Seq<Rgba>,
    src_w: int,
    src_h: int,
    w: int,
    h: int,
) -> Seq<Rgba>;

/// Relies on `image::imageops::resize` with `FilterType::Nearest`, which
/// resizes the supplied image to the specified dimensions, and on
/// `image::RgbaImage::from_raw`, which assembles the source buffer and
/// returns `Some` whenever the buffer length matches the dimensions.
#[verifier::external_body]
fn resize_rgba(pixels: &Vec<Rgba>, src_w: u32, src_h: u32, w: u32, h: u32) -> (r: Vec<Rgba>)
    requires
        src_w >= 1,
        src_h >= 1,
        w >= 1,
        h >= 1,
        pixels@.len() == src_w as int * src_h as int,
        src_w as int * src_h as int <= usize::MAX as int / 4,
        w as int * h as int <= usize::MAX as int / 4,
    ensures
        r@ == resized_of(pixels@, src_w as int, src_h as int, w as int, h as int),
        r@.len() == w as int * h as int,
{
    let buf: Vec<u8> = pixels.iter().flat_map(|p| [p.r, p.g, p.b, p.a]).collect();
    let img = image::RgbaImage::from_raw(src_w, src_h, buf).unwrap();
    let out = image::imageops::resize(&img, w, h, image::imageops::FilterType::Nearest);
    out.pixels().map(|p| Rgba { r: p.0[0], g: p.0[1], b: p.0[2], a: p.0[3] }).collect()
}

/// Downsamples (or upsamples) the grid to exactly `w` by `h` with
/// nearest-neighbor sampling.
pub fn resize_img(img: &Img, w: u32, h: u32) -> (r: Img)
    requires
        img.wf(),
        img.spec_width() >= 1,
        img.spec_height() >= 1,
        w >= 1,
        h >= 1,
        w as int * h as int <= usize::MAX as int / 4,
    ensures
        r.wf(),
        r.spec_width() == w,
        r.spec_height() == h,
        r.spec_pixels() == resized_of(
            img.spec_pixels(),
            img.spec_width() as int,
            img.spec_height() as int,
            w as int,
            h as int,
        ),
{
    let out = resize_rgba(img.pixels(), img.width(), img.height(), w, h);
    Img::from_parts(w, h, out)
}

} // verus!
