//! The pixel grid that the pipeline reads: a plain, row-major RGBA buffer.

use vstd::prelude::*;

verus! {

/// One pixel, with each channel in `0..=255`.
#[derive(Clone, Copy, PartialEq, Eq, Structural, Debug)]
pub struct Rgba {
    pub r: u8,
    pub g: u8,
    pub b: u8,
    pub a: u8,
}

/// An immutable pixel grid, stored row-major, top row first.
///
/// The well-formedness invariant ties the buffer length to the declared
/// dimensions, and keeps the grid small enough that a four-bytes-per-pixel
/// raw buffer still fits in memory.
pub struct Img {
    width: u32,
    height: u32,
    pixels: Vec<Rgba>,
}

impl Img {
    /// The buffer holds exactly one pixel per grid cell, and a raw RGBA
    /// copy of the grid would still be addressable.
    pub open spec fn wf(self) -> bool {
        &&& self.spec_pixels().len() == self.spec_width() as int * self.spec_height() as int
        &&& self.spec_width() as int * self.spec_height() as int <= usize::MAX as int / 4
    }

    pub closed spec fn spec_width(self) -> u32 {
        self.width
    }

    pub closed spec fn spec_height(self) -> u32 {
        self.height
    }

    pub closed spec fn spec_pixels(self) -> Seq<Rgba> {
        self.pixels@
    }

    /// Wraps a row-major pixel buffer as a grid, if the buffer length
    /// matches the dimensions and the grid is addressable.
    pub fn new(width: u32, height: u32, pixels: Vec<Rgba>) -> (r: Option<Img>)
        ensures
            match r {
                Some(img) => {
                    &&& img.wf()
                    &&& img.spec_width() == width
                    &&& img.spec_height() == height
                    &&& img.spec_pixels() == pixels@
                },
                None => {
                    pixels@.len() != width as int * height as int
                        || width as int * height as int > usize::MAX as int / 4
                },
            },
    {
        proof {
            assert(width as int * height as int <= 0xffff_ffff * 0xffff_ffff)
                by (nonlinear_arith)
                requires
                    width as int <= 0xffff_ffff,
                    height as int <= 0xffff_ffff,
            ;
        }
        let cells: u64 = width as u64 * height as u64;
        if cells <= (usize::MAX / 4) as u64 && pixels.len() as u64 == cells {
            Some(Img { width, height, pixels })
        } else {
            None
        }
    }

    /// Crate-internal constructor for grids whose shape is already proved.
    pub(crate) fn from_parts(width: u32, height: u32, pixels: Vec<Rgba>) -> (r: Img)
        requires
            pixels@.len() == width as int * height as int,
            width as int * height as int <= usize::MAX as int / 4,
        ensures
            r.wf(),
            r.spec_width() == width,
            r.spec_height() == height,
            r.spec_pixels() == pixels@,
    {
        Img { width, height, pixels }
    }

    pub fn width(&self) -> (w: u32)
        ensures
            w == self.spec_width(),
    {
        self.width
    }

    pub fn height(&self) -> (h: u32)
        ensures
            h == self.spec_height(),
    {
        self.height
    }

    /// Reads the pixel in column `x` of row `y`.
    pub fn pixel(&self, x: u32, y: u32) -> (p: Rgba)
        requires
            self.wf(),
            x < self.spec_width(),
            y < self.spec_height(),
        ensures
            p == self.spec_pixels()[y as int * self.spec_width() as int + x as int],
    {
        proof {
            let w = self.width as int;
            let h = self.height as int;
            vstd::arithmetic::mul::lemma_mul_inequality(y as int + 1, h, w);
            assert((y as int + 1) * w == y as int * w + w) by (nonlinear_arith);
        }
        let idx: usize = y as usize * self.width as usize + x as usize;
        self.pixels[idx]
    }

    /// Hands the whole buffer out, row-major.
    pub fn pixels(&self) -> (p: &Vec<Rgba>)
        ensures
            p@ == self.spec_pixels(),
    {
        &self.pixels
    }
}

} // verus!
