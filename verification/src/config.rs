//! The configuration record that drives one conversion run.

use vstd::prelude::*;

verus! {

/// One run's settings: where the image comes from, where the text goes,
/// the optional explicit output grid, and whether truecolor escapes are
/// emitted.
pub struct Config {
    pub image: String,
    pub output: String,
    pub width: Option<u32>,
    pub height: Option<u32>,
    pub color: bool,
}

/// Builds the configuration record from already-parsed values.
///
/// Command-line handling itself is unverified plumbing; it hands the
/// plain values over and this function pins down exactly what record
/// the rest of the pipeline sees.
pub fn parse_config(
    image: String,
    output: String,
    width: Option<u32>,
    height: Option<u32>,
    color: bool,
) -> (c: Config)
    ensures
        c.image == image,
        c.output == output,
        c.width == width,
        c.height == height,
        c.color == color,
{
    Config { image, output, width, height, color }
}

} // verus!
