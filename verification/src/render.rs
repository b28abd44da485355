//! The Art Generator: maps each pixel of the resolved grid to a
//! brightness-ordered glyph, optionally wrapped in truecolor escapes,
//! and assembles the output lines.

use vstd::prelude::*;
use vstd::arithmetic::div_mod::lemma_div_is_ordered;
use crate::color::rgb_prefix;
use crate::color::reset_prefix;
use crate::color::RGBColorTextExt;
use crate::config::Config;
use crate::dimensions::build_target_dimensions;
use crate::dimensions::resolve_spec;
use crate::dimensions::DimensionError;
use crate::image_data::Img;
use crate::image_data::Rgba;
use crate::resize::resize_img;
use crate::resize::resized_of;

verus! {

/// The glyph ramp, ordered by the brightness each glyph stands for.
pub open spec fn ramp() -> Seq<char> {
    ".'`^\",:;Il!i><~+_-?][}{1)(|\\/tfjrxuvczUJCLQOZmwqpdbkho*#MW&8%B@$"@
}

/// Perceptual brightness of a pixel in `0..=255`: the NTSC luma
/// weighting of the color channels, truncating; alpha is ignored.
pub open spec fn luma(p: Rgba) -> int {
    (299 * p.r + 587 * p.g + 114 * p.b) / 1000
}

/// Which ramp glyph a pixel's brightness selects.
pub open spec fn bucket(p: Rgba) -> int {
    luma(p) / 4
}

/// The glyph that renders a pixel.
pub open spec fn glyph_of(p: Rgba) -> char {
    ramp()[bucket(p)]
}

/// Every bucket lands inside the ramp: the brightest pixel selects
/// exactly the last glyph, so the ramp length and the bucket divisor
/// fit each other.
pub proof fn lemma_bucket_in_range(p: Rgba)
    ensures
        0 <= bucket(p) < ramp().len(),
{
    reveal_strlit(".'`^\",:;Il!i><~+_-?][}{1)(|\\/tfjrxuvczUJCLQOZmwqpdbkho*#MW&8%B@$");
    assert(299 * p.r + 587 * p.g + 114 * p.b <= 255000);
    lemma_div_is_ordered(299 * p.r + 587 * p.g + 114 * p.b, 255000, 1000);
    lemma_div_is_ordered(luma(p), 255, 4);
}

/// Brightness, and with it the selected glyph's position in the ramp,
/// never decreases when every color channel brightens.
pub proof fn lemma_luma_monotone(p: Rgba, q: Rgba)
    requires
        p.r <= q.r,
        p.g <= q.g,
        p.b <= q.b,
    ensures
        luma(p) <= luma(q),
        bucket(p) <= bucket(q),
{
    lemma_div_is_ordered(299 * p.r + 587 * p.g + 114 * p.b, 299 * q.r + 587 * q.g + 114 * q.b, 1000);
    lemma_div_is_ordered(luma(p), luma(q), 4);
}

/// What one pixel contributes to its line: the bare glyph, or the glyph
/// behind the pixel's truecolor escape.
pub open spec fn unit_spec(p: Rgba, color: bool) -> Seq<char> {
    if color {
        rgb_prefix(p.r, p.g, p.b).push(glyph_of(p))
    } else {
        seq![glyph_of(p)]
    }
}

/// The first `x` pixel units of row `y`, concatenated.
pub open spec fn row_prefix_spec(pix: Seq<Rgba>, w: int, y: int, x: int, color: bool) -> Seq<char>
    decreases x,
{
    if x <= 0 {
        Seq::empty()
    } else {
        row_prefix_spec(pix, w, y, x - 1, color) + unit_spec(pix[y * w + (x - 1)], color)
    }
}

/// One whole output line: row `y` of a `w`-wide grid.
pub open spec fn line_spec(pix: Seq<Rgba>, w: int, y: int, color: bool) -> Seq<char> {
    row_prefix_spec(pix, w, y, w, color)
}

/// The whole rendering of a `w` by `h` grid: one line per row, top to
/// bottom; in color mode the very last line additionally ends with the
/// reset to the default foreground.
pub open spec fn art_spec(pix: Seq<Rgba>, w: int, h: int, color: bool) -> Seq<Seq<char>> {
    let base = Seq::new(h as nat, |y: int| line_spec(pix, w, y, color));
    if color && h >= 1 {
        base.update(h - 1, base[h - 1] + reset_prefix())
    } else {
        base
    }
}

proof fn lemma_row_prefix_plain_len(pix: Seq<Rgba>, w: int, y: int, x: int)
    requires
        x >= 0,
    ensures
        row_prefix_spec(pix, w, y, x, false).len() == x,
    decreases x,
{
    if x > 0 {
        lemma_row_prefix_plain_len(pix, w, y, x - 1);
    }
}

/// The rendering always has one line per grid row, and without color
/// escapes every line has exactly one character per grid column.
pub proof fn lemma_art_shape(pix: Seq<Rgba>, w: int, h: int, color: bool)
    requires
        w >= 0,
        h >= 0,
    ensures
        art_spec(pix, w, h, color).len() == h,
        forall|y: int| 0 <= y < h ==> #[trigger] art_spec(pix, w, h, false)[y].len() == w,
{
    assert forall|y: int| 0 <= y < h implies #[trigger] art_spec(pix, w, h, false)[y].len()
        == w by {
        lemma_row_prefix_plain_len(pix, w, y, w);
    }
}

/// The glyph selected by a pixel's brightness.
fn glyph(p: &Rgba) -> (c: char)
    ensures
        c == glyph_of(*p),
{
    proof {
        lemma_bucket_in_range(*p);
        reveal_strlit(".'`^\",:;Il!i><~+_-?][}{1)(|\\/tfjrxuvczUJCLQOZmwqpdbkho*#MW&8%B@$");
    }
    let weighted: u32 = 299 * (p.r as u32) + 587 * (p.g as u32) + 114 * (p.b as u32);
    let idx: u32 = (weighted / 1000) / 4;
    let ramp_str = ".'`^\",:;Il!i><~+_-?][}{1)(|\\/tfjrxuvczUJCLQOZmwqpdbkho*#MW&8%B@$";
    ramp_str.get_char(idx as usize)
}

/// What one pixel contributes to its line.
fn glyph_unit(p: &Rgba, color: bool) -> (u: String)
    ensures
        u@ == unit_spec(*p, color),
{
    let c = glyph(p);
    if color {
        c.rgb(p.r, p.g, p.b)
    } else {
        let mut s = String::new();
        s.push(c);
        proof {
            assert(s@ =~= unit_spec(*p, color));
        }
        s
    }
}

/// Renders the (already resized) grid: one text line per pixel row, each
/// pixel contributing its glyph, colored when asked; in color mode the
/// last line ends with the foreground reset.
pub fn generate_ascii_art(img: &Img, with_color: bool) -> (r: Vec<String>)
    requires
        img.wf(),
        img.spec_height() >= 1,
    ensures
        r@.map_values(|s: String| s@) == art_spec(
            img.spec_pixels(),
            img.spec_width() as int,
            img.spec_height() as int,
            with_color,
        ),
        r@.len() == img.spec_height(),
{
    let w = img.width();
    let h = img.height();
    let ghost pix = img.spec_pixels();
    let mut res: Vec<String> = Vec::new();
    let mut y: u32 = 0;
    while y < h
        invariant
            img.wf(),
            w == img.spec_width(),
            h == img.spec_height(),
            pix == img.spec_pixels(),
            y <= h,
            res@.len() == y,
            forall|i: int|
                0 <= i < y ==> res@[i]@ == line_spec(pix, w as int, i, with_color),
        decreases h - y,
    {
        let mut line = String::new();
        let mut x: u32 = 0;
        while x < w
            invariant
                img.wf(),
                w == img.spec_width(),
                h == img.spec_height(),
                pix == img.spec_pixels(),
                y < h,
                x <= w,
                line@ == row_prefix_spec(pix, w as int, y as int, x as int, with_color),
            decreases w - x,
        {
            let p = img.pixel(x, y);
            let u = glyph_unit(&p, with_color);
            line.append(u.as_str());
            x = x + 1;
        }
        res.push(line);
        y = y + 1;
    }
    if with_color {
        let mut last = res.pop().unwrap();
        last.append("\u{1b}[39m");
        res.push(last);
    }
    proof {
        assert(res@.map_values(|s: String| s@) =~= art_spec(
            pix,
            w as int,
            h as int,
            with_color,
        ));
    }
    res
}

/// What one whole conversion run returns for a given terminal size:
/// the resolution policy's error, the machine-limit refusal of a grid
/// whose raw RGBA buffer would not be addressable, or the rendering of
/// the resized grid.
pub open spec fn pipeline_spec(
    pix: Seq<Rgba>,
    img_w: u32,
    img_h: u32,
    target_w: Option<u32>,
    target_h: Option<u32>,
    color: bool,
    cols: u32,
    rows: u32,
) -> Result<Seq<Seq<char>>, DimensionError> {
    match resolve_spec(img_w, img_h, target_w, target_h, cols, rows) {
        Err(e) => Err(e),
        Ok(dims) => if dims.0 as int * dims.1 as int > usize::MAX as int / 4 {
            Err(DimensionError::TooLarge)
        } else {
            Ok(
                art_spec(
                    resized_of(pix, img_w as int, img_h as int, dims.0 as int, dims.1 as int),
                    dims.0 as int,
                    dims.1 as int,
                    color,
                ),
            )
        },
    }
}

/// The returned lines, seen as character sequences, are exactly what the
/// pipeline promises.
pub open spec fn lines_match(
    r: Result<Vec<String>, DimensionError>,
    s: Result<Seq<Seq<char>>, DimensionError>,
) -> bool {
    match (r, s) {
        (Ok(v), Ok(lines)) => v@.map_values(|x: String| x@) == lines,
        (Err(e1), Err(e2)) => e1 == e2,
        _ => false,
    }
}

/// The whole conversion: resolves the output grid (querying the terminal
/// only when both explicit sizes are absent), resizes the image to it
/// with nearest-neighbor sampling, and renders it line by line.
///
/// With at least one explicit size the result is pinned exactly; with
/// neither, it is the pipeline's result for whatever size the live
/// terminal reported, or `TerminalUnavailable`.
pub fn img_to_ascii_art(img: Img, config: &Config) -> (r: Result<Vec<String>, DimensionError>)
    requires
        img.wf(),
        img.spec_width() >= 1,
        img.spec_height() >= 1,
    ensures
        !(config.width is None && config.height is None) ==> lines_match(
            r,
            pipeline_spec(
                img.spec_pixels(),
                img.spec_width(),
                img.spec_height(),
                config.width,
                config.height,
                config.color,
                0,
                0,
            ),
        ),
        (config.width is None && config.height is None) ==> (r == Err::<
            Vec<String>,
            DimensionError,
        >(DimensionError::TerminalUnavailable) || exists|c: u32, rw: u32|
            lines_match(
                r,
                pipeline_spec(
                    img.spec_pixels(),
                    img.spec_width(),
                    img.spec_height(),
                    config.width,
                    config.height,
                    config.color,
                    c,
                    rw,
                ),
            )),
{
    let dims = build_target_dimensions(img.width(), img.height(), config.width, config.height);
    let ghost both_unset = config.width is None && config.height is None;
    let ghost terminal_gone = dims == Err::<(u32, u32), DimensionError>(
        DimensionError::TerminalUnavailable,
    );
    let ghost picked: (u32, u32) = if both_unset {
        choose|c: u32, rw: u32|
            dims == resolve_spec(
                img.spec_width(),
                img.spec_height(),
                config.width,
                config.height,
                c,
                rw,
            )
    } else {
        (0u32, 0u32)
    };
    proof {
        if !(both_unset && terminal_gone) {
            assert(dims == resolve_spec(
                img.spec_width(),
                img.spec_height(),
                config.width,
                config.height,
                picked.0,
                picked.1,
            ));
        }
    }
    match dims {
        Err(e) => {
            proof {
                if !(both_unset && terminal_gone) {
                    assert(lines_match(
                        Err::<Vec<String>, DimensionError>(e),
                        pipeline_spec(
                            img.spec_pixels(),
                            img.spec_width(),
                            img.spec_height(),
                            config.width,
                            config.height,
                            config.color,
                            picked.0,
                            picked.1,
                        ),
                    ));
                }
            }
            Err(e)
        },
        Ok((w, h)) => {
            proof {
                assert(w as int * h as int <= 0xffff_ffff * 0xffff_ffff) by (nonlinear_arith)
                    requires
                        w as int <= 0xffff_ffff,
                        h as int <= 0xffff_ffff,
                ;
            }
            let cells: u64 = (w as u64) * (h as u64);
            if cells > (usize::MAX / 4) as u64 {
                proof {
                    assert(lines_match(
                        Err::<Vec<String>, DimensionError>(DimensionError::TooLarge),
                        pipeline_spec(
                            img.spec_pixels(),
                            img.spec_width(),
                            img.spec_height(),
                            config.width,
                            config.height,
                            config.color,
                            picked.0,
                            picked.1,
                        ),
                    ));
                }
                Err(DimensionError::TooLarge)
            } else {
                let resized = resize_img(&img, w, h);
                let lines = generate_ascii_art(&resized, config.color);
                proof {
                    assert(lines_match(
                        Ok::<Vec<String>, DimensionError>(lines),
                        pipeline_spec(
                            img.spec_pixels(),
                            img.spec_width(),
                            img.spec_height(),
                            config.width,
                            config.height,
                            config.color,
                            picked.0,
                            picked.1,
                        ),
                    ));
                }
                Ok(lines)
            }
        },
    }
}

/// Running the generator twice on the same image, configuration and
/// terminal size yields byte-identical output: the pipeline hides no
/// nondeterminism.
pub proof fn lemma_pipeline_deterministic(
    pix: Seq<Rgba>,
    img_w: u32,
    img_h: u32,
    target_w: Option<u32>,
    target_h: Option<u32>,
    color: bool,
    cols: u32,
    rows: u32,
    r1: Result<Vec<String>, DimensionError>,
    r2: Result<Vec<String>, DimensionError>,
)
    requires
        lines_match(r1, pipeline_spec(pix, img_w, img_h, target_w, target_h, color, cols, rows)),
        lines_match(r2, pipeline_spec(pix, img_w, img_h, target_w, target_h, color, cols, rows)),
    ensures
        r1 is Ok <==> r2 is Ok,
        r1 is Ok ==> r1->Ok_0@.map_values(|s: String| s@) == r2->Ok_0@.map_values(|s: String| s@),
        r1 is Err ==> r1->Err_0 == r2->Err_0,
{
}

} // verus!
