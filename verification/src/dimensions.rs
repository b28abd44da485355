//! The Dimension Resolver: turns the source image's size, the optional
//! explicit target sizes and (when both are absent) the terminal's size
//! into the output grid's dimensions, preserving the image's aspect ratio.

use vstd::prelude::*;
use vstd::arithmetic::div_mod::lemma_div_is_ordered;
use vstd::arithmetic::div_mod::lemma_fundamental_div_mod_converse_div;

verus! {

/// Why a conversion run cannot go on.
#[derive(Clone, Copy, PartialEq, Eq, Structural, Debug)]
pub enum DimensionError {
    /// The resolved grid width is zero.
    WidthTooSmall,
    /// The resolved grid height is zero.
    HeightTooSmall,
    /// The resolved grid is too large for a raw RGBA buffer to be addressable.
    TooLarge,
    /// Both target sizes were left open and no terminal size could be queried.
    TerminalUnavailable,
}

/// `a * b / d`, truncating toward zero and saturating at `u32::MAX`,
/// the way a float ratio cast to `u32` would.
pub open spec fn scale_trunc(a: int, b: int, d: int) -> int {
    let v = (a * b) / d;
    if v > u32::MAX as int {
        u32::MAX as int
    } else {
        v
    }
}

/// The terminal is relatively wider than the image:
/// `cols / rows > img_w / img_h`, compared without division.
pub open spec fn terminal_wider(img_w: int, img_h: int, cols: int, rows: int) -> bool {
    cols * img_h > rows * img_w
}

/// The width the resolution policy picks, before the zero check.
pub open spec fn resolved_width(
    img_w: u32,
    img_h: u32,
    target_w: Option<u32>,
    target_h: Option<u32>,
    cols: u32,
    rows: u32,
) -> int {
    match (target_w, target_h) {
        (Some(ww), _) => ww as int,
        (None, Some(hh)) => scale_trunc(img_w as int, hh as int, img_h as int),
        (None, None) => if terminal_wider(img_w as int, img_h as int, cols as int, rows as int) {
            scale_trunc(img_w as int, rows as int, img_h as int)
        } else {
            cols as int
        },
    }
}

/// The height the resolution policy picks, before the zero check.
pub open spec fn resolved_height(
    img_w: u32,
    img_h: u32,
    target_w: Option<u32>,
    target_h: Option<u32>,
    cols: u32,
    rows: u32,
) -> int {
    match (target_w, target_h) {
        (_, Some(hh)) => hh as int,
        (Some(ww), None) => scale_trunc(img_h as int, ww as int, img_w as int),
        (None, None) => if terminal_wider(img_w as int, img_h as int, cols as int, rows as int) {
            rows as int
        } else {
            scale_trunc(img_h as int, cols as int, img_w as int)
        },
    }
}

/// The whole resolution policy: the picked pair, or the error a zero
/// dimension forces, width checked first.
pub open spec fn resolve_spec(
    img_w: u32,
    img_h: u32,
    target_w: Option<u32>,
    target_h: Option<u32>,
    cols: u32,
    rows: u32,
) -> Result<(u32, u32), DimensionError> {
    let w = resolved_width(img_w, img_h, target_w, target_h, cols, rows);
    let h = resolved_height(img_w, img_h, target_w, target_h, cols, rows);
    if w == 0 {
        Err(DimensionError::WidthTooSmall)
    } else if h == 0 {
        Err(DimensionError::HeightTooSmall)
    } else {
        Ok((w as u32, h as u32))
    }
}

/// `a * b / d`, truncating, saturating at `u32::MAX`.
fn scale_dim(a: u32, b: u32, d: u32) -> (r: u32)
    requires
        d >= 1,
    ensures
        r as int == scale_trunc(a as int, b as int, d as int),
{
    proof {
        assert(a as int * b as int <= 0xffff_ffff * 0xffff_ffff) by (nonlinear_arith)
            requires
                a as int <= 0xffff_ffff,
                b as int <= 0xffff_ffff,
        ;
    }
    let p: u64 = a as u64 * b as u64;
    let q: u64 = p / (d as u64);
    if q > u32::MAX as u64 {
        u32::MAX
    } else {
        q as u32
    }
}

/// Resolves the output grid from the image size, the optional explicit
/// sizes, and the terminal size (read only when both explicit sizes are
/// absent).
///
/// Policy, in priority order: both explicit sizes are kept verbatim; a
/// single explicit size keeps that axis and scales the other by the
/// image's aspect ratio, truncating; with neither given, the tighter
/// terminal axis is kept and the other is scaled, so the grid fits the
/// terminal. A zero on either axis is the only failure.
pub fn resolve_dimensions(
    img_w: u32,
    img_h: u32,
    target_w: Option<u32>,
    target_h: Option<u32>,
    cols: u32,
    rows: u32,
) -> (r: Result<(u32, u32), DimensionError>)
    requires
        img_w >= 1,
        img_h >= 1,
    ensures
        r == resolve_spec(img_w, img_h, target_w, target_h, cols, rows),
        // explicit sizes are returned exactly as given
        (target_w is Some && target_h is Some && target_w->0 >= 1 && target_h->0 >= 1) ==> r
            == Ok::<(u32, u32), DimensionError>((target_w->0, target_h->0)),
        // only the height given: the width follows the aspect ratio, truncating
        (target_w is None && target_h is Some && r is Ok) ==> r->Ok_0.0 as int == scale_trunc(
            img_w as int,
            target_h->0 as int,
            img_h as int,
        ) && r->Ok_0.1 == target_h->0,
        // only the width given: the height follows the aspect ratio, truncating
        (target_w is Some && target_h is None && r is Ok) ==> r->Ok_0.0 == target_w->0
            && r->Ok_0.1 as int == scale_trunc(img_h as int, target_w->0 as int, img_w as int),
        // a zero resolved dimension is the only failure, width checked first
        r is Err <==> (resolved_width(img_w, img_h, target_w, target_h, cols, rows) == 0
            || resolved_height(img_w, img_h, target_w, target_h, cols, rows) == 0),
        r == Err::<(u32, u32), DimensionError>(DimensionError::WidthTooSmall) <==> resolved_width(
            img_w,
            img_h,
            target_w,
            target_h,
            cols,
            rows,
        ) == 0,
{
    let (w, h) = match (target_w, target_h) {
        (Some(ww), Some(hh)) => (ww, hh),
        (None, Some(hh)) => (scale_dim(img_w, hh, img_h), hh),
        (Some(ww), None) => (ww, scale_dim(img_h, ww, img_w)),
        (None, None) => {
            proof {
                assert(cols as int * img_h as int <= 0xffff_ffff * 0xffff_ffff
                    && rows as int * img_w as int <= 0xffff_ffff * 0xffff_ffff)
                    by (nonlinear_arith)
                    requires
                        cols as int <= 0xffff_ffff,
                        img_h as int <= 0xffff_ffff,
                        rows as int <= 0xffff_ffff,
                        img_w as int <= 0xffff_ffff,
                ;
            }
            let wider = (cols as u64) * (img_h as u64) > (rows as u64) * (img_w as u64);
            if wider {
                (scale_dim(img_w, rows, img_h), rows)
            } else {
                (cols, scale_dim(img_h, cols, img_w))
            }
        },
    };
    if w == 0 {
        Err(DimensionError::WidthTooSmall)
    } else if h == 0 {
        Err(DimensionError::HeightTooSmall)
    } else {
        Ok((w, h))
    }
}

/// With both explicit sizes absent, the resolved grid fits inside the
/// terminal: the kept axis is the terminal's own, and the scaled axis
/// never overshoots the other terminal dimension.
pub proof fn lemma_terminal_fit(img_w: u32, img_h: u32, cols: u32, rows: u32)
    requires
        img_w >= 1,
        img_h >= 1,
    ensures
        resolved_width(img_w, img_h, None, None, cols, rows) <= cols,
        resolved_height(img_w, img_h, None, None, cols, rows) <= rows,
{
    let iw = img_w as int;
    let ih = img_h as int;
    let c = cols as int;
    let r = rows as int;
    if terminal_wider(iw, ih, c, r) {
        // r * iw < c * ih, so (iw * r) / ih <= c - 1
        assert(iw * r == r * iw) by (nonlinear_arith);
        assert(r * iw <= c * ih - 1);
        lemma_div_is_ordered(iw * r, c * ih - 1, ih);
        assert(c * ih - 1 == (c - 1) * ih + (ih - 1)) by (nonlinear_arith);
        lemma_fundamental_div_mod_converse_div(c * ih - 1, ih, c - 1, ih - 1);
        assert((c * ih - 1) / ih == c - 1);
    } else {
        // c * ih <= r * iw, so (ih * c) / iw <= r
        assert(ih * c == c * ih) by (nonlinear_arith);
        lemma_div_is_ordered(ih * c, r * iw, iw);
        assert(r * iw == r * iw + 0) by (nonlinear_arith);
        lemma_fundamental_div_mod_converse_div(r * iw, iw, r, 0);
        assert((r * iw) / iw == r);
    }
}

/// Relies on `termsize::get`: the attached terminal's current column and
/// row count, if one can be queried; the result depends on the live
/// terminal state, so nothing is promised of it.
#[verifier::external_body]
fn query_terminal_size() -> (r: Option<(u32, u32)>) {
    termsize::get().map(|s| (s.cols as u32, s.rows as u32))
}

/// Resolves the output grid, querying the terminal afresh when both
/// explicit sizes are absent.
///
/// With at least one explicit size the result is exactly the resolution
/// policy's. With neither, the result is the policy's for whatever size
/// the live terminal reported, or `TerminalUnavailable` when it could
/// not be queried.
pub fn build_target_dimensions(
    img_w: u32,
    img_h: u32,
    target_w: Option<u32>,
    target_h: Option<u32>,
) -> (r: Result<(u32, u32), DimensionError>)
    requires
        img_w >= 1,
        img_h >= 1,
    ensures
        !(target_w is None && target_h is None) ==> r == resolve_spec(
            img_w,
            img_h,
            target_w,
            target_h,
            0,
            0,
        ),
        (target_w is None && target_h is None) ==> (r == Err::<
            (u32, u32),
            DimensionError,
        >(DimensionError::TerminalUnavailable) || exists|c: u32, rw: u32|
            r == resolve_spec(img_w, img_h, target_w, target_h, c, rw)),
{
    if target_w.is_none() && target_h.is_none() {
        match query_terminal_size() {
            None => Err(DimensionError::TerminalUnavailable),
            Some((c, rw)) => {
                let res = resolve_dimensions(img_w, img_h, None, None, c, rw);
                proof {
                    assert(res == resolve_spec(img_w, img_h, target_w, target_h, c, rw));
                }
                res
            },
        }
    } else {
        resolve_dimensions(img_w, img_h, target_w, target_h, 0, 0)
    }
}

} // verus!
