//! Resolves the character-grid dimensions the renderer targets.
//!
//! A character cell is roughly twice as tall as it is wide, so a source with
//! aspect ratio `sw / sh` occupies a grid whose column-to-row ratio is about
//! `2 * sw / sh`. Given a terminal of `w` columns and `h` rows, whichever
//! dimension exceeds that ratio is clamped; without a terminal size a fixed
//! 20-row fallback is used. The source aspect ratio is carried exactly as the
//! pair of source pixel dimensions, so all arithmetic is exact until the final
//! truncating division.

use vstd::prelude::*;

verus! {

/// The character-grid size that downsampling and rendering target.
#[derive(Clone, Copy, PartialEq, Eq, Structural)]
pub struct TerminalGeometry {
    pub columns: u64,
    pub rows: u64,
}

/// Holds when the terminal is wide enough that its width must be clamped.
pub open spec fn width_clamped(w: int, h: int, sw: int, sh: int) -> bool {
    w * sh > 2 * h * sw
}

/// Columns resolved from a terminal of `w` columns and `h` rows for a source
/// of `sw` by `sh` pixels.
pub open spec fn fit_columns(w: int, h: int, sw: int, sh: int) -> int {
    if width_clamped(w, h, sw, sh) {
        2 * h * sw / sh
    } else {
        w
    }
}

/// Rows resolved from a terminal of `w` columns and `h` rows for a source of
/// `sw` by `sh` pixels.
pub open spec fn fit_rows(w: int, h: int, sw: int, sh: int) -> int {
    if width_clamped(w, h, sw, sh) {
        h
    } else {
        w * sh / (2 * sw)
    }
}

/// Columns of the fallback geometry: 20 rows, width matching the aspect ratio.
pub open spec fn fallback_columns(sw: int, sh: int) -> int {
    20 * sw / sh
}

/// Resolves the target grid from the queried terminal size, or from the fixed
/// 20-row fallback when no terminal size is available.
pub fn resolve_geometry(term: Option<(u16, u16)>, src_width: u32, src_height: u32) -> (g:
    TerminalGeometry)
    requires
        src_width >= 1,
        src_height >= 1,
        term matches Some(wh) ==> wh.0 >= 1 && wh.1 >= 1,
    ensures
        match term {
            Some(wh) => g.columns == fit_columns(
                wh.0 as int,
                wh.1 as int,
                src_width as int,
                src_height as int,
            ) && g.rows == fit_rows(wh.0 as int, wh.1 as int, src_width as int, src_height as int),
            None => g.columns == fallback_columns(src_width as int, src_height as int) && g.rows
                == 20,
        },
{
    let sw: u64 = src_width as u64;
    let sh: u64 = src_height as u64;
    match term {
        Some((w, h)) => {
            let w64: u64 = w as u64;
            let h64: u64 = h as u64;
            assert(w64 * sh <= 0xffff * 0xffff_ffff) by (nonlinear_arith)
                requires
                    w64 <= 0xffff,
                    sh <= 0xffff_ffff,
            ;
            assert(h64 * sw <= 0xffff * 0xffff_ffff) by (nonlinear_arith)
                requires
                    h64 <= 0xffff,
                    sw <= 0xffff_ffff,
            ;
            proof {
                vstd::arithmetic::mul::lemma_mul_is_associative(2, h64 as int, sw as int);
            }
            if w64 * sh > 2 * (h64 * sw) {
                TerminalGeometry { columns: 2 * (h64 * sw) / sh, rows: h64 }
            } else {
                TerminalGeometry { columns: w64, rows: w64 * sh / (2 * sw) }
            }
        },
        None => TerminalGeometry { columns: 20 * sw / sh, rows: 20 },
    }
}

/// Law: for every positive terminal size and source size, the resolved grid
/// fits inside the terminal (`columns <= w` and `rows <= h`) and its
/// column-to-row ratio matches twice the source aspect ratio `sw / sh` to
/// within one truncation unit, stated over the integers as
/// `2 * rows * sw < (columns + 1) * sh` and
/// `columns * sh < 2 * (rows + 1) * sw`: one truncating division away from
/// `columns / rows == 2 * sw / sh` in either direction.
pub proof fn lemma_geometry_fit(w: int, h: int, sw: int, sh: int)
    requires
        1 <= w,
        1 <= h,
        1 <= sw,
        1 <= sh,
    ensures
        fit_columns(w, h, sw, sh) <= w,
        fit_rows(w, h, sw, sh) <= h,
        2 * fit_rows(w, h, sw, sh) * sw < (fit_columns(w, h, sw, sh) + 1) * sh,
        fit_columns(w, h, sw, sh) * sh < 2 * (fit_rows(w, h, sw, sh) + 1) * sw,
{
    if width_clamped(w, h, sw, sh) {
        let d: int = 2 * h * sw;
        let c: int = d / sh;
        vstd::arithmetic::div_mod::lemma_fundamental_div_mod(d, sh);
        vstd::arithmetic::div_mod::lemma_mod_bound(d, sh);
        assert(c * sh <= d) by (nonlinear_arith)
            requires
                d == sh * c + d % sh,
                0 <= d % sh,
        ;
        assert(d < (c + 1) * sh) by (nonlinear_arith)
            requires
                d == sh * c + d % sh,
                d % sh < sh,
        ;
        assert(c < w) by (nonlinear_arith)
            requires
                c * sh <= d,
                d < w * sh,
                sh >= 1,
                c >= 0,
        ;
        assert(2 * h * sw < 2 * (h + 1) * sw) by (nonlinear_arith)
            requires
                sw >= 1,
        ;
    } else {
        let d: int = w * sh;
        let m: int = 2 * sw;
        let r: int = d / m;
        vstd::arithmetic::div_mod::lemma_fundamental_div_mod(d, m);
        vstd::arithmetic::div_mod::lemma_mod_bound(d, m);
        assert(r * m <= d) by (nonlinear_arith)
            requires
                d == m * r + d % m,
                0 <= d % m,
        ;
        assert(d < (r + 1) * m) by (nonlinear_arith)
            requires
                d == m * r + d % m,
                d % m < m,
        ;
        assert(r <= h) by (nonlinear_arith)
            requires
                r * m <= d,
                d <= 2 * h * sw,
                m == 2 * sw,
                sw >= 1,
                r >= 0,
        ;
        assert(2 * r * sw <= d && d < 2 * (r + 1) * sw) by (nonlinear_arith)
            requires
                r * m <= d,
                d < (r + 1) * m,
                m == 2 * sw,
        ;
        assert(w * sh < (w + 1) * sh) by (nonlinear_arith)
            requires
                sh >= 1,
        ;
    }
}

} // verus!
