//! Pixel buffers, render grids, and the downsampler between them.
//!
//! A decoded frame arrives as a dense row-major buffer of three-channel
//! samples in the decoder's native channel order. The downsampler resamples
//! it to exactly the requested grid with a nearest-neighbor policy — the
//! interpolation filter is a swappable policy, while the grid dimensions and
//! the conversion of the native channel order into canonical R,G,B are the
//! load-bearing contract.

use vstd::prelude::*;

verus! {

/// One rendered cell's color, in canonical red, green, blue order.
#[derive(Clone, Copy, Debug, PartialEq, Eq, Structural)]
pub struct Rgb {
    pub r: u8,
    pub g: u8,
    pub b: u8,
}

/// The channel order a frame's samples are stored in.
#[derive(Clone, Copy, Debug, PartialEq, Eq, Structural)]
pub enum ChannelOrder {
    Rgb,
    Bgr,
}

/// A decoded frame: a dense row-major `width` by `height` grid of
/// three-channel byte samples in the given channel order.
pub struct FrameBuffer {
    pub width: usize,
    pub height: usize,
    pub order: ChannelOrder,
    pub data: Vec<u8>,
}

impl FrameBuffer {
    /// A frame has positive dimensions and exactly three bytes per pixel.
    pub open spec fn well_formed(self) -> bool {
        &&& self.width >= 1
        &&& self.height >= 1
        &&& self.data@.len() == 3 * (self.height * self.width)
    }

    /// The source pixel at row `sy`, column `sx`, with its channels put into
    /// canonical R,G,B order.
    pub open spec fn pixel(self, sy: int, sx: int) -> Rgb {
        let base = 3 * (sy * self.width + sx);
        match self.order {
            ChannelOrder::Rgb => Rgb {
                r: self.data@[base],
                g: self.data@[base + 1],
                b: self.data@[base + 2],
            },
            ChannelOrder::Bgr => Rgb {
                r: self.data@[base + 2],
                g: self.data@[base + 1],
                b: self.data@[base],
            },
        }
    }

    /// The color a `columns` by `rows` resampling of this frame gives to the
    /// target cell at row `y`, column `x`: the nearest source pixel under the
    /// truncating coordinate map.
    pub open spec fn sample(self, columns: int, rows: int, y: int, x: int) -> Rgb {
        self.pixel(y * self.height / rows, x * self.width / columns)
    }
}

/// The color of the `i`-th cell, in row-major order, of a `columns` by
/// `rows` resampling of `f`.
pub open spec fn cell_at(f: FrameBuffer, columns: int, rows: int, i: int) -> Rgb {
    f.sample(columns, rows, i / columns, i % columns)
}

/// All cells, in row-major order, of a `columns` by `rows` resampling of `f`.
pub open spec fn downsampled_cells(f: FrameBuffer, columns: int, rows: int) -> Seq<Rgb> {
    Seq::new((rows * columns) as nat, |i: int| cell_at(f, columns, rows, i))
}

/// Law: a resampling to `columns` by `rows` has exactly `rows * columns`
/// cells — the requested dimensions, never a partial result — whatever the
/// source frame's dimensions or contents. Together with [`downsample`]'s
/// contract this fixes the output grid's size for every input.
pub proof fn lemma_downsample_dimensions(f: FrameBuffer, columns: int, rows: int)
    requires
        columns >= 0,
        rows >= 0,
    ensures
        downsampled_cells(f, columns, rows).len() == rows * columns,
{
    vstd::arithmetic::mul::lemma_mul_nonnegative(rows, columns);
}

/// A frame resized to the character grid: a dense row-major `columns` by
/// `rows` grid of canonical R,G,B cells.
pub struct RenderGrid {
    pub columns: usize,
    pub rows: usize,
    pub cells: Vec<Rgb>,
}

impl RenderGrid {
    /// A grid holds exactly one cell per position.
    pub open spec fn well_formed(self) -> bool {
        self.cells@.len() == self.rows * self.columns
    }
}

/// Maps target coordinate `t` of an axis `target_len` long onto a source axis
/// `source_len` long by the truncating nearest-neighbor map.
fn map_coord(t: usize, target_len: usize, source_len: usize) -> (s: usize)
    requires
        t < target_len,
        source_len >= 1,
    ensures
        s == (t as int) * (source_len as int) / (target_len as int),
        s < source_len,
{
    assert((t as int) * (source_len as int) <= 0xffff_ffff_ffff_ffff * 0xffff_ffff_ffff_ffff)
        by (nonlinear_arith)
        requires
            t as int <= 0xffff_ffff_ffff_ffff,
            source_len as int <= 0xffff_ffff_ffff_ffff,
    ;
    let wide: u128 = (t as u128) * (source_len as u128) / (target_len as u128);
    proof {
        vstd::arithmetic::mul::lemma_mul_strict_inequality(
            t as int,
            target_len as int,
            source_len as int,
        );
        vstd::arithmetic::div_mod::lemma_multiply_divide_lt(
            (t as int) * (source_len as int),
            target_len as int,
            source_len as int,
        );
    }
    wide as usize
}

/// Resamples `frame` to exactly `columns` by `rows` cells, converting the
/// native channel order to canonical R,G,B. The output dimensions are always
/// exactly the requested ones, whatever the source dimensions.
pub fn downsample(frame: &FrameBuffer, columns: usize, rows: usize) -> (g: RenderGrid)
    requires
        frame.well_formed(),
        columns >= 1,
        rows >= 1,
        rows * columns <= usize::MAX,
    ensures
        g.well_formed(),
        g.columns == columns,
        g.rows == rows,
        g.cells@ == downsampled_cells(*frame, columns as int, rows as int),
{
    let mut cells: Vec<Rgb> = Vec::new();
    let mut y: usize = 0;
    while y < rows
        invariant
            frame.well_formed(),
            columns >= 1,
            rows >= 1,
            rows * columns <= usize::MAX,
            y <= rows,
            cells@.len() == y * columns,
            forall|i: int|
                0 <= i < cells@.len() ==> cells@[i] == cell_at(
                    *frame,
                    columns as int,
                    rows as int,
                    i,
                ),
        decreases rows - y,
    {
        let sy: usize = map_coord(y, rows, frame.height);
        let mut x: usize = 0;
        assert(y * columns + columns <= rows * columns) by (nonlinear_arith)
            requires
                y < rows,
                columns >= 1,
        ;
        while x < columns
            invariant
                frame.well_formed(),
                columns >= 1,
                rows >= 1,
                y < rows,
                x <= columns,
                sy == (y as int) * (frame.height as int) / (rows as int),
                sy < frame.height,
                y * columns + columns <= rows * columns,
                rows * columns <= usize::MAX,
                cells@.len() == y * columns + x,
                forall|i: int|
                    0 <= i < cells@.len() ==> cells@[i] == cell_at(
                        *frame,
                        columns as int,
                        rows as int,
                        i,
                    ),
            decreases columns - x,
        {
            let sx: usize = map_coord(x, columns, frame.width);
            let n: usize = frame.data.len();
            assert(sy * frame.width + sx < frame.height * frame.width) by (nonlinear_arith)
                requires
                    sy < frame.height,
                    sx < frame.width,
            ;
            assert(3 * (sy * frame.width + sx) + 2 < n);
            let base: usize = 3 * (sy * frame.width + sx);
            let c0: u8 = frame.data[base];
            let c1: u8 = frame.data[base + 1];
            let c2: u8 = frame.data[base + 2];
            let cell: Rgb = match frame.order {
                ChannelOrder::Rgb => Rgb { r: c0, g: c1, b: c2 },
                ChannelOrder::Bgr => Rgb { r: c2, g: c1, b: c0 },
            };
            proof {
                vstd::arithmetic::div_mod::lemma_fundamental_div_mod_converse(
                    y * columns + x,
                    columns as int,
                    y as int,
                    x as int,
                );
            }
            cells.push(cell);
            x = x + 1;
        }
        y = y + 1;
        assert(cells@.len() == y * columns) by (nonlinear_arith)
            requires
                cells@.len() == (y - 1) * columns + columns,
        ;
    }
    proof {
        assert(cells@ =~= downsampled_cells(*frame, columns as int, rows as int));
    }
    RenderGrid { columns, rows, cells }
}

} // verus!
