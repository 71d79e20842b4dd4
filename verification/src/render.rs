//! Converts a render grid into ANSI truecolor escape sequences.
//!
//! A frame is one cursor-home sequence followed, row by row, by one
//! background-color sequence and one space per cell, each row closed by a
//! reset sequence and a newline. Channel values are written as plain decimal
//! numbers; the separate foreground helper pads each channel to three digits,
//! which is cosmetic only. The exact bytes of every sequence are fixed by the
//! spec functions here, and the builders are proved to produce them.

use vstd::prelude::*;

verus! {

use crate::pixels::{RenderGrid, Rgb};

/// The ASCII byte of the decimal digit `d`.
pub open spec fn digit_byte(d: int) -> u8 {
    (48 + d) as u8
}

/// The shortest decimal encoding of `n`, as ASCII bytes.
pub open spec fn dec_bytes(n: u8) -> Seq<u8> {
    if n < 10 {
        seq![digit_byte(n as int)]
    } else if n < 100 {
        seq![digit_byte(n as int / 10), digit_byte(n as int % 10)]
    } else {
        seq![
            digit_byte(n as int / 100),
            digit_byte((n as int / 10) % 10),
            digit_byte(n as int % 10),
        ]
    }
}

/// The cursor-home sequence `ESC [ H`.
pub open spec fn home_bytes() -> Seq<u8> {
    seq![27u8, 91u8, 72u8]
}

/// The attribute-reset sequence `ESC [ 0 m`.
pub open spec fn reset_bytes() -> Seq<u8> {
    seq![27u8, 91u8, 48u8, 109u8]
}

/// One rendered cell: the truecolor background sequence
/// `ESC [ 48 ; 2 ; R ; G ; B m` followed by the space that is the visible
/// pixel.
pub open spec fn cell_bytes(c: Rgb) -> Seq<u8> {
    seq![27u8, 91u8, 52u8, 56u8, 59u8, 50u8, 59u8] + dec_bytes(c.r) + seq![59u8] + dec_bytes(c.g)
        + seq![59u8] + dec_bytes(c.b) + seq![109u8, 32u8]
}

/// The first `count` cells starting at `start`, each rendered by
/// [`cell_bytes`], concatenated in order.
pub open spec fn row_cells_bytes(cells: Seq<Rgb>, start: int, count: int) -> Seq<u8>
    decreases count,
{
    if count <= 0 {
        Seq::empty()
    } else {
        row_cells_bytes(cells, start, count - 1) + cell_bytes(cells[start + count - 1])
    }
}

/// Row `y` of a `columns`-wide grid: its cells, a reset sequence, a newline.
pub open spec fn row_bytes(cells: Seq<Rgb>, columns: int, y: int) -> Seq<u8> {
    row_cells_bytes(cells, y * columns, columns) + reset_bytes() + seq![10u8]
}

/// The first `count` rows of a `columns`-wide grid, concatenated in order.
pub open spec fn rows_bytes(cells: Seq<Rgb>, columns: int, count: int) -> Seq<u8>
    decreases count,
{
    if count <= 0 {
        Seq::empty()
    } else {
        rows_bytes(cells, columns, count - 1) + row_bytes(cells, columns, count - 1)
    }
}

/// A whole rendered frame: cursor home, then every row.
pub open spec fn frame_bytes(columns: int, rows: int, cells: Seq<Rgb>) -> Seq<u8> {
    home_bytes() + rows_bytes(cells, columns, rows)
}

/// Appends the shortest decimal encoding of `n`.
fn push_dec(out: &mut Vec<u8>, n: u8)
    ensures
        final(out)@ == old(out)@ + dec_bytes(n),
{
    if n >= 100 {
        out.push(48 + n / 100);
        out.push(48 + (n / 10) % 10);
        out.push(48 + n % 10);
    } else if n >= 10 {
        out.push(48 + n / 10);
        out.push(48 + n % 10);
    } else {
        out.push(48 + n);
    }
    assert(out@ =~= old(out)@ + dec_bytes(n));
}

/// Appends one rendered cell: background-color sequence plus space.
fn push_cell(out: &mut Vec<u8>, c: Rgb)
    ensures
        final(out)@ == old(out)@ + cell_bytes(c),
{
    out.push(27);
    out.push(91);
    out.push(52);
    out.push(56);
    out.push(59);
    out.push(50);
    out.push(59);
    push_dec(out, c.r);
    out.push(59);
    push_dec(out, c.g);
    out.push(59);
    push_dec(out, c.b);
    out.push(109);
    out.push(32);
    assert(out@ =~= old(out)@ + cell_bytes(c));
}

/// The attribute-reset sequence as a buffer of its own: the bytes emitted
/// once at the end of playback to leave the terminal in a clean state.
pub fn reset_sequence() -> (v: Vec<u8>)
    ensures
        v@ == reset_bytes(),
{
    let mut v: Vec<u8> = Vec::new();
    v.push(27);
    v.push(91);
    v.push(48);
    v.push(109);
    assert(v@ =~= reset_bytes());
    v
}

/// Renders a full frame into one buffer, so the caller can hand it to the
/// output sink as a single batched write.
pub fn render_frame(grid: &RenderGrid) -> (out: Vec<u8>)
    requires
        grid.well_formed(),
    ensures
        out@ == frame_bytes(grid.columns as int, grid.rows as int, grid.cells@),
{
    let ghost cells: Seq<Rgb> = grid.cells@;
    let ghost columns: int = grid.columns as int;
    let n: usize = grid.cells.len();
    let mut out: Vec<u8> = Vec::new();
    out.push(27);
    out.push(91);
    out.push(72);
    assert(out@ =~= home_bytes());
    let mut y: usize = 0;
    while y < grid.rows
        invariant
            grid.well_formed(),
            cells == grid.cells@,
            columns == grid.columns as int,
            n == cells.len(),
            y <= grid.rows,
            out@ == home_bytes() + rows_bytes(cells, columns, y as int),
        decreases grid.rows - y,
    {
        let mut x: usize = 0;
        assert(y * grid.columns + grid.columns <= grid.rows * grid.columns) by (nonlinear_arith)
            requires
                y < grid.rows,
        ;
        while x < grid.columns
            invariant
                grid.well_formed(),
                cells == grid.cells@,
                columns == grid.columns as int,
                n == cells.len(),
                y < grid.rows,
                x <= grid.columns,
                y * grid.columns + grid.columns <= grid.rows * grid.columns,
                out@ == home_bytes() + rows_bytes(cells, columns, y as int) + row_cells_bytes(
                    cells,
                    (y as int) * columns,
                    x as int,
                ),
            decreases grid.columns - x,
        {
            let idx: usize = y * grid.columns + x;
            let c: Rgb = grid.cells[idx];
            push_cell(&mut out, c);
            assert(out@ =~= home_bytes() + rows_bytes(cells, columns, y as int) + row_cells_bytes(
                cells,
                (y as int) * columns,
                x as int + 1,
            ));
            x = x + 1;
        }
        out.push(27);
        out.push(91);
        out.push(48);
        out.push(109);
        out.push(10);
        assert(out@ =~= home_bytes() + rows_bytes(cells, columns, y as int + 1));
        y = y + 1;
    }
    out
}

/// The ASCII digit character `d`.
pub open spec fn digit_char(d: int) -> char {
    if d == 0 {
        '0'
    } else if d == 1 {
        '1'
    } else if d == 2 {
        '2'
    } else if d == 3 {
        '3'
    } else if d == 4 {
        '4'
    } else if d == 5 {
        '5'
    } else if d == 6 {
        '6'
    } else if d == 7 {
        '7'
    } else if d == 8 {
        '8'
    } else {
        '9'
    }
}

/// The decimal encoding of `n` zero-padded to three digits, as characters.
pub open spec fn dec3_chars(n: u8) -> Seq<char> {
    seq![digit_char(n as int / 100), digit_char((n as int / 10) % 10), digit_char(n as int % 10)]
}

/// The truecolor foreground sequence `ESC [ 38 ; 2 ; R ; G ; B m` with each
/// channel zero-padded to three digits.
pub open spec fn foreground_chars(r: u8, g: u8, b: u8) -> Seq<char> {
    seq!['\x1b', '[', '3', '8', ';', '2', ';'] + dec3_chars(r) + seq![';'] + dec3_chars(g)
        + seq![';'] + dec3_chars(b) + seq!['m']
}

/// Appends the single decimal digit `d`.
fn push_digit_char(s: &mut String, d: u8)
    requires
        d <= 9,
    ensures
        final(s)@ == old(s)@ + seq![digit_char(d as int)],
{
    if d == 0 {
        proof {
            reveal_strlit("0");
        }
        s.append("0");
    } else if d == 1 {
        proof {
            reveal_strlit("1");
        }
        s.append("1");
    } else if d == 2 {
        proof {
            reveal_strlit("2");
        }
        s.append("2");
    } else if d == 3 {
        proof {
            reveal_strlit("3");
        }
        s.append("3");
    } else if d == 4 {
        proof {
            reveal_strlit("4");
        }
        s.append("4");
    } else if d == 5 {
        proof {
            reveal_strlit("5");
        }
        s.append("5");
    } else if d == 6 {
        proof {
            reveal_strlit("6");
        }
        s.append("6");
    } else if d == 7 {
        proof {
            reveal_strlit("7");
        }
        s.append("7");
    } else if d == 8 {
        proof {
            reveal_strlit("8");
        }
        s.append("8");
    } else {
        proof {
            reveal_strlit("9");
        }
        s.append("9");
    }
    assert(final(s)@ =~= old(s)@ + seq![digit_char(d as int)]);
}

/// Appends the three-digit zero-padded decimal encoding of `n`.
fn push_dec3(s: &mut String, n: u8)
    ensures
        final(s)@ == old(s)@ + dec3_chars(n),
{
    push_digit_char(s, n / 100);
    push_digit_char(s, (n / 10) % 10);
    push_digit_char(s, n % 10);
    assert(final(s)@ =~= old(s)@ + dec3_chars(n));
}

/// The truecolor foreground sequence for the first three bytes of `c`, each
/// channel zero-padded to three decimal digits.
pub fn true_color(c: &[u8]) -> (r: String)
    requires
        c@.len() >= 3,
    ensures
        r@ == foreground_chars(c@[0], c@[1], c@[2]),
{
    let mut s: String = String::new();
    proof {
        reveal_strlit("\x1b[38;2;");
        reveal_strlit(";");
        reveal_strlit("m");
    }
    s.append("\x1b[38;2;");
    push_dec3(&mut s, c[0]);
    s.append(";");
    push_dec3(&mut s, c[1]);
    s.append(";");
    push_dec3(&mut s, c[2]);
    s.append("m");
    assert(s@ =~= foreground_chars(c@[0], c@[1], c@[2]));
    s
}

} // verus!
