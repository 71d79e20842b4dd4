use termplay::pixels::{RenderGrid, Rgb};
use termplay::render::{render_frame, reset_sequence, true_color};

#[test]
fn single_cell_frame_has_the_exact_escape_sequences() {
    let grid = RenderGrid { columns: 1, rows: 1, cells: vec![Rgb { r: 10, g: 20, b: 30 }] };
    let out = render_frame(&grid);
    assert_eq!(out, b"\x1b[H\x1b[48;2;10;20;30m \x1b[0m\n".to_vec());
    // the background sequence is followed by a space, a reset, a newline
    let needle = b"\x1b[48;2;10;20;30m \x1b[0m\n";
    assert!(out.windows(needle.len()).any(|w| w == needle));
}

#[test]
fn rows_end_with_reset_and_newline() {
    let grid = RenderGrid {
        columns: 2,
        rows: 2,
        cells: vec![
            Rgb { r: 0, g: 0, b: 0 },
            Rgb { r: 255, g: 0, b: 0 },
            Rgb { r: 0, g: 255, b: 0 },
            Rgb { r: 1, g: 2, b: 3 },
        ],
    };
    let out = render_frame(&grid);
    let expected = b"\x1b[H\
        \x1b[48;2;0;0;0m \x1b[48;2;255;0;0m \x1b[0m\n\
        \x1b[48;2;0;255;0m \x1b[48;2;1;2;3m \x1b[0m\n"
        .to_vec();
    assert_eq!(out, expected);
}

#[test]
fn empty_grid_renders_only_the_cursor_home() {
    let grid = RenderGrid { columns: 0, rows: 0, cells: vec![] };
    let out = render_frame(&grid);
    assert_eq!(out, b"\x1b[H".to_vec());
}

#[test]
fn reset_sequence_is_esc_0_m() {
    assert_eq!(reset_sequence(), b"\x1b[0m".to_vec());
}

#[test]
fn true_color_pads_each_channel_to_three_digits() {
    assert_eq!(true_color(&[10, 20, 30]), "\x1b[38;2;010;020;030m");
    assert_eq!(true_color(&[0, 7, 255]), "\x1b[38;2;000;007;255m");
}

#[test]
fn true_color_reads_only_the_first_three_bytes() {
    assert_eq!(true_color(&[150, 150, 150, 99]), "\x1b[38;2;150;150;150m");
}
