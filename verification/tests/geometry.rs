use termplay::geometry::resolve_geometry;

#[test]
fn fallback_aspect_two_gives_40_by_20() {
    // aspect ratio 2.0 carried as 1920/960; no terminal size available.
    let g = resolve_geometry(None, 1920, 960);
    assert_eq!(g.columns, 40);
    assert_eq!(g.rows, 20);
}

#[test]
fn fallback_truncates_columns() {
    // aspect ratio 4/3: 20 * 4 / 3 = 26 after truncation.
    let g = resolve_geometry(None, 4, 3);
    assert_eq!(g.columns, 26);
    assert_eq!(g.rows, 20);
}

#[test]
fn wide_terminal_clamps_width() {
    // 100 * 1 > 2 * 10 * 2, so the width is clamped to 2 * 10 * 2 / 1 = 40.
    let g = resolve_geometry(Some((100, 10)), 2, 1);
    assert_eq!(g.columns, 40);
    assert_eq!(g.rows, 10);
    assert!(g.columns <= 100);
    assert!(g.rows <= 10);
    // columns / rows == 4 == 2 * aspect ratio, exactly here.
    assert_eq!(g.columns / g.rows, 4);
}

#[test]
fn narrow_terminal_clamps_height() {
    // 10 * 1 > 2 * 10 * 1 fails, so the rows are clamped to 10 * 1 / (2 * 1) = 5.
    let g = resolve_geometry(Some((10, 10)), 1, 1);
    assert_eq!(g.columns, 10);
    assert_eq!(g.rows, 5);
    assert!(g.columns <= 10);
    assert!(g.rows <= 10);
    // columns / rows == 2 == 2 * aspect ratio, exactly here.
    assert_eq!(g.columns / g.rows, 2);
}

#[test]
fn clamped_height_truncates() {
    // 15 * 1 > 2 * 10 * 1 fails; rows = 15 * 1 / (2 * 1) = 7 after truncation,
    // and the 15x7 grid fits the 15x10 terminal.
    let g = resolve_geometry(Some((15, 10)), 1, 1);
    assert_eq!(g.columns, 15);
    assert_eq!(g.rows, 7);
}

#[test]
fn tall_source_on_tiny_terminal_resolves_to_zero_columns() {
    // 1 * 100 > 2 * 1 * 1, clamp width: 2 * 1 * 1 / 100 truncates to 0.
    let g = resolve_geometry(Some((1, 1)), 1, 100);
    assert_eq!(g.columns, 0);
    assert_eq!(g.rows, 1);
}
