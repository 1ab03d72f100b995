use canvas_backend::geometry::{
    cell_baseline, cell_origin, grid_size, pixel_size, saturate, Size, Viewport, CELL_WIDTH,
    FONT_SIZE, LINE_HEIGHT,
};

fn viewport(width: u32, height: u32) -> Viewport {
    Viewport { width, height, device_width: width, device_height: height }
}

#[test]
fn cells_are_sixteen_by_eighteen() {
    assert_eq!(CELL_WIDTH, 16);
    assert_eq!(LINE_HEIGHT, 18);
    assert_eq!(FONT_SIZE, 16);
}

#[test]
fn origin_of_the_first_cell() {
    assert_eq!(cell_origin(0, 0), (0, 5));
}

#[test]
fn origin_of_an_inner_cell() {
    assert_eq!(cell_origin(3, 2), (48, 41));
}

#[test]
fn origin_of_the_last_cell() {
    assert_eq!(cell_origin(65535, 65535), (1_048_560, 1_179_635));
}

#[test]
fn baseline_lies_seventeen_below_the_top() {
    assert_eq!(cell_baseline(0), 22);
    assert_eq!(cell_baseline(2), 58);
    assert_eq!(cell_baseline(65535), 1_179_652);
}

#[test]
fn grid_is_bounds_over_cell_size() {
    assert_eq!(grid_size(&viewport(160, 180)), Size { width: 10, height: 10 });
    assert_eq!(grid_size(&viewport(320, 360)), Size { width: 20, height: 20 });
}

#[test]
fn grid_counts_whole_cells_only() {
    assert_eq!(grid_size(&viewport(175, 197)), Size { width: 10, height: 10 });
    assert_eq!(grid_size(&viewport(176, 198)), Size { width: 11, height: 11 });
    assert_eq!(grid_size(&viewport(15, 17)), Size { width: 0, height: 0 });
}

#[test]
fn collapsed_surface_has_an_empty_grid() {
    assert_eq!(grid_size(&viewport(0, 0)), Size { width: 0, height: 0 });
    assert_eq!(grid_size(&viewport(0, 180)), Size { width: 0, height: 10 });
}

#[test]
fn grid_stops_at_sixteen_bits() {
    assert_eq!(grid_size(&viewport(16 * 65535, 18 * 65535)), Size { width: 65535, height: 65535 });
    assert_eq!(grid_size(&viewport(16 * 65536, 18 * 65536)), Size { width: 65535, height: 65535 });
    assert_eq!(grid_size(&viewport(u32::MAX, u32::MAX)), Size { width: 65535, height: 65535 });
}

#[test]
fn saturate_keeps_what_fits() {
    assert_eq!(saturate(0), 0);
    assert_eq!(saturate(65535), 65535);
    assert_eq!(saturate(65536), 65535);
    assert_eq!(saturate(u32::MAX), 65535);
}

#[test]
fn pixel_size_is_the_device_size() {
    let reading = Viewport { width: 160, height: 180, device_width: 320, device_height: 360 };
    assert_eq!(pixel_size(&reading), Size { width: 320, height: 360 });
    let wide = Viewport { width: 160, height: 180, device_width: 70000, device_height: 65535 };
    assert_eq!(pixel_size(&wide), Size { width: 65535, height: 65535 });
}
