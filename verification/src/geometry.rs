//! Fixed monospace cell geometry: from grid coordinates to pixels, and from
//! the pixel bounds of a surface to the grid that fits in it.

use vstd::prelude::*;

verus! {

/// Width of one grid cell, in logical pixels.
pub const CELL_WIDTH: u32 = 16;

/// Height of one grid line, in logical pixels.
pub const LINE_HEIGHT: u32 = 18;

/// Font size of a glyph, in logical pixels.
pub const FONT_SIZE: u32 = 16;

/// Distance from the top of the surface to the top of row 0.
pub const TOP_MARGIN: u32 = 5;

/// Largest extent that a grid can report.
pub const MAX_EXTENT: u16 = 0xFFFF;

/// What the host reads from the live surface before an operation: the bounding
/// box in logical pixels, and the same box scaled by the device pixel ratio.
/// All four are whole pixels, fractions cut off.
#[derive(Clone, Copy, Debug, PartialEq, Eq, Structural)]
pub struct Viewport {
    pub width: u32,
    pub height: u32,
    pub device_width: u32,
    pub device_height: u32,
}

/// A width and a height: grid cells or pixels, as the holder says.
#[derive(Clone, Copy, Debug, PartialEq, Eq, Structural)]
pub struct Size {
    pub width: u16,
    pub height: u16,
}

/// The grid that fits in a surface, and the surface's size in device pixels.
#[derive(Clone, Copy, Debug, PartialEq, Eq, Structural)]
pub struct WindowSize {
    pub columns_rows: Size,
    pub pixels: Size,
}

/// Vertical padding of a glyph inside its line, half of it below the glyph.
pub open spec fn descent() -> int {
    (LINE_HEIGHT - FONT_SIZE) / 2
}

/// Left edge of a column, in pixels.
pub open spec fn cell_left(column: u16) -> int {
    column * CELL_WIDTH
}

/// Top edge of a row, in pixels.
pub open spec fn cell_top(row: u16) -> int {
    row * LINE_HEIGHT + TOP_MARGIN
}

/// Baseline on which the glyphs of a row are painted.
pub open spec fn baseline(row: u16) -> int {
    cell_top(row) + LINE_HEIGHT - descent()
}

/// `n`, held to what sixteen bits can carry.
pub open spec fn saturated(n: int) -> int {
    if n > MAX_EXTENT {
        MAX_EXTENT as int
    } else {
        n
    }
}

/// Number of whole units of `unit` pixels in `pixels`, saturated.
pub open spec fn extent(pixels: u32, unit: u32) -> int {
    saturated(pixels as int / unit as int)
}

/// The grid that a viewport holds: whole cells only.
pub open spec fn grid_of(viewport: Viewport) -> Size {
    Size {
        width: extent(viewport.width, CELL_WIDTH) as u16,
        height: extent(viewport.height, LINE_HEIGHT) as u16,
    }
}

/// The size of a viewport in device pixels, saturated.
pub open spec fn pixels_of(viewport: Viewport) -> Size {
    Size {
        width: saturated(viewport.device_width as int) as u16,
        height: saturated(viewport.device_height as int) as u16,
    }
}

/// Pixel position of the top left corner of a cell.
pub fn cell_origin(column: u16, row: u16) -> (origin: (u32, u32))
    ensures
        origin.0 == cell_left(column),
        origin.1 == cell_top(row),
{
    let x: u32 = column as u32 * CELL_WIDTH;
    let y: u32 = row as u32 * LINE_HEIGHT + TOP_MARGIN;
    (x, y)
}

/// Pixel height of the baseline of a row.
pub fn cell_baseline(row: u16) -> (y: u32)
    ensures
        y == baseline(row),
{
    let top: u32 = row as u32 * LINE_HEIGHT + TOP_MARGIN;
    top + LINE_HEIGHT - (LINE_HEIGHT - FONT_SIZE) / 2
}

/// Clamps a pixel count to sixteen bits.
pub fn saturate(n: u32) -> (r: u16)
    ensures
        r == saturated(n as int),
{
    if n > MAX_EXTENT as u32 {
        MAX_EXTENT
    } else {
        n as u16
    }
}

/// Computes the grid that fits in a viewport.
pub fn grid_size(viewport: &Viewport) -> (size: Size)
    ensures
        size == grid_of(*viewport),
{
    Size {
        width: saturate(viewport.width / CELL_WIDTH),
        height: saturate(viewport.height / LINE_HEIGHT),
    }
}

/// Computes the size of a viewport in device pixels.
pub fn pixel_size(viewport: &Viewport) -> (size: Size)
    ensures
        size == pixels_of(*viewport),
{
    Size { width: saturate(viewport.device_width), height: saturate(viewport.device_height) }
}

/// On every surface whose grid fits in sixteen bits, the grid is the floor of
/// the bounds over the cell size: `width / 16` columns and `height / 18` rows.
pub proof fn grid_is_floor_of_bounds(viewport: Viewport)
    requires
        viewport.width / 16 <= MAX_EXTENT,
        viewport.height / 18 <= MAX_EXTENT,
    ensures
        grid_of(viewport).width == viewport.width / 16,
        grid_of(viewport).height == viewport.height / 18,
{
}

} // verus!
