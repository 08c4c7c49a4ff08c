//! Where things go in the window: the header band with its button, and the
//! grid of square cells centred in the room below it.

use crate::geometry::{
    at_least_one, ndc_x, ndc_y, to_ndc, to_ndc_y, Canvas, CellInstance, Color, Point, Rect,
};
use crate::grid::CellState;
use vstd::prelude::*;

verus! {

/// Height of the header band, in pixels.
pub const UI_HEIGHT: i128 = 90;

/// Thickness of the line that closes the header band, in pixels.
pub const HEADER_LINE_HEIGHT: i128 = 4;

/// Width of the button, in pixels.
pub const BUTTON_WIDTH: i128 = 180;

/// Height of the button, in pixels.
pub const BUTTON_HEIGHT: i128 = 44;

/// Room between the button and the window's right edge, and between the
/// heading and the window's top left corner, in pixels.
pub const BUTTON_PADDING: i128 = 24;

/// How far below the padding the button sits, in pixels.
pub const BUTTON_VERTICAL_OFFSET: i128 = 12;

/// The rectangle of the button in a window `window_width` pixels wide: it
/// keeps its size and its distance from the top right corner.
pub open spec fn button_rect_of(window_width: int) -> Rect {
    let width = at_least_one(window_width);
    Rect {
        min: Point {
            x: (width - BUTTON_PADDING - BUTTON_WIDTH) as i128,
            y: (BUTTON_PADDING + BUTTON_VERTICAL_OFFSET) as i128,
        },
        max: Point {
            x: (width - BUTTON_PADDING) as i128,
            y: (BUTTON_PADDING + BUTTON_VERTICAL_OFFSET + BUTTON_HEIGHT) as i128,
        },
    }
}

/// The rectangle of the line that closes the header band.
pub open spec fn header_line_of(window_width: int) -> Rect {
    Rect {
        min: Point { x: 0, y: (UI_HEIGHT - HEADER_LINE_HEIGHT) as i128 },
        max: Point { x: at_least_one(window_width) as i128, y: UI_HEIGHT },
    }
}

/// The height left for the grid below the header band: at least one pixel,
/// however small the window.
pub open spec fn usable_height(window_height: int) -> int {
    at_least_one(at_least_one(window_height) - UI_HEIGHT)
}

/// The placement of the grid in the window. Lengths are in units of the
/// canvas, whose resolution is chosen so that all of them are whole.
#[derive(Debug, Clone, Copy, PartialEq, Eq, Structural)]
pub struct GridLayout {
    /// The window, divided finely enough for the cell size.
    pub canvas: Canvas,
    /// The side of a cell.
    pub cell: i128,
    /// The top left corner of the grid.
    pub offset: Point,
}

/// No offset of a grid exceeds this bound in magnitude.
pub const OFFSET_LIMIT: i128 = 0x10_0000_0000_0000_0000_0000_0000;

impl GridLayout {
    /// Bounds that every placement keeps, and within which the instance of
    /// any cell can be worked out in 128 bits.
    pub open spec fn wf(self) -> bool {
        &&& self.canvas.wf()
        &&& self.canvas.resolution >= 2
        &&& 2 <= self.cell <= 2 * u32::MAX
        &&& -OFFSET_LIMIT <= self.offset.x <= OFFSET_LIMIT
        &&& -OFFSET_LIMIT <= self.offset.y <= OFFSET_LIMIT
    }
}

/// The cell size as a fraction of pixels, numerator first, for a window
/// `width` pixels wide with `usable` pixels of height for the grid: the
/// smaller of width over columns and usable height over rows, but no less
/// than one pixel.
pub open spec fn cell_size_of(width: int, usable: int, columns: int, rows: int) -> (int, int) {
    let (n, d) = if width * rows <= usable * columns {
        (width, columns)
    } else {
        (usable, rows)
    };
    if n < d {
        (1, 1)
    } else {
        (n, d)
    }
}

/// The placement of a grid of `columns` by `rows` cells: cells are squares
/// of the size that `cell_size_of` gives, and the grid is centred in the
/// window's width and in the usable height below the header band. With the
/// cell size `n / d`, the canvas has `2 * d` units to the pixel.
pub open spec fn layout_of(window_width: int, window_height: int, columns: int, rows: int) -> GridLayout {
    let width = at_least_one(window_width);
    let height = at_least_one(window_height);
    let usable = usable_height(window_height);
    let (n, d) = cell_size_of(width, usable, columns, rows);
    GridLayout {
        canvas: Canvas { width: width as i128, height: height as i128, resolution: (2 * d) as i128 },
        cell: (2 * n) as i128,
        offset: Point {
            x: (width * d - n * columns) as i128,
            y: (2 * UI_HEIGHT * d + usable * d - n * rows) as i128,
        },
    }
}

/// The colour of a cell.
pub open spec fn cell_color(state: CellState) -> Color {
    match state {
        CellState::Alive => Color::AliveCell,
        CellState::Dead => Color::DeadCell,
    }
}

/// The rectangle of the cell at `(row, col)`, in units of the layout's
/// canvas.
pub open spec fn cell_rect(layout: GridLayout, row: int, col: int) -> Rect {
    let left = layout.offset.x + col * layout.cell;
    let top = layout.offset.y + row * layout.cell;
    Rect {
        min: Point { x: left as i128, y: top as i128 },
        max: Point { x: (left + layout.cell) as i128, y: (top + layout.cell) as i128 },
    }
}

/// The instance of the cell at `(row, col)`: its rectangle in normalized
/// space and the colour of its state.
pub open spec fn cell_instance(layout: GridLayout, row: int, col: int, state: CellState) -> CellInstance {
    let rect = cell_rect(layout, row, col);
    CellInstance {
        min: Point {
            x: ndc_x(rect.min.x as int, layout.canvas) as i128,
            y: ndc_y(rect.min.y as int, layout.canvas) as i128,
        },
        max: Point {
            x: ndc_x(rect.max.x as int, layout.canvas) as i128,
            y: ndc_y(rect.max.y as int, layout.canvas) as i128,
        },
        color: cell_color(state),
    }
}

/// The rectangle of the button.
pub fn button_rect(window_width: u32) -> (rect: Rect)
    ensures
        rect == button_rect_of(window_width as int),
{
    let width = pixels(window_width);
    Rect {
        min: Point {
            x: width - BUTTON_PADDING - BUTTON_WIDTH,
            y: BUTTON_PADDING + BUTTON_VERTICAL_OFFSET,
        },
        max: Point {
            x: width - BUTTON_PADDING,
            y: BUTTON_PADDING + BUTTON_VERTICAL_OFFSET + BUTTON_HEIGHT,
        },
    }
}

/// The rectangle of the line that closes the header band.
pub fn header_line(window_width: u32) -> (rect: Rect)
    ensures
        rect == header_line_of(window_width as int),
{
    let width = pixels(window_width);
    Rect {
        min: Point { x: 0, y: UI_HEIGHT - HEADER_LINE_HEIGHT },
        max: Point { x: width, y: UI_HEIGHT },
    }
}

/// A window length in pixels: a zero length counts as one pixel.
fn pixels(length: u32) -> (pixels: i128)
    ensures
        pixels == at_least_one(length as int),
{
    if length == 0 {
        1
    } else {
        length as i128
    }
}

/// The height left for the grid in a window `height` pixels high.
fn usable_pixels(height: i128) -> (usable: i128)
    requires
        1 <= height <= u32::MAX,
    ensures
        usable == at_least_one(height - UI_HEIGHT),
{
    if height - UI_HEIGHT < 1 {
        1
    } else {
        height - UI_HEIGHT
    }
}

/// The cell size as a fraction of pixels, numerator first.
fn cell_size(width: i128, usable: i128, columns: i128, rows: i128) -> (size: (i128, i128))
    requires
        1 <= width <= u32::MAX,
        1 <= usable <= u32::MAX,
        1 <= columns <= usize::MAX,
        1 <= rows <= usize::MAX,
    ensures
        size.0 == cell_size_of(width as int, usable as int, columns as int, rows as int).0,
        size.1 == cell_size_of(width as int, usable as int, columns as int, rows as int).1,
        1 <= size.0 <= u32::MAX,
        1 <= size.1 <= usize::MAX,
{
    proof {
        lemma_products(width as int, usable as int, columns as int, rows as int);
    }
    if width * rows <= usable * columns {
        if width < columns {
            (1, 1)
        } else {
            (width, columns)
        }
    } else {
        if usable < rows {
            (1, 1)
        } else {
            (usable, rows)
        }
    }
}

/// The placement of a grid of `columns` by `rows` cells in a window.
pub fn grid_layout(window_width: u32, window_height: u32, columns: usize, rows: usize) -> (layout:
    GridLayout)
    requires
        columns >= 1,
        rows >= 1,
    ensures
        layout == layout_of(window_width as int, window_height as int, columns as int, rows as int),
        layout.wf(),
{
    let width = pixels(window_width);
    let height = pixels(window_height);
    let usable = usable_pixels(height);
    let columns: i128 = columns as i128;
    let rows: i128 = rows as i128;
    let (n, d) = cell_size(width, usable, columns, rows);
    proof {
        lemma_products(width as int, usable as int, d as int, d as int);
        lemma_products(n as int, n as int, columns as int, rows as int);
    }
    let band: i128 = 2 * UI_HEIGHT;
    GridLayout {
        canvas: Canvas { width, height, resolution: 2 * d },
        cell: 2 * n,
        offset: Point { x: width * d - n * columns, y: band * d + usable * d - n * rows },
    }
}

/// Products of a window length and a count stay small.
proof fn lemma_products(a: int, b: int, c: int, r: int)
    requires
        1 <= a <= u32::MAX,
        1 <= b <= u32::MAX,
        1 <= c <= usize::MAX,
        1 <= r <= usize::MAX,
    ensures
        1 <= a * r <= 0x1_0000_0000 * 0x1_0000_0000_0000_0000,
        1 <= b * c <= 0x1_0000_0000 * 0x1_0000_0000_0000_0000,
        1 <= a * c <= 0x1_0000_0000 * 0x1_0000_0000_0000_0000,
        1 <= b * r <= 0x1_0000_0000 * 0x1_0000_0000_0000_0000,
{
    assert(1 <= a * r <= 0x1_0000_0000 * 0x1_0000_0000_0000_0000) by (nonlinear_arith)
        requires
            1 <= a <= 0x1_0000_0000,
            1 <= r <= 0x1_0000_0000_0000_0000,
    ;
    assert(1 <= b * c <= 0x1_0000_0000 * 0x1_0000_0000_0000_0000) by (nonlinear_arith)
        requires
            1 <= b <= 0x1_0000_0000,
            1 <= c <= 0x1_0000_0000_0000_0000,
    ;
    assert(1 <= a * c <= 0x1_0000_0000 * 0x1_0000_0000_0000_0000) by (nonlinear_arith)
        requires
            1 <= a <= 0x1_0000_0000,
            1 <= c <= 0x1_0000_0000_0000_0000,
    ;
    assert(1 <= b * r <= 0x1_0000_0000 * 0x1_0000_0000_0000_0000) by (nonlinear_arith)
        requires
            1 <= b <= 0x1_0000_0000,
            1 <= r <= 0x1_0000_0000_0000_0000,
    ;
}

/// The instance of the cell at `(row, col)`.
pub fn instance_at(layout: &GridLayout, row: usize, col: usize, state: CellState) -> (instance:
    CellInstance)
    requires
        layout.wf(),
    ensures
        instance == cell_instance(*layout, row as int, col as int, state),
{
    proof {
        lemma_cell_reach(row as int, layout.cell as int);
        lemma_cell_reach(col as int, layout.cell as int);
    }
    let left: i128 = layout.offset.x + (col as i128) * layout.cell;
    let top: i128 = layout.offset.y + (row as i128) * layout.cell;
    let color = match state {
        CellState::Alive => Color::AliveCell,
        CellState::Dead => Color::DeadCell,
    };
    CellInstance {
        min: Point { x: to_ndc(left, layout.canvas), y: to_ndc_y(top, layout.canvas) },
        max: Point {
            x: to_ndc(left + layout.cell, layout.canvas),
            y: to_ndc_y(top + layout.cell, layout.canvas),
        },
        color,
    }
}

/// The distance of a cell from the grid's corner stays small.
proof fn lemma_cell_reach(index: int, cell: int)
    requires
        0 <= index <= usize::MAX,
        2 <= cell <= 2 * u32::MAX,
    ensures
        0 <= index * cell <= 0x1_0000_0000_0000_0000 * 0x2_0000_0000,
{
    assert(0 <= index * cell <= 0x1_0000_0000_0000_0000 * 0x2_0000_0000) by (nonlinear_arith)
        requires
            0 <= index <= 0x1_0000_0000_0000_0000,
            2 <= cell <= 0x2_0000_0000,
    ;
}

/// What a placement is worth. With the cell size `n / d`: a cell is at
/// least one pixel wide; unless that floor was needed, the grid fits into
/// the window's width and into the usable height, and fills one of the
/// two; and the grid is centred, with as much room on its left as on its
/// right and as much above it, below the header band, as under it.
pub proof fn lemma_layout(window_width: int, window_height: int, columns: int, rows: int)
    requires
        0 <= window_width <= u32::MAX,
        0 <= window_height <= u32::MAX,
        1 <= columns <= usize::MAX,
        1 <= rows <= usize::MAX,
    ensures
        ({
            let width = at_least_one(window_width);
            let usable = usable_height(window_height);
            let (n, d) = cell_size_of(width, usable, columns, rows);
            let layout = layout_of(window_width, window_height, columns, rows);
            &&& layout.wf()
            &&& layout.cell == 2 * n
            &&& layout.canvas.resolution == 2 * d
            &&& n >= d >= 1
            &&& (n == 1 && d == 1) || (n * columns <= width * d && n * rows <= usable * d)
            &&& (n == 1 && d == 1) || n * columns == width * d || n * rows == usable * d
            &&& 2 * layout.offset.x + layout.cell * columns == width * layout.canvas.resolution
            &&& 2 * (layout.offset.y - UI_HEIGHT * layout.canvas.resolution) + layout.cell * rows
                == usable * layout.canvas.resolution
        }),
{
    let width = at_least_one(window_width);
    let usable = usable_height(window_height);
    let (n, d) = cell_size_of(width, usable, columns, rows);
    lemma_products(width, usable, columns, rows);
    lemma_products(width, usable, d, d);
    lemma_products(n, n, columns, rows);
    let layout = layout_of(window_width, window_height, columns, rows);
    assert(layout.cell * columns == 2 * (n * columns)) by (nonlinear_arith)
        requires
            layout.cell == 2 * n,
    ;
    assert(layout.cell * rows == 2 * (n * rows)) by (nonlinear_arith)
        requires
            layout.cell == 2 * n,
    ;
    assert(width * layout.canvas.resolution == 2 * (width * d)) by (nonlinear_arith)
        requires
            layout.canvas.resolution == 2 * d,
    ;
    assert(usable * layout.canvas.resolution == 2 * (usable * d)) by (nonlinear_arith)
        requires
            layout.canvas.resolution == 2 * d,
    ;
    assert(UI_HEIGHT * layout.canvas.resolution == 2 * UI_HEIGHT * d) by (nonlinear_arith)
        requires
            layout.canvas.resolution == 2 * d,
    ;
}

} // verus!
