//! The two streams of a frame: one instance for each cell of the grid, and
//! the triangles of the overlay with its heading and its button.

use crate::geometry::{
    at_least_one, push_rect, quad, Canvas, CellInstance, Color, Cursor, Point, Vertex,
};
use crate::glyph::{draw_text, line_width, text_pixel_width, text_quads, uppercase_of, Line, FONT_HEIGHT};
use crate::grid::{cols, rows, CellState, Grid};
use crate::layout::{
    button_rect, button_rect_of, cell_instance, grid_layout, header_line, header_line_of,
    instance_at, layout_of, GridLayout, BUTTON_HEIGHT, BUTTON_PADDING, BUTTON_WIDTH,
};
use vstd::prelude::*;

verus! {

/// The heading.
pub const HEADING: &'static str = "Game of Life";

/// The label of the button.
pub const BUTTON_LABEL: &'static str = "Randomize";

/// The size of a glyph pixel of the heading, in window pixels.
pub const TEXT_SCALE_HEADING: u32 = 10;

/// The size of a glyph pixel of the button's label, in window pixels.
pub const TEXT_SCALE_BUTTON: u32 = 8;

/// The instances of a board, row after row: the instance of the cell at
/// `(r, c)` stands at place `r * cols(b) + c`.
pub open spec fn instances_of(b: Seq<Seq<CellState>>, layout: GridLayout) -> Seq<CellInstance> {
    Seq::new(
        (rows(b) * cols(b)) as nat,
        |i: int| cell_instance(layout, i / cols(b), i % cols(b), b[i / cols(b)][i % cols(b)]),
    )
}

/// The canvas of the overlay: the window, one unit to the pixel.
pub open spec fn overlay_canvas(window_width: int, window_height: int) -> Canvas {
    Canvas {
        width: at_least_one(window_width) as i128,
        height: at_least_one(window_height) as i128,
        resolution: 1,
    }
}

/// The line of the heading: it starts one padding from the window's top
/// left corner.
pub open spec fn heading_line(canvas: Canvas) -> Line {
    Line {
        origin: Point { x: BUTTON_PADDING, y: BUTTON_PADDING },
        scale: TEXT_SCALE_HEADING,
        color: Color::HeadingText,
        canvas,
    }
}

/// The line of a label of `count` characters on the button: the label is
/// centred in the button's rectangle, by the width that it measures and
/// the height of a glyph.
pub open spec fn label_line(window_width: int, count: int, canvas: Canvas) -> Line {
    let button = button_rect_of(window_width);
    let text_width = line_width(count) * TEXT_SCALE_BUTTON;
    let text_height = FONT_HEIGHT * TEXT_SCALE_BUTTON;
    Line {
        origin: Point {
            x: (button.min.x + (BUTTON_WIDTH - text_width) / 2) as i128,
            y: (button.min.y + (BUTTON_HEIGHT - text_height) / 2) as i128,
        },
        scale: TEXT_SCALE_BUTTON,
        color: Color::ButtonText,
        canvas,
    }
}

/// Whether the cursor is on the button.
pub open spec fn hovered_of(cursor: Option<Cursor>, window_width: int) -> bool {
    match cursor {
        Some(at) => button_rect_of(window_width).holds_cursor(at),
        None => false,
    }
}

/// The overlay: the line under the header band, the button in the colour
/// of its state, the heading and the button's label, in this order.
pub open spec fn overlay_of(window_width: int, window_height: int, hovered: bool) -> Seq<Vertex> {
    let canvas = overlay_canvas(window_width, window_height);
    let heading = uppercase_of(HEADING@);
    let label = uppercase_of(BUTTON_LABEL@);
    quad(header_line_of(window_width), Color::HeaderLine, canvas) + quad(
        button_rect_of(window_width),
        if hovered {
            Color::ButtonHover
        } else {
            Color::ButtonIdle
        },
        canvas,
    ) + text_quads(heading_line(canvas), heading, heading.len() as int) + text_quads(
        label_line(window_width, BUTTON_LABEL@.len() as int, canvas),
        label,
        label.len() as int,
    )
}

/// Half of an even number.
fn half(v: i128) -> (h: i128)
    requires
        v % 2 == 0,
        v > i128::MIN,
    ensures
        2 * h == v,
        h == v / 2,
{
    if v >= 0 {
        v / 2
    } else {
        -((-v) / 2)
    }
}

/// Rebuilds the overlay for a window and a cursor, and returns its canvas.
pub fn fill_overlay(
    vertices: &mut Vec<Vertex>,
    window_width: u32,
    window_height: u32,
    cursor: Option<Cursor>,
) -> (canvas: Canvas)
    ensures
        canvas == overlay_canvas(window_width as int, window_height as int),
        canvas.wf(),
        final(vertices)@ == overlay_of(
            window_width as int,
            window_height as int,
            hovered_of(cursor, window_width as int),
        ),
{
    vertices.clear();
    let canvas = Canvas::new(window_width, window_height, 1);
    push_rect(vertices, header_line(window_width), Color::HeaderLine, canvas);

    let button = button_rect(window_width);
    let hovered = is_hovered(&cursor, window_width);
    push_rect(vertices, button, button_color(hovered), canvas);

    let heading = Line {
        origin: Point { x: BUTTON_PADDING, y: BUTTON_PADDING },
        scale: TEXT_SCALE_HEADING,
        color: Color::HeadingText,
        canvas,
    };
    draw_text(vertices, HEADING, &heading);

    proof {
        reveal_strlit("Randomize");
    }
    let label = label_line_for(window_width, BUTTON_LABEL, canvas);
    draw_text(vertices, BUTTON_LABEL, &label);
    assert(vertices@ =~= overlay_of(
        window_width as int,
        window_height as int,
        hovered_of(cursor, window_width as int),
    ));
    canvas
}

/// The colour of the button.
fn button_color(hovered: bool) -> (color: Color)
    ensures
        color == if hovered {
            Color::ButtonHover
        } else {
            Color::ButtonIdle
        },
{
    if hovered {
        Color::ButtonHover
    } else {
        Color::ButtonIdle
    }
}

/// Whether the cursor is on the button.
pub fn is_hovered(cursor: &Option<Cursor>, window_width: u32) -> (hovered: bool)
    ensures
        hovered == hovered_of(*cursor, window_width as int),
{
    match cursor {
        Some(at) => button_rect(window_width).contains_cursor(*at),
        None => false,
    }
}

/// The line on which a label is drawn on the button.
fn label_line_for(window_width: u32, label: &str, canvas: Canvas) -> (line: Line)
    requires
        canvas.wf(),
        label@.len() <= 64,
    ensures
        line == label_line(window_width as int, label@.len() as int, canvas),
        line.wf(),
{
    let button = button_rect(window_width);
    let units = text_pixel_width(label);
    let scale: i128 = TEXT_SCALE_BUTTON as i128;
    let text_width: i128 = units * scale;
    let glyph_height: i128 = FONT_HEIGHT as i128;
    let text_height: i128 = glyph_height * scale;
    Line {
        origin: Point {
            x: button.min.x + half(BUTTON_WIDTH - text_width),
            y: button.min.y + half(BUTTON_HEIGHT - text_height),
        },
        scale: TEXT_SCALE_BUTTON,
        color: Color::ButtonText,
        canvas,
    }
}

/// Rebuilds the instances of a grid for a window, and returns the placement
/// by which they were made.
pub fn fill_instances(
    instances: &mut Vec<CellInstance>,
    grid: &Grid,
    window_width: u32,
    window_height: u32,
) -> (layout: GridLayout)
    requires
        grid.wf(),
    ensures
        layout == layout_of(
            window_width as int,
            window_height as int,
            grid.width(),
            grid.height(),
        ),
        layout.wf(),
        final(instances)@ == instances_of(grid@, layout),
{
    instances.clear();
    let height = grid.rows();
    let width = grid.columns();
    let layout = grid_layout(window_width, window_height, width, height);
    let mut row: usize = 0;
    while row < height
        invariant
            row <= height,
            grid.wf(),
            layout.wf(),
            height == grid.height(),
            width == grid.width(),
            width >= 1,
            instances@.len() == row * width,
            forall|i: int|
                0 <= i < instances@.len() ==> #[trigger] instances@[i] == cell_instance(
                    layout,
                    i / (width as int),
                    i % (width as int),
                    grid@[i / (width as int)][i % (width as int)],
                ),
        decreases height - row,
    {
        let mut col: usize = 0;
        while col < width
            invariant
                row < height,
                col <= width,
                grid.wf(),
                layout.wf(),
                height == grid.height(),
                width == grid.width(),
                width >= 1,
                instances@.len() == row * width + col,
                forall|i: int|
                    0 <= i < instances@.len() ==> #[trigger] instances@[i] == cell_instance(
                        layout,
                        i / (width as int),
                        i % (width as int),
                        grid@[i / (width as int)][i % (width as int)],
                    ),
            decreases width - col,
        {
            proof {
                vstd::arithmetic::div_mod::lemma_fundamental_div_mod_converse(
                    row * width + col,
                    width as int,
                    row as int,
                    col as int,
                );
            }
            instances.push(instance_at(&layout, row, col, grid.cell(row, col)));
            col = col + 1;
        }
        assert((row + 1) * width == row * width + width) by (nonlinear_arith);
        row = row + 1;
    }
    layout
}

/// Where the instance of a cell stands in the stream: the instance of the
/// cell at `(r, c)` is the one at place `r * cols(b) + c`, and the stream
/// holds one instance for each cell.
pub proof fn lemma_instance_place(b: Seq<Seq<CellState>>, layout: GridLayout, r: int, c: int)
    requires
        0 <= r < rows(b),
        0 <= c < cols(b),
    ensures
        instances_of(b, layout).len() == rows(b) * cols(b),
        0 <= r * cols(b) + c < rows(b) * cols(b),
        instances_of(b, layout)[r * cols(b) + c] == cell_instance(layout, r, c, b[r][c]),
{
    assert(0 <= r * cols(b) + c < rows(b) * cols(b)) by (nonlinear_arith)
        requires
            0 <= r < rows(b),
            0 <= c < cols(b),
    ;
    vstd::arithmetic::div_mod::lemma_fundamental_div_mod_converse(r * cols(b) + c, cols(b), r, c);
}

} // verus!
