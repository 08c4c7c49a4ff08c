use game_of_life::frame::{
    fill_instances, fill_overlay, is_hovered, TEXT_SCALE_BUTTON, TEXT_SCALE_HEADING,
};
use game_of_life::geometry::{Canvas, CellInstance, Color, Cursor, Point, Rect, Vertex};
use game_of_life::glyph::{draw_text, Line};
use game_of_life::grid::CellState::{Alive, Dead};
use game_of_life::grid::Grid;
use game_of_life::layout::{
    button_rect, grid_layout, header_line, instance_at, GridLayout, BUTTON_HEIGHT, BUTTON_PADDING,
    BUTTON_VERTICAL_OFFSET, BUTTON_WIDTH, UI_HEIGHT,
};

fn rect(x0: i128, y0: i128, x1: i128, y1: i128) -> Rect {
    Rect { min: Point { x: x0, y: y0 }, max: Point { x: x1, y: y1 } }
}

fn quad(r: Rect, color: Color, canvas: Canvas) -> Vec<Vertex> {
    let w = canvas.width * canvas.resolution;
    let h = canvas.height * canvas.resolution;
    let (x0, x1) = (2 * r.min.x - w, 2 * r.max.x - w);
    let (y0, y1) = (h - 2 * r.min.y, h - 2 * r.max.y);
    [(x0, y1), (x1, y1), (x0, y0), (x0, y0), (x1, y1), (x1, y0)]
        .iter()
        .map(|&(x, y)| Vertex { position: Point { x, y }, color })
        .collect()
}

#[test]
fn layout_constants() {
    assert_eq!(UI_HEIGHT, 90);
    assert_eq!(BUTTON_WIDTH, 180);
    assert_eq!(BUTTON_HEIGHT, 44);
    assert_eq!(BUTTON_PADDING, 24);
    assert_eq!(BUTTON_VERTICAL_OFFSET, 12);
    assert_eq!(TEXT_SCALE_HEADING, 10);
    assert_eq!(TEXT_SCALE_BUTTON, 8);
}

#[test]
fn button_is_anchored_to_the_top_right_corner() {
    assert_eq!(button_rect(1280), rect(1076, 36, 1256, 80));
    assert_eq!(button_rect(800), rect(596, 36, 776, 80));
    assert_eq!(button_rect(204), rect(0, 36, 180, 80));
    assert_eq!(button_rect(100), rect(-104, 36, 76, 80));
    assert_eq!(button_rect(4294967295), rect(4294967091, 36, 4294967271, 80));
}

#[test]
fn button_of_a_window_without_width_is_that_of_one_pixel() {
    assert_eq!(button_rect(0), rect(-203, 36, -23, 80));
    assert_eq!(button_rect(0), button_rect(1));
}

#[test]
fn header_line_spans_the_window_under_the_band() {
    assert_eq!(header_line(1280), rect(0, 86, 1280, 90));
    assert_eq!(header_line(0), rect(0, 86, 1, 90));
}

#[test]
fn layout_limited_by_the_usable_height() {
    let layout = grid_layout(1280, 720, 200, 112);
    assert_eq!(
        layout,
        GridLayout {
            canvas: Canvas { width: 1280, height: 720, resolution: 224 },
            cell: 1260,
            offset: Point { x: 17360, y: 20160 },
        }
    );
    let to_pixels = |units: i128| units as f64 / layout.canvas.resolution as f64;
    assert_eq!(to_pixels(layout.cell), 5.625);
    assert_eq!(to_pixels(layout.offset.x), 77.5);
    assert_eq!(to_pixels(layout.offset.y), 90.0);
}

#[test]
fn layout_limited_by_the_width() {
    let layout = grid_layout(400, 1090, 200, 100);
    assert_eq!(
        layout,
        GridLayout {
            canvas: Canvas { width: 400, height: 1090, resolution: 400 },
            cell: 800,
            offset: Point { x: 0, y: 196000 },
        }
    );
    assert_eq!(layout.offset.y / layout.canvas.resolution, 490);
}

#[test]
fn layout_floors_the_cell_at_one_pixel() {
    let layout = grid_layout(100, 50, 200, 112);
    assert_eq!(
        layout,
        GridLayout {
            canvas: Canvas { width: 100, height: 50, resolution: 2 },
            cell: 2,
            offset: Point { x: -100, y: 69 },
        }
    );
}

#[test]
fn layout_of_a_window_without_size() {
    let layout = grid_layout(0, 0, 3, 2);
    assert_eq!(
        layout,
        GridLayout {
            canvas: Canvas { width: 1, height: 1, resolution: 2 },
            cell: 2,
            offset: Point { x: -2, y: 179 },
        }
    );
}

#[test]
fn layout_with_a_cell_of_exactly_one_pixel() {
    let layout = grid_layout(200, 202, 200, 112);
    assert_eq!(
        layout,
        GridLayout {
            canvas: Canvas { width: 200, height: 202, resolution: 400 },
            cell: 400,
            offset: Point { x: 0, y: 36000 },
        }
    );
    let taller = grid_layout(200, 203, 200, 112);
    assert_eq!(taller.cell, taller.canvas.resolution);
    assert_eq!(taller.offset, Point { x: 0, y: 36200 });
}

#[test]
fn layout_of_the_largest_window_and_grid() {
    let layout = grid_layout(u32::MAX, u32::MAX, usize::MAX, usize::MAX);
    assert_eq!(layout.cell, 2);
    assert_eq!(layout.canvas.resolution, 2);
    let last = instance_at(&layout, usize::MAX - 1, usize::MAX - 1, Alive);
    assert!(last.min.x < last.max.x);
    assert!(last.min.y > last.max.y);
    let one = grid_layout(u32::MAX, u32::MAX, 1, 1);
    assert_eq!(one.cell, 2 * (u32::MAX as i128 - 90));
    assert_eq!(one.canvas.resolution, 2);
}

#[test]
fn instance_at_maps_a_cell_into_normalized_space() {
    let layout = grid_layout(1280, 720, 200, 112);
    assert_eq!(
        instance_at(&layout, 0, 0, Alive),
        CellInstance {
            min: Point { x: -252000, y: 120960 },
            max: Point { x: -249480, y: 118440 },
            color: Color::AliveCell,
        }
    );
    let last = instance_at(&layout, 111, 199, Dead);
    assert_eq!(last.color, Color::DeadCell);
    assert_eq!(last.max, Point { x: 252000, y: -161280 });
    assert_eq!(last.min, Point { x: 249480, y: -158760 });
}

#[test]
fn fill_instances_emits_one_instance_per_cell_in_row_major_order() {
    let mut grid = Grid::new(3, 2);
    grid.cells[0][1] = Alive;
    grid.cells[1][2] = Alive;
    let stale = instance_at(&grid_layout(1, 1, 1, 1), 0, 0, Alive);
    let mut instances = vec![stale; 10];
    let layout = fill_instances(&mut instances, &grid, 300, 290);
    assert_eq!(layout, grid_layout(300, 290, 3, 2));
    assert_eq!(layout.canvas, Canvas { width: 300, height: 290, resolution: 6 });
    assert_eq!(layout.cell, 600);
    assert_eq!(layout.offset, Point { x: 0, y: 540 });

    assert_eq!(instances.len(), 6);
    let mut expected = Vec::new();
    for row in 0..2 {
        for col in 0..3 {
            expected.push(instance_at(&layout, row, col, grid.cells[row][col]));
        }
    }
    assert_eq!(instances, expected);
    let colors: Vec<Color> = instances.iter().map(|i| i.color).collect();
    assert_eq!(
        colors,
        vec![
            Color::DeadCell,
            Color::AliveCell,
            Color::DeadCell,
            Color::DeadCell,
            Color::DeadCell,
            Color::AliveCell,
        ]
    );
    assert_eq!(instances[0].min, Point { x: -1800, y: 660 });
    assert_eq!(instances[0].max, Point { x: -600, y: -540 });
    assert_eq!(instances[5].min, Point { x: 600, y: -540 });
    assert_eq!(instances[5].max, Point { x: 1800, y: -1740 });
}

#[test]
fn is_hovered_tests_the_cursor_against_the_button() {
    assert!(!is_hovered(&None, 1280));
    assert!(is_hovered(&Some(Cursor::at(Point { x: 1076, y: 36 })), 1280));
    assert!(is_hovered(&Some(Cursor::at(Point { x: 1256, y: 80 })), 1280));
    assert!(is_hovered(&Some(Cursor::at(Point { x: 1100, y: 50 })), 1280));
    assert!(!is_hovered(&Some(Cursor::at(Point { x: 1075, y: 50 })), 1280));
    assert!(!is_hovered(&Some(Cursor::at(Point { x: 1100, y: 81 })), 1280));
    assert!(!is_hovered(&Some(Cursor::at(Point { x: 1100, y: 50 })), 800));
}

#[test]
fn fill_overlay_builds_line_button_heading_and_label() {
    let stale = Vertex { position: Point { x: 0, y: 0 }, color: Color::AliveCell };
    let mut vertices = vec![stale; 3];
    let canvas = fill_overlay(&mut vertices, 1280, 720, None);
    assert_eq!(canvas, Canvas { width: 1280, height: 720, resolution: 1 });
    assert_eq!(vertices.len(), 12 + 160 * 6 + 153 * 6);

    let mut expected = quad(rect(0, 86, 1280, 90), Color::HeaderLine, canvas);
    expected.extend(quad(rect(1076, 36, 1256, 80), Color::ButtonIdle, canvas));
    let heading = Line {
        origin: Point { x: 24, y: 24 },
        scale: 10,
        color: Color::HeadingText,
        canvas,
    };
    draw_text(&mut expected, "Game of Life", &heading);
    let label = Line {
        origin: Point { x: 954, y: 30 },
        scale: 8,
        color: Color::ButtonText,
        canvas,
    };
    draw_text(&mut expected, "Randomize", &label);
    assert_eq!(vertices, expected);

    assert_eq!(vertices[12].position, Point { x: -1212, y: 652 });
    assert_eq!(vertices[972].position, Point { x: 628, y: 644 });
    assert_eq!(vertices[972].color, Color::ButtonText);
}

#[test]
fn fill_overlay_colors_the_button_by_the_cursor() {
    let mut idle = Vec::new();
    fill_overlay(&mut idle, 1280, 720, Some(Cursor::at(Point { x: 10, y: 10 })));
    let mut hovered = Vec::new();
    fill_overlay(&mut hovered, 1280, 720, Some(Cursor::at(Point { x: 1256, y: 80 })));
    assert_eq!(idle.len(), hovered.len());
    for (i, (a, b)) in idle.iter().zip(hovered.iter()).enumerate() {
        assert_eq!(a.position, b.position);
        if (6..12).contains(&i) {
            assert_eq!(a.color, Color::ButtonIdle);
            assert_eq!(b.color, Color::ButtonHover);
        } else {
            assert_eq!(a.color, b.color);
        }
    }
}

#[test]
fn fill_overlay_centers_the_label_on_the_button() {
    let mut vertices = Vec::new();
    let canvas = fill_overlay(&mut vertices, 640, 480, None);
    let label = &vertices[12 + 160 * 6..];
    let xs: Vec<i128> = label.iter().map(|v| (v.position.x + canvas.width) / 2).collect();
    let ys: Vec<i128> = label.iter().map(|v| (canvas.height - v.position.y) / 2).collect();
    let (left, right) = (*xs.iter().min().unwrap(), *xs.iter().max().unwrap());
    let (top, bottom) = (*ys.iter().min().unwrap(), *ys.iter().max().unwrap());
    let button = button_rect(640);
    assert_eq!(right - left, 53 * 8);
    assert_eq!(bottom - top, 7 * 8);
    assert_eq!(left - button.min.x, button.max.x - right);
    assert_eq!(top - button.min.y, button.max.y - bottom);
    assert_eq!((left, top), (314, 30));
}

#[test]
fn fill_overlay_in_a_window_without_size() {
    let mut vertices = Vec::new();
    let canvas = fill_overlay(&mut vertices, 0, 0, None);
    assert_eq!(canvas, Canvas { width: 1, height: 1, resolution: 1 });
    assert_eq!(vertices.len(), 1890);
    assert_eq!(
        vertices[..6].to_vec(),
        quad(rect(0, 86, 1, 90), Color::HeaderLine, canvas)
    );
    assert_eq!(
        vertices[6..12].to_vec(),
        quad(rect(-203, 36, -23, 80), Color::ButtonIdle, canvas)
    );
}
