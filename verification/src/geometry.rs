//! Points, rectangles and the mapping from window coordinates to the
//! normalized space that a renderer draws in.
//!
//! All coordinates are integers. A canvas divides each window pixel into a
//! whole number of units, and a normalized coordinate is handed out as a
//! numerator over the canvas's denominator for that axis.

use vstd::prelude::*;

verus! {

/// No coordinate given to this module may exceed this bound in magnitude.
/// It leaves room for the arithmetic of the mapping in 128 bits.
pub const COORD_LIMIT: i128 = 0x100_0000_0000_0000_0000_0000_0000_0000;

/// The largest number of units that a canvas may divide a pixel into.
pub const RESOLUTION_LIMIT: i128 = 0x4_0000_0000_0000_0000;

/// A point: a pair of coordinates.
#[derive(Debug, Clone, Copy, PartialEq, Eq, Structural)]
pub struct Point {
    pub x: i128,
    pub y: i128,
}

/// An axis-aligned rectangle, given by its two corners.
#[derive(Debug, Clone, Copy, PartialEq, Eq, Structural)]
pub struct Rect {
    pub min: Point,
    pub max: Point,
}

/// Where the pointer is. A window reports it in fractions of a pixel; here
/// it is kept as the two points on whole pixels next to it: `low` is the
/// position rounded down along both axes, `high` the position rounded up.
/// On a whole pixel the two are one point. A rectangle with its corners on
/// whole pixels holds the position, its border included, exactly when it
/// holds both points.
#[derive(Debug, Clone, Copy, PartialEq, Eq, Structural)]
pub struct Cursor {
    pub low: Point,
    pub high: Point,
}

/// The fixed colours of the presentation.
#[derive(Debug, Clone, Copy, PartialEq, Eq, Structural)]
pub enum Color {
    AliveCell,
    DeadCell,
    HeaderLine,
    ButtonIdle,
    ButtonHover,
    HeadingText,
    ButtonText,
}

/// One corner of a triangle of the overlay: a position in normalized space,
/// as numerators, and a colour.
#[derive(Debug, Clone, Copy, PartialEq, Eq, Structural)]
pub struct Vertex {
    pub position: Point,
    pub color: Color,
}

/// The rectangle of one grid cell in normalized space, as numerators, and
/// its colour.
#[derive(Debug, Clone, Copy, PartialEq, Eq, Structural)]
pub struct CellInstance {
    pub min: Point,
    pub max: Point,
    pub color: Color,
}

/// A window of `width` by `height` pixels, each pixel divided into
/// `resolution` units along both axes. Window coordinates are counted in
/// these units from the top left corner, `y` downwards.
#[derive(Debug, Clone, Copy, PartialEq, Eq, Structural)]
pub struct Canvas {
    pub width: i128,
    pub height: i128,
    pub resolution: i128,
}

/// Whether `v` is a coordinate that the mapping accepts.
pub open spec fn in_reach(v: int) -> bool {
    -COORD_LIMIT <= v <= COORD_LIMIT
}

/// The red, green and blue parts of a colour, in hundredths of full
/// intensity.
pub open spec fn rgb_of(color: Color) -> (u8, u8, u8) {
    match color {
        Color::AliveCell => (95, 95, 95),
        Color::DeadCell => (18, 18, 22),
        Color::HeaderLine => (15, 15, 20),
        Color::ButtonIdle => (25, 33, 55),
        Color::ButtonHover => (35, 45, 75),
        Color::HeadingText => (90, 90, 95),
        Color::ButtonText => (95, 95, 98),
    }
}

impl Color {
    /// The red, green and blue parts of the colour, in hundredths of full
    /// intensity.
    pub fn rgb(self) -> (parts: (u8, u8, u8))
        ensures
            parts == rgb_of(self),
    {
        match self {
            Color::AliveCell => (95, 95, 95),
            Color::DeadCell => (18, 18, 22),
            Color::HeaderLine => (15, 15, 20),
            Color::ButtonIdle => (25, 33, 55),
            Color::ButtonHover => (35, 45, 75),
            Color::HeadingText => (90, 90, 95),
            Color::ButtonText => (95, 95, 98),
        }
    }
}

impl Rect {
    /// Whether `point` lies in the rectangle, its border included.
    pub open spec fn holds(self, point: Point) -> bool {
        self.min.x <= point.x <= self.max.x && self.min.y <= point.y <= self.max.y
    }

    /// Whether `point` lies in the rectangle, its border included.
    pub fn contains(&self, point: Point) -> (inside: bool)
        ensures
            inside == self.holds(point),
    {
        point.x >= self.min.x && point.x <= self.max.x && point.y >= self.min.y && point.y
            <= self.max.y
    }

    /// Whether the pointer is in the rectangle, its border included.
    pub open spec fn holds_cursor(self, cursor: Cursor) -> bool {
        self.holds(cursor.low) && self.holds(cursor.high)
    }

    /// Whether the pointer is in the rectangle, its border included.
    pub fn contains_cursor(&self, cursor: Cursor) -> (inside: bool)
        ensures
            inside == self.holds_cursor(cursor),
    {
        self.contains(cursor.low) && self.contains(cursor.high)
    }

    /// Whether all four coordinates are within reach of the mapping.
    pub open spec fn in_reach(self) -> bool {
        &&& in_reach(self.min.x as int)
        &&& in_reach(self.min.y as int)
        &&& in_reach(self.max.x as int)
        &&& in_reach(self.max.y as int)
    }
}

impl Cursor {
    /// The pointer on a whole pixel.
    pub fn at(point: Point) -> (cursor: Cursor)
        ensures
            cursor == (Cursor { low: point, high: point }),
    {
        Cursor { low: point, high: point }
    }
}

impl Canvas {
    /// A canvas has at least one pixel each way, no more than a window can
    /// have, and a resolution of at least one unit per pixel.
    pub open spec fn wf(self) -> bool {
        &&& 1 <= self.width <= u32::MAX
        &&& 1 <= self.height <= u32::MAX
        &&& 1 <= self.resolution <= RESOLUTION_LIMIT
    }

    /// The denominator of horizontal normalized coordinates: the window's
    /// width in units.
    pub open spec fn spec_den_x(self) -> int {
        self.width * self.resolution
    }

    /// The denominator of vertical normalized coordinates: the window's
    /// height in units.
    pub open spec fn spec_den_y(self) -> int {
        self.height * self.resolution
    }

    /// The canvas of a window: a zero dimension counts as one pixel.
    pub fn new(window_width: u32, window_height: u32, resolution: i128) -> (canvas: Canvas)
        requires
            1 <= resolution <= RESOLUTION_LIMIT,
        ensures
            canvas.wf(),
            canvas.width == at_least_one(window_width as int),
            canvas.height == at_least_one(window_height as int),
            canvas.resolution == resolution,
    {
        let width: i128 = if window_width == 0 { 1 } else { window_width as i128 };
        let height: i128 = if window_height == 0 { 1 } else { window_height as i128 };
        Canvas { width, height, resolution }
    }

    /// The denominator of horizontal normalized coordinates.
    pub fn den_x(&self) -> (den: i128)
        requires
            self.wf(),
        ensures
            den == self.spec_den_x(),
            1 <= den <= u32::MAX * RESOLUTION_LIMIT,
    {
        proof {
            lemma_product_bound(self.width as int, self.resolution as int);
        }
        self.width * self.resolution
    }

    /// The denominator of vertical normalized coordinates.
    pub fn den_y(&self) -> (den: i128)
        requires
            self.wf(),
        ensures
            den == self.spec_den_y(),
            1 <= den <= u32::MAX * RESOLUTION_LIMIT,
    {
        proof {
            lemma_product_bound(self.height as int, self.resolution as int);
        }
        self.height * self.resolution
    }
}

/// `v`, or one where `v` is less.
pub open spec fn at_least_one(v: int) -> int {
    if v < 1 {
        1
    } else {
        v
    }
}

/// The numerator of the normalized horizontal coordinate of `x`: the
/// window's width is mapped linearly onto the interval from -1 to 1, so the
/// coordinate is `2 * x / den_x - 1`.
pub open spec fn ndc_x(x: int, canvas: Canvas) -> int {
    2 * x - canvas.spec_den_x()
}

/// The numerator of the normalized vertical coordinate of `y`: the window's
/// height is mapped linearly onto the interval from 1 down to -1, because
/// `y` grows downwards in the window and upwards in normalized space. The
/// coordinate is `1 - 2 * y / den_y`.
pub open spec fn ndc_y(y: int, canvas: Canvas) -> int {
    canvas.spec_den_y() - 2 * y
}

/// The six vertices of the two triangles that fill `rect`.
pub open spec fn quad(rect: Rect, color: Color, canvas: Canvas) -> Seq<Vertex> {
    let x0 = ndc_x(rect.min.x as int, canvas) as i128;
    let y0 = ndc_y(rect.min.y as int, canvas) as i128;
    let x1 = ndc_x(rect.max.x as int, canvas) as i128;
    let y1 = ndc_y(rect.max.y as int, canvas) as i128;
    seq![
        Vertex { position: Point { x: x0, y: y1 }, color },
        Vertex { position: Point { x: x1, y: y1 }, color },
        Vertex { position: Point { x: x0, y: y0 }, color },
        Vertex { position: Point { x: x0, y: y0 }, color },
        Vertex { position: Point { x: x1, y: y1 }, color },
        Vertex { position: Point { x: x1, y: y0 }, color },
    ]
}

/// The numerator of the normalized horizontal coordinate of `x`.
pub fn to_ndc(x: i128, canvas: Canvas) -> (numerator: i128)
    requires
        canvas.wf(),
        in_reach(x as int),
    ensures
        numerator == ndc_x(x as int, canvas),
{
    let den = canvas.den_x();
    2 * x - den
}

/// The numerator of the normalized vertical coordinate of `y`.
pub fn to_ndc_y(y: i128, canvas: Canvas) -> (numerator: i128)
    requires
        canvas.wf(),
        in_reach(y as int),
    ensures
        numerator == ndc_y(y as int, canvas),
{
    let den = canvas.den_y();
    den - 2 * y
}

/// Appends the two triangles that fill `rect`.
pub fn push_rect(vertices: &mut Vec<Vertex>, rect: Rect, color: Color, canvas: Canvas)
    requires
        canvas.wf(),
        rect.in_reach(),
    ensures
        final(vertices)@ == old(vertices)@ + quad(rect, color, canvas),
{
    let x0 = to_ndc(rect.min.x, canvas);
    let y0 = to_ndc_y(rect.min.y, canvas);
    let x1 = to_ndc(rect.max.x, canvas);
    let y1 = to_ndc_y(rect.max.y, canvas);

    vertices.push(Vertex { position: Point { x: x0, y: y1 }, color });
    vertices.push(Vertex { position: Point { x: x1, y: y1 }, color });
    vertices.push(Vertex { position: Point { x: x0, y: y0 }, color });
    vertices.push(Vertex { position: Point { x: x0, y: y0 }, color });
    vertices.push(Vertex { position: Point { x: x1, y: y1 }, color });
    vertices.push(Vertex { position: Point { x: x1, y: y0 }, color });
}

/// The product of a window dimension and a resolution is small.
pub proof fn lemma_product_bound(pixels: int, resolution: int)
    requires
        1 <= pixels <= u32::MAX,
        1 <= resolution <= RESOLUTION_LIMIT,
    ensures
        1 <= pixels * resolution <= u32::MAX * RESOLUTION_LIMIT,
{
    assert(1 <= pixels * resolution <= u32::MAX * RESOLUTION_LIMIT) by (nonlinear_arith)
        requires
            1 <= pixels <= u32::MAX,
            1 <= resolution <= RESOLUTION_LIMIT,
    ;
}

/// The mapping sends the window's edges to the edges of normalized space,
/// left to -1 and right to 1, top to 1 and bottom to -1, and keeps the
/// order of horizontal coordinates while it reverses that of vertical ones.
pub proof fn lemma_ndc_edges(canvas: Canvas, a: int, b: int)
    requires
        canvas.wf(),
    ensures
        ndc_x(0, canvas) == -canvas.spec_den_x(),
        ndc_x(canvas.spec_den_x(), canvas) == canvas.spec_den_x(),
        ndc_y(0, canvas) == canvas.spec_den_y(),
        ndc_y(canvas.spec_den_y(), canvas) == -canvas.spec_den_y(),
        a <= b <==> ndc_x(a, canvas) <= ndc_x(b, canvas),
        a <= b <==> ndc_y(a, canvas) >= ndc_y(b, canvas),
{
}

/// The two whole numbers next to a fraction tell as much as the fraction
/// itself of where it lies among whole numbers: the fraction `n / d` lies
/// from `min` to `max`, both included, exactly when it does so rounded down
/// and rounded up. So a `Cursor` loses nothing that a rectangle on whole
/// pixels could tell.
pub proof fn lemma_rounding_is_exact(n: int, d: int, min: int, max: int)
    requires
        d > 0,
    ensures
        min * d <= n <= max * d <==> min <= n / d && -((-n) / d) <= max,
{
    let low = n / d;
    let high = -((-n) / d);
    vstd::arithmetic::div_mod::lemma_fundamental_div_mod(n, d);
    vstd::arithmetic::div_mod::lemma_fundamental_div_mod(-n, d);
    vstd::arithmetic::div_mod::lemma_mod_bound(n, d);
    vstd::arithmetic::div_mod::lemma_mod_bound(-n, d);
    assert(min * d <= n <==> min <= low) by (nonlinear_arith)
        requires
            d > 0,
            n == d * low + n % d,
            0 <= n % d < d,
    ;
    assert(n <= max * d <==> high <= max) by (nonlinear_arith)
        requires
            d > 0,
            -n == d * (-high) + (-n) % d,
            0 <= (-n) % d < d,
    ;
}

} // verus!
