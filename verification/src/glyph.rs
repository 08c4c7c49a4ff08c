//! The glyph rasterizer: a fixed bitmap font of five by seven pixels, and
//! the filled rectangles that a line of text becomes.

use crate::geometry::{push_rect, quad, Canvas, Color, Point, Rect, Vertex};
use vstd::prelude::*;
use vstd::string::StrSliceExecFns;

verus! {

/// The width of a glyph, in glyph pixels.
pub const FONT_WIDTH: usize = 5;

/// The height of a glyph, in glyph pixels.
pub const FONT_HEIGHT: usize = 7;

/// The font: for each letter that has a glyph, its seven rows from the top,
/// each row five bits wide with the leftmost pixel in the highest of them.
pub open spec fn glyph_rows(ch: char) -> Option<Seq<u8>> {
    match ch {
        'A' => Some(seq![0b01110u8, 0b10001u8, 0b10001u8, 0b11111u8, 0b10001u8, 0b10001u8, 0b10001u8]),
        'D' => Some(seq![0b11110u8, 0b10001u8, 0b10001u8, 0b10001u8, 0b10001u8, 0b10001u8, 0b11110u8]),
        'E' => Some(seq![0b11111u8, 0b10000u8, 0b10000u8, 0b11110u8, 0b10000u8, 0b10000u8, 0b11111u8]),
        'F' => Some(seq![0b11111u8, 0b10000u8, 0b10000u8, 0b11110u8, 0b10000u8, 0b10000u8, 0b10000u8]),
        'G' => Some(seq![0b01110u8, 0b10001u8, 0b10000u8, 0b10111u8, 0b10001u8, 0b10001u8, 0b01111u8]),
        'I' => Some(seq![0b11111u8, 0b00100u8, 0b00100u8, 0b00100u8, 0b00100u8, 0b00100u8, 0b11111u8]),
        'L' => Some(seq![0b10000u8, 0b10000u8, 0b10000u8, 0b10000u8, 0b10000u8, 0b10000u8, 0b11111u8]),
        'M' => Some(seq![0b10001u8, 0b11011u8, 0b10101u8, 0b10101u8, 0b10001u8, 0b10001u8, 0b10001u8]),
        'N' => Some(seq![0b10001u8, 0b11001u8, 0b10101u8, 0b10011u8, 0b10001u8, 0b10001u8, 0b10001u8]),
        'O' => Some(seq![0b01110u8, 0b10001u8, 0b10001u8, 0b10001u8, 0b10001u8, 0b10001u8, 0b01110u8]),
        'R' => Some(seq![0b11110u8, 0b10001u8, 0b10001u8, 0b11110u8, 0b10100u8, 0b10010u8, 0b10001u8]),
        'Z' => Some(seq![0b11111u8, 0b00001u8, 0b00010u8, 0b00100u8, 0b01000u8, 0b10000u8, 0b11111u8]),
        _ => None,
    }
}

/// The glyph of a character, if the font has one.
pub fn glyph_bits(ch: char) -> (rows: Option<[u8; FONT_HEIGHT]>)
    ensures
        match rows {
            Some(bits) => glyph_rows(ch) == Some(bits@),
            None => glyph_rows(ch) is None,
        },
{
    match ch {
        'A' => Some([0b01110, 0b10001, 0b10001, 0b11111, 0b10001, 0b10001, 0b10001]),
        'D' => Some([0b11110, 0b10001, 0b10001, 0b10001, 0b10001, 0b10001, 0b11110]),
        'E' => Some([0b11111, 0b10000, 0b10000, 0b11110, 0b10000, 0b10000, 0b11111]),
        'F' => Some([0b11111, 0b10000, 0b10000, 0b11110, 0b10000, 0b10000, 0b10000]),
        'G' => Some([0b01110, 0b10001, 0b10000, 0b10111, 0b10001, 0b10001, 0b01111]),
        'I' => Some([0b11111, 0b00100, 0b00100, 0b00100, 0b00100, 0b00100, 0b11111]),
        'L' => Some([0b10000, 0b10000, 0b10000, 0b10000, 0b10000, 0b10000, 0b11111]),
        'M' => Some([0b10001, 0b11011, 0b10101, 0b10101, 0b10001, 0b10001, 0b10001]),
        'N' => Some([0b10001, 0b11001, 0b10101, 0b10011, 0b10001, 0b10001, 0b10001]),
        'O' => Some([0b01110, 0b10001, 0b10001, 0b10001, 0b10001, 0b10001, 0b01110]),
        'R' => Some([0b11110, 0b10001, 0b10001, 0b11110, 0b10100, 0b10010, 0b10001]),
        'Z' => Some([0b11111, 0b00001, 0b00010, 0b00100, 0b01000, 0b10000, 0b11111]),
        _ => None,
    }
}

/// The room that one character takes in a line, in glyph pixels: the width
/// of a glyph and one pixel of spacing.
pub open spec fn advance() -> int {
    FONT_WIDTH + 1
}

/// Whether pixel `col` of a glyph row is filled; column zero is the
/// leftmost one and sits in the highest of the row's five bits.
pub open spec fn pixel_set(bits: u8, col: int) -> bool {
    (bits >> ((FONT_WIDTH - 1 - col) as u8)) & 1 == 1
}

/// The rectangle of one glyph pixel: pixel `(row, col)` of the glyph of the
/// character at place `index` in a line that starts at `origin`, with
/// glyph pixels `scale` units wide and high.
pub open spec fn pixel_rect(origin: Point, scale: int, index: int, row: int, col: int) -> Rect {
    let left = origin.x + (index * advance() + col) * scale;
    let top = origin.y + row * scale;
    Rect {
        min: Point { x: left as i128, y: top as i128 },
        max: Point { x: (left + scale) as i128, y: (top + scale) as i128 },
    }
}

/// A line of text to draw: where it starts, in units of its canvas; the
/// size of a glyph pixel, in the same units; its colour and its canvas.
#[derive(Debug, Clone, Copy, PartialEq, Eq, Structural)]
pub struct Line {
    pub origin: Point,
    pub scale: u32,
    pub color: Color,
    pub canvas: Canvas,
}

/// The vertices of the first `upto` pixels of a glyph row, left to right:
/// one rectangle for each filled pixel.
pub open spec fn row_quads(line: Line, index: int, bits: u8, row: int, upto: int) -> Seq<Vertex>
    decreases upto,
{
    if upto <= 0 {
        Seq::empty()
    } else {
        let before = row_quads(line, index, bits, row, upto - 1);
        if pixel_set(bits, upto - 1) {
            before + quad(
                pixel_rect(line.origin, line.scale as int, index, row, upto - 1),
                line.color,
                line.canvas,
            )
        } else {
            before
        }
    }
}

/// The vertices of the first `upto` rows of a glyph, top to bottom.
pub open spec fn glyph_quads(line: Line, index: int, rows: Seq<u8>, upto: int) -> Seq<Vertex>
    decreases upto,
{
    if upto <= 0 {
        Seq::empty()
    } else {
        glyph_quads(line, index, rows, upto - 1) + row_quads(
            line,
            index,
            rows[upto - 1],
            upto - 1,
            FONT_WIDTH as int,
        )
    }
}

/// The vertices of the character at place `index`: those of its glyph, or
/// none where the font has no glyph for it. A space has none.
pub open spec fn char_quads(line: Line, index: int, ch: char) -> Seq<Vertex> {
    match glyph_rows(ch) {
        Some(rows) => glyph_quads(line, index, rows, FONT_HEIGHT as int),
        None => Seq::empty(),
    }
}

/// The vertices of the first `upto` characters of a line. Every character
/// takes one advance of room, whether the font has a glyph for it or not.
pub open spec fn text_quads(line: Line, chars: Seq<char>, upto: int) -> Seq<Vertex>
    decreases upto,
{
    if upto <= 0 {
        Seq::empty()
    } else {
        text_quads(line, chars, upto - 1) + char_quads(line, upto - 1, chars[upto - 1])
    }
}

/// The width of a line of `count` characters, in glyph pixels: one advance
/// for each character, less the spacing after the last one. An empty line
/// has no width.
pub open spec fn line_width(count: int) -> int {
    if count <= 0 {
        0
    } else {
        count * advance() - 1
    }
}

impl Line {
    /// A line can be drawn where its canvas is well formed and its origin
    /// is near enough for arithmetic in 128 bits.
    pub open spec fn wf(self) -> bool {
        &&& self.canvas.wf()
        &&& -ORIGIN_LIMIT <= self.origin.x <= ORIGIN_LIMIT
        &&& -ORIGIN_LIMIT <= self.origin.y <= ORIGIN_LIMIT
    }
}

/// No origin of a line may exceed this bound in magnitude.
pub const ORIGIN_LIMIT: i128 = 0x10_0000_0000_0000_0000_0000_0000;

/// Whether pixel `col` of a glyph row is filled.
fn pixel_is_set(bits: u8, col: usize) -> (set: bool)
    requires
        col < FONT_WIDTH,
    ensures
        set == pixel_set(bits, col as int),
{
    (bits >> ((FONT_WIDTH - 1 - col) as u8)) & 1 == 1
}

/// The width of `text` in glyph pixels, at scale one.
pub fn text_pixel_width(text: &str) -> (units: i128)
    ensures
        units == line_width(text@.len() as int),
{
    let count = text.unicode_len();
    if count == 0 {
        0
    } else {
        let advance: i128 = FONT_WIDTH as i128 + 1;
        assert(count * advance == count * 6);
        (count as i128) * advance - 1
    }
}

/// What `str::to_uppercase` makes of a text.
pub uninterp spec fn uppercase_of(text: Seq<char>) -> Seq<char>;

/// The text in upper case, by `str::to_uppercase` of the standard library:
/// each character is replaced by its upper-case counterpart in Unicode,
/// which may be more than one character. The result depends on the text
/// alone and is known here only by its name, `uppercase_of`.
#[verifier::external_body]
fn to_uppercase(text: &str) -> (folded: String)
    ensures
        folded@ == uppercase_of(text@),
{
    text.to_uppercase()
}

/// The rectangle of one glyph pixel.
fn pixel_rect_of(line: &Line, index: usize, row: usize, col: usize) -> (rect: Rect)
    requires
        line.wf(),
        row < FONT_HEIGHT,
        col < FONT_WIDTH,
    ensures
        rect == pixel_rect(line.origin, line.scale as int, index as int, row as int, col as int),
        rect.in_reach(),
{
    let scale: i128 = line.scale as i128;
    let step: i128 = FONT_WIDTH as i128 + 1;
    assert(index * step == index * 6);
    let place: i128 = (index as i128) * step + (col as i128);
    proof {
        lemma_scaled_bound(place as int, scale as int);
        lemma_scaled_bound(row as int, scale as int);
    }
    let left: i128 = line.origin.x + place * scale;
    let top: i128 = line.origin.y + (row as i128) * scale;
    Rect { min: Point { x: left, y: top }, max: Point { x: left + scale, y: top + scale } }
}

/// A place in a line, scaled, stays small.
proof fn lemma_scaled_bound(place: int, scale: int)
    requires
        0 <= place <= 0x8_0000_0000_0000_0000,
        0 <= scale <= u32::MAX,
    ensures
        0 <= place * scale <= 0x8_0000_0000_0000_0000 * 0x1_0000_0000,
{
    assert(0 <= place * scale <= 0x8_0000_0000_0000_0000 * 0x1_0000_0000) by (nonlinear_arith)
        requires
            0 <= place <= 0x8_0000_0000_0000_0000,
            0 <= scale <= 0x1_0000_0000,
    ;
}

/// Appends the rectangles of the filled pixels of one glyph row.
fn draw_glyph_row(vertices: &mut Vec<Vertex>, line: &Line, index: usize, bits: u8, row: usize)
    requires
        line.wf(),
        row < FONT_HEIGHT,
    ensures
        final(vertices)@ == old(vertices)@ + row_quads(
            *line,
            index as int,
            bits,
            row as int,
            FONT_WIDTH as int,
        ),
{
    let mut col: usize = 0;
    while col < FONT_WIDTH
        invariant
            col <= FONT_WIDTH,
            line.wf(),
            row < FONT_HEIGHT,
            vertices@ == old(vertices)@ + row_quads(*line, index as int, bits, row as int, col as int),
        decreases FONT_WIDTH - col,
    {
        if pixel_is_set(bits, col) {
            let rect = pixel_rect_of(line, index, row, col);
            push_rect(vertices, rect, line.color, line.canvas);
        }
        col = col + 1;
    }
}

/// Appends the rectangles of the filled pixels of one glyph.
fn draw_glyph(
    vertices: &mut Vec<Vertex>,
    line: &Line,
    index: usize,
    rows: &[u8; FONT_HEIGHT],
)
    requires
        line.wf(),
    ensures
        final(vertices)@ == old(vertices)@ + glyph_quads(
            *line,
            index as int,
            rows@,
            FONT_HEIGHT as int,
        ),
{
    let mut row: usize = 0;
    while row < FONT_HEIGHT
        invariant
            row <= FONT_HEIGHT,
            line.wf(),
            vertices@ == old(vertices)@ + glyph_quads(*line, index as int, rows@, row as int),
        decreases FONT_HEIGHT - row,
    {
        draw_glyph_row(vertices, line, index, rows[row], row);
        row = row + 1;
    }
}

/// Appends the rectangles of a line of text as it stands, with no change
/// of case. A character without a glyph, a space among them, leaves its
/// place empty.
pub fn draw_glyphs(vertices: &mut Vec<Vertex>, text: &str, line: &Line)
    requires
        line.wf(),
    ensures
        final(vertices)@ == old(vertices)@ + text_quads(*line, text@, text@.len() as int),
{
    let count = text.unicode_len();
    let mut index: usize = 0;
    while index < count
        invariant
            index <= count,
            count == text@.len(),
            line.wf(),
            vertices@ == old(vertices)@ + text_quads(*line, text@, index as int),
        decreases count - index,
    {
        let ch = text.get_char(index);
        match glyph_bits(ch) {
            Some(rows) => {
                draw_glyph(vertices, line, index, &rows);
            },
            None => {},
        }
        index = index + 1;
    }
}

/// Appends the rectangles of a line of text, drawn in upper case.
pub fn draw_text(vertices: &mut Vec<Vertex>, text: &str, line: &Line)
    requires
        line.wf(),
    ensures
        final(vertices)@ == old(vertices)@ + text_quads(
            *line,
            uppercase_of(text@),
            uppercase_of(text@).len() as int,
        ),
{
    let folded = to_uppercase(text);
    draw_glyphs(vertices, folded.as_str(), line);
}

} // verus!
