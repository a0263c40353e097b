//! The four operations of the cursor and paint engine. Each one moves the
//! cursor and returns the command that the drawing surface is to carry out.

use crate::config::{BACKGROUND_COLOR, FONT_COLOR, FONT_FAMILY, FONT_SIZE};
use crate::cursor::{Cursor, Point};
use crate::paint::{Paint, PaintView};
use vstd::prelude::*;
use vstd::string::StrSliceExecFns;

verus! {

/// What a fresh surface needs: `clear` is carried out first, then the font
/// of `font_size` pixels from `font_family` is made the active font.
#[derive(Clone, Copy, Debug)]
pub struct Startup {
    pub cursor: Cursor,
    pub clear: Paint<'static>,
    pub font_size: i64,
    pub font_family: &'static str,
}

/// The command that fills a surface of `width` by `height` pixels with the
/// background colour.
pub open spec fn clearing(width: int, height: int) -> PaintView {
    PaintView::Rect { x: 0, y: 0, width, height, color: BACKGROUND_COLOR@ }
}

/// The command that paints `text` in the font colour, its left edge and
/// baseline at `at`.
pub open spec fn echo(at: Point, text: Seq<char>) -> PaintView {
    PaintView::Text { text, x: at.x, y: at.y, color: FONT_COLOR@ }
}

/// The command that fills the glyph cell whose bottom right corner is `at`
/// with the background colour: `glyph_width` columns up to `at.x`, one line
/// of rows up to `at.y`.
pub open spec fn cell_before(at: Point, glyph_width: int) -> PaintView {
    PaintView::Rect {
        x: at.x - glyph_width,
        y: at.y - FONT_SIZE,
        width: glyph_width,
        height: FONT_SIZE as int,
        color: BACKGROUND_COLOR@,
    }
}

/// Starts a session on a surface of `width` by `height` pixels: the whole
/// surface is to be filled with the background colour, the font is fixed,
/// and the cursor stands at the left end of the first line.
pub fn initialize(width: u32, height: u32) -> (startup: Startup)
    ensures
        startup.cursor@ == Point::home(),
        startup.clear@ == clearing(width as int, height as int),
        forall|px: int, py: int| #[trigger]
            startup.clear@.fills(px, py) <==> 0 <= px < width && 0 <= py < height,
        startup.font_size == FONT_SIZE,
        startup.font_family@ == FONT_FAMILY@,
{
    Startup {
        cursor: Cursor::new(),
        clear: Paint::Rect {
            x: 0,
            y: 0,
            width: width as i64,
            height: height as i64,
            color: BACKGROUND_COLOR,
        },
        font_size: FONT_SIZE,
        font_family: FONT_FAMILY,
    }
}

/// Paints `text` at the cursor and moves the cursor right by one glyph width
/// for each character of it. The line is never wrapped.
pub fn write<'a>(cursor: &mut Cursor, text: &'a str, glyph_width: u32) -> (paint: Paint<'a>)
    requires
        old(cursor).x + text@.len() * glyph_width <= i64::MAX,
    ensures
        paint@ == echo(old(cursor)@, text@),
        final(cursor).x == old(cursor).x + text@.len() * glyph_width,
        final(cursor).y == old(cursor).y,
        final(cursor)@ == old(cursor)@.advanced(text@.len() as int, glyph_width as int),
{
    let paint = Paint::Text { text, x: cursor.x, y: cursor.y, color: FONT_COLOR };
    let count: usize = text.unicode_len();
    assert(0 <= count * glyph_width <= usize::MAX * u32::MAX) by (nonlinear_arith)
        requires
            0 <= count <= usize::MAX,
            0 <= glyph_width <= u32::MAX,
    ;
    let advance: i128 = (count as i128) * (glyph_width as i128);
    cursor.x = (cursor.x as i128 + advance) as i64;
    paint
}

/// Moves the cursor to the left end of the next line.
pub fn line_break(cursor: &mut Cursor)
    requires
        old(cursor).y + FONT_SIZE <= i64::MAX,
    ensures
        final(cursor).x == 0,
        final(cursor).y == old(cursor).y + FONT_SIZE,
        final(cursor)@ == old(cursor)@.next_line(),
{
    cursor.x = 0;
    cursor.y = cursor.y + FONT_SIZE;
}

/// The command that erases the glyph cell ending at `(x, y)`: the cell
/// spans the columns from `x - glyph_width` up to `x` and the rows from
/// `y - FONT_SIZE` up to `y`.
pub fn erase(x: i64, y: i64, glyph_width: u32) -> (paint: Paint<'static>)
    requires
        i64::MIN <= x - glyph_width,
        i64::MIN <= y - FONT_SIZE,
    ensures
        paint@ == cell_before((Point { x: x as int, y: y as int }), glyph_width as int),
        forall|px: int, py: int| #[trigger]
            paint@.fills(px, py) <==> x - glyph_width <= px < x && y - FONT_SIZE <= py < y,
{
    Paint::Rect {
        x: x - glyph_width as i64,
        y: y - FONT_SIZE,
        width: glyph_width as i64,
        height: FONT_SIZE,
        color: BACKGROUND_COLOR,
    }
}

/// Erases the glyph cell that ends at the cursor, then moves the cursor
/// back: by one glyph width within a line, and from the left end of a line
/// to the left end of the line above. The cell erased is always the one
/// before the cursor as it stood when the call was made.
pub fn backspace(cursor: &mut Cursor, glyph_width: u32) -> (paint: Paint<'static>)
    requires
        i64::MIN <= old(cursor).x - glyph_width,
        i64::MIN <= old(cursor).y - FONT_SIZE,
    ensures
        paint@ == cell_before(old(cursor)@, glyph_width as int),
        old(cursor).x == 0 ==> final(cursor).x == 0 && final(cursor).y == old(cursor).y
            - FONT_SIZE,
        old(cursor).x != 0 ==> final(cursor).x == old(cursor).x - glyph_width && final(cursor).y
            == old(cursor).y,
        final(cursor)@ == old(cursor)@.retreated(glyph_width as int),
{
    let paint = erase(cursor.x, cursor.y, glyph_width);
    if cursor.x == 0 {
        cursor.y = cursor.y - FONT_SIZE;
    } else {
        cursor.x = cursor.x - glyph_width as i64;
    }
    paint
}

/// A text written in two parts ends where the whole text written at once
/// ends, and the second part starts where its first glyph stands in the
/// whole text.
pub proof fn write_in_parts(at: Point, first: Seq<char>, second: Seq<char>, glyph_width: int)
    ensures
        at.advanced(first.len() as int, glyph_width).advanced(second.len() as int, glyph_width)
            == at.advanced((first + second).len() as int, glyph_width),
        echo(at.advanced(first.len() as int, glyph_width), second)->Text_x == echo(
            at,
            first + second,
        ).glyph_left(first.len() as int, glyph_width),
{
    assert((first.len() + second.len()) * glyph_width == first.len() * glyph_width + second.len()
        * glyph_width) by (nonlinear_arith);
}

/// A backspace after one glyph was written erases the cell of that glyph
/// and takes the cursor back to where it was, unless writing the glyph has
/// led the cursor to the left edge.
pub proof fn backspace_takes_back_one_glyph(at: Point, glyph_width: int)
    ensures
        forall|px: int, py: int| #[trigger]
            cell_before(at.advanced(1, glyph_width), glyph_width).fills(px, py) <==> at.x <= px
                < at.x + glyph_width && at.y - FONT_SIZE <= py < at.y,
        at.x + glyph_width != 0 ==> at.advanced(1, glyph_width).retreated(glyph_width) == at,
{
}

/// A backspace right after a line break returns to the line that was left,
/// at its left end.
pub proof fn backspace_takes_back_line_break(at: Point, glyph_width: int)
    ensures
        at.next_line().retreated(glyph_width) == (Point { x: 0, y: at.y }),
{
}

} // verus!
