//! The commands that the engine hands to the drawing surface.

use vstd::prelude::*;

verus! {

/// One instruction for the drawing surface. A command is carried out by
/// making `color` the fill colour of the surface and then filling the text
/// or the rectangle.
#[derive(Clone, Copy, Debug, PartialEq, Eq)]
pub enum Paint<'a> {
    /// Leave the surface as it is.
    Nothing,
    /// Fill `text` with its left edge at `x` and its baseline at `y`.
    Text { text: &'a str, x: i64, y: i64, color: &'static str },
    /// Fill the rectangle whose top left corner is `(x, y)`.
    Rect { x: i64, y: i64, width: i64, height: i64, color: &'static str },
}

/// A paint command over unbounded integers and sequences of characters.
pub enum PaintView {
    Nothing,
    Text { text: Seq<char>, x: int, y: int, color: Seq<char> },
    Rect { x: int, y: int, width: int, height: int, color: Seq<char> },
}

impl<'a> View for Paint<'a> {
    type V = PaintView;

    open spec fn view(&self) -> PaintView {
        match *self {
            Paint::Nothing => PaintView::Nothing,
            Paint::Text { text, x, y, color } => PaintView::Text {
                text: text@,
                x: x as int,
                y: y as int,
                color: color@,
            },
            Paint::Rect { x, y, width, height, color } => PaintView::Rect {
                x: x as int,
                y: y as int,
                width: width as int,
                height: height as int,
                color: color@,
            },
        }
    }
}

impl PaintView {
    /// The command fills the pixel in column `px` and row `py` with its
    /// colour. Only a rectangle fills whole pixels by its position alone:
    /// the columns from `x` up to `x + width`, the rows from `y` up to
    /// `y + height`, the upper ends left out.
    pub open spec fn fills(self, px: int, py: int) -> bool {
        match self {
            PaintView::Rect { x, y, width, height, .. } => {
                &&& x <= px < x + width
                &&& y <= py < y + height
            },
            _ => false,
        }
    }

    /// The left edge of the glyph at `index` in a text whose glyphs are
    /// `glyph_width` wide each.
    pub open spec fn glyph_left(self, index: int, glyph_width: int) -> int
        recommends
            self is Text,
    {
        self->Text_x + index * glyph_width
    }
}

} // verus!
