//! The cursor and the moves it can make, stated over unbounded integers.

use crate::config::FONT_SIZE;
use vstd::prelude::*;

verus! {

/// A pixel position with unbounded coordinates: `x` counts from the left
/// edge of the surface, `y` from its top.
pub struct Point {
    pub x: int,
    pub y: int,
}

/// Where the next glyph will be painted: `x` is its left edge, `y` the
/// baseline of the line.
#[derive(Clone, Copy, Debug, PartialEq, Eq, Structural)]
pub struct Cursor {
    pub x: i64,
    pub y: i64,
}

impl View for Cursor {
    type V = Point;

    open spec fn view(&self) -> Point {
        Point { x: self.x as int, y: self.y as int }
    }
}

impl Point {
    /// The left end of the first line.
    pub open spec fn home() -> Point {
        Point { x: 0, y: FONT_SIZE as int }
    }

    /// Both coordinates can be held by a `Cursor`.
    pub open spec fn representable(self) -> bool {
        &&& i64::MIN <= self.x <= i64::MAX
        &&& i64::MIN <= self.y <= i64::MAX
    }

    /// The position after `count` glyphs of width `glyph_width` were written.
    pub open spec fn advanced(self, count: int, glyph_width: int) -> Point {
        Point { x: self.x + count * glyph_width, y: self.y }
    }

    /// The position after a line break: the left end of the next line.
    pub open spec fn next_line(self) -> Point {
        Point { x: 0, y: self.y + FONT_SIZE }
    }

    /// The position after one glyph was taken back. From the left end of a
    /// line this is the left end of the line above, not the end of its text.
    pub open spec fn retreated(self, glyph_width: int) -> Point {
        if self.x == 0 {
            Point { x: 0, y: self.y - FONT_SIZE }
        } else {
            Point { x: self.x - glyph_width, y: self.y }
        }
    }
}

impl Cursor {
    /// A cursor at the left end of the first line.
    pub fn new() -> (cursor: Cursor)
        ensures
            cursor@ == Point::home(),
            cursor.x == 0,
            cursor.y == FONT_SIZE,
    {
        Cursor { x: 0, y: FONT_SIZE }
    }
}

} // verus!
