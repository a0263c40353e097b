//! The grid of glyph cells that the cursor walks. The engine keeps no grid:
//! the cursor is a pair of pixel offsets, and these proofs show which moves
//! keep it on the corner of a cell.

use crate::config::FONT_SIZE;
use crate::cursor::Point;
use vstd::prelude::*;

verus! {

/// Where the cursor stands before the cell in column `column` of line
/// `line`, both counted from zero, on a grid of cells `glyph_width` wide and
/// one font size high: at the left edge of the cell, on its baseline.
pub open spec fn cell(column: nat, line: nat, glyph_width: nat) -> Point {
    Point { x: (column * glyph_width) as int, y: FONT_SIZE * (line + 1) }
}

/// Writing and line breaks keep the cursor on the grid: a session starts at
/// the first cell, writing `count` glyphs moves `count` columns to the
/// right, and a line break leads to the first column of the next line.
pub proof fn writing_stays_on_grid(column: nat, line: nat, count: nat, glyph_width: nat)
    ensures
        Point::home() == cell(0, 0, glyph_width),
        cell(column, line, glyph_width).advanced(count as int, glyph_width as int) == cell(
            column + count,
            line,
            glyph_width,
        ),
        cell(column, line, glyph_width).next_line() == cell(0, line + 1, glyph_width),
{
    assert((column + count) * glyph_width == column * glyph_width + count * glyph_width)
        by (nonlinear_arith);
    assert(FONT_SIZE * (line + 1 + 1) == FONT_SIZE * (line + 1) + FONT_SIZE)
        by (nonlinear_arith);
}

/// Within a line a backspace moves one column to the left, and from the
/// first column of any line but the first it leads to the first column of
/// the line above. Only from the first cell of all does the cursor leave
/// the grid: it then stands above the first line.
pub proof fn backspace_stays_on_grid(column: nat, line: nat, glyph_width: nat)
    requires
        glyph_width > 0,
    ensures
        column > 0 ==> cell(column, line, glyph_width).retreated(glyph_width as int) == cell(
            (column - 1) as nat,
            line,
            glyph_width,
        ),
        line > 0 ==> cell(0, line, glyph_width).retreated(glyph_width as int) == cell(
            0,
            (line - 1) as nat,
            glyph_width,
        ),
        cell(0, 0, glyph_width).retreated(glyph_width as int) == (Point { x: 0, y: 0 }),
{
    if column > 0 {
        assert(column * glyph_width > 0) by (nonlinear_arith)
            requires
                column > 0,
                glyph_width > 0,
        ;
        assert((column - 1) * glyph_width == column * glyph_width - glyph_width)
            by (nonlinear_arith);
    }
    if line > 0 {
        assert(FONT_SIZE * (line - 1 + 1) == FONT_SIZE * (line + 1) - FONT_SIZE)
            by (nonlinear_arith);
    }
}

} // verus!
