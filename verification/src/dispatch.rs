//! One key press at a time: the action that a key stands for moves the
//! cursor and yields at most one paint command.

use crate::config::FONT_SIZE;
use crate::cursor::{Cursor, Point};
use crate::engine::{backspace, cell_before, echo, line_break};
use crate::keys::{standard_action, standard_actions, KeyAction, KeyMapView};
use crate::paint::{Paint, PaintView};
use vstd::prelude::*;
use vstd::string::StrSliceExecFns;

verus! {

/// The cursor can hold the position that `action` leads to from `at`, and
/// the command that it yields can be held too. `count` is the number of
/// characters in the identity of the key.
pub open spec fn applicable(at: Point, action: KeyAction, count: int, glyph_width: int) -> bool {
    match action {
        KeyAction::Ignore => true,
        KeyAction::LineBreak => at.y + FONT_SIZE <= i64::MAX,
        KeyAction::Backspace => i64::MIN <= at.x - glyph_width && i64::MIN <= at.y - FONT_SIZE,
        KeyAction::Write => at.x + count * glyph_width <= i64::MAX,
    }
}

/// Where `action` takes the cursor from `at`.
pub open spec fn moved(at: Point, action: KeyAction, count: int, glyph_width: int) -> Point {
    match action {
        KeyAction::Ignore => at,
        KeyAction::LineBreak => at.next_line(),
        KeyAction::Backspace => at.retreated(glyph_width),
        KeyAction::Write => at.advanced(count, glyph_width),
    }
}

/// What `action` paints with the cursor at `at`; `text` is the identity of
/// the key.
pub open spec fn painted(
    at: Point,
    action: KeyAction,
    text: Seq<char>,
    glyph_width: int,
) -> PaintView {
    match action {
        KeyAction::Ignore => PaintView::Nothing,
        KeyAction::LineBreak => PaintView::Nothing,
        KeyAction::Backspace => cell_before(at, glyph_width),
        KeyAction::Write => echo(at, text),
    }
}

/// Whether `apply` may be called with these arguments: whether the move
/// that `action` asks for keeps the cursor and the command within what their
/// coordinates can hold.
pub fn can_apply(cursor: &Cursor, action: KeyAction, key: &str, glyph_width: u32) -> (ok: bool)
    ensures
        ok == applicable(cursor@, action, key@.len() as int, glyph_width as int),
{
    match action {
        KeyAction::Ignore => true,
        KeyAction::LineBreak => cursor.y <= i64::MAX - FONT_SIZE,
        KeyAction::Backspace => {
            cursor.x >= i64::MIN + glyph_width as i64 && cursor.y >= i64::MIN + FONT_SIZE
        },
        KeyAction::Write => {
            let count: usize = key.unicode_len();
            assert(0 <= count * glyph_width <= usize::MAX * u32::MAX) by (nonlinear_arith)
                requires
                    0 <= count <= usize::MAX,
                    0 <= glyph_width <= u32::MAX,
            ;
            let end: i128 = cursor.x as i128 + (count as i128) * (glyph_width as i128);
            end <= i64::MAX as i128
        },
    }
}

/// Carries out the action of one key press: exactly one operation of the
/// engine, or none for a key that is ignored. `key` is the identity of the
/// key, which is the text that a written key paints.
pub fn apply<'a>(
    cursor: &mut Cursor,
    action: KeyAction,
    key: &'a str,
    glyph_width: u32,
) -> (paint: Paint<'a>)
    requires
        applicable(old(cursor)@, action, key@.len() as int, glyph_width as int),
    ensures
        final(cursor)@ == moved(old(cursor)@, action, key@.len() as int, glyph_width as int),
        paint@ == painted(old(cursor)@, action, key@, glyph_width as int),
        action is Ignore ==> *final(cursor) == *old(cursor) && paint is Nothing,
{
    match action {
        KeyAction::Ignore => Paint::Nothing,
        KeyAction::LineBreak => {
            line_break(cursor);
            Paint::Nothing
        },
        KeyAction::Backspace => backspace(cursor, glyph_width),
        KeyAction::Write => crate::engine::write(cursor, key, glyph_width),
    }
}

/// Under the usual bindings a press of `Shift`, `Alt` or `Control` leaves
/// the cursor where it is and paints nothing, whatever the glyph width.
pub proof fn ignored_keys_change_nothing(at: Point, key: Seq<char>, glyph_width: int)
    requires
        key == "Shift"@ || key == "Alt"@ || key == "Control"@,
    ensures
        standard_action(key) == KeyAction::Ignore,
        KeyMapView::standard().action_for(key) == KeyAction::Ignore,
        moved(at, KeyMapView::standard().action_for(key), key.len() as int, glyph_width) == at,
        painted(at, KeyMapView::standard().action_for(key), key, glyph_width)
            == PaintView::Nothing,
{
    standard_actions(key);
}

} // verus!
