use canvas_terminal::cursor::Cursor;
use canvas_terminal::dispatch::{apply, can_apply};
use canvas_terminal::engine::initialize;
use canvas_terminal::keys::{KeyAction, KeyMap};
use canvas_terminal::paint::Paint;

fn press<'a>(cursor: &mut Cursor, keys: &KeyMap, key: &'a str, glyph_width: u32) -> Paint<'a> {
    let action = keys.lookup(key);
    assert!(can_apply(cursor, action, key, glyph_width));
    apply(cursor, action, key, glyph_width)
}

#[test]
fn enter_after_hi() {
    let keys = KeyMap::standard();
    let mut cursor = Cursor { x: 36, y: 30 };
    let paint = press(&mut cursor, &keys, "Enter", 18);
    assert_eq!(paint, Paint::Nothing);
    assert_eq!(cursor, Cursor { x: 0, y: 60 });
}

#[test]
fn backspace_key_mid_line() {
    let keys = KeyMap::standard();
    let mut cursor = Cursor { x: 36, y: 30 };
    let paint = press(&mut cursor, &keys, "Backspace", 18);
    assert_eq!(paint, Paint::Rect { x: 18, y: 0, width: 18, height: 30, color: "#282a36" });
    assert_eq!(cursor, Cursor { x: 18, y: 30 });
}

#[test]
fn backspace_key_at_line_start() {
    let keys = KeyMap::standard();
    let mut cursor = Cursor { x: 0, y: 30 };
    let paint = press(&mut cursor, &keys, "Backspace", 18);
    assert_eq!(paint, Paint::Rect { x: -18, y: 0, width: 18, height: 30, color: "#282a36" });
    assert_eq!(cursor, Cursor { x: 0, y: 0 });
}

#[test]
fn keys_h_and_i() {
    let keys = KeyMap::standard();
    let mut cursor = initialize(1024, 768).cursor;
    let first = press(&mut cursor, &keys, "H", 18);
    let second = press(&mut cursor, &keys, "i", 18);
    assert_eq!(first, Paint::Text { text: "H", x: 0, y: 30, color: "#f8f8f2" });
    assert_eq!(second, Paint::Text { text: "i", x: 18, y: 30, color: "#f8f8f2" });
    assert_eq!(cursor, Cursor { x: 36, y: 30 });
}

#[test]
fn ignored_keys_are_no_ops() {
    let keys = KeyMap::standard();
    for key in ["Shift", "Alt", "Control"] {
        for start in [Cursor { x: 0, y: 30 }, Cursor { x: 36, y: 30 }, Cursor { x: -7, y: 900 }] {
            let mut cursor = start;
            let paint = press(&mut cursor, &keys, key, 18);
            assert_eq!(paint, Paint::Nothing);
            assert_eq!(cursor, start);
        }
    }
}

#[test]
fn ignored_keys_are_no_ops_at_the_limits() {
    let keys = KeyMap::standard();
    let start = Cursor { x: i64::MAX, y: i64::MIN };
    let mut cursor = start;
    let paint = press(&mut cursor, &keys, "Shift", u32::MAX);
    assert_eq!(paint, Paint::Nothing);
    assert_eq!(cursor, start);
}

#[test]
fn unnamed_key_is_written_by_its_name() {
    let keys = KeyMap::standard();
    let mut cursor = Cursor { x: 0, y: 30 };
    let paint = press(&mut cursor, &keys, "ArrowUp", 18);
    assert_eq!(paint, Paint::Text { text: "ArrowUp", x: 0, y: 30, color: "#f8f8f2" });
    assert_eq!(cursor, Cursor { x: 126, y: 30 });
}

#[test]
fn apply_each_action() {
    let mut cursor = Cursor { x: 40, y: 60 };
    assert_eq!(apply(&mut cursor, KeyAction::Ignore, "k", 20), Paint::Nothing);
    assert_eq!(cursor, Cursor { x: 40, y: 60 });
    assert_eq!(
        apply(&mut cursor, KeyAction::Write, "k", 20),
        Paint::Text { text: "k", x: 40, y: 60, color: "#f8f8f2" }
    );
    assert_eq!(cursor, Cursor { x: 60, y: 60 });
    assert_eq!(
        apply(&mut cursor, KeyAction::Backspace, "k", 20),
        Paint::Rect { x: 40, y: 30, width: 20, height: 30, color: "#282a36" }
    );
    assert_eq!(cursor, Cursor { x: 40, y: 60 });
    assert_eq!(apply(&mut cursor, KeyAction::LineBreak, "k", 20), Paint::Nothing);
    assert_eq!(cursor, Cursor { x: 0, y: 90 });
}

#[test]
fn a_short_session() {
    let keys = KeyMap::standard();
    let mut cursor = initialize(800, 600).cursor;
    for key in ["l", "s", "Shift", "Enter", "o", "k", "Backspace", "Backspace", "Backspace"] {
        press(&mut cursor, &keys, key, 18);
    }
    assert_eq!(cursor, Cursor { x: 0, y: 30 });
}

#[test]
fn can_apply_ignore_always() {
    let cursor = Cursor { x: i64::MAX, y: i64::MAX };
    assert!(can_apply(&cursor, KeyAction::Ignore, "Shift", u32::MAX));
    let cursor = Cursor { x: i64::MIN, y: i64::MIN };
    assert!(can_apply(&cursor, KeyAction::Ignore, "Shift", u32::MAX));
}

#[test]
fn can_apply_line_break_up_to_the_last_row() {
    assert!(can_apply(&Cursor { x: 0, y: 30 }, KeyAction::LineBreak, "Enter", 18));
    assert!(can_apply(&Cursor { x: 0, y: i64::MAX - 30 }, KeyAction::LineBreak, "Enter", 18));
    assert!(!can_apply(&Cursor { x: 0, y: i64::MAX - 29 }, KeyAction::LineBreak, "Enter", 18));
    assert!(!can_apply(&Cursor { x: 0, y: i64::MAX }, KeyAction::LineBreak, "Enter", 18));
}

#[test]
fn can_apply_write_up_to_the_last_column() {
    assert!(can_apply(&Cursor { x: 0, y: 30 }, KeyAction::Write, "a", 18));
    assert!(can_apply(&Cursor { x: i64::MAX - 36, y: 30 }, KeyAction::Write, "Hi", 18));
    assert!(!can_apply(&Cursor { x: i64::MAX - 35, y: 30 }, KeyAction::Write, "Hi", 18));
    assert!(can_apply(&Cursor { x: i64::MAX, y: 30 }, KeyAction::Write, "", 18));
    assert!(can_apply(&Cursor { x: i64::MAX, y: 30 }, KeyAction::Write, "Hi", 0));
    assert!(!can_apply(&Cursor { x: i64::MAX, y: 30 }, KeyAction::Write, "a", 1));
    assert!(can_apply(&Cursor { x: i64::MIN, y: 30 }, KeyAction::Write, "ab", u32::MAX));
}

#[test]
fn can_apply_backspace_down_to_the_first_column_and_row() {
    assert!(can_apply(&Cursor { x: 0, y: 0 }, KeyAction::Backspace, "Backspace", 18));
    assert!(can_apply(&Cursor { x: i64::MIN + 18, y: 30 }, KeyAction::Backspace, "Backspace", 18));
    assert!(!can_apply(&Cursor { x: i64::MIN + 17, y: 30 }, KeyAction::Backspace, "Backspace", 18));
    assert!(can_apply(&Cursor { x: 0, y: i64::MIN + 30 }, KeyAction::Backspace, "Backspace", 18));
    assert!(!can_apply(&Cursor { x: 0, y: i64::MIN + 29 }, KeyAction::Backspace, "Backspace", 18));
    assert!(can_apply(&Cursor { x: i64::MIN, y: 30 }, KeyAction::Backspace, "Backspace", 0));
}
