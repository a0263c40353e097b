//! The fixed look of the text surface.

use vstd::prelude::*;

verus! {

/// Family of the font in which every glyph is drawn.
pub const FONT_FAMILY: &'static str = "monospace";

/// Font size in pixels: the height of a line and of a glyph cell.
pub const FONT_SIZE: i64 = 30;

/// Fill colour of glyphs.
pub const FONT_COLOR: &'static str = "#f8f8f2";

/// Fill colour of the cleared surface and of erased cells.
pub const BACKGROUND_COLOR: &'static str = "#282a36";

} // verus!
