//! A terminal-like text surface: key presses move a pixel cursor and yield
//! the paint commands that echo or erase monospace glyphs on a canvas.

pub mod config;
pub mod cursor;
pub mod dispatch;
pub mod engine;
pub mod grid;
pub mod keys;
pub mod paint;
