//! One grid position's content for one frame.

use crate::color::Color;
use vstd::prelude::*;

verus! {

/// The text attributes of a cell, one bit each.
#[derive(Clone, Copy, Debug, PartialEq, Eq, Hash, Structural)]
pub struct Modifier {
    pub bits: u16,
}

impl Modifier {
    pub const BOLD: u16 = 0x001;

    pub const DIM: u16 = 0x002;

    pub const ITALIC: u16 = 0x004;

    pub const UNDERLINED: u16 = 0x008;

    pub const SLOW_BLINK: u16 = 0x010;

    pub const RAPID_BLINK: u16 = 0x020;

    pub const REVERSED: u16 = 0x040;

    pub const HIDDEN: u16 = 0x080;

    pub const CROSSED_OUT: u16 = 0x100;

    /// No attribute at all.
    pub fn empty() -> (modifier: Modifier)
        ensures
            modifier.bits == 0,
    {
        Modifier { bits: 0 }
    }
}

/// A glyph with its style. The glyph is a short run of text, most often one
/// visible character. A backend reads cells and never changes them.
#[derive(Clone, Debug, PartialEq, Eq)]
pub struct Cell {
    pub symbol: String,
    pub fg: Color,
    pub bg: Color,
    pub underline_color: Color,
    pub modifier: Modifier,
}

impl Cell {
    /// A cell that shows `symbol` in the default style.
    pub fn new(symbol: &str) -> (cell: Cell)
        ensures
            cell.symbol@ == symbol@,
            cell.fg == Color::Reset,
            cell.bg == Color::Reset,
            cell.underline_color == Color::Reset,
            cell.modifier.bits == 0,
    {
        Cell {
            symbol: symbol.to_owned(),
            fg: Color::Reset,
            bg: Color::Reset,
            underline_color: Color::Reset,
            modifier: Modifier::empty(),
        }
    }
}

} // verus!
