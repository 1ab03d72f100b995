//! The palette of a cell, and the text by which a surface is told a colour.

use ratatui::style::Color as Tint;
use vstd::prelude::*;

verus! {

/// A colour of the terminal palette: the default, the sixteen named colours,
/// a 24-bit colour, or one of the 256 indexed colours.
#[derive(Clone, Copy, Debug, PartialEq, Eq, Hash, Structural)]
pub enum Color {
    Reset,
    Black,
    Red,
    Green,
    Yellow,
    Blue,
    Magenta,
    Cyan,
    Gray,
    DarkGray,
    LightRed,
    LightGreen,
    LightYellow,
    LightBlue,
    LightMagenta,
    LightCyan,
    White,
    Rgb(u8, u8, u8),
    Indexed(u8),
}

/// The digit for `n`, for `n` below sixteen: decimal below ten, upper-case
/// hexadecimal throughout.
pub open spec fn digit(n: int) -> char {
    "0123456789ABCDEF"@[n]
}

/// A byte as two upper-case hexadecimal digits.
pub open spec fn hex_pair(byte: u8) -> Seq<char> {
    seq![digit(byte as int / 16), digit(byte as int % 16)]
}

/// A byte in decimal, without leading zeros.
pub open spec fn decimal(byte: u8) -> Seq<char> {
    let n = byte as int;
    if n < 10 {
        seq![digit(n)]
    } else if n < 100 {
        seq![digit(n / 10), digit(n % 10)]
    } else {
        seq![digit(n / 100), digit(n / 10 % 10), digit(n % 10)]
    }
}

/// The text of a colour: the name of a named colour, `#RRGGBB` for a 24-bit
/// colour, the index in decimal for an indexed one.
pub open spec fn color_text(color: Color) -> Seq<char> {
    match color {
        Color::Reset => "Reset"@,
        Color::Black => "Black"@,
        Color::Red => "Red"@,
        Color::Green => "Green"@,
        Color::Yellow => "Yellow"@,
        Color::Blue => "Blue"@,
        Color::Magenta => "Magenta"@,
        Color::Cyan => "Cyan"@,
        Color::Gray => "Gray"@,
        Color::DarkGray => "DarkGray"@,
        Color::LightRed => "LightRed"@,
        Color::LightGreen => "LightGreen"@,
        Color::LightYellow => "LightYellow"@,
        Color::LightBlue => "LightBlue"@,
        Color::LightMagenta => "LightMagenta"@,
        Color::LightCyan => "LightCyan"@,
        Color::White => "White"@,
        Color::Rgb(r, g, b) => seq!['#'] + hex_pair(r) + hex_pair(g) + hex_pair(b),
        Color::Indexed(i) => decimal(i),
    }
}

/// Calls `to_string` on the `ratatui::style::Color` of the same variant and
/// fields, which goes through that type's `Display`. The contract claims the
/// text that `Display` writes: the variant's name for the default and the named
/// colours, `#` and three bytes in two upper-case hexadecimal digits each for
/// `Rgb`, the index in decimal for `Indexed`.
#[verifier::external_body]
fn palette_text(color: Color) -> (text: String)
    ensures
        text@ == color_text(color),
{
    let tint = match color {
        Color::Reset => Tint::Reset, Color::Black => Tint::Black,
        Color::Red => Tint::Red, Color::Green => Tint::Green,
        Color::Yellow => Tint::Yellow, Color::Blue => Tint::Blue,
        Color::Magenta => Tint::Magenta, Color::Cyan => Tint::Cyan,
        Color::Gray => Tint::Gray, Color::DarkGray => Tint::DarkGray,
        Color::LightRed => Tint::LightRed, Color::LightGreen => Tint::LightGreen,
        Color::LightYellow => Tint::LightYellow, Color::LightBlue => Tint::LightBlue,
        Color::LightMagenta => Tint::LightMagenta, Color::LightCyan => Tint::LightCyan,
        Color::White => Tint::White, Color::Rgb(r, g, b) => Tint::Rgb(r, g, b),
        Color::Indexed(i) => Tint::Indexed(i),
    };
    tint.to_string()
}

impl Color {
    /// The text that tells a surface this colour.
    pub fn text(&self) -> (text: String)
        ensures
            text@ == color_text(*self),
    {
        palette_text(*self)
    }
}

} // verus!
