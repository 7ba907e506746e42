//! Colours and the cells of the grid.

use vstd::prelude::*;

verus! {

/// A colour of four channels: red, green, blue and opacity.
///
/// Each channel runs from 0 (none) to 255 (full intensity).
#[derive(Clone, Copy, Debug, PartialEq, Eq, Structural)]
pub struct Color {
    pub red: u8,
    pub green: u8,
    pub blue: u8,
    pub alpha: u8,
}

/// The colour that a graphic-rendition parameter selects.
///
/// `0` and `39` restore the default, which is white; `30` to `37` select
/// black, red, green, yellow, blue, magenta, cyan and white. Every other
/// parameter, the bold attribute `1` among them, selects nothing.
pub open spec fn sgr_color(code: u16) -> Option<Color> {
    if code == 0 || code == 37 || code == 39 {
        Some(Color { red: 255, green: 255, blue: 255, alpha: 255 })
    } else if code == 30 {
        Some(Color { red: 0, green: 0, blue: 0, alpha: 255 })
    } else if code == 31 {
        Some(Color { red: 255, green: 0, blue: 0, alpha: 255 })
    } else if code == 32 {
        Some(Color { red: 0, green: 255, blue: 0, alpha: 255 })
    } else if code == 33 {
        Some(Color { red: 255, green: 255, blue: 0, alpha: 255 })
    } else if code == 34 {
        Some(Color { red: 0, green: 0, blue: 255, alpha: 255 })
    } else if code == 35 {
        Some(Color { red: 255, green: 0, blue: 255, alpha: 255 })
    } else if code == 36 {
        Some(Color { red: 0, green: 255, blue: 255, alpha: 255 })
    } else {
        None
    }
}

impl Color {
    /// Opaque white: the default colour of text.
    pub open spec fn white() -> Color {
        Color { red: 255, green: 255, blue: 255, alpha: 255 }
    }

    /// A colour from its four channels.
    pub fn new(red: u8, green: u8, blue: u8, alpha: u8) -> (color: Color)
        ensures
            color == (Color { red, green, blue, alpha }),
        no_unwind
    {
        Color { red, green, blue, alpha }
    }

    /// The colour that the graphic-rendition parameter `code` selects, if any.
    pub fn from_sgr(code: u16) -> (color: Option<Color>)
        ensures
            color == sgr_color(code),
    {
        match code {
            0 | 37 | 39 => Some(Color::new(255, 255, 255, 255)),
            30 => Some(Color::new(0, 0, 0, 255)),
            31 => Some(Color::new(255, 0, 0, 255)),
            32 => Some(Color::new(0, 255, 0, 255)),
            33 => Some(Color::new(255, 255, 0, 255)),
            34 => Some(Color::new(0, 0, 255, 255)),
            35 => Some(Color::new(255, 0, 255, 255)),
            36 => Some(Color::new(0, 255, 255, 255)),
            _ => None,
        }
    }
}

/// Whether `c` is drawn two columns wide: the East Asian wide and fullwidth
/// blocks, and the pictographs.
pub open spec fn is_wide(c: char) -> bool {
    let p = c as u32;
    ||| 0x1100 <= p <= 0x115F
    ||| 0x2E80 <= p <= 0x303E
    ||| 0x3041 <= p <= 0x33FF
    ||| 0x3400 <= p <= 0x4DBF
    ||| 0x4E00 <= p <= 0x9FFF
    ||| 0xA000 <= p <= 0xA4CF
    ||| 0xAC00 <= p <= 0xD7A3
    ||| 0xF900 <= p <= 0xFAFF
    ||| 0xFE30 <= p <= 0xFE4F
    ||| 0xFF00 <= p <= 0xFF60
    ||| 0xFFE0 <= p <= 0xFFE6
    ||| 0x1F300 <= p <= 0x1F64F
    ||| 0x1F900 <= p <= 0x1F9FF
    ||| 0x20000 <= p <= 0x3FFFD
}

/// The number of columns that `c` takes on the grid: 2 if it is wide, else 1.
pub open spec fn display_width(c: char) -> int {
    if is_wide(c) {
        2
    } else {
        1
    }
}

/// The number of columns that `c` takes on the grid.
pub fn char_width(c: char) -> (width: u8)
    ensures
        width == display_width(c),
    no_unwind
{
    let p: u32 = c as u32;
    let wide = (0x1100 <= p && p <= 0x115F) || (0x2E80 <= p && p <= 0x303E) || (0x3041 <= p && p
        <= 0x33FF) || (0x3400 <= p && p <= 0x4DBF) || (0x4E00 <= p && p <= 0x9FFF) || (0xA000 <= p
        && p <= 0xA4CF) || (0xAC00 <= p && p <= 0xD7A3) || (0xF900 <= p && p <= 0xFAFF) || (0xFE30
        <= p && p <= 0xFE4F) || (0xFF00 <= p && p <= 0xFF60) || (0xFFE0 <= p && p <= 0xFFE6) || (
    0x1F300 <= p && p <= 0x1F64F) || (0x1F900 <= p && p <= 0x1F9FF) || (0x20000 <= p && p
        <= 0x3FFFD);
    if wide {
        2
    } else {
        1
    }
}

/// One position of the grid: the character drawn there, if any, its colour
/// and the number of columns it takes.
#[derive(Clone, Copy, Debug, PartialEq, Eq, Structural)]
pub struct Cell {
    pub character: Option<char>,
    pub color: Color,
    pub width: u8,
}

impl Cell {
    /// The cell that shows nothing.
    pub open spec fn blank() -> Cell {
        Cell { character: None, color: Color::white(), width: 1 }
    }

    /// The cell that shows `c` in `color`.
    pub open spec fn showing(c: char, color: Color) -> Cell {
        Cell { character: Some(c), color, width: display_width(c) as u8 }
    }

    /// The cell that shows nothing.
    pub fn empty() -> (cell: Cell)
        ensures
            cell == Cell::blank(),
        no_unwind
    {
        Cell { character: None, color: Color::new(255, 255, 255, 255), width: 1 }
    }

    /// The cell that shows `c` in `color`.
    pub fn with_char(c: char, color: Color) -> (cell: Cell)
        ensures
            cell == Cell::showing(c, color),
        no_unwind
    {
        Cell { character: Some(c), color, width: char_width(c) }
    }

    /// Whether the cell shows nothing.
    pub fn is_empty(&self) -> (empty: bool)
        ensures
            empty == (self.character is None),
    {
        self.character.is_none()
    }
}

} // verus!
