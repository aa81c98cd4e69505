//! Display abstraction: the hardware-capability traits a text-mode
//! driver implements, the terminal palette, and the cursor arithmetic
//! a character-cell writer follows.
//!
//! The traits are the upward boundary of a peripheral driver; the
//! palette translation and cursor stepping are the computations such
//! a driver shares, verified here so an implementation outside this
//! crate only performs the raw cell writes.

use vstd::prelude::*;

verus! {

/// The sixteen terminal colours.
#[derive(Debug, Clone, Copy, PartialEq, Eq, Structural)]
pub enum TerminalColour {
    Black,
    DarkGray,
    Blue,
    LightBlue,
    Green,
    LightGreen,
    Cyan,
    LightCyan,
    Red,
    LightRed,
    Magenta,
    Pink,
    Brown,
    Yellow,
    LightGray,
    White,
}

/// The four-bit palette index the VGA text mode gives each colour.
pub open spec fn spec_colour_code(colour: TerminalColour) -> u8 {
    match colour {
        TerminalColour::Black => 0,
        TerminalColour::Blue => 1,
        TerminalColour::Green => 2,
        TerminalColour::Cyan => 3,
        TerminalColour::Red => 4,
        TerminalColour::Magenta => 5,
        TerminalColour::Brown => 6,
        TerminalColour::LightGray => 7,
        TerminalColour::DarkGray => 8,
        TerminalColour::LightBlue => 9,
        TerminalColour::LightGreen => 10,
        TerminalColour::LightCyan => 11,
        TerminalColour::LightRed => 12,
        TerminalColour::Pink => 13,
        TerminalColour::Yellow => 14,
        TerminalColour::White => 15,
    }
}

pub fn colour_code(colour: TerminalColour) -> (code: u8)
    ensures
        code == spec_colour_code(colour),
{
    match colour {
        TerminalColour::Black => 0,
        TerminalColour::Blue => 1,
        TerminalColour::Green => 2,
        TerminalColour::Cyan => 3,
        TerminalColour::Red => 4,
        TerminalColour::Magenta => 5,
        TerminalColour::Brown => 6,
        TerminalColour::LightGray => 7,
        TerminalColour::DarkGray => 8,
        TerminalColour::LightBlue => 9,
        TerminalColour::LightGreen => 10,
        TerminalColour::LightCyan => 11,
        TerminalColour::LightRed => 12,
        TerminalColour::Pink => 13,
        TerminalColour::Yellow => 14,
        TerminalColour::White => 15,
    }
}

/// Where the cursor stands after one character cell is written at
/// `cursor` on a `width` by `height` screen: one cell to the right,
/// or the start of the next row, or — at the bottom right, where the
/// screen scrolls one row — the start of the same last row.
pub open spec fn spec_advance(cursor: (int, int), width: int, height: int) -> (int, int) {
    if cursor.0 + 1 < width {
        (cursor.0 + 1, cursor.1)
    } else if cursor.1 + 1 < height {
        (0, cursor.1 + 1)
    } else {
        (0, cursor.1)
    }
}

/// Where the cursor stands after `count` character cells are written
/// in sequence from `cursor`.
pub open spec fn spec_cursor_after(cursor: (int, int), count: int, width: int, height: int) -> (
    int,
    int,
)
    decreases count,
{
    if count <= 0 {
        cursor
    } else {
        spec_cursor_after(spec_advance(cursor, width, height), count - 1, width, height)
    }
}

/// Step the cursor past one written cell.
pub fn advance_cursor(cursor: (usize, usize), width: usize, height: usize) -> (next: (
    usize,
    usize,
))
    requires
        1 <= width,
        1 <= height,
        cursor.0 < width,
        cursor.1 < height,
    ensures
        (next.0 as int, next.1 as int) == spec_advance(
            (cursor.0 as int, cursor.1 as int),
            width as int,
            height as int,
        ),
        next.0 < width,
        next.1 < height,
{
    if cursor.0 + 1 < width {
        (cursor.0 + 1, cursor.1)
    } else if cursor.1 + 1 < height {
        (0, cursor.1 + 1)
    } else {
        (0, cursor.1)
    }
}

/// Step the cursor past `count` written cells: the cursor a writer
/// leaves after putting that many characters on the screen.
pub fn cursor_after_write(cursor: (usize, usize), count: usize, width: usize, height: usize) -> (
    last: (usize, usize))
    requires
        1 <= width,
        1 <= height,
        cursor.0 < width,
        cursor.1 < height,
    ensures
        (last.0 as int, last.1 as int) == spec_cursor_after(
            (cursor.0 as int, cursor.1 as int),
            count as int,
            width as int,
            height as int,
        ),
        last.0 < width,
        last.1 < height,
{
    let mut current = cursor;
    let mut remaining = count;
    while remaining > 0
        invariant
            1 <= width,
            1 <= height,
            current.0 < width,
            current.1 < height,
            remaining <= count,
            spec_cursor_after(
                (current.0 as int, current.1 as int),
                remaining as int,
                width as int,
                height as int,
            ) == spec_cursor_after(
                (cursor.0 as int, cursor.1 as int),
                count as int,
                width as int,
                height as int,
            ),
        decreases remaining,
    {
        current = advance_cursor(current, width, height);
        remaining = remaining - 1;
    }
    current
}

/// What every display offers: its dimensions in character cells.
pub trait BaseDisplay {
    fn display_width(&self) -> usize;

    fn display_height(&self) -> usize;

    fn display_dimensions(&self) -> (usize, usize) {
        (self.display_width(), self.display_height())
    }
}

/// A character-cell terminal over a display: palette, cursor, and
/// string writing. Implementations live with the hardware, outside
/// this crate; writers are expected to move the cursor as
/// `cursor_after_write` computes it.
pub trait TerminalDisplay: BaseDisplay {
    fn foreground_colour(&self) -> TerminalColour;

    fn background_colour(&self) -> TerminalColour;

    fn set_foreground_colour(&mut self, colour: TerminalColour);

    fn set_background_colour(&mut self, colour: TerminalColour);

    fn cursor(&self) -> (usize, usize);

    fn set_cursor(&self, cursor: (usize, usize));

    fn cursor_enabled(&self) -> bool;

    fn set_cursor_enabled(&self, enabled: bool);

    fn write_str_at(&self, s: &str, cursor: (usize, usize)) -> (usize, usize);

    fn write_str(&self, s: &str);
}

} // verus!
