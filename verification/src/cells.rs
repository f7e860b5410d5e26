//! How a cell of an embedded terminal's grid is painted on the screen: its
//! colours, its text attributes, where it lands, and where the cursor goes.
use vstd::prelude::*;

use crate::events::area_fits;

verus! {

/// The named colours a terminal cell can carry.
#[derive(PartialEq, Eq, Structural, Clone, Copy, Debug)]
pub enum NamedColor {
    Black,
    Red,
    Green,
    Yellow,
    Blue,
    Magenta,
    Cyan,
    White,
    BrightBlack,
    BrightRed,
    BrightGreen,
    BrightYellow,
    BrightBlue,
    BrightMagenta,
    BrightCyan,
    BrightWhite,
    Foreground,
    Background,
    Cursor,
    DimBlack,
    DimRed,
    DimGreen,
    DimYellow,
    DimBlue,
    DimMagenta,
    DimCyan,
    DimWhite,
    BrightForeground,
    DimForeground,
}

/// The colour of a terminal cell: named, given as red/green/blue, or one of
/// the 256 indexed colours.
#[derive(PartialEq, Eq, Structural, Clone, Copy, Debug)]
pub enum CellColor {
    Named(NamedColor),
    Spec(u8, u8, u8),
    Indexed(u8),
}

/// A colour of the screen the program draws on.
#[derive(PartialEq, Eq, Structural, Clone, Copy, Debug)]
pub enum ScreenColor {
    Rgb(u8, u8, u8),
    Black,
    Red,
    Green,
    Yellow,
    Blue,
    Magenta,
    Cyan,
    White,
    DarkGray,
    LightRed,
    LightGreen,
    LightYellow,
    LightBlue,
    LightMagenta,
    LightCyan,
    Indexed(u8),
}

/// Pure black, which themes do not turn grey as they do the plain black.
pub open spec fn true_black() -> ScreenColor {
    ScreenColor::Rgb(0, 0, 0)
}

/// The screen colour of a named cell colour; `is_fg` tells whether it is the
/// text colour (the default foreground and background are white text on
/// black).
pub open spec fn named_screen_color(n: NamedColor, is_fg: bool) -> ScreenColor {
    match n {
        NamedColor::Black | NamedColor::DimBlack => true_black(),
        NamedColor::Red | NamedColor::DimRed => ScreenColor::Red,
        NamedColor::Green | NamedColor::DimGreen => ScreenColor::Green,
        NamedColor::Yellow | NamedColor::DimYellow => ScreenColor::Yellow,
        NamedColor::Blue | NamedColor::DimBlue => ScreenColor::Blue,
        NamedColor::Magenta | NamedColor::DimMagenta => ScreenColor::Magenta,
        NamedColor::Cyan | NamedColor::DimCyan => ScreenColor::Cyan,
        NamedColor::White | NamedColor::DimWhite => ScreenColor::White,
        NamedColor::BrightBlack => ScreenColor::DarkGray,
        NamedColor::BrightRed => ScreenColor::LightRed,
        NamedColor::BrightGreen => ScreenColor::LightGreen,
        NamedColor::BrightYellow => ScreenColor::LightYellow,
        NamedColor::BrightBlue => ScreenColor::LightBlue,
        NamedColor::BrightMagenta => ScreenColor::LightMagenta,
        NamedColor::BrightCyan => ScreenColor::LightCyan,
        NamedColor::BrightWhite | NamedColor::BrightForeground | NamedColor::Cursor => {
            ScreenColor::White
        },
        NamedColor::Foreground | NamedColor::DimForeground | NamedColor::Background => {
            if is_fg {
                ScreenColor::White
            } else {
                true_black()
            }
        },
    }
}

/// The screen colour of a cell colour.
pub open spec fn screen_color_of(c: CellColor, is_fg: bool) -> ScreenColor {
    match c {
        CellColor::Named(n) => named_screen_color(n, is_fg),
        CellColor::Spec(r, g, b) => ScreenColor::Rgb(r, g, b),
        CellColor::Indexed(i) => ScreenColor::Indexed(i),
    }
}

/// The screen colour of a cell colour; `is_fg` tells whether it is the text
/// colour.
pub fn screen_color(c: CellColor, is_fg: bool) -> (r: ScreenColor)
    ensures
        r == screen_color_of(c, is_fg),
{
    match c {
        CellColor::Named(n) => match n {
            NamedColor::Black | NamedColor::DimBlack => ScreenColor::Rgb(0, 0, 0),
            NamedColor::Red | NamedColor::DimRed => ScreenColor::Red,
            NamedColor::Green | NamedColor::DimGreen => ScreenColor::Green,
            NamedColor::Yellow | NamedColor::DimYellow => ScreenColor::Yellow,
            NamedColor::Blue | NamedColor::DimBlue => ScreenColor::Blue,
            NamedColor::Magenta | NamedColor::DimMagenta => ScreenColor::Magenta,
            NamedColor::Cyan | NamedColor::DimCyan => ScreenColor::Cyan,
            NamedColor::White | NamedColor::DimWhite => ScreenColor::White,
            NamedColor::BrightBlack => ScreenColor::DarkGray,
            NamedColor::BrightRed => ScreenColor::LightRed,
            NamedColor::BrightGreen => ScreenColor::LightGreen,
            NamedColor::BrightYellow => ScreenColor::LightYellow,
            NamedColor::BrightBlue => ScreenColor::LightBlue,
            NamedColor::BrightMagenta => ScreenColor::LightMagenta,
            NamedColor::BrightCyan => ScreenColor::LightCyan,
            NamedColor::BrightWhite | NamedColor::BrightForeground | NamedColor::Cursor => {
                ScreenColor::White
            },
            NamedColor::Foreground | NamedColor::DimForeground | NamedColor::Background => {
                if is_fg {
                    ScreenColor::White
                } else {
                    ScreenColor::Rgb(0, 0, 0)
                }
            },
        },
        CellColor::Spec(r, g, b) => ScreenColor::Rgb(r, g, b),
        CellColor::Indexed(i) => ScreenColor::Indexed(i),
    }
}

/// The attributes a terminal cell carries.
#[derive(PartialEq, Eq, Structural, Clone, Copy, Debug)]
pub struct CellFlags {
    pub bold: bool,
    pub italic: bool,
    pub underline: bool,
    pub inverse: bool,
    pub dim: bool,
    pub hidden: bool,
    pub strikeout: bool,
    /// The cell is the empty right half of a wide character.
    pub wide_char_spacer: bool,
}

/// How a cell is painted: colours and text modifiers.
#[derive(PartialEq, Eq, Structural, Clone, Copy, Debug)]
pub struct CellStyle {
    pub fg: ScreenColor,
    pub bg: ScreenColor,
    pub bold: bool,
    pub italic: bool,
    pub underlined: bool,
    pub reversed: bool,
    pub dim: bool,
    pub hidden: bool,
    pub crossed_out: bool,
}

/// What a cell holding `c` with colours `fg`, `bg` and attributes `flags`
/// paints: nothing for the right half of a wide character, else its
/// character (a space for an empty cell) and its style.
pub open spec fn cell_look_of(c: char, fg: CellColor, bg: CellColor, flags: CellFlags) -> Option<
    (char, CellStyle),
> {
    if flags.wide_char_spacer {
        None
    } else {
        Some(
            (
                if c == '\0' {
                    ' '
                } else {
                    c
                },
                CellStyle {
                    fg: screen_color_of(fg, true),
                    bg: screen_color_of(bg, false),
                    bold: flags.bold,
                    italic: flags.italic,
                    underlined: flags.underline,
                    reversed: flags.inverse,
                    dim: flags.dim,
                    hidden: flags.hidden,
                    crossed_out: flags.strikeout,
                },
            ),
        )
    }
}

/// What a terminal cell paints (see [`cell_look_of`]).
pub fn cell_look(c: char, fg: CellColor, bg: CellColor, flags: CellFlags) -> (r: Option<
    (char, CellStyle),
>)
    ensures
        r == cell_look_of(c, fg, bg, flags),
{
    if flags.wide_char_spacer {
        return None;
    }
    let shown = if c == '\0' {
        ' '
    } else {
        c
    };
    Some(
        (
            shown,
            CellStyle {
                fg: screen_color(fg, true),
                bg: screen_color(bg, false),
                bold: flags.bold,
                italic: flags.italic,
                underlined: flags.underline,
                reversed: flags.inverse,
                dim: flags.dim,
                hidden: flags.hidden,
                crossed_out: flags.strikeout,
            },
        ),
    )
}

/// Where cell (`row`, `col`) of a grid of `lines` by `columns` cells lands
/// when the grid is drawn into `area` of a buffer covering `buf` (areas are
/// x, y, width, height): nowhere when it lies outside the grid or the area,
/// or right of or below the buffer.
pub open spec fn cell_position_of(
    area: (u16, u16, u16, u16),
    buf: (u16, u16, u16, u16),
    lines: usize,
    columns: usize,
    row: u16,
    col: u16,
) -> Option<(u16, u16)> {
    let x = area.0 + col;
    let y = area.1 + row;
    if row < area.3 && (row as int) < lines && col < area.2 && (col as int) < columns && x < buf.0
        + buf.2 && y < buf.1 + buf.3 {
        Some((x as u16, y as u16))
    } else {
        None
    }
}

/// Where a grid cell lands on the screen (see [`cell_position_of`]).
pub fn cell_position(
    area: (u16, u16, u16, u16),
    buf: (u16, u16, u16, u16),
    lines: usize,
    columns: usize,
    row: u16,
    col: u16,
) -> (r: Option<(u16, u16)>)
    requires
        area_fits(area),
        area_fits(buf),
    ensures
        r == cell_position_of(area, buf, lines, columns, row, col),
{
    if row >= area.3 || row as usize >= lines || col >= area.2 || col as usize >= columns {
        return None;
    }
    let x = area.0 + col;
    let y = area.1 + row;
    if x < buf.0 + buf.2 && y < buf.1 + buf.3 {
        Some((x, y))
    } else {
        None
    }
}

/// Where the cursor, at `line` and `column` of the grid, is drawn: nowhere
/// when that falls right of or below the area or the buffer.
pub open spec fn cursor_position_of(
    area: (u16, u16, u16, u16),
    buf: (u16, u16, u16, u16),
    line: u16,
    column: u16,
) -> Option<(u16, u16)> {
    let x = area.0 + column;
    let y = area.1 + line;
    if x < area.0 + area.2 && y < area.1 + area.3 && x < buf.0 + buf.2 && y < buf.1 + buf.3 {
        Some((x as u16, y as u16))
    } else {
        None
    }
}

/// Where the cursor is drawn (see [`cursor_position_of`]); the cell there
/// takes [`cursor_style`].
pub fn cursor_position(
    area: (u16, u16, u16, u16),
    buf: (u16, u16, u16, u16),
    line: u16,
    column: u16,
) -> (r: Option<(u16, u16)>)
    requires
        area_fits(area),
        area_fits(buf),
        area.0 + column <= u16::MAX,
        area.1 + line <= u16::MAX,
    ensures
        r == cursor_position_of(area, buf, line, column),
{
    let x = area.0 + column;
    let y = area.1 + line;
    if x < area.0 + area.2 && y < area.1 + area.3 && x < buf.0 + buf.2 && y < buf.1 + buf.3 {
        Some((x, y))
    } else {
        None
    }
}

/// The cursor: bold black on white.
pub fn cursor_style() -> (s: CellStyle)
    ensures
        s == (CellStyle {
            fg: ScreenColor::Black,
            bg: ScreenColor::White,
            bold: true,
            italic: false,
            underlined: false,
            reversed: false,
            dim: false,
            hidden: false,
            crossed_out: false,
        }),
{
    CellStyle {
        fg: ScreenColor::Black,
        bg: ScreenColor::White,
        bold: true,
        italic: false,
        underlined: false,
        reversed: false,
        dim: false,
        hidden: false,
        crossed_out: false,
    }
}

} // verus!
