use vstd::prelude::*;
use vstd::string::StringExecFns;

verus! {

/// The sixteen colors of a classic terminal, in their 4-bit order.
#[derive(Clone, Copy, PartialEq, Eq, Structural, Debug)]
pub enum SystemColor {
    Black,
    Red,
    Green,
    Yellow,
    Blue,
    Magenta,
    Cyan,
    Gray,
    BrightBlack,
    BrightRed,
    BrightGreen,
    BrightYellow,
    BrightBlue,
    BrightMagenta,
    BrightCyan,
    BrightGray,
}

/// Brightness step inside a palette row or a gray ramp.
#[derive(Clone, Copy, PartialEq, Eq, Structural, Debug)]
pub enum Tint {
    Darker,
    Neutral,
    Lighter,
}

/// Twelve hues around the color wheel.
#[derive(Clone, Copy, PartialEq, Eq, Structural, Debug)]
pub enum Hue {
    Red,
    RedYellow,
    Yellow,
    GreenYellow,
    Green,
    GreenCyan,
    Cyan,
    BlueCyan,
    Blue,
    BlueMagenta,
    Magenta,
    RedMagenta,
}

/// A 24-bit color.
#[derive(Clone, Copy, PartialEq, Eq, Structural, Debug)]
pub struct Rgb {
    pub r: u8,
    pub g: u8,
    pub b: u8,
}

/// A color: one of the coded palettes, or an explicit 24-bit value.
#[derive(Clone, Copy, PartialEq, Eq, Structural, Debug)]
pub enum Color {
    Default,
    System(SystemColor),
    Dark(Tint, Hue),
    Light(Tint, Hue),
    Black,
    DarkGray(Tint),
    Gray(Tint),
    LightGray(Tint),
    White,
    Rgb(Rgb),
}

pub open spec fn rgb_of(t: (u8, u8, u8)) -> Rgb {
    Rgb { r: t.0, g: t.1, b: t.2 }
}

impl From<(u8, u8, u8)> for Rgb {
    fn from(value: (u8, u8, u8)) -> (r: Rgb) {
        Rgb { r: value.0, g: value.1, b: value.2 }
    }
}

impl vstd::std_specs::convert::FromSpecImpl<(u8, u8, u8)> for Rgb {
    open spec fn obeys_from_spec() -> bool {
        true
    }

    open spec fn from_spec(v: (u8, u8, u8)) -> Rgb {
        rgb_of(v)
    }
}

impl Default for Rgb {
    fn default() -> (r: Rgb)
        ensures
            r == (Rgb { r: 0, g: 0, b: 0 }),
    {
        Rgb { r: 0, g: 0, b: 0 }
    }
}

impl Default for Tint {
    fn default() -> (r: Tint)
        ensures
            r == Tint::Neutral,
    {
        Tint::Neutral
    }
}

impl Default for Color {
    fn default() -> (r: Color)
        ensures
            r == Color::Default,
    {
        Color::Default
    }
}

/// Position of a system color in the 4-bit terminal order.
pub open spec fn system_offset(c: SystemColor) -> u8 {
    match c {
        SystemColor::Black => 0,
        SystemColor::Red => 1,
        SystemColor::Green => 2,
        SystemColor::Yellow => 3,
        SystemColor::Blue => 4,
        SystemColor::Magenta => 5,
        SystemColor::Cyan => 6,
        SystemColor::Gray => 7,
        SystemColor::BrightBlack => 8,
        SystemColor::BrightRed => 9,
        SystemColor::BrightGreen => 10,
        SystemColor::BrightYellow => 11,
        SystemColor::BrightBlue => 12,
        SystemColor::BrightMagenta => 13,
        SystemColor::BrightCyan => 14,
        SystemColor::BrightGray => 15,
    }
}

/// The color code of a system color; codes 0 to 15 are a permutation of the 4-bit order.
pub open spec fn system_code(c: SystemColor) -> u8 {
    match c {
        SystemColor::BrightGray => 0,
        SystemColor::Black => 1,
        SystemColor::Blue => 2,
        SystemColor::Green => 3,
        SystemColor::BrightRed => 4,
        SystemColor::Red => 5,
        SystemColor::Magenta => 6,
        SystemColor::Yellow => 7,
        SystemColor::BrightYellow => 8,
        SystemColor::BrightGreen => 9,
        SystemColor::Cyan => 10,
        SystemColor::BrightCyan => 11,
        SystemColor::BrightBlue => 12,
        SystemColor::BrightMagenta => 13,
        SystemColor::BrightBlack => 14,
        SystemColor::Gray => 15,
    }
}

/// The system color with the given code, if the code is one of 0 to 15.
pub open spec fn system_of_code(code: u8) -> Option<SystemColor> {
    if code == 0 {
        Some(SystemColor::BrightGray)
    } else if code == 1 {
        Some(SystemColor::Black)
    } else if code == 2 {
        Some(SystemColor::Blue)
    } else if code == 3 {
        Some(SystemColor::Green)
    } else if code == 4 {
        Some(SystemColor::BrightRed)
    } else if code == 5 {
        Some(SystemColor::Red)
    } else if code == 6 {
        Some(SystemColor::Magenta)
    } else if code == 7 {
        Some(SystemColor::Yellow)
    } else if code == 8 {
        Some(SystemColor::BrightYellow)
    } else if code == 9 {
        Some(SystemColor::BrightGreen)
    } else if code == 10 {
        Some(SystemColor::Cyan)
    } else if code == 11 {
        Some(SystemColor::BrightCyan)
    } else if code == 12 {
        Some(SystemColor::BrightBlue)
    } else if code == 13 {
        Some(SystemColor::BrightMagenta)
    } else if code == 14 {
        Some(SystemColor::BrightBlack)
    } else if code == 15 {
        Some(SystemColor::Gray)
    } else {
        None
    }
}

/// Fallback 24-bit value of each system color, chosen against a dark-gray background.
pub open spec fn system_rgb(c: SystemColor) -> Rgb {
    rgb_of(
        match c {
            SystemColor::Black => (0x11, 0x11, 0x11),
            SystemColor::Red => (0xDD, 0x00, 0x11),
            SystemColor::Green => (0x00, 0x88, 0x33),
            SystemColor::Yellow => (0xFF, 0x88, 0x00),
            SystemColor::Blue => (0x00, 0x22, 0xEE),
            SystemColor::Magenta => (0xEE, 0x33, 0x88),
            SystemColor::Cyan => (0x00, 0x77, 0x99),
            SystemColor::Gray => (0xBB, 0xBB, 0xBB),
            SystemColor::BrightBlack => (0x66, 0x66, 0x66),
            SystemColor::BrightRed => (0xFF, 0x22, 0x33),
            SystemColor::BrightGreen => (0x00, 0xDD, 0x44),
            SystemColor::BrightYellow => (0xFF, 0xEE, 0x00),
            SystemColor::BrightBlue => (0x33, 0x55, 0xFF),
            SystemColor::BrightMagenta => (0xFF, 0x55, 0xBB),
            SystemColor::BrightCyan => (0x00, 0xCC, 0xEE),
            SystemColor::BrightGray => (0xEE, 0xEE, 0xEE),
        },
    )
}

pub open spec fn tint_index(t: Tint) -> u8 {
    match t {
        Tint::Darker => 0,
        Tint::Neutral => 1,
        Tint::Lighter => 2,
    }
}

pub open spec fn tint_of(i: int) -> Tint {
    if i == 0 {
        Tint::Darker
    } else if i == 1 {
        Tint::Neutral
    } else {
        Tint::Lighter
    }
}

pub open spec fn hue_index(h: Hue) -> u8 {
    match h {
        Hue::Red => 0,
        Hue::RedYellow => 1,
        Hue::Yellow => 2,
        Hue::GreenYellow => 3,
        Hue::Green => 4,
        Hue::GreenCyan => 5,
        Hue::Cyan => 6,
        Hue::BlueCyan => 7,
        Hue::Blue => 8,
        Hue::BlueMagenta => 9,
        Hue::Magenta => 10,
        Hue::RedMagenta => 11,
    }
}

pub open spec fn hue_of(i: int) -> Hue {
    if i == 0 {
        Hue::Red
    } else if i == 1 {
        Hue::RedYellow
    } else if i == 2 {
        Hue::Yellow
    } else if i == 3 {
        Hue::GreenYellow
    } else if i == 4 {
        Hue::Green
    } else if i == 5 {
        Hue::GreenCyan
    } else if i == 6 {
        Hue::Cyan
    } else if i == 7 {
        Hue::BlueCyan
    } else if i == 8 {
        Hue::Blue
    } else if i == 9 {
        Hue::BlueMagenta
    } else if i == 10 {
        Hue::Magenta
    } else {
        Hue::RedMagenta
    }
}

/// The color that a one-byte color code stands for; codes outside 0 to 98 mean `Default`.
pub open spec fn color_of_code(code: u8) -> Color {
    if code < 16 {
        Color::System(system_of_code(code).unwrap())
    } else if code < 52 {
        Color::Dark(tint_of((code - 16) / 12), hue_of((code - 16) % 12))
    } else if code < 88 {
        Color::Light(tint_of((code - 52) / 12), hue_of((code - 52) % 12))
    } else if code == 88 {
        Color::Black
    } else if code < 92 {
        Color::DarkGray(tint_of(code - 89))
    } else if code < 95 {
        Color::Gray(tint_of(code - 92))
    } else if code < 98 {
        Color::LightGray(tint_of(code - 95))
    } else if code == 98 {
        Color::White
    } else {
        Color::Default
    }
}

/// The color code of a color, or its 24-bit value where it has no code.
pub open spec fn color_code(c: Color) -> Result<u8, Rgb> {
    match c {
        Color::Default => Ok(99u8),
        Color::System(sc) => Ok(system_code(sc)),
        Color::Dark(t, h) => Ok((16 + 12 * tint_index(t) + hue_index(h)) as u8),
        Color::Light(t, h) => Ok((52 + 12 * tint_index(t) + hue_index(h)) as u8),
        Color::Black => Ok(88u8),
        Color::DarkGray(t) => Ok((89 + tint_index(t)) as u8),
        Color::Gray(t) => Ok((92 + tint_index(t)) as u8),
        Color::LightGray(t) => Ok((95 + tint_index(t)) as u8),
        Color::White => Ok(98u8),
        Color::Rgb(rgb) => Err(rgb),
    }
}

/// Curated 24-bit values of the coded colors, indexed by code minus 16:
/// the dark palette, the light palette, then an eleven-step gray ramp.
pub open spec fn palette_rgb_table() -> Seq<(u8, u8, u8)> {
    seq![
        (0x47, 0x00, 0x00), (0x47, 0x21, 0x00), (0x47, 0x47, 0x00), (0x32, 0x47, 0x00),
        (0x00, 0x47, 0x00), (0x00, 0x47, 0x2c), (0x00, 0x47, 0x47), (0x00, 0x27, 0x47),
        (0x00, 0x00, 0x47), (0x2e, 0x00, 0x47), (0x47, 0x00, 0x47), (0x47, 0x00, 0x2a),
        (0x74, 0x00, 0x00), (0x74, 0x3a, 0x00), (0x74, 0x74, 0x00), (0x51, 0x74, 0x00),
        (0x00, 0x74, 0x00), (0x00, 0x74, 0x49), (0x00, 0x74, 0x74), (0x00, 0x40, 0x74),
        (0x00, 0x00, 0x74), (0x4b, 0x00, 0x74), (0x74, 0x00, 0x74), (0x74, 0x00, 0x45),
        (0xb5, 0x00, 0x00), (0xb5, 0x63, 0x00), (0xb5, 0xb5, 0x00), (0x7d, 0xb5, 0x00),
        (0x00, 0xb5, 0x00), (0x00, 0xb5, 0x71), (0x00, 0xb5, 0xb5), (0x00, 0x63, 0xb5),
        (0x00, 0x00, 0xb5), (0x75, 0x00, 0xb5), (0xb5, 0x00, 0xb5), (0xb5, 0x00, 0x6b),
        (0xff, 0x00, 0x00), (0xff, 0x8c, 0x00), (0xff, 0xff, 0x00), (0xb2, 0xff, 0x00),
        (0x00, 0xff, 0x00), (0x00, 0xff, 0xa0), (0x00, 0xff, 0xff), (0x00, 0x8c, 0xff),
        (0x00, 0x00, 0xff), (0xa5, 0x00, 0xff), (0xff, 0x00, 0xff), (0xff, 0x00, 0x98),
        (0xff, 0x59, 0x59), (0xff, 0xb4, 0x59), (0xff, 0xff, 0x71), (0xcf, 0xff, 0x60),
        (0x6f, 0xff, 0x6f), (0x65, 0xff, 0xc9), (0x6d, 0xff, 0xff), (0x59, 0xb4, 0xff),
        (0x59, 0x59, 0xff), (0xc4, 0x59, 0xff), (0xff, 0x66, 0xff), (0xff, 0x59, 0xbc),
        (0xff, 0x9c, 0x9c), (0xff, 0xd3, 0x9c), (0xff, 0xff, 0x9c), (0xe2, 0xff, 0x9c),
        (0x9c, 0xff, 0x9c), (0x9c, 0xff, 0xdb), (0x9c, 0xff, 0xff), (0x9c, 0xd3, 0xff),
        (0x9c, 0x9c, 0xff), (0xdc, 0x9c, 0xff), (0xff, 0x9c, 0xff), (0xff, 0x94, 0xd3),
        (0x00, 0x00, 0x00), (0x13, 0x13, 0x13), (0x28, 0x28, 0x28), (0x36, 0x36, 0x36),
        (0x4d, 0x4d, 0x4d), (0x65, 0x65, 0x65), (0x81, 0x81, 0x81), (0x9f, 0x9f, 0x9f),
        (0xbc, 0xbc, 0xbc), (0xe2, 0xe2, 0xe2), (0xff, 0xff, 0xff),
    ]
}

/// Legacy 256-color terminal indices of the coded colors, indexed as `palette_rgb_table`.
pub open spec fn palette_ansi_table() -> Seq<u8> {
    seq![
        52, 94, 100, 58, 22, 29, 23, 24, 17, 54, 53, 89,
        88, 130, 142, 64, 28, 35, 30, 25, 18, 91, 90, 125,
        124, 166, 184, 106, 34, 49, 37, 33, 19, 129, 127, 161,
        196, 208, 226, 154, 46, 86, 51, 75, 21, 171, 201, 198,
        203, 215, 227, 191, 83, 122, 87, 111, 63, 177, 207, 205,
        217, 223, 229, 193, 157, 158, 159, 153, 147, 183, 219, 212,
        16, 233, 235, 237, 239, 241, 244, 247, 250, 254, 231,
    ]
}


/// Curated 24-bit value at `index` of the palette table.
fn palette_rgb(index: usize) -> (r: Rgb)
    requires
        index < 83,
    ensures
        r == rgb_of(palette_rgb_table()[index as int]),
{
    let table: [(u8, u8, u8); 83] = [
        (0x47, 0x00, 0x00), (0x47, 0x21, 0x00), (0x47, 0x47, 0x00), (0x32, 0x47, 0x00),
        (0x00, 0x47, 0x00), (0x00, 0x47, 0x2c), (0x00, 0x47, 0x47), (0x00, 0x27, 0x47),
        (0x00, 0x00, 0x47), (0x2e, 0x00, 0x47), (0x47, 0x00, 0x47), (0x47, 0x00, 0x2a),
        (0x74, 0x00, 0x00), (0x74, 0x3a, 0x00), (0x74, 0x74, 0x00), (0x51, 0x74, 0x00),
        (0x00, 0x74, 0x00), (0x00, 0x74, 0x49), (0x00, 0x74, 0x74), (0x00, 0x40, 0x74),
        (0x00, 0x00, 0x74), (0x4b, 0x00, 0x74), (0x74, 0x00, 0x74), (0x74, 0x00, 0x45),
        (0xb5, 0x00, 0x00), (0xb5, 0x63, 0x00), (0xb5, 0xb5, 0x00), (0x7d, 0xb5, 0x00),
        (0x00, 0xb5, 0x00), (0x00, 0xb5, 0x71), (0x00, 0xb5, 0xb5), (0x00, 0x63, 0xb5),
        (0x00, 0x00, 0xb5), (0x75, 0x00, 0xb5), (0xb5, 0x00, 0xb5), (0xb5, 0x00, 0x6b),
        (0xff, 0x00, 0x00), (0xff, 0x8c, 0x00), (0xff, 0xff, 0x00), (0xb2, 0xff, 0x00),
        (0x00, 0xff, 0x00), (0x00, 0xff, 0xa0), (0x00, 0xff, 0xff), (0x00, 0x8c, 0xff),
        (0x00, 0x00, 0xff), (0xa5, 0x00, 0xff), (0xff, 0x00, 0xff), (0xff, 0x00, 0x98),
        (0xff, 0x59, 0x59), (0xff, 0xb4, 0x59), (0xff, 0xff, 0x71), (0xcf, 0xff, 0x60),
        (0x6f, 0xff, 0x6f), (0x65, 0xff, 0xc9), (0x6d, 0xff, 0xff), (0x59, 0xb4, 0xff),
        (0x59, 0x59, 0xff), (0xc4, 0x59, 0xff), (0xff, 0x66, 0xff), (0xff, 0x59, 0xbc),
        (0xff, 0x9c, 0x9c), (0xff, 0xd3, 0x9c), (0xff, 0xff, 0x9c), (0xe2, 0xff, 0x9c),
        (0x9c, 0xff, 0x9c), (0x9c, 0xff, 0xdb), (0x9c, 0xff, 0xff), (0x9c, 0xd3, 0xff),
        (0x9c, 0x9c, 0xff), (0xdc, 0x9c, 0xff), (0xff, 0x9c, 0xff), (0xff, 0x94, 0xd3),
        (0x00, 0x00, 0x00), (0x13, 0x13, 0x13), (0x28, 0x28, 0x28), (0x36, 0x36, 0x36),
        (0x4d, 0x4d, 0x4d), (0x65, 0x65, 0x65), (0x81, 0x81, 0x81), (0x9f, 0x9f, 0x9f),
        (0xbc, 0xbc, 0xbc), (0xe2, 0xe2, 0xe2), (0xff, 0xff, 0xff),
    ];
    proof {
        assert(table@ =~= palette_rgb_table());
    }
    Rgb::from(table[index])
}

/// Legacy 256-color index at `index` of the palette table.
fn palette_ansi(index: usize) -> (r: u8)
    requires
        index < 83,
    ensures
        r == palette_ansi_table()[index as int],
{
    let table: [u8; 83] = [
        52, 94, 100, 58, 22, 29, 23, 24, 17, 54, 53, 89,
        88, 130, 142, 64, 28, 35, 30, 25, 18, 91, 90, 125,
        124, 166, 184, 106, 34, 49, 37, 33, 19, 129, 127, 161,
        196, 208, 226, 154, 46, 86, 51, 75, 21, 171, 201, 198,
        203, 215, 227, 191, 83, 122, 87, 111, 63, 177, 207, 205,
        217, 223, 229, 193, 157, 158, 159, 153, 147, 183, 219, 212,
        16, 233, 235, 237, 239, 241, 244, 247, 250, 254, 231,
    ];
    proof {
        assert(table@ =~= palette_ansi_table());
    }
    table[index]
}


impl SystemColor {
    /// Decodes the color codes 0 to 15; any other code has no system color.
    pub fn from_color_code(code: u8) -> (r: Option<SystemColor>)
        ensures
            r == system_of_code(code),
    {
        match code {
            0 => Some(SystemColor::BrightGray),
            1 => Some(SystemColor::Black),
            2 => Some(SystemColor::Blue),
            3 => Some(SystemColor::Green),
            4 => Some(SystemColor::BrightRed),
            5 => Some(SystemColor::Red),
            6 => Some(SystemColor::Magenta),
            7 => Some(SystemColor::Yellow),
            8 => Some(SystemColor::BrightYellow),
            9 => Some(SystemColor::BrightGreen),
            10 => Some(SystemColor::Cyan),
            11 => Some(SystemColor::BrightCyan),
            12 => Some(SystemColor::BrightBlue),
            13 => Some(SystemColor::BrightMagenta),
            14 => Some(SystemColor::BrightBlack),
            15 => Some(SystemColor::Gray),
            _ => None,
        }
    }

    /// Position of this color in the 4-bit terminal order.
    pub fn into_4bit_offset(self) -> (r: u8)
        ensures
            r == system_offset(self),
    {
        match self {
            SystemColor::Black => 0,
            SystemColor::Red => 1,
            SystemColor::Green => 2,
            SystemColor::Yellow => 3,
            SystemColor::Blue => 4,
            SystemColor::Magenta => 5,
            SystemColor::Cyan => 6,
            SystemColor::Gray => 7,
            SystemColor::BrightBlack => 8,
            SystemColor::BrightRed => 9,
            SystemColor::BrightGreen => 10,
            SystemColor::BrightYellow => 11,
            SystemColor::BrightBlue => 12,
            SystemColor::BrightMagenta => 13,
            SystemColor::BrightCyan => 14,
            SystemColor::BrightGray => 15,
        }
    }

    /// Color code of this color (0 to 15).
    fn into_color_code(self) -> (r: u8)
        ensures
            r == system_code(self),
    {
        match self {
            SystemColor::BrightGray => 0,
            SystemColor::Black => 1,
            SystemColor::Blue => 2,
            SystemColor::Green => 3,
            SystemColor::BrightRed => 4,
            SystemColor::Red => 5,
            SystemColor::Magenta => 6,
            SystemColor::Yellow => 7,
            SystemColor::BrightYellow => 8,
            SystemColor::BrightGreen => 9,
            SystemColor::Cyan => 10,
            SystemColor::BrightCyan => 11,
            SystemColor::BrightBlue => 12,
            SystemColor::BrightMagenta => 13,
            SystemColor::BrightBlack => 14,
            SystemColor::Gray => 15,
        }
    }

    /// Fallback 24-bit value for this color.
    ///
    /// Applications should let users choose their own values to fit a theme;
    /// these were chosen as foreground colors against a dark-gray background.
    pub fn into_24bit(self) -> (r: Rgb)
        ensures
            r == system_rgb(self),
    {
        let t: (u8, u8, u8) = match self {
            SystemColor::Black => (0x11, 0x11, 0x11),
            SystemColor::Red => (0xDD, 0x00, 0x11),
            SystemColor::Green => (0x00, 0x88, 0x33),
            SystemColor::Yellow => (0xFF, 0x88, 0x00),
            SystemColor::Blue => (0x00, 0x22, 0xEE),
            SystemColor::Magenta => (0xEE, 0x33, 0x88),
            SystemColor::Cyan => (0x00, 0x77, 0x99),
            SystemColor::Gray => (0xBB, 0xBB, 0xBB),
            SystemColor::BrightBlack => (0x66, 0x66, 0x66),
            SystemColor::BrightRed => (0xFF, 0x22, 0x33),
            SystemColor::BrightGreen => (0x00, 0xDD, 0x44),
            SystemColor::BrightYellow => (0xFF, 0xEE, 0x00),
            SystemColor::BrightBlue => (0x33, 0x55, 0xFF),
            SystemColor::BrightMagenta => (0xFF, 0x55, 0xBB),
            SystemColor::BrightCyan => (0x00, 0xCC, 0xEE),
            SystemColor::BrightGray => (0xEE, 0xEE, 0xEE),
        };
        Rgb::from(t)
    }
}

fn tint_from_index(i: u8) -> (r: Tint)
    requires
        i < 3,
    ensures
        r == tint_of(i as int),
        tint_index(r) == i,
{
    match i {
        0 => Tint::Darker,
        1 => Tint::Neutral,
        _ => Tint::Lighter,
    }
}

fn tint_to_index(t: Tint) -> (r: u8)
    ensures
        r == tint_index(t),
{
    match t {
        Tint::Darker => 0,
        Tint::Neutral => 1,
        Tint::Lighter => 2,
    }
}

fn hue_from_index(i: u8) -> (r: Hue)
    requires
        i < 12,
    ensures
        r == hue_of(i as int),
        hue_index(r) == i,
{
    match i {
        0x0 => Hue::Red,
        0x1 => Hue::RedYellow,
        0x2 => Hue::Yellow,
        0x3 => Hue::GreenYellow,
        0x4 => Hue::Green,
        0x5 => Hue::GreenCyan,
        0x6 => Hue::Cyan,
        0x7 => Hue::BlueCyan,
        0x8 => Hue::Blue,
        0x9 => Hue::BlueMagenta,
        0xA => Hue::Magenta,
        _ => Hue::RedMagenta,
    }
}

fn hue_to_index(h: Hue) -> (r: u8)
    ensures
        r == hue_index(h),
{
    match h {
        Hue::Red => 0x0,
        Hue::RedYellow => 0x1,
        Hue::Yellow => 0x2,
        Hue::GreenYellow => 0x3,
        Hue::Green => 0x4,
        Hue::GreenCyan => 0x5,
        Hue::Cyan => 0x6,
        Hue::BlueCyan => 0x7,
        Hue::Blue => 0x8,
        Hue::BlueMagenta => 0x9,
        Hue::Magenta => 0xA,
        Hue::RedMagenta => 0xB,
    }
}

impl Color {
    /// Decodes a one-byte color code. Total: unknown codes give `Default`.
    pub fn from_color_code(code: u8) -> (r: Color)
        ensures
            r == color_of_code(code),
    {
        if let Some(syscolor) = SystemColor::from_color_code(code) {
            Color::System(syscolor)
        } else if code < 88 {
            let k: u8 = code - 16;
            let row: u8 = k / 12;
            let hue = hue_from_index(k % 12);
            if row < 3 {
                Color::Dark(tint_from_index(row), hue)
            } else {
                Color::Light(tint_from_index(row - 3), hue)
            }
        } else if code == 88 {
            Color::Black
        } else if code < 92 {
            Color::DarkGray(tint_from_index(code - 89))
        } else if code < 95 {
            Color::Gray(tint_from_index(code - 92))
        } else if code < 98 {
            Color::LightGray(tint_from_index(code - 95))
        } else if code == 98 {
            Color::White
        } else {
            Color::Default
        }
    }

    /// The color code of this color, or `Err` with the 24-bit value when it has none.
    pub fn into_color_code(self) -> (r: Result<u8, Rgb>)
        ensures
            r == color_code(self),
    {
        match self {
            Color::Default => Ok(99),
            Color::System(sc) => Ok(sc.into_color_code()),
            Color::Dark(t, h) => Ok(16 + 12 * tint_to_index(t) + hue_to_index(h)),
            Color::Light(t, h) => Ok(52 + 12 * tint_to_index(t) + hue_to_index(h)),
            Color::Black => Ok(88),
            Color::DarkGray(t) => Ok(89 + tint_to_index(t)),
            Color::Gray(t) => Ok(92 + tint_to_index(t)),
            Color::LightGray(t) => Ok(95 + tint_to_index(t)),
            Color::White => Ok(98),
            Color::Rgb(rgb) => Err(rgb),
        }
    }

    /// 24-bit value of this color: `None` for `Default`; for a system color, what `f`
    /// gives for it, or the fallback of `SystemColor::into_24bit` when `f` gives `None`;
    /// the curated palette value for the other coded colors.
    pub fn into_24bit_color(self, f: impl FnOnce(SystemColor) -> Option<Rgb>) -> (r: Option<Rgb>)
        requires
            forall|sc: SystemColor| self == Color::System(sc) ==> f.requires((sc,)),
        ensures
            match self {
                Color::Default => r == None::<Rgb>,
                Color::Rgb(rgb) => r == Some(rgb),
                Color::System(sc) => exists|o: Option<Rgb>|
                    #![trigger f.ensures((sc,), o)]
                    f.ensures((sc,), o) && r == Some(
                        match o {
                            Some(x) => x,
                            None => system_rgb(sc),
                        },
                    ),
                _ => r == Some(rgb_of(palette_rgb_table()[palette_index(self)])),
            },
    {
        match self {
            Color::Default => None,
            Color::System(sc) => {
                let o = f(sc);
                match o {
                    Some(x) => Some(x),
                    None => Some(sc.into_24bit()),
                }
            },
            Color::Rgb(rgb) => Some(rgb),
            _ => {
                let code = self.into_color_code();
                match code {
                    Ok(code) => Some(palette_rgb(code as usize - 16)),
                    Err(rgb) => Some(rgb),
                }
            },
        }
    }

    /// Legacy 256-color index of this color: `None` for `Default` and 24-bit colors;
    /// the 4-bit offset for a system color; the palette's index for the other coded colors.
    pub fn into_8bit_color(self) -> (r: Option<u8>)
        ensures
            match self {
                Color::Default => r == None::<u8>,
                Color::Rgb(_) => r == None::<u8>,
                Color::System(sc) => r == Some(system_offset(sc)),
                _ => r == Some(palette_ansi_table()[palette_index(self)]),
            },
    {
        match self {
            Color::Default => None,
            Color::System(sc) => Some(sc.into_4bit_offset()),
            Color::Rgb(_) => None,
            _ => {
                let code = self.into_color_code();
                match code {
                    Ok(code) => Some(palette_ansi(code as usize - 16)),
                    Err(_) => None,
                }
            },
        }
    }
}

/// Index into the palette tables of a coded color that is neither `Default` nor a system color.
pub open spec fn palette_index(c: Color) -> int {
    match color_code(c) {
        Ok(code) => code - 16,
        Err(_) => 0,
    }
}

/// Every code from 0 to 99 decodes to a color whose code is that code again.
pub proof fn lemma_code_round_trip(code: u8)
    requires
        code < 100,
    ensures
        color_code(color_of_code(code)) == Ok::<u8, Rgb>(code),
{
}

/// Every byte outside the recognized codes decodes to `Default`.
pub proof fn lemma_unknown_code_is_default(code: u8)
    requires
        code >= 99,
    ensures
        color_of_code(code) == Color::Default,
{
}

/// A color that has a code decodes back from that code to itself.
pub proof fn lemma_color_round_trip(c: Color)
    ensures
        match color_code(c) {
            Ok(code) => color_of_code(code) == c,
            Err(rgb) => c == Color::Rgb(rgb),
        },
{
}

/// Upper-case hexadecimal digits, by value.
pub open spec fn hex_digits() -> Seq<char> {
    seq!['0', '1', '2', '3', '4', '5', '6', '7', '8', '9', 'A', 'B', 'C', 'D', 'E', 'F']
}

/// Two upper-case hexadecimal digits of a byte, high digit first.
pub open spec fn byte_hex(x: u8) -> Seq<char> {
    seq![hex_digits()[x as int / 16], hex_digits()[x as int % 16]]
}

/// A 24-bit color written as `#RRGGBB`.
pub open spec fn rgb_hex(c: Rgb) -> Seq<char> {
    seq!['#'] + byte_hex(c.r) + byte_hex(c.g) + byte_hex(c.b)
}

fn hex_digit(d: u8) -> (r: &'static str)
    requires
        d < 16,
    ensures
        r@ == seq![hex_digits()[d as int]],
{
    match d {
        0 => {
            proof {
                reveal_strlit("0");
            }
            "0"
        },
        1 => {
            proof {
                reveal_strlit("1");
            }
            "1"
        },
        2 => {
            proof {
                reveal_strlit("2");
            }
            "2"
        },
        3 => {
            proof {
                reveal_strlit("3");
            }
            "3"
        },
        4 => {
            proof {
                reveal_strlit("4");
            }
            "4"
        },
        5 => {
            proof {
                reveal_strlit("5");
            }
            "5"
        },
        6 => {
            proof {
                reveal_strlit("6");
            }
            "6"
        },
        7 => {
            proof {
                reveal_strlit("7");
            }
            "7"
        },
        8 => {
            proof {
                reveal_strlit("8");
            }
            "8"
        },
        9 => {
            proof {
                reveal_strlit("9");
            }
            "9"
        },
        10 => {
            proof {
                reveal_strlit("A");
            }
            "A"
        },
        11 => {
            proof {
                reveal_strlit("B");
            }
            "B"
        },
        12 => {
            proof {
                reveal_strlit("C");
            }
            "C"
        },
        13 => {
            proof {
                reveal_strlit("D");
            }
            "D"
        },
        14 => {
            proof {
                reveal_strlit("E");
            }
            "E"
        },
        _ => {
            proof {
                reveal_strlit("F");
            }
            "F"
        },
    }
}

fn push_byte_hex(out: &mut String, x: u8)
    ensures
        final(out)@ == old(out)@ + byte_hex(x),
{
    out.append(hex_digit(x / 16));
    out.append(hex_digit(x % 16));
    proof {
        assert(final(out)@ =~= old(out)@ + byte_hex(x));
    }
}

impl Rgb {
    /// This color as `#RRGGBB`, in upper-case hexadecimal.
    pub fn to_string(&self) -> (r: String)
        ensures
            r@ == rgb_hex(*self),
    {
        let mut out = String::new();
        proof {
            reveal_strlit("#");
        }
        out.append("#");
        push_byte_hex(&mut out, self.r);
        push_byte_hex(&mut out, self.g);
        push_byte_hex(&mut out, self.b);
        assert(out@ =~= rgb_hex(*self));
        out
    }
}

} // verus!
