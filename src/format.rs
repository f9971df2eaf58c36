use vstd::prelude::*;

use crate::colors::{color_code, color_of_code, lemma_color_round_trip, Color, Rgb};

verus! {

/// A style flag of a [`Format`].
#[derive(Clone, Copy, PartialEq, Eq, Structural, Debug)]
#[non_exhaustive]
pub enum FormatFlag {
    Bold,
    Italic,
    Underline,
    Strikethrough,
    Monospace,
    Inverted,
}

/// The bit of the flags word that holds a style flag.
pub open spec fn flag_bit(f: FormatFlag) -> u16 {
    match f {
        FormatFlag::Bold => 0b100,
        FormatFlag::Italic => 0b1000,
        FormatFlag::Underline => 0b10000,
        FormatFlag::Strikethrough => 0b100000,
        FormatFlag::Monospace => 0b1000000,
        FormatFlag::Inverted => 0b10000000,
    }
}

impl FormatFlag {
    fn bit(self) -> (r: u16)
        ensures
            r == flag_bit(self),
    {
        match self {
            FormatFlag::Bold => 0b100,
            FormatFlag::Italic => 0b1000,
            FormatFlag::Underline => 0b10000,
            FormatFlag::Strikethrough => 0b100000,
            FormatFlag::Monospace => 0b1000000,
            FormatFlag::Inverted => 0b10000000,
        }
    }
}

/// Bit 0 of the flags word: the foreground slot holds a 24-bit value, not a code.
const FG_RGB: u16 = 0b1;

/// Bit 1 of the flags word: the background slot holds a 24-bit value, not a code.
const BG_RGB: u16 = 0b10;

/// Style of a character: flags, foreground and background color.
#[derive(Clone, Copy, PartialEq, Eq, Structural, Debug)]
pub struct Format {
    /// From least significant: fg is 24-bit, bg is 24-bit, then the six style flags.
    /// The upper eight bits are unused.
    flags: u16,
    /// When fg is not 24-bit, `fg.r` holds its color code.
    fg: Rgb,
    /// When bg is not 24-bit, `bg.r` holds its color code.
    bg: Rgb,
}

proof fn lemma_bits(x: u16, b: u16, c: u16) by (bit_vector)
    requires
        b == 1 || b == 2 || b == 4 || b == 8 || b == 16 || b == 32 || b == 64 || b == 128,
        c == 1 || c == 2 || c == 4 || c == 8 || c == 16 || c == 32 || c == 64 || c == 128,
    ensures
        (x | b) & b != 0,
        (x & !b) & b == 0,
        b != c ==> (((x | b) & c != 0) == (x & c != 0)),
        b != c ==> (((x & !b) & c != 0) == (x & c != 0)),
{
}

impl Format {
    /// No style flags; both colors `Default`.
    pub closed spec fn spec_default() -> Format {
        Format { flags: 0, fg: Rgb { r: 99, g: 0, b: 0 }, bg: Rgb { r: 99, g: 0, b: 0 } }
    }

    /// Whether a style flag is set.
    pub closed spec fn has(self, f: FormatFlag) -> bool {
        self.flags & flag_bit(f) != 0
    }

    /// The foreground color.
    pub closed spec fn fg_color(self) -> Color {
        if self.flags & FG_RGB != 0 {
            Color::Rgb(self.fg)
        } else {
            color_of_code(self.fg.r)
        }
    }

    /// The background color.
    pub closed spec fn bg_color(self) -> Color {
        if self.flags & BG_RGB != 0 {
            Color::Rgb(self.bg)
        } else {
            color_of_code(self.bg.r)
        }
    }

    /// This format with one style flag set or cleared.
    pub closed spec fn with_flag(self, f: FormatFlag, value: bool) -> Format {
        Format {
            flags: if value {
                self.flags | flag_bit(f)
            } else {
                self.flags & !flag_bit(f)
            },
            ..self
        }
    }

    /// This format with another foreground color.
    pub closed spec fn with_fg(self, c: Color) -> Format {
        match color_code(c) {
            Ok(cc) => Format { flags: self.flags & !FG_RGB, fg: Rgb { r: cc, ..self.fg }, ..self },
            Err(rgb) => Format { flags: self.flags | FG_RGB, fg: rgb, ..self },
        }
    }

    /// This format with another background color.
    pub closed spec fn with_bg(self, c: Color) -> Format {
        match color_code(c) {
            Ok(cc) => Format { flags: self.flags & !BG_RGB, bg: Rgb { r: cc, ..self.bg }, ..self },
            Err(rgb) => Format { flags: self.flags | BG_RGB, bg: rgb, ..self },
        }
    }

    /// What `with_flag` changes, and what it keeps.
    pub proof fn lemma_with_flag(self, f: FormatFlag, value: bool)
        ensures
            self.with_flag(f, value).has(f) == value,
            forall|g: FormatFlag| g != f ==> #[trigger] self.with_flag(f, value).has(g) == self.has(g),
            self.with_flag(f, value).fg_color() == self.fg_color(),
            self.with_flag(f, value).bg_color() == self.bg_color(),
    {
        let x = self.flags;
        let b = flag_bit(f);
        assert forall|g: FormatFlag| g != f implies #[trigger] self.with_flag(f, value).has(g)
            == self.has(g) by {
            lemma_bits(x, b, flag_bit(g));
        }
        lemma_bits(x, b, b);
        lemma_bits(x, b, FG_RGB);
        lemma_bits(x, b, BG_RGB);
    }

    /// What `with_fg` and `with_bg` change, and what they keep.
    pub proof fn lemma_with_colors(self, c: Color)
        ensures
            self.with_fg(c).fg_color() == c,
            self.with_fg(c).bg_color() == self.bg_color(),
            forall|g: FormatFlag| #[trigger] self.with_fg(c).has(g) == self.has(g),
            self.with_bg(c).bg_color() == c,
            self.with_bg(c).fg_color() == self.fg_color(),
            forall|g: FormatFlag| #[trigger] self.with_bg(c).has(g) == self.has(g),
    {
        let x = self.flags;
        lemma_color_round_trip(c);
        lemma_bits(x, FG_RGB, FG_RGB);
        lemma_bits(x, FG_RGB, BG_RGB);
        lemma_bits(x, BG_RGB, BG_RGB);
        lemma_bits(x, BG_RGB, FG_RGB);
        assert forall|g: FormatFlag| #[trigger] self.with_fg(c).has(g) == self.has(g) by {
            lemma_bits(x, FG_RGB, flag_bit(g));
        }
        assert forall|g: FormatFlag| #[trigger] self.with_bg(c).has(g) == self.has(g) by {
            lemma_bits(x, BG_RGB, flag_bit(g));
        }
    }
}

impl Default for Format {
    fn default() -> (r: Format)
        ensures
            r == Format::spec_default(),
            forall|g: FormatFlag| !#[trigger] r.has(g),
            r.fg_color() == Color::Default,
            r.bg_color() == Color::Default,
    {
        let r = Format { flags: 0, fg: Rgb { r: 99, g: 0, b: 0 }, bg: Rgb { r: 99, g: 0, b: 0 } };
        assert forall|g: FormatFlag| !#[trigger] r.has(g) by {
            assert(0u16 & flag_bit(g) == 0) by (bit_vector);
        }
        assert(0u16 & FG_RGB == 0) by (bit_vector);
        assert(0u16 & BG_RGB == 0) by (bit_vector);
        r
    }
}

impl Format {
    /// Whether a style flag is set.
    #[inline]
    pub fn is(&self, fmt: FormatFlag) -> (r: bool)
        ensures
            r == self.has(fmt),
    {
        self.flags & fmt.bit() != 0
    }

    /// Sets bold where underline is set, then clears underline.
    ///
    /// Some applications reserve underlines for clickable text such as links;
    /// this supports them.
    pub fn underline_to_bold(&mut self) -> (r: &mut Self)
        ensures
            *r == (if old(self).has(FormatFlag::Underline) {
                old(self).with_flag(FormatFlag::Bold, true).with_flag(FormatFlag::Underline, false)
            } else {
                *old(self)
            }),
            r.has(FormatFlag::Bold) == (old(self).has(FormatFlag::Bold) || old(self).has(
                FormatFlag::Underline,
            )),
            !r.has(FormatFlag::Underline),
            forall|g: FormatFlag|
                g != FormatFlag::Bold && g != FormatFlag::Underline ==> #[trigger] r.has(g)
                    == old(self).has(g),
            r.fg_color() == old(self).fg_color(),
            r.bg_color() == old(self).bg_color(),
            *final(self) == *final(r),
    {
        proof {
            let bolder = old(self).with_flag(FormatFlag::Bold, true);
            old(self).lemma_with_flag(FormatFlag::Bold, true);
            bolder.lemma_with_flag(FormatFlag::Underline, false);
        }
        if self.is(FormatFlag::Underline) {
            self.flags = self.flags | FormatFlag::Bold.bit();
            self.flags = self.flags & !FormatFlag::Underline.bit();
        }
        self
    }

    /// Sets or clears a style flag.
    #[inline]
    pub fn set(&mut self, fmt: FormatFlag, value: bool) -> (r: &mut Self)
        ensures
            *r == old(self).with_flag(fmt, value),
            r.has(fmt) == value,
            forall|g: FormatFlag| g != fmt ==> #[trigger] r.has(g) == old(self).has(g),
            r.fg_color() == old(self).fg_color(),
            r.bg_color() == old(self).bg_color(),
            *final(self) == *final(r),
    {
        proof {
            old(self).lemma_with_flag(fmt, value);
        }
        if value {
            self.flags = self.flags | fmt.bit();
        } else {
            self.flags = self.flags & !fmt.bit();
        }
        self
    }

    /// Returns the foreground (text) color.
    pub fn fg(&self) -> (r: Color)
        ensures
            r == self.fg_color(),
    {
        if self.flags & FG_RGB != 0 {
            Color::Rgb(self.fg)
        } else {
            Color::from_color_code(self.fg.r)
        }
    }

    /// Returns the background color.
    pub fn bg(&self) -> (r: Color)
        ensures
            r == self.bg_color(),
    {
        if self.flags & BG_RGB != 0 {
            Color::Rgb(self.bg)
        } else {
            Color::from_color_code(self.bg.r)
        }
    }

    /// Sets the foreground (text) color. A coded color is stored as its code,
    /// a 24-bit color as its value.
    pub fn set_fg(&mut self, color: Color) -> (r: &mut Self)
        ensures
            *r == old(self).with_fg(color),
            r.fg_color() == color,
            r.bg_color() == old(self).bg_color(),
            forall|g: FormatFlag| #[trigger] r.has(g) == old(self).has(g),
            *final(self) == *final(r),
    {
        proof {
            old(self).lemma_with_colors(color);
        }
        match color.into_color_code() {
            Ok(cc) => {
                self.fg.r = cc;
                self.flags = self.flags & !FG_RGB;
            },
            Err(rgb) => {
                self.fg = rgb;
                self.flags = self.flags | FG_RGB;
            },
        }
        self
    }

    /// Sets the background color. A coded color is stored as its code,
    /// a 24-bit color as its value.
    pub fn set_bg(&mut self, color: Color) -> (r: &mut Self)
        ensures
            *r == old(self).with_bg(color),
            r.bg_color() == color,
            r.fg_color() == old(self).fg_color(),
            forall|g: FormatFlag| #[trigger] r.has(g) == old(self).has(g),
            *final(self) == *final(r),
    {
        proof {
            old(self).lemma_with_colors(color);
        }
        match color.into_color_code() {
            Ok(cc) => {
                self.bg.r = cc;
                self.flags = self.flags & !BG_RGB;
            },
            Err(rgb) => {
                self.bg = rgb;
                self.flags = self.flags | BG_RGB;
            },
        }
        self
    }
}

} // verus!
