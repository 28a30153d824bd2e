//! Colours, text attributes and styles, and the SGR codes that select them.

use vstd::prelude::*;

verus! {

/// The decimal digit for `d`, where `d < 10`.
pub open spec fn digit(d: nat) -> char {
    if d == 0 {
        '0'
    } else if d == 1 {
        '1'
    } else if d == 2 {
        '2'
    } else if d == 3 {
        '3'
    } else if d == 4 {
        '4'
    } else if d == 5 {
        '5'
    } else if d == 6 {
        '6'
    } else if d == 7 {
        '7'
    } else if d == 8 {
        '8'
    } else {
        '9'
    }
}

/// `n` written in decimal, most significant digit first, without leading zeros.
pub open spec fn decimal(n: nat) -> Seq<char>
    decreases n,
{
    if n < 10 {
        seq![digit(n)]
    } else {
        decimal(n / 10).push(digit(n % 10))
    }
}

/// The SGR sequence with the single parameter `n`: `ESC [ n m`.
pub open spec fn sgr(n: nat) -> Seq<char> {
    seq!['\x1b', '['] + decimal(n) + seq!['m']
}

/// The sixteen-colour terminal palette, plus the terminal's own default.
#[derive(Debug, Clone, Copy, PartialEq, Eq, Structural)]
pub enum Color {
    Black,
    Red,
    Green,
    Yellow,
    Blue,
    Magenta,
    Cyan,
    White,
    BrightBlack,
    BrightRed,
    BrightGreen,
    BrightYellow,
    BrightBlue,
    BrightMagenta,
    BrightCyan,
    BrightWhite,
    /// The terminal's default colour. As a foreground it is drawn white.
    Reset,
}

impl Default for Color {
    fn default() -> (c: Color)
        ensures
            c == Color::Reset,
    {
        Color::Reset
    }
}

impl Color {
    /// The SGR parameter that selects this colour as foreground. `Reset` selects
    /// white: the full reset would clear the attributes too.
    pub open spec fn fg_number(self) -> nat {
        match self {
            Color::Black => 30,
            Color::Red => 31,
            Color::Green => 32,
            Color::Yellow => 33,
            Color::Blue => 34,
            Color::Magenta => 35,
            Color::Cyan => 36,
            Color::White => 37,
            Color::BrightBlack => 90,
            Color::BrightRed => 91,
            Color::BrightGreen => 92,
            Color::BrightYellow => 93,
            Color::BrightBlue => 94,
            Color::BrightMagenta => 95,
            Color::BrightCyan => 96,
            Color::BrightWhite => 97,
            Color::Reset => 37,
        }
    }

    /// The SGR parameter that selects this colour as background.
    pub open spec fn bg_number(self) -> nat {
        match self {
            Color::Black => 40,
            Color::Red => 41,
            Color::Green => 42,
            Color::Yellow => 43,
            Color::Blue => 44,
            Color::Magenta => 45,
            Color::Cyan => 46,
            Color::White => 47,
            Color::BrightBlack => 100,
            Color::BrightRed => 101,
            Color::BrightGreen => 102,
            Color::BrightYellow => 103,
            Color::BrightBlue => 104,
            Color::BrightMagenta => 105,
            Color::BrightCyan => 106,
            Color::BrightWhite => 107,
            Color::Reset => 49,
        }
    }

    /// The escape sequence that selects this colour as foreground.
    pub fn fg_code(self) -> (code: &'static str)
        ensures
            code@ == sgr(self.fg_number()),
    {
        proof {
            reveal_with_fuel(decimal, 3);
            reveal_strlit("\x1B[30m");
            reveal_strlit("\x1B[31m");
            reveal_strlit("\x1B[32m");
            reveal_strlit("\x1B[33m");
            reveal_strlit("\x1B[34m");
            reveal_strlit("\x1B[35m");
            reveal_strlit("\x1B[36m");
            reveal_strlit("\x1B[37m");
            reveal_strlit("\x1B[90m");
            reveal_strlit("\x1B[91m");
            reveal_strlit("\x1B[92m");
            reveal_strlit("\x1B[93m");
            reveal_strlit("\x1B[94m");
            reveal_strlit("\x1B[95m");
            reveal_strlit("\x1B[96m");
            reveal_strlit("\x1B[97m");
        }
        match self {
            Color::Black => "\x1B[30m",
            Color::Red => "\x1B[31m",
            Color::Green => "\x1B[32m",
            Color::Yellow => "\x1B[33m",
            Color::Blue => "\x1B[34m",
            Color::Magenta => "\x1B[35m",
            Color::Cyan => "\x1B[36m",
            Color::White => "\x1B[37m",
            Color::BrightBlack => "\x1B[90m",
            Color::BrightRed => "\x1B[91m",
            Color::BrightGreen => "\x1B[92m",
            Color::BrightYellow => "\x1B[93m",
            Color::BrightBlue => "\x1B[94m",
            Color::BrightMagenta => "\x1B[95m",
            Color::BrightCyan => "\x1B[96m",
            Color::BrightWhite => "\x1B[97m",
            Color::Reset => "\x1B[37m",
        }
    }

    /// The escape sequence that selects this colour as background.
    pub fn bg_code(self) -> (code: &'static str)
        ensures
            code@ == sgr(self.bg_number()),
    {
        proof {
            reveal_with_fuel(decimal, 3);
            reveal_strlit("\x1B[40m");
            reveal_strlit("\x1B[41m");
            reveal_strlit("\x1B[42m");
            reveal_strlit("\x1B[43m");
            reveal_strlit("\x1B[44m");
            reveal_strlit("\x1B[45m");
            reveal_strlit("\x1B[46m");
            reveal_strlit("\x1B[47m");
            reveal_strlit("\x1B[100m");
            reveal_strlit("\x1B[101m");
            reveal_strlit("\x1B[102m");
            reveal_strlit("\x1B[103m");
            reveal_strlit("\x1B[104m");
            reveal_strlit("\x1B[105m");
            reveal_strlit("\x1B[106m");
            reveal_strlit("\x1B[107m");
            reveal_strlit("\x1B[49m");
        }
        match self {
            Color::Black => "\x1B[40m",
            Color::Red => "\x1B[41m",
            Color::Green => "\x1B[42m",
            Color::Yellow => "\x1B[43m",
            Color::Blue => "\x1B[44m",
            Color::Magenta => "\x1B[45m",
            Color::Cyan => "\x1B[46m",
            Color::White => "\x1B[47m",
            Color::BrightBlack => "\x1B[100m",
            Color::BrightRed => "\x1B[101m",
            Color::BrightGreen => "\x1B[102m",
            Color::BrightYellow => "\x1B[103m",
            Color::BrightBlue => "\x1B[104m",
            Color::BrightMagenta => "\x1B[105m",
            Color::BrightCyan => "\x1B[106m",
            Color::BrightWhite => "\x1B[107m",
            Color::Reset => "\x1B[49m",
        }
    }
}

/// A set of text attributes, one bit each. Any subset may be active at once.
#[derive(Debug, Clone, Copy, PartialEq, Eq, Structural)]
pub struct Modifier {
    pub bits: u16,
}

impl Default for Modifier {
    fn default() -> (m: Modifier)
        ensures
            m.bits == 0,
    {
        Modifier { bits: 0 }
    }
}

impl Modifier {
    pub const BOLD: u16 = 0x001;
    pub const DIM: u16 = 0x002;
    pub const ITALIC: u16 = 0x004;
    pub const UNDERLINED: u16 = 0x008;
    pub const FAST_BLINK: u16 = 0x010;
    pub const SLOW_BLINK: u16 = 0x020;
    pub const INVERT: u16 = 0x040;
    pub const HIDDEN: u16 = 0x080;
    pub const CROSSED_OUT: u16 = 0x100;
    /// Every attribute at once.
    pub const ALL: u16 = 0x1ff;

    /// Whether every bit of `mask` is in the set.
    pub open spec fn has(self, mask: u16) -> bool {
        self.bits & mask == mask
    }

    /// The set with no attribute.
    pub fn empty() -> (m: Modifier)
        ensures
            m.bits == 0,
    {
        Modifier { bits: 0 }
    }

    /// The set that holds the attributes of `bits`; bits that name no attribute are dropped.
    pub fn from_bits_truncate(bits: u16) -> (m: Modifier)
        ensures
            m.bits == bits & Modifier::ALL,
    {
        Modifier { bits: bits & Modifier::ALL }
    }

    pub fn bits(&self) -> (bits: u16)
        ensures
            bits == self.bits,
    {
        self.bits
    }

    pub fn is_empty(&self) -> (b: bool)
        ensures
            b == (self.bits == 0),
    {
        self.bits == 0
    }

    /// Whether every attribute of `mask` is in the set.
    pub fn contains(&self, mask: u16) -> (b: bool)
        ensures
            b == self.has(mask),
    {
        self.bits & mask == mask
    }

    /// Whether some attribute of `mask` is in the set.
    pub fn intersects(&self, mask: u16) -> (b: bool)
        ensures
            b == (self.bits & mask != 0),
    {
        self.bits & mask != 0
    }

    pub fn insert(&mut self, mask: u16)
        ensures
            final(self).bits == old(self).bits | mask,
    {
        self.bits = self.bits | mask;
    }

    pub fn remove(&mut self, mask: u16)
        ensures
            final(self).bits == old(self).bits & !mask,
    {
        self.bits = self.bits & !mask;
    }

    pub fn union(self, other: Modifier) -> (m: Modifier)
        ensures
            m.bits == self.bits | other.bits,
    {
        Modifier { bits: self.bits | other.bits }
    }

    /// The attributes of `self` that are not in `other`.
    pub fn difference(self, other: Modifier) -> (m: Modifier)
        ensures
            m.bits == self.bits & !other.bits,
    {
        Modifier { bits: self.bits & !other.bits }
    }
}

pub const RESET: &'static str = "\x1b[0m";

pub const BOLD: &'static str = "\x1b[1m";

pub const DIM: &'static str = "\x1b[2m";

pub const ITALIC: &'static str = "\x1b[3m";

pub const UNDERLINE: &'static str = "\x1b[4m";

pub const SLOW_BLINKING: &'static str = "\x1b[5m";

pub const FAST_BLINKING: &'static str = "\x1b[6m";

pub const INVERT: &'static str = "\x1b[7m";

pub const HIDDEN: &'static str = "\x1b[8m";

pub const STRIKETHROUGH: &'static str = "\x1b[9m";

/// Bold and dim share this one code.
pub const NO_BOLD_OR_DIM: &'static str = "\x1b[22m";

pub const NO_ITALIC: &'static str = "\x1b[23m";

pub const NO_UNDERLINE: &'static str = "\x1b[24m";

pub const NO_BLINKING: &'static str = "\x1b[25m";

pub const NO_INVERT: &'static str = "\x1b[27m";

pub const NO_HIDDEN: &'static str = "\x1b[28m";

pub const NO_STRIKETHROUGH: &'static str = "\x1b[29m";

/// Colours and attributes to apply to a cell.
#[derive(Debug, Clone, Copy, PartialEq, Eq, Structural)]
pub struct Style {
    pub fg: Color,
    pub bg: Color,
    pub modifier: Modifier,
}

impl Default for Style {
    fn default() -> (s: Style)
        ensures
            s == (Style { fg: Color::Reset, bg: Color::Reset, modifier: Modifier { bits: 0 } }),
    {
        Style { fg: Color::Reset, bg: Color::Reset, modifier: Modifier { bits: 0 } }
    }
}

impl Style {
    /// The plain style: default colours, no attribute.
    pub open spec fn plain() -> Style {
        Style { fg: Color::Reset, bg: Color::Reset, modifier: Modifier { bits: 0 } }
    }

    pub fn fg(self, fg: Color) -> (s: Style)
        ensures
            s == (Style { fg, ..self }),
    {
        Style { fg, bg: self.bg, modifier: self.modifier }
    }

    pub fn bg(self, bg: Color) -> (s: Style)
        ensures
            s == (Style { bg, ..self }),
    {
        Style { fg: self.fg, bg, modifier: self.modifier }
    }

    /// The style with `other` laid over it: both colours are those of `other`,
    /// the default colour too; the attributes are those of `other` if it has
    /// any, and else stay.
    pub fn patch(self, other: Style) -> (s: Style)
        ensures
            s.fg == other.fg,
            s.bg == other.bg,
            s.modifier == if other.modifier.bits == 0 {
                self.modifier
            } else {
                other.modifier
            },
    {
        Style {
            fg: other.fg,
            bg: other.bg,
            modifier: if other.modifier.is_empty() {
                self.modifier
            } else {
                other.modifier
            },
        }
    }

    /// The style with the attributes of `mask` added.
    pub open spec fn spec_with(self, mask: u16) -> Style {
        Style { fg: self.fg, bg: self.bg, modifier: Modifier { bits: self.modifier.bits | mask } }
    }

    /// The style with the attributes of `mask` added.
    #[verifier::when_used_as_spec(spec_with)]
    pub fn with(self, mask: u16) -> (s: Style)
        ensures
            s == self.spec_with(mask),
    {
        Style { fg: self.fg, bg: self.bg, modifier: Modifier { bits: self.modifier.bits | mask } }
    }

    pub fn bold(self) -> (s: Style)
        ensures
            s == self.with(Modifier::BOLD),
    {
        self.with(Modifier::BOLD)
    }

    pub fn dim(self) -> (s: Style)
        ensures
            s == self.with(Modifier::DIM),
    {
        self.with(Modifier::DIM)
    }

    pub fn italic(self) -> (s: Style)
        ensures
            s == self.with(Modifier::ITALIC),
    {
        self.with(Modifier::ITALIC)
    }

    pub fn underlined(self) -> (s: Style)
        ensures
            s == self.with(Modifier::UNDERLINED),
    {
        self.with(Modifier::UNDERLINED)
    }

    pub fn fast_blink(self) -> (s: Style)
        ensures
            s == self.with(Modifier::FAST_BLINK),
    {
        self.with(Modifier::FAST_BLINK)
    }

    pub fn slow_blink(self) -> (s: Style)
        ensures
            s == self.with(Modifier::SLOW_BLINK),
    {
        self.with(Modifier::SLOW_BLINK)
    }

    pub fn invert(self) -> (s: Style)
        ensures
            s == self.with(Modifier::INVERT),
    {
        self.with(Modifier::INVERT)
    }

    pub fn hidden(self) -> (s: Style)
        ensures
            s == self.with(Modifier::HIDDEN),
    {
        self.with(Modifier::HIDDEN)
    }

    pub fn crossed_out(self) -> (s: Style)
        ensures
            s == self.with(Modifier::CROSSED_OUT),
    {
        self.with(Modifier::CROSSED_OUT)
    }
}

/// The plain style: default colours, no attribute.
pub fn style() -> (s: Style)
    ensures
        s == (Style { fg: Color::Reset, bg: Color::Reset, modifier: Modifier { bits: 0 } }),
{
    Style { fg: Color::Reset, bg: Color::Reset, modifier: Modifier::empty() }
}

pub fn fg(color: Color) -> (s: Style)
    ensures
        s == (Style { fg: color, bg: Color::Reset, modifier: Modifier { bits: 0 } }),
{
    Style { fg: color, bg: Color::Reset, modifier: Modifier::empty() }
}

pub fn bg(color: Color) -> (s: Style)
    ensures
        s == (Style { fg: Color::Reset, bg: color, modifier: Modifier { bits: 0 } }),
{
    Style { fg: Color::Reset, bg: color, modifier: Modifier::empty() }
}

pub fn bold() -> (s: Style)
    ensures
        s == (Style { fg: Color::Reset, bg: Color::Reset, modifier: Modifier { bits: Modifier::BOLD } }),
{
    Style { fg: Color::Reset, bg: Color::Reset, modifier: Modifier { bits: Modifier::BOLD } }
}

pub fn dim() -> (s: Style)
    ensures
        s == (Style { fg: Color::Reset, bg: Color::Reset, modifier: Modifier { bits: Modifier::DIM } }),
{
    Style { fg: Color::Reset, bg: Color::Reset, modifier: Modifier { bits: Modifier::DIM } }
}

pub fn italic() -> (s: Style)
    ensures
        s == (Style { fg: Color::Reset, bg: Color::Reset, modifier: Modifier { bits: Modifier::ITALIC } }),
{
    Style { fg: Color::Reset, bg: Color::Reset, modifier: Modifier { bits: Modifier::ITALIC } }
}

pub fn underlined() -> (s: Style)
    ensures
        s == (Style { fg: Color::Reset, bg: Color::Reset, modifier: Modifier { bits: Modifier::UNDERLINED } }),
{
    Style { fg: Color::Reset, bg: Color::Reset, modifier: Modifier { bits: Modifier::UNDERLINED } }
}

pub fn fast_blink() -> (s: Style)
    ensures
        s == (Style { fg: Color::Reset, bg: Color::Reset, modifier: Modifier { bits: Modifier::FAST_BLINK } }),
{
    Style { fg: Color::Reset, bg: Color::Reset, modifier: Modifier { bits: Modifier::FAST_BLINK } }
}

pub fn slow_blink() -> (s: Style)
    ensures
        s == (Style { fg: Color::Reset, bg: Color::Reset, modifier: Modifier { bits: Modifier::SLOW_BLINK } }),
{
    Style { fg: Color::Reset, bg: Color::Reset, modifier: Modifier { bits: Modifier::SLOW_BLINK } }
}

pub fn invert() -> (s: Style)
    ensures
        s == (Style { fg: Color::Reset, bg: Color::Reset, modifier: Modifier { bits: Modifier::INVERT } }),
{
    Style { fg: Color::Reset, bg: Color::Reset, modifier: Modifier { bits: Modifier::INVERT } }
}

pub fn hidden() -> (s: Style)
    ensures
        s == (Style { fg: Color::Reset, bg: Color::Reset, modifier: Modifier { bits: Modifier::HIDDEN } }),
{
    Style { fg: Color::Reset, bg: Color::Reset, modifier: Modifier { bits: Modifier::HIDDEN } }
}

pub fn crossed_out() -> (s: Style)
    ensures
        s == (Style { fg: Color::Reset, bg: Color::Reset, modifier: Modifier { bits: Modifier::CROSSED_OUT } }),
{
    Style { fg: Color::Reset, bg: Color::Reset, modifier: Modifier { bits: Modifier::CROSSED_OUT } }
}

} // verus!
