//! Colors of text and of the screen.

use vstd::prelude::*;

verus! {

/// A color given by its red, green and blue parts.
#[derive(Debug, Eq, PartialEq, Copy, Clone, Default, Structural)]
pub struct Rgb {
    pub r: u8,
    pub g: u8,
    pub b: u8,
}

/// Standard colors.
///
/// The order here matters since a color list is indexed by `NamedColor::index`.
#[derive(Debug, Copy, Clone, Eq, PartialEq, PartialOrd, Ord, Structural)]
pub enum NamedColor {
    /// Black.
    Black,
    /// Red.
    Red,
    /// Green.
    Green,
    /// Yellow.
    Yellow,
    /// Blue.
    Blue,
    /// Magenta.
    Magenta,
    /// Cyan.
    Cyan,
    /// White.
    White,
    /// Bright black.
    BrightBlack,
    /// Bright red.
    BrightRed,
    /// Bright green.
    BrightGreen,
    /// Bright yellow.
    BrightYellow,
    /// Bright blue.
    BrightBlue,
    /// Bright magenta.
    BrightMagenta,
    /// Bright cyan.
    BrightCyan,
    /// Bright white.
    BrightWhite,
    /// The foreground color.
    Foreground,
    /// The background color.
    Background,
    /// Color for the cursor itself.
    Cursor,
    /// Dim black.
    DimBlack,
    /// Dim red.
    DimRed,
    /// Dim green.
    DimGreen,
    /// Dim yellow.
    DimYellow,
    /// Dim blue.
    DimBlue,
    /// Dim magenta.
    DimMagenta,
    /// Dim cyan.
    DimCyan,
    /// Dim white.
    DimWhite,
    /// The bright foreground color.
    BrightForeground,
    /// Dim foreground.
    DimForeground,
}

/// How strongly a color shines.
#[derive(Debug, Copy, Clone, Eq, PartialEq, Structural)]
pub enum Shade {
    Dim,
    Normal,
    Bright,
}

impl Shade {
    /// One step brighter, as far as there is one.
    pub open spec fn brighter(self) -> Shade {
        match self {
            Shade::Dim => Shade::Normal,
            _ => Shade::Bright,
        }
    }

    /// One step darker, as far as there is one.
    pub open spec fn darker(self) -> Shade {
        match self {
            Shade::Bright => Shade::Normal,
            _ => Shade::Dim,
        }
    }
}

impl NamedColor {
    /// The place of the color in a color list.
    pub open spec fn slot(self) -> int {
        match self {
            NamedColor::Black => 0,
            NamedColor::Red => 1,
            NamedColor::Green => 2,
            NamedColor::Yellow => 3,
            NamedColor::Blue => 4,
            NamedColor::Magenta => 5,
            NamedColor::Cyan => 6,
            NamedColor::White => 7,
            NamedColor::BrightBlack => 8,
            NamedColor::BrightRed => 9,
            NamedColor::BrightGreen => 10,
            NamedColor::BrightYellow => 11,
            NamedColor::BrightBlue => 12,
            NamedColor::BrightMagenta => 13,
            NamedColor::BrightCyan => 14,
            NamedColor::BrightWhite => 15,
            NamedColor::Foreground => 256,
            NamedColor::Background => 257,
            NamedColor::Cursor => 258,
            NamedColor::DimBlack => 259,
            NamedColor::DimRed => 260,
            NamedColor::DimGreen => 261,
            NamedColor::DimYellow => 262,
            NamedColor::DimBlue => 263,
            NamedColor::DimMagenta => 264,
            NamedColor::DimCyan => 265,
            NamedColor::DimWhite => 266,
            NamedColor::BrightForeground => 267,
            NamedColor::DimForeground => 268,
        }
    }

    /// The place of the color in a color list.
    pub fn index(self) -> (i: usize)
        ensures
            i == self.slot(),
    {
        match self {
            NamedColor::Black => 0,
            NamedColor::Red => 1,
            NamedColor::Green => 2,
            NamedColor::Yellow => 3,
            NamedColor::Blue => 4,
            NamedColor::Magenta => 5,
            NamedColor::Cyan => 6,
            NamedColor::White => 7,
            NamedColor::BrightBlack => 8,
            NamedColor::BrightRed => 9,
            NamedColor::BrightGreen => 10,
            NamedColor::BrightYellow => 11,
            NamedColor::BrightBlue => 12,
            NamedColor::BrightMagenta => 13,
            NamedColor::BrightCyan => 14,
            NamedColor::BrightWhite => 15,
            NamedColor::Foreground => 256,
            NamedColor::Background => 257,
            NamedColor::Cursor => 258,
            NamedColor::DimBlack => 259,
            NamedColor::DimRed => 260,
            NamedColor::DimGreen => 261,
            NamedColor::DimYellow => 262,
            NamedColor::DimBlue => 263,
            NamedColor::DimMagenta => 264,
            NamedColor::DimCyan => 265,
            NamedColor::DimWhite => 266,
            NamedColor::BrightForeground => 267,
            NamedColor::DimForeground => 268,
        }
    }

    /// The sixteen colors at the beginning of a color list.
    pub open spec fn basics() -> Seq<NamedColor> {
        seq![
            NamedColor::Black, NamedColor::Red, NamedColor::Green, NamedColor::Yellow,
            NamedColor::Blue, NamedColor::Magenta, NamedColor::Cyan, NamedColor::White,
            NamedColor::BrightBlack, NamedColor::BrightRed, NamedColor::BrightGreen,
            NamedColor::BrightYellow, NamedColor::BrightBlue, NamedColor::BrightMagenta,
            NamedColor::BrightCyan, NamedColor::BrightWhite,
        ]
    }

    /// One of the sixteen colors at the beginning of a color list.
    pub fn basic(slot: u16) -> (color: NamedColor)
        requires
            slot < 16,
        ensures
            color == NamedColor::basics()[slot as int],
            color.slot() == slot,
    {
        match slot {
            0 => NamedColor::Black,
            1 => NamedColor::Red,
            2 => NamedColor::Green,
            3 => NamedColor::Yellow,
            4 => NamedColor::Blue,
            5 => NamedColor::Magenta,
            6 => NamedColor::Cyan,
            7 => NamedColor::White,
            8 => NamedColor::BrightBlack,
            9 => NamedColor::BrightRed,
            10 => NamedColor::BrightGreen,
            11 => NamedColor::BrightYellow,
            12 => NamedColor::BrightBlue,
            13 => NamedColor::BrightMagenta,
            14 => NamedColor::BrightCyan,
            _ => NamedColor::BrightWhite,
        }
    }

    /// The shade of the color. The background and the cursor come in one shade only.
    pub open spec fn shade(self) -> Shade {
        if 8 <= self.slot() <= 15 || self == NamedColor::BrightForeground {
            Shade::Bright
        } else if 259 <= self.slot() <= 266 || self == NamedColor::DimForeground {
            Shade::Dim
        } else {
            Shade::Normal
        }
    }

    /// The slot of the same hue in its normal shade.
    pub open spec fn hue(self) -> int {
        match self.shade() {
            Shade::Normal => self.slot(),
            Shade::Bright => if self == NamedColor::BrightForeground {
                256
            } else {
                self.slot() - 8
            },
            Shade::Dim => if self == NamedColor::DimForeground { 256 } else { self.slot() - 259 },
        }
    }

    /// Whether the color comes in more than one shade.
    pub open spec fn is_shaded(self) -> bool {
        self != NamedColor::Background && self != NamedColor::Cursor
    }

    /// The color of the same hue in the given shade; a color without shades is left as it is.
    pub open spec fn in_shade(self, shade: Shade) -> NamedColor {
        if self.is_shaded() {
            choose|color: NamedColor| color.hue() == self.hue() && color.shade() == shade
        } else {
            self
        }
    }

    /// The color one shade brighter.
    pub fn to_bright(self) -> (bright: Self)
        ensures
            bright == self.in_shade(self.shade().brighter()),
            bright.hue() == self.hue(),
            self.is_shaded() ==> bright.shade() == self.shade().brighter(),
    {
        let bright = match self {
            NamedColor::Foreground => NamedColor::BrightForeground,
            NamedColor::Black => NamedColor::BrightBlack,
            NamedColor::Red => NamedColor::BrightRed,
            NamedColor::Green => NamedColor::BrightGreen,
            NamedColor::Yellow => NamedColor::BrightYellow,
            NamedColor::Blue => NamedColor::BrightBlue,
            NamedColor::Magenta => NamedColor::BrightMagenta,
            NamedColor::Cyan => NamedColor::BrightCyan,
            NamedColor::White => NamedColor::BrightWhite,
            NamedColor::DimForeground => NamedColor::Foreground,
            NamedColor::DimBlack => NamedColor::Black,
            NamedColor::DimRed => NamedColor::Red,
            NamedColor::DimGreen => NamedColor::Green,
            NamedColor::DimYellow => NamedColor::Yellow,
            NamedColor::DimBlue => NamedColor::Blue,
            NamedColor::DimMagenta => NamedColor::Magenta,
            NamedColor::DimCyan => NamedColor::Cyan,
            NamedColor::DimWhite => NamedColor::White,
            val => val,
        };
        proof {
            law_hue_and_shade_identify_color(bright, self.in_shade(self.shade().brighter()));
        }
        bright
    }

    /// The color one shade darker.
    pub fn to_dim(self) -> (dim: Self)
        ensures
            dim == self.in_shade(self.shade().darker()),
            dim.hue() == self.hue(),
            self.is_shaded() ==> dim.shade() == self.shade().darker(),
    {
        let dim = match self {
            NamedColor::Black => NamedColor::DimBlack,
            NamedColor::Red => NamedColor::DimRed,
            NamedColor::Green => NamedColor::DimGreen,
            NamedColor::Yellow => NamedColor::DimYellow,
            NamedColor::Blue => NamedColor::DimBlue,
            NamedColor::Magenta => NamedColor::DimMagenta,
            NamedColor::Cyan => NamedColor::DimCyan,
            NamedColor::White => NamedColor::DimWhite,
            NamedColor::Foreground => NamedColor::DimForeground,
            NamedColor::BrightBlack => NamedColor::Black,
            NamedColor::BrightRed => NamedColor::Red,
            NamedColor::BrightGreen => NamedColor::Green,
            NamedColor::BrightYellow => NamedColor::Yellow,
            NamedColor::BrightBlue => NamedColor::Blue,
            NamedColor::BrightMagenta => NamedColor::Magenta,
            NamedColor::BrightCyan => NamedColor::Cyan,
            NamedColor::BrightWhite => NamedColor::White,
            NamedColor::BrightForeground => NamedColor::Foreground,
            val => val,
        };
        proof {
            law_hue_and_shade_identify_color(dim, self.in_shade(self.shade().darker()));
        }
        dim
    }
}

/// A color is known by its hue and its shade.
pub proof fn law_hue_and_shade_identify_color(a: NamedColor, b: NamedColor)
    ensures
        a.hue() == b.hue() && a.shade() == b.shade() ==> a == b,
{
}

/// No two named colors share a place in a color list, and every named color besides the
/// first sixteen lies behind the 256 indexed colors.
pub proof fn law_slots_are_distinct(a: NamedColor, b: NamedColor)
    ensures
        a.slot() == b.slot() ==> a == b,
        0 <= a.slot() < 16 || 256 <= a.slot() < 269,
{
}

/// Of every shaded color there is one in each shade.
pub proof fn law_every_shade_exists(color: NamedColor, shade: Shade)
    requires
        color.is_shaded(),
    ensures
        color.in_shade(shade).hue() == color.hue(),
        color.in_shade(shade).shade() == shade,
        color.in_shade(shade).is_shaded(),
{
    let (dim, normal, bright) = match color.hue() as u16 {
        0 => (NamedColor::DimBlack, NamedColor::Black, NamedColor::BrightBlack),
        1 => (NamedColor::DimRed, NamedColor::Red, NamedColor::BrightRed),
        2 => (NamedColor::DimGreen, NamedColor::Green, NamedColor::BrightGreen),
        3 => (NamedColor::DimYellow, NamedColor::Yellow, NamedColor::BrightYellow),
        4 => (NamedColor::DimBlue, NamedColor::Blue, NamedColor::BrightBlue),
        5 => (NamedColor::DimMagenta, NamedColor::Magenta, NamedColor::BrightMagenta),
        6 => (NamedColor::DimCyan, NamedColor::Cyan, NamedColor::BrightCyan),
        7 => (NamedColor::DimWhite, NamedColor::White, NamedColor::BrightWhite),
        _ => (NamedColor::DimForeground, NamedColor::Foreground, NamedColor::BrightForeground),
    };
    assert(dim.hue() == color.hue() && dim.shade() == Shade::Dim);
    assert(normal.hue() == color.hue() && normal.shade() == Shade::Normal);
    assert(bright.hue() == color.hue() && bright.shade() == Shade::Bright);
}

/// Dimming undoes brightening of every color that is not bright already, and brightening
/// undoes dimming of every color that is not dim already.
pub proof fn law_bright_and_dim_are_inverse(color: NamedColor)
    ensures
        color.shade() != Shade::Bright ==> {
            let bright = color.in_shade(color.shade().brighter());
            bright.in_shade(bright.shade().darker()) == color
        },
        color.shade() != Shade::Dim ==> {
            let dim = color.in_shade(color.shade().darker());
            dim.in_shade(dim.shade().brighter()) == color
        },
{
    if color.is_shaded() {
        let bright = color.in_shade(color.shade().brighter());
        let dim = color.in_shade(color.shade().darker());
        law_every_shade_exists(color, color.shade().brighter());
        law_every_shade_exists(color, color.shade().darker());
        law_every_shade_exists(bright, bright.shade().darker());
        law_every_shade_exists(dim, dim.shade().brighter());
        law_hue_and_shade_identify_color(bright.in_shade(bright.shade().darker()), color);
        law_hue_and_shade_identify_color(dim.in_shade(dim.shade().brighter()), color);
    }
}

/// A color as a control sequence gives it.
#[derive(Debug, Clone, Copy, PartialEq, Eq, Structural)]
pub enum Color {
    Named(NamedColor),
    Spec(Rgb),
    Indexed(u8),
}

} // verus!
