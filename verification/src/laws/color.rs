//! Laws of the named colors.

use vstd::prelude::*;

use crate::color::{
    law_every_shade_exists, law_hue_and_shade_identify_color, NamedColor,
};

verus! {

/// The places of the named colors in a color list: the eight basic colors, the same colors
/// bright, and behind the 256 indexed colors those of the text, the screen and the cursor, the
/// basic colors dim, and the color of the text bright and dim.
pub proof fn law_places_of_named_colors()
    ensures
        NamedColor::Black.slot() == 0,
        NamedColor::Red.slot() == 1,
        NamedColor::Green.slot() == 2,
        NamedColor::Yellow.slot() == 3,
        NamedColor::Blue.slot() == 4,
        NamedColor::Magenta.slot() == 5,
        NamedColor::Cyan.slot() == 6,
        NamedColor::White.slot() == 7,
        NamedColor::BrightBlack.slot() == 8,
        NamedColor::BrightRed.slot() == 9,
        NamedColor::BrightGreen.slot() == 10,
        NamedColor::BrightYellow.slot() == 11,
        NamedColor::BrightBlue.slot() == 12,
        NamedColor::BrightMagenta.slot() == 13,
        NamedColor::BrightCyan.slot() == 14,
        NamedColor::BrightWhite.slot() == 15,
        NamedColor::Foreground.slot() == 256,
        NamedColor::Background.slot() == 257,
        NamedColor::Cursor.slot() == 258,
        NamedColor::DimBlack.slot() == 259,
        NamedColor::DimRed.slot() == 260,
        NamedColor::DimGreen.slot() == 261,
        NamedColor::DimYellow.slot() == 262,
        NamedColor::DimBlue.slot() == 263,
        NamedColor::DimMagenta.slot() == 264,
        NamedColor::DimCyan.slot() == 265,
        NamedColor::DimWhite.slot() == 266,
        NamedColor::BrightForeground.slot() == 267,
        NamedColor::DimForeground.slot() == 268,
{
}

/// A basic color brightened lies eight places on, and one dimmed lies in the dim colors; a
/// bright or a dim one goes back to the basic color. Brightening a bright color and dimming a
/// dim one change nothing. The color of the text has a bright and a dim form of its own; those
/// of the screen and the cursor have none.
pub proof fn law_shades_by_their_places(color: NamedColor)
    ensures
        ({
            let brightened = color.in_shade(color.shade().brighter()).slot();
            let dimmed = color.in_shade(color.shade().darker()).slot();
            let slot = color.slot();
            &&& slot < 8 ==> brightened == slot + 8 && dimmed == slot + 259
            &&& 8 <= slot < 16 ==> brightened == slot && dimmed == slot - 8
            &&& 259 <= slot < 267 ==> brightened == slot - 259 && dimmed == slot
            &&& slot == 256 ==> brightened == 267 && dimmed == 268
            &&& slot == 267 ==> brightened == 267 && dimmed == 256
            &&& slot == 268 ==> brightened == 256 && dimmed == 268
            &&& slot == 257 || slot == 258 ==> brightened == slot && dimmed == slot
        }),
{
    if color.is_shaded() {
        let brightened = color.in_shade(color.shade().brighter());
        let dimmed = color.in_shade(color.shade().darker());
        law_every_shade_exists(color, color.shade().brighter());
        law_every_shade_exists(color, color.shade().darker());
        law_hue_and_shade_identify_color(color, brightened);
        law_hue_and_shade_identify_color(color, dimmed);
    }
}

} // verus!
