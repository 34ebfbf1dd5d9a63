//! Graphic character sets and the slots that they are assigned to.

use vstd::prelude::*;

verus! {

/// Identifiers which can be assigned to a graphic character set.
#[derive(Clone, Copy, Debug, Eq, PartialEq, Default, Structural)]
pub enum CharsetIndex {
    /// Default set, is designated as ASCII at startup.
    #[default]
    G0,
    G1,
    G2,
    G3,
}

/// Standard or common character sets which can be designated as G0-G3.
#[derive(Clone, Copy, Debug, Eq, PartialEq, Default, Structural)]
pub enum StandardCharset {
    #[default]
    Ascii,
    SpecialCharacterAndLineDrawing,
}

/// The glyphs of the line drawing set, for the characters from '`' to '~' in their order.
pub open spec fn line_drawing_glyphs() -> Seq<char> {
    seq![
        '◆', '▒', '\t', '\u{000c}', '\r', '\n', '°', '±',
        '\u{2424}', '\u{000b}', '┘', '┐', '┌', '└', '┼', '⎺',
        '⎻', '─', '⎼', '⎽', '├', '┤', '┴', '┬',
        '│', '≤', '≥', 'π', '≠', '£', '·',
    ]
}

impl StandardCharset {
    /// The character that is shown for `c`.
    pub open spec fn glyph(self, c: char) -> char {
        match self {
            StandardCharset::Ascii => c,
            StandardCharset::SpecialCharacterAndLineDrawing => if '`' <= c <= '~' {
                line_drawing_glyphs()[c as int - '`' as int]
            } else {
                c
            },
        }
    }

    /// Switch/Map character to the active charset. Ascii is the common case and
    /// for that we want to do as little as possible.
    #[inline]
    pub fn map(self, c: char) -> (glyph: char)
        ensures
            glyph == self.glyph(c),
    {
        match self {
            StandardCharset::Ascii => c,
            StandardCharset::SpecialCharacterAndLineDrawing => match c {
                '`' => '◆',
                'a' => '▒',
                'b' => '\t',
                'c' => '\u{000c}',
                'd' => '\r',
                'e' => '\n',
                'f' => '°',
                'g' => '±',
                'h' => '\u{2424}',
                'i' => '\u{000b}',
                'j' => '┘',
                'k' => '┐',
                'l' => '┌',
                'm' => '└',
                'n' => '┼',
                'o' => '⎺',
                'p' => '⎻',
                'q' => '─',
                'r' => '⎼',
                's' => '⎽',
                't' => '├',
                'u' => '┤',
                'v' => '┴',
                'w' => '┬',
                'x' => '│',
                'y' => '≤',
                'z' => '≥',
                '{' => 'π',
                '|' => '≠',
                '}' => '£',
                '~' => '·',
                _ => c,
            },
        }
    }
}

/// The ASCII set shows every character as it is.
pub proof fn law_ascii_shows_characters_as_they_are(c: char)
    ensures
        StandardCharset::Ascii.glyph(c) == c,
{
}

/// The line drawing set shows the characters outside of its range as they are.
pub proof fn law_line_drawing_keeps_other_characters(c: char)
    requires
        c < '`' || '~' < c,
    ensures
        StandardCharset::SpecialCharacterAndLineDrawing.glyph(c) == c,
{
}

/// The line drawing set has a glyph of its own for each character of its range.
pub proof fn law_line_drawing_glyphs_are_distinct(a: char, b: char)
    requires
        '`' <= a <= '~',
        '`' <= b <= '~',
        a != b,
    ensures
        StandardCharset::SpecialCharacterAndLineDrawing.glyph(a)
            != StandardCharset::SpecialCharacterAndLineDrawing.glyph(b),
        StandardCharset::SpecialCharacterAndLineDrawing.glyph(a) != a,
{
}

} // verus!
