//! Colors and numbers, as commands write them.

use ansi_terminal::color::{NamedColor, Rgb};
use ansi_terminal::number::{parse_hex, parse_i32, parse_number};
use ansi_terminal::xcolor::{parse_legacy_color, parse_rgb_color, xparse_color};

#[test]
fn parse_valid_rgb_colors() {
    assert_eq!(
        xparse_color(b"rgb:f/e/d"),
        Some(Rgb {
            r: 0xff,
            g: 0xee,
            b: 0xdd
        })
    );
    assert_eq!(
        xparse_color(b"rgb:11/aa/ff"),
        Some(Rgb {
            r: 0x11,
            g: 0xaa,
            b: 0xff
        })
    );
    assert_eq!(
        xparse_color(b"rgb:f/ed1/cb23"),
        Some(Rgb {
            r: 0xff,
            g: 0xec,
            b: 0xca
        })
    );
    assert_eq!(
        xparse_color(b"rgb:ffff/0/0"),
        Some(Rgb {
            r: 0xff,
            g: 0x0,
            b: 0x0
        })
    );
}

#[test]
fn parse_valid_legacy_rgb_colors() {
    assert_eq!(
        xparse_color(b"#1af"),
        Some(Rgb {
            r: 0x10,
            g: 0xa0,
            b: 0xf0
        })
    );
    assert_eq!(
        xparse_color(b"#11aaff"),
        Some(Rgb {
            r: 0x11,
            g: 0xaa,
            b: 0xff
        })
    );
    assert_eq!(
        xparse_color(b"#110aa0ff0"),
        Some(Rgb {
            r: 0x11,
            g: 0xaa,
            b: 0xff
        })
    );
    assert_eq!(
        xparse_color(b"#1100aa00ff00"),
        Some(Rgb {
            r: 0x11,
            g: 0xaa,
            b: 0xff
        })
    );
}

#[test]
fn parse_invalid_rgb_colors() {
    assert_eq!(xparse_color(b"rgb:0//"), None);
    assert_eq!(xparse_color(b"rgb://///"), None);
}

#[test]
fn parse_invalid_legacy_rgb_colors() {
    assert_eq!(xparse_color(b"#"), None);
    assert_eq!(xparse_color(b"#f"), None);
}

#[test]
fn parse_invalid_number() {
    assert_eq!(parse_number(b"1abc"), None);
}

#[test]
fn parse_valid_number() {
    assert_eq!(parse_number(b"123"), Some(123));
}

#[test]
fn parse_number_too_large() {
    assert_eq!(parse_number(b"321"), None);
}

#[test]
fn colors_need_a_known_prefix() {
    assert_eq!(xparse_color(b""), None);
    assert_eq!(xparse_color(b"rgb"), None);
    assert_eq!(xparse_color(b"rgb:"), None);
    assert_eq!(xparse_color(b"RGB:1/2/3"), None);
    assert_eq!(xparse_color(b"112233"), None);
    assert_eq!(xparse_color(b"red"), None);
}

#[test]
fn rgb_color_parts_are_scaled() {
    // 255 * 0x7 / 0xf, 255 * 0x80 / 0xff, 255 * 0x801 / 0xfff, 255 * 0x7fff / 0xffff.
    assert_eq!(parse_rgb_color(b"7/80/801"), Some(Rgb { r: 119, g: 128, b: 127 }));
    assert_eq!(parse_rgb_color(b"7fff/0000/ffff"), Some(Rgb { r: 127, g: 0, b: 255 }));
    assert_eq!(parse_rgb_color(b"01/A/a"), Some(Rgb { r: 1, g: 170, b: 170 }));
}

#[test]
fn rgb_color_parts_have_at_most_four_digits() {
    assert_eq!(parse_rgb_color(b"12345/0/0"), None);
    assert_eq!(parse_rgb_color(b"0/00000/0"), None);
    assert_eq!(parse_rgb_color(b"0/0"), None);
    assert_eq!(parse_rgb_color(b"0/0/0/0"), None);
    assert_eq!(parse_rgb_color(b"g/0/0"), None);
    assert_eq!(parse_rgb_color(b"-1/0/0"), None);
    assert_eq!(parse_rgb_color(b"+/0/0"), None);
    assert_eq!(parse_rgb_color(b"+f/0/0"), None);
    assert_eq!(parse_rgb_color(b"f/+f/0"), None);
    assert_eq!(parse_rgb_color(&[0xff, b'/', b'0', b'/', b'0']), None);
}

#[test]
fn legacy_color_parts_keep_their_first_two_digits() {
    assert_eq!(parse_legacy_color(b"123456789"), Some(Rgb { r: 0x12, g: 0x45, b: 0x78 }));
    assert_eq!(parse_legacy_color(b"0fff1fff2fff"), Some(Rgb { r: 0x0f, g: 0x1f, b: 0x2f }));
}

#[test]
fn legacy_colors_have_parts_of_one_to_four_digits() {
    assert_eq!(parse_legacy_color(b""), None);
    assert_eq!(parse_legacy_color(b"12"), None);
    assert_eq!(parse_legacy_color(b"1122"), None);
    assert_eq!(parse_legacy_color(b"11223"), None);
    assert_eq!(parse_legacy_color(b"1122334"), None);
    assert_eq!(parse_legacy_color(b"11112222333"), None);
    assert_eq!(parse_legacy_color(b"111112222233333"), None);
    assert_eq!(xparse_color(b"#1122"), None);
    assert_eq!(xparse_color(b"#000000000000000000000000000000000000000000000000000000"), None);
}

#[test]
fn legacy_colors_are_made_of_digits() {
    assert_eq!(parse_legacy_color(b"xyz"), None);
    assert_eq!(parse_legacy_color(b"+1+2+3"), None);
    assert_eq!(parse_legacy_color(b"11223g"), None);
    assert_eq!(parse_legacy_color(&[b'1', b'2', 0xc3]), None);
    assert_eq!(parse_legacy_color(b"AbCdEf"), Some(Rgb { r: 0xab, g: 0xcd, b: 0xef }));
}

#[test]
fn color_formats_agree_on_two_digits() {
    let mut value: u32 = 0;
    while value < 256 {
        let digits = format!("{:02x}", value);
        let legacy = format!("#{}{}{}", digits, "00", digits);
        let modern = format!("rgb:{}/{}/{}", digits, "00", digits);
        let color = Some(Rgb { r: value as u8, g: 0, b: value as u8 });
        assert_eq!(xparse_color(legacy.as_bytes()), color);
        assert_eq!(xparse_color(modern.as_bytes()), color);
        value += 1;
    }
}

#[test]
fn numbers_fit_a_byte() {
    assert_eq!(parse_number(b""), None);
    assert_eq!(parse_number(b"0"), Some(0));
    assert_eq!(parse_number(b"007"), Some(7));
    assert_eq!(parse_number(b"255"), Some(255));
    assert_eq!(parse_number(b"256"), None);
    assert_eq!(parse_number(b"+1"), None);
    assert_eq!(parse_number(b"-1"), None);
    assert_eq!(parse_number(b"99999999999999999999999999"), None);
}

#[test]
fn numbers_come_back_from_their_digits() {
    let mut value: u32 = 0;
    while value < 256 {
        assert_eq!(parse_number(format!("{}", value).as_bytes()), Some(value as u8));
        value += 1;
    }
}

#[test]
fn hexadecimal_numbers() {
    assert_eq!(parse_hex(b"ff"), Some(255));
    assert_eq!(parse_hex(b"fF"), Some(255));
    assert_eq!(parse_hex(b"+ff"), None);
    assert_eq!(parse_hex(b"fg"), None);
    assert_eq!(parse_hex(b""), None);
    assert_eq!(parse_hex(b"+"), None);
    assert_eq!(parse_hex(b"-1"), None);
    assert_eq!(parse_hex(b"ffffffffffffffff"), Some(u64::MAX));
    assert_eq!(parse_hex(b"10000000000000000"), None);
    assert_eq!(parse_hex(b"0000000000000000000000001"), Some(1));
}

#[test]
fn signed_numbers() {
    assert_eq!(parse_i32(b"0"), Some(0));
    assert_eq!(parse_i32(b"-0"), Some(0));
    assert_eq!(parse_i32(b"+127"), Some(127));
    assert_eq!(parse_i32(b"-127"), Some(-127));
    assert_eq!(parse_i32(b"2147483647"), Some(i32::MAX));
    assert_eq!(parse_i32(b"2147483648"), None);
    assert_eq!(parse_i32(b"-2147483648"), Some(i32::MIN));
    assert_eq!(parse_i32(b"-2147483649"), None);
    assert_eq!(parse_i32(b"-"), None);
    assert_eq!(parse_i32(b""), None);
    assert_eq!(parse_i32(b"1 "), None);
    assert_eq!(parse_i32(b"+-1"), None);
}

#[test]
fn named_colors_have_their_places() {
    assert_eq!(NamedColor::Black.index(), 0);
    assert_eq!(NamedColor::White.index(), 7);
    assert_eq!(NamedColor::BrightBlack.index(), 8);
    assert_eq!(NamedColor::BrightWhite.index(), 15);
    assert_eq!(NamedColor::Foreground.index(), 256);
    assert_eq!(NamedColor::Background.index(), 257);
    assert_eq!(NamedColor::Cursor.index(), 258);
    assert_eq!(NamedColor::DimBlack.index(), 259);
    assert_eq!(NamedColor::DimWhite.index(), 266);
    assert_eq!(NamedColor::BrightForeground.index(), 267);
    assert_eq!(NamedColor::DimForeground.index(), 268);
    assert_eq!(NamedColor::basic(1), NamedColor::Red);
    assert_eq!(NamedColor::basic(12), NamedColor::BrightBlue);
}

#[test]
fn bright_and_dim_colors() {
    assert_eq!(NamedColor::Red.to_bright(), NamedColor::BrightRed);
    assert_eq!(NamedColor::BrightRed.to_bright(), NamedColor::BrightRed);
    assert_eq!(NamedColor::DimRed.to_bright(), NamedColor::Red);
    assert_eq!(NamedColor::Red.to_dim(), NamedColor::DimRed);
    assert_eq!(NamedColor::BrightRed.to_dim(), NamedColor::Red);
    assert_eq!(NamedColor::DimRed.to_dim(), NamedColor::DimRed);
    assert_eq!(NamedColor::Foreground.to_bright(), NamedColor::BrightForeground);
    assert_eq!(NamedColor::Foreground.to_dim(), NamedColor::DimForeground);
    assert_eq!(NamedColor::DimForeground.to_bright(), NamedColor::Foreground);
    assert_eq!(NamedColor::BrightForeground.to_dim(), NamedColor::Foreground);
    assert_eq!(NamedColor::Background.to_bright(), NamedColor::Background);
    assert_eq!(NamedColor::Background.to_dim(), NamedColor::Background);
    assert_eq!(NamedColor::Cursor.to_bright(), NamedColor::Cursor);
}

#[test]
fn larger_rgb_color_parts_are_no_darker() {
    let mut last: u8 = 0;
    let mut value: u32 = 0;
    while value <= 0xfff {
        let color = format!("{:03x}/0/0", value);
        match parse_rgb_color(color.as_bytes()) {
            Some(rgb) => {
                assert_eq!(rgb.r >= last, true);
                last = rgb.r;
            },
            None => panic!("{} is a color", color),
        }
        value += 1;
    }
    assert_eq!(parse_rgb_color(b"000/0/0"), Some(Rgb { r: 0, g: 0, b: 0 }));
    assert_eq!(last, 255);
}
