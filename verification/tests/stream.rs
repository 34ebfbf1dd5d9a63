//! Byte streams, as programs write them, and the calls that a handler gets.
//!
//! Byte sequences used in these tests are recordings of the output of programs.

use ansi_terminal::attr::Attr;
use ansi_terminal::charset::{CharsetIndex, StandardCharset};
use ansi_terminal::color::{Color, Rgb};
use ansi_terminal::handler::Handler;
use ansi_terminal::processor::Processor;

struct MockHandler {
    index: CharsetIndex,
    charset: StandardCharset,
    attr: Option<Attr>,
}

impl Handler for MockHandler {
    fn terminal_attribute(&mut self, attr: Attr) {
        self.attr = Some(attr);
    }

    fn configure_charset(&mut self, index: CharsetIndex, charset: StandardCharset) {
        self.index = index;
        self.charset = charset;
    }

    fn set_active_charset(&mut self, index: CharsetIndex) {
        self.index = index;
    }

    fn reset_state(&mut self) {
        *self = Self::default();
    }
}

impl Default for MockHandler {
    fn default() -> MockHandler {
        MockHandler { index: CharsetIndex::G0, charset: StandardCharset::Ascii, attr: None }
    }
}

#[test]
fn parse_control_attribute() {
    let bytes: &[u8] = &[0x1b, b'[', b'1', b'm'];

    let mut parser = Processor::new();
    let mut handler = MockHandler::default();

    for byte in bytes {
        parser.advance(&mut handler, *byte);
    }

    assert_eq!(handler.attr, Some(Attr::Bold));
}

#[test]
fn parse_truecolor_attr() {
    let bytes: &[u8] = &[
        0x1b, b'[', b'3', b'8', b';', b'2', b';', b'1', b'2', b'8', b';', b'6', b'6', b';', b'2', b'5', b'5', b'm',
    ];

    let mut parser = Processor::new();
    let mut handler = MockHandler::default();

    for byte in bytes {
        parser.advance(&mut handler, *byte);
    }

    let spec = Rgb { r: 128, g: 66, b: 255 };

    assert_eq!(handler.attr, Some(Attr::Foreground(Color::Spec(spec))));
}

/// No exactly a test; useful for debugging.
#[test]
fn parse_zsh_startup() {
    let bytes: &[u8] = &[
        0x1b, b'[', b'1', b'm', 0x1b, b'[', b'7', b'm', b'%', 0x1b, b'[', b'2', b'7', b'm', 0x1b, b'[', b'1', b'm',
        0x1b, b'[', b'0', b'm', b' ', b' ', b' ', b' ', b' ', b' ', b' ', b' ', b' ', b' ', b' ', b' ', b' ', b' ',
        b' ', b' ', b' ', b' ', b' ', b' ', b' ', b' ', b' ', b' ', b' ', b' ', b' ', b' ', b' ', b' ', b' ', b' ',
        b' ', b' ', b' ', b' ', b' ', b' ', b' ', b' ', b' ', b' ', b' ', b' ', b' ', b' ', b' ', b' ', b' ', b' ',
        b' ', b' ', b' ', b' ', b' ', b' ', b' ', b' ', b' ', b' ', b' ', b' ', b' ', b' ', b' ', b' ', b' ', b' ',
        b' ', b' ', b' ', b' ', b' ', b' ', b' ', b' ', b' ', b' ', b' ', b'\r', b' ', b'\r', b'\r', 0x1b, b'[',
        b'0', b'm', 0x1b, b'[', b'2', b'7', b'm', 0x1b, b'[', b'2', b'4', b'm', 0x1b, b'[', b'J', b'j', b'w', b'i',
        b'l', b'm', b'@', b'j', b'w', b'i', b'l', b'm', b'-', b'd', b'e', b's', b'k', b' ', 0x1b, b'[', b'0', b'1',
        b';', b'3', b'2', b'm', 0xe2, 0x9e, 0x9c, b' ', 0x1b, b'[', b'0', b'1', b';', b'3', b'2', b'm', b' ', 0x1b,
        b'[', b'3', b'6', b'm', b'~', b'/', b'c', b'o', b'd', b'e',
    ];

    let mut handler = MockHandler::default();
    let mut parser = Processor::new();

    for byte in bytes {
        parser.advance(&mut handler, *byte);
    }
}

#[test]
fn parse_designate_g0_as_line_drawing() {
    let bytes: &[u8] = &[0x1b, b'(', b'0'];
    let mut parser = Processor::new();
    let mut handler = MockHandler::default();

    for byte in bytes {
        parser.advance(&mut handler, *byte);
    }

    assert_eq!(handler.index, CharsetIndex::G0);
    assert_eq!(handler.charset, StandardCharset::SpecialCharacterAndLineDrawing);
}

#[test]
fn parse_designate_g1_as_line_drawing_and_invoke() {
    let bytes: &[u8] = &[0x1b, b')', b'0', 0x0e];
    let mut parser = Processor::new();
    let mut handler = MockHandler::default();

    for byte in &bytes[..3] {
        parser.advance(&mut handler, *byte);
    }

    assert_eq!(handler.index, CharsetIndex::G1);
    assert_eq!(handler.charset, StandardCharset::SpecialCharacterAndLineDrawing);

    let mut handler = MockHandler::default();
    parser.advance(&mut handler, bytes[3]);

    assert_eq!(handler.index, CharsetIndex::G1);
}
