//! C0 set of 7-bit control characters (from ANSI X3.4-1977).

use vstd::prelude::*;

verus! {

/// Null filler, terminal should ignore this character.
pub const NUL: u8 = 0x00;
/// Start of Header.
pub const SOH: u8 = 0x01;
/// Start of Text, implied end of header.
pub const STX: u8 = 0x02;
/// End of Text, causes some terminal to respond with ACK or NAK.
pub const ETX: u8 = 0x03;
/// End of Transmission.
pub const EOT: u8 = 0x04;
/// Enquiry, causes terminal to send ANSWER-BACK ID.
pub const ENQ: u8 = 0x05;
/// Acknowledge, usually sent by terminal in response to ETX.
pub const ACK: u8 = 0x06;
/// Bell, triggers the bell, buzzer, or beeper on the terminal.
pub const BEL: u8 = 0x07;
/// Backspace, can be used to define overstruck characters.
pub const BS: u8 = 0x08;
/// Horizontal Tabulation, move to next predetermined position.
pub const HT: u8 = 0x09;
/// Linefeed, move to same position on next line (see also NL).
pub const LF: u8 = 0x0a;
/// Vertical Tabulation, move to next predetermined line.
pub const VT: u8 = 0x0b;
/// Form Feed, move to next form or page.
pub const FF: u8 = 0x0c;
/// Carriage Return, move to first character of current line.
pub const CR: u8 = 0x0d;
/// Shift Out, switch to G1 (other half of character set).
pub const SO: u8 = 0x0e;
/// Shift In, switch to G0 (normal half of character set).
pub const SI: u8 = 0x0f;
/// Data Link Escape, interpret next control character specially.
pub const DLE: u8 = 0x10;
/// (DC1) Terminal is allowed to resume transmitting.
pub const XON: u8 = 0x11;
/// Device Control 2, causes ASR-33 to activate paper-tape reader.
pub const DC2: u8 = 0x12;
/// (DC2) Terminal must pause and refrain from transmitting.
pub const XOFF: u8 = 0x13;
/// Device Control 4, causes ASR-33 to deactivate paper-tape reader.
pub const DC4: u8 = 0x14;
/// Negative Acknowledge, used sometimes with ETX and ACK.
pub const NAK: u8 = 0x15;
/// Synchronous Idle, used to maintain timing in Sync communication.
pub const SYN: u8 = 0x16;
/// End of Transmission block.
pub const ETB: u8 = 0x17;
/// Cancel (makes VT100 abort current escape sequence if any).
pub const CAN: u8 = 0x18;
/// End of Medium.
pub const EM: u8 = 0x19;
/// Substitute (VT100 uses this to display parity errors).
pub const SUB: u8 = 0x1a;
/// Prefix to an escape sequence.
pub const ESC: u8 = 0x1b;
/// File Separator.
pub const FS: u8 = 0x1c;
/// Group Separator.
pub const GS: u8 = 0x1d;
/// Record Separator (sent by VT132 in block-transfer mode).
pub const RS: u8 = 0x1e;
/// Unit Separator.
pub const US: u8 = 0x1f;
/// Delete, should be ignored by terminal.
pub const DEL: u8 = 0x7f;

} // verus!
