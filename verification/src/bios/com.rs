//! The BIOS serial-port service (INT 14h): line configuration, the line and
//! modem status word, and the result of a receive.
use vstd::prelude::*;

verus! {

/// Status-word bits reported by INT 14h, AH = 03h (AH: line status, AL:
/// modem status).
pub const TIME_OUT_ERROR: u16 = 0x8000;
pub const TRANSMITTER_SHIFT_REGISTER_EMPTY: u16 = 0x4000;
pub const TRANSMITTER_HOLDING_REGISTER_EMPTY: u16 = 0x2000;
pub const BREAK_DETECTION_ERROR: u16 = 0x1000;
pub const FRAMING_ERROR: u16 = 0x0800;
pub const PARITY_ERROR: u16 = 0x0400;
pub const OVERRUN_ERROR: u16 = 0x0200;
pub const DATA_AVAILABLE: u16 = 0x0100;
pub const RECEIVE_LINE_SIGNAL_DETECT: u16 = 0x0080;
pub const RING_INDICATOR: u16 = 0x0040;
pub const DATA_SET_READY: u16 = 0x0020;
pub const CLEAR_TO_SEND: u16 = 0x0010;
pub const DELTA_RECEIVE_LINE_SIGNAL_DETECT: u16 = 0x0008;
pub const TRAILING_EDGE_RING_DETECTOR: u16 = 0x0004;
pub const DELTA_DATA_SET_READY: u16 = 0x0002;
pub const DELTA_CLEAR_TO_SEND: u16 = 0x0001;

/// The line and modem status of a serial port. Every one of the sixteen
/// bits has a meaning, so every `u16` is a valid status.
#[derive(Debug, Clone, Copy, PartialEq, Eq, Structural)]
pub struct ComStatusFlags {
    bits: u16,
}

impl ComStatusFlags {
    pub closed spec fn spec_bits(self) -> u16 {
        self.bits
    }

    /// The status with the given bits; since all bits are defined, none is
    /// dropped.
    pub fn from_bits_truncate(bits: u16) -> (r: Self)
        ensures
            r.spec_bits() == bits,
    {
        ComStatusFlags { bits }
    }

    pub fn bits(&self) -> (r: u16)
        ensures
            r == self.spec_bits(),
    {
        self.bits
    }
}

/// Line-configuration fields for INT 14h, AH = 00h: word length (bits 0-1),
/// stop bits (bit 2), parity (bits 3-4) and baud rate (bits 5-7).
pub const ASCII7: u8 = 0b10;
pub const ASCII8: u8 = 0b11;
pub const ONE_STOP_BIT: u8 = 0b000;
pub const TWO_STOP_BITS: u8 = 0b100;
pub const EVEN_PARITY: u8 = 0b11000;
pub const ODD_PARITY: u8 = 0b01000;
pub const NO_PARITY: u8 = 0b00000;
pub const BAUD110: u8 = 0b000_00000;
pub const BAUD150: u8 = 0b001_00000;
pub const BAUD300: u8 = 0b010_00000;
pub const BAUD600: u8 = 0b011_00000;
pub const BAUD1200: u8 = 0b100_00000;
pub const BAUD2400: u8 = 0b101_00000;
pub const BAUD4800: u8 = 0b110_00000;
pub const BAUD9600: u8 = 0b111_00000;

/// The configuration the stub opens its port with: 9600 baud, no parity, one
/// stop bit, eight data bits (AH = 00h in the high byte).
pub const COM_OPTS: u16 = 0b0000_0000_1110_0011;

/// A serial line configuration. Every bit has a meaning, so every `u8` is a
/// valid configuration.
#[derive(Debug, Clone, Copy, PartialEq, Eq, Structural)]
pub struct ComConfiguration {
    bits: u8,
}

impl ComConfiguration {
    pub closed spec fn spec_bits(self) -> u8 {
        self.bits
    }

    /// The configuration with the given bits; none is dropped.
    pub fn from_bits_truncate(bits: u8) -> (r: Self)
        ensures
            r.spec_bits() == bits,
    {
        ComConfiguration { bits }
    }

    pub fn bits(&self) -> (r: u8)
        ensures
            r == self.spec_bits(),
    {
        self.bits
    }
}

/// The result of a receive (INT 14h, AH = 02h): the byte in AL, unless bit 7
/// of the line status in AH reports a time-out.
pub fn com_read_result(al: u8, ah: u8) -> (r: Result<u8, ()>)
    ensures
        r == (if ah & 0x80 != 0 {
            Err::<u8, ()>(())
        } else {
            Ok::<u8, ()>(al)
        }),
{
    if ah & 0x80 != 0 {
        Err(())
    } else {
        Ok(al)
    }
}

} // verus!
