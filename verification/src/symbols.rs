//! The alphabet of the link: channel bits, Morse symbols and the error kinds.

use vstd::prelude::*;

verus! {

/// The level of the channel during one time-slot.
#[derive(Copy, Clone, PartialEq, Eq, Structural, Debug, Hash)]
pub enum Bit {
    Hi,
    Lo,
}

/// One Morse element or framing marker.
#[derive(Copy, Clone, PartialEq, Eq, Structural, Debug, Hash)]
pub enum MorseBit {
    Dot,
    Dash,
    CharBreak,
    WordBreak,
    LineBreak,
}

/// Everything that can go wrong while encoding or decoding.
#[derive(Copy, Clone, PartialEq, Eq, Structural, Debug)]
pub enum MorseError {
    /// A run of bits is not the timing pattern of any symbol.
    UnknownBitSequence,
    /// A run of symbols is not the code of any character.
    UnknownMorseSequence,
    /// The character has no Morse code in the table.
    UnsupportedChar(char),
    /// A bounded buffer has no room left.
    FullBuffer,
}

/// Duration of one time-slot, in microseconds.
pub const TIME_STEP_MICROS: u64 = 11;

/// Raw light readings below this value are `Lo`, all others `Hi`.
pub const HIGH_THRESHOLD: u16 = 210;

/// The bits that open every frame. They carry no part of the message.
pub const START_SEQUENCE: [Bit; 10] = [
    Bit::Hi,
    Bit::Hi,
    Bit::Hi,
    Bit::Hi,
    Bit::Hi,
    Bit::Lo,
    Bit::Lo,
    Bit::Lo,
    Bit::Hi,
    Bit::Hi,
];

/// The level that a raw light reading stands for.
pub open spec fn light_bit(raw_val: u16) -> Bit {
    if raw_val < HIGH_THRESHOLD {
        Bit::Lo
    } else {
        Bit::Hi
    }
}

impl Bit {
    /// Thresholds a raw light reading into a channel level.
    pub fn from_light_val(raw_val: u16) -> (bit: Bit)
        ensures
            bit == light_bit(raw_val),
    {
        if raw_val < HIGH_THRESHOLD {
            Bit::Lo
        } else {
            Bit::Hi
        }
    }
}

} // verus!
