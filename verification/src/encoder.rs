//! The transmit side: a text becomes the bits of one frame, without the
//! start pattern, which the sender clocks out before them.

use vstd::prelude::*;
use crate::symbols::{Bit, MorseBit, MorseError};
use crate::buffers::{
    BitSequece, DataPacket, bit_run_slice, packet_bits, packet_new, packet_push, symbol_run_slice,
};
use crate::timing::{symbol_bits, symbol_len};
use crate::table::{MorseConversion, char_code};

verus! {

/// The bits of a run of symbols: the bits of each symbol, one after another.
pub open spec fn symbols_bits(symbols: Seq<MorseBit>) -> Seq<Bit>
    decreases symbols.len(),
{
    if symbols.len() == 0 {
        Seq::empty()
    } else {
        symbols_bits(symbols.drop_last()) + symbol_bits(symbols.last())
    }
}

/// `bits`, if a packet can hold them; else the buffer is full.
pub open spec fn fit(bits: Seq<Bit>) -> Result<Seq<Bit>, MorseError> {
    if bits.len() <= 100 {
        Ok(bits)
    } else {
        Err(MorseError::FullBuffer)
    }
}

/// The bits of a text, character by character: the symbols of the
/// character, then a character break. The first character without a code
/// fails with `UnsupportedChar`, and the first character whose bits the
/// packet cannot hold fails with `FullBuffer`, whichever comes first.
pub open spec fn text_bits(text: Seq<char>) -> Result<Seq<Bit>, MorseError>
    decreases text.len(),
{
    if text.len() == 0 {
        Ok(Seq::empty())
    } else {
        match text_bits(text.drop_last()) {
            Err(e) => Err(e),
            Ok(bits) => match char_code(text.last()) {
                None => Err(MorseError::UnsupportedChar(text.last())),
                Some(code) => fit(bits + symbols_bits(code) + symbol_bits(MorseBit::CharBreak)),
            },
        }
    }
}

/// The bits of the frame of a text: the bits of the text, then a line break.
pub open spec fn frame_bits(text: Seq<char>) -> Result<Seq<Bit>, MorseError> {
    match text_bits(text) {
        Err(e) => Err(e),
        Ok(bits) => fit(bits + symbol_bits(MorseBit::LineBreak)),
    }
}

/// The bits of the first symbols of a run are no more than those of the
/// whole run.
proof fn symbols_bits_grow(symbols: Seq<MorseBit>, taken: int)
    requires
        0 <= taken <= symbols.len(),
    ensures
        symbols_bits(symbols.subrange(0, taken)).len() <= symbols_bits(symbols).len(),
    decreases symbols.len(),
{
    if taken == symbols.len() {
        assert(symbols.subrange(0, taken) =~= symbols);
    } else {
        symbols_bits_grow(symbols.drop_last(), taken);
        assert(symbols.drop_last().subrange(0, taken) =~= symbols.subrange(0, taken));
    }
}

/// Appends the bits of one symbol to the packet, as far as they fit.
fn push_symbol(packet: &mut DataPacket, symbol: MorseBit) -> (pushed: Result<(), MorseError>)
    ensures
        pushed is Ok <==> packet_bits(*old(packet)).len() + symbol_len(symbol) <= 100,
        pushed is Ok ==> packet_bits(*final(packet)) == packet_bits(*old(packet)) + symbol_bits(
            symbol,
        ),
        pushed matches Err(e) ==> e == MorseError::FullBuffer,
{
    let run: BitSequece = BitSequece::from(symbol);
    let bits = bit_run_slice(&run);
    let mut i: usize = 0;
    while i < bits.len()
        invariant
            i <= bits@.len(),
            bits@ == symbol_bits(symbol),
            bits@.len() == symbol_len(symbol) >= 1,
            packet_bits(*packet) == packet_bits(*old(packet)) + bits@.subrange(0, i as int),
            i > 0 ==> packet_bits(*packet).len() <= 100,
        decreases bits@.len() - i,
    {
        if packet_push(packet, bits[i]).is_err() {
            return Err(MorseError::FullBuffer);
        }
        assert(bits@.subrange(0, i as int).push(bits@[i as int]) =~= bits@.subrange(0, i + 1));
        i = i + 1;
    }
    assert(bits@.subrange(0, i as int) =~= bits@);
    Ok(())
}

/// Encodes a text as the bits of one frame.
///
/// Every character is looked up in the encoding table, whatever its case,
/// and its symbols are turned into bits; a character break follows every
/// character and a line break closes the frame. The result is `frame_bits`
/// of the text.
pub fn form_data_packet(message: &str) -> (formed: Result<DataPacket, MorseError>)
    ensures
        match frame_bits(message@) {
            Ok(bits) => formed matches Ok(packet) && packet_bits(packet) == bits,
            Err(e) => formed matches Err(failure) && failure == e,
        },
{
    let mut packet = packet_new();
    for c in it: message.chars()
        invariant
            it.seq() == message@,
            text_bits(message@.subrange(0, it.index() as int)) == Ok::<Seq<Bit>, MorseError>(
                packet_bits(packet),
            ),
    {
        let ghost taken = it.index() as int;
        let ghost before = packet_bits(packet);
        proof {
            assert(message@.subrange(0, taken + 1).drop_last() =~= message@.subrange(0, taken));
            assert(message@.subrange(0, taken + 1).last() == c);
            if text_bits(message@.subrange(0, taken + 1)) is Err {
                text_bits_fails_on(message@, taken + 1);
            }
        }
        let m_seq = match c.to_morse_bit_sequence() {
            Ok(m_seq) => m_seq,
            Err(e) => {
                return Err(e);
            },
        };
        let symbols = symbol_run_slice(&m_seq);
        let ghost whole = before + symbols_bits(symbols@) + symbol_bits(MorseBit::CharBreak);
        let mut i: usize = 0;
        while i < symbols.len()
            invariant
                i <= symbols@.len(),
                packet_bits(packet) == before + symbols_bits(symbols@.subrange(0, i as int)),
                whole == before + symbols_bits(symbols@) + symbol_bits(MorseBit::CharBreak),
                whole.len() > 100 ==> frame_bits(message@) == Err::<Seq<Bit>, MorseError>(
                    MorseError::FullBuffer,
                ),
            decreases symbols@.len() - i,
        {
            proof {
                symbols_bits_grow(symbols@, i + 1);
                assert(symbols@.subrange(0, i + 1).drop_last() =~= symbols@.subrange(0, i as int));
                assert(before + symbols_bits(symbols@.subrange(0, i as int)) + symbol_bits(
                    symbols@[i as int],
                ) =~= before + symbols_bits(symbols@.subrange(0, i + 1)));
            }
            if push_symbol(&mut packet, symbols[i]).is_err() {
                return Err(MorseError::FullBuffer);
            }
            i = i + 1;
        }
        assert(symbols@.subrange(0, i as int) =~= symbols@);
        if push_symbol(&mut packet, MorseBit::CharBreak).is_err() {
            return Err(MorseError::FullBuffer);
        }
    }
    assert(message@.subrange(0, message@.len() as int) =~= message@);
    if push_symbol(&mut packet, MorseBit::LineBreak).is_err() {
        return Err(MorseError::FullBuffer);
    }
    Ok(packet)
}

/// Once the bits of the first characters of a text have failed, the text
/// and its frame fail in the same way.
proof fn text_bits_fails_on(text: Seq<char>, taken: int)
    requires
        0 <= taken <= text.len(),
        text_bits(text.subrange(0, taken)) is Err,
    ensures
        text_bits(text) == text_bits(text.subrange(0, taken)),
        frame_bits(text) == text_bits(text.subrange(0, taken)),
    decreases text.len(),
{
    if taken == text.len() {
        assert(text.subrange(0, taken) =~= text);
    } else {
        assert(text.drop_last().subrange(0, taken) =~= text.subrange(0, taken));
        text_bits_fails_on(text.drop_last(), taken);
    }
}

} // verus!
