//! The timing codec: one symbol is a run of `Hi` slots closed by one `Lo`
//! slot, and the length of the run tells the symbols apart.

use vstd::prelude::*;
use crate::symbols::{Bit, MorseBit, MorseError};
use crate::buffers::{BitSequece, bit_run, bit_run_new, bit_run_extend, bit_run_slice};
use vstd::std_specs::convert::{FromSpecImpl, TryFromSpecImpl};

verus! {

/// The number of time-slots that a symbol occupies, the closing `Lo` included.
pub open spec fn symbol_len(symbol: MorseBit) -> nat {
    match symbol {
        MorseBit::Dot => 1,
        MorseBit::CharBreak => 2,
        MorseBit::Dash => 3,
        MorseBit::LineBreak => 4,
        MorseBit::WordBreak => 5,
    }
}

/// The symbol that occupies `len` time-slots, if there is one.
pub open spec fn symbol_of_len(len: nat) -> Option<MorseBit> {
    if len == 1 {
        Some(MorseBit::Dot)
    } else if len == 2 {
        Some(MorseBit::CharBreak)
    } else if len == 3 {
        Some(MorseBit::Dash)
    } else if len == 4 {
        Some(MorseBit::LineBreak)
    } else if len == 5 {
        Some(MorseBit::WordBreak)
    } else {
        None
    }
}

/// A pulse of `len` slots: `len - 1` times `Hi`, then `Lo`.
pub open spec fn pulse(len: nat) -> Seq<Bit> {
    Seq::new(
        len,
        |i: int|
            if i == len - 1 {
                Bit::Lo
            } else {
                Bit::Hi
            },
    )
}

/// Whether `bits` is a pulse: not empty, `Lo` at the end and `Hi` before it.
pub open spec fn is_pulse(bits: Seq<Bit>) -> bool {
    &&& bits.len() >= 1
    &&& bits[bits.len() - 1] == Bit::Lo
    &&& forall|i: int| 0 <= i < bits.len() - 1 ==> bits[i] == Bit::Hi
}

/// The bits that stand for a symbol on the wire.
pub open spec fn symbol_bits(symbol: MorseBit) -> Seq<Bit> {
    pulse(symbol_len(symbol))
}

/// The symbol that a run of bits stands for: the run must be a pulse whose
/// length belongs to a symbol.
pub open spec fn bits_to_symbol(bits: Seq<Bit>) -> Result<MorseBit, MorseError> {
    if is_pulse(bits) {
        match symbol_of_len(bits.len()) {
            Some(symbol) => Ok(symbol),
            None => Err(MorseError::UnknownBitSequence),
        }
    } else {
        Err(MorseError::UnknownBitSequence)
    }
}

impl From<MorseBit> for BitSequece {
    /// The bits of `value`, ready to be clocked out.
    fn from(value: MorseBit) -> (run: BitSequece)
        ensures
            bit_run(run) == symbol_bits(value),
    {
        let mut run = bit_run_new();
        let extended = match value {
            MorseBit::Dot => bit_run_extend(&mut run, &[Bit::Lo]),
            MorseBit::CharBreak => bit_run_extend(&mut run, &[Bit::Hi, Bit::Lo]),
            MorseBit::Dash => bit_run_extend(&mut run, &[Bit::Hi, Bit::Hi, Bit::Lo]),
            MorseBit::LineBreak => bit_run_extend(&mut run, &[Bit::Hi, Bit::Hi, Bit::Hi, Bit::Lo]),
            MorseBit::WordBreak => bit_run_extend(
                &mut run,
                &[Bit::Hi, Bit::Hi, Bit::Hi, Bit::Hi, Bit::Lo],
            ),
        };
        assert(extended is Ok);
        assert(bit_run(run) =~= symbol_bits(value));
        run
    }
}

impl FromSpecImpl<MorseBit> for BitSequece {
    open spec fn obeys_from_spec() -> bool {
        false
    }

    open spec fn from_spec(value: MorseBit) -> BitSequece {
        arbitrary()
    }
}

impl TryFrom<BitSequece> for MorseBit {
    type Error = MorseError;

    /// The symbol that the bits of `value` stand for.
    fn try_from(value: BitSequece) -> (symbol: Result<MorseBit, MorseError>)
        ensures
            symbol == bits_to_symbol(bit_run(value)),
    {
        let bits = bit_run_slice(&value);
        let len = bits.len();
        if len == 0 || len > 5 {
            return Err(MorseError::UnknownBitSequence);
        }
        if bits[len - 1] != Bit::Lo {
            return Err(MorseError::UnknownBitSequence);
        }
        let mut i: usize = 0;
        while i < len - 1
            invariant
                1 <= len <= 5,
                len == bits@.len(),
                bits@ == bit_run(value),
                i <= len - 1,
                forall|k: int| 0 <= k < i ==> bits@[k] == Bit::Hi,
            decreases len - i,
        {
            if bits[i] != Bit::Hi {
                return Err(MorseError::UnknownBitSequence);
            }
            i = i + 1;
        }
        if len == 1 {
            Ok(MorseBit::Dot)
        } else if len == 2 {
            Ok(MorseBit::CharBreak)
        } else if len == 3 {
            Ok(MorseBit::Dash)
        } else if len == 4 {
            Ok(MorseBit::LineBreak)
        } else {
            Ok(MorseBit::WordBreak)
        }
    }
}

impl TryFromSpecImpl<BitSequece> for MorseBit {
    open spec fn obeys_try_from_spec() -> bool {
        true
    }

    open spec fn try_from_spec(value: BitSequece) -> Result<MorseBit, MorseError> {
        bits_to_symbol(bit_run(value))
    }
}

/// The bits of a symbol are a pulse, and no two symbols have pulses of the
/// same length.
pub proof fn law_pulses_differ(symbol: MorseBit, other: MorseBit)
    ensures
        is_pulse(symbol_bits(symbol)),
        symbol_bits(symbol).len() == symbol_len(symbol),
        symbol_len(symbol) == symbol_len(other) ==> symbol == other,
{
}

/// Round trip through the timing codec: the bits of a symbol stand for that
/// symbol.
pub proof fn law_symbol_round_trip(symbol: MorseBit)
    ensures
        bits_to_symbol(symbol_bits(symbol)) == Ok::<MorseBit, MorseError>(symbol),
{
}

/// Only the bits of a symbol stand for it: a run of bits that is read as a
/// symbol is exactly the pulse of that symbol.
pub proof fn law_symbol_bits_unique(bits: Seq<Bit>, symbol: MorseBit)
    requires
        bits_to_symbol(bits) == Ok::<MorseBit, MorseError>(symbol),
    ensures
        bits == symbol_bits(symbol),
{
    assert(bits =~= symbol_bits(symbol));
}

} // verus!
