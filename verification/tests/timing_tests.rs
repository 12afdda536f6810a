use morse::Bit::{Hi, Lo};
use morse::{Bit, BitSequece, MorseBit, MorseError};

const SYMBOLS: [MorseBit; 5] = [
    MorseBit::Dot,
    MorseBit::Dash,
    MorseBit::CharBreak,
    MorseBit::WordBreak,
    MorseBit::LineBreak,
];

fn run(bits: &[Bit]) -> BitSequece {
    BitSequece::from_slice(bits).unwrap()
}

#[test]
fn each_symbol_has_its_pulse() {
    assert_eq!(BitSequece::from(MorseBit::Dot).as_slice(), &[Lo]);
    assert_eq!(BitSequece::from(MorseBit::CharBreak).as_slice(), &[Hi, Lo]);
    assert_eq!(BitSequece::from(MorseBit::Dash).as_slice(), &[Hi, Hi, Lo]);
    assert_eq!(BitSequece::from(MorseBit::LineBreak).as_slice(), &[Hi, Hi, Hi, Lo]);
    assert_eq!(BitSequece::from(MorseBit::WordBreak).as_slice(), &[Hi, Hi, Hi, Hi, Lo]);
}

#[test]
fn each_pulse_has_its_symbol() {
    assert_eq!(MorseBit::try_from(run(&[Lo])), Ok(MorseBit::Dot));
    assert_eq!(MorseBit::try_from(run(&[Hi, Lo])), Ok(MorseBit::CharBreak));
    assert_eq!(MorseBit::try_from(run(&[Hi, Hi, Lo])), Ok(MorseBit::Dash));
    assert_eq!(MorseBit::try_from(run(&[Hi, Hi, Hi, Lo])), Ok(MorseBit::LineBreak));
    assert_eq!(MorseBit::try_from(run(&[Hi, Hi, Hi, Hi, Lo])), Ok(MorseBit::WordBreak));
}

#[test]
fn symbols_come_back_from_their_bits() {
    for symbol in SYMBOLS {
        assert_eq!(MorseBit::try_from(BitSequece::from(symbol)), Ok(symbol));
    }
}

#[test]
fn pulses_have_five_different_lengths() {
    let mut lengths: Vec<usize> = SYMBOLS.iter().map(|s| BitSequece::from(*s).len()).collect();
    lengths.sort();
    assert_eq!(lengths, vec![1, 2, 3, 4, 5]);
}

#[test]
fn other_runs_are_no_symbol() {
    let unknown: [&[Bit]; 9] = [
        &[],
        &[Hi],
        &[Hi, Hi, Hi],
        &[Lo, Lo],
        &[Lo, Hi, Lo],
        &[Hi, Lo, Lo],
        &[Hi, Lo, Hi],
        &[Hi, Hi, Hi, Hi, Hi, Lo],
        &[Hi, Hi, Hi, Hi, Hi, Hi, Hi, Lo],
    ];
    for bits in unknown {
        assert_eq!(MorseBit::try_from(run(bits)), Err(MorseError::UnknownBitSequence));
    }
}

#[test]
fn readings_are_cut_at_the_threshold() {
    assert_eq!(morse::HIGH_THRESHOLD, 210);
    assert_eq!(Bit::from_light_val(0), Lo);
    assert_eq!(Bit::from_light_val(209), Lo);
    assert_eq!(Bit::from_light_val(210), Hi);
    assert_eq!(Bit::from_light_val(u16::MAX), Hi);
}
