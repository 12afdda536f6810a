use morse::Bit::{Hi, Lo};
use morse::{
    Bit, BitSequece, ListeningForMessage, MorseBit, MorseConversion, MorseError, Parser,
    START_SEQUENCE,
};

fn reading(bit: Bit) -> u16 {
    match bit {
        Hi => 1000,
        Lo => 0,
    }
}

/// Feeds the bits to a new synchroniser and tells which of them locked.
fn locks(bits: &[Bit]) -> Vec<usize> {
    let mut parser = Parser::new();
    let mut found = Vec::new();
    for (at, bit) in bits.iter().enumerate() {
        if parser.process_light_val(reading(*bit)).is_some() {
            found.push(at);
        }
    }
    found
}

fn listener() -> Parser<ListeningForMessage> {
    let mut parser = Parser::new();
    assert!(parser.process_light_val(reading(Lo)).is_none());
    let mut locked = None;
    for bit in START_SEQUENCE {
        locked = parser.process_light_val(reading(bit));
    }
    locked.unwrap()
}

fn text_of(bits: &[Bit]) -> Result<String, MorseError> {
    let mut listener = listener();
    for (at, bit) in bits.iter().enumerate() {
        match listener.process_light_val(reading(*bit)) {
            None => {}
            Some(Ok(mut parser)) => {
                assert_eq!(at + 1, bits.len());
                return parser.message();
            }
            Some(Err(e)) => panic!("bit {at} failed with {e:?}"),
        }
    }
    panic!("the message has no end")
}

#[test]
fn start_pattern_is_five_high_three_low_two_high() {
    assert_eq!(START_SEQUENCE, [Hi, Hi, Hi, Hi, Hi, Lo, Lo, Lo, Hi, Hi]);
}

#[test]
fn new_parser_holds_nothing() {
    let parser = Parser::new();
    assert!(parser.bit_seq.is_empty());
    assert!(parser.morse_seq.is_empty());
    let parser = Parser::default();
    assert!(parser.bit_seq.is_empty());
    assert!(parser.morse_seq.is_empty());
}

#[test]
fn lock_comes_with_the_last_bit_of_the_pattern() {
    let mut stream = vec![Lo, Lo, Lo];
    stream.extend_from_slice(&START_SEQUENCE);
    stream.extend_from_slice(&[Lo, Hi, Lo]);
    assert_eq!(locks(&stream), vec![12]);
}

#[test]
fn lock_does_not_depend_on_what_comes_before() {
    for lead in 1..40usize {
        let mut stream: Vec<Bit> = (0..lead).map(|i| if i % 3 == 0 { Hi } else { Lo }).collect();
        stream.extend_from_slice(&START_SEQUENCE);
        assert_eq!(locks(&stream), vec![lead + 9]);
    }
}

#[test]
fn pattern_after_a_long_high_still_locks() {
    let mut stream = vec![Hi; 25];
    stream.extend_from_slice(&START_SEQUENCE);
    assert_eq!(locks(&stream), vec![34]);
}

#[test]
fn pattern_at_the_very_start_is_not_compared() {
    let mut stream = START_SEQUENCE.to_vec();
    stream.extend_from_slice(&[Lo, Lo, Lo, Lo]);
    assert_eq!(locks(&stream), Vec::<usize>::new());
}

#[test]
fn no_pattern_no_lock() {
    let stream: Vec<Bit> = (0..200).map(|i| if i % 2 == 0 { Hi } else { Lo }).collect();
    assert_eq!(locks(&stream), Vec::<usize>::new());
    assert_eq!(locks(&[Hi, Hi, Hi, Hi, Hi, Lo, Lo, Lo, Hi, Lo, Hi]), Vec::<usize>::new());
}

#[test]
fn window_is_empty_again_after_a_lock() {
    let mut parser = Parser::new();
    let mut stream = vec![Lo];
    stream.extend_from_slice(&START_SEQUENCE);
    // the second pattern follows the first at once: it begins in an empty window
    stream.extend_from_slice(&START_SEQUENCE);
    // the third has one bit before it
    stream.push(Lo);
    stream.extend_from_slice(&START_SEQUENCE);
    let mut found = Vec::new();
    for (at, bit) in stream.iter().enumerate() {
        if parser.process_light_val(reading(*bit)).is_some() {
            found.push(at);
        }
    }
    assert_eq!(found, vec![10, 31]);
}

#[test]
fn listener_starts_with_nothing() {
    let listener = listener();
    assert!(listener.bit_seq.is_empty());
    assert!(listener.morse_seq.is_empty());
}

#[test]
fn high_bits_wait_for_their_low() {
    let mut listener = listener();
    assert!(listener.process_light_val(reading(Hi)).is_none());
    assert!(listener.process_light_val(reading(Hi)).is_none());
    assert_eq!(listener.bit_seq.as_slice(), &[Hi, Hi]);
    assert!(listener.morse_seq.is_empty());
    assert!(listener.process_light_val(reading(Lo)).is_none());
    assert!(listener.bit_seq.is_empty());
    assert_eq!(listener.morse_seq.as_slice(), &[MorseBit::Dash]);
}

#[test]
fn line_break_completes_the_message() {
    let mut listener = listener();
    for bit in [Lo, Hi, Hi, Lo, Hi, Lo, Hi, Hi, Hi] {
        assert!(listener.process_light_val(reading(bit)).is_none());
    }
    let parser = listener.process_light_val(reading(Lo)).unwrap().ok().unwrap();
    let expected = [MorseBit::Dot, MorseBit::Dash, MorseBit::CharBreak, MorseBit::LineBreak];
    assert_eq!(parser.morse_seq.as_slice(), &expected);
    assert!(parser.bit_seq.is_empty());
}

#[test]
fn run_that_is_no_pulse_fails() {
    let mut listener = listener();
    for _ in 0..5 {
        assert!(listener.process_light_val(reading(Hi)).is_none());
    }
    let heard = listener.process_light_val(reading(Lo)).unwrap();
    assert_eq!(heard.err(), Some(MorseError::UnknownBitSequence));
}

#[test]
fn ninth_bit_of_a_run_is_refused() {
    let mut listener = listener();
    for _ in 0..8 {
        assert!(listener.process_light_val(reading(Hi)).is_none());
    }
    assert_eq!(listener.bit_seq.len(), 8);
    let heard = listener.process_light_val(reading(Hi)).unwrap();
    assert_eq!(heard.err(), Some(MorseError::FullBuffer));
    assert_eq!(listener.bit_seq.as_slice(), &[Hi; 8]);
    let heard = listener.process_light_val(reading(Lo)).unwrap();
    assert_eq!(heard.err(), Some(MorseError::FullBuffer));
    assert_eq!(listener.bit_seq.as_slice(), &[Hi; 8]);
}

#[test]
fn symbol_after_the_last_that_fits_is_refused() {
    let mut listener = listener();
    for _ in 0..350 {
        assert!(listener.process_light_val(reading(Lo)).is_none());
    }
    assert_eq!(listener.morse_seq.len(), 350);
    let heard = listener.process_light_val(reading(Lo)).unwrap();
    assert_eq!(heard.err(), Some(MorseError::FullBuffer));
    assert_eq!(listener.morse_seq.len(), 350);
}

#[test]
fn message_reads_groups_between_breaks() {
    // dot dash, break, dash dot dot dot, break, end of line
    let bits = [Lo, Hi, Hi, Lo, Hi, Lo, Hi, Hi, Lo, Lo, Lo, Lo, Hi, Lo, Hi, Hi, Hi, Lo];
    assert_eq!(text_of(&bits), Ok("ab".to_string()));
}

#[test]
fn message_skips_empty_groups() {
    // three character breaks in a row between `e` and `t`
    let bits = [Lo, Hi, Lo, Hi, Lo, Hi, Lo, Hi, Hi, Lo, Hi, Lo, Hi, Hi, Hi, Lo];
    assert_eq!(text_of(&bits), Ok("et".to_string()));
}

#[test]
fn message_reads_a_word_break_as_a_space() {
    let bits = [Lo, Hi, Lo, Hi, Hi, Hi, Hi, Lo, Hi, Lo, Hi, Hi, Lo, Hi, Lo, Hi, Hi, Hi, Lo];
    assert_eq!(text_of(&bits), Ok("e t".to_string()));
}

#[test]
fn message_without_a_character_break_before_the_end() {
    let bits = [Hi, Hi, Lo, Hi, Hi, Hi, Lo];
    assert_eq!(text_of(&bits), Ok("t".to_string()));
}

#[test]
fn message_of_a_lone_line_break_is_empty() {
    assert_eq!(text_of(&[Hi, Hi, Hi, Lo]), Ok(String::new()));
}

#[test]
fn message_with_a_group_in_no_row_fails() {
    // seven dots are no character
    let bits = [Lo, Lo, Lo, Lo, Lo, Lo, Lo, Hi, Lo, Hi, Hi, Hi, Lo];
    assert_eq!(text_of(&bits), Err(MorseError::UnknownMorseSequence));
    // a word break glued to a dot is none either
    let bits = [Lo, Hi, Hi, Hi, Hi, Lo, Hi, Hi, Hi, Lo];
    assert_eq!(text_of(&bits), Err(MorseError::UnknownMorseSequence));
}

#[test]
fn message_can_be_asked_twice() {
    let mut listener = listener();
    let mut done = None;
    for bit in [Lo, Hi, Lo, Hi, Hi, Hi, Lo] {
        done = listener.process_light_val(reading(bit));
    }
    let mut parser = done.unwrap().ok().unwrap();
    assert_eq!(parser.message(), Ok("e".to_string()));
    assert_eq!(parser.message(), Ok("e".to_string()));
}

#[test]
fn every_character_comes_back_through_the_wire() {
    for c in "abcdefghijklmnopqrstuvwxyz0123456789. ABCXYZ".chars() {
        let code = c.to_morse_bit_sequence().unwrap();
        let mut listener = listener();
        for symbol in code.iter() {
            for bit in BitSequece::from(*symbol).iter() {
                assert!(listener.process_light_val(reading(*bit)).is_none());
            }
        }
        assert_eq!(listener.morse_seq.as_slice(), code.as_slice());
        assert!(listener.bit_seq.is_empty());
        assert_eq!(char::from_morse_slice(listener.morse_seq.as_slice()), Ok(c.to_ascii_lowercase()));
    }
}
