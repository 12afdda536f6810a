use morse::Bit::{Hi, Lo};
use morse::{form_data_packet, Bit, Decoder, MorseError, START_SEQUENCE};

fn reading(bit: Bit) -> u16 {
    match bit {
        Hi => 1000,
        Lo => 0,
    }
}

/// One frame as it is on the wire: the start pattern, then the bits of the text.
fn frame(text: &str) -> Vec<Bit> {
    let mut bits = START_SEQUENCE.to_vec();
    bits.extend_from_slice(form_data_packet(text).unwrap().as_slice());
    bits
}

/// Feeds the bits to the decoder and collects what it reports, with the place of the bit.
fn reports(decoder: &mut Decoder, bits: &[Bit]) -> Vec<(usize, Result<String, MorseError>)> {
    let mut all = Vec::new();
    for (at, bit) in bits.iter().enumerate() {
        if let Some(report) = decoder.process_light_val(reading(*bit)) {
            all.push((at, report));
        }
    }
    all
}

fn is_waiting(decoder: &Decoder) -> bool {
    match decoder {
        Decoder::Waiting(parser) => parser.bit_seq.is_empty() && parser.morse_seq.is_empty(),
        _ => false,
    }
}

#[test]
fn new_decoder_waits() {
    assert!(is_waiting(&Decoder::new()));
}

#[test]
fn sos_comes_back() {
    let mut bits = vec![Lo];
    bits.extend(frame("sos"));
    bits.push(Lo);
    let mut decoder = Decoder::new();
    let last = bits.len() - 1;
    assert_eq!(reports(&mut decoder, &bits), vec![(last, Ok("sos".to_string()))]);
    assert!(is_waiting(&decoder));
}

#[test]
fn start_pattern_and_line_break_is_the_empty_message() {
    let mut bits = vec![Lo];
    bits.extend_from_slice(&START_SEQUENCE);
    bits.extend_from_slice(&[Hi, Hi, Hi, Lo]);
    bits.push(Lo);
    let mut decoder = Decoder::new();
    assert_eq!(reports(&mut decoder, &bits), vec![(15, Ok(String::new()))]);
}

#[test]
fn frame_at_the_very_start_is_missed() {
    let mut bits = frame("sos");
    bits.extend_from_slice(&[Lo; 20]);
    let mut decoder = Decoder::new();
    assert_eq!(reports(&mut decoder, &bits), vec![]);
    assert!(is_waiting(&decoder));
}

#[test]
fn upper_case_comes_back_in_lower_case() {
    let mut bits = vec![Lo];
    bits.extend(frame("Ab 1."));
    bits.push(Lo);
    let mut decoder = Decoder::new();
    let last = bits.len() - 1;
    assert_eq!(reports(&mut decoder, &bits), vec![(last, Ok("ab 1.".to_string()))]);
}

#[test]
fn one_wrong_bit_fails_once_and_the_next_frame_is_read() {
    let mut bits = vec![Lo];
    let mut broken = frame("sos");
    // the low slot that closes the first dash of `o` is read as high
    let flipped = START_SEQUENCE.len() + 7;
    assert_eq!(broken[flipped], Lo);
    broken[flipped] = Hi;
    bits.extend(broken);
    let second = bits.len();
    bits.extend(frame("sos"));
    bits.push(Lo);
    let mut decoder = Decoder::new();
    let all = reports(&mut decoder, &bits);
    let last = bits.len() - 1;
    assert_eq!(
        all,
        vec![
            (1 + START_SEQUENCE.len() + 10, Err(MorseError::UnknownBitSequence)),
            (last, Ok("sos".to_string())),
        ]
    );
    assert!(second < last);
    assert!(is_waiting(&decoder));
}

#[test]
fn decoder_is_as_new_after_an_error() {
    let mut bits = vec![Lo];
    bits.extend_from_slice(&START_SEQUENCE);
    bits.extend_from_slice(&[Hi, Hi, Hi, Hi, Hi, Hi]);
    let mut decoder = Decoder::new();
    assert_eq!(reports(&mut decoder, &bits), vec![]);
    assert!(!is_waiting(&decoder));
    let report = decoder.process_light_val(reading(Lo));
    assert_eq!(report, Some(Err(MorseError::UnknownBitSequence)));
    assert!(is_waiting(&decoder));
    // as with a new decoder, the next frame needs one bit before it and is then read
    let mut next = vec![Lo];
    next.extend(frame("ok"));
    next.push(Lo);
    let last = next.len() - 1;
    assert_eq!(reports(&mut decoder, &next), vec![(last, Ok("ok".to_string()))]);
}

#[test]
fn wrong_symbols_fail_when_the_message_is_read() {
    let mut bits = vec![Lo];
    bits.extend_from_slice(&START_SEQUENCE);
    // seven dots, a character break, the line break
    bits.extend_from_slice(&[Lo, Lo, Lo, Lo, Lo, Lo, Lo, Hi, Lo, Hi, Hi, Hi, Lo]);
    bits.push(Lo);
    let mut decoder = Decoder::new();
    let last = bits.len() - 1;
    assert_eq!(reports(&mut decoder, &bits), vec![(last, Err(MorseError::UnknownMorseSequence))]);
    assert!(is_waiting(&decoder));
}

#[test]
fn nine_high_slots_overflow_the_run() {
    let mut bits = vec![Lo];
    bits.extend_from_slice(&START_SEQUENCE);
    bits.extend_from_slice(&[Hi; 9]);
    let mut decoder = Decoder::new();
    let last = bits.len() - 1;
    assert_eq!(reports(&mut decoder, &bits), vec![(last, Err(MorseError::FullBuffer))]);
    assert!(is_waiting(&decoder));
}

#[test]
fn reading_that_delivers_a_message_is_not_looked_at() {
    let mut bits = vec![Lo];
    bits.extend(frame("e"));
    let mut decoder = Decoder::new();
    assert_eq!(reports(&mut decoder, &bits), vec![]);
    assert!(matches!(decoder, Decoder::Processing(_)));
    assert_eq!(decoder.process_light_val(reading(Hi)), Some(Ok("e".to_string())));
    assert!(is_waiting(&decoder));
    // the window holds nothing, not even that last reading
    let mut next = vec![Hi, Hi, Hi, Hi, Lo, Lo, Lo, Hi, Hi];
    next.extend_from_slice(&[Lo; 12]);
    assert_eq!(reports(&mut decoder, &next), vec![]);
}

#[test]
fn frames_follow_each_other() {
    let mut bits = vec![Lo];
    bits.extend(frame("one"));
    let first = bits.len();
    bits.extend_from_slice(&[Lo, Lo]);
    bits.extend(frame("two"));
    bits.push(Lo);
    let mut decoder = Decoder::new();
    let last = bits.len() - 1;
    assert_eq!(
        reports(&mut decoder, &bits),
        vec![(first, Ok("one".to_string())), (last, Ok("two".to_string()))]
    );
}
