use morse::Bit::{Hi, Lo};
use morse::{form_data_packet, Bit, MorseError};

fn frame(text: &str) -> Vec<Bit> {
    form_data_packet(text).unwrap().as_slice().to_vec()
}

#[test]
fn empty_text_is_a_lone_line_break() {
    assert_eq!(frame(""), vec![Hi, Hi, Hi, Lo]);
}

#[test]
fn one_letter_is_its_symbols_then_the_breaks() {
    // a = dot dash, then the character break, then the line break
    assert_eq!(frame("a"), vec![Lo, Hi, Hi, Lo, Hi, Lo, Hi, Hi, Hi, Lo]);
}

#[test]
fn sos_has_these_bits() {
    let expected = vec![
        Lo, Lo, Lo, Hi, Lo, // s
        Hi, Hi, Lo, Hi, Hi, Lo, Hi, Hi, Lo, Hi, Lo, // o
        Lo, Lo, Lo, Hi, Lo, // s
        Hi, Hi, Hi, Lo, // end of line
    ];
    assert_eq!(frame("sos"), expected);
}

#[test]
fn a_space_is_a_word_break_between_character_breaks() {
    assert_eq!(
        frame("e e"),
        vec![Lo, Hi, Lo, Hi, Hi, Hi, Hi, Lo, Hi, Lo, Lo, Hi, Lo, Hi, Hi, Hi, Lo]
    );
}

#[test]
fn case_makes_no_difference() {
    assert_eq!(frame("SOS"), frame("sos"));
    assert_eq!(frame("Ab9"), frame("aB9"));
}

#[test]
fn a_character_without_code_is_named() {
    assert_eq!(form_data_packet("so!s"), Err(MorseError::UnsupportedChar('!')));
    assert_eq!(form_data_packet("é"), Err(MorseError::UnsupportedChar('é')));
}

#[test]
fn a_packet_holds_a_hundred_bits() {
    // each `e` takes three bits, the line break four
    let fits = "e".repeat(32);
    assert_eq!(frame(&fits).len(), 100);
    let too_long = "e".repeat(33);
    assert_eq!(form_data_packet(&too_long), Err(MorseError::FullBuffer));
}

#[test]
fn what_fails_first_is_reported() {
    let full_first = format!("{}!", "e".repeat(40));
    assert_eq!(form_data_packet(&full_first), Err(MorseError::FullBuffer));
    let unsupported_first = format!("!{}", "e".repeat(40));
    assert_eq!(form_data_packet(&unsupported_first), Err(MorseError::UnsupportedChar('!')));
}
