//! The symbol table: which Morse symbols stand for which character, and back.

use vstd::prelude::*;
use crate::symbols::{MorseBit, MorseError};
use crate::symbols::MorseBit::{Dot, Dash, WordBreak, LineBreak};
use crate::buffers::{MorseBitSequence, symbol_run, symbol_run_new, symbol_run_extend};
use crate::timing::{bits_to_symbol, symbol_bits, law_symbol_round_trip};

verus! {

/// The lower-case form of an upper-case ASCII letter; any other character
/// is left as it is.
pub open spec fn fold_case(c: char) -> char {
    if 'A' <= c && c <= 'Z' {
        ((c as u32) + 32) as char
    } else {
        c
    }
}

/// The encoding table: the symbols of a character, whatever its case.
/// Letters, digits and the full stop have a code of dots and dashes; the
/// space is a word break and the newline is a line break. No other
/// character has a code.
pub open spec fn char_code(c: char) -> Option<Seq<MorseBit>> {
    match fold_case(c) {
        'a' => Some(seq![Dot, Dash]),
        'b' => Some(seq![Dash, Dot, Dot, Dot]),
        'c' => Some(seq![Dash, Dot, Dash, Dot]),
        'd' => Some(seq![Dash, Dot, Dot]),
        'e' => Some(seq![Dot]),
        'f' => Some(seq![Dot, Dot, Dash, Dot]),
        'g' => Some(seq![Dash, Dash, Dot]),
        'h' => Some(seq![Dot, Dot, Dot, Dot]),
        'i' => Some(seq![Dot, Dot]),
        'j' => Some(seq![Dot, Dash, Dash, Dash]),
        'k' => Some(seq![Dash, Dot, Dash]),
        'l' => Some(seq![Dot, Dash, Dot, Dot]),
        'm' => Some(seq![Dash, Dash]),
        'n' => Some(seq![Dash, Dot]),
        'o' => Some(seq![Dash, Dash, Dash]),
        'p' => Some(seq![Dot, Dash, Dash, Dot]),
        'q' => Some(seq![Dash, Dash, Dot, Dash]),
        'r' => Some(seq![Dot, Dash, Dot]),
        's' => Some(seq![Dot, Dot, Dot]),
        't' => Some(seq![Dash]),
        'u' => Some(seq![Dot, Dot, Dash]),
        'v' => Some(seq![Dot, Dot, Dot, Dash]),
        'w' => Some(seq![Dot, Dash, Dash]),
        'x' => Some(seq![Dash, Dot, Dot, Dash]),
        'y' => Some(seq![Dash, Dot, Dash, Dash]),
        'z' => Some(seq![Dash, Dash, Dot, Dot]),
        '0' => Some(seq![Dash, Dash, Dash, Dash, Dash]),
        '1' => Some(seq![Dot, Dash, Dash, Dash, Dash]),
        '2' => Some(seq![Dot, Dot, Dash, Dash, Dash]),
        '3' => Some(seq![Dot, Dot, Dot, Dash, Dash]),
        '4' => Some(seq![Dot, Dot, Dot, Dot, Dash]),
        '5' => Some(seq![Dot, Dot, Dot, Dot, Dot]),
        '6' => Some(seq![Dash, Dot, Dot, Dot, Dot]),
        '7' => Some(seq![Dash, Dash, Dot, Dot, Dot]),
        '8' => Some(seq![Dash, Dash, Dash, Dot, Dot]),
        '9' => Some(seq![Dash, Dash, Dash, Dash, Dot]),
        '.' => Some(seq![Dot, Dash, Dot, Dash, Dot, Dash]),
        ' ' => Some(seq![WordBreak]),
        '\n' => Some(seq![LineBreak]),
        _ => None,
    }
}

/// The decoding table: the character of a run of symbols, by exact match.
/// Letters come out in lower case. A lone line break stands for the newline
/// and a lone word break for the space; a character break stands for no
/// character, alone or among other symbols.
pub open spec fn code_char(code: Seq<MorseBit>) -> Option<char> {
    if code =~= seq![Dot, Dash] {
        Some('a')
    } else if code =~= seq![Dash, Dot, Dot, Dot] {
        Some('b')
    } else if code =~= seq![Dash, Dot, Dash, Dot] {
        Some('c')
    } else if code =~= seq![Dash, Dot, Dot] {
        Some('d')
    } else if code =~= seq![Dot] {
        Some('e')
    } else if code =~= seq![Dot, Dot, Dash, Dot] {
        Some('f')
    } else if code =~= seq![Dash, Dash, Dot] {
        Some('g')
    } else if code =~= seq![Dot, Dot, Dot, Dot] {
        Some('h')
    } else if code =~= seq![Dot, Dot] {
        Some('i')
    } else if code =~= seq![Dot, Dash, Dash, Dash] {
        Some('j')
    } else if code =~= seq![Dash, Dot, Dash] {
        Some('k')
    } else if code =~= seq![Dot, Dash, Dot, Dot] {
        Some('l')
    } else if code =~= seq![Dash, Dash] {
        Some('m')
    } else if code =~= seq![Dash, Dot] {
        Some('n')
    } else if code =~= seq![Dash, Dash, Dash] {
        Some('o')
    } else if code =~= seq![Dot, Dash, Dash, Dot] {
        Some('p')
    } else if code =~= seq![Dash, Dash, Dot, Dash] {
        Some('q')
    } else if code =~= seq![Dot, Dash, Dot] {
        Some('r')
    } else if code =~= seq![Dot, Dot, Dot] {
        Some('s')
    } else if code =~= seq![Dash] {
        Some('t')
    } else if code =~= seq![Dot, Dot, Dash] {
        Some('u')
    } else if code =~= seq![Dot, Dot, Dot, Dash] {
        Some('v')
    } else if code =~= seq![Dot, Dash, Dash] {
        Some('w')
    } else if code =~= seq![Dash, Dot, Dot, Dash] {
        Some('x')
    } else if code =~= seq![Dash, Dot, Dash, Dash] {
        Some('y')
    } else if code =~= seq![Dash, Dash, Dot, Dot] {
        Some('z')
    } else if code =~= seq![Dash, Dash, Dash, Dash, Dash] {
        Some('0')
    } else if code =~= seq![Dot, Dash, Dash, Dash, Dash] {
        Some('1')
    } else if code =~= seq![Dot, Dot, Dash, Dash, Dash] {
        Some('2')
    } else if code =~= seq![Dot, Dot, Dot, Dash, Dash] {
        Some('3')
    } else if code =~= seq![Dot, Dot, Dot, Dot, Dash] {
        Some('4')
    } else if code =~= seq![Dot, Dot, Dot, Dot, Dot] {
        Some('5')
    } else if code =~= seq![Dash, Dot, Dot, Dot, Dot] {
        Some('6')
    } else if code =~= seq![Dash, Dash, Dot, Dot, Dot] {
        Some('7')
    } else if code =~= seq![Dash, Dash, Dash, Dot, Dot] {
        Some('8')
    } else if code =~= seq![Dash, Dash, Dash, Dash, Dot] {
        Some('9')
    } else if code =~= seq![Dot, Dash, Dot, Dash, Dot, Dash] {
        Some('.')
    } else if code =~= seq![LineBreak] {
        Some('\n')
    } else if code =~= seq![WordBreak] {
        Some(' ')
    } else {
        None
    }
}

/// Conversion between a value and the Morse symbols that stand for it.
pub trait MorseConversion: Sized {
    /// The symbols that stand for `self`.
    fn to_morse_bit_sequence(&self) -> Result<MorseBitSequence, MorseError>;

    /// The value that `sequence` stands for.
    fn from_morse_slice(sequence: &[MorseBit]) -> Result<Self, MorseError>;
}

/// Whether two runs of symbols hold the same symbols in the same order.
fn same_symbols(left: &[MorseBit], right: &[MorseBit]) -> (same: bool)
    ensures
        same == (left@ =~= right@),
{
    if left.len() != right.len() {
        return false;
    }
    let mut i: usize = 0;
    while i < left.len()
        invariant
            left@.len() == right@.len(),
            i <= left@.len(),
            forall|k: int| 0 <= k < i ==> left@[k] == right@[k],
        decreases left@.len() - i,
    {
        if left[i] != right[i] {
            return false;
        }
        i = i + 1;
    }
    true
}

impl MorseConversion for char {
    /// Looks the character up in the encoding table. A character without a
    /// code is handed back in the error.
    fn to_morse_bit_sequence(&self) -> (encoded: Result<MorseBitSequence, MorseError>)
        ensures
            match char_code(*self) {
                Some(code) => encoded matches Ok(symbols) && symbol_run(symbols) == code,
                None => encoded == Err::<MorseBitSequence, MorseError>(
                    MorseError::UnsupportedChar(*self),
                ),
            },
    {
        let mut symbols = symbol_run_new();
        let extended = match *self {
            'a' | 'A' => symbol_run_extend(&mut symbols, &[Dot, Dash]),
            'b' | 'B' => symbol_run_extend(&mut symbols, &[Dash, Dot, Dot, Dot]),
            'c' | 'C' => symbol_run_extend(&mut symbols, &[Dash, Dot, Dash, Dot]),
            'd' | 'D' => symbol_run_extend(&mut symbols, &[Dash, Dot, Dot]),
            'e' | 'E' => symbol_run_extend(&mut symbols, &[Dot]),
            'f' | 'F' => symbol_run_extend(&mut symbols, &[Dot, Dot, Dash, Dot]),
            'g' | 'G' => symbol_run_extend(&mut symbols, &[Dash, Dash, Dot]),
            'h' | 'H' => symbol_run_extend(&mut symbols, &[Dot, Dot, Dot, Dot]),
            'i' | 'I' => symbol_run_extend(&mut symbols, &[Dot, Dot]),
            'j' | 'J' => symbol_run_extend(&mut symbols, &[Dot, Dash, Dash, Dash]),
            'k' | 'K' => symbol_run_extend(&mut symbols, &[Dash, Dot, Dash]),
            'l' | 'L' => symbol_run_extend(&mut symbols, &[Dot, Dash, Dot, Dot]),
            'm' | 'M' => symbol_run_extend(&mut symbols, &[Dash, Dash]),
            'n' | 'N' => symbol_run_extend(&mut symbols, &[Dash, Dot]),
            'o' | 'O' => symbol_run_extend(&mut symbols, &[Dash, Dash, Dash]),
            'p' | 'P' => symbol_run_extend(&mut symbols, &[Dot, Dash, Dash, Dot]),
            'q' | 'Q' => symbol_run_extend(&mut symbols, &[Dash, Dash, Dot, Dash]),
            'r' | 'R' => symbol_run_extend(&mut symbols, &[Dot, Dash, Dot]),
            's' | 'S' => symbol_run_extend(&mut symbols, &[Dot, Dot, Dot]),
            't' | 'T' => symbol_run_extend(&mut symbols, &[Dash]),
            'u' | 'U' => symbol_run_extend(&mut symbols, &[Dot, Dot, Dash]),
            'v' | 'V' => symbol_run_extend(&mut symbols, &[Dot, Dot, Dot, Dash]),
            'w' | 'W' => symbol_run_extend(&mut symbols, &[Dot, Dash, Dash]),
            'x' | 'X' => symbol_run_extend(&mut symbols, &[Dash, Dot, Dot, Dash]),
            'y' | 'Y' => symbol_run_extend(&mut symbols, &[Dash, Dot, Dash, Dash]),
            'z' | 'Z' => symbol_run_extend(&mut symbols, &[Dash, Dash, Dot, Dot]),
            '0' => symbol_run_extend(&mut symbols, &[Dash, Dash, Dash, Dash, Dash]),
            '1' => symbol_run_extend(&mut symbols, &[Dot, Dash, Dash, Dash, Dash]),
            '2' => symbol_run_extend(&mut symbols, &[Dot, Dot, Dash, Dash, Dash]),
            '3' => symbol_run_extend(&mut symbols, &[Dot, Dot, Dot, Dash, Dash]),
            '4' => symbol_run_extend(&mut symbols, &[Dot, Dot, Dot, Dot, Dash]),
            '5' => symbol_run_extend(&mut symbols, &[Dot, Dot, Dot, Dot, Dot]),
            '6' => symbol_run_extend(&mut symbols, &[Dash, Dot, Dot, Dot, Dot]),
            '7' => symbol_run_extend(&mut symbols, &[Dash, Dash, Dot, Dot, Dot]),
            '8' => symbol_run_extend(&mut symbols, &[Dash, Dash, Dash, Dot, Dot]),
            '9' => symbol_run_extend(&mut symbols, &[Dash, Dash, Dash, Dash, Dot]),
            '.' => symbol_run_extend(&mut symbols, &[Dot, Dash, Dot, Dash, Dot, Dash]),
            ' ' => symbol_run_extend(&mut symbols, &[WordBreak]),
            '\n' => symbol_run_extend(&mut symbols, &[LineBreak]),
            _ => {
                return Err(MorseError::UnsupportedChar(*self));
            },
        };
        assert(extended is Ok);
        Ok(symbols)
    }

    /// Looks the symbols up in the decoding table, row by row.
    fn from_morse_slice(sequence: &[MorseBit]) -> (decoded: Result<char, MorseError>)
        ensures
            match code_char(sequence@) {
                Some(c) => decoded == Ok::<char, MorseError>(c),
                None => decoded == Err::<char, MorseError>(MorseError::UnknownMorseSequence),
            },
    {
        if same_symbols(sequence, &[Dot, Dash]) {
            return Ok('a');
        }
        if same_symbols(sequence, &[Dash, Dot, Dot, Dot]) {
            return Ok('b');
        }
        if same_symbols(sequence, &[Dash, Dot, Dash, Dot]) {
            return Ok('c');
        }
        if same_symbols(sequence, &[Dash, Dot, Dot]) {
            return Ok('d');
        }
        if same_symbols(sequence, &[Dot]) {
            return Ok('e');
        }
        if same_symbols(sequence, &[Dot, Dot, Dash, Dot]) {
            return Ok('f');
        }
        if same_symbols(sequence, &[Dash, Dash, Dot]) {
            return Ok('g');
        }
        if same_symbols(sequence, &[Dot, Dot, Dot, Dot]) {
            return Ok('h');
        }
        if same_symbols(sequence, &[Dot, Dot]) {
            return Ok('i');
        }
        if same_symbols(sequence, &[Dot, Dash, Dash, Dash]) {
            return Ok('j');
        }
        if same_symbols(sequence, &[Dash, Dot, Dash]) {
            return Ok('k');
        }
        if same_symbols(sequence, &[Dot, Dash, Dot, Dot]) {
            return Ok('l');
        }
        if same_symbols(sequence, &[Dash, Dash]) {
            return Ok('m');
        }
        if same_symbols(sequence, &[Dash, Dot]) {
            return Ok('n');
        }
        if same_symbols(sequence, &[Dash, Dash, Dash]) {
            return Ok('o');
        }
        if same_symbols(sequence, &[Dot, Dash, Dash, Dot]) {
            return Ok('p');
        }
        if same_symbols(sequence, &[Dash, Dash, Dot, Dash]) {
            return Ok('q');
        }
        if same_symbols(sequence, &[Dot, Dash, Dot]) {
            return Ok('r');
        }
        if same_symbols(sequence, &[Dot, Dot, Dot]) {
            return Ok('s');
        }
        if same_symbols(sequence, &[Dash]) {
            return Ok('t');
        }
        if same_symbols(sequence, &[Dot, Dot, Dash]) {
            return Ok('u');
        }
        if same_symbols(sequence, &[Dot, Dot, Dot, Dash]) {
            return Ok('v');
        }
        if same_symbols(sequence, &[Dot, Dash, Dash]) {
            return Ok('w');
        }
        if same_symbols(sequence, &[Dash, Dot, Dot, Dash]) {
            return Ok('x');
        }
        if same_symbols(sequence, &[Dash, Dot, Dash, Dash]) {
            return Ok('y');
        }
        if same_symbols(sequence, &[Dash, Dash, Dot, Dot]) {
            return Ok('z');
        }
        if same_symbols(sequence, &[Dash, Dash, Dash, Dash, Dash]) {
            return Ok('0');
        }
        if same_symbols(sequence, &[Dot, Dash, Dash, Dash, Dash]) {
            return Ok('1');
        }
        if same_symbols(sequence, &[Dot, Dot, Dash, Dash, Dash]) {
            return Ok('2');
        }
        if same_symbols(sequence, &[Dot, Dot, Dot, Dash, Dash]) {
            return Ok('3');
        }
        if same_symbols(sequence, &[Dot, Dot, Dot, Dot, Dash]) {
            return Ok('4');
        }
        if same_symbols(sequence, &[Dot, Dot, Dot, Dot, Dot]) {
            return Ok('5');
        }
        if same_symbols(sequence, &[Dash, Dot, Dot, Dot, Dot]) {
            return Ok('6');
        }
        if same_symbols(sequence, &[Dash, Dash, Dot, Dot, Dot]) {
            return Ok('7');
        }
        if same_symbols(sequence, &[Dash, Dash, Dash, Dot, Dot]) {
            return Ok('8');
        }
        if same_symbols(sequence, &[Dash, Dash, Dash, Dash, Dot]) {
            return Ok('9');
        }
        if same_symbols(sequence, &[Dot, Dash, Dot, Dash, Dot, Dash]) {
            return Ok('.');
        }
        if same_symbols(sequence, &[LineBreak]) {
            return Ok('\n');
        }
        if same_symbols(sequence, &[WordBreak]) {
            return Ok(' ');
        }
        Err(MorseError::UnknownMorseSequence)
    }
}

/// The decoding table on the codes of the letters `a` to `i`.
proof fn decode_first_letters()
    ensures
        code_char(seq![Dot, Dash]) == Some('a'),
        code_char(seq![Dash, Dot, Dot, Dot]) == Some('b'),
        code_char(seq![Dash, Dot, Dash, Dot]) == Some('c'),
        code_char(seq![Dash, Dot, Dot]) == Some('d'),
        code_char(seq![Dot]) == Some('e'),
        code_char(seq![Dot, Dot, Dash, Dot]) == Some('f'),
        code_char(seq![Dash, Dash, Dot]) == Some('g'),
        code_char(seq![Dot, Dot, Dot, Dot]) == Some('h'),
        code_char(seq![Dot, Dot]) == Some('i'),
{
}

/// The decoding table on the codes of the letters `j` to `r`.
proof fn decode_middle_letters()
    ensures
        code_char(seq![Dot, Dash, Dash, Dash]) == Some('j'),
        code_char(seq![Dash, Dot, Dash]) == Some('k'),
        code_char(seq![Dot, Dash, Dot, Dot]) == Some('l'),
        code_char(seq![Dash, Dash]) == Some('m'),
        code_char(seq![Dash, Dot]) == Some('n'),
        code_char(seq![Dash, Dash, Dash]) == Some('o'),
        code_char(seq![Dot, Dash, Dash, Dot]) == Some('p'),
        code_char(seq![Dash, Dash, Dot, Dash]) == Some('q'),
        code_char(seq![Dot, Dash, Dot]) == Some('r'),
{
}

/// The decoding table on the codes of the letters `s` to `z`.
proof fn decode_last_letters()
    ensures
        code_char(seq![Dot, Dot, Dot]) == Some('s'),
        code_char(seq![Dash]) == Some('t'),
        code_char(seq![Dot, Dot, Dash]) == Some('u'),
        code_char(seq![Dot, Dot, Dot, Dash]) == Some('v'),
        code_char(seq![Dot, Dash, Dash]) == Some('w'),
        code_char(seq![Dash, Dot, Dot, Dash]) == Some('x'),
        code_char(seq![Dash, Dot, Dash, Dash]) == Some('y'),
        code_char(seq![Dash, Dash, Dot, Dot]) == Some('z'),
{
    assert(seq![Dash][0] == Dash);
}

/// The decoding table on the codes of the digits.
proof fn decode_digits()
    ensures
        code_char(seq![Dash, Dash, Dash, Dash, Dash]) == Some('0'),
        code_char(seq![Dot, Dash, Dash, Dash, Dash]) == Some('1'),
        code_char(seq![Dot, Dot, Dash, Dash, Dash]) == Some('2'),
        code_char(seq![Dot, Dot, Dot, Dash, Dash]) == Some('3'),
        code_char(seq![Dot, Dot, Dot, Dot, Dash]) == Some('4'),
        code_char(seq![Dot, Dot, Dot, Dot, Dot]) == Some('5'),
        code_char(seq![Dash, Dot, Dot, Dot, Dot]) == Some('6'),
        code_char(seq![Dash, Dash, Dot, Dot, Dot]) == Some('7'),
        code_char(seq![Dash, Dash, Dash, Dot, Dot]) == Some('8'),
        code_char(seq![Dash, Dash, Dash, Dash, Dot]) == Some('9'),
{
}

/// The decoding table on the codes of the full stop, the space and the
/// newline.
proof fn decode_marks()
    ensures
        code_char(seq![Dot, Dash, Dot, Dash, Dot, Dash]) == Some('.'),
        code_char(seq![WordBreak]) == Some(' '),
        code_char(seq![LineBreak]) == Some('\n'),
{
    assert(seq![WordBreak][0] == WordBreak);
    assert(seq![LineBreak][0] == LineBreak);
}

/// Round trip of a character: the symbols of a character that has a code
/// stand for that character, in lower case, and each of them comes back
/// from its bits on the wire.
pub proof fn law_char_round_trip(c: char)
    requires
        char_code(c) is Some,
    ensures
        code_char(char_code(c)->0) == Some(fold_case(c)),
        forall|i: int|
            0 <= i < char_code(c)->0.len() ==> bits_to_symbol(
                symbol_bits(#[trigger] char_code(c)->0[i]),
            ) == Ok::<MorseBit, MorseError>(char_code(c)->0[i]),
{
    assert forall|symbol: MorseBit|
        bits_to_symbol(#[trigger] symbol_bits(symbol)) == Ok::<MorseBit, MorseError>(
            symbol,
        ) by {
        law_symbol_round_trip(symbol);
    }
    decode_first_letters();
    decode_middle_letters();
    decode_last_letters();
    decode_digits();
    decode_marks();
}

/// The decoding table holds nothing that the encoding table lacks: a
/// character that comes out of it is in lower case and has exactly the
/// symbols that went in as its code.
pub proof fn law_code_round_trip(code: Seq<MorseBit>)
    requires
        code_char(code) is Some,
    ensures
        char_code(code_char(code)->0) == Some(code),
        fold_case(code_char(code)->0) == code_char(code)->0,
{
}

/// The two tables are each other's inverse: a run of symbols stands for a
/// character exactly when the character is in lower case and the symbols are
/// its code. So no run stands for two characters, and a run that is the
/// code of none stands for none.
pub proof fn law_tables_are_inverse(code: Seq<MorseBit>, c: char)
    ensures
        code_char(code) == Some(c) <==> char_code(c) == Some(code) && fold_case(c) == c,
{
    if code_char(code) == Some(c) {
        law_code_round_trip(code);
    }
    if char_code(c) == Some(code) && fold_case(c) == c {
        law_char_round_trip(c);
    }
}

} // verus!
