//! The receive side, one state at a time: a parser waits for the start
//! pattern, then listens for the symbols of one message, then turns the
//! symbols into text. The state is part of the parser's type, so that an
//! operation of one state cannot be called in another.

use vstd::prelude::*;
use vstd::slice::slice_subrange;
use core::marker::PhantomData;
use std::collections::VecDeque;
use crate::symbols::{Bit, MorseBit, MorseError, START_SEQUENCE, light_bit};
use crate::buffers::{
    BitSequece, MorseBitSequence, bit_run, symbol_run, bit_run_new, bit_run_push, bit_run_clear,
    bit_run_clone, symbol_run_new, symbol_run_push, symbol_run_clone, symbol_run_slice,
    string_push,
};
use crate::timing::bits_to_symbol;
use crate::table::{MorseConversion, code_char};

verus! {

/// State of a parser that has not seen the start pattern yet.
pub struct WaitingForStart;

/// State of a parser that is locked to a frame and collects its symbols.
pub struct ListeningForMessage;

/// State of a parser that holds the symbols of a whole message.
pub struct Processing;

/// The state holder of the receive side.
pub struct Parser<State = WaitingForStart> {
    state: PhantomData<State>,
    start_queue: VecDeque<Bit>,
    /// The bits of the symbol in flight.
    pub bit_seq: BitSequece,
    /// The symbols of the message so far.
    pub morse_seq: MorseBitSequence,
}

/// The window of the frame synchroniser once `bit` has come in: the bit is
/// appended, and a window that was full drops its oldest bit first.
pub open spec fn slide(window: Seq<Bit>, bit: Bit) -> Seq<Bit> {
    if window.len() == START_SEQUENCE@.len() {
        window.subrange(1, window.len() as int).push(bit)
    } else {
        window.push(bit)
    }
}

/// Whether `bit` locks the synchroniser: the window was full, and shifted by
/// `bit` it equals the start pattern. A window that is only just filling up
/// is not compared.
pub open spec fn locks(window: Seq<Bit>, bit: Bit) -> bool {
    window.len() == START_SEQUENCE@.len() && slide(window, bit) == START_SEQUENCE@
}

/// What one bit brings about while listening.
pub enum Heard {
    /// The message goes on.
    More,
    /// The line break has come in: the message is complete.
    Complete,
    /// The frame is broken and is given up.
    Failed(MorseError),
}

/// One step of listening, on the bits of the symbol in flight and the
/// symbols so far: the bits and the symbols after `bit`, and what the bit
/// brought about.
///
/// The bit joins the run; a full run fails with `FullBuffer`. A `Hi` bit
/// does no more. A `Lo` bit closes the run, which must then be the pulse of
/// a symbol, else the step fails with `UnknownBitSequence`. The symbol joins
/// the symbols, unless 350 are held already (`FullBuffer`), and the run
/// starts afresh. A line break completes the message.
pub open spec fn listen(run: Seq<Bit>, symbols: Seq<MorseBit>, bit: Bit) -> (
    Seq<Bit>,
    Seq<MorseBit>,
    Heard,
) {
    if run.len() >= 8 {
        (run, symbols, Heard::Failed(MorseError::FullBuffer))
    } else if bit == Bit::Hi {
        (run.push(bit), symbols, Heard::More)
    } else {
        match bits_to_symbol(run.push(bit)) {
            Err(e) => (run.push(bit), symbols, Heard::Failed(e)),
            Ok(symbol) => if symbols.len() >= 350 {
                (Seq::empty(), symbols, Heard::Failed(MorseError::FullBuffer))
            } else if symbol == MorseBit::LineBreak {
                (Seq::empty(), symbols.push(symbol), Heard::Complete)
            } else {
                (Seq::empty(), symbols.push(symbol), Heard::More)
            },
        }
    }
}

/// Whether a symbol parts the characters of a message.
pub open spec fn is_break(symbol: MorseBit) -> bool {
    symbol == MorseBit::CharBreak || symbol == MorseBit::LineBreak
}

/// The character of one group of symbols, as a text of one character; an
/// empty group stands for no character at all.
pub open spec fn group_text(group: Seq<MorseBit>) -> Result<Seq<char>, MorseError> {
    if group.len() == 0 {
        Ok(Seq::empty())
    } else {
        match code_char(group) {
            Some(c) => Ok(seq![c]),
            None => Err(MorseError::UnknownMorseSequence),
        }
    }
}

/// `text` followed by `rest`, where `rest` may have failed.
pub open spec fn text_then(text: Seq<char>, rest: Result<Seq<char>, MorseError>) -> Result<
    Seq<char>,
    MorseError,
> {
    match rest {
        Ok(more) => Ok(text + more),
        Err(e) => Err(e),
    }
}

/// The text of `symbols`, read after the symbols of `group`, which belong
/// to a character that has begun. Character breaks and line breaks part the
/// groups; each group that is not empty is one character of the decoding
/// table, and a group that is none fails the whole text.
pub open spec fn text_after(group: Seq<MorseBit>, symbols: Seq<MorseBit>) -> Result<
    Seq<char>,
    MorseError,
>
    decreases symbols.len(),
{
    if symbols.len() == 0 {
        group_text(group)
    } else if is_break(symbols[0]) {
        match group_text(group) {
            Ok(text) => text_then(text, text_after(Seq::empty(), symbols.drop_first())),
            Err(e) => Err(e),
        }
    } else {
        text_after(group.push(symbols[0]), symbols.drop_first())
    }
}

/// The text of a message, given its symbols.
pub open spec fn message_text(symbols: Seq<MorseBit>) -> Result<Seq<char>, MorseError> {
    text_after(Seq::empty(), symbols)
}

impl<State> Parser<State> {
    /// The bits in the window of the frame synchroniser, oldest first.
    pub closed spec fn window(&self) -> Seq<Bit> {
        self.start_queue@
    }

    /// The bits of the symbol in flight.
    pub closed spec fn run(&self) -> Seq<Bit> {
        bit_run(self.bit_seq)
    }

    /// The symbols of the message so far.
    pub closed spec fn symbols(&self) -> Seq<MorseBit> {
        symbol_run(self.morse_seq)
    }

    /// Whether the parser holds these symbols and nothing else.
    pub open spec fn holds(&self, symbols: Seq<MorseBit>) -> bool {
        &&& self.window() == Seq::<Bit>::empty()
        &&& self.run() == Seq::<Bit>::empty()
        &&& self.symbols() == symbols
    }

    /// Whether the parser holds nothing: no bit and no symbol.
    pub open spec fn is_fresh(&self) -> bool {
        &&& self.window() == Seq::<Bit>::empty()
        &&& self.run() == Seq::<Bit>::empty()
        &&& self.symbols() == Seq::<MorseBit>::empty()
    }
}

/// Whether the window holds exactly the start pattern.
fn is_start(window: &VecDeque<Bit>) -> (matched: bool)
    ensures
        matched == (window@ == START_SEQUENCE@),
{
    if window.len() != START_SEQUENCE.len() {
        return false;
    }
    let mut i: usize = 0;
    while i < START_SEQUENCE.len()
        invariant
            window@.len() == START_SEQUENCE@.len(),
            i <= START_SEQUENCE@.len(),
            forall|k: int| 0 <= k < i ==> window@[k] == START_SEQUENCE@[k],
        decreases START_SEQUENCE@.len() - i,
    {
        if window[i] != START_SEQUENCE[i] {
            return false;
        }
        i = i + 1;
    }
    assert(window@ =~= START_SEQUENCE@);
    true
}

impl Parser<WaitingForStart> {
    /// A parser that has seen nothing yet.
    pub fn new() -> (parser: Self)
        ensures
            parser.is_fresh(),
    {
        Parser {
            state: PhantomData,
            start_queue: VecDeque::with_capacity(12),
            bit_seq: bit_run_new(),
            morse_seq: symbol_run_new(),
        }
    }

    /// Feeds one light reading to the frame synchroniser.
    ///
    /// The reading is thresholded and slid into the window. When the window
    /// then holds the start pattern, the window is emptied and a listening
    /// parser is handed out, which holds nothing yet.
    pub fn process_light_val(&mut self, raw_val: u16) -> (locked: Option<
        Parser<ListeningForMessage>,
    >)
        ensures
            locked is Some <==> locks(old(self).window(), light_bit(raw_val)),
            locked matches Some(listener) ==> listener.is_fresh(),
            final(self).window() == if locks(old(self).window(), light_bit(raw_val)) {
                Seq::<Bit>::empty()
            } else {
                slide(old(self).window(), light_bit(raw_val))
            },
            final(self).run() == old(self).run(),
            final(self).symbols() == old(self).symbols(),
    {
        let bit = Bit::from_light_val(raw_val);
        if self.start_queue.len() == START_SEQUENCE.len() {
            self.start_queue.pop_front();
            self.start_queue.push_back(bit);
            if is_start(&self.start_queue) {
                self.start_queue.clear();
                return Some(
                    Parser {
                        state: PhantomData,
                        start_queue: VecDeque::new(),
                        bit_seq: bit_run_new(),
                        morse_seq: symbol_run_new(),
                    },
                );
            }
        } else {
            self.start_queue.push_back(bit);
        }
        None
    }
}

impl Default for Parser<WaitingForStart> {
    fn default() -> (parser: Self)
        ensures
            parser.is_fresh(),
    {
        Parser::new()
    }
}

impl Parser<ListeningForMessage> {
    /// Feeds one light reading to the listening parser: one step of
    /// `listen` on the thresholded reading.
    ///
    /// Nothing is handed out while the message goes on. A complete message
    /// hands out a parser that holds its symbols; a broken frame hands out
    /// the error.
    pub fn process_light_val(&mut self, raw_val: u16) -> (heard: Option<
        Result<Parser<Processing>, MorseError>,
    >)
        ensures
            final(self).run() == listen(old(self).run(), old(self).symbols(), light_bit(raw_val)).0,
            final(self).symbols() == listen(
                old(self).run(),
                old(self).symbols(),
                light_bit(raw_val),
            ).1,
            final(self).window() == old(self).window(),
            match listen(old(self).run(), old(self).symbols(), light_bit(raw_val)).2 {
                Heard::More => heard is None,
                Heard::Complete => heard matches Some(Ok(parser)) && parser.holds(
                    final(self).symbols(),
                ),
                Heard::Failed(e) => heard matches Some(Err(failure)) && failure == e,
            },
    {
        let bit = Bit::from_light_val(raw_val);
        if bit_run_push(&mut self.bit_seq, bit).is_err() {
            return Some(Err(MorseError::FullBuffer));
        }
        if bit == Bit::Lo {
            match MorseBit::try_from(bit_run_clone(&self.bit_seq)) {
                Ok(m_bit) => {
                    bit_run_clear(&mut self.bit_seq);
                    if symbol_run_push(&mut self.morse_seq, m_bit).is_err() {
                        return Some(Err(MorseError::FullBuffer));
                    }
                    if m_bit == MorseBit::LineBreak {
                        return Some(
                            Ok(
                                Parser {
                                    state: PhantomData,
                                    start_queue: VecDeque::new(),
                                    bit_seq: bit_run_clone(&self.bit_seq),
                                    morse_seq: symbol_run_clone(&self.morse_seq),
                                },
                            ),
                        );
                    }
                },
                Err(e) => {
                    return Some(Err(e));
                },
            }
        }
        None
    }
}

/// Reading on after one more symbol: the symbol either closes the group or
/// joins it.
proof fn text_after_step(group: Seq<MorseBit>, symbols: Seq<MorseBit>, from: int)
    requires
        0 <= from < symbols.len(),
    ensures
        text_after(group, symbols.subrange(from, symbols.len() as int)) == if is_break(
            symbols[from],
        ) {
            match group_text(group) {
                Ok(text) => text_then(
                    text,
                    text_after(Seq::empty(), symbols.subrange(from + 1, symbols.len() as int)),
                ),
                Err(e) => Err(e),
            }
        } else {
            text_after(group.push(symbols[from]), symbols.subrange(from + 1, symbols.len() as int))
        },
{
    let rest = symbols.subrange(from, symbols.len() as int);
    assert(rest.drop_first() =~= symbols.subrange(from + 1, symbols.len() as int));
    assert(rest[0] == symbols[from]);
}

/// Nothing, followed by `rest`, is `rest`.
pub(crate) proof fn text_then_nothing(rest: Result<Seq<char>, MorseError>)
    ensures
        text_then(Seq::empty(), rest) == rest,
{
    if let Ok(more) = rest {
        assert(Seq::<char>::empty() + more =~= more);
    }
}

/// A text, then one character and `rest`, is the text with the character,
/// then `rest`.
pub(crate) proof fn text_then_char(text: Seq<char>, c: char, rest: Result<Seq<char>, MorseError>)
    ensures
        text_then(text, text_then(seq![c], rest)) == text_then(text.push(c), rest),
{
    if let Ok(more) = rest {
        assert(text + (seq![c] + more) =~= text.push(c) + more);
    }
}

impl Parser<Processing> {
    /// The text of the message: `message_text` of the symbols held.
    ///
    /// The symbols are cut at every character break and line break, and each
    /// piece that is not empty is looked up in the decoding table. The first
    /// piece that is not in the table fails the whole message.
    pub fn message(&mut self) -> (text: Result<String, MorseError>)
        ensures
            match message_text(old(self).symbols()) {
                Ok(chars) => text matches Ok(msg) && msg@ == chars,
                Err(e) => text matches Err(failure) && failure == e,
            },
            final(self).symbols() == old(self).symbols(),
            final(self).run() == old(self).run(),
            final(self).window() == old(self).window(),
    {
        let mut msg = String::new();
        let symbols = symbol_run_slice(&self.morse_seq);
        let len = symbols.len();
        let mut start: usize = 0;
        let mut i: usize = 0;
        proof {
            assert(symbols@.subrange(0, 0) =~= Seq::<MorseBit>::empty());
            assert(symbols@.subrange(0, len as int) =~= symbols@);
            text_then_nothing(message_text(symbols@));
        }
        while i < len
            invariant
                start <= i <= len,
                len == symbols@.len(),
                symbols@ == old(self).symbols(),
                message_text(symbols@) == text_then(
                    msg@,
                    text_after(
                        symbols@.subrange(start as int, i as int),
                        symbols@.subrange(i as int, len as int),
                    ),
                ),
            ensures
                i == len,
            decreases len - i,
        {
            let ghost group_before = symbols@.subrange(start as int, i as int);
            let ghost rest = text_after(Seq::empty(), symbols@.subrange(i + 1, len as int));
            proof {
                text_after_step(group_before, symbols@, i as int);
                assert(group_before.push(symbols@[i as int]) =~= symbols@.subrange(
                    start as int,
                    i + 1,
                ));
                assert(symbols@.subrange(i + 1, i + 1) =~= Seq::<MorseBit>::empty());
            }
            let symbol = symbols[i];
            if symbol == MorseBit::CharBreak || symbol == MorseBit::LineBreak {
                if start < i {
                    let group = slice_subrange(symbols, start, i);
                    match char::from_morse_slice(group) {
                        Ok(c) => {
                            proof {
                                text_then_char(msg@, c, rest);
                            }
                            string_push(&mut msg, c);
                        },
                        Err(e) => {
                            return Err(e);
                        },
                    }
                } else {
                    proof {
                        text_then_nothing(rest);
                    }
                }
                start = i + 1;
            }
            i = i + 1;
        }
        assert(symbols@.subrange(len as int, len as int) =~= Seq::<MorseBit>::empty());
        if start < len {
            let group = slice_subrange(symbols, start, len);
            match char::from_morse_slice(group) {
                Ok(c) => {
                    proof {
                        assert(msg@ + seq![c] =~= msg@.push(c));
                    }
                    string_push(&mut msg, c);
                },
                Err(e) => {
                    return Err(e);
                },
            }
        } else {
            assert(msg@ + Seq::<char>::empty() =~= msg@);
        }
        Ok(msg)
    }
}

/// Where a stream of bits first locks a synchroniser whose window holds
/// `window`: the place in the stream of the bit that locks, if one does.
pub open spec fn first_lock(window: Seq<Bit>, stream: Seq<Bit>) -> Option<nat>
    decreases stream.len(),
{
    if stream.len() == 0 {
        None
    } else if locks(window, stream[0]) {
        Some(0)
    } else {
        match first_lock(slide(window, stream[0]), stream.drop_first()) {
            Some(at) => Some(at + 1),
            None => None,
        }
    }
}

/// Whether the start pattern stands in `stream` from place `at` on.
pub open spec fn starts_at(stream: Seq<Bit>, at: int) -> bool {
    &&& 0 <= at
    &&& at + START_SEQUENCE@.len() <= stream.len()
    &&& stream.subrange(at, at + START_SEQUENCE@.len()) == START_SEQUENCE@
}

/// The last bits of the first `taken` bits of a stream, ten at most: the
/// window of a synchroniser that has taken them without a lock.
spec fn window_at(stream: Seq<Bit>, taken: int) -> Seq<Bit> {
    if taken <= START_SEQUENCE@.len() {
        stream.subrange(0, taken)
    } else {
        stream.subrange(taken - START_SEQUENCE@.len(), taken)
    }
}

/// The synchroniser `taken` bits into a stream, with the start pattern
/// ahead at `at` and not before: it locks on the last bit of the pattern.
proof fn lock_ahead(stream: Seq<Bit>, at: int, taken: int)
    requires
        1 <= at,
        starts_at(stream, at),
        forall|before: int| 1 <= before < at ==> !starts_at(stream, before),
        0 <= taken <= at + 9,
    ensures
        first_lock(window_at(stream, taken), stream.subrange(taken, stream.len() as int)) == Some(
            (at + 9 - taken) as nat,
        ),
    decreases at + 9 - taken,
{
    let window = window_at(stream, taken);
    let rest = stream.subrange(taken, stream.len() as int);
    let bit = stream[taken];
    assert(rest[0] == bit);
    assert(rest.drop_first() =~= stream.subrange(taken + 1, stream.len() as int));
    assert(slide(window, bit) =~= window_at(stream, taken + 1));
    if taken >= 10 {
        assert(slide(window, bit) =~= stream.subrange(taken - 9, taken + 1));
        assert(locks(window, bit) == starts_at(stream, taken - 9));
    }
    if taken < at + 9 {
        assert(!locks(window, bit));
        lock_ahead(stream, at, taken + 1);
    }
}

/// Frame synchronisation: in a stream that holds the start pattern at place
/// `at`, after at least one other bit, and at no place between the second
/// bit and `at`, a synchroniser that has seen nothing locks on the last bit
/// of that pattern, and on no bit before it. The bits before the pattern
/// and after it do not matter.
///
/// A pattern that begins with the very first bit of the stream is not
/// found: the window is compared only after it has shifted.
pub proof fn law_lock_at_first_start(stream: Seq<Bit>, at: int)
    requires
        1 <= at,
        starts_at(stream, at),
        forall|before: int| 1 <= before < at ==> !starts_at(stream, before),
    ensures
        first_lock(Seq::empty(), stream) == Some((at + 9) as nat),
{
    lock_ahead(stream, at, 0);
    assert(window_at(stream, 0) =~= Seq::<Bit>::empty());
    assert(stream.subrange(0, stream.len() as int) =~= stream);
}

/// A full run fails: with eight bits held and no symbol found in them, the
/// next bit, whichever it is, is refused with `FullBuffer`, and neither the
/// bits nor the symbols change.
pub proof fn law_full_run_fails(run: Seq<Bit>, symbols: Seq<MorseBit>, bit: Bit)
    requires
        run.len() >= 8,
    ensures
        listen(run, symbols, bit) == (run, symbols, Heard::Failed(MorseError::FullBuffer)),
{
}

} // verus!
