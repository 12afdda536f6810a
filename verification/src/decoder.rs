//! The decoder state machine: the three states of the receive side behind
//! one value that takes one light reading at a time.

use vstd::prelude::*;
use crate::symbols::{Bit, MorseBit, MorseError, light_bit};
use crate::parser::{
    Parser, WaitingForStart, ListeningForMessage, Processing, Heard, listen, locks, slide,
    message_text,
};

verus! {

/// The receive side in one of its three states.
pub enum Decoder {
    /// No frame yet: readings go through the frame synchroniser.
    Waiting(Parser<WaitingForStart>),
    /// Locked to a frame: readings become the symbols of its message.
    Listening(Parser<ListeningForMessage>),
    /// A whole message is held and waits to be turned into text.
    Processing(Parser<Processing>),
}

/// Which of its three states a decoder is in.
pub enum Phase {
    Waiting,
    Listening,
    Processing,
}

/// All that a decoder holds, as plain values: its state and its three
/// buffers, whichever state it is in.
pub struct DecoderState {
    pub phase: Phase,
    /// The window of the frame synchroniser.
    pub window: Seq<Bit>,
    /// The bits of the symbol in flight.
    pub run: Seq<Bit>,
    /// The symbols of the message so far.
    pub symbols: Seq<MorseBit>,
}

/// The state of a decoder that has seen nothing: it waits, and its window,
/// its bits and its symbols are all empty.
pub open spec fn fresh() -> DecoderState {
    DecoderState {
        phase: Phase::Waiting,
        window: Seq::empty(),
        run: Seq::empty(),
        symbols: Seq::empty(),
    }
}

/// The state of a decoder in the given phase that holds these symbols and
/// nothing else.
pub open spec fn holding(phase: Phase, symbols: Seq<MorseBit>) -> DecoderState {
    DecoderState { phase, window: Seq::empty(), run: Seq::empty(), symbols }
}

/// One step of the decoder: the state after `bit`, and what is reported.
///
/// While waiting, the bit goes through the frame synchroniser, and a lock
/// starts the listening with nothing held. While listening, the bit is one
/// step of `listen`; a complete message is kept, alone, for the next step,
/// and a broken frame is reported and forgotten. With a whole message held,
/// the text of the message, or the reason why it has none, is reported and
/// the decoder starts afresh; the bit itself is not looked at.
///
/// Whatever is reported, the decoder is afterwards in the state of one that
/// has seen nothing, in every buffer.
pub open spec fn step(state: DecoderState, bit: Bit) -> (
    DecoderState,
    Option<Result<Seq<char>, MorseError>>,
) {
    match state.phase {
        Phase::Waiting => if locks(state.window, bit) {
            (holding(Phase::Listening, Seq::empty()), None)
        } else {
            (
                DecoderState {
                    phase: Phase::Waiting,
                    window: slide(state.window, bit),
                    run: state.run,
                    symbols: state.symbols,
                },
                None,
            )
        },
        Phase::Listening => match listen(state.run, state.symbols, bit).2 {
            Heard::More => (
                DecoderState {
                    phase: Phase::Listening,
                    window: state.window,
                    run: listen(state.run, state.symbols, bit).0,
                    symbols: listen(state.run, state.symbols, bit).1,
                },
                None,
            ),
            Heard::Complete => (
                holding(Phase::Processing, listen(state.run, state.symbols, bit).1),
                None,
            ),
            Heard::Failed(e) => (fresh(), Some(Err(e))),
        },
        Phase::Processing => (fresh(), Some(message_text(state.symbols))),
    }
}

/// Whether `report` is what `expected` says: the same text, or the same
/// error.
pub open spec fn reports(
    report: Option<Result<String, MorseError>>,
    expected: Option<Result<Seq<char>, MorseError>>,
) -> bool {
    match expected {
        None => report is None,
        Some(Ok(text)) => report matches Some(Ok(message)) && message@ == text,
        Some(Err(e)) => report matches Some(Err(failure)) && failure == e,
    }
}

impl View for Decoder {
    type V = DecoderState;

    open spec fn view(&self) -> DecoderState {
        match self {
            Decoder::Waiting(parser) => DecoderState {
                phase: Phase::Waiting,
                window: parser.window(),
                run: parser.run(),
                symbols: parser.symbols(),
            },
            Decoder::Listening(parser) => DecoderState {
                phase: Phase::Listening,
                window: parser.window(),
                run: parser.run(),
                symbols: parser.symbols(),
            },
            Decoder::Processing(parser) => DecoderState {
                phase: Phase::Processing,
                window: parser.window(),
                run: parser.run(),
                symbols: parser.symbols(),
            },
        }
    }
}

impl Decoder {
    /// A decoder that has seen nothing: it waits, and its parser holds no
    /// bit and no symbol.
    pub fn new() -> (decoder: Decoder)
        ensures
            decoder@ == fresh(),
            decoder matches Decoder::Waiting(parser) && parser.is_fresh(),
    {
        Decoder::Waiting(Parser::new())
    }

    /// Feeds one light reading to the decoder: one `step` on the
    /// thresholded reading.
    ///
    /// Whenever a message or an error is reported, the decoder is as new
    /// afterwards: it waits, and its parser holds no bit and no symbol.
    pub fn process_light_val(&mut self, raw_val: u16) -> (report: Option<
        Result<String, MorseError>,
    >)
        ensures
            final(self)@ == step(old(self)@, light_bit(raw_val)).0,
            reports(report, step(old(self)@, light_bit(raw_val)).1),
            report is Some ==> final(self)@ == fresh(),
            report is Some ==> (*final(self) matches Decoder::Waiting(parser)
                && parser.is_fresh()),
    {
        match self {
            Decoder::Waiting(parser) => {
                if let Some(listener) = parser.process_light_val(raw_val) {
                    *self = Decoder::Listening(listener);
                }
                None
            },
            Decoder::Listening(parser) => {
                match parser.process_light_val(raw_val) {
                    None => None,
                    Some(Ok(complete)) => {
                        *self = Decoder::Processing(complete);
                        None
                    },
                    Some(Err(e)) => {
                        *self = Decoder::new();
                        Some(Err(e))
                    },
                }
            },
            Decoder::Processing(parser) => {
                let text = parser.message();
                *self = Decoder::new();
                Some(text)
            },
        }
    }
}

/// Reset after an error: whatever the decoder holds and whatever bit
/// comes, a step that reports an error leaves the decoder in the state of
/// one that has seen nothing: waiting, with an empty window, no bit of a
/// symbol and no symbol. The same holds after a step that reports a message.
pub proof fn law_error_resets(state: DecoderState, bit: Bit)
    ensures
        step(state, bit).1 matches Some(Err(_)) ==> step(state, bit).0 == fresh(),
        step(state, bit).1 is Some ==> step(state, bit).0 == fresh(),
        fresh().phase == Phase::Waiting,
        fresh().window.len() == 0 && fresh().run.len() == 0 && fresh().symbols.len() == 0,
{
}

/// A decoder in the state of one that has seen nothing behaves as one: two
/// decoders in the same state take the same step on the same bit, so after
/// an error every later stream of bits is read as a new decoder reads it.
pub proof fn law_same_state_same_step(one: Decoder, other: Decoder, bit: Bit)
    requires
        one@ == other@,
    ensures
        step(one@, bit) == step(other@, bit),
{
}

} // verus!
