//! The link as a whole: what the encoder forms, the decoder reads.

use vstd::prelude::*;
use crate::symbols::{Bit, MorseBit, MorseError, START_SEQUENCE};
use crate::timing::{symbol_bits, symbol_len, law_symbol_round_trip};
use crate::table::{char_code, fold_case, law_char_round_trip};
use crate::parser::{
    Heard, listen, locks, slide, first_lock, starts_at, law_lock_at_first_start, message_text,
    text_after, text_then, group_text, is_break, text_then_nothing, text_then_char,
};
use crate::encoder::{symbols_bits, text_bits, frame_bits};
use crate::decoder::{DecoderState, Phase, step, fresh, holding};

verus! {

/// The state of a decoder after the bits of a stream, one step each, if no
/// step reported anything; nothing, if one did.
pub open spec fn quiet_run(state: DecoderState, bits: Seq<Bit>) -> Option<DecoderState>
    decreases bits.len(),
{
    if bits.len() == 0 {
        Some(state)
    } else if step(state, bits[0]).1 is Some {
        None
    } else {
        quiet_run(step(state, bits[0]).0, bits.drop_first())
    }
}

/// A decoder that waits with these bits in its window and nothing else.
spec fn waiting(window: Seq<Bit>) -> DecoderState {
    DecoderState { phase: Phase::Waiting, window, run: Seq::empty(), symbols: Seq::empty() }
}

/// A decoder that listens with these bits of a symbol and these symbols,
/// and an empty window.
spec fn listening(run: Seq<Bit>, symbols: Seq<MorseBit>) -> DecoderState {
    DecoderState { phase: Phase::Listening, window: Seq::empty(), run, symbols }
}

/// A text in lower case.
pub open spec fn lower_case(text: Seq<char>) -> Seq<char> {
    Seq::new(text.len(), |i: int| fold_case(text[i]))
}

/// A stream taken in two parts is taken as a whole.
proof fn quiet_run_join(state: DecoderState, first: Seq<Bit>, then: Seq<Bit>)
    ensures
        quiet_run(state, first + then) == match quiet_run(state, first) {
            Some(between) => quiet_run(between, then),
            None => None,
        },
    decreases first.len(),
{
    if first.len() == 0 {
        assert(first + then =~= then);
    } else {
        assert((first + then)[0] == first[0]);
        assert((first + then).drop_first() =~= first.drop_first() + then);
        if step(state, first[0]).1 is None {
            quiet_run_join(step(state, first[0]).0, first.drop_first(), then);
        }
    }
}

/// A waiting decoder reports nothing up to the bit that locks it, and then
/// listens with nothing held.
proof fn quiet_until_lock(window: Seq<Bit>, stream: Seq<Bit>)
    requires
        first_lock(window, stream) is Some,
    ensures
        first_lock(window, stream)->0 < stream.len(),
        quiet_run(
            waiting(window),
            stream.subrange(0, first_lock(window, stream)->0 as int + 1),
        ) == Some(holding(Phase::Listening, Seq::empty())),
    decreases stream.len(),
{
    let at = first_lock(window, stream)->0 as int;
    if locks(window, stream[0]) {
        let head = stream.subrange(0, 1);
        assert(head[0] == stream[0]);
        assert(head.drop_first() =~= Seq::<Bit>::empty());
        assert(quiet_run(
            holding(Phase::Listening, Seq::empty()),
            head.drop_first(),
        ) == Some(holding(Phase::Listening, Seq::empty())));
    } else {
        quiet_until_lock(slide(window, stream[0]), stream.drop_first());
        let head = stream.subrange(0, at + 1);
        assert(head[0] == stream[0]);
        assert(head.drop_first() =~= stream.drop_first().subrange(0, at));
    }
}

/// What a listening decoder becomes once a symbol has come in whole.
spec fn after_symbol(held: Seq<MorseBit>, symbol: MorseBit) -> DecoderState {
    if symbol == MorseBit::LineBreak {
        holding(Phase::Processing, held.push(symbol))
    } else {
        holding(Phase::Listening, held.push(symbol))
    }
}

/// A listening decoder that has taken the first bits of a symbol takes the
/// others without a report, and then holds the symbol.
proof fn quiet_through_pulse(held: Seq<MorseBit>, symbol: MorseBit, taken: int)
    requires
        held.len() < 350,
        0 <= taken < symbol_len(symbol),
    ensures
        quiet_run(
            listening(symbol_bits(symbol).subrange(0, taken), held),
            symbol_bits(symbol).subrange(taken, symbol_len(symbol) as int),
        ) == Some(after_symbol(held, symbol)),
    decreases symbol_len(symbol) - taken,
{
    let bits = symbol_bits(symbol);
    let len = symbol_len(symbol) as int;
    let run = bits.subrange(0, taken);
    let rest = bits.subrange(taken, len);
    let state = listening(run, held);
    assert(rest[0] == bits[taken]);
    assert(rest.drop_first() =~= bits.subrange(taken + 1, len));
    assert(run.push(bits[taken]) =~= bits.subrange(0, taken + 1));
    if taken < len - 1 {
        assert(bits[taken] == Bit::Hi);
        assert(listen(run, held, Bit::Hi) == (run.push(Bit::Hi), held, Heard::More));
        quiet_through_pulse(held, symbol, taken + 1);
    } else {
        assert(bits[taken] == Bit::Lo);
        assert(bits.subrange(0, len) =~= bits);
        law_symbol_round_trip(symbol);
        assert(rest.drop_first() =~= Seq::<Bit>::empty());
        assert(step(state, Bit::Lo).0 == after_symbol(held, symbol));
        assert(quiet_run(after_symbol(held, symbol), rest.drop_first()) == Some(
            after_symbol(held, symbol),
        ));
    }
}

/// A listening decoder takes the bits of symbols that are no line break
/// without a report, and then holds the symbols.
proof fn quiet_through_symbols(held: Seq<MorseBit>, code: Seq<MorseBit>)
    requires
        held.len() + code.len() <= 350,
        forall|i: int| 0 <= i < code.len() ==> code[i] != MorseBit::LineBreak,
    ensures
        quiet_run(
            holding(Phase::Listening, held),
            symbols_bits(code),
        ) == Some(holding(Phase::Listening, held + code)),
    decreases code.len(),
{
    let start = holding(Phase::Listening, held);
    if code.len() == 0 {
        assert(held + code =~= held);
    } else {
        let before = code.drop_last();
        let symbol = code.last();
        quiet_through_symbols(held, before);
        quiet_through_pulse(held + before, symbol, 0);
        assert(symbol_bits(symbol).subrange(0, 0) =~= Seq::<Bit>::empty());
        assert(symbol_bits(symbol).subrange(0, symbol_len(symbol) as int) =~= symbol_bits(symbol));
        quiet_run_join(start, symbols_bits(before), symbol_bits(symbol));
        assert((held + before).push(symbol) =~= held + code);
    }
}

/// The symbols of a text: for each character its code, then a character
/// break.
spec fn text_symbols(text: Seq<char>) -> Seq<MorseBit>
    decreases text.len(),
{
    if text.len() == 0 {
        Seq::empty()
    } else {
        text_symbols(text.drop_last()) + match char_code(text.last()) {
            Some(code) => code,
            None => Seq::empty(),
        } + seq![MorseBit::CharBreak]
    }
}

/// The code of a character other than the newline is not empty and holds
/// neither a character break nor a line break.
proof fn code_has_no_break(c: char)
    requires
        char_code(c) is Some,
        c != '\n',
    ensures
        char_code(c)->0.len() >= 1,
        forall|i: int| 0 <= i < char_code(c)->0.len() ==> !is_break(#[trigger] char_code(c)->0[i]),
{
}

/// The bits of two runs of symbols, one after the other, are the bits of
/// the two runs joined.
proof fn symbols_bits_join(first: Seq<MorseBit>, then: Seq<MorseBit>)
    ensures
        symbols_bits(first + then) == symbols_bits(first) + symbols_bits(then),
    decreases then.len(),
{
    if then.len() == 0 {
        assert(first + then =~= first);
        assert(symbols_bits(first) + symbols_bits(then) =~= symbols_bits(first));
    } else {
        assert((first + then).drop_last() =~= first + then.drop_last());
        assert((first + then).last() == then.last());
        symbols_bits_join(first, then.drop_last());
        assert(symbols_bits(first) + symbols_bits(then.drop_last()) + symbol_bits(then.last())
            =~= symbols_bits(first) + (symbols_bits(then.drop_last()) + symbol_bits(then.last())));
    }
}

/// The bits of a run of one symbol are the bits of the symbol.
proof fn symbols_bits_of_one(symbol: MorseBit)
    ensures
        symbols_bits(seq![symbol]) == symbol_bits(symbol),
{
    assert(seq![symbol].drop_last() =~= Seq::<MorseBit>::empty());
    assert(symbols_bits(seq![symbol].drop_last()) =~= Seq::<Bit>::empty());
    assert(seq![symbol].last() == symbol);
    assert(Seq::<Bit>::empty() + symbol_bits(symbol) =~= symbol_bits(symbol));
}

/// Every symbol takes at least one bit.
proof fn symbols_bits_len(symbols: Seq<MorseBit>)
    ensures
        symbols_bits(symbols).len() >= symbols.len(),
    decreases symbols.len(),
{
    if symbols.len() > 0 {
        symbols_bits_len(symbols.drop_last());
    }
}

/// The bits of a text that could be encoded are the bits of its symbols.
proof fn text_bits_are_symbols_bits(text: Seq<char>)
    requires
        text_bits(text) is Ok,
    ensures
        text_bits(text)->Ok_0 == symbols_bits(text_symbols(text)),
        text_bits(text)->Ok_0.len() <= 100,
        forall|i: int| 0 <= i < text.len() ==> char_code(#[trigger] text[i]) is Some,
    decreases text.len(),
{
    if text.len() > 0 {
        let before = text.drop_last();
        let code = char_code(text.last())->0;
        text_bits_are_symbols_bits(before);
        symbols_bits_join(text_symbols(before), code);
        symbols_bits_join(text_symbols(before) + code, seq![MorseBit::CharBreak]);
        symbols_bits_of_one(MorseBit::CharBreak);
        assert forall|i: int| 0 <= i < text.len() implies char_code(#[trigger] text[i]) is Some by {
            if i < text.len() - 1 {
                assert(before[i] == text[i]);
            }
        }
    }
}

/// The symbols of a text without a newline hold no line break.
proof fn text_symbols_have_no_line_break(text: Seq<char>)
    requires
        forall|i: int| 0 <= i < text.len() ==> char_code(#[trigger] text[i]) is Some,
        forall|i: int| 0 <= i < text.len() ==> #[trigger] text[i] != '\n',
    ensures
        forall|i: int|
            0 <= i < text_symbols(text).len() ==> #[trigger] text_symbols(text)[i]
                != MorseBit::LineBreak,
    decreases text.len(),
{
    if text.len() > 0 {
        let before = text.drop_last();
        assert forall|i: int| 0 <= i < before.len() implies char_code(#[trigger] before[i])
            is Some && before[i] != '\n' by {
            assert(before[i] == text[i]);
        }
        text_symbols_have_no_line_break(before);
        code_has_no_break(text.last());
    }
}

/// Symbols that are no breaks join the group that has begun.
proof fn text_after_group(group: Seq<MorseBit>, code: Seq<MorseBit>, rest: Seq<MorseBit>)
    requires
        forall|i: int| 0 <= i < code.len() ==> !is_break(#[trigger] code[i]),
    ensures
        text_after(group, code + rest) == text_after(group + code, rest),
    decreases code.len(),
{
    if code.len() == 0 {
        assert(code + rest =~= rest);
        assert(group + code =~= group);
    } else {
        assert((code + rest)[0] == code[0]);
        assert(!is_break(code[0]));
        assert((code + rest).drop_first() =~= code.drop_first() + rest);
        assert forall|i: int| 0 <= i < code.drop_first().len() implies !is_break(
            #[trigger] code.drop_first()[i],
        ) by {
            assert(code.drop_first()[i] == code[i + 1]);
        }
        text_after_group(group.push(code[0]), code.drop_first(), rest);
        assert(group.push(code[0]) + code.drop_first() =~= group + code);
    }
}

/// The symbols of a text are read as the text in lower case, and what
/// follows them is read from a new group on.
proof fn text_of_symbols(text: Seq<char>, rest: Seq<MorseBit>)
    requires
        forall|i: int| 0 <= i < text.len() ==> char_code(#[trigger] text[i]) is Some,
        forall|i: int| 0 <= i < text.len() ==> #[trigger] text[i] != '\n',
    ensures
        text_after(Seq::empty(), text_symbols(text) + rest) == text_then(
            lower_case(text),
            text_after(Seq::empty(), rest),
        ),
    decreases text.len(),
{
    if text.len() == 0 {
        assert(text_symbols(text) + rest =~= rest);
        assert(lower_case(text) =~= Seq::<char>::empty());
        text_then_nothing(text_after(Seq::empty(), rest));
    } else {
        let before = text.drop_last();
        let c = text.last();
        let code = char_code(c)->0;
        let closed = seq![MorseBit::CharBreak] + rest;
        assert forall|i: int| 0 <= i < before.len() implies char_code(#[trigger] before[i])
            is Some && before[i] != '\n' by {
            assert(before[i] == text[i]);
        }
        assert(text_symbols(text) + rest =~= text_symbols(before) + (code + closed));
        text_of_symbols(before, code + closed);
        code_has_no_break(c);
        text_after_group(Seq::empty(), code, closed);
        assert(Seq::<MorseBit>::empty() + code =~= code);
        assert(closed[0] == MorseBit::CharBreak);
        assert(closed.drop_first() =~= rest);
        law_char_round_trip(c);
        assert(group_text(code) == Ok::<Seq<char>, MorseError>(seq![fold_case(c)]));
        assert(text_after(code, closed) == text_then(
            seq![fold_case(c)],
            text_after(Seq::empty(), rest),
        ));
        text_then_char(lower_case(before), fold_case(c), text_after(Seq::empty(), rest));
        assert(lower_case(before).push(fold_case(c)) =~= lower_case(text));
    }
}

/// What is sent is what is received. Take a text without a newline whose
/// frame the encoder can form. Send some bits first, at least one, such
/// that the start pattern does not show before its time, then the start
/// pattern, then the frame. A decoder that has seen nothing reports nothing
/// while these bits come in, and on the next reading, whatever it is, it
/// reports the text in lower case and is as new.
pub proof fn law_frame_comes_back(lead: Seq<Bit>, text: Seq<char>, next: Bit)
    requires
        lead.len() >= 1,
        forall|before: int| 1 <= before < lead.len() ==> !starts_at(lead + START_SEQUENCE@, before),
        frame_bits(text) is Ok,
        forall|i: int| 0 <= i < text.len() ==> #[trigger] text[i] != '\n',
    ensures
        quiet_run(fresh(), lead + START_SEQUENCE@ + frame_bits(text)->Ok_0) is Some,
        step(quiet_run(fresh(), lead + START_SEQUENCE@ + frame_bits(text)->Ok_0)->0, next) == (
            fresh(),
            Some(Ok::<Seq<char>, MorseError>(lower_case(text))),
        ),
{
    let stream = lead + START_SEQUENCE@;
    let symbols = text_symbols(text);
    let sent = text_bits(text)->Ok_0;
    let closing = symbol_bits(MorseBit::LineBreak);
    let listening = holding(Phase::Listening, Seq::empty());
    let complete = holding(Phase::Processing, symbols.push(MorseBit::LineBreak));

    // the start pattern locks the decoder
    assert(stream.subrange(lead.len() as int, lead.len() as int + 10) =~= START_SEQUENCE@);
    law_lock_at_first_start(stream, lead.len() as int);
    quiet_until_lock(Seq::empty(), stream);
    assert(stream.subrange(0, stream.len() as int) =~= stream);
    assert(quiet_run(fresh(), stream) == Some(listening));

    // the bits of the text become its symbols
    text_bits_are_symbols_bits(text);
    symbols_bits_len(symbols);
    text_symbols_have_no_line_break(text);
    quiet_through_symbols(Seq::empty(), symbols);
    assert(Seq::<MorseBit>::empty() + symbols =~= symbols);

    // the line break completes the message
    quiet_through_pulse(symbols, MorseBit::LineBreak, 0);
    assert(closing.subrange(0, 0) =~= Seq::<Bit>::empty());
    assert(closing.subrange(0, 4) =~= closing);
    quiet_run_join(listening, sent, closing);
    quiet_run_join(fresh(), stream, sent + closing);
    assert(quiet_run(fresh(), stream + (sent + closing)) == Some(complete));

    // the symbols are read as the text
    text_of_symbols(text, seq![MorseBit::LineBreak]);
    assert(symbols.push(MorseBit::LineBreak) =~= symbols + seq![MorseBit::LineBreak]);
    let end = seq![MorseBit::LineBreak];
    assert(end.drop_first() =~= Seq::<MorseBit>::empty());
    assert(text_after(Seq::empty(), end.drop_first()) == Ok::<Seq<char>, MorseError>(
        Seq::empty(),
    ));
    assert(Seq::<char>::empty() + Seq::<char>::empty() =~= Seq::<char>::empty());
    assert(text_after(Seq::empty(), end) == Ok::<Seq<char>, MorseError>(Seq::empty()));
    assert(lower_case(text) + Seq::<char>::empty() =~= lower_case(text));
    assert(message_text(symbols.push(MorseBit::LineBreak)) == Ok::<Seq<char>, MorseError>(
        lower_case(text),
    ));
}

} // verus!
