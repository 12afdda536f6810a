//! The bounded buffers of the link.
//!
//! Every buffer is a `heapless::Vec` of fixed capacity. The verifier does not
//! look inside that type: what a buffer holds is named by a specification
//! function, and each operation on it is a thin function whose contract is
//! taken on trust from the source of `heapless`.

use vstd::prelude::*;
use crate::symbols::{Bit, MorseBit};

verus! {

/// `heapless::Vec`, made known to the verifier as a type that it does not
/// look into.
#[verifier::external_type_specification]
#[verifier::external_body]
#[verifier::reject_recursive_types(T)]
pub struct ExHeaplessVec<T, const N: usize>(heapless::Vec<T, N>);

/// The bits of one symbol in flight: at most eight.
pub type BitSequece = heapless::Vec<Bit, 8>;

/// The symbols of one message: at most 350.
pub type MorseBitSequence = heapless::Vec<MorseBit, 350>;

/// The bits of one encoded message, without the start pattern: at most 100.
pub type DataPacket = heapless::Vec<Bit, 100>;

/// The bits that a `BitSequece` holds, oldest first.
pub uninterp spec fn bit_run(run: heapless::Vec<Bit, 8>) -> Seq<Bit>;

/// The symbols that a `MorseBitSequence` holds, oldest first.
pub uninterp spec fn symbol_run(symbols: heapless::Vec<MorseBit, 350>) -> Seq<MorseBit>;

/// The bits that a `DataPacket` holds, oldest first.
pub uninterp spec fn packet_bits(packet: heapless::Vec<Bit, 100>) -> Seq<Bit>;

/// Trusted: `heapless::Vec::new` returns a vector that holds nothing.
#[verifier::external_body]
pub(crate) fn bit_run_new() -> (run: BitSequece)
    ensures
        bit_run(run) == Seq::<Bit>::empty(),
{
    heapless::Vec::new()
}

/// Trusted: `heapless::Vec::push` appends the item while the vector holds
/// fewer items than its capacity; on a full vector it changes nothing and
/// hands the item back.
#[verifier::external_body]
pub(crate) fn bit_run_push(run: &mut BitSequece, bit: Bit) -> (pushed: Result<(), Bit>)
    ensures
        pushed is Ok <==> bit_run(*old(run)).len() < 8,
        pushed is Ok ==> bit_run(*final(run)) == bit_run(*old(run)).push(bit),
        pushed matches Err(back) ==> back == bit && bit_run(*final(run)) == bit_run(*old(run)),
{
    run.push(bit)
}

/// Trusted: `heapless::Vec::extend_from_slice` appends a copy of every item
/// of the slice, in order, if all of them fit; if they do not, it changes
/// nothing and fails.
#[verifier::external_body]
pub(crate) fn bit_run_extend(run: &mut BitSequece, other: &[Bit]) -> (extended: Result<(), ()>)
    ensures
        extended is Ok <==> bit_run(*old(run)).len() + other@.len() <= 8,
        extended is Ok ==> bit_run(*final(run)) == bit_run(*old(run)) + other@,
        extended is Err ==> bit_run(*final(run)) == bit_run(*old(run)),
{
    run.extend_from_slice(other)
}

/// Trusted: `heapless::Vec::clear` removes every item.
#[verifier::external_body]
pub(crate) fn bit_run_clear(run: &mut BitSequece)
    ensures
        bit_run(*final(run)) == Seq::<Bit>::empty(),
{
    run.clear()
}

/// Trusted: `heapless::Vec::as_slice` borrows the items held, in order.
#[verifier::external_body]
pub(crate) fn bit_run_slice(run: &BitSequece) -> (bits: &[Bit])
    ensures
        bits@ == bit_run(*run),
{
    run.as_slice()
}

/// Trusted: `Clone` for `heapless::Vec` yields a vector with a copy of each
/// item, in the same order.
#[verifier::external_body]
pub(crate) fn bit_run_clone(run: &BitSequece) -> (copy: BitSequece)
    ensures
        bit_run(copy) == bit_run(*run),
{
    run.clone()
}

/// Trusted: `heapless::Vec::new` returns a vector that holds nothing.
#[verifier::external_body]
pub(crate) fn symbol_run_new() -> (symbols: MorseBitSequence)
    ensures
        symbol_run(symbols) == Seq::<MorseBit>::empty(),
{
    heapless::Vec::new()
}

/// Trusted: `heapless::Vec::push` appends the item while the vector holds
/// fewer items than its capacity; on a full vector it changes nothing and
/// hands the item back.
#[verifier::external_body]
pub(crate) fn symbol_run_push(symbols: &mut MorseBitSequence, symbol: MorseBit) -> (pushed: Result<
    (),
    MorseBit,
>)
    ensures
        pushed is Ok <==> symbol_run(*old(symbols)).len() < 350,
        pushed is Ok ==> symbol_run(*final(symbols)) == symbol_run(*old(symbols)).push(symbol),
        pushed matches Err(back) ==> back == symbol && symbol_run(*final(symbols)) == symbol_run(
            *old(symbols),
        ),
{
    symbols.push(symbol)
}

/// Trusted: `heapless::Vec::extend_from_slice` appends a copy of every item
/// of the slice, in order, if all of them fit; if they do not, it changes
/// nothing and fails.
#[verifier::external_body]
pub(crate) fn symbol_run_extend(symbols: &mut MorseBitSequence, other: &[MorseBit]) -> (extended:
    Result<(), ()>)
    ensures
        extended is Ok <==> symbol_run(*old(symbols)).len() + other@.len() <= 350,
        extended is Ok ==> symbol_run(*final(symbols)) == symbol_run(*old(symbols)) + other@,
        extended is Err ==> symbol_run(*final(symbols)) == symbol_run(*old(symbols)),
{
    symbols.extend_from_slice(other)
}

/// Trusted: `heapless::Vec::as_slice` borrows the items held, in order.
#[verifier::external_body]
pub(crate) fn symbol_run_slice(symbols: &MorseBitSequence) -> (held: &[MorseBit])
    ensures
        held@ == symbol_run(*symbols),
{
    symbols.as_slice()
}

/// Trusted: `Clone` for `heapless::Vec` yields a vector with a copy of each
/// item, in the same order.
#[verifier::external_body]
pub(crate) fn symbol_run_clone(symbols: &MorseBitSequence) -> (copy: MorseBitSequence)
    ensures
        symbol_run(copy) == symbol_run(*symbols),
{
    symbols.clone()
}

/// Trusted: `heapless::Vec::new` returns a vector that holds nothing.
#[verifier::external_body]
pub(crate) fn packet_new() -> (packet: DataPacket)
    ensures
        packet_bits(packet) == Seq::<Bit>::empty(),
{
    heapless::Vec::new()
}

/// Trusted: `heapless::Vec::push` appends the item while the vector holds
/// fewer items than its capacity; on a full vector it changes nothing and
/// hands the item back.
#[verifier::external_body]
pub(crate) fn packet_push(packet: &mut DataPacket, bit: Bit) -> (pushed: Result<(), Bit>)
    ensures
        pushed is Ok <==> packet_bits(*old(packet)).len() < 100,
        pushed is Ok ==> packet_bits(*final(packet)) == packet_bits(*old(packet)).push(bit),
        pushed matches Err(back) ==> back == bit && packet_bits(*final(packet)) == packet_bits(
            *old(packet),
        ),
{
    packet.push(bit)
}

/// Trusted: `String::push` appends the character to the end of the string.
#[verifier::external_body]
pub(crate) fn string_push(text: &mut String, c: char)
    ensures
        final(text)@ == old(text)@.push(c),
{
    text.push(c)
}

} // verus!
