//! Driving the external instruction decoder over a byte buffer.

use vstd::prelude::*;

use crate::config::valid_bitness;

verus! {

#[verifier::external_type_specification]
#[verifier::external_body]
pub struct ExDecoder<'a>(iced_x86::Decoder<'a>) where iced_x86::Decoder<'a>: Send + Sync;

#[verifier::external_type_specification]
#[verifier::external_body]
pub struct ExInstruction(iced_x86::Instruction);

/// How far into its data a decoder stands, as iced-x86's `Decoder::position`
/// reports it.
pub uninterp spec fn decoder_pos(d: iced_x86::Decoder) -> nat;

/// Where that data ends: its byte length, as iced-x86's
/// `Decoder::max_position` reports it.
pub uninterp spec fn decoder_end(d: iced_x86::Decoder) -> nat;

/// Relies on iced-x86's `Decoder::try_with_ip`: builds a decoder over `bytes`
/// standing at position zero, with `rip` assumed for the first byte. Its only
/// failures are an invalid bitness, which the precondition rules out, and a
/// byte slice ending within fifteen bytes of the top of the address space.
#[verifier::external_body]
fn decoder_new<'a>(bitness: u32, bytes: &'a [u8], rip: u64) -> (d: Option<iced_x86::Decoder<'a>>)
    requires
        valid_bitness(bitness),
    ensures
        d matches Some(dec) ==> decoder_pos(dec) == 0 && decoder_end(dec) == bytes@.len(),
{
    iced_x86::Decoder::try_with_ip(bitness, bytes, rip, iced_x86::DecoderOptions::NONE).ok()
}

/// Relies on iced-x86's `Decoder::can_decode`: true exactly when the decoder
/// stands before the end of its data.
#[verifier::external_body]
fn decoder_can_decode(d: &iced_x86::Decoder) -> (r: bool)
    ensures
        r == (decoder_pos(*d) < decoder_end(*d)),
{
    d.can_decode()
}

/// Relies on iced-x86's `Decoder::decode`: reads the next instruction, maybe
/// a degenerate one, and always moves forward by at least one byte, never
/// past the end of its data.
#[verifier::external_body]
fn decoder_decode(d: &mut iced_x86::Decoder) -> (ins: iced_x86::Instruction)
    requires
        decoder_pos(*old(d)) < decoder_end(*old(d)),
    ensures
        decoder_end(*final(d)) == decoder_end(*old(d)),
        decoder_pos(*old(d)) < decoder_pos(*final(d)),
        decoder_pos(*final(d)) <= decoder_end(*final(d)),
{
    d.decode()
}

/// Decodes the whole buffer, one instruction after the next, with `rip`
/// assumed for its first byte. Every buffer decodes in full — degenerate
/// byte runs come through as the instructions the decoder reports for them —
/// so an empty buffer gives no instructions, and a nonempty one gives at
/// least one and at most one per byte. Gives nothing only when the decoder
/// itself cannot be built (see `decoder_new`).
pub fn decode_all(bitness: u32, bytes: &[u8], rip: u64) -> (r: Option<
    Vec<iced_x86::Instruction>,
>)
    requires
        valid_bitness(bitness),
    ensures
        r matches Some(v) ==> {
            &&& v@.len() <= bytes@.len()
            &&& bytes@.len() > 0 ==> v@.len() >= 1
            &&& bytes@.len() == 0 ==> v@.len() == 0
        },
{
    let mut d = match decoder_new(bitness, bytes, rip) {
        Some(d) => d,
        None => {
            return None;
        },
    };
    let mut out: Vec<iced_x86::Instruction> = Vec::new();
    let mut more = decoder_can_decode(&d);
    while more
        invariant
            decoder_end(d) == bytes@.len(),
            decoder_pos(d) <= decoder_end(d),
            more == (decoder_pos(d) < decoder_end(d)),
            out@.len() <= decoder_pos(d),
            decoder_pos(d) > 0 ==> out@.len() >= 1,
        decreases decoder_end(d) - decoder_pos(d),
    {
        let ins = decoder_decode(&mut d);
        out.push(ins);
        more = decoder_can_decode(&d);
    }
    Some(out)
}

} // verus!
