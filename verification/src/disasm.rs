//! The instruction decoder of `iced_x86`, as far as the library relies on it.
//!
//! Nothing in this file is proved: each item states what the decoder's source
//! shows, and the rest of the library is verified against these statements.

use iced_x86::{Decoder, DecoderOptions, IcedError, Instruction};
use vstd::prelude::*;

verus! {

/// `iced_x86::Instruction`: a decoded instruction, opaque here.
#[verifier::external_type_specification]
#[verifier::external_body]
pub struct ExInstruction(Instruction);

/// `iced_x86::IcedError`: the reason why a decoder could not be made.
#[verifier::external_type_specification]
#[verifier::external_body]
pub struct ExIcedError(IcedError);

/// `iced_x86::Decoder`: a decoder over a slice of bytes.
#[verifier::external_type_specification]
#[verifier::external_body]
pub struct ExDecoder<'a>(Decoder<'a>) where Decoder<'a>: Send + Sync;

/// The value of `DecoderOptions::NONE`.
pub const OPTIONS_NONE: u32 = 0x0;

/// The value of `DecoderOptions::AMD`.
pub const OPTIONS_AMD: u32 = 0x2;

/// The longest encoding of an instruction, in bytes.
pub const MAX_INSTRUCTION_LENGTH: usize = 15;

/// What a decoder's next instruction depends on.
pub struct DecoderState {
    /// The address width that the decoder was made for.
    pub bitness: u32,
    /// The options that the decoder was made with.
    pub options: u32,
    /// The bytes that the decoder was made over.
    pub data: Seq<u8>,
    /// The number of bytes of `data` that were decoded.
    pub position: nat,
    /// The address that the next instruction is taken to stand at.
    pub ip: u64,
}

/// The state of a decoder: its `bitness()`, its options, the slice it was
/// made over, its `position()` and its `ip()`.
pub uninterp spec fn decoder_state(decoder: Decoder) -> DecoderState;

/// The instruction that `Decoder::decode` returns from a decoder in the given
/// state.
pub uninterp spec fn decoded_instruction(state: DecoderState) -> Instruction;

/// `Instruction::len` of an instruction.
pub uninterp spec fn instruction_len(instruction: Instruction) -> nat;

/// The state of a decoder that was just made.
pub open spec fn initial_state(bitness: u32, options: u32, data: Seq<u8>) -> DecoderState {
    DecoderState { bitness, options, data, position: 0, ip: 0 }
}

/// True when `after` is `before` moved on by `len` bytes: the position and,
/// as long as it does not wrap, the address grow by `len`, and nothing else
/// changes.
pub open spec fn moved_on(before: DecoderState, after: DecoderState, len: nat) -> bool {
    &&& after.bitness == before.bitness
    &&& after.options == before.options
    &&& after.data == before.data
    &&& after.position == before.position + len
    &&& before.ip + len <= u64::MAX ==> after.ip == before.ip + len
}

/// `DecoderOptions::NONE`: no option.
#[verifier::external_body]
pub(crate) fn decoder_options_none() -> (options: u32)
    ensures
        options == OPTIONS_NONE,
{
    DecoderOptions::NONE
}

/// `DecoderOptions::AMD`: decode as an AMD processor does.
#[verifier::external_body]
pub(crate) fn decoder_options_amd() -> (options: u32)
    ensures
        options == OPTIONS_AMD,
{
    DecoderOptions::AMD
}

/// `Decoder::try_new`: a decoder over `data`, at position 0 and address 0. It
/// is refused where `bitness` is none of 16, 32 and 64; the source refuses
/// also a slice that ends within fifteen bytes of the end of the address
/// space, so success is not promised.
#[verifier::external_body]
pub(crate) fn decoder_try_new<'a>(bitness: u32, data: &'a [u8], options: u32) -> (made: Result<
    Decoder<'a>,
    IcedError,
>)
    ensures
        made matches Ok(decoder) ==> decoder_state(decoder) == initial_state(
            bitness,
            options,
            data@,
        ),
        bitness != 16 && bitness != 32 && bitness != 64 ==> made is Err,
{
    Decoder::try_new(bitness, data, options)
}

/// `Decoder::can_decode`: true when at least one byte is left.
#[verifier::external_body]
pub(crate) fn decoder_can_decode(decoder: &Decoder) -> (more: bool)
    ensures
        more == (decoder_state(*decoder).position < decoder_state(*decoder).data.len()),
{
    decoder.can_decode()
}

/// `Decoder::decode`, where at least one byte is left: the decoder moves on
/// by the length of the instruction it returns, which is at least one byte,
/// at most fifteen, and no more than what was left.
#[verifier::external_body]
pub(crate) fn decoder_decode(decoder: &mut Decoder) -> (instruction: Instruction)
    requires
        decoder_state(*old(decoder)).position < decoder_state(*old(decoder)).data.len(),
    ensures
        instruction == decoded_instruction(decoder_state(*old(decoder))),
        1 <= instruction_len(instruction) <= MAX_INSTRUCTION_LENGTH,
        moved_on(
            decoder_state(*old(decoder)),
            decoder_state(*final(decoder)),
            instruction_len(instruction),
        ),
        decoder_state(*final(decoder)).position <= decoder_state(*old(decoder)).data.len(),
{
    decoder.decode()
}

/// `Instruction::len`: the number of bytes that the instruction was decoded
/// from.
#[verifier::external_body]
pub(crate) fn instruction_length(instruction: &Instruction) -> (len: usize)
    ensures
        len == instruction_len(*instruction),
{
    instruction.len()
}

} // verus!
