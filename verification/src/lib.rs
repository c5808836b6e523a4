//! Decoder for a classic variable-length, byte-oriented instruction set.
//!
//! A stream of raw machine-code bytes is turned into structured, typed
//! instruction values.  The decoder reads one opcode byte, dispatches on it,
//! and consumes exactly as many further bytes as that instruction's addressing
//! form requires; instruction length is only known once decoding completes.
//! Every decode function carries a contract that pins down both the decoded
//! value and the number of bytes consumed.

use vstd::prelude::*;

pub mod cpu;
pub mod instructions;
pub mod opcodes;
pub mod registers;

verus! {

/// Why a decode call failed.
#[derive(Clone, Copy, Debug, PartialEq, Eq)]
pub enum DecodeError {
    /// The stream ended while the current instruction still expected trailing
    /// bytes.
    TruncatedStream,
    /// A register or segment-register field fell outside its valid range.
    InvalidFieldEncoding,
    /// A group opcode's sub-operation selector names no defined operation.
    UnsupportedGroupEncoding,
    /// The primary opcode byte has no decode behaviour defined at all.
    UnsupportedOpcode,
}

/// The signed meaning of `v`, read as a two's-complement quantity of the
/// declared width: 16 bits when `wide`, 8 bits otherwise.
pub open spec fn sign_value(v: int, wide: bool) -> int {
    if wide {
        if v >= 0x8000 {
            v - 0x10000
        } else {
            v
        }
    } else {
        if v >= 0x80 {
            v - 0x100
        } else {
            v
        }
    }
}

/// Convert an unsigned 8- or 16-bit quantity into the signed integer it
/// denotes in two's complement at the declared width.
pub fn parse_twos_complement_int(value: isize, is_16_bit: bool) -> (r: isize)
    requires
        0 <= value < (if is_16_bit { 0x10000int } else { 0x100int }),
    ensures
        r as int == sign_value(value as int, is_16_bit),
{
    if is_16_bit {
        if value >= 0x8000 {
            value - 0x10000
        } else {
            value
        }
    } else {
        if value >= 0x80 {
            value - 0x100
        } else {
            value
        }
    }
}

/// The exec-level outcome of a decode step agrees with its spec-level
/// outcome: same payload and same cursor position on success, same error on
/// failure.
pub open spec fn step_matches<T>(
    r: Result<(T, usize), DecodeError>,
    s: Result<(T, int), DecodeError>,
) -> bool {
    match (r, s) {
        (Ok((v, end)), Ok((sv, send))) => v == sv && end as int == send,
        (Err(e), Err(se)) => e == se,
        _ => false,
    }
}

/// One byte read at `pos`, with the position just past it.
pub open spec fn spec_read_byte(b: Seq<u8>, pos: int) -> Result<(u8, int), DecodeError> {
    if pos + 1 <= b.len() {
        Ok((b[pos], pos + 1))
    } else {
        Err(DecodeError::TruncatedStream)
    }
}

/// Two bytes read at `pos` and combined little-endian, with the position
/// just past them.
pub open spec fn spec_read_word(b: Seq<u8>, pos: int) -> Result<(u16, int), DecodeError> {
    if pos + 2 <= b.len() {
        Ok((((b[pos] + 256 * b[pos + 1]) as u16), pos + 2))
    } else {
        Err(DecodeError::TruncatedStream)
    }
}

/// An unsigned immediate of the declared width read at `pos`: one byte when
/// narrow, two bytes little-endian when wide.
pub open spec fn spec_read_imm(b: Seq<u8>, pos: int, wide: bool) -> Result<
    (u16, int),
    DecodeError,
> {
    if wide {
        spec_read_word(b, pos)
    } else {
        match spec_read_byte(b, pos) {
            Ok((v, end)) => Ok((v as u16, end)),
            Err(e) => Err(e),
        }
    }
}

/// Read one byte from the stream, or report the truncation.
pub(crate) fn read_byte(bytes: &[u8], pos: usize) -> (r: Result<(u8, usize), DecodeError>)
    ensures
        step_matches(r, spec_read_byte(bytes@, pos as int)),
{
    if pos < bytes.len() {
        Ok((bytes[pos], pos + 1))
    } else {
        Err(DecodeError::TruncatedStream)
    }
}

/// Read two bytes from the stream and combine them little-endian, or report
/// the truncation.
pub(crate) fn read_word_le(bytes: &[u8], pos: usize) -> (r: Result<(u16, usize), DecodeError>)
    ensures
        step_matches(r, spec_read_word(bytes@, pos as int)),
{
    if bytes.len() < 2 || pos > bytes.len() - 2 {
        Err(DecodeError::TruncatedStream)
    } else {
        let data: u16 = (bytes[pos] as u16) + 256 * (bytes[pos + 1] as u16);
        Ok((data, pos + 2))
    }
}

/// Read an unsigned immediate of the declared width, or report the
/// truncation.
pub(crate) fn read_imm(bytes: &[u8], pos: usize, wide: bool) -> (r: Result<
    (u16, usize),
    DecodeError,
>)
    ensures
        step_matches(r, spec_read_imm(bytes@, pos as int, wide)),
{
    if wide {
        read_word_le(bytes, pos)
    } else {
        match read_byte(bytes, pos) {
            Ok((v, end)) => Ok((v as u16, end)),
            Err(e) => Err(e),
        }
    }
}

/// Width/sign consistency, narrow case: an 8-bit quantity keeps its value
/// below 128 and is shifted down by 256 from 128 upward.
pub proof fn lemma_narrow_sign_consistency(v: int)
    requires
        0 <= v <= 255,
    ensures
        sign_value(v, false) == (if v < 128 { v } else { v - 256 }),
{
}

/// Width/sign consistency, wide case: a 16-bit quantity keeps its value below
/// 32768 and is shifted down by 65536 from 32768 upward.
pub proof fn lemma_wide_sign_consistency(v: int)
    requires
        0 <= v <= 65535,
    ensures
        sign_value(v, true) == (if v < 32768 { v } else { v - 65536 }),
{
}

} // verus!
