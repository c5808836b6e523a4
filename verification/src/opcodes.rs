//! The opcode dispatch: a total mapping from the first byte of an
//! instruction to its decode outcome.  Every byte value maps to some
//! outcome; a byte with no decode behaviour is reported as an unsupported
//! opcode rather than silently skipped.

use vstd::prelude::*;

use crate::DecodeError;
use crate::parse_twos_complement_int;
use crate::read_byte;
use crate::read_imm;
use crate::sign_value;
use crate::spec_read_byte;
use crate::spec_read_imm;
use crate::step_matches;
use crate::instructions::Mnemonic;
use crate::instructions::lemma_immediate_to_memory_bounds;
use crate::instructions::lemma_immediate_to_register_bounds;
use crate::instructions::lemma_logic_register_memory_bounds;
use crate::instructions::lemma_register_memory_register_bounds;
use crate::instructions::register_memory_register;
use crate::instructions::immediate_to_memory;
use crate::instructions::immediate_to_register;
use crate::instructions::logic_register_memory;
use crate::instructions::jump;
use crate::instructions::pop;
use crate::instructions::call;
use crate::instructions::spec_immediate_to_memory;
use crate::instructions::spec_immediate_to_register;
use crate::instructions::spec_logic_register_memory;
use crate::instructions::spec_register_memory_register;
use crate::registers::Register;
use crate::registers::RegisterMemory;
use crate::registers::SegmentRegister;
use crate::registers::register_from_field;
use crate::registers::spec_register;
use crate::registers::spec_segment_register;

verus! {

/// The binary arithmetic/logic instruction the family index of an opcode
/// selects (bits 3–5 of the opcode byte).
pub open spec fn spec_alu_mnemonic(
    family: u8,
    dest: RegisterMemory,
    source: RegisterMemory,
) -> Mnemonic {
    if family == 0 {
        Mnemonic::ADD { dest, source }
    } else if family == 1 {
        Mnemonic::OR { dest, source }
    } else if family == 2 {
        Mnemonic::ADC { dest, source }
    } else if family == 3 {
        Mnemonic::SBB { dest, source }
    } else if family == 4 {
        Mnemonic::AND { dest, source }
    } else if family == 5 {
        Mnemonic::SUB { dest, source }
    } else if family == 6 {
        Mnemonic::XOR { dest, source }
    } else {
        Mnemonic::CMP { dest, source }
    }
}

/// Build the binary arithmetic/logic instruction of a family index.
fn alu_instruction(family: u8, dest: RegisterMemory, source: RegisterMemory) -> (r: Mnemonic)
    requires
        family < 8,
    ensures
        r == spec_alu_mnemonic(family, dest, source),
{
    match family {
        0 => Mnemonic::ADD { dest, source },
        1 => Mnemonic::OR { dest, source },
        2 => Mnemonic::ADC { dest, source },
        3 => Mnemonic::SBB { dest, source },
        4 => Mnemonic::AND { dest, source },
        5 => Mnemonic::SUB { dest, source },
        6 => Mnemonic::XOR { dest, source },
        _ => Mnemonic::CMP { dest, source },
    }
}

/// An arithmetic/logic instruction built from a resolved operand pair.
pub open spec fn spec_alu_pair(
    family: u8,
    pair: Result<((RegisterMemory, RegisterMemory), int), DecodeError>,
) -> Result<(Mnemonic, int), DecodeError> {
    match pair {
        Err(e) => Err(e),
        Ok(((dest, source), end)) => Ok((spec_alu_mnemonic(family, dest, source), end)),
    }
}

/// An accumulator-immediate shortcut form: the immediate of the declared
/// width is read at `pos`, sign-interpreted, and paired with the narrow or
/// wide accumulator.
pub open spec fn spec_alu_acc_imm(family: u8, wide: bool, b: Seq<u8>, pos: int) -> Result<
    (Mnemonic, int),
    DecodeError,
> {
    match spec_read_imm(b, pos, wide) {
        Err(e) => Err(e),
        Ok((v, end)) => Ok(
            (
                spec_alu_mnemonic(
                    family,
                    RegisterMemory::Register(if wide { Register::AX } else { Register::AL }),
                    RegisterMemory::Immediate(sign_value(v as int, wide) as isize),
                ),
                end,
            ),
        ),
    }
}

/// The conditional-jump instruction an opcode in 0x70..=0x7F selects,
/// carrying the relative-displacement byte as its label.
pub open spec fn spec_jump_mnemonic(op: u8, label: u8) -> Mnemonic {
    if op == 0x70 {
        Mnemonic::JO { label }
    } else if op == 0x71 {
        Mnemonic::JNO { label }
    } else if op == 0x72 {
        Mnemonic::JB { label }
    } else if op == 0x73 {
        Mnemonic::JNB { label }
    } else if op == 0x74 {
        Mnemonic::JE { label }
    } else if op == 0x75 {
        Mnemonic::JNE { label }
    } else if op == 0x76 {
        Mnemonic::JBE { label }
    } else if op == 0x77 {
        Mnemonic::JNBE { label }
    } else if op == 0x78 {
        Mnemonic::JS { label }
    } else if op == 0x79 {
        Mnemonic::JNS { label }
    } else if op == 0x7A {
        Mnemonic::JP { label }
    } else if op == 0x7B {
        Mnemonic::JNP { label }
    } else if op == 0x7C {
        Mnemonic::JL { label }
    } else if op == 0x7D {
        Mnemonic::JNL { label }
    } else if op == 0x7E {
        Mnemonic::JLE { label }
    } else {
        Mnemonic::JNLE { label }
    }
}

/// The label a conditional-jump instruction carries, if it is one.
pub open spec fn conditional_jump_label(m: Mnemonic) -> Option<u8> {
    match m {
        Mnemonic::JO { label } => Some(label),
        Mnemonic::JNO { label } => Some(label),
        Mnemonic::JB { label } => Some(label),
        Mnemonic::JNB { label } => Some(label),
        Mnemonic::JE { label } => Some(label),
        Mnemonic::JNE { label } => Some(label),
        Mnemonic::JBE { label } => Some(label),
        Mnemonic::JNBE { label } => Some(label),
        Mnemonic::JS { label } => Some(label),
        Mnemonic::JNS { label } => Some(label),
        Mnemonic::JP { label } => Some(label),
        Mnemonic::JNP { label } => Some(label),
        Mnemonic::JL { label } => Some(label),
        Mnemonic::JNL { label } => Some(label),
        Mnemonic::JLE { label } => Some(label),
        Mnemonic::JNLE { label } => Some(label),
        Mnemonic::JCXZ { label } => Some(label),
        _ => None,
    }
}

/// Build the conditional-jump instruction of an opcode in 0x70..=0x7F.
fn jump_instruction(op: u8, label: u8) -> (r: Mnemonic)
    requires
        0x70 <= op < 0x80,
    ensures
        r == spec_jump_mnemonic(op, label),
{
    match op {
        0x70 => Mnemonic::JO { label },
        0x71 => Mnemonic::JNO { label },
        0x72 => Mnemonic::JB { label },
        0x73 => Mnemonic::JNB { label },
        0x74 => Mnemonic::JE { label },
        0x75 => Mnemonic::JNE { label },
        0x76 => Mnemonic::JBE { label },
        0x77 => Mnemonic::JNBE { label },
        0x78 => Mnemonic::JS { label },
        0x79 => Mnemonic::JNS { label },
        0x7A => Mnemonic::JP { label },
        0x7B => Mnemonic::JNP { label },
        0x7C => Mnemonic::JL { label },
        0x7D => Mnemonic::JNL { label },
        0x7E => Mnemonic::JLE { label },
        _ => Mnemonic::JNLE { label },
    }
}

/// Decode outcome for the arithmetic/logic quarter of the opcode space
/// (opcodes below 0x40).  The low three bits select the form, bits 3–5 the
/// family.
pub open spec fn spec_decode_arithmetic(op: u8, b: Seq<u8>, pos: int) -> Result<
    (Mnemonic, int),
    DecodeError,
> {
    let family = op / 8;
    let form = op % 8;
    if form == 0 {
        spec_alu_pair(family, spec_register_memory_register(false, false, b, pos))
    } else if form == 1 {
        spec_alu_pair(family, spec_register_memory_register(true, false, b, pos))
    } else if form == 2 {
        spec_alu_pair(family, spec_register_memory_register(false, true, b, pos))
    } else if form == 3 {
        spec_alu_pair(family, spec_register_memory_register(true, true, b, pos))
    } else if form == 4 {
        spec_alu_acc_imm(family, false, b, pos)
    } else if form == 5 {
        spec_alu_acc_imm(family, true, b, pos)
    } else if form == 6 {
        if family < 4 {
            Ok((Mnemonic::PUSHSEG(spec_segment_register(family)), pos))
        } else {
            Ok((Mnemonic::SEGMENTOVERRIDE(spec_segment_register((family - 4) as u8)), pos))
        }
    } else {
        if family == 0 {
            Ok((Mnemonic::POPSEG(SegmentRegister::ES), pos))
        } else if family == 1 {
            Err(DecodeError::UnsupportedOpcode)
        } else if family < 4 {
            Ok((Mnemonic::POPSEG(spec_segment_register(family)), pos))
        } else if family == 4 {
            Ok((Mnemonic::DAA, pos))
        } else if family == 5 {
            Ok((Mnemonic::DAS, pos))
        } else if family == 6 {
            Ok((Mnemonic::AAA, pos))
        } else {
            Ok((Mnemonic::AAS, pos))
        }
    }
}

/// Decode an arithmetic/logic register ↔ register/memory form.
fn decode_alu_rm(family: u8, wide: bool, reversed: bool, bytes: &[u8], pos: usize) -> (r: Result<
    (Mnemonic, usize),
    DecodeError,
>)
    requires
        family < 8,
    ensures
        step_matches(
            r,
            spec_alu_pair(family, spec_register_memory_register(wide, reversed, bytes@, pos as int)),
        ),
{
    match register_memory_register(wide, bytes, pos, reversed) {
        Err(e) => Err(e),
        Ok(((dest, source), end)) => Ok((alu_instruction(family, dest, source), end)),
    }
}

/// Decode an accumulator-immediate shortcut form.
fn decode_alu_acc_imm(family: u8, wide: bool, bytes: &[u8], pos: usize) -> (r: Result<
    (Mnemonic, usize),
    DecodeError,
>)
    requires
        family < 8,
    ensures
        step_matches(r, spec_alu_acc_imm(family, wide, bytes@, pos as int)),
{
    match read_imm(bytes, pos, wide) {
        Err(e) => Err(e),
        Ok((v, end)) => {
            let accumulator = if wide {
                Register::AX
            } else {
                Register::AL
            };
            let source = RegisterMemory::Immediate(parse_twos_complement_int(v as isize, wide));
            Ok(
                (
                    alu_instruction(family, RegisterMemory::Register(accumulator), source),
                    end,
                ),
            )
        },
    }
}

/// Decode an opcode below 0x40.
fn decode_arithmetic_block(op: u8, bytes: &[u8], pos: usize) -> (r: Result<
    (Mnemonic, usize),
    DecodeError,
>)
    requires
        op < 0x40,
    ensures
        step_matches(r, spec_decode_arithmetic(op, bytes@, pos as int)),
{
    let family = op / 8;
    let form = op % 8;
    if form == 0 {
        decode_alu_rm(family, false, false, bytes, pos)
    } else if form == 1 {
        decode_alu_rm(family, true, false, bytes, pos)
    } else if form == 2 {
        decode_alu_rm(family, false, true, bytes, pos)
    } else if form == 3 {
        decode_alu_rm(family, true, true, bytes, pos)
    } else if form == 4 {
        decode_alu_acc_imm(family, false, bytes, pos)
    } else if form == 5 {
        decode_alu_acc_imm(family, true, bytes, pos)
    } else if form == 6 {
        if family < 4 {
            let seg = match SegmentRegister::from_field(family) {
                Ok(s) => s,
                Err(e) => {
                    return Err(e);
                },
            };
            Ok((Mnemonic::PUSHSEG(seg), pos))
        } else {
            let seg = match SegmentRegister::from_field(family - 4) {
                Ok(s) => s,
                Err(e) => {
                    return Err(e);
                },
            };
            Ok((Mnemonic::SEGMENTOVERRIDE(seg), pos))
        }
    } else {
        if family == 0 {
            Ok((Mnemonic::POPSEG(SegmentRegister::ES), pos))
        } else if family == 1 {
            Err(DecodeError::UnsupportedOpcode)
        } else if family < 4 {
            let seg = match SegmentRegister::from_field(family) {
                Ok(s) => s,
                Err(e) => {
                    return Err(e);
                },
            };
            Ok((Mnemonic::POPSEG(seg), pos))
        } else if family == 4 {
            Ok((Mnemonic::DAA, pos))
        } else if family == 5 {
            Ok((Mnemonic::DAS, pos))
        } else if family == 6 {
            Ok((Mnemonic::AAA, pos))
        } else {
            Ok((Mnemonic::AAS, pos))
        }
    }
}

/// Decode outcome for opcodes 0x40..=0x7F: the single-byte register forms
/// (increment, decrement, push, pop, one register each across eight
/// consecutive opcodes), an undefined stretch, and the conditional jumps.
pub open spec fn spec_decode_register_block(op: u8, b: Seq<u8>, pos: int) -> Result<
    (Mnemonic, int),
    DecodeError,
> {
    if op < 0x48 {
        Ok((Mnemonic::INC(spec_register(op % 8, true)), pos))
    } else if op < 0x50 {
        Ok((Mnemonic::DEC(spec_register(op % 8, true)), pos))
    } else if op < 0x58 {
        Ok((Mnemonic::PUSH(spec_register(op % 8, true)), pos))
    } else if op < 0x60 {
        Ok((Mnemonic::POP(spec_register(op % 8, true)), pos))
    } else if op < 0x70 {
        Err(DecodeError::UnsupportedOpcode)
    } else {
        match spec_read_byte(b, pos) {
            Err(e) => Err(e),
            Ok((label, end)) => Ok((spec_jump_mnemonic(op, label), end)),
        }
    }
}

/// Decode an opcode in 0x40..=0x7F.
fn decode_register_block(op: u8, bytes: &[u8], pos: usize) -> (r: Result<
    (Mnemonic, usize),
    DecodeError,
>)
    requires
        0x40 <= op < 0x80,
    ensures
        step_matches(r, spec_decode_register_block(op, bytes@, pos as int)),
{
    if op < 0x48 {
        Ok((Mnemonic::INC(register_from_field(op % 8, true)), pos))
    } else if op < 0x50 {
        Ok((Mnemonic::DEC(register_from_field(op % 8, true)), pos))
    } else if op < 0x58 {
        Ok((Mnemonic::PUSH(register_from_field(op % 8, true)), pos))
    } else if op < 0x60 {
        Ok((Mnemonic::POP(register_from_field(op % 8, true)), pos))
    } else if op < 0x70 {
        Err(DecodeError::UnsupportedOpcode)
    } else {
        match jump(bytes, pos) {
            Err(e) => Err(e),
            Ok((label, end)) => Ok((jump_instruction(op, label), end)),
        }
    }
}

/// A move of a sign-interpreted immediate of the declared width into a fixed
/// operand, the immediate standing on the given side.
pub open spec fn spec_mov_imm(
    fixed: RegisterMemory,
    imm_is_dest: bool,
    wide: bool,
    b: Seq<u8>,
    pos: int,
) -> Result<(Mnemonic, int), DecodeError> {
    match spec_read_imm(b, pos, wide) {
        Err(e) => Err(e),
        Ok((v, end)) => {
            let imm = RegisterMemory::Immediate(sign_value(v as int, wide) as isize);
            if imm_is_dest {
                Ok((Mnemonic::MOV { dest: imm, source: fixed }, end))
            } else {
                Ok((Mnemonic::MOV { dest: fixed, source: imm }, end))
            }
        },
    }
}

/// Decode a move between a fixed operand and a sign-interpreted immediate.
fn decode_mov_imm(
    fixed: RegisterMemory,
    imm_is_dest: bool,
    wide: bool,
    bytes: &[u8],
    pos: usize,
) -> (r: Result<(Mnemonic, usize), DecodeError>)
    ensures
        step_matches(r, spec_mov_imm(fixed, imm_is_dest, wide, bytes@, pos as int)),
{
    match read_imm(bytes, pos, wide) {
        Err(e) => Err(e),
        Ok((v, end)) => {
            let imm = RegisterMemory::Immediate(parse_twos_complement_int(v as isize, wide));
            if imm_is_dest {
                Ok((Mnemonic::MOV { dest: imm, source: fixed }, end))
            } else {
                Ok((Mnemonic::MOV { dest: fixed, source: imm }, end))
            }
        },
    }
}

/// Decode outcome for opcodes 0x80..=0xBF: the immediate-arithmetic group,
/// the test/exchange/move register ↔ register/memory forms, the accumulator
/// moves, the string operations, and the move-immediate-to-register family.
pub open spec fn spec_decode_data_block(op: u8, b: Seq<u8>, pos: int) -> Result<
    (Mnemonic, int),
    DecodeError,
> {
    if op == 0x80 {
        spec_immediate_to_register(false, false, b, pos)
    } else if op == 0x81 {
        spec_immediate_to_register(true, true, b, pos)
    } else if op == 0x82 {
        spec_immediate_to_register(false, false, b, pos)
    } else if op == 0x83 {
        spec_immediate_to_register(true, false, b, pos)
    } else if op == 0x84 || op == 0x85 {
        match spec_register_memory_register(op == 0x85, true, b, pos) {
            Err(e) => Err(e),
            Ok(((dest, source), end)) => Ok((Mnemonic::TEST { dest, source }, end)),
        }
    } else if op == 0x86 || op == 0x87 {
        match spec_register_memory_register(op == 0x87, true, b, pos) {
            Err(e) => Err(e),
            Ok(((dest, source), end)) => Ok((Mnemonic::XCHG { dest, source }, end)),
        }
    } else if op == 0x88 || op == 0x89 {
        // The byte-wide and word-wide stores: the r/m side is the destination.
        match spec_register_memory_register(op == 0x89, false, b, pos) {
            Err(e) => Err(e),
            Ok(((dest, source), end)) => Ok((Mnemonic::MOV { dest, source }, end)),
        }
    } else if op == 0x8A || op == 0x8B || op == 0x8C || op == 0x8F {
        // The loads: the reg field names the destination; 0x8A is byte-wide.
        match spec_register_memory_register(op != 0x8A, true, b, pos) {
            Err(e) => Err(e),
            Ok(((dest, source), end)) => Ok((Mnemonic::MOV { dest, source }, end)),
        }
    } else if op == 0x8D {
        Err(DecodeError::UnsupportedOpcode)
    } else if op == 0x8E {
        match spec_register_memory_register(true, false, b, pos) {
            Err(e) => Err(e),
            Ok(((dest, source), end)) => Ok((Mnemonic::LEA { dest, source }, end)),
        }
    } else if op == 0x90 {
        Err(DecodeError::UnsupportedOpcode)
    } else if op == 0x91 {
        Ok((Mnemonic::NOP, pos))
    } else if op < 0x99 {
        Ok(
            (
                Mnemonic::XCHG {
                    dest: RegisterMemory::Register(Register::AX),
                    source: RegisterMemory::Register(spec_register((op - 0x91) as u8, true)),
                },
                pos,
            ),
        )
    } else if op == 0x99 {
        Ok((Mnemonic::CWD, pos))
    } else if op == 0x9A {
        Err(DecodeError::UnsupportedOpcode)
    } else if op == 0x9B {
        Ok((Mnemonic::WAIT, pos))
    } else if op == 0x9C {
        Ok((Mnemonic::PUSHF, pos))
    } else if op == 0x9D {
        Ok((Mnemonic::POPF, pos))
    } else if op == 0x9E {
        Ok((Mnemonic::SAHF, pos))
    } else if op == 0x9F {
        Ok((Mnemonic::LAHF, pos))
    } else if op == 0xA0 {
        spec_mov_imm(RegisterMemory::Register(Register::AL), false, false, b, pos)
    } else if op == 0xA1 {
        spec_mov_imm(RegisterMemory::Register(Register::AX), false, true, b, pos)
    } else if op == 0xA2 {
        spec_mov_imm(RegisterMemory::Register(Register::AL), true, false, b, pos)
    } else if op == 0xA3 {
        spec_mov_imm(RegisterMemory::Register(Register::AX), true, true, b, pos)
    } else if op == 0xA4 || op == 0xA5 {
        Ok((Mnemonic::MOVS { wide: op == 0xA5 }, pos))
    } else if op == 0xA6 || op == 0xA7 {
        Ok((Mnemonic::CMPS { wide: op == 0xA7 }, pos))
    } else if op == 0xA8 || op == 0xA9 {
        match spec_read_imm(b, pos, op == 0xA9) {
            Err(e) => Err(e),
            Ok((v, end)) => Ok(
                (
                    Mnemonic::TEST {
                        dest: RegisterMemory::Register(
                            if op == 0xA9 { Register::AX } else { Register::AL },
                        ),
                        source: RegisterMemory::Immediate(
                            sign_value(v as int, op == 0xA9) as isize,
                        ),
                    },
                    end,
                ),
            ),
        }
    } else if op == 0xAA || op == 0xAB {
        Ok((Mnemonic::STOS { wide: op == 0xAB }, pos))
    } else if op == 0xAC || op == 0xAD {
        Ok((Mnemonic::LODS { wide: op == 0xAD }, pos))
    } else if op == 0xAE || op == 0xAF {
        Ok((Mnemonic::SCAS { wide: op == 0xAF }, pos))
    } else if op < 0xB8 {
        spec_mov_imm(
            RegisterMemory::Register(spec_register(op % 8, false)),
            false,
            false,
            b,
            pos,
        )
    } else {
        spec_mov_imm(RegisterMemory::Register(spec_register(op % 8, true)), false, true, b, pos)
    }
}

/// Decode an opcode in 0x80..=0xBF.
fn decode_data_block(op: u8, bytes: &[u8], pos: usize) -> (r: Result<
    (Mnemonic, usize),
    DecodeError,
>)
    requires
        0x80 <= op < 0xC0,
    ensures
        step_matches(r, spec_decode_data_block(op, bytes@, pos as int)),
{
    if op == 0x80 {
        immediate_to_register(false, false, bytes, pos)
    } else if op == 0x81 {
        immediate_to_register(true, true, bytes, pos)
    } else if op == 0x82 {
        immediate_to_register(false, false, bytes, pos)
    } else if op == 0x83 {
        immediate_to_register(true, false, bytes, pos)
    } else if op == 0x84 || op == 0x85 {
        match register_memory_register(op == 0x85, bytes, pos, true) {
            Err(e) => Err(e),
            Ok(((dest, source), end)) => Ok((Mnemonic::TEST { dest, source }, end)),
        }
    } else if op == 0x86 || op == 0x87 {
        match register_memory_register(op == 0x87, bytes, pos, true) {
            Err(e) => Err(e),
            Ok(((dest, source), end)) => Ok((Mnemonic::XCHG { dest, source }, end)),
        }
    } else if op == 0x88 || op == 0x89 {
        // The byte-wide and word-wide stores: the r/m side is the destination.
        match register_memory_register(op == 0x89, bytes, pos, false) {
            Err(e) => Err(e),
            Ok(((dest, source), end)) => Ok((Mnemonic::MOV { dest, source }, end)),
        }
    } else if op == 0x8A || op == 0x8B || op == 0x8C || op == 0x8F {
        // The loads: the reg field names the destination; 0x8A is byte-wide.
        match register_memory_register(op != 0x8A, bytes, pos, true) {
            Err(e) => Err(e),
            Ok(((dest, source), end)) => Ok((Mnemonic::MOV { dest, source }, end)),
        }
    } else if op == 0x8D {
        Err(DecodeError::UnsupportedOpcode)
    } else if op == 0x8E {
        match register_memory_register(true, bytes, pos, false) {
            Err(e) => Err(e),
            Ok(((dest, source), end)) => Ok((Mnemonic::LEA { dest, source }, end)),
        }
    } else if op == 0x90 {
        pop(true, bytes, pos)
    } else if op == 0x91 {
        Ok((Mnemonic::NOP, pos))
    } else if op < 0x99 {
        Ok(
            (
                Mnemonic::XCHG {
                    dest: RegisterMemory::Register(Register::AX),
                    source: RegisterMemory::Register(register_from_field(op - 0x91, true)),
                },
                pos,
            ),
        )
    } else if op == 0x99 {
        Ok((Mnemonic::CWD, pos))
    } else if op == 0x9A {
        call(bytes, pos)
    } else if op == 0x9B {
        Ok((Mnemonic::WAIT, pos))
    } else if op == 0x9C {
        Ok((Mnemonic::PUSHF, pos))
    } else if op == 0x9D {
        Ok((Mnemonic::POPF, pos))
    } else if op == 0x9E {
        Ok((Mnemonic::SAHF, pos))
    } else if op == 0x9F {
        Ok((Mnemonic::LAHF, pos))
    } else if op == 0xA0 {
        decode_mov_imm(RegisterMemory::Register(Register::AL), false, false, bytes, pos)
    } else if op == 0xA1 {
        decode_mov_imm(RegisterMemory::Register(Register::AX), false, true, bytes, pos)
    } else if op == 0xA2 {
        decode_mov_imm(RegisterMemory::Register(Register::AL), true, false, bytes, pos)
    } else if op == 0xA3 {
        decode_mov_imm(RegisterMemory::Register(Register::AX), true, true, bytes, pos)
    } else if op == 0xA4 || op == 0xA5 {
        Ok((Mnemonic::MOVS { wide: op == 0xA5 }, pos))
    } else if op == 0xA6 || op == 0xA7 {
        Ok((Mnemonic::CMPS { wide: op == 0xA7 }, pos))
    } else if op == 0xA8 || op == 0xA9 {
        let wide = op == 0xA9;
        match read_imm(bytes, pos, wide) {
            Err(e) => Err(e),
            Ok((v, end)) => {
                let accumulator = if wide {
                    Register::AX
                } else {
                    Register::AL
                };
                Ok(
                    (
                        Mnemonic::TEST {
                            dest: RegisterMemory::Register(accumulator),
                            source: RegisterMemory::Immediate(
                                parse_twos_complement_int(v as isize, wide),
                            ),
                        },
                        end,
                    ),
                )
            },
        }
    } else if op == 0xAA || op == 0xAB {
        Ok((Mnemonic::STOS { wide: op == 0xAB }, pos))
    } else if op == 0xAC || op == 0xAD {
        Ok((Mnemonic::LODS { wide: op == 0xAD }, pos))
    } else if op == 0xAE || op == 0xAF {
        Ok((Mnemonic::SCAS { wide: op == 0xAF }, pos))
    } else if op < 0xB8 {
        decode_mov_imm(
            RegisterMemory::Register(register_from_field(op % 8, false)),
            false,
            false,
            bytes,
            pos,
        )
    } else {
        decode_mov_imm(
            RegisterMemory::Register(register_from_field(op % 8, true)),
            false,
            true,
            bytes,
            pos,
        )
    }
}

/// Decode outcome for opcodes 0xC0..=0xFF: returns, load-pointer forms,
/// immediate-to-memory moves, interrupts, the shift/rotate group, loops and
/// unconditional transfers, port I/O, and the flag instructions.
pub open spec fn spec_decode_control_block(op: u8, b: Seq<u8>, pos: int) -> Result<
    (Mnemonic, int),
    DecodeError,
> {
    if op == 0xC0 || op == 0xC1 {
        Err(DecodeError::UnsupportedOpcode)
    } else if op == 0xC2 || op == 0xCA {
        match spec_read_imm(b, pos, true) {
            Err(e) => Err(e),
            Ok((v, end)) => Ok(
                (
                    Mnemonic::RET { segment: Some(sign_value(v as int, true) as isize) },
                    end,
                ),
            ),
        }
    } else if op == 0xC3 {
        Ok((Mnemonic::RET { segment: None }, pos))
    } else if op == 0xC4 || op == 0xC5 {
        match spec_register_memory_register(true, false, b, pos) {
            Err(e) => Err(e),
            Ok(((dest, source), end)) => if op == 0xC4 {
                Ok((Mnemonic::LES { dest, source }, end))
            } else {
                Ok((Mnemonic::LDS { dest, source }, end))
            },
        }
    } else if op == 0xC6 {
        spec_immediate_to_memory(false, b, pos)
    } else if op == 0xC7 {
        spec_immediate_to_memory(true, b, pos)
    } else if op == 0xC8 || op == 0xC9 {
        Err(DecodeError::UnsupportedOpcode)
    } else if op == 0xCB {
        Ok((Mnemonic::RET { segment: None }, pos))
    } else if op == 0xCC {
        Ok((Mnemonic::INT { value: 3 }, pos))
    } else if op == 0xCD {
        match spec_read_byte(b, pos) {
            Err(e) => Err(e),
            Ok((v, end)) => Ok((Mnemonic::INT { value: v as isize }, end)),
        }
    } else if op == 0xCE {
        Ok((Mnemonic::INTO, pos))
    } else if op == 0xCF {
        Ok((Mnemonic::IRET, pos))
    } else if op == 0xD0 {
        spec_logic_register_memory(false, RegisterMemory::Immediate(1), b, pos)
    } else if op == 0xD1 {
        spec_logic_register_memory(true, RegisterMemory::Immediate(1), b, pos)
    } else if op == 0xD2 {
        spec_logic_register_memory(false, RegisterMemory::Register(Register::CL), b, pos)
    } else if op == 0xD3 {
        spec_logic_register_memory(true, RegisterMemory::Register(Register::CL), b, pos)
    } else if op == 0xD4 {
        Ok((Mnemonic::AAM, pos))
    } else if op == 0xD5 {
        Ok((Mnemonic::AAD, pos))
    } else if op == 0xD6 {
        Err(DecodeError::UnsupportedOpcode)
    } else if op == 0xD7 {
        Ok((Mnemonic::XLAT, pos))
    } else if op < 0xE0 {
        Ok((Mnemonic::ESC, pos))
    } else if op == 0xE0 || op == 0xE1 || op == 0xE2 {
        match spec_read_byte(b, pos) {
            Err(e) => Err(e),
            Ok((v, end)) => if op == 0xE0 {
                Ok((Mnemonic::LOOPNE { short_label: v as isize }, end))
            } else if op == 0xE1 {
                Ok((Mnemonic::LOOPE { short_label: v as isize }, end))
            } else {
                Ok((Mnemonic::LOOP { short_label: v as isize }, end))
            },
        }
    } else if op == 0xE3 {
        match spec_read_byte(b, pos) {
            Err(e) => Err(e),
            Ok((v, end)) => Ok((Mnemonic::JCXZ { label: v }, end)),
        }
    } else if op == 0xE4 || op == 0xE5 || op == 0xE6 || op == 0xE7 {
        match spec_read_byte(b, pos) {
            Err(e) => Err(e),
            Ok((v, end)) => {
                let accumulator = RegisterMemory::Register(
                    if op == 0xE5 || op == 0xE7 { Register::AX } else { Register::AL },
                );
                let port = RegisterMemory::Immediate(v as isize);
                if op < 0xE6 {
                    Ok((Mnemonic::IN { dest: accumulator, source: port }, end))
                } else {
                    Ok((Mnemonic::OUT { dest: accumulator, source: port }, end))
                }
            },
        }
    } else if op == 0xE8 {
        match spec_read_byte(b, pos) {
            Err(e) => Err(e),
            Ok((v, end)) => Ok(
                (Mnemonic::CALL { far_proc: None, near_proc: Some(v as isize) }, end),
            ),
        }
    } else if op == 0xE9 || op == 0xEA || op == 0xEB {
        match spec_read_byte(b, pos) {
            Err(e) => Err(e),
            Ok((v, end)) => Ok((Mnemonic::JMP { label: v as isize }, end)),
        }
    } else if op == 0xEC || op == 0xED || op == 0xEE || op == 0xEF {
        let accumulator = RegisterMemory::Register(
            if op == 0xED || op == 0xEF { Register::AX } else { Register::AL },
        );
        let port = RegisterMemory::Register(Register::DX);
        if op < 0xEE {
            Ok((Mnemonic::IN { dest: accumulator, source: port }, pos))
        } else {
            Ok((Mnemonic::OUT { dest: accumulator, source: port }, pos))
        }
    } else if op == 0xF0 {
        Ok((Mnemonic::LOCK, pos))
    } else if op == 0xF1 {
        Err(DecodeError::UnsupportedOpcode)
    } else if op == 0xF2 {
        Ok((Mnemonic::REPNE, pos))
    } else if op == 0xF3 {
        Ok((Mnemonic::REP, pos))
    } else if op == 0xF4 {
        Ok((Mnemonic::HLT, pos))
    } else if op == 0xF5 {
        Ok((Mnemonic::CMC, pos))
    } else if op == 0xF6 || op == 0xF7 {
        Err(DecodeError::UnsupportedOpcode)
    } else if op == 0xF8 {
        Ok((Mnemonic::CLC, pos))
    } else if op == 0xF9 {
        Ok((Mnemonic::STC, pos))
    } else if op == 0xFA {
        Ok((Mnemonic::CLI, pos))
    } else if op == 0xFB {
        Ok((Mnemonic::STI, pos))
    } else if op == 0xFC {
        Ok((Mnemonic::CLD, pos))
    } else if op == 0xFD {
        Ok((Mnemonic::STD, pos))
    } else {
        Err(DecodeError::UnsupportedOpcode)
    }
}

/// Decode an opcode in 0xC0..=0xFF.
fn decode_control_block(op: u8, bytes: &[u8], pos: usize) -> (r: Result<
    (Mnemonic, usize),
    DecodeError,
>)
    requires
        0xC0 <= op,
    ensures
        step_matches(r, spec_decode_control_block(op, bytes@, pos as int)),
{
    if op == 0xC0 || op == 0xC1 {
        Err(DecodeError::UnsupportedOpcode)
    } else if op == 0xC2 || op == 0xCA {
        match read_imm(bytes, pos, true) {
            Err(e) => Err(e),
            Ok((v, end)) => Ok(
                (
                    Mnemonic::RET {
                        segment: Some(parse_twos_complement_int(v as isize, true)),
                    },
                    end,
                ),
            ),
        }
    } else if op == 0xC3 {
        Ok((Mnemonic::RET { segment: None }, pos))
    } else if op == 0xC4 || op == 0xC5 {
        match register_memory_register(true, bytes, pos, false) {
            Err(e) => Err(e),
            Ok(((dest, source), end)) => if op == 0xC4 {
                Ok((Mnemonic::LES { dest, source }, end))
            } else {
                Ok((Mnemonic::LDS { dest, source }, end))
            },
        }
    } else if op == 0xC6 {
        immediate_to_memory(false, bytes, pos)
    } else if op == 0xC7 {
        immediate_to_memory(true, bytes, pos)
    } else if op == 0xC8 || op == 0xC9 {
        Err(DecodeError::UnsupportedOpcode)
    } else if op == 0xCB {
        Ok((Mnemonic::RET { segment: None }, pos))
    } else if op == 0xCC {
        Ok((Mnemonic::INT { value: 3 }, pos))
    } else if op == 0xCD {
        match read_byte(bytes, pos) {
            Err(e) => Err(e),
            Ok((v, end)) => Ok((Mnemonic::INT { value: v as isize }, end)),
        }
    } else if op == 0xCE {
        Ok((Mnemonic::INTO, pos))
    } else if op == 0xCF {
        Ok((Mnemonic::IRET, pos))
    } else if op == 0xD0 {
        logic_register_memory(bytes, pos, false, RegisterMemory::Immediate(1))
    } else if op == 0xD1 {
        logic_register_memory(bytes, pos, true, RegisterMemory::Immediate(1))
    } else if op == 0xD2 {
        logic_register_memory(bytes, pos, false, RegisterMemory::Register(Register::CL))
    } else if op == 0xD3 {
        logic_register_memory(bytes, pos, true, RegisterMemory::Register(Register::CL))
    } else if op == 0xD4 {
        Ok((Mnemonic::AAM, pos))
    } else if op == 0xD5 {
        Ok((Mnemonic::AAD, pos))
    } else if op == 0xD6 {
        Err(DecodeError::UnsupportedOpcode)
    } else if op == 0xD7 {
        Ok((Mnemonic::XLAT, pos))
    } else if op < 0xE0 {
        Ok((Mnemonic::ESC, pos))
    } else if op == 0xE0 || op == 0xE1 || op == 0xE2 {
        match read_byte(bytes, pos) {
            Err(e) => Err(e),
            Ok((v, end)) => if op == 0xE0 {
                Ok((Mnemonic::LOOPNE { short_label: v as isize }, end))
            } else if op == 0xE1 {
                Ok((Mnemonic::LOOPE { short_label: v as isize }, end))
            } else {
                Ok((Mnemonic::LOOP { short_label: v as isize }, end))
            },
        }
    } else if op == 0xE3 {
        match read_byte(bytes, pos) {
            Err(e) => Err(e),
            Ok((v, end)) => Ok((Mnemonic::JCXZ { label: v }, end)),
        }
    } else if op == 0xE4 || op == 0xE5 || op == 0xE6 || op == 0xE7 {
        match read_byte(bytes, pos) {
            Err(e) => Err(e),
            Ok((v, end)) => {
                let accumulator = if op == 0xE5 || op == 0xE7 {
                    Register::AX
                } else {
                    Register::AL
                };
                let port = RegisterMemory::Immediate(v as isize);
                if op < 0xE6 {
                    Ok(
                        (
                            Mnemonic::IN {
                                dest: RegisterMemory::Register(accumulator),
                                source: port,
                            },
                            end,
                        ),
                    )
                } else {
                    Ok(
                        (
                            Mnemonic::OUT {
                                dest: RegisterMemory::Register(accumulator),
                                source: port,
                            },
                            end,
                        ),
                    )
                }
            },
        }
    } else if op == 0xE8 {
        match read_byte(bytes, pos) {
            Err(e) => Err(e),
            Ok((v, end)) => Ok(
                (Mnemonic::CALL { far_proc: None, near_proc: Some(v as isize) }, end),
            ),
        }
    } else if op == 0xE9 || op == 0xEA || op == 0xEB {
        match read_byte(bytes, pos) {
            Err(e) => Err(e),
            Ok((v, end)) => Ok((Mnemonic::JMP { label: v as isize }, end)),
        }
    } else if op == 0xEC || op == 0xED || op == 0xEE || op == 0xEF {
        let accumulator = if op == 0xED || op == 0xEF {
            Register::AX
        } else {
            Register::AL
        };
        let port = RegisterMemory::Register(Register::DX);
        if op < 0xEE {
            Ok(
                (
                    Mnemonic::IN { dest: RegisterMemory::Register(accumulator), source: port },
                    pos,
                ),
            )
        } else {
            Ok(
                (
                    Mnemonic::OUT { dest: RegisterMemory::Register(accumulator), source: port },
                    pos,
                ),
            )
        }
    } else if op == 0xF0 {
        Ok((Mnemonic::LOCK, pos))
    } else if op == 0xF1 {
        Err(DecodeError::UnsupportedOpcode)
    } else if op == 0xF2 {
        Ok((Mnemonic::REPNE, pos))
    } else if op == 0xF3 {
        Ok((Mnemonic::REP, pos))
    } else if op == 0xF4 {
        Ok((Mnemonic::HLT, pos))
    } else if op == 0xF5 {
        Ok((Mnemonic::CMC, pos))
    } else if op == 0xF6 || op == 0xF7 {
        Err(DecodeError::UnsupportedOpcode)
    } else if op == 0xF8 {
        Ok((Mnemonic::CLC, pos))
    } else if op == 0xF9 {
        Ok((Mnemonic::STC, pos))
    } else if op == 0xFA {
        Ok((Mnemonic::CLI, pos))
    } else if op == 0xFB {
        Ok((Mnemonic::STI, pos))
    } else if op == 0xFC {
        Ok((Mnemonic::CLD, pos))
    } else if op == 0xFD {
        Ok((Mnemonic::STD, pos))
    } else {
        Err(DecodeError::UnsupportedOpcode)
    }
}

/// The full decode relation: the instruction whose first byte stands at
/// `pos` and the position just past its last byte, or the decode error.
pub open spec fn spec_decode(b: Seq<u8>, pos: int) -> Result<(Mnemonic, int), DecodeError> {
    match spec_read_byte(b, pos) {
        Err(e) => Err(e),
        Ok((op, next)) => if op < 0x40 {
            spec_decode_arithmetic(op, b, next)
        } else if op < 0x80 {
            spec_decode_register_block(op, b, next)
        } else if op < 0xC0 {
            spec_decode_data_block(op, b, next)
        } else {
            spec_decode_control_block(op, b, next)
        },
    }
}

/// Decode one instruction whose first byte stands at `pos`.  On success the
/// returned position is the first byte of the next instruction; on failure
/// the stream must be treated as fatal from `pos` on.
pub fn decode_instruction(bytes: &[u8], pos: usize) -> (r: Result<(Mnemonic, usize), DecodeError>)
    ensures
        step_matches(r, spec_decode(bytes@, pos as int)),
{
    let (op, next) = match read_byte(bytes, pos) {
        Ok(v) => v,
        Err(e) => {
            return Err(e);
        },
    };
    if op < 0x40 {
        decode_arithmetic_block(op, bytes, next)
    } else if op < 0x80 {
        decode_register_block(op, bytes, next)
    } else if op < 0xC0 {
        decode_data_block(op, bytes, next)
    } else {
        decode_control_block(op, bytes, next)
    }
}

/// Progress through the arithmetic/logic quarter: a decoded instruction ends
/// at or after the position following its opcode byte, within the stream.
proof fn lemma_arithmetic_progress(op: u8, b: Seq<u8>, pos: int)
    requires
        op < 0x40,
        0 <= pos <= b.len(),
    ensures
        spec_decode_arithmetic(op, b, pos) matches Ok((_, end)) ==> pos <= end <= b.len(),
{
    lemma_register_memory_register_bounds(false, false, b, pos);
    lemma_register_memory_register_bounds(true, false, b, pos);
    lemma_register_memory_register_bounds(false, true, b, pos);
    lemma_register_memory_register_bounds(true, true, b, pos);
}

/// Progress through the single-byte register forms and conditional jumps.
proof fn lemma_register_block_progress(op: u8, b: Seq<u8>, pos: int)
    requires
        0x40 <= op < 0x80,
        0 <= pos <= b.len(),
    ensures
        spec_decode_register_block(op, b, pos) matches Ok((_, end)) ==> pos <= end <= b.len(),
{
}

/// Progress through the immediate-group, move and string forms.
proof fn lemma_data_block_progress(op: u8, b: Seq<u8>, pos: int)
    requires
        0x80 <= op < 0xC0,
        0 <= pos <= b.len(),
    ensures
        spec_decode_data_block(op, b, pos) matches Ok((_, end)) ==> pos <= end <= b.len(),
{
    lemma_immediate_to_register_bounds(false, false, b, pos);
    lemma_immediate_to_register_bounds(true, true, b, pos);
    lemma_immediate_to_register_bounds(true, false, b, pos);
    lemma_register_memory_register_bounds(false, true, b, pos);
    lemma_register_memory_register_bounds(true, true, b, pos);
    lemma_register_memory_register_bounds(true, false, b, pos);
}

/// Progress through the return, interrupt, shift/rotate and transfer forms.
proof fn lemma_control_block_progress(op: u8, b: Seq<u8>, pos: int)
    requires
        0xC0 <= op,
        0 <= pos <= b.len(),
    ensures
        spec_decode_control_block(op, b, pos) matches Ok((_, end)) ==> pos <= end <= b.len(),
{
    lemma_register_memory_register_bounds(true, false, b, pos);
    lemma_immediate_to_memory_bounds(false, b, pos);
    lemma_immediate_to_memory_bounds(true, b, pos);
    lemma_logic_register_memory_bounds(false, RegisterMemory::Immediate(1), b, pos);
    lemma_logic_register_memory_bounds(true, RegisterMemory::Immediate(1), b, pos);
    lemma_logic_register_memory_bounds(false, RegisterMemory::Register(Register::CL), b, pos);
    lemma_logic_register_memory_bounds(true, RegisterMemory::Register(Register::CL), b, pos);
}

/// Decoding always advances the cursor: a decoded instruction occupies at
/// least its opcode byte and never extends past the stream, so decoding a
/// bounded buffer terminates.
pub proof fn lemma_decode_progress(b: Seq<u8>, pos: int)
    requires
        0 <= pos,
    ensures
        spec_decode(b, pos) matches Ok((_, end)) ==> pos < end <= b.len(),
{
    if pos + 1 <= b.len() {
        let op = b[pos];
        let next = pos + 1;
        if op < 0x40 {
            lemma_arithmetic_progress(op, b, next);
        } else if op < 0x80 {
            lemma_register_block_progress(op, b, next);
        } else if op < 0xC0 {
            lemma_data_block_progress(op, b, next);
        } else {
            lemma_control_block_progress(op, b, next);
        }
    }
}

/// Length determinism: two decodes of the same byte sequence from the same
/// starting offset yield the same instruction and consume the same count of
/// bytes — any two results that meet `decode_instruction`'s contract on the
/// same stream and offset are equal.
pub proof fn lemma_decode_deterministic(
    b: Seq<u8>,
    pos: int,
    r1: Result<(Mnemonic, usize), DecodeError>,
    r2: Result<(Mnemonic, usize), DecodeError>,
)
    requires
        step_matches(r1, spec_decode(b, pos)),
        step_matches(r2, spec_decode(b, pos)),
    ensures
        r1 == r2,
{
}

/// Relative-branch byte consumption: a conditional-jump opcode followed by a
/// displacement byte decodes to the jump instruction carrying exactly that
/// byte as its label, consuming exactly one trailing byte.
pub proof fn lemma_conditional_jump_consumption(b: Seq<u8>, pos: int)
    requires
        0 <= pos,
        pos + 2 <= b.len(),
        0x70 <= b[pos] < 0x80,
    ensures
        spec_decode(b, pos) == Ok::<(Mnemonic, int), DecodeError>(
            (spec_jump_mnemonic(b[pos], b[pos + 1]), pos + 2),
        ),
        conditional_jump_label(spec_jump_mnemonic(b[pos], b[pos + 1])) == Some(b[pos + 1]),
{
}

/// Decode outcome for a whole stream from `pos` to exhaustion: the sequence
/// of instructions, or the first error with the offset at which it struck.
/// The decoder always advances (`lemma_decode_progress`), so the guard on
/// the recursion only carries that fact.
pub open spec fn spec_decode_stream(b: Seq<u8>, pos: int) -> Result<
    Seq<Mnemonic>,
    (DecodeError, int),
>
    decreases b.len() - pos,
{
    if pos >= b.len() {
        Ok(Seq::empty())
    } else {
        match spec_decode(b, pos) {
            Err(e) => Err((e, pos)),
            Ok((instruction, end)) => if pos < end <= b.len() {
                match spec_decode_stream(b, end) {
                    Ok(rest) => Ok(seq![instruction] + rest),
                    Err(ep) => Err(ep),
                }
            } else {
                Err((DecodeError::TruncatedStream, pos))
            },
        }
    }
}

/// The instructions already decoded, together with what remains at `pos`,
/// assemble to the whole stream's decode outcome.
spec fn stream_invariant(b: Seq<u8>, pos: int, decoded: Seq<Mnemonic>) -> bool {
    match spec_decode_stream(b, pos) {
        Ok(rest) => spec_decode_stream(b, 0) == Ok::<Seq<Mnemonic>, (DecodeError, int)>(
            decoded + rest,
        ),
        Err(ep) => spec_decode_stream(b, 0) == Err::<Seq<Mnemonic>, (DecodeError, int)>(ep),
    }
}

/// Decode a whole byte stream, one instruction after another, until the
/// cursor is exhausted.  Because the set is variable-length, an instruction
/// can only be reached by fully decoding its predecessors; on the first
/// failure decoding halts and the error is reported together with the byte
/// offset at which it struck.
pub fn decode_stream(bytes: &[u8]) -> (r: Result<Vec<Mnemonic>, (DecodeError, usize)>)
    ensures
        (match (r, spec_decode_stream(bytes@, 0)) {
            (Ok(v), Ok(s)) => v@ == s,
            (Err((e, off)), Err((se, soff))) => e == se && off as int == soff,
            _ => false,
        }),
{
    let mut decoded: Vec<Mnemonic> = Vec::new();
    let mut pos: usize = 0;
    proof {
        match spec_decode_stream(bytes@, 0) {
            Ok(rest) => {
                assert(decoded@ + rest =~= rest);
            },
            Err(_) => {},
        }
    }
    while pos < bytes.len()
        invariant
            pos <= bytes.len(),
            stream_invariant(bytes@, pos as int, decoded@),
        decreases bytes.len() - pos,
    {
        match decode_instruction(bytes, pos) {
            Err(e) => {
                return Err((e, pos));
            },
            Ok((instruction, end)) => {
                proof {
                    lemma_decode_progress(bytes@, pos as int);
                }
                let ghost old_decoded = decoded@;
                decoded.push(instruction);
                proof {
                    match spec_decode_stream(bytes@, end as int) {
                        Ok(rest) => {
                            assert(old_decoded + (seq![instruction] + rest) =~= decoded@ + rest);
                        },
                        Err(_) => {},
                    }
                }
                pos = end;
            },
        }
    }
    proof {
        assert(decoded@ + Seq::<Mnemonic>::empty() =~= decoded@);
    }
    Ok(decoded)
}

} // verus!
