//! Registers, segment registers, and the register/memory operand model,
//! together with the addressing-mode resolver that turns a mode field and an
//! r/m field into an operand, consuming displacement bytes from the stream.

use vstd::prelude::*;

use crate::DecodeError;
use crate::parse_twos_complement_int;
use crate::sign_value;
use crate::step_matches;

verus! {

/// The addressing mode selected by the 2-bit mode field of an
/// addressing-mode byte.
#[derive(Clone, Copy, Debug, PartialEq, Eq)]
pub enum Mode {
    /// Memory operand, no displacement (with the direct-address exception
    /// for r/m = 110).
    MemoryMode,
    /// Memory operand plus an 8-bit signed displacement.
    MemoryModeDisplacement,
    /// Memory operand plus a 16-bit signed displacement.
    MemoryModeDisplacementWide,
    /// The r/m field names a register directly.
    RegisterMode,
}

/// The four segment registers.
#[derive(Clone, Copy, Debug, PartialEq, Eq, Hash)]
pub enum SegmentRegister {
    ES,
    CS,
    SS,
    DS,
}

/// The eight narrow (byte-wide) and eight wide (word-wide) registers.
#[derive(Clone, Copy, Debug, PartialEq, Eq, Hash)]
pub enum Register {
    AL,
    CL,
    DL,
    BL,
    AH,
    CH,
    DH,
    BH,
    AX,
    CX,
    DX,
    BX,
    SP,
    BP,
    SI,
    DI,
}

/// An instruction operand: a register, a memory reference in one of its
/// addressing forms, an immediate value, or a segment register.  Exactly one
/// variant is active; displacement-carrying variants record whether the
/// displacement was read narrow or wide.
#[derive(Clone, Copy, Debug, PartialEq, Eq)]
pub enum RegisterMemory {
    SegmentRegister(SegmentRegister),
    Register(Register),
    CombineRegisters(Register, Register),
    DirectAddress(isize),
    RegisterData(Register, isize),
    RegisterDataWide(Register, isize),
    CombineRegistersData(Register, Register, isize),
    CombineRegistersDataWide(Register, Register, isize),
    Immediate(isize),
}

/// The addressing mode a 2-bit field value selects.
pub open spec fn spec_mode(value: u8) -> Mode {
    if value == 0 {
        Mode::MemoryMode
    } else if value == 1 {
        Mode::MemoryModeDisplacement
    } else if value == 2 {
        Mode::MemoryModeDisplacementWide
    } else {
        Mode::RegisterMode
    }
}

impl Mode {
    /// Decode a 2-bit mode field; a value above 3 is an invalid field
    /// encoding.
    pub fn from_field(value: u8) -> (r: Result<Mode, DecodeError>)
        ensures
            value <= 3 ==> r == Ok::<Mode, DecodeError>(spec_mode(value)),
            value > 3 ==> r == Err::<Mode, DecodeError>(DecodeError::InvalidFieldEncoding),
    {
        match value {
            0 => Ok(Mode::MemoryMode),
            1 => Ok(Mode::MemoryModeDisplacement),
            2 => Ok(Mode::MemoryModeDisplacementWide),
            3 => Ok(Mode::RegisterMode),
            _ => Err(DecodeError::InvalidFieldEncoding),
        }
    }
}

/// The register a 3-bit field selects under the given width flag.
pub open spec fn spec_register(field: u8, wide: bool) -> Register {
    if wide {
        if field == 0 {
            Register::AX
        } else if field == 1 {
            Register::CX
        } else if field == 2 {
            Register::DX
        } else if field == 3 {
            Register::BX
        } else if field == 4 {
            Register::SP
        } else if field == 5 {
            Register::BP
        } else if field == 6 {
            Register::SI
        } else {
            Register::DI
        }
    } else {
        if field == 0 {
            Register::AL
        } else if field == 1 {
            Register::CL
        } else if field == 2 {
            Register::DL
        } else if field == 3 {
            Register::BL
        } else if field == 4 {
            Register::AH
        } else if field == 5 {
            Register::CH
        } else if field == 6 {
            Register::DH
        } else {
            Register::BH
        }
    }
}

/// Look up the register a 3-bit field selects under the given width flag.
pub fn register_from_field(field: u8, wide: bool) -> (r: Register)
    requires
        field < 8,
    ensures
        r == spec_register(field, wide),
{
    if wide {
        match field {
            0 => Register::AX,
            1 => Register::CX,
            2 => Register::DX,
            3 => Register::BX,
            4 => Register::SP,
            5 => Register::BP,
            6 => Register::SI,
            _ => Register::DI,
        }
    } else {
        match field {
            0 => Register::AL,
            1 => Register::CL,
            2 => Register::DL,
            3 => Register::BL,
            4 => Register::AH,
            5 => Register::CH,
            6 => Register::DH,
            _ => Register::BH,
        }
    }
}

/// The segment register a 2-bit field selects.
pub open spec fn spec_segment_register(field: u8) -> SegmentRegister {
    if field == 0 {
        SegmentRegister::ES
    } else if field == 1 {
        SegmentRegister::CS
    } else if field == 2 {
        SegmentRegister::SS
    } else {
        SegmentRegister::DS
    }
}

impl SegmentRegister {
    /// Decode a 2-bit segment-register field; a value above 3 is an invalid
    /// field encoding.
    pub fn from_field(field: u8) -> (r: Result<SegmentRegister, DecodeError>)
        ensures
            field <= 3 ==> r == Ok::<SegmentRegister, DecodeError>(spec_segment_register(field)),
            field > 3 ==> r == Err::<SegmentRegister, DecodeError>(
                DecodeError::InvalidFieldEncoding,
            ),
    {
        match field {
            0 => Ok(SegmentRegister::ES),
            1 => Ok(SegmentRegister::CS),
            2 => Ok(SegmentRegister::SS),
            3 => Ok(SegmentRegister::DS),
            _ => Err(DecodeError::InvalidFieldEncoding),
        }
    }
}

/// A register field taken from an opcode or addressing-mode byte, with the
/// instruction's width flag.
pub struct RegisterEncoding {
    pub byte: u8,
    pub wide: bool,
}

/// The fields of an addressing-mode byte that drive operand resolution: the
/// 3-bit r/m field, the 2-bit mode, and the instruction's width flag.
pub struct RegisterMemoryEncoding {
    pub rm: u8,
    pub mode: Mode,
    pub wide: bool,
}

/// The value of two stream bytes combined little-endian.
pub open spec fn word_value(lo: u8, hi: u8) -> int {
    lo + 256 * hi
}

/// The displacement-free memory operand the r/m field selects in mode 00.
/// The value for r/m = 6 is never used: that encoding is the direct-address
/// exception, handled by the resolver itself.
pub open spec fn spec_memory_operand(rm: u8) -> RegisterMemory {
    if rm == 0 {
        RegisterMemory::CombineRegisters(Register::BX, Register::SI)
    } else if rm == 1 {
        RegisterMemory::CombineRegisters(Register::BX, Register::DI)
    } else if rm == 2 {
        RegisterMemory::CombineRegisters(Register::BP, Register::SI)
    } else if rm == 3 {
        RegisterMemory::CombineRegisters(Register::BP, Register::DI)
    } else if rm == 4 {
        RegisterMemory::Register(Register::SI)
    } else if rm == 5 {
        RegisterMemory::Register(Register::DI)
    } else if rm == 6 {
        RegisterMemory::DirectAddress(0)
    } else {
        RegisterMemory::Register(Register::BX)
    }
}

/// The displacement-carrying memory operand the r/m field selects in modes
/// 01 and 10, with the signed displacement `d` attached at the given width.
pub open spec fn spec_displacement_operand(rm: u8, d: int, wide: bool) -> RegisterMemory {
    if wide {
        if rm == 0 {
            RegisterMemory::CombineRegistersDataWide(Register::BX, Register::SI, d as isize)
        } else if rm == 1 {
            RegisterMemory::CombineRegistersDataWide(Register::BX, Register::DI, d as isize)
        } else if rm == 2 {
            RegisterMemory::CombineRegistersDataWide(Register::BP, Register::SI, d as isize)
        } else if rm == 3 {
            RegisterMemory::CombineRegistersDataWide(Register::BP, Register::DI, d as isize)
        } else if rm == 4 {
            RegisterMemory::RegisterDataWide(Register::SI, d as isize)
        } else if rm == 5 {
            RegisterMemory::RegisterDataWide(Register::DI, d as isize)
        } else if rm == 6 {
            RegisterMemory::RegisterDataWide(Register::BP, d as isize)
        } else {
            RegisterMemory::RegisterDataWide(Register::BX, d as isize)
        }
    } else {
        if rm == 0 {
            RegisterMemory::CombineRegistersData(Register::BX, Register::SI, d as isize)
        } else if rm == 1 {
            RegisterMemory::CombineRegistersData(Register::BX, Register::DI, d as isize)
        } else if rm == 2 {
            RegisterMemory::CombineRegistersData(Register::BP, Register::SI, d as isize)
        } else if rm == 3 {
            RegisterMemory::CombineRegistersData(Register::BP, Register::DI, d as isize)
        } else if rm == 4 {
            RegisterMemory::RegisterData(Register::SI, d as isize)
        } else if rm == 5 {
            RegisterMemory::RegisterData(Register::DI, d as isize)
        } else if rm == 6 {
            RegisterMemory::RegisterData(Register::BP, d as isize)
        } else {
            RegisterMemory::RegisterData(Register::BX, d as isize)
        }
    }
}

/// How many displacement or direct-address bytes operand resolution consumes
/// beyond the addressing-mode byte itself.
pub open spec fn rm_trailing_len(mode: Mode, rm: u8) -> int {
    match mode {
        Mode::MemoryMode => if rm == 6 {
            2int
        } else {
            0int
        },
        Mode::MemoryModeDisplacement => 1int,
        Mode::MemoryModeDisplacementWide => 2int,
        Mode::RegisterMode => 0int,
    }
}

/// The operand that mode and r/m select, reading its displacement or
/// direct-address bytes at `pos`.  Only meaningful when the trailing bytes
/// are in bounds; `spec_resolve_register_memory` adds the bounds check.
pub open spec fn spec_rm_operand(
    mode: Mode,
    rm: u8,
    wide: bool,
    b: Seq<u8>,
    pos: int,
) -> RegisterMemory {
    match mode {
        Mode::MemoryMode => if rm == 6 {
            RegisterMemory::DirectAddress(
                sign_value(word_value(b[pos], b[pos + 1]), true) as isize,
            )
        } else {
            spec_memory_operand(rm)
        },
        Mode::MemoryModeDisplacement => spec_displacement_operand(
            rm,
            sign_value(b[pos] as int, false),
            false,
        ),
        Mode::MemoryModeDisplacementWide => spec_displacement_operand(
            rm,
            sign_value(word_value(b[pos], b[pos + 1]), true),
            true,
        ),
        Mode::RegisterMode => RegisterMemory::Register(spec_register(rm, wide)),
    }
}

/// Full operand resolution with its cursor effect: the operand and the
/// position just past the consumed bytes, or the decode error.
pub open spec fn spec_resolve_register_memory(
    encoding: RegisterMemoryEncoding,
    b: Seq<u8>,
    pos: int,
) -> Result<(RegisterMemory, int), DecodeError> {
    if encoding.rm >= 8 {
        Err(DecodeError::InvalidFieldEncoding)
    } else if pos + rm_trailing_len(encoding.mode, encoding.rm) > b.len() {
        Err(DecodeError::TruncatedStream)
    } else {
        Ok(
            (
                spec_rm_operand(encoding.mode, encoding.rm, encoding.wide, b, pos),
                pos + rm_trailing_len(encoding.mode, encoding.rm),
            ),
        )
    }
}

/// The displacement-free memory operand table for mode 00, r/m other than 6.
fn memory_operand(rm: u8) -> (r: RegisterMemory)
    requires
        rm < 8,
        rm != 6,
    ensures
        r == spec_memory_operand(rm),
{
    match rm {
        0 => RegisterMemory::CombineRegisters(Register::BX, Register::SI),
        1 => RegisterMemory::CombineRegisters(Register::BX, Register::DI),
        2 => RegisterMemory::CombineRegisters(Register::BP, Register::SI),
        3 => RegisterMemory::CombineRegisters(Register::BP, Register::DI),
        4 => RegisterMemory::Register(Register::SI),
        5 => RegisterMemory::Register(Register::DI),
        _ => RegisterMemory::Register(Register::BX),
    }
}

/// The displacement-carrying memory operand table for modes 01 and 10.
fn displacement_operand(rm: u8, d: isize, wide: bool) -> (r: RegisterMemory)
    requires
        rm < 8,
    ensures
        r == spec_displacement_operand(rm, d as int, wide),
{
    if wide {
        match rm {
            0 => RegisterMemory::CombineRegistersDataWide(Register::BX, Register::SI, d),
            1 => RegisterMemory::CombineRegistersDataWide(Register::BX, Register::DI, d),
            2 => RegisterMemory::CombineRegistersDataWide(Register::BP, Register::SI, d),
            3 => RegisterMemory::CombineRegistersDataWide(Register::BP, Register::DI, d),
            4 => RegisterMemory::RegisterDataWide(Register::SI, d),
            5 => RegisterMemory::RegisterDataWide(Register::DI, d),
            6 => RegisterMemory::RegisterDataWide(Register::BP, d),
            _ => RegisterMemory::RegisterDataWide(Register::BX, d),
        }
    } else {
        match rm {
            0 => RegisterMemory::CombineRegistersData(Register::BX, Register::SI, d),
            1 => RegisterMemory::CombineRegistersData(Register::BX, Register::DI, d),
            2 => RegisterMemory::CombineRegistersData(Register::BP, Register::SI, d),
            3 => RegisterMemory::CombineRegistersData(Register::BP, Register::DI, d),
            4 => RegisterMemory::RegisterData(Register::SI, d),
            5 => RegisterMemory::RegisterData(Register::DI, d),
            6 => RegisterMemory::RegisterData(Register::BP, d),
            _ => RegisterMemory::RegisterData(Register::BX, d),
        }
    }
}

impl RegisterMemory {
    /// Resolve a bare register encoding (a 3-bit field plus width flag) to a
    /// register operand; a field value above 7 is an invalid field encoding.
    pub fn from_register_encoding(encoding: RegisterEncoding) -> (r: Result<
        RegisterMemory,
        DecodeError,
    >)
        ensures
            encoding.byte < 8 ==> r == Ok::<RegisterMemory, DecodeError>(
                RegisterMemory::Register(spec_register(encoding.byte, encoding.wide)),
            ),
            encoding.byte >= 8 ==> r == Err::<RegisterMemory, DecodeError>(
                DecodeError::InvalidFieldEncoding,
            ),
    {
        if encoding.byte < 8 {
            Ok(RegisterMemory::Register(register_from_field(encoding.byte, encoding.wide)))
        } else {
            Err(DecodeError::InvalidFieldEncoding)
        }
    }

    /// Resolve an addressing-mode encoding to an operand, consuming the
    /// displacement or direct-address bytes the mode requires from the
    /// stream at `pos`.  In mode 00, r/m = 110 does not mean "BP with no
    /// displacement" but a direct address: two further bytes are combined
    /// little-endian and sign-interpreted wide.
    pub fn resolve(encoding: RegisterMemoryEncoding, bytes: &[u8], pos: usize) -> (r: Result<
        (RegisterMemory, usize),
        DecodeError,
    >)
        ensures
            step_matches(r, spec_resolve_register_memory(encoding, bytes@, pos as int)),
    {
        if encoding.rm >= 8 {
            return Err(DecodeError::InvalidFieldEncoding);
        }
        if pos > bytes.len() {
            return Err(DecodeError::TruncatedStream);
        }
        match encoding.mode {
            Mode::MemoryMode => {
                if encoding.rm == 6 {
                    if bytes.len() < 2 || pos > bytes.len() - 2 {
                        Err(DecodeError::TruncatedStream)
                    } else {
                        let data: u16 = (bytes[pos] as u16) + 256 * (bytes[pos + 1] as u16);
                        let address = parse_twos_complement_int(data as isize, true);
                        Ok((RegisterMemory::DirectAddress(address), pos + 2))
                    }
                } else {
                    Ok((memory_operand(encoding.rm), pos))
                }
            },
            Mode::MemoryModeDisplacement => {
                if pos >= bytes.len() {
                    Err(DecodeError::TruncatedStream)
                } else {
                    let d = parse_twos_complement_int(bytes[pos] as isize, false);
                    Ok((displacement_operand(encoding.rm, d, false), pos + 1))
                }
            },
            Mode::MemoryModeDisplacementWide => {
                if bytes.len() < 2 || pos > bytes.len() - 2 {
                    Err(DecodeError::TruncatedStream)
                } else {
                    let data: u16 = (bytes[pos] as u16) + 256 * (bytes[pos + 1] as u16);
                    let d = parse_twos_complement_int(data as isize, true);
                    Ok((displacement_operand(encoding.rm, d, true), pos + 2))
                }
            },
            Mode::RegisterMode => {
                Ok(
                    (
                        RegisterMemory::Register(
                            register_from_field(encoding.rm, encoding.wide),
                        ),
                        pos,
                    ),
                )
            },
        }
    }
}

/// Direct-address exception: in mode 00, r/m = 110 resolves to a direct
/// address built from the two following bytes (combined little-endian and
/// sign-interpreted wide), consuming exactly those two bytes — never to a
/// BP-based operand.
pub proof fn lemma_direct_address_exception(
    encoding: RegisterMemoryEncoding,
    b: Seq<u8>,
    pos: int,
)
    requires
        encoding.mode is MemoryMode,
        encoding.rm == 6,
        0 <= pos,
        pos + 2 <= b.len(),
    ensures
        spec_resolve_register_memory(encoding, b, pos) == Ok::<(RegisterMemory, int), DecodeError>(
            (
                RegisterMemory::DirectAddress(
                    sign_value(word_value(b[pos], b[pos + 1]), true) as isize,
                ),
                pos + 2,
            ),
        ),
{
}

} // verus!
