//! The instruction model and the shared decode routines: the operand-pair
//! decoder for the register ↔ register/memory shape, the group-opcode
//! resolvers, and the immediate forms.

use vstd::prelude::*;

use crate::DecodeError;
use crate::parse_twos_complement_int;
use crate::read_byte;
use crate::read_imm;
use crate::sign_value;
use crate::spec_read_byte;
use crate::spec_read_imm;
use crate::step_matches;
use crate::registers::Mode;
use crate::registers::Register;
use crate::registers::RegisterEncoding;
use crate::registers::RegisterMemory;
use crate::registers::RegisterMemoryEncoding;
use crate::registers::SegmentRegister;
use crate::registers::spec_mode;
use crate::registers::spec_register;
use crate::registers::spec_resolve_register_memory;
use crate::registers::spec_rm_operand;
use crate::registers::spec_segment_register;

verus! {

/// The sub-operations of the unary-ALU/test group, selected by the reg field
/// of the addressing-mode byte.
#[derive(Debug, PartialEq, Eq)]
pub enum ComparisonOperator {
    NOT,
    NEG,
    MUL,
    IMUL,
    DIV,
    IDIV,
    TEST,
}

/// The unary-ALU/test group operation a reg-field value selects; the gap at
/// value 1 is an unresolved group operation, not a default.
pub open spec fn spec_comparison_operator(value: u8) -> Result<ComparisonOperator, DecodeError> {
    if value == 0 {
        Ok(ComparisonOperator::TEST)
    } else if value == 2 {
        Ok(ComparisonOperator::NOT)
    } else if value == 3 {
        Ok(ComparisonOperator::NEG)
    } else if value == 4 {
        Ok(ComparisonOperator::MUL)
    } else if value == 5 {
        Ok(ComparisonOperator::IMUL)
    } else if value == 6 {
        Ok(ComparisonOperator::DIV)
    } else if value == 7 {
        Ok(ComparisonOperator::IDIV)
    } else {
        Err(DecodeError::UnsupportedGroupEncoding)
    }
}

impl ComparisonOperator {
    /// Decode the group's 3-bit sub-operation selector.
    pub fn from_field(value: u8) -> (r: Result<ComparisonOperator, DecodeError>)
        ensures
            r == spec_comparison_operator(value),
    {
        match value {
            0 => Ok(ComparisonOperator::TEST),
            2 => Ok(ComparisonOperator::NOT),
            3 => Ok(ComparisonOperator::NEG),
            4 => Ok(ComparisonOperator::MUL),
            5 => Ok(ComparisonOperator::IMUL),
            6 => Ok(ComparisonOperator::DIV),
            7 => Ok(ComparisonOperator::IDIV),
            _ => Err(DecodeError::UnsupportedGroupEncoding),
        }
    }
}

/// The sub-operations of the shift/rotate group, selected by the reg field
/// of the addressing-mode byte.
#[derive(Debug, PartialEq, Eq)]
pub enum LogicOperator {
    SHL,
    SHR,
    SAR,
    ROL,
    ROR,
    RCL,
    RCR,
}

/// The shift/rotate operation a reg-field value selects; the gap at value 6
/// is an unresolved group operation, not a default.
pub open spec fn spec_logic_operator(value: u8) -> Result<LogicOperator, DecodeError> {
    if value == 0 {
        Ok(LogicOperator::ROL)
    } else if value == 1 {
        Ok(LogicOperator::ROR)
    } else if value == 2 {
        Ok(LogicOperator::RCL)
    } else if value == 3 {
        Ok(LogicOperator::RCR)
    } else if value == 4 {
        Ok(LogicOperator::SHL)
    } else if value == 5 {
        Ok(LogicOperator::SHR)
    } else if value == 7 {
        Ok(LogicOperator::SAR)
    } else {
        Err(DecodeError::UnsupportedGroupEncoding)
    }
}

impl LogicOperator {
    /// Decode the group's 3-bit sub-operation selector.
    pub fn from_field(value: u8) -> (r: Result<LogicOperator, DecodeError>)
        ensures
            r == spec_logic_operator(value),
    {
        match value {
            0 => Ok(LogicOperator::ROL),
            1 => Ok(LogicOperator::ROR),
            2 => Ok(LogicOperator::RCL),
            3 => Ok(LogicOperator::RCR),
            4 => Ok(LogicOperator::SHL),
            5 => Ok(LogicOperator::SHR),
            7 => Ok(LogicOperator::SAR),
            _ => Err(DecodeError::UnsupportedGroupEncoding),
        }
    }
}

/// The sub-operations of the immediate-arithmetic group, selected by the reg
/// field of the addressing-mode byte.
#[derive(Debug, PartialEq, Eq)]
pub enum ImmediateMode {
    ADD,
    OR,
    ADC,
    SBB,
    AND,
    SUB,
    XOR,
    CMP,
}

/// The immediate-arithmetic operation a reg-field value selects; every value
/// of a masked 3-bit field is defined.
pub open spec fn spec_immediate_mode(value: u8) -> Result<ImmediateMode, DecodeError> {
    if value == 0 {
        Ok(ImmediateMode::ADD)
    } else if value == 1 {
        Ok(ImmediateMode::OR)
    } else if value == 2 {
        Ok(ImmediateMode::ADC)
    } else if value == 3 {
        Ok(ImmediateMode::SBB)
    } else if value == 4 {
        Ok(ImmediateMode::AND)
    } else if value == 5 {
        Ok(ImmediateMode::SUB)
    } else if value == 6 {
        Ok(ImmediateMode::XOR)
    } else if value == 7 {
        Ok(ImmediateMode::CMP)
    } else {
        Err(DecodeError::UnsupportedGroupEncoding)
    }
}

impl ImmediateMode {
    /// Decode the group's 3-bit sub-operation selector.
    pub fn from_field(value: u8) -> (r: Result<ImmediateMode, DecodeError>)
        ensures
            r == spec_immediate_mode(value),
    {
        match value {
            0 => Ok(ImmediateMode::ADD),
            1 => Ok(ImmediateMode::OR),
            2 => Ok(ImmediateMode::ADC),
            3 => Ok(ImmediateMode::SBB),
            4 => Ok(ImmediateMode::AND),
            5 => Ok(ImmediateMode::SUB),
            6 => Ok(ImmediateMode::XOR),
            7 => Ok(ImmediateMode::CMP),
            _ => Err(DecodeError::UnsupportedGroupEncoding),
        }
    }
}

/// A resolved shift/rotate operation together with its two operands.
#[derive(Debug)]
pub struct LogicOperatorEncoding {
    pub operator: LogicOperator,
    pub dest: RegisterMemory,
    pub source: RegisterMemory,
}

/// The instruction model: one variant per mnemonic family.  Arithmetic and
/// logic operations carry a destination and a source operand; stack and
/// count operations carry a single register or segment register;
/// control-transfer operations carry a displacement or target; string and
/// I/O operations carry a width flag; the rest carry nothing.
#[allow(inconsistent_fields)]
#[derive(Debug, PartialEq, Eq)]
pub enum Mnemonic {
    CBW,
    STI,
    XLAT,
    ESC,
    LOOPNE { short_label: isize },
    LOOPE { short_label: isize },
    LOOP { short_label: isize },
    IN { dest: RegisterMemory, source: RegisterMemory },
    OUT { dest: RegisterMemory, source: RegisterMemory },
    INTO,
    IRET,
    AAM,
    AAD,
    SAR { dest: RegisterMemory, source: RegisterMemory },
    SHR { dest: RegisterMemory, source: RegisterMemory },
    SAL { dest: RegisterMemory, source: RegisterMemory },
    RCR { dest: RegisterMemory, source: RegisterMemory },
    RCL { dest: RegisterMemory, source: RegisterMemory },
    ROR { dest: RegisterMemory, source: RegisterMemory },
    ROL { dest: RegisterMemory, source: RegisterMemory },
    INT { value: isize },
    LDS { dest: RegisterMemory, source: RegisterMemory },
    LES { dest: RegisterMemory, source: RegisterMemory },
    RET { segment: Option<isize> },
    MOVS { wide: bool },
    CMPS { wide: bool },
    STOS { wide: bool },
    LODS { wide: bool },
    SCAS { wide: bool },
    WAIT,
    PUSHF,
    POPF,
    SAHF,
    LAHF,
    CWD,
    CALL { near_proc: Option<isize>, far_proc: Option<isize> },
    LEA { dest: RegisterMemory, source: RegisterMemory },
    MOV { dest: RegisterMemory, source: RegisterMemory },
    INC(Register),
    DEC(Register),
    SEGMENTOVERRIDE(SegmentRegister),
    AAS,
    AAA,
    DAA,
    DAS,
    NOP,
    PUSH(Register),
    POP(Register),
    PUSHSEG(SegmentRegister),
    POPSEG(SegmentRegister),
    XCHG { dest: RegisterMemory, source: RegisterMemory },
    TEST { dest: RegisterMemory, source: RegisterMemory },
    CMP { dest: RegisterMemory, source: RegisterMemory },
    OR { dest: RegisterMemory, source: RegisterMemory },
    ADD { dest: RegisterMemory, source: RegisterMemory },
    ADC { dest: RegisterMemory, source: RegisterMemory },
    SBB { dest: RegisterMemory, source: RegisterMemory },
    SUB { dest: RegisterMemory, source: RegisterMemory },
    XOR { dest: RegisterMemory, source: RegisterMemory },
    JMP { label: isize },
    LOCK,
    REPNE,
    REP,
    HLT,
    CMC,
    JCXZ { label: u8 },
    JO { label: u8 },
    JE { label: u8 },
    JL { label: u8 },
    JLE { label: u8 },
    JB { label: u8 },
    JBE { label: u8 },
    JP { label: u8 },
    JS { label: u8 },
    JNE { label: u8 },
    JNL { label: u8 },
    JNLE { label: u8 },
    JNB { label: u8 },
    JNBE { label: u8 },
    JNP { label: u8 },
    JNO { label: u8 },
    JNS { label: u8 },
    AND { dest: RegisterMemory, source: RegisterMemory },
    NOT { dest: RegisterMemory, source: RegisterMemory },
    NEG { dest: RegisterMemory, source: RegisterMemory },
    MUL { dest: RegisterMemory, source: RegisterMemory },
    IMUL { dest: RegisterMemory, source: RegisterMemory },
    DIV { dest: RegisterMemory, source: RegisterMemory },
    IDIV { dest: RegisterMemory, source: RegisterMemory },
    CLC,
    STC,
    CLI,
    CLD,
    STD,
}

/// The mnemonic a resolved shift/rotate operation maps to.
pub open spec fn spec_logic_mnemonic(
    operator: LogicOperator,
    dest: RegisterMemory,
    source: RegisterMemory,
) -> Mnemonic {
    match operator {
        LogicOperator::SHL => Mnemonic::SAL { dest, source },
        LogicOperator::SHR => Mnemonic::SHR { dest, source },
        LogicOperator::SAR => Mnemonic::SAR { dest, source },
        LogicOperator::ROL => Mnemonic::ROL { dest, source },
        LogicOperator::ROR => Mnemonic::ROR { dest, source },
        LogicOperator::RCL => Mnemonic::RCL { dest, source },
        LogicOperator::RCR => Mnemonic::RCR { dest, source },
    }
}

impl Mnemonic {
    /// Map a resolved shift/rotate operation to its instruction.
    pub fn from_logic_encoding(value: LogicOperatorEncoding) -> (r: Mnemonic)
        ensures
            r == spec_logic_mnemonic(value.operator, value.dest, value.source),
    {
        let LogicOperatorEncoding { operator, dest, source } = value;
        match operator {
            LogicOperator::SHL => Mnemonic::SAL { dest, source },
            LogicOperator::SHR => Mnemonic::SHR { dest, source },
            LogicOperator::SAR => Mnemonic::SAR { dest, source },
            LogicOperator::ROL => Mnemonic::ROL { dest, source },
            LogicOperator::ROR => Mnemonic::ROR { dest, source },
            LogicOperator::RCL => Mnemonic::RCL { dest, source },
            LogicOperator::RCR => Mnemonic::RCR { dest, source },
        }
    }
}

/// The mnemonic an immediate-arithmetic operation maps to, with the resolved
/// destination and the immediate source.
pub open spec fn spec_immediate_mnemonic(
    mode: ImmediateMode,
    dest: RegisterMemory,
    source: RegisterMemory,
) -> Mnemonic {
    match mode {
        ImmediateMode::ADD => Mnemonic::ADD { dest, source },
        ImmediateMode::OR => Mnemonic::OR { dest, source },
        ImmediateMode::ADC => Mnemonic::ADC { dest, source },
        ImmediateMode::SBB => Mnemonic::SBB { dest, source },
        ImmediateMode::AND => Mnemonic::AND { dest, source },
        ImmediateMode::SUB => Mnemonic::SUB { dest, source },
        ImmediateMode::XOR => Mnemonic::XOR { dest, source },
        ImmediateMode::CMP => Mnemonic::CMP { dest, source },
    }
}

/// An immediate-arithmetic operation whose destination is already resolved;
/// the immediate source of the declared width is still to be read.
pub struct ImmediateModeEncoding {
    pub mode: ImmediateMode,
    pub dest: RegisterMemory,
    pub wide: bool,
}

/// Completion of an immediate-arithmetic operation: the immediate of the
/// declared width read at `pos`, sign-interpreted at that width, attached as
/// the source operand.
pub open spec fn spec_from_immediate_encoding(
    mode: ImmediateMode,
    dest: RegisterMemory,
    wide: bool,
    b: Seq<u8>,
    pos: int,
) -> Result<(Mnemonic, int), DecodeError> {
    match spec_read_imm(b, pos, wide) {
        Err(e) => Err(e),
        Ok((v, end)) => Ok(
            (
                spec_immediate_mnemonic(
                    mode,
                    dest,
                    RegisterMemory::Immediate(sign_value(v as int, wide) as isize),
                ),
                end,
            ),
        ),
    }
}

impl Mnemonic {
    /// Read the trailing immediate of an immediate-arithmetic operation and
    /// build the instruction.  The immediate is sign-interpreted at its
    /// declared width.
    pub fn from_immediate_encoding(value: ImmediateModeEncoding, bytes: &[u8], pos: usize) -> (r:
        Result<(Mnemonic, usize), DecodeError>)
        ensures
            step_matches(
                r,
                spec_from_immediate_encoding(
                    value.mode,
                    value.dest,
                    value.wide,
                    bytes@,
                    pos as int,
                ),
            ),
    {
        let (data, end) = match read_imm(bytes, pos, value.wide) {
            Ok(v) => v,
            Err(e) => {
                return Err(e);
            },
        };
        let source = RegisterMemory::Immediate(
            parse_twos_complement_int(data as isize, value.wide),
        );
        let mnemonic = match value.mode {
            ImmediateMode::ADD => Mnemonic::ADD { dest: value.dest, source },
            ImmediateMode::OR => Mnemonic::OR { dest: value.dest, source },
            ImmediateMode::ADC => Mnemonic::ADC { dest: value.dest, source },
            ImmediateMode::SBB => Mnemonic::SBB { dest: value.dest, source },
            ImmediateMode::AND => Mnemonic::AND { dest: value.dest, source },
            ImmediateMode::SUB => Mnemonic::SUB { dest: value.dest, source },
            ImmediateMode::XOR => Mnemonic::XOR { dest: value.dest, source },
            ImmediateMode::CMP => Mnemonic::CMP { dest: value.dest, source },
        };
        Ok((mnemonic, end))
    }
}

/// The addressing mode named by the top two bits of an addressing-mode byte.
pub open spec fn modrm_mode(byte: u8) -> Mode {
    spec_mode(byte / 64)
}

/// The reg field of an addressing-mode byte (bits 3–5).
pub open spec fn modrm_reg(byte: u8) -> u8 {
    (byte / 8) % 8
}

/// The r/m field of an addressing-mode byte (bits 0–2).
pub open spec fn modrm_rm(byte: u8) -> u8 {
    byte % 8
}

/// Extract the addressing mode from an addressing-mode byte; the masked
/// field is always in range, so this never fails.
pub fn get_mode(byte: u8) -> (r: Result<Mode, DecodeError>)
    ensures
        r == Ok::<Mode, DecodeError>(modrm_mode(byte)),
{
    Mode::from_field(byte / 64)
}

/// The (destination, source) operand pair of a register ↔ register/memory
/// instruction whose addressing-mode byte stands at `pos`: the r/m side is
/// resolved through the addressing-mode resolver, the reg field names a bare
/// register, and `reversed` selects which side the reg field occupies.
pub open spec fn spec_register_memory_register(
    wide: bool,
    reversed: bool,
    b: Seq<u8>,
    pos: int,
) -> Result<((RegisterMemory, RegisterMemory), int), DecodeError> {
    match spec_read_byte(b, pos) {
        Err(e) => Err(e),
        Ok((m, p1)) => {
            let encoding = RegisterMemoryEncoding {
                rm: modrm_rm(m),
                mode: modrm_mode(m),
                wide,
            };
            match spec_resolve_register_memory(encoding, b, p1) {
                Err(e) => Err(e),
                Ok((rm_op, p2)) => {
                    let reg_op = RegisterMemory::Register(spec_register(modrm_reg(m), wide));
                    if reversed {
                        Ok(((reg_op, rm_op), p2))
                    } else {
                        Ok(((rm_op, reg_op), p2))
                    }
                },
            }
        },
    }
}

/// Decode the addressing-mode byte at `pos` and resolve the (destination,
/// source) pair for the register ↔ register/memory instruction shape.  When
/// `reversed` is false the r/m side is the destination and the reg field the
/// source; when true the roles are swapped.
pub fn register_memory_register(wide: bool, bytes: &[u8], pos: usize, reversed: bool) -> (r:
    Result<((RegisterMemory, RegisterMemory), usize), DecodeError>)
    ensures
        step_matches(r, spec_register_memory_register(wide, reversed, bytes@, pos as int)),
{
    let (data_byte, p1) = match read_byte(bytes, pos) {
        Ok(v) => v,
        Err(e) => {
            return Err(e);
        },
    };
    let mode = match get_mode(data_byte) {
        Ok(m) => m,
        Err(e) => {
            return Err(e);
        },
    };
    let rm = data_byte % 8;
    let byte = (data_byte / 8) % 8;
    let encoding = RegisterMemoryEncoding { mode, rm, wide };
    let (rm_op, p2) = match RegisterMemory::resolve(encoding, bytes, p1) {
        Ok(v) => v,
        Err(e) => {
            return Err(e);
        },
    };
    let reg_op = match RegisterMemory::from_register_encoding(RegisterEncoding { byte, wide }) {
        Ok(v) => v,
        Err(e) => {
            return Err(e);
        },
    };
    if reversed {
        Ok(((reg_op, rm_op), p2))
    } else {
        Ok(((rm_op, reg_op), p2))
    }
}

/// Read the single relative-displacement byte of a short jump.
pub fn jump(bytes: &[u8], pos: usize) -> (r: Result<(u8, usize), DecodeError>)
    ensures
        step_matches(r, spec_read_byte(bytes@, pos as int)),
{
    read_byte(bytes, pos)
}

/// An immediate-to-memory move: the addressing-mode byte at `pos` resolves
/// the destination, then an immediate of the declared width follows,
/// sign-interpreted at that width.  The byte's reg field must be zero: this
/// form has no sibling operations, so a nonzero sub-selector is an
/// unsupported encoding.
pub open spec fn spec_immediate_to_memory(wide: bool, b: Seq<u8>, pos: int) -> Result<
    (Mnemonic, int),
    DecodeError,
> {
    match spec_read_byte(b, pos) {
        Err(e) => Err(e),
        Ok((m, p1)) => if modrm_reg(m) != 0 {
            Err(DecodeError::UnsupportedGroupEncoding)
        } else {
            let encoding = RegisterMemoryEncoding {
                rm: modrm_rm(m),
                mode: modrm_mode(m),
                wide,
            };
            match spec_resolve_register_memory(encoding, b, p1) {
                Err(e) => Err(e),
                Ok((dest, p2)) => match spec_read_imm(b, p2, wide) {
                    Err(e) => Err(e),
                    Ok((v, p3)) => Ok(
                        (
                            Mnemonic::MOV {
                                dest,
                                source: RegisterMemory::Immediate(
                                    sign_value(v as int, wide) as isize,
                                ),
                            },
                            p3,
                        ),
                    ),
                },
            }
        },
    }
}

/// Decode an immediate-to-memory move: resolve the destination from the
/// addressing-mode byte (whose reg field must be zero — a nonzero
/// sub-selector is an unsupported encoding), then read the trailing
/// immediate of the declared width and sign-interpret it.
pub fn immediate_to_memory(wide: bool, bytes: &[u8], pos: usize) -> (r: Result<
    (Mnemonic, usize),
    DecodeError,
>)
    ensures
        step_matches(r, spec_immediate_to_memory(wide, bytes@, pos as int)),
{
    let (data_byte, p1) = match read_byte(bytes, pos) {
        Ok(v) => v,
        Err(e) => {
            return Err(e);
        },
    };
    if (data_byte / 8) % 8 != 0 {
        return Err(DecodeError::UnsupportedGroupEncoding);
    }
    let rm = data_byte % 8;
    let mode = match get_mode(data_byte) {
        Ok(m) => m,
        Err(e) => {
            return Err(e);
        },
    };
    let encoding = RegisterMemoryEncoding { mode, rm, wide };
    let (dest, p2) = match RegisterMemory::resolve(encoding, bytes, p1) {
        Ok(v) => v,
        Err(e) => {
            return Err(e);
        },
    };
    let (data, p3) = match read_imm(bytes, p2, wide) {
        Ok(v) => v,
        Err(e) => {
            return Err(e);
        },
    };
    let operand = parse_twos_complement_int(data as isize, wide);
    Ok((Mnemonic::MOV { dest, source: RegisterMemory::Immediate(operand) }, p3))
}

/// An immediate-arithmetic group instruction: the addressing-mode byte's reg
/// field selects the operation, its mode and r/m fields resolve the
/// destination at the register width, and an immediate of the immediate
/// width follows, sign-interpreted.
pub open spec fn spec_immediate_to_register(
    register_wide: bool,
    immediate_wide: bool,
    b: Seq<u8>,
    pos: int,
) -> Result<(Mnemonic, int), DecodeError> {
    match spec_read_byte(b, pos) {
        Err(e) => Err(e),
        Ok((m, p1)) => match spec_immediate_mode(modrm_reg(m)) {
            Err(e) => Err(e),
            Ok(mode) => {
                let encoding = RegisterMemoryEncoding {
                    rm: modrm_rm(m),
                    mode: modrm_mode(m),
                    wide: register_wide,
                };
                match spec_resolve_register_memory(encoding, b, p1) {
                    Err(e) => Err(e),
                    Ok((dest, p2)) => spec_from_immediate_encoding(
                        mode,
                        dest,
                        immediate_wide,
                        b,
                        p2,
                    ),
                }
            },
        },
    }
}

/// Decode an immediate-arithmetic group instruction.  The reg field of the
/// addressing-mode byte selects among the eight arithmetic/logic operations;
/// the destination resolves at `register_wide`, the trailing immediate is
/// read at `immediate_wide` and sign-interpreted.
pub fn immediate_to_register(
    register_wide: bool,
    immediate_wide: bool,
    bytes: &[u8],
    pos: usize,
) -> (r: Result<(Mnemonic, usize), DecodeError>)
    ensures
        step_matches(
            r,
            spec_immediate_to_register(register_wide, immediate_wide, bytes@, pos as int),
        ),
{
    let (data_byte, p1) = match read_byte(bytes, pos) {
        Ok(v) => v,
        Err(e) => {
            return Err(e);
        },
    };
    let mode = match get_mode(data_byte) {
        Ok(m) => m,
        Err(e) => {
            return Err(e);
        },
    };
    let rm = data_byte % 8;
    let byte = (data_byte / 8) % 8;
    let immediate = match ImmediateMode::from_field(byte) {
        Ok(v) => v,
        Err(e) => {
            return Err(e);
        },
    };
    let encoding = RegisterMemoryEncoding { mode, rm, wide: register_wide };
    let (dest, p2) = match RegisterMemory::resolve(encoding, bytes, p1) {
        Ok(v) => v,
        Err(e) => {
            return Err(e);
        },
    };
    let im_encoding = ImmediateModeEncoding { dest, mode: immediate, wide: immediate_wide };
    Mnemonic::from_immediate_encoding(im_encoding, bytes, p2)
}

/// The slot for the register/memory pop form: that encoding is not decoded
/// and is reported as an unsupported opcode.
pub fn pop(wide: bool, bytes: &[u8], pos: usize) -> (r: Result<(Mnemonic, usize), DecodeError>)
    ensures
        r == Err::<(Mnemonic, usize), DecodeError>(DecodeError::UnsupportedOpcode),
{
    let _ = wide;
    let _ = bytes;
    let _ = pos;
    Err(DecodeError::UnsupportedOpcode)
}

/// The slot for the far-call form: its pointer operand's encoding is not
/// decoded, and decoding it partially would leave the pointer bytes to be
/// re-read as instructions, so the slot is reported as an unsupported
/// opcode.
pub fn call(bytes: &[u8], pos: usize) -> (r: Result<(Mnemonic, usize), DecodeError>)
    ensures
        r == Err::<(Mnemonic, usize), DecodeError>(DecodeError::UnsupportedOpcode),
{
    let _ = bytes;
    let _ = pos;
    Err(DecodeError::UnsupportedOpcode)
}

/// A shift/rotate group instruction: the addressing-mode byte's reg field
/// selects the operation (value 6 is an unresolved group operation), its
/// mode and r/m fields resolve the destination, and the given `source`
/// carries the shift count.
pub open spec fn spec_logic_register_memory(
    wide: bool,
    source: RegisterMemory,
    b: Seq<u8>,
    pos: int,
) -> Result<(Mnemonic, int), DecodeError> {
    match spec_read_byte(b, pos) {
        Err(e) => Err(e),
        Ok((m, p1)) => match spec_logic_operator(modrm_reg(m)) {
            Err(e) => Err(e),
            Ok(operator) => {
                let encoding = RegisterMemoryEncoding {
                    rm: modrm_rm(m),
                    mode: modrm_mode(m),
                    wide,
                };
                match spec_resolve_register_memory(encoding, b, p1) {
                    Err(e) => Err(e),
                    Ok((dest, p2)) => Ok((spec_logic_mnemonic(operator, dest, source), p2)),
                }
            },
        },
    }
}

/// Decode a shift/rotate group instruction.  The reg field selects the
/// operation before the destination operand is resolved; `source` carries
/// the shift count (an immediate 1 or the CL register).
pub fn logic_register_memory(bytes: &[u8], pos: usize, wide: bool, source: RegisterMemory) -> (r:
    Result<(Mnemonic, usize), DecodeError>)
    ensures
        step_matches(r, spec_logic_register_memory(wide, source, bytes@, pos as int)),
{
    let (data_byte, p1) = match read_byte(bytes, pos) {
        Ok(v) => v,
        Err(e) => {
            return Err(e);
        },
    };
    let mode = match get_mode(data_byte) {
        Ok(m) => m,
        Err(e) => {
            return Err(e);
        },
    };
    let rm = data_byte % 8;
    let operation = (data_byte / 8) % 8;
    let operator = match LogicOperator::from_field(operation) {
        Ok(v) => v,
        Err(e) => {
            return Err(e);
        },
    };
    let encoding = RegisterMemoryEncoding { mode, rm, wide };
    let (dest, p2) = match RegisterMemory::resolve(encoding, bytes, p1) {
        Ok(v) => v,
        Err(e) => {
            return Err(e);
        },
    };
    Ok((Mnemonic::from_logic_encoding(LogicOperatorEncoding { operator, dest, source }), p2))
}

/// A segment-register transfer: the addressing-mode byte's reg field names a
/// segment register (a value above 3 is an invalid field encoding), its mode
/// and r/m fields resolve the other side.  The pair is returned in
/// (destination, source) order; `reversed` makes the r/m side the
/// destination, otherwise the segment register is.
pub open spec fn spec_register_memory_segment(
    wide: bool,
    reversed: bool,
    b: Seq<u8>,
    pos: int,
) -> Result<((RegisterMemory, RegisterMemory), int), DecodeError> {
    match spec_read_byte(b, pos) {
        Err(e) => Err(e),
        Ok((m, p1)) => {
            if modrm_reg(m) > 3 {
                Err(DecodeError::InvalidFieldEncoding)
            } else {
                let seg_op = RegisterMemory::SegmentRegister(spec_segment_register(modrm_reg(m)));
                let encoding = RegisterMemoryEncoding {
                    rm: modrm_rm(m),
                    mode: modrm_mode(m),
                    wide,
                };
                match spec_resolve_register_memory(encoding, b, p1) {
                    Err(e) => Err(e),
                    Ok((rm_op, p2)) => {
                        if reversed {
                            Ok(((rm_op, seg_op), p2))
                        } else {
                            Ok(((seg_op, rm_op), p2))
                        }
                    },
                }
            }
        },
    }
}

/// Decode the operand pair of a segment-register transfer, returned in
/// (destination, source) order.  When `reversed` the r/m side is the
/// destination; otherwise the segment register is.
pub fn register_memory_segment(wide: bool, bytes: &[u8], pos: usize, reversed: bool) -> (r:
    Result<((RegisterMemory, RegisterMemory), usize), DecodeError>)
    ensures
        step_matches(r, spec_register_memory_segment(wide, reversed, bytes@, pos as int)),
{
    let (data_byte, p1) = match read_byte(bytes, pos) {
        Ok(v) => v,
        Err(e) => {
            return Err(e);
        },
    };
    let mode = match get_mode(data_byte) {
        Ok(m) => m,
        Err(e) => {
            return Err(e);
        },
    };
    let rm = data_byte % 8;
    let segment = match SegmentRegister::from_field((data_byte / 8) % 8) {
        Ok(v) => v,
        Err(e) => {
            return Err(e);
        },
    };
    let seg_op = RegisterMemory::SegmentRegister(segment);
    let encoding = RegisterMemoryEncoding { mode, rm, wide };
    let (rm_op, p2) = match RegisterMemory::resolve(encoding, bytes, p1) {
        Ok(v) => v,
        Err(e) => {
            return Err(e);
        },
    };
    if reversed {
        Ok(((rm_op, seg_op), p2))
    } else {
        Ok(((seg_op, rm_op), p2))
    }
}

/// The operand-pair decoder consumes the addressing-mode byte and at most
/// the stream's remainder: on success the new position lies past that byte
/// and within the stream.
pub proof fn lemma_register_memory_register_bounds(
    wide: bool,
    reversed: bool,
    b: Seq<u8>,
    pos: int,
)
    ensures
        spec_register_memory_register(wide, reversed, b, pos) matches Ok((_, end)) ==> pos + 1
            <= end <= b.len(),
{
}

/// The immediate-arithmetic decoder consumes the addressing-mode byte and at
/// most the stream's remainder.
pub proof fn lemma_immediate_to_register_bounds(
    register_wide: bool,
    immediate_wide: bool,
    b: Seq<u8>,
    pos: int,
)
    ensures
        spec_immediate_to_register(register_wide, immediate_wide, b, pos) matches Ok((_, end))
            ==> pos + 1 <= end <= b.len(),
{
}

/// The immediate-to-memory decoder consumes the addressing-mode byte and at
/// most the stream's remainder.
pub proof fn lemma_immediate_to_memory_bounds(wide: bool, b: Seq<u8>, pos: int)
    ensures
        spec_immediate_to_memory(wide, b, pos) matches Ok((_, end)) ==> pos + 1 <= end <= b.len(),
{
}

/// The shift/rotate group decoder consumes the addressing-mode byte and at
/// most the stream's remainder.
pub proof fn lemma_logic_register_memory_bounds(
    wide: bool,
    source: RegisterMemory,
    b: Seq<u8>,
    pos: int,
)
    ensures
        spec_logic_register_memory(wide, source, b, pos) matches Ok((_, end)) ==> pos + 1 <= end
            <= b.len(),
{
}

/// Reversed-operand convention: on the same bytes, the reversed form of the
/// register ↔ register/memory shape resolves exactly the operands of the
/// plain form with destination and source swapped; both consume the same
/// bytes and fail alike.  In the plain form the r/m side is the destination
/// and the reg field is the source.
pub proof fn lemma_reversed_swaps_operands(wide: bool, b: Seq<u8>, pos: int)
    ensures
        (match (
            spec_register_memory_register(wide, false, b, pos),
            spec_register_memory_register(wide, true, b, pos),
        ) {
            (Ok(((d1, s1), e1)), Ok(((d2, s2), e2))) => d1 == s2 && s1 == d2 && e1 == e2,
            (Err(e1), Err(e2)) => e1 == e2,
            _ => false,
        }),
        spec_register_memory_register(wide, false, b, pos) matches Ok(((d, s), e)) ==> {
            &&& d == spec_rm_operand(
                modrm_mode(b[pos]),
                modrm_rm(b[pos]),
                wide,
                b,
                pos + 1,
            )
            &&& s == RegisterMemory::Register(spec_register(modrm_reg(b[pos]), wide))
        },
{
}

} // verus!
