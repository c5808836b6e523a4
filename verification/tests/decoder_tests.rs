use computer_enhance::DecodeError;
use computer_enhance::instructions::ComparisonOperator;
use computer_enhance::instructions::ImmediateMode;
use computer_enhance::instructions::LogicOperator;
use computer_enhance::instructions::Mnemonic;
use computer_enhance::instructions::get_mode;
use computer_enhance::instructions::immediate_to_memory;
use computer_enhance::instructions::jump;
use computer_enhance::instructions::pop;
use computer_enhance::instructions::call;
use computer_enhance::instructions::register_memory_register;
use computer_enhance::instructions::register_memory_segment;
use computer_enhance::opcodes::decode_instruction;
use computer_enhance::opcodes::decode_stream;
use computer_enhance::parse_twos_complement_int;
use computer_enhance::registers::Mode;
use computer_enhance::registers::Register;
use computer_enhance::registers::RegisterEncoding;
use computer_enhance::registers::RegisterMemory;
use computer_enhance::registers::SegmentRegister;

#[test]
fn test_sign_interpretation_narrow_boundaries() {
    assert_eq!(parse_twos_complement_int(0, false), 0);
    assert_eq!(parse_twos_complement_int(127, false), 127);
    assert_eq!(parse_twos_complement_int(128, false), -128);
    assert_eq!(parse_twos_complement_int(255, false), -1);
}

#[test]
fn test_sign_interpretation_wide_boundaries() {
    assert_eq!(parse_twos_complement_int(0, true), 0);
    assert_eq!(parse_twos_complement_int(32767, true), 32767);
    assert_eq!(parse_twos_complement_int(32768, true), -32768);
    assert_eq!(parse_twos_complement_int(65535, true), -1);
    assert_eq!(parse_twos_complement_int(255, true), 255);
}

#[test]
fn test_decode_is_repeatable() {
    let binary: Vec<u8> = vec![0b10001011, 0b01000001, 0b11011011, 0x40];
    let first = decode_instruction(&binary, 0).unwrap();
    let second = decode_instruction(&binary, 0).unwrap();
    assert_eq!(first, second);
    assert_eq!(first.1, 3);
}

#[test]
fn test_direct_address_exception_narrow() {
    // Mode 00, r/m 110 with a narrow width flag still consumes two address
    // bytes and combines them little-endian — it is not "BP, no displacement".
    // The byte-wide store makes the direct address the destination.
    let binary: Vec<u8> = vec![0b10001000, 0b00000110, 0x34, 0x12];
    let (instruction, end) = decode_instruction(&binary, 0).unwrap();
    assert_eq!(
        instruction,
        Mnemonic::MOV {
            dest: RegisterMemory::DirectAddress(4660),
            source: RegisterMemory::Register(Register::AL),
        }
    );
    assert_eq!(end, 4);
}

#[test]
fn test_direct_address_sign_interpretation() {
    let binary: Vec<u8> = vec![0b10001011, 0b00101110, 0x00, 0x80];
    let (instruction, end) = decode_instruction(&binary, 0).unwrap();
    assert_eq!(
        instruction,
        Mnemonic::MOV {
            dest: RegisterMemory::Register(Register::BP),
            source: RegisterMemory::DirectAddress(-32768),
        }
    );
    assert_eq!(end, 4);
}

#[test]
fn test_group_dispatch_shift_by_one_length() {
    let binary: Vec<u8> = vec![0b11010001, 0b00010100];
    let (instruction, end) = decode_instruction(&binary, 0).unwrap();
    assert_eq!(
        instruction,
        Mnemonic::RCL {
            dest: RegisterMemory::Register(Register::SI),
            source: RegisterMemory::Immediate(1),
        }
    );
    assert_eq!(end, 2);
}

#[test]
fn test_conditional_jump_consumes_one_byte() {
    let binary: Vec<u8> = vec![0b01110000, 0b00000001];
    let (instruction, end) = decode_instruction(&binary, 0).unwrap();
    assert_eq!(instruction, Mnemonic::JO { label: 1 });
    assert_eq!(end, 2);

    let binary: Vec<u8> = vec![0b01110101, 0xFF];
    let (instruction, end) = decode_instruction(&binary, 0).unwrap();
    assert_eq!(instruction, Mnemonic::JNE { label: 255 });
    assert_eq!(end, 2);
}

#[test]
fn test_reversed_operand_convention_swaps_pair() {
    let trailing: Vec<u8> = vec![0b00000000];
    let ((dest, source), end) = register_memory_register(true, &trailing, 0, false).unwrap();
    assert_eq!(dest, RegisterMemory::CombineRegisters(Register::BX, Register::SI));
    assert_eq!(source, RegisterMemory::Register(Register::AX));
    assert_eq!(end, 1);
    let ((dest_r, source_r), end_r) = register_memory_register(true, &trailing, 0, true).unwrap();
    assert_eq!(dest_r, source);
    assert_eq!(source_r, dest);
    assert_eq!(end_r, end);
}

#[test]
fn test_accumulator_immediate_consumes_one_byte() {
    let binary: Vec<u8> = vec![0b00000100, 0b01000101];
    let (instruction, end) = decode_instruction(&binary, 0).unwrap();
    assert_eq!(
        instruction,
        Mnemonic::ADD {
            dest: RegisterMemory::Register(Register::AL),
            source: RegisterMemory::Immediate(69),
        }
    );
    assert_eq!(end, 2);
}

#[test]
fn test_truncated_stream_is_reported() {
    let empty: Vec<u8> = vec![];
    assert_eq!(decode_instruction(&empty, 0), Err(DecodeError::TruncatedStream));
    // An addressing-mode byte is promised but missing.
    let binary: Vec<u8> = vec![0b00000001];
    assert_eq!(decode_instruction(&binary, 0), Err(DecodeError::TruncatedStream));
    // A wide immediate is cut short.
    let binary: Vec<u8> = vec![0b10111000, 0x01];
    assert_eq!(decode_instruction(&binary, 0), Err(DecodeError::TruncatedStream));
    // A promised displacement never arrives.
    let binary: Vec<u8> = vec![0b10001011, 0b01000001];
    assert_eq!(decode_instruction(&binary, 0), Err(DecodeError::TruncatedStream));
}

#[test]
fn test_unsupported_opcodes_are_reported() {
    for opcode in [0x60u8, 0x6F, 0x8D, 0x90, 0x9A, 0xC0, 0xC8, 0xD6, 0xF1, 0xF6, 0xFE, 0xFF] {
        let binary: Vec<u8> = vec![opcode, 0x00];
        assert_eq!(decode_instruction(&binary, 0), Err(DecodeError::UnsupportedOpcode));
    }
}

#[test]
fn test_unresolved_group_operation_is_reported() {
    // Shift/rotate group with reg field 110: a gap in the group table.
    let binary: Vec<u8> = vec![0b11010000, 0b00110000];
    assert_eq!(decode_instruction(&binary, 0), Err(DecodeError::UnsupportedGroupEncoding));
}

#[test]
fn test_invalid_field_encodings_are_reported() {
    assert_eq!(Mode::from_field(4), Err(DecodeError::InvalidFieldEncoding));
    assert_eq!(SegmentRegister::from_field(5), Err(DecodeError::InvalidFieldEncoding));
    assert_eq!(
        RegisterMemory::from_register_encoding(RegisterEncoding { byte: 8, wide: true }),
        Err(DecodeError::InvalidFieldEncoding)
    );
    // A segment transfer whose reg field exceeds the four segment registers.
    let binary: Vec<u8> = vec![0b00100000];
    assert_eq!(
        register_memory_segment(true, &binary, 0, false),
        Err(DecodeError::InvalidFieldEncoding)
    );
}

#[test]
fn test_segment_transfer_pair_order() {
    // The pair comes back in (destination, source) order; without the
    // reversed flag the segment register is the destination.
    let binary: Vec<u8> = vec![0b00011100];
    let ((dest, source), end) = register_memory_segment(true, &binary, 0, false).unwrap();
    assert_eq!(dest, RegisterMemory::SegmentRegister(SegmentRegister::DS));
    assert_eq!(source, RegisterMemory::Register(Register::SI));
    assert_eq!(end, 1);
    let ((dest_r, source_r), _) = register_memory_segment(true, &binary, 0, true).unwrap();
    assert_eq!(dest_r, RegisterMemory::Register(Register::SI));
    assert_eq!(source_r, RegisterMemory::SegmentRegister(SegmentRegister::DS));
}

#[test]
fn test_decode_stream_collects_instructions() {
    let binary: Vec<u8> = vec![0b01000000, 0b10010001, 0b00000100, 0b01000101];
    let instructions = decode_stream(&binary).unwrap();
    assert_eq!(
        instructions,
        vec![
            Mnemonic::INC(Register::AX),
            Mnemonic::NOP,
            Mnemonic::ADD {
                dest: RegisterMemory::Register(Register::AL),
                source: RegisterMemory::Immediate(69),
            },
        ]
    );
}

#[test]
fn test_decode_stream_reports_offset() {
    let binary: Vec<u8> = vec![0b01000000, 0b01100000];
    assert_eq!(decode_stream(&binary), Err((DecodeError::UnsupportedOpcode, 1)));
    let binary: Vec<u8> = vec![0b01000000, 0b00000001];
    assert_eq!(decode_stream(&binary), Err((DecodeError::TruncatedStream, 1)));
}

#[test]
fn test_group_operator_tables() {
    assert_eq!(ComparisonOperator::from_field(0), Ok(ComparisonOperator::TEST));
    assert_eq!(ComparisonOperator::from_field(7), Ok(ComparisonOperator::IDIV));
    assert_eq!(
        ComparisonOperator::from_field(1),
        Err(DecodeError::UnsupportedGroupEncoding)
    );
    assert_eq!(LogicOperator::from_field(4), Ok(LogicOperator::SHL));
    assert_eq!(LogicOperator::from_field(6), Err(DecodeError::UnsupportedGroupEncoding));
    assert_eq!(ImmediateMode::from_field(7), Ok(ImmediateMode::CMP));
    assert_eq!(ImmediateMode::from_field(8), Err(DecodeError::UnsupportedGroupEncoding));
}

#[test]
fn test_single_byte_register_forms() {
    let binary: Vec<u8> = vec![0b01000011];
    assert_eq!(decode_instruction(&binary, 0), Ok((Mnemonic::INC(Register::BX), 1)));
    let binary: Vec<u8> = vec![0b01001111];
    assert_eq!(decode_instruction(&binary, 0), Ok((Mnemonic::DEC(Register::DI), 1)));
    let binary: Vec<u8> = vec![0b01010101];
    assert_eq!(decode_instruction(&binary, 0), Ok((Mnemonic::PUSH(Register::BP), 1)));
    let binary: Vec<u8> = vec![0b01011001];
    assert_eq!(decode_instruction(&binary, 0), Ok((Mnemonic::POP(Register::CX), 1)));
}

#[test]
fn test_no_trailing_byte_forms() {
    let binary: Vec<u8> = vec![0b10010001];
    assert_eq!(decode_instruction(&binary, 0), Ok((Mnemonic::NOP, 1)));
    let binary: Vec<u8> = vec![0b11001011];
    assert_eq!(decode_instruction(&binary, 0), Ok((Mnemonic::RET { segment: None }, 1)));
    let binary: Vec<u8> = vec![0b00000110];
    assert_eq!(decode_instruction(&binary, 0), Ok((Mnemonic::PUSHSEG(SegmentRegister::ES), 1)));
    let binary: Vec<u8> = vec![0b00101110];
    assert_eq!(
        decode_instruction(&binary, 0),
        Ok((Mnemonic::SEGMENTOVERRIDE(SegmentRegister::CS), 1))
    );
}

#[test]
fn test_decode_helpers_directly() {
    let binary: Vec<u8> = vec![0b00000001, 0xAB];
    assert_eq!(jump(&binary, 1), Ok((0xAB, 2)));
    assert_eq!(get_mode(0b11010001), Ok(Mode::RegisterMode));
    assert_eq!(get_mode(0b01000000), Ok(Mode::MemoryModeDisplacement));
    assert_eq!(pop(true, &binary, 0), Err(DecodeError::UnsupportedOpcode));
    assert_eq!(call(&binary, 1), Err(DecodeError::UnsupportedOpcode));
}

#[test]
fn test_immediate_to_memory_forms() {
    // Narrow immediate into [BX + SI] with no displacement.
    let binary: Vec<u8> = vec![0b00000000, 0xFF];
    let (instruction, end) = immediate_to_memory(false, &binary, 0).unwrap();
    assert_eq!(
        instruction,
        Mnemonic::MOV {
            dest: RegisterMemory::CombineRegisters(Register::BX, Register::SI),
            source: RegisterMemory::Immediate(-1),
        }
    );
    assert_eq!(end, 2);
    // Wide immediate into a direct address.
    let binary: Vec<u8> = vec![0b00000110, 0x10, 0x00, 0x2C, 0x01];
    let (instruction, end) = immediate_to_memory(true, &binary, 0).unwrap();
    assert_eq!(
        instruction,
        Mnemonic::MOV {
            dest: RegisterMemory::DirectAddress(16),
            source: RegisterMemory::Immediate(300),
        }
    );
    assert_eq!(end, 5);
}

#[test]
fn test_mov_register_from_register_memory_narrow() {
    // 0x8A is the byte-wide MOV: its operands resolve as narrow registers.
    let binary: Vec<u8> = vec![0b10001010, 0b11001000];
    let (instruction, end) = decode_instruction(&binary, 0).unwrap();
    assert_eq!(
        instruction,
        Mnemonic::MOV {
            dest: RegisterMemory::Register(Register::CL),
            source: RegisterMemory::Register(Register::AL),
        }
    );
    assert_eq!(end, 2);
    // In a displacement mode the memory operand comes out as the narrow
    // displacement variant.
    let binary: Vec<u8> = vec![0b10001010, 0b01000001, 0b00000101];
    let (instruction, end) = decode_instruction(&binary, 0).unwrap();
    assert_eq!(
        instruction,
        Mnemonic::MOV {
            dest: RegisterMemory::Register(Register::AL),
            source: RegisterMemory::CombineRegistersData(Register::BX, Register::DI, 5),
        }
    );
    assert_eq!(end, 3);
}

#[test]
fn test_or_reversed_sibling_swaps() {
    // The reversed sibling of the wide OR form puts the reg field on the
    // destination side, like every other family.
    let binary: Vec<u8> = vec![0b00001011, 0b00000000];
    let (instruction, end) = decode_instruction(&binary, 0).unwrap();
    assert_eq!(
        instruction,
        Mnemonic::OR {
            dest: RegisterMemory::Register(Register::AX),
            source: RegisterMemory::CombineRegisters(Register::BX, Register::SI),
        }
    );
    assert_eq!(end, 2);
}

#[test]
fn test_mov_store_form_is_not_reversed() {
    // The byte-wide store makes the r/m side the destination.
    let binary: Vec<u8> = vec![0b10001000, 0b11001000];
    let (instruction, end) = decode_instruction(&binary, 0).unwrap();
    assert_eq!(
        instruction,
        Mnemonic::MOV {
            dest: RegisterMemory::Register(Register::AL),
            source: RegisterMemory::Register(Register::CL),
        }
    );
    assert_eq!(end, 2);
}

#[test]
fn test_intersegment_return_reads_immediate() {
    let binary: Vec<u8> = vec![0b11001010, 0x05, 0x00];
    assert_eq!(
        decode_instruction(&binary, 0),
        Ok((Mnemonic::RET { segment: Some(5) }, 3))
    );
    let binary: Vec<u8> = vec![0b11001010, 0x05];
    assert_eq!(decode_instruction(&binary, 0), Err(DecodeError::TruncatedStream));
}

#[test]
fn test_immediate_to_memory_rejects_sub_selector() {
    // The move-immediate form has no sibling operations: a nonzero reg field
    // is an unsupported encoding, not ignored.
    let binary: Vec<u8> = vec![0b00001000, 0xFF];
    assert_eq!(
        immediate_to_memory(false, &binary, 0),
        Err(DecodeError::UnsupportedGroupEncoding)
    );
    let binary: Vec<u8> = vec![0b11000110, 0b00001000, 0xFF];
    assert_eq!(
        decode_instruction(&binary, 0),
        Err(DecodeError::UnsupportedGroupEncoding)
    );
}

#[test]
fn test_immediate_group_sign_interpretation() {
    // A narrow immediate of 0xFF means -1 once sign-interpreted.
    let binary: Vec<u8> = vec![0b10000000, 0b11000001, 0xFF];
    let (instruction, end) = decode_instruction(&binary, 0).unwrap();
    assert_eq!(
        instruction,
        Mnemonic::ADD {
            dest: RegisterMemory::Register(Register::CL),
            source: RegisterMemory::Immediate(-1),
        }
    );
    assert_eq!(end, 3);
}
