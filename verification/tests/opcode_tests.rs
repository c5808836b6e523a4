use computer_enhance::instructions::Mnemonic;
use computer_enhance::opcodes::decode_instruction;
use computer_enhance::registers::Register;
use computer_enhance::registers::RegisterMemory;

#[test]
fn test_logical_operators() {
    let binary: Vec<u8> = vec![0b11010001, 0b00010100];
    let (instruction, _) = decode_instruction(&binary, 0).unwrap();
    assert_eq!(
        instruction,
        Mnemonic::RCL {
            dest: RegisterMemory::Register(Register::SI),
            source: RegisterMemory::Immediate(1)
        }
    );
}

#[test]
fn test_jcxz() {
    let binary: Vec<u8> = vec![0b11100011, 0b00000001];
    let (instruction, _) = decode_instruction(&binary, 0).unwrap();
    assert_eq!(instruction, Mnemonic::JCXZ { label: 1 });
}

#[test]
fn test_add_reg_mem_16_to_immediate8() {
    let binary: Vec<u8> = vec![0b10000011, 0b11000110, 0b00000010];
    let (instruction, _) = decode_instruction(&binary, 0).unwrap();
    assert_eq!(
        instruction,
        Mnemonic::ADD {
            dest: RegisterMemory::Register(Register::SI),
            source: RegisterMemory::Immediate(2)
        }
    );
}

#[test]
fn test_mov_accumulator() {
    let binary: Vec<u8> = vec![0b10100001, 0b11111011, 0b00001001];
    let (instruction, _) = decode_instruction(&binary, 0).unwrap();
    assert_eq!(
        instruction,
        Mnemonic::MOV {
            dest: RegisterMemory::Register(Register::AX),
            source: RegisterMemory::Immediate(2555)
        }
    );
    let binary: Vec<u8> = vec![0b10100001, 0b00010000, 0b00000000];
    let (instruction, _) = decode_instruction(&binary, 0).unwrap();
    assert_eq!(
        instruction,
        Mnemonic::MOV {
            dest: RegisterMemory::Register(Register::AX),
            source: RegisterMemory::Immediate(16)
        }
    );
}

#[test]
fn test_mov_immediates() {
    let binary: Vec<u8> = vec![0b10001011, 0b00101110, 0b00000101, 0b00000000];
    let (instruction, _) = decode_instruction(&binary, 0).unwrap();
    assert_eq!(
        instruction,
        Mnemonic::MOV {
            dest: RegisterMemory::Register(Register::BP),
            source: RegisterMemory::DirectAddress(5)
        }
    );
    let binary: Vec<u8> = vec![0b10001011, 0b00011110, 0b10000010, 0b00001101];
    let (instruction, _) = decode_instruction(&binary, 0).unwrap();
    assert_eq!(
        instruction,
        Mnemonic::MOV {
            dest: RegisterMemory::Register(Register::BX),
            source: RegisterMemory::DirectAddress(3458)
        }
    );
}

#[test]
fn test_signed_displacements() {
    let binary: Vec<u8> = vec![0b10001011, 0b01000001, 0b11011011];
    let (instruction, _) = decode_instruction(&binary, 0).unwrap();
    assert_eq!(
        instruction,
        Mnemonic::MOV {
            dest: RegisterMemory::Register(Register::AX),
            source: RegisterMemory::CombineRegistersData(Register::BX, Register::DI, -37)
        }
    );
    let binary: Vec<u8> = vec![0b10001001, 0b10001100, 0b11010100, 0b11111110];
    let (instruction, _) = decode_instruction(&binary, 0).unwrap();
    assert_eq!(
        instruction,
        Mnemonic::MOV {
            dest: RegisterMemory::RegisterDataWide(Register::SI, -300),
            source: RegisterMemory::Register(Register::CX),
        }
    );
    let binary: Vec<u8> = vec![0b10001011, 0b01010111, 0b11100000];
    let (instruction, _) = decode_instruction(&binary, 0).unwrap();
    assert_eq!(
        instruction,
        Mnemonic::MOV {
            dest: RegisterMemory::Register(Register::DX),
            source: RegisterMemory::RegisterData(Register::BX, -32),
        }
    );
}

#[test]
fn test_immediate_to_al() {
    let binary: Vec<u8> = vec![0b10100000, 0b01000101];
    let (instruction, _) = decode_instruction(&binary, 0).unwrap();
    assert_eq!(
        instruction,
        Mnemonic::MOV {
            dest: RegisterMemory::Register(Register::AL),
            source: RegisterMemory::Immediate(69)
        }
    )
}

#[test]
fn test_immediate_to_register_wide() {
    let binary: Vec<u8> = vec![0b10000001, 0b11001001, 0b00100110, 0b00000000];
    let (instruction, _) = decode_instruction(&binary, 0).unwrap();
    assert_eq!(
        instruction,
        Mnemonic::OR {
            dest: RegisterMemory::Register(Register::CX),
            source: RegisterMemory::Immediate(38)
        }
    )
}

#[test]
fn test_immediate_to_register() {
    let binary: Vec<u8> = vec![0b10000000, 0b11000001, 0b00100110];
    let (instruction, _) = decode_instruction(&binary, 0).unwrap();
    assert_eq!(
        instruction,
        Mnemonic::ADD {
            dest: RegisterMemory::Register(Register::CL),
            source: RegisterMemory::Immediate(38)
        }
    )
}

#[test]
fn test_or_register_memory_register() {
    let binary: Vec<u8> = vec![0b00001000, 0b00000100];
    let (instruction, _) = decode_instruction(&binary, 0).unwrap();
    assert_eq!(
        instruction,
        Mnemonic::OR {
            dest: RegisterMemory::Register(Register::SI),
            source: RegisterMemory::Register(Register::AL),
        }
    );
}

#[test]
fn test_or_register_memory_register_displacement() {
    let binary: Vec<u8> = vec![0b00001000, 0b01000001, 0b01000101];
    let (instruction, _) = decode_instruction(&binary, 0).unwrap();
    assert_eq!(
        instruction,
        Mnemonic::OR {
            dest: RegisterMemory::CombineRegistersData(Register::BX, Register::DI, 69),
            source: RegisterMemory::Register(Register::AL),
        }
    );
}

#[test]
fn test_add_immediate() {
    let binary: Vec<u8> = vec![0b00000100, 0b01000101];
    let (instruction, _) = decode_instruction(&binary, 0).unwrap();
    assert_eq!(
        instruction,
        Mnemonic::ADD {
            dest: RegisterMemory::Register(Register::AL),
            source: RegisterMemory::Immediate(69),
        }
    );
}

#[test]
fn test_add_immediate_wide() {
    let binary: Vec<u8> = vec![0b00000101, 0b00000000, 0b00000010];
    let (instruction, _) = decode_instruction(&binary, 0).unwrap();
    println!("{:?}", instruction);
    assert_eq!(
        instruction,
        Mnemonic::ADD {
            dest: RegisterMemory::Register(Register::AX),
            source: RegisterMemory::Immediate(512),
        }
    );
}

#[test]
fn test_add_register_memory() {
    let binary: Vec<u8> = vec![0b00000001, 0b00000000];
    let (instruction, _) = decode_instruction(&binary, 0).unwrap();
    assert_eq!(
        instruction,
        Mnemonic::ADD {
            dest: RegisterMemory::CombineRegisters(Register::BX, Register::SI),
            source: RegisterMemory::Register(Register::AX)
        }
    );
}

#[test]
fn test_add_register_memory_reverse_wide() {
    let binary: Vec<u8> = vec![0b00000011, 0b00000000];
    let (instruction, _) = decode_instruction(&binary, 0).unwrap();
    assert_eq!(
        instruction,
        Mnemonic::ADD {
            dest: RegisterMemory::Register(Register::AX),
            source: RegisterMemory::CombineRegisters(Register::BX, Register::SI),
        }
    );
}

#[test]
fn test_add_register_memory_displacement() {
    let binary: Vec<u8> = vec![0b00000000, 0b01000000, 0b01000101];
    let (instruction, _) = decode_instruction(&binary, 0).unwrap();
    assert_eq!(
        instruction,
        Mnemonic::ADD {
            dest: RegisterMemory::CombineRegistersData(Register::BX, Register::SI, 69),
            source: RegisterMemory::Register(Register::AL)
        }
    );
}

#[test]
fn test_add_register_memory_displacement_reverse() {
    let binary: Vec<u8> = vec![0b00000010, 0b01000000, 0b01000101];
    let (instruction, _) = decode_instruction(&binary, 0).unwrap();
    assert_eq!(
        instruction,
        Mnemonic::ADD {
            dest: RegisterMemory::Register(Register::AL),
            source: RegisterMemory::CombineRegistersData(Register::BX, Register::SI, 69),
        }
    );
}
