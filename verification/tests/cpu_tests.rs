use computer_enhance::cpu::Cpu;
use computer_enhance::cpu::register_index;
use computer_enhance::instructions::Mnemonic;
use computer_enhance::registers::Register;
use computer_enhance::registers::RegisterMemory;

#[test]
fn test_cpu_starts_zeroed() {
    let cpu = Cpu::new();
    assert_eq!(cpu.registers, vec![0isize; 16]);
    assert_eq!(cpu.segment_registers, vec![0isize; 4]);
    assert_eq!(cpu.flags, vec![false; 9]);
}

#[test]
fn test_cpu_executes_mov_immediate() {
    let mut cpu = Cpu::new();
    cpu.execute(Mnemonic::MOV {
        dest: RegisterMemory::Register(Register::BX),
        source: RegisterMemory::Immediate(42),
    })
    .unwrap();
    assert_eq!(cpu.registers[register_index(Register::BX)], 42);
    assert_eq!(cpu.registers[register_index(Register::AX)], 0);
}

#[test]
fn test_cpu_executes_mov_register_to_register() {
    let mut cpu = Cpu::new();
    cpu.execute(Mnemonic::MOV {
        dest: RegisterMemory::Register(Register::AX),
        source: RegisterMemory::Immediate(-7),
    })
    .unwrap();
    cpu.execute(Mnemonic::MOV {
        dest: RegisterMemory::Register(Register::CX),
        source: RegisterMemory::Register(Register::AX),
    })
    .unwrap();
    assert_eq!(cpu.registers[register_index(Register::CX)], -7);
    assert_eq!(cpu.registers[register_index(Register::AX)], -7);
}

#[test]
fn test_cpu_ignores_other_instructions() {
    let mut cpu = Cpu::new();
    cpu.execute(Mnemonic::NOP).unwrap();
    cpu.execute(Mnemonic::INC(Register::AX)).unwrap();
    cpu.execute(Mnemonic::MOV {
        dest: RegisterMemory::DirectAddress(5),
        source: RegisterMemory::Register(Register::AX),
    })
    .unwrap();
    assert_eq!(cpu.registers, vec![0isize; 16]);
}
