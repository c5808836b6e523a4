//! A minimal execution engine over decoded instructions.  It owns a register
//! file, a segment-register file and a flag set, and applies the subset of
//! instructions it implements (register moves), leaving its state unchanged
//! for every other instruction.

use vstd::prelude::*;

use crate::DecodeError;
use crate::instructions::Mnemonic;
use crate::registers::Register;
use crate::registers::RegisterMemory;

verus! {

/// The processor's status flags.
#[derive(Debug, PartialEq, Eq, Hash)]
pub enum CpuFlag {
    PF,
    ZF,
    OF,
    DF,
    IF,
    TF,
    SF,
    AF,
    CF,
}

/// The slot a register occupies in the register file.
pub open spec fn spec_register_index(r: Register) -> int {
    match r {
        Register::AL => 0,
        Register::CL => 1,
        Register::DL => 2,
        Register::BL => 3,
        Register::AH => 4,
        Register::CH => 5,
        Register::DH => 6,
        Register::BH => 7,
        Register::AX => 8,
        Register::CX => 9,
        Register::DX => 10,
        Register::BX => 11,
        Register::SP => 12,
        Register::BP => 13,
        Register::SI => 14,
        Register::DI => 15,
    }
}

/// The slot a register occupies in the register file.
pub fn register_index(r: Register) -> (i: usize)
    ensures
        i as int == spec_register_index(r),
        i < 16,
{
    match r {
        Register::AL => 0,
        Register::CL => 1,
        Register::DL => 2,
        Register::BL => 3,
        Register::AH => 4,
        Register::CH => 5,
        Register::DH => 6,
        Register::BH => 7,
        Register::AX => 8,
        Register::CX => 9,
        Register::DX => 10,
        Register::BX => 11,
        Register::SP => 12,
        Register::BP => 13,
        Register::SI => 14,
        Register::DI => 15,
    }
}

/// The register file after one move is applied: an immediate or another
/// register's value lands in the destination register; every other operand
/// combination leaves the file unchanged.
pub open spec fn spec_mov_registers(
    regs: Seq<isize>,
    dest: RegisterMemory,
    source: RegisterMemory,
) -> Seq<isize> {
    match (dest, source) {
        (RegisterMemory::Register(d), RegisterMemory::Immediate(v)) => regs.update(
            spec_register_index(d),
            v,
        ),
        (RegisterMemory::Register(d), RegisterMemory::Register(s)) => regs.update(
            spec_register_index(d),
            regs[spec_register_index(s)],
        ),
        _ => regs,
    }
}

/// The register file after one instruction is applied: only moves change it.
pub open spec fn spec_execute_registers(regs: Seq<isize>, instruction: Mnemonic) -> Seq<isize> {
    match instruction {
        Mnemonic::MOV { dest, source } => spec_mov_registers(regs, dest, source),
        _ => regs,
    }
}

/// A register file, a segment-register file and a flag set.
#[derive(Debug)]
pub struct Cpu {
    pub flags: Vec<bool>,
    pub registers: Vec<isize>,
    pub segment_registers: Vec<isize>,
}

impl Cpu {
    /// Well-formed: one slot for each of the sixteen registers, four segment
    /// registers and nine flags.
    pub open spec fn wf(&self) -> bool {
        &&& self.registers@.len() == 16
        &&& self.segment_registers@.len() == 4
        &&& self.flags@.len() == 9
    }

    /// A fresh machine: every register and segment register zero, every flag
    /// clear.
    pub fn new() -> (r: Cpu)
        ensures
            r.wf(),
            forall|i: int| 0 <= i < 16 ==> r.registers@[i] == 0,
            forall|i: int| 0 <= i < 4 ==> r.segment_registers@[i] == 0,
            forall|i: int| 0 <= i < 9 ==> r.flags@[i] == false,
    {
        let mut registers: Vec<isize> = Vec::new();
        while registers.len() < 16
            invariant
                registers@.len() <= 16,
                forall|i: int| 0 <= i < registers@.len() ==> registers@[i] == 0,
            decreases 16 - registers@.len(),
        {
            registers.push(0);
        }
        let mut segment_registers: Vec<isize> = Vec::new();
        while segment_registers.len() < 4
            invariant
                segment_registers@.len() <= 4,
                forall|i: int| 0 <= i < segment_registers@.len() ==> segment_registers@[i] == 0,
            decreases 4 - segment_registers@.len(),
        {
            segment_registers.push(0);
        }
        let mut flags: Vec<bool> = Vec::new();
        while flags.len() < 9
            invariant
                flags@.len() <= 9,
                forall|i: int| 0 <= i < flags@.len() ==> flags@[i] == false,
            decreases 9 - flags@.len(),
        {
            flags.push(false);
        }
        Cpu { flags, registers, segment_registers }
    }

    /// Apply one move to the register file: an immediate or another
    /// register's value lands in the destination register; any other operand
    /// combination is ignored.
    fn mov(&mut self, dest: RegisterMemory, source: RegisterMemory) -> (r: Result<
        (),
        DecodeError,
    >)
        requires
            old(self).wf(),
        ensures
            final(self).wf(),
            r == Ok::<(), DecodeError>(()),
            final(self).registers@ == spec_mov_registers(old(self).registers@, dest, source),
            final(self).flags@ == old(self).flags@,
            final(self).segment_registers@ == old(self).segment_registers@,
    {
        match (dest, source) {
            (RegisterMemory::Register(d), RegisterMemory::Immediate(value)) => {
                let i = register_index(d);
                self.registers[i] = value;
            },
            (RegisterMemory::Register(d), RegisterMemory::Register(s)) => {
                let source_value = self.registers[register_index(s)];
                let i = register_index(d);
                self.registers[i] = source_value;
            },
            (_, _) => {},
        }
        Ok(())
    }

    /// Apply one instruction.  Only moves change the machine; every other
    /// instruction leaves it untouched, and execution never fails.
    pub fn execute(&mut self, instruction: Mnemonic) -> (r: Result<(), DecodeError>)
        requires
            old(self).wf(),
        ensures
            final(self).wf(),
            r == Ok::<(), DecodeError>(()),
            final(self).registers@ == spec_execute_registers(
                old(self).registers@,
                instruction,
            ),
            final(self).flags@ == old(self).flags@,
            final(self).segment_registers@ == old(self).segment_registers@,
    {
        match instruction {
            Mnemonic::MOV { dest, source } => self.mov(dest, source),
            _ => Ok(()),
        }
    }
}

} // verus!
