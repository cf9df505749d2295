//! Stack instructions.
use vstd::prelude::*;
use crate::cpu::CPU;
use crate::cpu::assembly::Assemble;
use crate::cpu::cpu_bus::CPUBusTrait;
use crate::cpu::instructions::{
    Instruction, InstructionBehavior, reg16_code, register16_code, spec_execute, spec_executable,
};
use crate::cpu::registers::Register16;

verus! {

/// POP: pop a pair off the stack.
#[derive(Debug, Clone, Copy, PartialEq, Eq, Structural)]
pub enum POPInstruction {
    AF,
    R16(Register16),
}

impl POPInstruction {
    pub open spec fn spec_cycles(self) -> usize {
        12
    }

    pub open spec fn spec_text(self) -> Seq<char> {
        match self {
            POPInstruction::AF => "POP AF"@,
            POPInstruction::R16(r) => "POP "@ + r.spec_name(),
        }
    }

    pub fn to_string(&self) -> (s: String)
        ensures
            s@ == self.spec_text(),
    {
        match self {
            POPInstruction::AF => String::from_str("POP AF"),
            POPInstruction::R16(r) => {
                let mut s = String::from_str("POP ");
                s.append(r.as_ref());
                s
            },
        }
    }
}

impl InstructionBehavior for POPInstruction {
    open spec fn spec_instruction(&self) -> Instruction {
        Instruction::POPInstruction(*self)
    }

    open spec fn spec_has_duration(&self) -> bool {
        true
    }

    open spec fn spec_duration(&self) -> usize {
        self.spec_cycles()
    }


    fn duration(&self) -> (r: usize) {
        12
    }
}

impl Assemble for POPInstruction {
    open spec fn spec_bytes(&self) -> Seq<u8> {
        match *self {
            POPInstruction::AF => seq![0xF1u8],
            POPInstruction::R16(r) => seq![(0xC1 + 16 * reg16_code(r)) as u8],
        }
    }

    fn assemble(&self, dest: &mut Vec<u8>) -> (r: usize) {
        match self {
            POPInstruction::AF => dest.push(0xF1),
            POPInstruction::R16(r) => dest.push(0xC1 + 16 * register16_code(*r)),
        }
        1
    }
}

/// PUSH: push a pair onto the stack.
#[derive(Debug, Clone, Copy, PartialEq, Eq, Structural)]
pub enum PUSHInstruction {
    AF,
    R16(Register16),
}

impl PUSHInstruction {
    pub open spec fn spec_cycles(self) -> usize {
        16
    }

    pub open spec fn spec_text(self) -> Seq<char> {
        match self {
            PUSHInstruction::AF => "PUSH AF"@,
            PUSHInstruction::R16(r) => "PUSH "@ + r.spec_name(),
        }
    }

    pub fn to_string(&self) -> (s: String)
        ensures
            s@ == self.spec_text(),
    {
        match self {
            PUSHInstruction::AF => String::from_str("PUSH AF"),
            PUSHInstruction::R16(r) => {
                let mut s = String::from_str("PUSH ");
                s.append(r.as_ref());
                s
            },
        }
    }
}

impl InstructionBehavior for PUSHInstruction {
    open spec fn spec_instruction(&self) -> Instruction {
        Instruction::PUSHInstruction(*self)
    }

    open spec fn spec_has_duration(&self) -> bool {
        true
    }

    open spec fn spec_duration(&self) -> usize {
        self.spec_cycles()
    }


    fn duration(&self) -> (r: usize) {
        16
    }
}

impl Assemble for PUSHInstruction {
    open spec fn spec_bytes(&self) -> Seq<u8> {
        match *self {
            PUSHInstruction::AF => seq![0xF5u8],
            PUSHInstruction::R16(r) => seq![(0xC5 + 16 * reg16_code(r)) as u8],
        }
    }

    fn assemble(&self, dest: &mut Vec<u8>) -> (r: usize) {
        match self {
            PUSHInstruction::AF => dest.push(0xF5),
            PUSHInstruction::R16(r) => dest.push(0xC5 + 16 * register16_code(*r)),
        }
        1
    }
}

} // verus!
