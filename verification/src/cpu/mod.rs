//! The CPU: its registers, its instructions, the decoder and the bus it sees.
use vstd::prelude::*;
use crate::cpu::registers::{AFRegister, BCRegister, CPURegisters, DERegister, HLRegister};

pub mod assembly;
pub mod cpu_bus;
pub mod disasm;
pub mod instructions;
pub mod operand;
pub mod registers;

verus! {

#[derive(Debug, Clone, Copy, PartialEq, Eq, Structural)]
pub struct CPU {
    pub registers: CPURegisters,
    pub interrupt_master_enable: bool,
}

impl CPU {
    /// The state a cartridge starts the CPU in: every register clear, PC at
    /// 0x0100, interrupts disabled.
    pub open spec fn spec_power_on(&self) -> bool {
        &&& self.registers.af@ == 0
        &&& self.registers.bc@ == 0
        &&& self.registers.de@ == 0
        &&& self.registers.hl@ == 0
        &&& self.registers.sp == 0
        &&& self.registers.pc == 0x0100
        &&& !self.interrupt_master_enable
    }

    /// The CPU as a cartridge starts it: every register clear, PC at 0x0100,
    /// interrupts disabled.
    pub fn new() -> (r: CPU)
        ensures
            r.spec_power_on(),
    {
        CPU {
            registers: CPURegisters {
                af: AFRegister::from_bits(0),
                bc: BCRegister::from_bits(0),
                de: DERegister::from_bits(0),
                hl: HLRegister::from_bits(0),
                sp: 0,
                pc: 0x0100,
            },
            interrupt_master_enable: false,
        }
    }
}

} // verus!
