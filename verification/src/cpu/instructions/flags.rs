//! Instructions on the flags and on the interrupt master enable.
use vstd::prelude::*;
use crate::cpu::CPU;
use crate::cpu::assembly::Assemble;
use crate::cpu::cpu_bus::CPUBusTrait;
use crate::cpu::instructions::{Execute, Instruction, InstructionBehavior, spec_execute, spec_executable, with_registers};
use crate::cpu::instructions::arithmetic::with_flags;

verus! {

/// CCF complements the carry flag and clears N and H.
pub open spec fn spec_execute_ccf<B: CPUBusTrait>(cpu: CPU, bus: B) -> (CPU, B) {
    let f = cpu.registers.af.spec_f();
    (with_registers(cpu, with_flags(cpu.registers, f.spec_with_c(!f.spec_c()).spec_with_n(false).spec_with_h(false))), bus)
}

/// CCF: complement the carry flag.
#[derive(Debug, Clone, Copy, PartialEq, Eq, Structural)]
pub enum CCFInstruction {
    Empty,
}

impl CCFInstruction {
    pub open spec fn spec_cycles(self) -> usize {
        4
    }

    pub open spec fn spec_text(self) -> Seq<char> {
        "CCF"@
    }

    pub fn to_string(&self) -> (s: String)
        ensures
            s@ == self.spec_text(),
    {
        String::from_str("CCF")
    }
}

impl InstructionBehavior for CCFInstruction {
    open spec fn spec_instruction(&self) -> Instruction {
        Instruction::CCFInstruction(*self)
    }

    open spec fn spec_has_duration(&self) -> bool {
        true
    }

    open spec fn spec_duration(&self) -> usize {
        self.spec_cycles()
    }


    fn duration(&self) -> (r: usize) {
        4
    }
}

impl Execute for CCFInstruction {

    fn execute<B: CPUBusTrait>(&self, cpu: &mut CPU, cpu_bus: &mut B) {
        let registers = &mut cpu.registers;
        let f = registers.af.f();
        registers.af.set_f(f.with_c(!f.c()).with_n(false).with_h(false));
    }
}

impl Assemble for CCFInstruction {
    open spec fn spec_bytes(&self) -> Seq<u8> {
        seq![0x3Fu8]
    }

    fn assemble(&self, dest: &mut Vec<u8>) -> (r: usize) {
        dest.push(0x3F);
        1
    }
}

/// DI: disable interrupts.
#[derive(Debug, Clone, Copy, PartialEq, Eq, Structural)]
pub enum DIInstruction {
    Empty,
}

impl DIInstruction {
    pub open spec fn spec_cycles(self) -> usize {
        4
    }

    pub open spec fn spec_text(self) -> Seq<char> {
        "DI"@
    }

    pub fn to_string(&self) -> (s: String)
        ensures
            s@ == self.spec_text(),
    {
        String::from_str("DI")
    }
}

impl InstructionBehavior for DIInstruction {
    open spec fn spec_instruction(&self) -> Instruction {
        Instruction::DIInstruction(*self)
    }

    open spec fn spec_has_duration(&self) -> bool {
        true
    }

    open spec fn spec_duration(&self) -> usize {
        self.spec_cycles()
    }


    fn duration(&self) -> (r: usize) {
        4
    }
}

impl Execute for DIInstruction {

    fn execute<B: CPUBusTrait>(&self, cpu: &mut CPU, cpu_bus: &mut B) {
        cpu.interrupt_master_enable = false;
    }
}

impl Assemble for DIInstruction {
    open spec fn spec_bytes(&self) -> Seq<u8> {
        seq![0xF3u8]
    }

    fn assemble(&self, dest: &mut Vec<u8>) -> (r: usize) {
        dest.push(0xF3);
        1
    }
}

/// EI: enable interrupts.
#[derive(Debug, Clone, Copy, PartialEq, Eq, Structural)]
pub enum EIInstruction {
    Empty,
}

impl EIInstruction {
    pub open spec fn spec_cycles(self) -> usize {
        4
    }

    pub open spec fn spec_text(self) -> Seq<char> {
        "EI"@
    }

    pub fn to_string(&self) -> (s: String)
        ensures
            s@ == self.spec_text(),
    {
        String::from_str("EI")
    }
}

impl InstructionBehavior for EIInstruction {
    open spec fn spec_instruction(&self) -> Instruction {
        Instruction::EIInstruction(*self)
    }

    open spec fn spec_has_duration(&self) -> bool {
        true
    }

    open spec fn spec_duration(&self) -> usize {
        self.spec_cycles()
    }


    fn duration(&self) -> (r: usize) {
        4
    }
}

impl Execute for EIInstruction {

    fn execute<B: CPUBusTrait>(&self, cpu: &mut CPU, cpu_bus: &mut B) {
        cpu.interrupt_master_enable = true;
    }
}

impl Assemble for EIInstruction {
    open spec fn spec_bytes(&self) -> Seq<u8> {
        seq![0xFBu8]
    }

    fn assemble(&self, dest: &mut Vec<u8>) -> (r: usize) {
        dest.push(0xFB);
        1
    }
}

/// SCF: set the carry flag.
#[derive(Debug, Clone, Copy, PartialEq, Eq, Structural)]
pub enum SCFInstruction {
    Empty,
}

impl SCFInstruction {
    pub open spec fn spec_cycles(self) -> usize {
        4
    }

    pub open spec fn spec_text(self) -> Seq<char> {
        "SCF"@
    }

    pub fn to_string(&self) -> (s: String)
        ensures
            s@ == self.spec_text(),
    {
        String::from_str("SCF")
    }
}

impl InstructionBehavior for SCFInstruction {
    open spec fn spec_instruction(&self) -> Instruction {
        Instruction::SCFInstruction(*self)
    }

    open spec fn spec_has_duration(&self) -> bool {
        true
    }

    open spec fn spec_duration(&self) -> usize {
        self.spec_cycles()
    }


    fn duration(&self) -> (r: usize) {
        4
    }
}

impl Assemble for SCFInstruction {
    open spec fn spec_bytes(&self) -> Seq<u8> {
        seq![0x37u8]
    }

    fn assemble(&self, dest: &mut Vec<u8>) -> (r: usize) {
        dest.push(0x37);
        1
    }
}

/// CCF flips the carry flag, clears N and H, and keeps Z, A and the interrupt
/// master enable; twice in a row, it gives back the carry it started from.
pub proof fn lemma_ccf_flips_carry<B: CPUBusTrait>(cpu: CPU, bus: B)
    ensures
        ({
            let f = cpu.registers.af.spec_f();
            let (once, once_bus) = spec_execute(Instruction::CCFInstruction(CCFInstruction::Empty), cpu, bus);
            let twice = spec_execute(Instruction::CCFInstruction(CCFInstruction::Empty), once, once_bus).0;
            let g = once.registers.af.spec_f();
            &&& g.spec_c() == !f.spec_c()
            &&& !g.spec_n()
            &&& !g.spec_h()
            &&& g.spec_z() == f.spec_z()
            &&& once.registers.af.spec_a() == cpu.registers.af.spec_a()
            &&& once.interrupt_master_enable == cpu.interrupt_master_enable
            &&& once_bus == bus
            &&& twice.registers.af.spec_f().spec_c() == f.spec_c()
        }),
{
    let f = cpu.registers.af.spec_f();
    let f1 = f.spec_with_c(!f.spec_c());
    let f2 = f1.spec_with_n(false);
    let f3 = f2.spec_with_h(false);
    crate::cpu::registers::lemma_cpu_flags_with_c(f, !f.spec_c());
    crate::cpu::registers::lemma_cpu_flags_with_n(f1, false);
    crate::cpu::registers::lemma_cpu_flags_with_h(f2, false);
    crate::cpu::registers::lemma_af_register_with_f(cpu.registers.af, f3);
    let g1 = f3.spec_with_c(!f3.spec_c());
    let g2 = g1.spec_with_n(false);
    let g3 = g2.spec_with_h(false);
    crate::cpu::registers::lemma_cpu_flags_with_c(f3, !f3.spec_c());
    crate::cpu::registers::lemma_cpu_flags_with_n(g1, false);
    crate::cpu::registers::lemma_cpu_flags_with_h(g2, false);
    crate::cpu::registers::lemma_af_register_with_f(cpu.registers.af.spec_with_f(f3), g3);
}

/// DI disables and EI enables the interrupt master enable; neither changes a
/// register or the bus.
pub proof fn lemma_interrupt_enable<B: CPUBusTrait>(cpu: CPU, bus: B)
    ensures
        ({
            let (di, di_bus) = spec_execute(Instruction::DIInstruction(DIInstruction::Empty), cpu, bus);
            let (ei, ei_bus) = spec_execute(Instruction::EIInstruction(EIInstruction::Empty), cpu, bus);
            &&& !di.interrupt_master_enable
            &&& ei.interrupt_master_enable
            &&& di.registers == cpu.registers
            &&& ei.registers == cpu.registers
            &&& di_bus == bus
            &&& ei_bus == bus
        }),
{
}

} // verus!
