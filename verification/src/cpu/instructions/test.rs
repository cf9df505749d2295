//! Test instructions: bit tests and comparisons.
use vstd::prelude::*;
use crate::cpu::CPU;
use crate::cpu::assembly::Assemble;
use crate::cpu::cpu_bus::CPUBusTrait;
use crate::bus::Bus;
use crate::cpu::instructions::{
    BitOffset, Execute, Instruction, InstructionBehavior, reg8_code, register8_code, spec_bus_read,
    spec_execute, spec_executable, with_registers,
};
use crate::cpu::instructions::arithmetic::with_flags;
use crate::cpu::registers::{CPUFlags, Register8};
use crate::text::{dec, hex2, push_dec, push_hex2};

verus! {

/// BIT: test one bit of a register or of the byte at HL.
#[derive(Debug, Clone, Copy, PartialEq, Eq, Structural)]
pub enum BITInstruction {
    U3R8(BitOffset, Register8),
    U3HL(BitOffset),
}

impl BITInstruction {
    pub open spec fn spec_cycles(self) -> usize {
        match self {
            BITInstruction::U3R8(_, _) => 8,
            BITInstruction::U3HL(_) => 12,
        }
    }

    pub open spec fn spec_text(self) -> Seq<char> {
        match self {
            BITInstruction::U3R8(bit, r) => "BIT "@ + dec(bit@ as nat) + ", "@ + r.spec_name(),
            BITInstruction::U3HL(bit) => "BIT "@ + dec(bit@ as nat) + ", [HL]"@,
        }
    }

    pub fn to_string(&self) -> (s: String)
        ensures
            s@ == self.spec_text(),
    {
        let mut s = String::from_str("BIT ");
        match self {
            BITInstruction::U3R8(bit, r) => {
                push_dec(&mut s, bit.as_u8() as u16);
                s.append(", ");
                s.append(r.as_ref());
            },
            BITInstruction::U3HL(bit) => {
                push_dec(&mut s, bit.as_u8() as u16);
                s.append(", [HL]");
            },
        }
        s
    }
}

impl InstructionBehavior for BITInstruction {
    open spec fn spec_instruction(&self) -> Instruction {
        Instruction::BITInstruction(*self)
    }

    open spec fn spec_has_duration(&self) -> bool {
        true
    }

    open spec fn spec_duration(&self) -> usize {
        self.spec_cycles()
    }


    fn duration(&self) -> (r: usize) {
        match self {
            BITInstruction::U3R8(_, _) => 8,
            BITInstruction::U3HL(_) => 12,
        }
    }
}

impl Assemble for BITInstruction {
    open spec fn spec_bytes(&self) -> Seq<u8> {
        match *self {
            BITInstruction::U3R8(bit, r) => seq![0xCBu8, (0x40 + reg8_code(r) + bit@ * 8) as u8],
            BITInstruction::U3HL(bit) => seq![0xCBu8, (0x46 + bit@ * 8) as u8],
        }
    }

    fn assemble(&self, dest: &mut Vec<u8>) -> (r: usize) {
        dest.push(0xCB);
        match self {
            BITInstruction::U3R8(bit, r) => dest.push(0x40 + register8_code(*r) + bit.as_u8() * 8),
            BITInstruction::U3HL(bit) => dest.push(0x46 + bit.as_u8() * 8),
        }
        2
    }
}

/// The flags after comparing A with `value`: Z when equal, N set, H when the
/// low nibble would borrow, C when `value` is greater than A.
pub open spec fn flags_after_compare(f: CPUFlags, a: u8, value: u8) -> CPUFlags {
    f.spec_with_z(a == value).spec_with_n(true).spec_with_h(value & 0x0F > a & 0x0F).spec_with_c(value > a)
}

pub open spec fn spec_executable_cp<B: CPUBusTrait>(i: CPInstruction, cpu: CPU, bus: B) -> bool {
    match i {
        CPInstruction::AHL => <B as Bus<u16>>::spec_readable(cpu.registers.hl@),
        _ => true,
    }
}

pub open spec fn spec_execute_cp<B: CPUBusTrait>(i: CPInstruction, cpu: CPU, bus: B) -> (CPU, B) {
    let regs = cpu.registers;
    let (value, bus1) = match i {
        CPInstruction::AR8(r) => (regs.spec_get_r8(r), bus),
        CPInstruction::AHL => spec_bus_read(bus, regs.hl@),
        CPInstruction::AN8(v) => (v, bus),
    };
    (with_registers(cpu, with_flags(regs, flags_after_compare(regs.af.spec_f(), regs.af.spec_a(), value))), bus1)
}

/// CP: compare A with a value.
#[derive(Debug, Clone, Copy, PartialEq, Eq, Structural)]
pub enum CPInstruction {
    AR8(Register8),
    AHL,
    AN8(u8),
}

impl CPInstruction {
    pub open spec fn spec_cycles(self) -> usize {
        match self {
            CPInstruction::AR8(_) => 4,
            CPInstruction::AHL => 8,
            CPInstruction::AN8(_) => 8,
        }
    }

    pub open spec fn spec_text(self) -> Seq<char> {
        match self {
            CPInstruction::AR8(r) => "CP A, "@ + r.spec_name(),
            CPInstruction::AHL => "CP A, [HL]"@,
            CPInstruction::AN8(v) => "CP A, 0x"@ + hex2(v),
        }
    }

    pub fn to_string(&self) -> (s: String)
        ensures
            s@ == self.spec_text(),
    {
        match self {
            CPInstruction::AR8(r) => {
                let mut s = String::from_str("CP A, ");
                s.append(r.as_ref());
                s
            },
            CPInstruction::AHL => String::from_str("CP A, [HL]"),
            CPInstruction::AN8(v) => {
                let mut s = String::from_str("CP A, 0x");
                push_hex2(&mut s, *v);
                s
            },
        }
    }

    fn compare_with_a(&self, cpu: &mut CPU, value: u8)
        ensures
            *final(cpu) == with_registers(*old(cpu), with_flags(old(cpu).registers, flags_after_compare(
                old(cpu).registers.af.spec_f(),
                old(cpu).registers.af.spec_a(),
                value,
            ))),
    {
        let a_value = cpu.registers.af.a();
        let new_f = cpu.registers.af.f().with_z(a_value == value).with_n(true).with_h(
            value & 0x0F > a_value & 0x0F,
        ).with_c(value > a_value);
        cpu.registers.af.set_f(new_f);
    }

}

impl InstructionBehavior for CPInstruction {
    open spec fn spec_instruction(&self) -> Instruction {
        Instruction::CPInstruction(*self)
    }

    open spec fn spec_has_duration(&self) -> bool {
        true
    }

    open spec fn spec_duration(&self) -> usize {
        self.spec_cycles()
    }


    fn duration(&self) -> (r: usize) {
        match self {
            CPInstruction::AR8(_) => 4,
            CPInstruction::AHL => 8,
            CPInstruction::AN8(_) => 8,
        }
    }
}

impl Execute for CPInstruction {

    fn execute<B: CPUBusTrait>(&self, cpu: &mut CPU, cpu_bus: &mut B) {
        match self {
            CPInstruction::AR8(register8) => {
                let value = cpu.registers.get_r8(*register8);
                self.compare_with_a(cpu, value);
            },
            CPInstruction::AHL => {
                let addr = cpu.registers.hl.into_bits();
                let value = cpu_bus.read(addr);
                self.compare_with_a(cpu, value);
            },
            CPInstruction::AN8(value) => {
                self.compare_with_a(cpu, *value);
            },
        }
    }
}

impl Assemble for CPInstruction {
    open spec fn spec_bytes(&self) -> Seq<u8> {
        match *self {
            CPInstruction::AR8(r) => seq![(0xB8 + reg8_code(r)) as u8],
            CPInstruction::AHL => seq![0xBEu8],
            CPInstruction::AN8(v) => seq![0xFEu8, v],
        }
    }

    fn assemble(&self, dest: &mut Vec<u8>) -> (r: usize) {
        match self {
            CPInstruction::AR8(r) => {
                dest.push(0xB8 + register8_code(*r));
                1
            },
            CPInstruction::AHL => {
                dest.push(0xBE);
                1
            },
            CPInstruction::AN8(v) => {
                dest.push(0xFE);
                dest.push(*v);
                2
            },
        }
    }
}

/// A comparison changes only the flags: A and every other register stay as
/// they were.
pub proof fn lemma_compare_changes_only_flags<B: CPUBusTrait>(i: CPInstruction, cpu: CPU, bus: B)
    ensures
        ({
            let after = spec_execute_cp(i, cpu, bus).0;
            &&& after.registers.af.spec_a() == cpu.registers.af.spec_a()
            &&& after.registers.bc == cpu.registers.bc
            &&& after.registers.de == cpu.registers.de
            &&& after.registers.hl == cpu.registers.hl
            &&& after.registers.sp == cpu.registers.sp
            &&& after.registers.pc == cpu.registers.pc
            &&& after.interrupt_master_enable == cpu.interrupt_master_enable
        }),
{
    let regs = cpu.registers;
    let value = match i {
        CPInstruction::AR8(r) => regs.spec_get_r8(r),
        CPInstruction::AHL => spec_bus_read(bus, regs.hl@).0,
        CPInstruction::AN8(v) => v,
    };
    crate::cpu::registers::lemma_af_register_with_f(regs.af, flags_after_compare(regs.af.spec_f(), regs.af.spec_a(), value));
}

/// The operand an instruction of the A-with-operand form reads: a register,
/// the byte at HL, or the immediate byte.
pub open spec fn cp_operand<B: CPUBusTrait>(i: CPInstruction, cpu: CPU, bus: B) -> u8 {
    match i {
        CPInstruction::AR8(r) => cpu.registers.spec_get_r8(r),
        CPInstruction::AHL => crate::bus::value_or_zero(bus.spec_read(cpu.registers.hl@)),
        CPInstruction::AN8(v) => v,
    }
}

/// CP sets the flags as the subtraction A - v would, v being its operand: Z
/// exactly when A equals v, N always, H exactly when the low nibble borrows
/// (v's low nibble exceeds A's), and C exactly when the subtraction borrows
/// (v > A, that is A - v < 0). A stays.
pub proof fn lemma_compare_sets_flags_of_subtraction<B: CPUBusTrait>(i: CPInstruction, cpu: CPU, bus: B)
    ensures
        ({
            let a = cpu.registers.af.spec_a();
            let v = cp_operand(i, cpu, bus);
            let after = spec_execute(Instruction::CPInstruction(i), cpu, bus).0.registers;
            &&& after.af.spec_f().spec_z() == (a == v)
            &&& after.af.spec_f().spec_n()
            &&& after.af.spec_f().spec_h() == (v % 16 > a % 16)
            &&& after.af.spec_f().spec_c() == (a - v < 0)
            &&& after.af.spec_a() == a
        }),
{
    let regs = cpu.registers;
    let a = regs.af.spec_a();
    let v = cp_operand(i, cpu, bus);
    let f = regs.af.spec_f();
    crate::bits::lemma_low_nibble(a);
    crate::bits::lemma_low_nibble(v);
    let f1 = f.spec_with_z(a == v);
    let f2 = f1.spec_with_n(true);
    let f3 = f2.spec_with_h(v & 0x0F > a & 0x0F);
    let f4 = f3.spec_with_c(v > a);
    crate::cpu::registers::lemma_cpu_flags_with_z(f, a == v);
    crate::cpu::registers::lemma_cpu_flags_with_n(f1, true);
    crate::cpu::registers::lemma_cpu_flags_with_h(f2, v & 0x0F > a & 0x0F);
    crate::cpu::registers::lemma_cpu_flags_with_c(f3, v > a);
    crate::cpu::registers::lemma_af_register_with_f(regs.af, f4);
}

} // verus!
