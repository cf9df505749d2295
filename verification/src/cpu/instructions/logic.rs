//! Logic instructions on A.
use vstd::prelude::*;
use crate::cpu::CPU;
use crate::cpu::assembly::Assemble;
use crate::cpu::cpu_bus::CPUBusTrait;
use crate::bus::Bus;
use crate::cpu::instructions::{
    Execute, Instruction, InstructionBehavior, reg8_code, register8_code, spec_bus_read, spec_execute,
    spec_executable, with_registers,
};
use crate::cpu::instructions::arithmetic::with_flags;
use crate::bus::value_or_zero;
use crate::cpu::registers::{CPUFlags, CPURegisters, Register8};
use crate::text::{hex2, push_hex2};

verus! {

/// AND: AND a value into A.
#[derive(Debug, Clone, Copy, PartialEq, Eq, Structural)]
pub enum ANDInstruction {
    AR8(Register8),
    AHL,
    AN8(u8),
}

impl ANDInstruction {
    pub open spec fn spec_cycles(self) -> usize {
        match self {
            ANDInstruction::AR8(_) => 4,
            ANDInstruction::AHL => 8,
            ANDInstruction::AN8(_) => 8,
        }
    }

    pub open spec fn spec_text(self) -> Seq<char> {
        match self {
            ANDInstruction::AR8(r) => "AND A, "@ + r.spec_name(),
            ANDInstruction::AHL => "AND A, [HL]"@,
            ANDInstruction::AN8(v) => "AND A, 0x"@ + hex2(v),
        }
    }

    pub fn to_string(&self) -> (s: String)
        ensures
            s@ == self.spec_text(),
    {
        match self {
            ANDInstruction::AR8(r) => {
                let mut s = String::from_str("AND A, ");
                s.append(r.as_ref());
                s
            },
            ANDInstruction::AHL => String::from_str("AND A, [HL]"),
            ANDInstruction::AN8(v) => {
                let mut s = String::from_str("AND A, 0x");
                push_hex2(&mut s, *v);
                s
            },
        }
    }

}

impl InstructionBehavior for ANDInstruction {
    open spec fn spec_instruction(&self) -> Instruction {
        Instruction::ANDInstruction(*self)
    }

    open spec fn spec_has_duration(&self) -> bool {
        true
    }

    open spec fn spec_duration(&self) -> usize {
        self.spec_cycles()
    }


    fn duration(&self) -> (r: usize) {
        match self {
            ANDInstruction::AR8(_) => 4,
            ANDInstruction::AHL => 8,
            ANDInstruction::AN8(_) => 8,
        }
    }
}

impl Assemble for ANDInstruction {
    open spec fn spec_bytes(&self) -> Seq<u8> {
        match *self {
            ANDInstruction::AR8(r) => seq![(0xA0 + reg8_code(r)) as u8],
            ANDInstruction::AHL => seq![0xA6u8],
            ANDInstruction::AN8(v) => seq![0xE6u8, v],
        }
    }

    fn assemble(&self, dest: &mut Vec<u8>) -> (r: usize) {
        match self {
            ANDInstruction::AR8(r) => {
                dest.push(0xA0 + register8_code(*r));
                1
            },
            ANDInstruction::AHL => {
                dest.push(0xA6);
                1
            },
            ANDInstruction::AN8(v) => {
                dest.push(0xE6);
                dest.push(*v);
                2
            },
        }
    }
}

/// The flags after OR produced `result`: Z when it is 0, N, H and C clear.
pub open spec fn flags_after_or(f: CPUFlags, result: u8) -> CPUFlags {
    f.spec_with_z(result == 0).spec_with_n(false).spec_with_h(false).spec_with_c(false)
}

/// The registers after ORing `value` into A and setting the flags.
pub open spec fn registers_after_or(registers: CPURegisters, value: u8) -> CPURegisters {
    let result = registers.af.spec_a() | value;
    let regs1 = CPURegisters { af: registers.af.spec_with_a(result), ..registers };
    with_flags(regs1, flags_after_or(regs1.af.spec_f(), result))
}

pub open spec fn spec_executable_or<B: CPUBusTrait>(i: ORInstruction, cpu: CPU, bus: B) -> bool {
    match i {
        ORInstruction::AHL => <B as Bus<u16>>::spec_readable(cpu.registers.hl@),
        _ => true,
    }
}

pub open spec fn spec_execute_or<B: CPUBusTrait>(i: ORInstruction, cpu: CPU, bus: B) -> (CPU, B) {
    let regs = cpu.registers;
    let (value, bus1) = match i {
        ORInstruction::AR8(r) => (regs.spec_get_r8(r), bus),
        ORInstruction::AHL => spec_bus_read(bus, regs.hl@),
        ORInstruction::AN8(v) => (v, bus),
    };
    (with_registers(cpu, registers_after_or(regs, value)), bus1)
}

/// OR: OR a value into A.
#[derive(Debug, Clone, Copy, PartialEq, Eq, Structural)]
pub enum ORInstruction {
    AR8(Register8),
    AHL,
    AN8(u8),
}

impl ORInstruction {
    pub open spec fn spec_cycles(self) -> usize {
        match self {
            ORInstruction::AR8(_) => 4,
            ORInstruction::AHL => 8,
            ORInstruction::AN8(_) => 8,
        }
    }

    pub open spec fn spec_text(self) -> Seq<char> {
        match self {
            ORInstruction::AR8(r) => "OR A, "@ + r.spec_name(),
            ORInstruction::AHL => "OR A, HL"@,
            ORInstruction::AN8(v) => "OR A, 0x"@ + hex2(v),
        }
    }

    pub fn to_string(&self) -> (s: String)
        ensures
            s@ == self.spec_text(),
    {
        match self {
            ORInstruction::AR8(r) => {
                let mut s = String::from_str("OR A, ");
                s.append(r.as_ref());
                s
            },
            ORInstruction::AHL => String::from_str("OR A, HL"),
            ORInstruction::AN8(v) => {
                let mut s = String::from_str("OR A, 0x");
                push_hex2(&mut s, *v);
                s
            },
        }
    }

    fn set_flags_after_or(&self, registers: &mut CPURegisters, result: u8)
        ensures
            *final(registers) == with_flags(*old(registers), flags_after_or(old(registers).af.spec_f(), result)),
    {
        registers.af.set_f(registers.af.f().with_z(result == 0).with_n(false).with_h(false).with_c(false));
    }

    fn or_with_a_and_set_flags(&self, registers: &mut CPURegisters, value: u8)
        ensures
            *final(registers) == registers_after_or(*old(registers), value),
    {
        let result = registers.af.a() | value;
        registers.af.set_a(result);
        self.set_flags_after_or(registers, result);
    }

}

impl InstructionBehavior for ORInstruction {
    open spec fn spec_instruction(&self) -> Instruction {
        Instruction::ORInstruction(*self)
    }

    open spec fn spec_has_duration(&self) -> bool {
        true
    }

    open spec fn spec_duration(&self) -> usize {
        self.spec_cycles()
    }


    fn duration(&self) -> (r: usize) {
        match self {
            ORInstruction::AR8(_) => 4,
            ORInstruction::AHL => 8,
            ORInstruction::AN8(_) => 8,
        }
    }
}

impl Execute for ORInstruction {

    fn execute<B: CPUBusTrait>(&self, cpu: &mut CPU, cpu_bus: &mut B) {
        match self {
            ORInstruction::AR8(register8) => {
                let registers = &mut cpu.registers;
                let value = registers.get_r8(*register8);
                self.or_with_a_and_set_flags(registers, value);
            },
            ORInstruction::AHL => {
                let addr = cpu.registers.hl.into_bits();
                let value = cpu_bus.read(addr);
                self.or_with_a_and_set_flags(&mut cpu.registers, value);
            },
            ORInstruction::AN8(value) => {
                self.or_with_a_and_set_flags(&mut cpu.registers, *value);
            },
        }
    }
}

impl Assemble for ORInstruction {
    open spec fn spec_bytes(&self) -> Seq<u8> {
        match *self {
            ORInstruction::AR8(r) => seq![(0xB0 + reg8_code(r)) as u8],
            ORInstruction::AHL => seq![0xB6u8],
            ORInstruction::AN8(v) => seq![0xF6u8, v],
        }
    }

    fn assemble(&self, dest: &mut Vec<u8>) -> (r: usize) {
        match self {
            ORInstruction::AR8(r) => {
                dest.push(0xB0 + register8_code(*r));
                1
            },
            ORInstruction::AHL => {
                dest.push(0xB6);
                1
            },
            ORInstruction::AN8(v) => {
                dest.push(0xF6);
                dest.push(*v);
                2
            },
        }
    }
}

pub open spec fn spec_executable_xor<B: CPUBusTrait>(i: XORInstruction, cpu: CPU, bus: B) -> bool {
    match i {
        XORInstruction::AHL => <B as Bus<u16>>::spec_readable(cpu.registers.hl@),
        _ => true,
    }
}

/// XOR into A. The flags are left as they were, and the byte at HL is read
/// without side effects.
pub open spec fn spec_execute_xor<B: CPUBusTrait>(i: XORInstruction, cpu: CPU, bus: B) -> (CPU, B) {
    let regs = cpu.registers;
    let value = match i {
        XORInstruction::AR8(r) => regs.spec_get_r8(r),
        XORInstruction::AHL => value_or_zero(bus.spec_read(regs.hl@)),
        XORInstruction::AN8(v) => v,
    };
    (with_registers(cpu, CPURegisters { af: regs.af.spec_with_a(regs.af.spec_a() ^ value), ..regs }), bus)
}

/// XOR: exclusive-OR a value into A.
#[derive(Debug, Clone, Copy, PartialEq, Eq, Structural)]
pub enum XORInstruction {
    AR8(Register8),
    AHL,
    AN8(u8),
}

impl XORInstruction {
    pub open spec fn spec_cycles(self) -> usize {
        match self {
            XORInstruction::AR8(_) => 4,
            XORInstruction::AHL => 8,
            XORInstruction::AN8(_) => 8,
        }
    }

    pub open spec fn spec_text(self) -> Seq<char> {
        match self {
            XORInstruction::AR8(r) => "XOR A, "@ + r.spec_name(),
            XORInstruction::AHL => "XOR A, HL"@,
            XORInstruction::AN8(v) => "XOR A, 0x"@ + hex2(v),
        }
    }

    pub fn to_string(&self) -> (s: String)
        ensures
            s@ == self.spec_text(),
    {
        match self {
            XORInstruction::AR8(r) => {
                let mut s = String::from_str("XOR A, ");
                s.append(r.as_ref());
                s
            },
            XORInstruction::AHL => String::from_str("XOR A, HL"),
            XORInstruction::AN8(v) => {
                let mut s = String::from_str("XOR A, 0x");
                push_hex2(&mut s, *v);
                s
            },
        }
    }

}

impl InstructionBehavior for XORInstruction {
    open spec fn spec_instruction(&self) -> Instruction {
        Instruction::XORInstruction(*self)
    }

    open spec fn spec_has_duration(&self) -> bool {
        true
    }

    open spec fn spec_duration(&self) -> usize {
        self.spec_cycles()
    }


    fn duration(&self) -> (r: usize) {
        match self {
            XORInstruction::AR8(_) => 4,
            XORInstruction::AHL => 8,
            XORInstruction::AN8(_) => 8,
        }
    }
}

impl Execute for XORInstruction {

    fn execute<B: CPUBusTrait>(&self, cpu: &mut CPU, cpu_bus: &mut B) {
        match self {
            XORInstruction::AR8(register8) => {
                let registers = &mut cpu.registers;
                let value = registers.af.a() ^ registers.get_r8(*register8);
                registers.af.set_a(value);
            },
            XORInstruction::AHL => {
                let value = cpu_bus.read_readonly(cpu.registers.hl.into_bits());
                let registers = &mut cpu.registers;
                registers.af.set_a(registers.af.a() ^ value);
            },
            XORInstruction::AN8(value) => {
                let registers = &mut cpu.registers;
                registers.af.set_a(registers.af.a() ^ *value);
            },
        }
    }
}

impl Assemble for XORInstruction {
    open spec fn spec_bytes(&self) -> Seq<u8> {
        match *self {
            XORInstruction::AR8(r) => seq![(0xA8 + reg8_code(r)) as u8],
            XORInstruction::AHL => seq![0xAEu8],
            XORInstruction::AN8(v) => seq![0xEEu8, v],
        }
    }

    fn assemble(&self, dest: &mut Vec<u8>) -> (r: usize) {
        match self {
            XORInstruction::AR8(r) => {
                dest.push(0xA8 + register8_code(*r));
                1
            },
            XORInstruction::AHL => {
                dest.push(0xAE);
                1
            },
            XORInstruction::AN8(v) => {
                dest.push(0xEE);
                dest.push(*v);
                2
            },
        }
    }
}

/// XOR A, A clears A and leaves every other register, the flags included.
pub proof fn lemma_xor_a_clears_a<B: CPUBusTrait>(cpu: CPU, bus: B)
    ensures
        ({
            let (after, bus_after) = spec_execute_xor(XORInstruction::AR8(Register8::A), cpu, bus);
            &&& after.registers.af.spec_a() == 0
            &&& after.registers.af.spec_f() == cpu.registers.af.spec_f()
            &&& after.registers.bc == cpu.registers.bc
            &&& after.registers.de == cpu.registers.de
            &&& after.registers.hl == cpu.registers.hl
            &&& after.registers.sp == cpu.registers.sp
            &&& after.registers.pc == cpu.registers.pc
            &&& bus_after == bus
        }),
{
    let a = cpu.registers.af.spec_a();
    assert(a ^ a == 0) by (bit_vector);
    crate::cpu::registers::lemma_af_register_with_a(cpu.registers.af, 0);
}

/// The operand OR reads: a register, the byte at HL, or the immediate byte.
pub open spec fn or_operand<B: CPUBusTrait>(i: ORInstruction, cpu: CPU, bus: B) -> u8 {
    match i {
        ORInstruction::AR8(r) => cpu.registers.spec_get_r8(r),
        ORInstruction::AHL => value_or_zero(bus.spec_read(cpu.registers.hl@)),
        ORInstruction::AN8(v) => v,
    }
}

/// The operand XOR reads: a register, the byte at HL, or the immediate byte.
pub open spec fn xor_operand<B: CPUBusTrait>(i: XORInstruction, cpu: CPU, bus: B) -> u8 {
    match i {
        XORInstruction::AR8(r) => cpu.registers.spec_get_r8(r),
        XORInstruction::AHL => value_or_zero(bus.spec_read(cpu.registers.hl@)),
        XORInstruction::AN8(v) => v,
    }
}

/// OR leaves in A the bitwise OR of A and its operand v: a bit of the new A
/// is set exactly when it is set in the old A or in v. Z is set exactly when
/// the result is 0; N, H and C are cleared.
pub proof fn lemma_or_result<B: CPUBusTrait>(i: ORInstruction, cpu: CPU, bus: B)
    ensures
        ({
            let a = cpu.registers.af.spec_a();
            let v = or_operand(i, cpu, bus);
            let after = spec_execute(Instruction::ORInstruction(i), cpu, bus).0.registers;
            &&& after.af.spec_a() == a | v
            &&& forall|k: u8| k < 8 ==> #[trigger] crate::bits::bit_of(after.af.spec_a(), k) == (
            crate::bits::bit_of(a, k) || crate::bits::bit_of(v, k))
            &&& after.af.spec_f().spec_z() == (a | v == 0)
            &&& !after.af.spec_f().spec_n()
            &&& !after.af.spec_f().spec_h()
            &&& !after.af.spec_f().spec_c()
        }),
{
    let regs = cpu.registers;
    let a = regs.af.spec_a();
    let v = or_operand(i, cpu, bus);
    let result = a | v;
    crate::bits::lemma_or_xor_bits(a, v);
    let regs1 = CPURegisters { af: regs.af.spec_with_a(result), ..regs };
    crate::cpu::registers::lemma_af_register_with_a(regs.af, result);
    let f = regs1.af.spec_f();
    let f1 = f.spec_with_z(result == 0);
    let f2 = f1.spec_with_n(false);
    let f3 = f2.spec_with_h(false);
    let f4 = f3.spec_with_c(false);
    crate::cpu::registers::lemma_cpu_flags_with_z(f, result == 0);
    crate::cpu::registers::lemma_cpu_flags_with_n(f1, false);
    crate::cpu::registers::lemma_cpu_flags_with_h(f2, false);
    crate::cpu::registers::lemma_cpu_flags_with_c(f3, false);
    crate::cpu::registers::lemma_af_register_with_f(regs1.af, f4);
}

/// XOR leaves in A the bitwise exclusive OR of A and its operand v: a bit of
/// the new A is set exactly when it is set in one of the old A and v but not
/// both. The flags stay as they were.
pub proof fn lemma_xor_result<B: CPUBusTrait>(i: XORInstruction, cpu: CPU, bus: B)
    ensures
        ({
            let a = cpu.registers.af.spec_a();
            let v = xor_operand(i, cpu, bus);
            let after = spec_execute(Instruction::XORInstruction(i), cpu, bus).0.registers;
            &&& after.af.spec_a() == a ^ v
            &&& forall|k: u8| k < 8 ==> #[trigger] crate::bits::bit_of(after.af.spec_a(), k) == (
            crate::bits::bit_of(a, k) != crate::bits::bit_of(v, k))
            &&& after.af.spec_f() == cpu.registers.af.spec_f()
        }),
{
    let a = cpu.registers.af.spec_a();
    let v = xor_operand(i, cpu, bus);
    crate::bits::lemma_or_xor_bits(a, v);
    crate::cpu::registers::lemma_af_register_with_a(cpu.registers.af, a ^ v);
}

} // verus!
