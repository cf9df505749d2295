//! Arithmetic instructions: additions, subtractions, increments, decrements
//! and decimal adjustment.
use vstd::prelude::*;
use crate::bus::Bus;
use crate::cpu::CPU;
use crate::cpu::assembly::Assemble;
use crate::cpu::cpu_bus::CPUBusTrait;
use crate::cpu::instructions::{
    Execute, Instruction, InstructionBehavior, reg16_code, reg8_code, register16_code, register8_code,
    spec_bus_read, spec_execute, spec_executable, with_registers,
};
use crate::cpu::registers::{CPUFlags, CPURegisters, Register16, Register8};
use crate::text::{hex2, dec_i8, push_dec_i8, push_hex2};

verus! {

/// ADC: add a value and the carry to A.
#[derive(Debug, Clone, Copy, PartialEq, Eq, Structural)]
pub enum ADCInstruction {
    AR8(Register8),
    AHL,
    AN8(u8),
}

impl ADCInstruction {
    pub open spec fn spec_cycles(self) -> usize {
        match self {
            ADCInstruction::AHL | ADCInstruction::AN8(_) => 8,
            _ => 4,
        }
    }

    pub open spec fn spec_text(self) -> Seq<char> {
        match self {
            ADCInstruction::AR8(r) => "ADC A, "@ + r.spec_name(),
            ADCInstruction::AHL => "ADC A, [HL]"@,
            ADCInstruction::AN8(v) => "ADC A, 0x"@ + hex2(v),
        }
    }

    pub fn to_string(&self) -> (s: String)
        ensures
            s@ == self.spec_text(),
    {
        match self {
            ADCInstruction::AR8(r) => {
                let mut s = String::from_str("ADC A, ");
                s.append(r.as_ref());
                s
            },
            ADCInstruction::AHL => String::from_str("ADC A, [HL]"),
            ADCInstruction::AN8(v) => {
                let mut s = String::from_str("ADC A, 0x");
                push_hex2(&mut s, *v);
                s
            },
        }
    }
}

impl InstructionBehavior for ADCInstruction {
    open spec fn spec_instruction(&self) -> Instruction {
        Instruction::ADCInstruction(*self)
    }

    open spec fn spec_has_duration(&self) -> bool {
        true
    }

    open spec fn spec_duration(&self) -> usize {
        self.spec_cycles()
    }


    fn duration(&self) -> (r: usize) {
        match self {
            ADCInstruction::AHL | ADCInstruction::AN8(_) => 8,
            _ => 4,
        }
    }
}

impl Assemble for ADCInstruction {
    open spec fn spec_bytes(&self) -> Seq<u8> {
        match *self {
            ADCInstruction::AR8(r) => seq![(0x88 + reg8_code(r)) as u8],
            ADCInstruction::AHL => seq![0x8Eu8],
            ADCInstruction::AN8(v) => seq![0xCEu8, v],
        }
    }

    fn assemble(&self, dest: &mut Vec<u8>) -> (r: usize) {
        match self {
            ADCInstruction::AR8(r) => {
                dest.push(0x88 + register8_code(*r));
                1
            },
            ADCInstruction::AHL => {
                dest.push(0x8E);
                1
            },
            ADCInstruction::AN8(v) => {
                dest.push(0xCE);
                dest.push(*v);
                2
            },
        }
    }
}

/// ADD: add a value to A, an offset to SP, or a pair to HL.
#[derive(Debug, Clone, Copy, PartialEq, Eq, Structural)]
pub enum ADDInstruction {
    AR8(Register8),
    AHL,
    AN8(u8),
    SPE8(i8),
    HLR16(Register16),
    HLSP,
}

impl ADDInstruction {
    pub open spec fn spec_cycles(self) -> usize {
        match self {
            ADDInstruction::HLR16(_) | ADDInstruction::HLSP | ADDInstruction::AHL => 8,
            ADDInstruction::AR8(_) => 4,
            ADDInstruction::AN8(_) => 8,
            ADDInstruction::SPE8(_) => 16,
        }
    }

    pub open spec fn spec_text(self) -> Seq<char> {
        match self {
            ADDInstruction::AR8(r) => "ADD A, "@ + r.spec_name(),
            ADDInstruction::AHL => "ADD A, [HL]"@,
            ADDInstruction::AN8(v) => "ADD A, 0x"@ + hex2(v),
            ADDInstruction::SPE8(offset) => "ADD SP, "@ + dec_i8(offset),
            ADDInstruction::HLR16(r) => "ADD HL, "@ + r.spec_name(),
            ADDInstruction::HLSP => "ADD HL, SP"@,
        }
    }

    pub fn to_string(&self) -> (s: String)
        ensures
            s@ == self.spec_text(),
    {
        match self {
            ADDInstruction::AR8(r) => {
                let mut s = String::from_str("ADD A, ");
                s.append(r.as_ref());
                s
            },
            ADDInstruction::AHL => String::from_str("ADD A, [HL]"),
            ADDInstruction::AN8(v) => {
                let mut s = String::from_str("ADD A, 0x");
                push_hex2(&mut s, *v);
                s
            },
            ADDInstruction::SPE8(offset) => {
                let mut s = String::from_str("ADD SP, ");
                push_dec_i8(&mut s, *offset);
                s
            },
            ADDInstruction::HLR16(r) => {
                let mut s = String::from_str("ADD HL, ");
                s.append(r.as_ref());
                s
            },
            ADDInstruction::HLSP => String::from_str("ADD HL, SP"),
        }
    }
}

impl InstructionBehavior for ADDInstruction {
    open spec fn spec_instruction(&self) -> Instruction {
        Instruction::ADDInstruction(*self)
    }

    open spec fn spec_has_duration(&self) -> bool {
        true
    }

    open spec fn spec_duration(&self) -> usize {
        self.spec_cycles()
    }


    fn duration(&self) -> (r: usize) {
        match self {
            ADDInstruction::HLR16(_) | ADDInstruction::HLSP | ADDInstruction::AHL => 8,
            ADDInstruction::AR8(_) => 4,
            ADDInstruction::AN8(_) => 8,
            ADDInstruction::SPE8(_) => 16,
        }
    }
}

impl Assemble for ADDInstruction {
    open spec fn spec_bytes(&self) -> Seq<u8> {
        match *self {
            ADDInstruction::AR8(r) => seq![(0x80 + reg8_code(r)) as u8],
            ADDInstruction::AHL => seq![0x86u8],
            ADDInstruction::AN8(v) => seq![0xC6u8, v],
            ADDInstruction::SPE8(offset) => seq![0xE8u8, offset as u8],
            ADDInstruction::HLR16(r) => seq![(0x09 + 16 * reg16_code(r)) as u8],
            ADDInstruction::HLSP => seq![0x39u8],
        }
    }

    fn assemble(&self, dest: &mut Vec<u8>) -> (r: usize) {
        match self {
            ADDInstruction::AR8(r) => {
                dest.push(0x80 + register8_code(*r));
                1
            },
            ADDInstruction::AHL => {
                dest.push(0x86);
                1
            },
            ADDInstruction::AN8(v) => {
                dest.push(0xC6);
                dest.push(*v);
                2
            },
            ADDInstruction::SPE8(offset) => {
                dest.push(0xE8);
                dest.push(*offset as u8);
                2
            },
            ADDInstruction::HLR16(r) => {
                dest.push(0x09 + 16 * register16_code(*r));
                1
            },
            ADDInstruction::HLSP => {
                dest.push(0x39);
                1
            },
        }
    }
}

/// DAA: decimal-adjust A.
#[derive(Debug, Clone, Copy, PartialEq, Eq, Structural)]
pub enum DAAInstruction {
    Empty,
}

impl DAAInstruction {
    pub open spec fn spec_cycles(self) -> usize {
        4
    }

    pub open spec fn spec_text(self) -> Seq<char> {
        "DAA"@
    }

    pub fn to_string(&self) -> (s: String)
        ensures
            s@ == self.spec_text(),
    {
        String::from_str("DAA")
    }
}

impl InstructionBehavior for DAAInstruction {
    open spec fn spec_instruction(&self) -> Instruction {
        Instruction::DAAInstruction(*self)
    }

    open spec fn spec_has_duration(&self) -> bool {
        true
    }

    open spec fn spec_duration(&self) -> usize {
        self.spec_cycles()
    }


    fn duration(&self) -> (r: usize) {
        4
    }
}

impl Assemble for DAAInstruction {
    open spec fn spec_bytes(&self) -> Seq<u8> {
        seq![0x27u8]
    }

    fn assemble(&self, dest: &mut Vec<u8>) -> (r: usize) {
        dest.push(0x27);
        1
    }
}

/// The flags after a decrement that produced `new_value`: Z when it is 0, N
/// set, H when the low nibble borrowed (it is 0xF); C unchanged.
pub open spec fn flags_after_dec(f: CPUFlags, new_value: u8) -> CPUFlags {
    f.spec_with_z(new_value == 0).spec_with_n(true).spec_with_h(new_value & 0x0F == 0x0F)
}

/// The flags after an increment that produced `new_value`: Z when it is 0, N
/// clear, H when the low nibble carried (it is 0); C unchanged.
pub open spec fn flags_after_inc(f: CPUFlags, new_value: u8) -> CPUFlags {
    f.spec_with_z(new_value == 0).spec_with_n(false).spec_with_h(new_value & 0x0F == 0)
}

/// One less, wrapping from 0 to the maximum.
pub open spec fn dec8(v: u8) -> u8 {
    vstd::wrapping::u8_specs::wrapping_sub(v, 1)
}

pub open spec fn inc8(v: u8) -> u8 {
    vstd::wrapping::u8_specs::wrapping_add(v, 1)
}

pub open spec fn dec16(v: u16) -> u16 {
    vstd::wrapping::u16_specs::wrapping_sub(v, 1)
}

pub open spec fn inc16(v: u16) -> u16 {
    vstd::wrapping::u16_specs::wrapping_add(v, 1)
}

/// The registers with F replaced.
pub open spec fn with_flags(registers: CPURegisters, f: CPUFlags) -> CPURegisters {
    CPURegisters { af: registers.af.spec_with_f(f), ..registers }
}

/// DEC: decrement a register, the byte at HL, a pair or SP.
#[derive(Debug, Clone, Copy, PartialEq, Eq, Structural)]
pub enum DECInstruction {
    R8(Register8),
    HL,
    R16(Register16),
    SP,
}

pub open spec fn spec_executable_dec<B: CPUBusTrait>(i: DECInstruction, cpu: CPU, bus: B) -> bool {
    match i {
        DECInstruction::HL => <B as Bus<u16>>::spec_readable(cpu.registers.hl@) && <B as Bus<u16>>::spec_writable(
            cpu.registers.hl@,
        ),
        _ => true,
    }
}

pub open spec fn spec_execute_dec<B: CPUBusTrait>(i: DECInstruction, cpu: CPU, bus: B) -> (CPU, B) {
    let regs = cpu.registers;
    match i {
        DECInstruction::R8(r) => {
            let new_value = dec8(regs.spec_get_r8(r));
            let regs1 = regs.spec_set_r8(r, new_value);
            (with_registers(cpu, with_flags(regs1, flags_after_dec(regs1.af.spec_f(), new_value))), bus)
        },
        DECInstruction::HL => {
            let addr = regs.hl@;
            let (value, bus1) = spec_bus_read(bus, addr);
            let new_value = dec8(value);
            (
                with_registers(cpu, with_flags(regs, flags_after_dec(regs.af.spec_f(), new_value))),
                bus1.spec_after_write(addr, new_value),
            )
        },
        DECInstruction::R16(r) => (with_registers(cpu, regs.spec_set_r16(r, dec16(regs.spec_get_r16(r)))), bus),
        DECInstruction::SP => (with_registers(cpu, CPURegisters { sp: dec16(regs.sp), ..regs }), bus),
    }
}

impl DECInstruction {
    pub open spec fn spec_cycles(self) -> usize {
        match self {
            DECInstruction::R8(_) => 4,
            DECInstruction::HL => 12,
            DECInstruction::R16(_) => 8,
            DECInstruction::SP => 8,
        }
    }

    fn set_flags_after_dec(&self, registers: &mut CPURegisters, new_value: u8)
        ensures
            *final(registers) == with_flags(*old(registers), flags_after_dec(old(registers).af.spec_f(), new_value)),
    {
        registers.af.set_f(
            registers.af.f().with_z(new_value == 0).with_n(true).with_h(new_value & 0x0F == 0x0F),
        );
    }

    pub open spec fn spec_text(self) -> Seq<char> {
        match self {
            DECInstruction::R8(r) => "DEC "@ + r.spec_name(),
            DECInstruction::HL => "DEC HL"@,
            DECInstruction::R16(r) => "DEC "@ + r.spec_name(),
            DECInstruction::SP => "DEC SP"@,
        }
    }

    pub fn to_string(&self) -> (s: String)
        ensures
            s@ == self.spec_text(),
    {
        match self {
            DECInstruction::R8(r) => {
                let mut s = String::from_str("DEC ");
                s.append(r.as_ref());
                s
            },
            DECInstruction::HL => String::from_str("DEC HL"),
            DECInstruction::R16(r) => {
                let mut s = String::from_str("DEC ");
                s.append(r.as_ref());
                s
            },
            DECInstruction::SP => String::from_str("DEC SP"),
        }
    }
}

impl InstructionBehavior for DECInstruction {
    open spec fn spec_instruction(&self) -> Instruction {
        Instruction::DECInstruction(*self)
    }

    open spec fn spec_has_duration(&self) -> bool {
        true
    }

    open spec fn spec_duration(&self) -> usize {
        self.spec_cycles()
    }


    fn duration(&self) -> (r: usize) {
        match self {
            DECInstruction::R8(_) => 4,
            DECInstruction::HL => 12,
            DECInstruction::R16(_) => 8,
            DECInstruction::SP => 8,
        }
    }
}

impl Execute for DECInstruction {

    fn execute<B: CPUBusTrait>(&self, cpu: &mut CPU, cpu_bus: &mut B) {
        match self {
            DECInstruction::R8(register8) => {
                let registers = &mut cpu.registers;
                let value = registers.get_r8(*register8);
                let new_value = value.wrapping_sub(1);
                registers.set_r8(*register8, new_value);
                self.set_flags_after_dec(registers, new_value);
            },
            DECInstruction::HL => {
                let addr = cpu.registers.hl.into_bits();
                let value = cpu_bus.read(addr);
                let new_value = value.wrapping_sub(1);
                cpu_bus.write(addr, new_value);
                self.set_flags_after_dec(&mut cpu.registers, new_value);
            },
            DECInstruction::R16(register16) => {
                let registers = &mut cpu.registers;
                let value = registers.get_r16(*register16);
                registers.set_r16(*register16, value.wrapping_sub(1));
            },
            DECInstruction::SP => {
                let registers = &mut cpu.registers;
                registers.sp = registers.sp.wrapping_sub(1);
            },
        }
    }
}

impl Assemble for DECInstruction {
    open spec fn spec_bytes(&self) -> Seq<u8> {
        match *self {
            DECInstruction::R8(r) => seq![(0x05 + 8 * reg8_code(r)) as u8],
            DECInstruction::HL => seq![0x35u8],
            DECInstruction::R16(r) => seq![(0x0B + 16 * reg16_code(r)) as u8],
            DECInstruction::SP => seq![0x3Bu8],
        }
    }

    fn assemble(&self, dest: &mut Vec<u8>) -> (r: usize) {
        match self {
            DECInstruction::R8(r) => dest.push(0x05 + 8 * register8_code(*r)),
            DECInstruction::HL => dest.push(0x35),
            DECInstruction::R16(r) => dest.push(0x0B + 16 * register16_code(*r)),
            DECInstruction::SP => dest.push(0x3B),
        }
        1
    }
}

/// INC: increment a register, the byte at HL, a pair or SP.
#[derive(Debug, Clone, Copy, PartialEq, Eq, Structural)]
pub enum INCInstruction {
    R8(Register8),
    HL,
    R16(Register16),
    SP,
}

pub open spec fn spec_executable_inc<B: CPUBusTrait>(i: INCInstruction, cpu: CPU, bus: B) -> bool {
    match i {
        INCInstruction::HL => <B as Bus<u16>>::spec_readable(cpu.registers.hl@) && <B as Bus<u16>>::spec_writable(
            cpu.registers.hl@,
        ),
        _ => true,
    }
}

pub open spec fn spec_execute_inc<B: CPUBusTrait>(i: INCInstruction, cpu: CPU, bus: B) -> (CPU, B) {
    let regs = cpu.registers;
    match i {
        INCInstruction::R8(r) => {
            let new_value = inc8(regs.spec_get_r8(r));
            let regs1 = regs.spec_set_r8(r, new_value);
            (with_registers(cpu, with_flags(regs1, flags_after_inc(regs1.af.spec_f(), new_value))), bus)
        },
        INCInstruction::HL => {
            let addr = regs.hl@;
            let (value, bus1) = spec_bus_read(bus, addr);
            let new_value = inc8(value);
            (
                with_registers(cpu, with_flags(regs, flags_after_inc(regs.af.spec_f(), new_value))),
                bus1.spec_after_write(addr, new_value),
            )
        },
        INCInstruction::R16(r) => (with_registers(cpu, regs.spec_set_r16(r, inc16(regs.spec_get_r16(r)))), bus),
        INCInstruction::SP => (with_registers(cpu, CPURegisters { sp: inc16(regs.sp), ..regs }), bus),
    }
}

impl INCInstruction {
    pub open spec fn spec_cycles(self) -> usize {
        match self {
            INCInstruction::R8(_) => 4,
            INCInstruction::HL => 12,
            INCInstruction::R16(_) => 8,
            INCInstruction::SP => 8,
        }
    }

    fn set_flags_after_inc(&self, registers: &mut CPURegisters, new_value: u8)
        ensures
            *final(registers) == with_flags(*old(registers), flags_after_inc(old(registers).af.spec_f(), new_value)),
    {
        registers.af.set_f(
            registers.af.f().with_z(new_value == 0).with_n(false).with_h(new_value & 0x0F == 0),
        );
    }

    pub open spec fn spec_text(self) -> Seq<char> {
        match self {
            INCInstruction::R8(r) => "INC "@ + r.spec_name(),
            INCInstruction::HL => "INC HL"@,
            INCInstruction::R16(r) => "INC "@ + r.spec_name(),
            INCInstruction::SP => "INC SP"@,
        }
    }

    pub fn to_string(&self) -> (s: String)
        ensures
            s@ == self.spec_text(),
    {
        match self {
            INCInstruction::R8(r) => {
                let mut s = String::from_str("INC ");
                s.append(r.as_ref());
                s
            },
            INCInstruction::HL => String::from_str("INC HL"),
            INCInstruction::R16(r) => {
                let mut s = String::from_str("INC ");
                s.append(r.as_ref());
                s
            },
            INCInstruction::SP => String::from_str("INC SP"),
        }
    }
}

impl InstructionBehavior for INCInstruction {
    open spec fn spec_instruction(&self) -> Instruction {
        Instruction::INCInstruction(*self)
    }

    open spec fn spec_has_duration(&self) -> bool {
        true
    }

    open spec fn spec_duration(&self) -> usize {
        self.spec_cycles()
    }


    fn duration(&self) -> (r: usize) {
        match self {
            INCInstruction::R8(_) => 4,
            INCInstruction::HL => 12,
            INCInstruction::R16(_) => 8,
            INCInstruction::SP => 8,
        }
    }
}

impl Execute for INCInstruction {

    fn execute<B: CPUBusTrait>(&self, cpu: &mut CPU, cpu_bus: &mut B) {
        match self {
            INCInstruction::R8(register8) => {
                let registers = &mut cpu.registers;
                let value = registers.get_r8(*register8);
                let new_value = value.wrapping_add(1);
                registers.set_r8(*register8, new_value);
                self.set_flags_after_inc(registers, new_value);
            },
            INCInstruction::HL => {
                let addr = cpu.registers.hl.into_bits();
                let value = cpu_bus.read(addr);
                let new_value = value.wrapping_add(1);
                cpu_bus.write(addr, new_value);
                self.set_flags_after_inc(&mut cpu.registers, new_value);
            },
            INCInstruction::R16(register16) => {
                let registers = &mut cpu.registers;
                let value = registers.get_r16(*register16);
                registers.set_r16(*register16, value.wrapping_add(1));
            },
            INCInstruction::SP => {
                let registers = &mut cpu.registers;
                registers.sp = registers.sp.wrapping_add(1);
            },
        }
    }
}

impl Assemble for INCInstruction {
    open spec fn spec_bytes(&self) -> Seq<u8> {
        match *self {
            INCInstruction::R8(r) => seq![(0x04 + 8 * reg8_code(r)) as u8],
            INCInstruction::HL => seq![0x34u8],
            INCInstruction::R16(r) => seq![(0x03 + 16 * reg16_code(r)) as u8],
            INCInstruction::SP => seq![0x33u8],
        }
    }

    fn assemble(&self, dest: &mut Vec<u8>) -> (r: usize) {
        match self {
            INCInstruction::R8(r) => dest.push(0x04 + 8 * register8_code(*r)),
            INCInstruction::HL => dest.push(0x34),
            INCInstruction::R16(r) => dest.push(0x03 + 16 * register16_code(*r)),
            INCInstruction::SP => dest.push(0x33),
        }
        1
    }
}

/// SBC: subtract a value and the carry from A.
#[derive(Debug, Clone, Copy, PartialEq, Eq, Structural)]
pub enum SBCInstruction {
    AR8(Register8),
    AHL,
    AN8(u8),
}

impl SBCInstruction {
    pub open spec fn spec_text(self) -> Seq<char> {
        match self {
            SBCInstruction::AR8(r) => "SBC A, "@ + r.spec_name(),
            SBCInstruction::AHL => "SBC A, [HL]"@,
            SBCInstruction::AN8(v) => "SBC A, 0x"@ + hex2(v),
        }
    }

    pub fn to_string(&self) -> (s: String)
        ensures
            s@ == self.spec_text(),
    {
        match self {
            SBCInstruction::AR8(r) => {
                let mut s = String::from_str("SBC A, ");
                s.append(r.as_ref());
                s
            },
            SBCInstruction::AHL => String::from_str("SBC A, [HL]"),
            SBCInstruction::AN8(v) => {
                let mut s = String::from_str("SBC A, 0x");
                push_hex2(&mut s, *v);
                s
            },
        }
    }
}

impl InstructionBehavior for SBCInstruction {
    open spec fn spec_instruction(&self) -> Instruction {
        Instruction::SBCInstruction(*self)
    }

    open spec fn spec_has_duration(&self) -> bool {
        false
    }

    open spec fn spec_duration(&self) -> usize {
        0
    }


    fn duration(&self) -> (r: usize) {
        0
    }
}

impl Assemble for SBCInstruction {
    open spec fn spec_bytes(&self) -> Seq<u8> {
        match *self {
            SBCInstruction::AR8(r) => seq![(0x98 + reg8_code(r)) as u8],
            SBCInstruction::AHL => seq![0x9Eu8],
            SBCInstruction::AN8(v) => seq![0xDAu8, v],
        }
    }

    fn assemble(&self, dest: &mut Vec<u8>) -> (r: usize) {
        match self {
            SBCInstruction::AR8(r) => {
                dest.push(0x98 + register8_code(*r));
                1
            },
            SBCInstruction::AHL => {
                dest.push(0x9E);
                1
            },
            SBCInstruction::AN8(v) => {
                dest.push(0xDA);
                dest.push(*v);
                2
            },
        }
    }
}

/// SUB: subtract a value from A.
#[derive(Debug, Clone, Copy, PartialEq, Eq, Structural)]
pub enum SUBInstruction {
    AR8(Register8),
    AHL,
    AN8(u8),
}

impl SUBInstruction {
    pub open spec fn spec_cycles(self) -> usize {
        match self {
            SUBInstruction::AR8(_) => 4,
            SUBInstruction::AHL => 8,
            SUBInstruction::AN8(_) => 8,
        }
    }

    pub open spec fn spec_text(self) -> Seq<char> {
        match self {
            SUBInstruction::AR8(r) => "SUB A, "@ + r.spec_name(),
            SUBInstruction::AHL => "SUB A, [HL]"@,
            SUBInstruction::AN8(v) => "SUB A, 0x"@ + hex2(v),
        }
    }

    pub fn to_string(&self) -> (s: String)
        ensures
            s@ == self.spec_text(),
    {
        match self {
            SUBInstruction::AR8(r) => {
                let mut s = String::from_str("SUB A, ");
                s.append(r.as_ref());
                s
            },
            SUBInstruction::AHL => String::from_str("SUB A, [HL]"),
            SUBInstruction::AN8(v) => {
                let mut s = String::from_str("SUB A, 0x");
                push_hex2(&mut s, *v);
                s
            },
        }
    }
}

impl InstructionBehavior for SUBInstruction {
    open spec fn spec_instruction(&self) -> Instruction {
        Instruction::SUBInstruction(*self)
    }

    open spec fn spec_has_duration(&self) -> bool {
        true
    }

    open spec fn spec_duration(&self) -> usize {
        self.spec_cycles()
    }


    fn duration(&self) -> (r: usize) {
        match self {
            SUBInstruction::AR8(_) => 4,
            SUBInstruction::AHL => 8,
            SUBInstruction::AN8(_) => 8,
        }
    }
}

impl Assemble for SUBInstruction {
    open spec fn spec_bytes(&self) -> Seq<u8> {
        match *self {
            SUBInstruction::AR8(r) => seq![(0x90 + reg8_code(r)) as u8],
            SUBInstruction::AHL => seq![0x96u8],
            SUBInstruction::AN8(v) => seq![0xD6u8, v],
        }
    }

    fn assemble(&self, dest: &mut Vec<u8>) -> (r: usize) {
        match self {
            SUBInstruction::AR8(r) => {
                dest.push(0x90 + register8_code(*r));
                1
            },
            SUBInstruction::AHL => {
                dest.push(0x96);
                1
            },
            SUBInstruction::AN8(v) => {
                dest.push(0xD6);
                dest.push(*v);
                2
            },
        }
    }
}

/// DEC undoes INC and INC undoes DEC on an eight-bit register, wrapping
/// around at the ends: the register's value comes back (the flags are those
/// of the last instruction).
pub proof fn lemma_dec_undoes_inc_r8<B: CPUBusTrait>(cpu: CPU, bus: B, r8: Register8)
    ensures
        spec_execute_dec(DECInstruction::R8(r8), spec_execute_inc(INCInstruction::R8(r8), cpu, bus).0, bus).0.registers.spec_get_r8(r8)
            == cpu.registers.spec_get_r8(r8),
        spec_execute_inc(INCInstruction::R8(r8), spec_execute_dec(DECInstruction::R8(r8), cpu, bus).0, bus).0.registers.spec_get_r8(r8)
            == cpu.registers.spec_get_r8(r8),
{
    let regs = cpu.registers;
    let v = regs.spec_get_r8(r8);
    let up = regs.spec_set_r8(r8, inc8(v));
    let down = regs.spec_set_r8(r8, dec8(v));
    crate::cpu::registers::lemma_r8_write_then_read(regs, r8, inc8(v), r8);
    crate::cpu::registers::lemma_r8_write_then_read(regs, r8, dec8(v), r8);
    let up_f = with_flags(up, flags_after_inc(up.af.spec_f(), inc8(v)));
    let down_f = with_flags(down, flags_after_dec(down.af.spec_f(), dec8(v)));
    lemma_flags_keep_r8(up, flags_after_inc(up.af.spec_f(), inc8(v)), r8);
    lemma_flags_keep_r8(down, flags_after_dec(down.af.spec_f(), dec8(v)), r8);
    let back_down = up_f.spec_set_r8(r8, dec8(inc8(v)));
    let back_up = down_f.spec_set_r8(r8, inc8(dec8(v)));
    crate::cpu::registers::lemma_r8_write_then_read(up_f, r8, dec8(inc8(v)), r8);
    crate::cpu::registers::lemma_r8_write_then_read(down_f, r8, inc8(dec8(v)), r8);
    lemma_flags_keep_r8(back_down, flags_after_dec(back_down.af.spec_f(), dec8(inc8(v))), r8);
    lemma_flags_keep_r8(back_up, flags_after_inc(back_up.af.spec_f(), inc8(dec8(v))), r8);
}

/// Replacing the flags keeps every eight-bit register.
proof fn lemma_flags_keep_r8(regs: CPURegisters, f: CPUFlags, r8: Register8)
    ensures
        with_flags(regs, f).spec_get_r8(r8) == regs.spec_get_r8(r8),
{
    crate::cpu::registers::lemma_af_register_with_f(regs.af, f);
}

/// DEC undoes INC and INC undoes DEC on a register pair, wrapping around at
/// the ends: the whole CPU comes back, the bus untouched.
pub proof fn lemma_dec_undoes_inc_r16<B: CPUBusTrait>(cpu: CPU, bus: B, r16: Register16)
    ensures
        spec_execute_dec(DECInstruction::R16(r16), spec_execute_inc(INCInstruction::R16(r16), cpu, bus).0, bus) == (cpu, bus),
        spec_execute_inc(INCInstruction::R16(r16), spec_execute_dec(DECInstruction::R16(r16), cpu, bus).0, bus) == (cpu, bus),
{
    let regs = cpu.registers;
    let v = regs.spec_get_r16(r16);
    crate::cpu::registers::lemma_r16_write_then_read(regs, r16, inc16(v), r16);
    crate::cpu::registers::lemma_r16_write_then_read(regs, r16, dec16(v), r16);
    match r16 {
        Register16::BC => {
            crate::cpu::registers::lemma_bc_register_from_own_bits(regs.bc);
        },
        Register16::DE => {
            crate::cpu::registers::lemma_de_register_from_own_bits(regs.de);
        },
        Register16::HL => {
            crate::cpu::registers::lemma_hl_register_from_own_bits(regs.hl);
        },
    }
}

/// DEC undoes INC and INC undoes DEC on SP, wrapping around at the ends: the
/// whole CPU comes back, the bus untouched.
pub proof fn lemma_dec_undoes_inc_sp<B: CPUBusTrait>(cpu: CPU, bus: B)
    ensures
        spec_execute_dec(DECInstruction::SP, spec_execute_inc(INCInstruction::SP, cpu, bus).0, bus) == (cpu, bus),
        spec_execute_inc(INCInstruction::SP, spec_execute_dec(DECInstruction::SP, cpu, bus).0, bus) == (cpu, bus),
{
}

/// One more and one less than a byte, wrapping, and when their low nibbles
/// carry or borrow.
proof fn lemma_byte_step(v: u8)
    ensures
        inc8(v) == (v + 1) % 256,
        dec8(v) == (v + 255) % 256,
        (inc8(v) % 16 == 0) == (v % 16 == 15),
        (dec8(v) % 16 == 15) == (v % 16 == 0),
{
    assert((inc8(v) % 16 == 0) == (v % 16 == 15) && (dec8(v) % 16 == 15) == (v % 16 == 0)) by (bit_vector)
        requires
            inc8(v) == (if v == 255 { 0u8 } else { (v + 1) as u8 }),
            dec8(v) == (if v == 0 { 255u8 } else { (v - 1) as u8 }),
    ;
}

/// The flags an increment or decrement leaves, field by field.
proof fn lemma_inc_dec_flag_fields(f: CPUFlags, new_value: u8)
    ensures
        flags_after_inc(f, new_value).spec_z() == (new_value == 0),
        !flags_after_inc(f, new_value).spec_n(),
        flags_after_inc(f, new_value).spec_h() == (new_value % 16 == 0),
        flags_after_inc(f, new_value).spec_c() == f.spec_c(),
        flags_after_dec(f, new_value).spec_z() == (new_value == 0),
        flags_after_dec(f, new_value).spec_n(),
        flags_after_dec(f, new_value).spec_h() == (new_value % 16 == 15),
        flags_after_dec(f, new_value).spec_c() == f.spec_c(),
{
    crate::bits::lemma_low_nibble(new_value);
    crate::cpu::registers::lemma_cpu_flags_with_z(f, new_value == 0);
    crate::cpu::registers::lemma_cpu_flags_with_n(f.spec_with_z(new_value == 0), false);
    crate::cpu::registers::lemma_cpu_flags_with_n(f.spec_with_z(new_value == 0), true);
    crate::cpu::registers::lemma_cpu_flags_with_h(f.spec_with_z(new_value == 0).spec_with_n(false), new_value & 0x0F == 0);
    crate::cpu::registers::lemma_cpu_flags_with_h(f.spec_with_z(new_value == 0).spec_with_n(true), new_value & 0x0F == 0x0F);
}

/// INC on an eight-bit register adds one, wrapping from 0xFF to 0: Z is set
/// exactly when the result is 0, N is cleared, H is set exactly when the low
/// nibble carries (the old low nibble was 0xF), and C stays.
pub proof fn lemma_inc_r8_adds_one<B: CPUBusTrait>(r: Register8, cpu: CPU, bus: B)
    ensures
        ({
            let v = cpu.registers.spec_get_r8(r);
            let after = spec_execute(Instruction::INCInstruction(INCInstruction::R8(r)), cpu, bus).0.registers;
            &&& after.spec_get_r8(r) == (v + 1) % 256
            &&& after.af.spec_f().spec_z() == ((v + 1) % 256 == 0)
            &&& !after.af.spec_f().spec_n()
            &&& after.af.spec_f().spec_h() == (v % 16 == 15)
            &&& after.af.spec_f().spec_c() == cpu.registers.af.spec_f().spec_c()
        }),
{
    let regs = cpu.registers;
    let v = regs.spec_get_r8(r);
    let n = inc8(v);
    let regs1 = regs.spec_set_r8(r, n);
    let f1 = flags_after_inc(regs1.af.spec_f(), n);
    lemma_byte_step(v);
    crate::cpu::registers::lemma_r8_write_then_read(regs, r, n, r);
    lemma_flags_keep_r8(regs1, f1, r);
    lemma_inc_dec_flag_fields(regs1.af.spec_f(), n);
    crate::cpu::registers::lemma_af_register_with_f(regs1.af, f1);
    assert(spec_execute(Instruction::INCInstruction(INCInstruction::R8(r)), cpu, bus).0.registers == with_flags(regs1, f1));
}

/// DEC on an eight-bit register subtracts one, wrapping from 0 to 0xFF: Z is
/// set exactly when the result is 0, N is set, H is set exactly when the low
/// nibble borrows (the old low nibble was 0), and C stays.
pub proof fn lemma_dec_r8_subtracts_one<B: CPUBusTrait>(r: Register8, cpu: CPU, bus: B)
    ensures
        ({
            let v = cpu.registers.spec_get_r8(r);
            let after = spec_execute(Instruction::DECInstruction(DECInstruction::R8(r)), cpu, bus).0.registers;
            &&& after.spec_get_r8(r) == (v + 255) % 256
            &&& after.af.spec_f().spec_z() == ((v + 255) % 256 == 0)
            &&& after.af.spec_f().spec_n()
            &&& after.af.spec_f().spec_h() == (v % 16 == 0)
            &&& after.af.spec_f().spec_c() == cpu.registers.af.spec_f().spec_c()
        }),
{
    let regs = cpu.registers;
    let v = regs.spec_get_r8(r);
    let n = dec8(v);
    let regs1 = regs.spec_set_r8(r, n);
    let f1 = flags_after_dec(regs1.af.spec_f(), n);
    lemma_byte_step(v);
    crate::cpu::registers::lemma_r8_write_then_read(regs, r, n, r);
    lemma_flags_keep_r8(regs1, f1, r);
    lemma_inc_dec_flag_fields(regs1.af.spec_f(), n);
    crate::cpu::registers::lemma_af_register_with_f(regs1.af, f1);
    assert(spec_execute(Instruction::DECInstruction(DECInstruction::R8(r)), cpu, bus).0.registers == with_flags(regs1, f1));
}

/// INC and DEC on a register pair or SP add or subtract one, wrapping around
/// at 0xFFFF, and leave the flags as they were.
pub proof fn lemma_inc_dec_words<B: CPUBusTrait>(r: Register16, cpu: CPU, bus: B)
    ensures
        ({
            let regs = cpu.registers;
            let v = regs.spec_get_r16(r);
            let up = spec_execute(Instruction::INCInstruction(INCInstruction::R16(r)), cpu, bus).0.registers;
            let down = spec_execute(Instruction::DECInstruction(DECInstruction::R16(r)), cpu, bus).0.registers;
            let sp_up = spec_execute(Instruction::INCInstruction(INCInstruction::SP), cpu, bus).0.registers;
            let sp_down = spec_execute(Instruction::DECInstruction(DECInstruction::SP), cpu, bus).0.registers;
            &&& up.spec_get_r16(r) == (v + 1) % 0x10000
            &&& down.spec_get_r16(r) == (v + 0xFFFF) % 0x10000
            &&& sp_up.sp == (regs.sp + 1) % 0x10000
            &&& sp_down.sp == (regs.sp + 0xFFFF) % 0x10000
            &&& up.af == regs.af
            &&& down.af == regs.af
            &&& sp_up.af == regs.af
            &&& sp_down.af == regs.af
        }),
{
    let regs = cpu.registers;
    let v = regs.spec_get_r16(r);
    crate::cpu::instructions::load::lemma_step_wraps(v);
    crate::cpu::instructions::load::lemma_step_wraps(regs.sp);
    crate::cpu::registers::lemma_r16_write_then_read(regs, r, inc16(v), r);
    crate::cpu::registers::lemma_r16_write_then_read(regs, r, dec16(v), r);
    assert(spec_execute(Instruction::INCInstruction(INCInstruction::R16(r)), cpu, bus).0.registers == regs.spec_set_r16(r, inc16(v)));
    assert(spec_execute(Instruction::DECInstruction(DECInstruction::R16(r)), cpu, bus).0.registers == regs.spec_set_r16(r, dec16(v)));
}

/// INC [HL] and DEC [HL] read the byte at HL and write it back one more or one
/// less, wrapping around; the flags follow the new byte as for a register.
pub proof fn lemma_inc_dec_memory<B: CPUBusTrait>(cpu: CPU, bus: B)
    ensures
        ({
            let hl = cpu.registers.hl@;
            let v = crate::bus::value_or_zero(bus.spec_read(hl));
            let (up, up_bus) = spec_execute(Instruction::INCInstruction(INCInstruction::HL), cpu, bus);
            let (down, down_bus) = spec_execute(Instruction::DECInstruction(DECInstruction::HL), cpu, bus);
            &&& up_bus == bus.spec_after_read(hl).spec_after_write(hl, ((v + 1) % 256) as u8)
            &&& down_bus == bus.spec_after_read(hl).spec_after_write(hl, ((v + 255) % 256) as u8)
            &&& up.registers.af.spec_f().spec_z() == ((v + 1) % 256 == 0)
            &&& up.registers.af.spec_f().spec_h() == (v % 16 == 15)
            &&& down.registers.af.spec_f().spec_z() == ((v + 255) % 256 == 0)
            &&& down.registers.af.spec_f().spec_h() == (v % 16 == 0)
            &&& up.registers.af.spec_a() == cpu.registers.af.spec_a()
            &&& down.registers.af.spec_a() == cpu.registers.af.spec_a()
        }),
{
    let regs = cpu.registers;
    let v = crate::bus::value_or_zero(bus.spec_read(regs.hl@));
    lemma_byte_step(v);
    lemma_inc_dec_flag_fields(regs.af.spec_f(), inc8(v));
    lemma_inc_dec_flag_fields(regs.af.spec_f(), dec8(v));
    crate::cpu::registers::lemma_af_register_with_f(regs.af, flags_after_inc(regs.af.spec_f(), inc8(v)));
    crate::cpu::registers::lemma_af_register_with_f(regs.af, flags_after_dec(regs.af.spec_f(), dec8(v)));
}

} // verus!
