//! Load instructions: between registers, immediates and memory.
use vstd::prelude::*;
use crate::bus::Bus;
use crate::cpu::CPU;
use crate::cpu::assembly::Assemble;
use crate::cpu::cpu_bus::CPUBusTrait;
use crate::cpu::instructions::{
    Execute, Instruction, InstructionBehavior, le_bytes, push_le16, reg8_code, register8_code, spec_bus_read,
    spec_execute, spec_executable, with_registers,
};
use crate::cpu::instructions::arithmetic::{dec16, inc16};
use crate::cpu::registers::{CPURegisters, HLRegister, Register16, Register8};
use crate::text::{dec, hex2, hex4, push_dec, push_hex2, push_hex4};

verus! {

/// LD: copy a byte or a word between registers, immediates and memory.
#[derive(Debug, Clone, Copy, PartialEq, Eq, Structural)]
pub enum LDInstruction {
    R8R8(Register8, Register8),
    R8N8(Register8, u8),
    R16N16(Register16, u16),
    SPN16(u16),
    N16SP(u16),
    HLR8(Register8),
    HLN8(u8),
    R8HL(Register8),
    R16A(Register16),
    N16A(u16),
    AR16(Register16),
    AN16(u16),
    HLIA,
    HLDA,
    AHLI,
    AHLD,
    HLSPE8(i8),
    SPHL,
}

pub open spec fn spec_executable_ld<B: CPUBusTrait>(i: LDInstruction, cpu: CPU, bus: B) -> bool {
    let regs = cpu.registers;
    match i {
        LDInstruction::N16SP(addr) => addr < 0xFFFF && <B as Bus<u16>>::spec_writable(addr) && <B as Bus<
            u16,
        >>::spec_writable((addr + 1) as u16),
        LDInstruction::HLR8(_) | LDInstruction::HLN8(_) | LDInstruction::HLIA | LDInstruction::HLDA => <B as Bus<
            u16,
        >>::spec_writable(regs.hl@),
        LDInstruction::R8HL(_) | LDInstruction::AHLI | LDInstruction::AHLD => <B as Bus<u16>>::spec_readable(regs.hl@),
        LDInstruction::R16A(r) => <B as Bus<u16>>::spec_writable(regs.spec_get_r16(r)),
        LDInstruction::N16A(addr) => <B as Bus<u16>>::spec_writable(addr),
        LDInstruction::AR16(r) => <B as Bus<u16>>::spec_readable(regs.spec_get_r16(r)),
        LDInstruction::AN16(addr) => <B as Bus<u16>>::spec_readable(addr),
        LDInstruction::HLSPE8(_) | LDInstruction::SPHL => false,
        _ => true,
    }
}

/// The registers with A replaced.
pub open spec fn with_a(regs: CPURegisters, value: u8) -> CPURegisters {
    CPURegisters { af: regs.af.spec_with_a(value), ..regs }
}

pub open spec fn spec_execute_ld<B: CPUBusTrait>(i: LDInstruction, cpu: CPU, bus: B) -> (CPU, B) {
    let regs = cpu.registers;
    let a = regs.af.spec_a();
    let hl = regs.hl@;
    match i {
        LDInstruction::R8R8(to, from) => (with_registers(cpu, regs.spec_set_r8(to, regs.spec_get_r8(from))), bus),
        LDInstruction::R8N8(to, value) => (with_registers(cpu, regs.spec_set_r8(to, value)), bus),
        LDInstruction::R16N16(to, value) => (with_registers(cpu, regs.spec_set_r16(to, value)), bus),
        LDInstruction::SPN16(value) => (with_registers(cpu, CPURegisters { sp: value, ..regs }), bus),
        LDInstruction::N16SP(addr) => (
            cpu,
            bus.spec_after_write(addr, (regs.sp & 0xFF) as u8).spec_after_write((addr + 1) as u16, (regs.sp >> 8) as u8),
        ),
        LDInstruction::HLR8(from) => (cpu, bus.spec_after_write(hl, regs.spec_get_r8(from))),
        LDInstruction::HLN8(value) => (cpu, bus.spec_after_write(hl, value)),
        LDInstruction::R8HL(to) => {
            let (value, bus1) = spec_bus_read(bus, hl);
            (with_registers(cpu, regs.spec_set_r8(to, value)), bus1)
        },
        LDInstruction::R16A(r) => (cpu, bus.spec_after_write(regs.spec_get_r16(r), a)),
        LDInstruction::N16A(addr) => (cpu, bus.spec_after_write(addr, a)),
        LDInstruction::AR16(r) => {
            let (value, bus1) = spec_bus_read(bus, regs.spec_get_r16(r));
            (with_registers(cpu, with_a(regs, value)), bus1)
        },
        LDInstruction::AN16(addr) => {
            let (value, bus1) = spec_bus_read(bus, addr);
            (with_registers(cpu, with_a(regs, value)), bus1)
        },
        LDInstruction::HLIA => (
            with_registers(cpu, CPURegisters { hl: HLRegister::spec_from_bits(inc16(hl)), ..regs }),
            bus.spec_after_write(hl, a),
        ),
        LDInstruction::HLDA => (
            with_registers(cpu, CPURegisters { hl: HLRegister::spec_from_bits(dec16(hl)), ..regs }),
            bus.spec_after_write(hl, a),
        ),
        LDInstruction::AHLI => {
            let (value, bus1) = spec_bus_read(bus, hl);
            (with_registers(cpu, CPURegisters { hl: HLRegister::spec_from_bits(inc16(hl)), ..with_a(regs, value) }), bus1)
        },
        LDInstruction::AHLD => {
            let (value, bus1) = spec_bus_read(bus, hl);
            (with_registers(cpu, CPURegisters { hl: HLRegister::spec_from_bits(dec16(hl)), ..with_a(regs, value) }), bus1)
        },
        LDInstruction::HLSPE8(_) | LDInstruction::SPHL => (cpu, bus),
    }
}

impl LDInstruction {
    pub open spec fn spec_cycles(self) -> usize {
        match self {
            LDInstruction::R8R8(_, _) => 4,
            LDInstruction::R8N8(_, _) => 8,
            LDInstruction::R16N16(_, _) => 12,
            LDInstruction::SPN16(_) => 12,
            LDInstruction::N16SP(_) => 20,
            LDInstruction::HLR8(_) => 8,
            LDInstruction::HLN8(_) => 12,
            LDInstruction::R8HL(_) => 8,
            LDInstruction::R16A(_) => 8,
            LDInstruction::N16A(_) => 16,
            LDInstruction::AR16(_) => 8,
            LDInstruction::AN16(_) => 16,
            LDInstruction::HLIA => 8,
            LDInstruction::HLDA => 8,
            LDInstruction::AHLI => 8,
            LDInstruction::AHLD => 8,
            LDInstruction::HLSPE8(_) => 12,
            LDInstruction::SPHL => 8,
        }
    }

    /// Whether the instruction can be printed: the magnitude of an offset of
    /// -128 does not fit a signed byte.
    pub open spec fn spec_has_text(self) -> bool {
        !(self == LDInstruction::HLSPE8(-128i8))
    }

    pub open spec fn spec_text(self) -> Seq<char> {
        match self {
            LDInstruction::R8R8(to, from) => "LD "@ + to.spec_name() + ", "@ + from.spec_name(),
            LDInstruction::R8N8(to, value) => "LD "@ + to.spec_name() + ", 0x"@ + hex2(value),
            LDInstruction::R16N16(to, value) => "LD "@ + to.spec_name() + ", 0x"@ + hex4(value),
            LDInstruction::SPN16(value) => "LD SP, 0x"@ + hex4(value),
            LDInstruction::N16SP(to) => "LD [$"@ + hex4(to) + "], SP"@,
            LDInstruction::HLR8(from) => "LD [HL], "@ + from.spec_name(),
            LDInstruction::HLN8(value) => "LD [HL], 0x"@ + hex2(value),
            LDInstruction::R8HL(to) => "LD "@ + to.spec_name() + ", [HL]"@,
            LDInstruction::R16A(r) => "LD ["@ + r.spec_name() + "], A"@,
            LDInstruction::N16A(to) => "LD [$"@ + hex4(to) + "], A"@,
            LDInstruction::AR16(r) => "LD A, ["@ + r.spec_name() + "]"@,
            LDInstruction::AN16(from) => "LD A, [$"@ + hex4(from) + "]"@,
            LDInstruction::HLIA => "LD [HL+], A"@,
            LDInstruction::HLDA => "LD [HL-], A"@,
            LDInstruction::AHLI => "LD A, [HL+]"@,
            LDInstruction::AHLD => "LD A, [HL-]"@,
            LDInstruction::HLSPE8(offset) => "LD HL, SP "@ + (if offset < 0 {
                "-"@
            } else {
                "+"@
            }) + " "@ + dec((if offset < 0 {
                -offset
            } else {
                offset as int
            }) as nat),
            LDInstruction::SPHL => "LD SP, HL"@,
        }
    }

    pub fn to_string(&self) -> (s: String)
        requires
            self.spec_has_text(),
        ensures
            s@ == self.spec_text(),
    {
        match self {
            LDInstruction::R8R8(to, from) => {
                let mut s = String::from_str("LD ");
                s.append(to.as_ref());
                s.append(", ");
                s.append(from.as_ref());
                s
            },
            LDInstruction::R8N8(to, value) => {
                let mut s = String::from_str("LD ");
                s.append(to.as_ref());
                s.append(", 0x");
                push_hex2(&mut s, *value);
                s
            },
            LDInstruction::R16N16(to, value) => {
                let mut s = String::from_str("LD ");
                s.append(to.as_ref());
                s.append(", 0x");
                push_hex4(&mut s, *value);
                s
            },
            LDInstruction::SPN16(value) => {
                let mut s = String::from_str("LD SP, 0x");
                push_hex4(&mut s, *value);
                s
            },
            LDInstruction::N16SP(to) => {
                let mut s = String::from_str("LD [$");
                push_hex4(&mut s, *to);
                s.append("], SP");
                s
            },
            LDInstruction::HLR8(from) => {
                let mut s = String::from_str("LD [HL], ");
                s.append(from.as_ref());
                s
            },
            LDInstruction::HLN8(value) => {
                let mut s = String::from_str("LD [HL], 0x");
                push_hex2(&mut s, *value);
                s
            },
            LDInstruction::R8HL(to) => {
                let mut s = String::from_str("LD ");
                s.append(to.as_ref());
                s.append(", [HL]");
                s
            },
            LDInstruction::R16A(r) => {
                let mut s = String::from_str("LD [");
                s.append(r.as_ref());
                s.append("], A");
                s
            },
            LDInstruction::N16A(to) => {
                let mut s = String::from_str("LD [$");
                push_hex4(&mut s, *to);
                s.append("], A");
                s
            },
            LDInstruction::AR16(r) => {
                let mut s = String::from_str("LD A, [");
                s.append(r.as_ref());
                s.append("]");
                s
            },
            LDInstruction::AN16(from) => {
                let mut s = String::from_str("LD A, [$");
                push_hex4(&mut s, *from);
                s.append("]");
                s
            },
            LDInstruction::HLIA => String::from_str("LD [HL+], A"),
            LDInstruction::HLDA => String::from_str("LD [HL-], A"),
            LDInstruction::AHLI => String::from_str("LD A, [HL+]"),
            LDInstruction::AHLD => String::from_str("LD A, [HL-]"),
            LDInstruction::HLSPE8(offset) => {
                let mut s = String::from_str("LD HL, SP ");
                s.append(if *offset < 0 { "-" } else { "+" });
                s.append(" ");
                let magnitude: u16 = if *offset < 0 {
                    (0i16 - (*offset as i16)) as u16
                } else {
                    *offset as u16
                };
                push_dec(&mut s, magnitude);
                s
            },
            LDInstruction::SPHL => String::from_str("LD SP, HL"),
        }
    }
}

impl InstructionBehavior for LDInstruction {
    open spec fn spec_instruction(&self) -> Instruction {
        Instruction::LDInstruction(*self)
    }

    open spec fn spec_has_duration(&self) -> bool {
        true
    }

    open spec fn spec_duration(&self) -> usize {
        self.spec_cycles()
    }


    fn duration(&self) -> (r: usize) {
        match self {
            LDInstruction::R8R8(_, _) => 4,
            LDInstruction::R8N8(_, _) => 8,
            LDInstruction::R16N16(_, _) => 12,
            LDInstruction::SPN16(_) => 12,
            LDInstruction::N16SP(_) => 20,
            LDInstruction::HLR8(_) => 8,
            LDInstruction::HLN8(_) => 12,
            LDInstruction::R8HL(_) => 8,
            LDInstruction::R16A(_) => 8,
            LDInstruction::N16A(_) => 16,
            LDInstruction::AR16(_) => 8,
            LDInstruction::AN16(_) => 16,
            LDInstruction::HLIA => 8,
            LDInstruction::HLDA => 8,
            LDInstruction::AHLI => 8,
            LDInstruction::AHLD => 8,
            LDInstruction::HLSPE8(_) => 12,
            LDInstruction::SPHL => 8,
        }
    }
}

impl Execute for LDInstruction {

    fn execute<B: CPUBusTrait>(&self, cpu: &mut CPU, cpu_bus: &mut B) {
        match self {
            LDInstruction::R8R8(to, from) => {
                let registers = &mut cpu.registers;
                let value = registers.get_r8(*from);
                registers.set_r8(*to, value);
            },
            LDInstruction::R8N8(to, value) => cpu.registers.set_r8(*to, *value),
            LDInstruction::R16N16(to, value) => cpu.registers.set_r16(*to, *value),
            LDInstruction::SPN16(value) => cpu.registers.sp = *value,
            LDInstruction::N16SP(addr) => {
                let sp = cpu.registers.sp;
                cpu_bus.write(*addr, (sp & 0xFF) as u8);
                cpu_bus.write(*addr + 1, (sp >> 8) as u8);
            },
            LDInstruction::HLR8(from) => {
                let to = cpu.registers.hl.into_bits();
                let value = cpu.registers.get_r8(*from);
                cpu_bus.write(to, value);
            },
            LDInstruction::HLN8(value) => {
                let to = cpu.registers.hl.into_bits();
                cpu_bus.write(to, *value);
            },
            LDInstruction::R8HL(to) => {
                let addr = cpu.registers.hl.into_bits();
                let value = cpu_bus.read(addr);
                cpu.registers.set_r8(*to, value);
            },
            LDInstruction::R16A(to) => {
                let addr = cpu.registers.get_r16(*to);
                let value = cpu.registers.af.a();
                cpu_bus.write(addr, value);
            },
            LDInstruction::N16A(addr) => {
                let value = cpu.registers.af.a();
                cpu_bus.write(*addr, value);
            },
            LDInstruction::AR16(register16) => {
                let addr = cpu.registers.get_r16(*register16);
                let value = cpu_bus.read(addr);
                cpu.registers.af.set_a(value);
            },
            LDInstruction::AN16(addr) => {
                let value = cpu_bus.read(*addr);
                cpu.registers.af.set_a(value);
            },
            LDInstruction::HLIA => {
                let to = cpu.registers.hl.into_bits();
                let value = cpu.registers.af.a();
                cpu_bus.write(to, value);
                cpu.registers.hl = HLRegister::from_bits(to.wrapping_add(1));
            },
            LDInstruction::HLDA => {
                let to = cpu.registers.hl.into_bits();
                let value = cpu.registers.af.a();
                cpu_bus.write(to, value);
                cpu.registers.hl = HLRegister::from_bits(to.wrapping_sub(1));
            },
            LDInstruction::AHLI => {
                let addr = cpu.registers.hl.into_bits();
                let value = cpu_bus.read(addr);
                let registers = &mut cpu.registers;
                registers.af.set_a(value);
                registers.hl = HLRegister::from_bits(addr.wrapping_add(1));
            },
            LDInstruction::AHLD => {
                let addr = cpu.registers.hl.into_bits();
                let value = cpu_bus.read(addr);
                let registers = &mut cpu.registers;
                registers.af.set_a(value);
                registers.hl = HLRegister::from_bits(addr.wrapping_sub(1));
            },
            LDInstruction::HLSPE8(_) => {},
            LDInstruction::SPHL => {},
        }
    }
}

impl Assemble for LDInstruction {
    open spec fn spec_bytes(&self) -> Seq<u8> {
        match *self {
            LDInstruction::R8R8(to, from) => seq![(0x40 + 8 * reg8_code(to) + reg8_code(from)) as u8],
            LDInstruction::R8N8(to, value) => seq![(0x06 + 8 * reg8_code(to)) as u8, value],
            LDInstruction::R16N16(r, value) => seq![
                match r {
                    Register16::BC => 0x01u8,
                    Register16::DE => 0x11u8,
                    Register16::HL => 0x12u8,
                },
            ] + le_bytes(value),
            LDInstruction::SPN16(value) => seq![0x31u8] + le_bytes(value),
            LDInstruction::N16SP(value) => seq![0x08u8] + le_bytes(value),
            LDInstruction::HLR8(from) => seq![(0x70 + reg8_code(from)) as u8],
            LDInstruction::HLN8(value) => seq![0x36u8, value],
            LDInstruction::R8HL(to) => seq![(0x46 + 8 * reg8_code(to)) as u8],
            LDInstruction::R16A(r) => seq![
                match r {
                    Register16::BC => 0x02u8,
                    Register16::DE => 0x12u8,
                    Register16::HL => 0x77u8,
                },
            ],
            LDInstruction::N16A(value) => seq![0xEAu8] + le_bytes(value),
            LDInstruction::AR16(r) => seq![
                match r {
                    Register16::BC => 0x0Au8,
                    Register16::DE => 0x1Au8,
                    Register16::HL => 0x7Eu8,
                },
            ],
            LDInstruction::AN16(value) => seq![0xFAu8] + le_bytes(value),
            LDInstruction::HLIA => seq![0x22u8],
            LDInstruction::HLDA => seq![0x32u8],
            LDInstruction::AHLI => seq![0x2Au8],
            LDInstruction::AHLD => seq![0x3Au8],
            LDInstruction::HLSPE8(offset) => seq![0xF8u8, offset as u8],
            LDInstruction::SPHL => seq![0xF9u8],
        }
    }

    fn assemble(&self, dest: &mut Vec<u8>) -> (r: usize) {
        match self {
            LDInstruction::R8R8(to, from) => {
                dest.push(0x40 + 8 * register8_code(*to) + register8_code(*from));
                1
            },
            LDInstruction::R8N8(to, value) => {
                dest.push(0x06 + 8 * register8_code(*to));
                dest.push(*value);
                2
            },
            LDInstruction::R16N16(r, value) => {
                dest.push(
                    match r {
                        Register16::BC => 0x01,
                        Register16::DE => 0x11,
                        Register16::HL => 0x12,
                    },
                );
                push_le16(dest, *value);
                3
            },
            LDInstruction::SPN16(value) => {
                dest.push(0x31);
                push_le16(dest, *value);
                3
            },
            LDInstruction::N16SP(value) => {
                dest.push(0x08);
                push_le16(dest, *value);
                3
            },
            LDInstruction::HLR8(from) => {
                dest.push(0x70 + register8_code(*from));
                1
            },
            LDInstruction::HLN8(value) => {
                dest.push(0x36);
                dest.push(*value);
                2
            },
            LDInstruction::R8HL(to) => {
                dest.push(0x46 + 8 * register8_code(*to));
                1
            },
            LDInstruction::R16A(r) => {
                dest.push(
                    match r {
                        Register16::BC => 0x02,
                        Register16::DE => 0x12,
                        Register16::HL => 0x77,
                    },
                );
                1
            },
            LDInstruction::N16A(value) => {
                dest.push(0xEA);
                push_le16(dest, *value);
                3
            },
            LDInstruction::AR16(r) => {
                dest.push(
                    match r {
                        Register16::BC => 0x0A,
                        Register16::DE => 0x1A,
                        Register16::HL => 0x7E,
                    },
                );
                1
            },
            LDInstruction::AN16(value) => {
                dest.push(0xFA);
                push_le16(dest, *value);
                3
            },
            LDInstruction::HLIA => {
                dest.push(0x22);
                1
            },
            LDInstruction::HLDA => {
                dest.push(0x32);
                1
            },
            LDInstruction::AHLI => {
                dest.push(0x2A);
                1
            },
            LDInstruction::AHLD => {
                dest.push(0x3A);
                1
            },
            LDInstruction::HLSPE8(offset) => {
                dest.push(0xF8);
                dest.push(*offset as u8);
                2
            },
            LDInstruction::SPHL => {
                dest.push(0xF9);
                1
            },
        }
    }
}

/// LDH: load between A and the high page 0xFF00 to 0xFFFF.
#[derive(Debug, Clone, Copy, PartialEq, Eq, Structural)]
pub enum LDHInstruction {
    N8A(u8),
    CA,
    AN8(u8),
    AC,
}

/// The high-page address of an offset.
pub open spec fn high_page(offset: u8) -> u16 {
    (0xFF00 + offset) as u16
}

pub open spec fn spec_executable_ldh<B: CPUBusTrait>(i: LDHInstruction, cpu: CPU, bus: B) -> bool {
    let c = cpu.registers.bc.spec_c();
    match i {
        LDHInstruction::N8A(offset) => <B as Bus<u16>>::spec_writable(high_page(offset)),
        LDHInstruction::CA => <B as Bus<u16>>::spec_writable(high_page(c)),
        LDHInstruction::AN8(offset) => <B as Bus<u16>>::spec_readable(high_page(offset)),
        LDHInstruction::AC => <B as Bus<u16>>::spec_readable(high_page(c)),
    }
}

pub open spec fn spec_execute_ldh<B: CPUBusTrait>(i: LDHInstruction, cpu: CPU, bus: B) -> (CPU, B) {
    let regs = cpu.registers;
    let c = regs.bc.spec_c();
    let a = regs.af.spec_a();
    match i {
        LDHInstruction::N8A(offset) => (cpu, bus.spec_after_write(high_page(offset), a)),
        LDHInstruction::CA => (cpu, bus.spec_after_write(high_page(c), a)),
        LDHInstruction::AN8(offset) => {
            let (value, bus1) = spec_bus_read(bus, high_page(offset));
            (with_registers(cpu, with_a(regs, value)), bus1)
        },
        LDHInstruction::AC => {
            let (value, bus1) = spec_bus_read(bus, high_page(c));
            (with_registers(cpu, with_a(regs, value)), bus1)
        },
    }
}

impl LDHInstruction {
    pub open spec fn spec_cycles(self) -> usize {
        match self {
            LDHInstruction::N8A(_) => 12,
            LDHInstruction::CA => 8,
            LDHInstruction::AN8(_) => 12,
            LDHInstruction::AC => 8,
        }
    }

    pub open spec fn spec_text(self) -> Seq<char> {
        match self {
            LDHInstruction::N8A(offset) => "LDH A, [0x"@ + hex2(offset) + "]"@,
            LDHInstruction::CA => "LDH [C], A"@,
            LDHInstruction::AN8(offset) => "LDH [0x"@ + hex2(offset) + "], A"@,
            LDHInstruction::AC => "LDH A, [C]"@,
        }
    }

    pub fn to_string(&self) -> (s: String)
        ensures
            s@ == self.spec_text(),
    {
        match self {
            LDHInstruction::N8A(offset) => {
                let mut s = String::from_str("LDH A, [0x");
                push_hex2(&mut s, *offset);
                s.append("]");
                s
            },
            LDHInstruction::CA => String::from_str("LDH [C], A"),
            LDHInstruction::AN8(offset) => {
                let mut s = String::from_str("LDH [0x");
                push_hex2(&mut s, *offset);
                s.append("], A");
                s
            },
            LDHInstruction::AC => String::from_str("LDH A, [C]"),
        }
    }
}

impl InstructionBehavior for LDHInstruction {
    open spec fn spec_instruction(&self) -> Instruction {
        Instruction::LDHInstruction(*self)
    }

    open spec fn spec_has_duration(&self) -> bool {
        true
    }

    open spec fn spec_duration(&self) -> usize {
        self.spec_cycles()
    }


    fn duration(&self) -> (r: usize) {
        match self {
            LDHInstruction::N8A(_) => 12,
            LDHInstruction::CA => 8,
            LDHInstruction::AN8(_) => 12,
            LDHInstruction::AC => 8,
        }
    }
}

impl Execute for LDHInstruction {

    fn execute<B: CPUBusTrait>(&self, cpu: &mut CPU, cpu_bus: &mut B) {
        match self {
            LDHInstruction::N8A(offset) => {
                let value = cpu.registers.af.a();
                cpu_bus.write(0xFF00 + (*offset as u16), value);
            },
            LDHInstruction::CA => {
                let offset = cpu.registers.bc.c();
                let value = cpu.registers.af.a();
                cpu_bus.write(0xFF00 + (offset as u16), value);
            },
            LDHInstruction::AN8(offset) => {
                let value = cpu_bus.read(0xFF00 + (*offset as u16));
                cpu.registers.af.set_a(value);
            },
            LDHInstruction::AC => {
                let offset = cpu.registers.bc.c();
                let value = cpu_bus.read(0xFF00 + (offset as u16));
                cpu.registers.af.set_a(value);
            },
        }
    }
}

impl Assemble for LDHInstruction {
    open spec fn spec_bytes(&self) -> Seq<u8> {
        match *self {
            LDHInstruction::N8A(high_byte) => seq![0xE0u8, high_byte],
            LDHInstruction::CA => seq![0xE2u8],
            LDHInstruction::AN8(high_byte) => seq![0xF0u8, high_byte],
            LDHInstruction::AC => seq![0xF2u8],
        }
    }

    fn assemble(&self, dest: &mut Vec<u8>) -> (r: usize) {
        match self {
            LDHInstruction::N8A(high_byte) => {
                dest.push(0xE0);
                dest.push(*high_byte);
                2
            },
            LDHInstruction::CA => {
                dest.push(0xE2);
                1
            },
            LDHInstruction::AN8(high_byte) => {
                dest.push(0xF0);
                dest.push(*high_byte);
                2
            },
            LDHInstruction::AC => {
                dest.push(0xF2);
                1
            },
        }
    }
}

/// Loads never change the flags nor the interrupt master enable.
pub proof fn lemma_load_keeps_flags<B: CPUBusTrait>(i: LDInstruction, cpu: CPU, bus: B)
    ensures
        spec_execute_ld(i, cpu, bus).0.registers.af.spec_f() == cpu.registers.af.spec_f(),
        spec_execute_ld(i, cpu, bus).0.interrupt_master_enable == cpu.interrupt_master_enable,
{
    let regs = cpu.registers;
    match i {
        LDInstruction::R8R8(to, from) => {
            crate::cpu::registers::lemma_r8_write_then_read(regs, to, regs.spec_get_r8(from), to);
        },
        LDInstruction::R8N8(to, value) => {
            crate::cpu::registers::lemma_r8_write_then_read(regs, to, value, to);
        },
        LDInstruction::R16N16(to, value) => {
            crate::cpu::registers::lemma_r16_write_then_read(regs, to, value, to);
        },
        LDInstruction::R8HL(to) => {
            crate::cpu::registers::lemma_r8_write_then_read(regs, to, spec_bus_read(bus, regs.hl@).0, to);
        },
        LDInstruction::AR16(r) => {
            crate::cpu::registers::lemma_af_register_with_a(regs.af, spec_bus_read(bus, regs.spec_get_r16(r)).0);
        },
        LDInstruction::AN16(addr) => {
            crate::cpu::registers::lemma_af_register_with_a(regs.af, spec_bus_read(bus, addr).0);
        },
        LDInstruction::AHLI | LDInstruction::AHLD => {
            crate::cpu::registers::lemma_af_register_with_a(regs.af, spec_bus_read(bus, regs.hl@).0);
        },
        _ => {},
    }
}

/// The byte a side-effect-free read of the bus at `addr` yields.
pub open spec fn byte_at<B: CPUBusTrait>(bus: B, addr: u16) -> u8 {
    crate::bus::value_or_zero(bus.spec_read(addr))
}

/// Loads into registers: the destination ends up holding the source.
pub proof fn lemma_load_register_results<B: CPUBusTrait>(i: LDInstruction, cpu: CPU, bus: B)
    ensures
        ({
            let regs = cpu.registers;
            let after = spec_execute(Instruction::LDInstruction(i), cpu, bus).0.registers;
            match i {
                LDInstruction::R8R8(to, from) => after.spec_get_r8(to) == regs.spec_get_r8(from),
                LDInstruction::R8N8(to, value) => after.spec_get_r8(to) == value,
                LDInstruction::R16N16(to, value) => after.spec_get_r16(to) == value,
                LDInstruction::SPN16(value) => after.sp == value,
                LDInstruction::R8HL(to) => after.spec_get_r8(to) == byte_at(bus, regs.hl@),
                LDInstruction::AR16(r) => after.af.spec_a() == byte_at(bus, regs.spec_get_r16(r)),
                LDInstruction::AN16(addr) => after.af.spec_a() == byte_at(bus, addr),
                _ => true,
            }
        }),
{
    let regs = cpu.registers;
    match i {
        LDInstruction::R8R8(to, from) => {
            crate::cpu::registers::lemma_r8_write_then_read(regs, to, regs.spec_get_r8(from), to);
        },
        LDInstruction::R8N8(to, value) => {
            crate::cpu::registers::lemma_r8_write_then_read(regs, to, value, to);
        },
        LDInstruction::R16N16(to, value) => {
            crate::cpu::registers::lemma_r16_write_then_read(regs, to, value, to);
        },
        LDInstruction::R8HL(to) => {
            crate::cpu::registers::lemma_r8_write_then_read(regs, to, byte_at(bus, regs.hl@), to);
        },
        LDInstruction::AR16(r) => {
            crate::cpu::registers::lemma_af_register_with_a(regs.af, byte_at(bus, regs.spec_get_r16(r)));
        },
        LDInstruction::AN16(addr) => {
            crate::cpu::registers::lemma_af_register_with_a(regs.af, byte_at(bus, addr));
        },
        _ => {},
    }
}

/// LD A, [HL+] loads the byte at the old HL into A and then steps HL up by
/// one, wrapping around; LD A, [HL-] steps it down.
pub proof fn lemma_load_a_from_hl_steps_hl<B: CPUBusTrait>(cpu: CPU, bus: B)
    ensures
        ({
            let hl = cpu.registers.hl@;
            let up = spec_execute(Instruction::LDInstruction(LDInstruction::AHLI), cpu, bus).0.registers;
            let down = spec_execute(Instruction::LDInstruction(LDInstruction::AHLD), cpu, bus).0.registers;
            &&& up.af.spec_a() == byte_at(bus, hl)
            &&& up.hl@ == (hl + 1) % 0x10000
            &&& down.af.spec_a() == byte_at(bus, hl)
            &&& down.hl@ == (hl + 0xFFFF) % 0x10000
        }),
{
    let regs = cpu.registers;
    let hl = regs.hl@;
    let value = byte_at(bus, hl);
    lemma_step_wraps(hl);
    crate::cpu::registers::lemma_hl_register_view(inc16(hl));
    crate::cpu::registers::lemma_hl_register_view(dec16(hl));
    crate::cpu::registers::lemma_af_register_with_a(regs.af, value);
    assert(spec_execute(Instruction::LDInstruction(LDInstruction::AHLI), cpu, bus).0.registers == CPURegisters {
        hl: HLRegister::spec_from_bits(inc16(hl)),
        ..with_a(regs, value)
    });
    assert(spec_execute(Instruction::LDInstruction(LDInstruction::AHLD), cpu, bus).0.registers == CPURegisters {
        hl: HLRegister::spec_from_bits(dec16(hl)),
        ..with_a(regs, value)
    });
}

/// LD [HL+], A and LD [HL-], A keep A and step HL up or down by one,
/// wrapping around (their write is in `lemma_load_store_writes`).
pub proof fn lemma_store_a_at_hl_steps_hl<B: CPUBusTrait>(cpu: CPU, bus: B)
    ensures
        ({
            let hl = cpu.registers.hl@;
            let up = spec_execute(Instruction::LDInstruction(LDInstruction::HLIA), cpu, bus).0.registers;
            let down = spec_execute(Instruction::LDInstruction(LDInstruction::HLDA), cpu, bus).0.registers;
            &&& up.af.spec_a() == cpu.registers.af.spec_a()
            &&& up.hl@ == (hl + 1) % 0x10000
            &&& down.af.spec_a() == cpu.registers.af.spec_a()
            &&& down.hl@ == (hl + 0xFFFF) % 0x10000
        }),
{
    let hl = cpu.registers.hl@;
    lemma_step_wraps(hl);
    crate::cpu::registers::lemma_hl_register_view(inc16(hl));
    crate::cpu::registers::lemma_hl_register_view(dec16(hl));
}

/// Stepping a word up or down by one wraps around modulo 0x10000.
pub proof fn lemma_step_wraps(w: u16)
    ensures
        inc16(w) == (w + 1) % 0x10000,
        dec16(w) == (w + 0xFFFF) % 0x10000,
{
}

/// Stores write their value at their address: the register or immediate at
/// HL, A at a register pair's address or at an immediate address, A at HL for
/// LD [HL+], A and LD [HL-], A, and SP at an immediate address, low byte first.
pub proof fn lemma_load_store_writes<B: CPUBusTrait>(i: LDInstruction, cpu: CPU, bus: B)
    ensures
        ({
            let regs = cpu.registers;
            let hl = regs.hl@;
            let a = regs.af.spec_a();
            let after_bus = spec_execute(Instruction::LDInstruction(i), cpu, bus).1;
            match i {
                LDInstruction::HLR8(from) => after_bus == bus.spec_after_write(hl, regs.spec_get_r8(from)),
                LDInstruction::HLN8(value) => after_bus == bus.spec_after_write(hl, value),
                LDInstruction::R16A(r) => after_bus == bus.spec_after_write(regs.spec_get_r16(r), a),
                LDInstruction::N16A(addr) => after_bus == bus.spec_after_write(addr, a),
                LDInstruction::HLIA | LDInstruction::HLDA => after_bus == bus.spec_after_write(hl, a),
                LDInstruction::N16SP(addr) => addr < 0xFFFF ==> after_bus == bus.spec_after_write(
                    addr,
                    (regs.sp % 256) as u8,
                ).spec_after_write((addr + 1) as u16, (regs.sp / 256) as u8),
                _ => true,
            }
        }),
{
    crate::cpu::instructions::lemma_word_to_bytes(cpu.registers.sp);
}

/// LDH addresses the high page 0xFF00 to 0xFFFF: LDH [n], A and LDH [C], A
/// write A at 0xFF00 + n and 0xFF00 + C; LDH A, [n] and LDH A, [C] load A with
/// the byte read there.
pub proof fn lemma_ldh_uses_high_page<B: CPUBusTrait>(i: LDHInstruction, cpu: CPU, bus: B)
    ensures
        ({
            let regs = cpu.registers;
            let a = regs.af.spec_a();
            let c = regs.bc.spec_c();
            let (after, after_bus) = spec_execute(Instruction::LDHInstruction(i), cpu, bus);
            match i {
                LDHInstruction::N8A(n) => after_bus == bus.spec_after_write((0xFF00 + n) as u16, a) && after == cpu,
                LDHInstruction::CA => after_bus == bus.spec_after_write((0xFF00 + c) as u16, a) && after == cpu,
                LDHInstruction::AN8(n) => after.registers.af.spec_a() == byte_at(bus, (0xFF00 + n) as u16)
                    && after_bus == bus.spec_after_read((0xFF00 + n) as u16),
                LDHInstruction::AC => after.registers.af.spec_a() == byte_at(bus, (0xFF00 + c) as u16)
                    && after_bus == bus.spec_after_read((0xFF00 + c) as u16),
            }
        }),
{
    let regs = cpu.registers;
    match i {
        LDHInstruction::AN8(n) => {
            crate::cpu::registers::lemma_af_register_with_a(regs.af, byte_at(bus, (0xFF00 + n) as u16));
        },
        LDHInstruction::AC => {
            crate::cpu::registers::lemma_af_register_with_a(regs.af, byte_at(bus, (0xFF00 + regs.bc.spec_c()) as u16));
        },
        _ => {},
    }
}

} // verus!
