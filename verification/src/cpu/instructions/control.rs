//! Control flow instructions.
use vstd::prelude::*;
use crate::cpu::CPU;
use crate::cpu::assembly::Assemble;
use crate::cpu::cpu_bus::CPUBusTrait;
use crate::bus::Bus;
use crate::cpu::instructions::{
    Execute, Instruction, InstructionBehavior, ResetVector, cc_code, condition_code, le_bytes, push_le16,
    spec_bus_read, spec_execute, spec_executable, with_registers,
};
use crate::cpu::operand::ConditionCode;
use crate::cpu::registers::CPURegisters;
use crate::text::{dec_i8, hex2, hex4, push_dec_i8, push_hex2, push_hex4};

verus! {

/// CALL: push the return address and jump.
#[derive(Debug, Clone, Copy, PartialEq, Eq, Structural)]
pub enum CALLInstruction {
    N16(u16),
    CCN16(ConditionCode, u16),
}

/// A call can be made: SP - 3 does not underflow and the bus serves the two
/// stack bytes written.
pub open spec fn call_possible<B: CPUBusTrait>(cpu: CPU) -> bool {
    &&& cpu.registers.sp >= 3
    &&& <B as Bus<u16>>::spec_writable((cpu.registers.sp - 3) as u16)
    &&& <B as Bus<u16>>::spec_writable((cpu.registers.sp - 2) as u16)
}

/// A call to `addr`: the low byte of PC is written at SP - 3 and its high
/// byte at SP - 2; SP becomes SP - 2 and PC becomes `addr`.
pub open spec fn spec_call<B: CPUBusTrait>(cpu: CPU, bus: B, addr: u16) -> (CPU, B) {
    let pc = cpu.registers.pc;
    let new_sp = (cpu.registers.sp - 2) as u16;
    let bus1 = bus.spec_after_write((new_sp - 1) as u16, (pc & 0xFF) as u8);
    let bus2 = bus1.spec_after_write(new_sp, (pc >> 8) as u8);
    (with_registers(cpu, CPURegisters { sp: new_sp, pc: addr, ..cpu.registers }), bus2)
}

pub open spec fn spec_executable_call<B: CPUBusTrait>(i: CALLInstruction, cpu: CPU, bus: B) -> bool {
    match i {
        CALLInstruction::N16(_) => call_possible::<B>(cpu),
        CALLInstruction::CCN16(cc, _) => cc.spec_matches(&cpu.registers) ==> call_possible::<B>(cpu),
    }
}

pub open spec fn spec_execute_call<B: CPUBusTrait>(i: CALLInstruction, cpu: CPU, bus: B) -> (CPU, B) {
    match i {
        CALLInstruction::N16(addr) => spec_call(cpu, bus, addr),
        CALLInstruction::CCN16(cc, addr) => if cc.spec_matches(&cpu.registers) {
            spec_call(cpu, bus, addr)
        } else {
            (cpu, bus)
        },
    }
}

impl CALLInstruction {
    pub open spec fn spec_cycles(self) -> usize {
        match self {
            CALLInstruction::N16(_) => 24,
            CALLInstruction::CCN16(_, _) => 12,
        }
    }

    fn perform_call<B: CPUBusTrait>(&self, cpu: &mut CPU, cpu_bus: &mut B, addr: u16)
        requires
            call_possible::<B>(*old(cpu)),
        ensures
            (*final(cpu), *final(cpu_bus)) == spec_call(*old(cpu), *old(cpu_bus), addr),
    {
        let pc = cpu.registers.pc;
        let new_sp = cpu.registers.sp - 2;
        cpu_bus.write(new_sp - 1, (pc & 0xFF) as u8);
        cpu_bus.write(new_sp, (pc >> 8) as u8);
        let registers = &mut cpu.registers;
        registers.sp = new_sp;
        registers.pc = addr;
    }

    pub open spec fn spec_text(self) -> Seq<char> {
        match self {
            CALLInstruction::N16(addr) => "CALL $"@ + hex4(addr),
            CALLInstruction::CCN16(cc, addr) => "CALL "@ + cc.spec_name() + ", $"@ + hex4(addr),
        }
    }

    pub fn to_string(&self) -> (s: String)
        ensures
            s@ == self.spec_text(),
    {
        match self {
            CALLInstruction::N16(addr) => {
                let mut s = String::from_str("CALL $");
                push_hex4(&mut s, *addr);
                s
            },
            CALLInstruction::CCN16(cc, addr) => {
                let mut s = String::from_str("CALL ");
                s.append(cc.as_ref());
                s.append(", $");
                push_hex4(&mut s, *addr);
                s
            },
        }
    }
}

impl InstructionBehavior for CALLInstruction {
    open spec fn spec_instruction(&self) -> Instruction {
        Instruction::CALLInstruction(*self)
    }

    open spec fn spec_has_duration(&self) -> bool {
        true
    }

    open spec fn spec_duration(&self) -> usize {
        self.spec_cycles()
    }


    fn duration(&self) -> (r: usize) {
        match self {
            CALLInstruction::N16(_) => 24,
            CALLInstruction::CCN16(_, _) => 12,
        }
    }
}

impl Execute for CALLInstruction {

    fn execute<B: CPUBusTrait>(&self, cpu: &mut CPU, cpu_bus: &mut B) {
        match self {
            CALLInstruction::N16(addr) => self.perform_call(cpu, cpu_bus, *addr),
            CALLInstruction::CCN16(condition_code, addr) => {
                if condition_code.matches(&cpu.registers) {
                    self.perform_call(cpu, cpu_bus, *addr);
                }
            },
        }
    }
}

impl Assemble for CALLInstruction {
    open spec fn spec_bytes(&self) -> Seq<u8> {
        match *self {
            CALLInstruction::N16(addr) => seq![0xCDu8] + le_bytes(addr),
            CALLInstruction::CCN16(cc, addr) => seq![(0xC4 + 8 * cc_code(cc)) as u8] + le_bytes(addr),
        }
    }

    fn assemble(&self, dest: &mut Vec<u8>) -> (r: usize) {
        match self {
            CALLInstruction::N16(addr) => {
                dest.push(0xCD);
                push_le16(dest, *addr);
            },
            CALLInstruction::CCN16(cc, addr) => {
                dest.push(0xC4 + 8 * condition_code(*cc));
                push_le16(dest, *addr);
            },
        }
        3
    }
}


/// HALT: stop until an interrupt.
#[derive(Debug, Clone, Copy, PartialEq, Eq, Structural)]
pub enum HALTInstruction {
    Empty,
}

impl HALTInstruction {
    pub open spec fn spec_cycles(self) -> usize {
        4
    }

    pub open spec fn spec_text(self) -> Seq<char> {
        "HALT"@
    }

    pub fn to_string(&self) -> (s: String)
        ensures
            s@ == self.spec_text(),
    {
        String::from_str("HALT")
    }
}

impl InstructionBehavior for HALTInstruction {
    open spec fn spec_instruction(&self) -> Instruction {
        Instruction::HALTInstruction(*self)
    }

    open spec fn spec_has_duration(&self) -> bool {
        true
    }

    open spec fn spec_duration(&self) -> usize {
        self.spec_cycles()
    }


    fn duration(&self) -> (r: usize) {
        4
    }
}

impl Assemble for HALTInstruction {
    open spec fn spec_bytes(&self) -> Seq<u8> {
        seq![0x76u8]
    }

    fn assemble(&self, dest: &mut Vec<u8>) -> (r: usize) {
        dest.push(0x76);
        1
    }
}

/// JP: jump to HL or to an address.
#[derive(Debug, Clone, Copy, PartialEq, Eq, Structural)]
pub enum JPInstruction {
    HL,
    N16(u16),
    CCN16(ConditionCode, u16),
}

pub open spec fn spec_execute_jp<B: CPUBusTrait>(i: JPInstruction, cpu: CPU, bus: B) -> (CPU, B) {
    let regs = cpu.registers;
    let target = match i {
        JPInstruction::HL => Some(regs.hl@),
        JPInstruction::N16(addr) => Some(addr),
        JPInstruction::CCN16(cc, addr) => if cc.spec_matches(&regs) {
            Some(addr)
        } else {
            None
        },
    };
    match target {
        Some(addr) => (with_registers(cpu, CPURegisters { pc: addr, ..regs }), bus),
        None => (cpu, bus),
    }
}

impl JPInstruction {
    pub open spec fn spec_cycles(self) -> usize {
        match self {
            JPInstruction::HL => 4,
            JPInstruction::N16(_) => 16,
            JPInstruction::CCN16(_, _) => 12,
        }
    }

    pub open spec fn spec_text(self) -> Seq<char> {
        match self {
            JPInstruction::HL => "JP HL"@,
            JPInstruction::N16(addr) => "JP $"@ + hex4(addr),
            JPInstruction::CCN16(cc, addr) => "JP "@ + cc.spec_name() + ",$"@ + hex4(addr),
        }
    }

    pub fn to_string(&self) -> (s: String)
        ensures
            s@ == self.spec_text(),
    {
        match self {
            JPInstruction::HL => String::from_str("JP HL"),
            JPInstruction::N16(addr) => {
                let mut s = String::from_str("JP $");
                push_hex4(&mut s, *addr);
                s
            },
            JPInstruction::CCN16(cc, addr) => {
                let mut s = String::from_str("JP ");
                s.append(cc.as_ref());
                s.append(",$");
                push_hex4(&mut s, *addr);
                s
            },
        }
    }
}

impl InstructionBehavior for JPInstruction {
    open spec fn spec_instruction(&self) -> Instruction {
        Instruction::JPInstruction(*self)
    }

    open spec fn spec_has_duration(&self) -> bool {
        true
    }

    open spec fn spec_duration(&self) -> usize {
        self.spec_cycles()
    }


    fn duration(&self) -> (r: usize) {
        match self {
            JPInstruction::HL => 4,
            JPInstruction::N16(_) => 16,
            JPInstruction::CCN16(_, _) => 12,
        }
    }
}

impl Execute for JPInstruction {

    fn execute<B: CPUBusTrait>(&self, cpu: &mut CPU, _cpu_bus: &mut B) {
        let target_addr = match self {
            JPInstruction::HL => Some(cpu.registers.hl.into_bits()),
            JPInstruction::N16(addr) => Some(*addr),
            JPInstruction::CCN16(condition_code, addr) => {
                if condition_code.matches(&cpu.registers) {
                    Some(*addr)
                } else {
                    None
                }
            },
        };
        if let Some(target_addr) = target_addr {
            cpu.registers.pc = target_addr;
        }
    }
}

impl Assemble for JPInstruction {
    open spec fn spec_bytes(&self) -> Seq<u8> {
        match *self {
            JPInstruction::N16(addr) => seq![0xC3u8] + le_bytes(addr),
            JPInstruction::CCN16(cc, addr) => seq![(0xC2 + 8 * cc_code(cc)) as u8] + le_bytes(addr),
            JPInstruction::HL => seq![0xE9u8],
        }
    }

    fn assemble(&self, dest: &mut Vec<u8>) -> (r: usize) {
        match self {
            JPInstruction::N16(addr) => {
                dest.push(0xC3);
                push_le16(dest, *addr);
                3
            },
            JPInstruction::CCN16(cc, addr) => {
                dest.push(0xC2 + 8 * condition_code(*cc));
                push_le16(dest, *addr);
                3
            },
            JPInstruction::HL => {
                dest.push(0xE9);
                1
            },
        }
    }
}

/// PC plus a signed offset, clamped to the address range.
pub open spec fn saturating_offset(pc: u16, offset: i8) -> u16 {
    if pc + offset < 0 {
        0
    } else if pc + offset > 0xFFFF {
        0xFFFF
    } else {
        (pc + offset) as u16
    }
}

/// `u16::saturating_add_signed` computes the sum clamped to the range of `u16`,
/// as its documentation says.
pub assume_specification[ <u16>::saturating_add_signed ](x: u16, y: i16) -> (r: u16)
    ensures
        r == (if x + y < 0 {
            0
        } else if x + y > 0xFFFF {
            0xFFFF
        } else {
            (x + y) as u16
        }),
;

/// JR: jump by a signed offset.
#[derive(Debug, Clone, Copy, PartialEq, Eq, Structural)]
pub enum JRInstruction {
    E8(i8),
    CCE8(ConditionCode, i8),
}

pub open spec fn spec_execute_jr<B: CPUBusTrait>(i: JRInstruction, cpu: CPU, bus: B) -> (CPU, B) {
    let regs = cpu.registers;
    match i {
        JRInstruction::E8(offset) => (with_registers(cpu, CPURegisters { pc: saturating_offset(regs.pc, offset), ..regs }), bus),
        JRInstruction::CCE8(cc, offset) => if cc.spec_matches(&regs) {
            (with_registers(cpu, CPURegisters { pc: saturating_offset(regs.pc, offset), ..regs }), bus)
        } else {
            (cpu, bus)
        },
    }
}

impl JRInstruction {
    pub open spec fn spec_cycles(self) -> usize {
        match self {
            JRInstruction::E8(_) => 12,
            JRInstruction::CCE8(_, _) => 8,
        }
    }

    fn jump_relative(&self, cpu: &mut CPU, offset: i8)
        ensures
            *final(cpu) == with_registers(*old(cpu), CPURegisters { pc: saturating_offset(old(cpu).registers.pc, offset), ..old(cpu).registers }),
    {
        let registers = &mut cpu.registers;
        let new_address = registers.pc.saturating_add_signed(offset as i16);
        registers.pc = new_address;
    }

    pub open spec fn spec_text(self) -> Seq<char> {
        match self {
            JRInstruction::E8(offset) => "JR "@ + dec_i8(offset),
            JRInstruction::CCE8(cc, offset) => "JR "@ + cc.spec_name() + ", "@ + dec_i8(offset),
        }
    }

    pub fn to_string(&self) -> (s: String)
        ensures
            s@ == self.spec_text(),
    {
        let mut s = String::from_str("JR ");
        match self {
            JRInstruction::E8(offset) => {
                push_dec_i8(&mut s, *offset);
            },
            JRInstruction::CCE8(cc, offset) => {
                s.append(cc.as_ref());
                s.append(", ");
                push_dec_i8(&mut s, *offset);
            },
        }
        s
    }
}

impl InstructionBehavior for JRInstruction {
    open spec fn spec_instruction(&self) -> Instruction {
        Instruction::JRInstruction(*self)
    }

    open spec fn spec_has_duration(&self) -> bool {
        true
    }

    open spec fn spec_duration(&self) -> usize {
        self.spec_cycles()
    }


    fn duration(&self) -> (r: usize) {
        match self {
            JRInstruction::E8(_) => 12,
            JRInstruction::CCE8(_, _) => 8,
        }
    }
}

impl Execute for JRInstruction {

    fn execute<B: CPUBusTrait>(&self, cpu: &mut CPU, _cpu_bus: &mut B) {
        match self {
            JRInstruction::E8(offset) => self.jump_relative(cpu, *offset),
            JRInstruction::CCE8(condition_code, offset) => {
                if condition_code.matches(&cpu.registers) {
                    self.jump_relative(cpu, *offset);
                }
            },
        }
    }
}

impl Assemble for JRInstruction {
    open spec fn spec_bytes(&self) -> Seq<u8> {
        match *self {
            JRInstruction::E8(offset) => seq![0x18u8, offset as u8],
            JRInstruction::CCE8(cc, offset) => seq![(0x20 + 8 * cc_code(cc)) as u8, offset as u8],
        }
    }

    fn assemble(&self, dest: &mut Vec<u8>) -> (r: usize) {
        match self {
            JRInstruction::E8(offset) => {
                dest.push(0x18);
                dest.push(*offset as u8);
            },
            JRInstruction::CCE8(cc, offset) => {
                dest.push(0x20 + 8 * condition_code(*cc));
                dest.push(*offset as u8);
            },
        }
        2
    }
}


/// NOP: do nothing.
#[derive(Debug, Clone, Copy, PartialEq, Eq, Structural)]
pub enum NOPInstruction {
    Empty,
}

impl NOPInstruction {
    pub open spec fn spec_cycles(self) -> usize {
        4
    }

    pub open spec fn spec_text(self) -> Seq<char> {
        "NOP"@
    }

    pub fn to_string(&self) -> (s: String)
        ensures
            s@ == self.spec_text(),
    {
        String::from_str("NOP")
    }
}

impl InstructionBehavior for NOPInstruction {
    open spec fn spec_instruction(&self) -> Instruction {
        Instruction::NOPInstruction(*self)
    }

    open spec fn spec_has_duration(&self) -> bool {
        true
    }

    open spec fn spec_duration(&self) -> usize {
        self.spec_cycles()
    }


    fn duration(&self) -> (r: usize) {
        4
    }
}

impl Execute for NOPInstruction {
    fn execute<B: CPUBusTrait>(&self, cpu: &mut CPU, cpu_bus: &mut B) {
    }
}

impl Assemble for NOPInstruction {
    open spec fn spec_bytes(&self) -> Seq<u8> {
        seq![0x00u8]
    }

    fn assemble(&self, dest: &mut Vec<u8>) -> (r: usize) {
        dest.push(0x00);
        1
    }
}

/// RET: return, always or on a condition.
#[derive(Debug, Clone, Copy, PartialEq, Eq, Structural)]
pub enum RETInstruction {
    Conditional(ConditionCode),
    Unconditional,
}

/// A return can be made: SP + 2 does not overflow and the bus serves the two
/// stack bytes read.
pub open spec fn return_possible<B: CPUBusTrait>(cpu: CPU) -> bool {
    &&& cpu.registers.sp <= 0xFFFD
    &&& <B as Bus<u16>>::spec_readable(cpu.registers.sp)
    &&& <B as Bus<u16>>::spec_readable((cpu.registers.sp + 1) as u16)
}

/// A return: PC becomes the byte at SP plus 256 times the byte at SP + 1,
/// read in that order, and SP grows by 2.
pub open spec fn spec_return<B: CPUBusTrait>(cpu: CPU, bus: B) -> (CPU, B) {
    let sp = cpu.registers.sp;
    let (low, bus1) = spec_bus_read(bus, sp);
    let (high, bus2) = spec_bus_read(bus1, (sp + 1) as u16);
    (with_registers(cpu, CPURegisters { sp: (sp + 2) as u16, pc: (low + high * 256) as u16, ..cpu.registers }), bus2)
}

pub open spec fn spec_executable_ret<B: CPUBusTrait>(i: RETInstruction, cpu: CPU, bus: B) -> bool {
    match i {
        RETInstruction::Conditional(cc) => cc.spec_matches(&cpu.registers) ==> return_possible::<B>(cpu),
        RETInstruction::Unconditional => return_possible::<B>(cpu),
    }
}

pub open spec fn spec_execute_ret<B: CPUBusTrait>(i: RETInstruction, cpu: CPU, bus: B) -> (CPU, B) {
    match i {
        RETInstruction::Conditional(cc) => if cc.spec_matches(&cpu.registers) {
            spec_return(cpu, bus)
        } else {
            (cpu, bus)
        },
        RETInstruction::Unconditional => spec_return(cpu, bus),
    }
}

impl RETInstruction {
    pub open spec fn spec_cycles(self) -> usize {
        match self {
            RETInstruction::Conditional(_) => 8,
            RETInstruction::Unconditional => 16,
        }
    }

    fn perform_return<B: CPUBusTrait>(&self, cpu: &mut CPU, cpu_bus: &mut B)
        requires
            return_possible::<B>(*old(cpu)),
        ensures
            (*final(cpu), *final(cpu_bus)) == spec_return(*old(cpu), *old(cpu_bus)),
    {
        let sp = cpu.registers.sp;
        let low = cpu_bus.read(sp);
        let high = cpu_bus.read(sp + 1);
        proof {
            crate::cpu::instructions::lemma_shift_high_byte(high);
        }
        let new_pc = low as u16 + ((high as u16) << 8);
        let registers = &mut cpu.registers;
        registers.sp = registers.sp + 2;
        registers.pc = new_pc;
    }

    pub open spec fn spec_text(self) -> Seq<char> {
        match self {
            RETInstruction::Conditional(cc) => "RET "@ + cc.spec_name(),
            RETInstruction::Unconditional => "RET"@,
        }
    }

    pub fn to_string(&self) -> (s: String)
        ensures
            s@ == self.spec_text(),
    {
        match self {
            RETInstruction::Conditional(cc) => {
                let mut s = String::from_str("RET ");
                s.append(cc.as_ref());
                s
            },
            RETInstruction::Unconditional => String::from_str("RET"),
        }
    }
}

impl InstructionBehavior for RETInstruction {
    open spec fn spec_instruction(&self) -> Instruction {
        Instruction::RETInstruction(*self)
    }

    open spec fn spec_has_duration(&self) -> bool {
        true
    }

    open spec fn spec_duration(&self) -> usize {
        self.spec_cycles()
    }


    fn duration(&self) -> (r: usize) {
        match self {
            RETInstruction::Conditional(_) => 8,
            RETInstruction::Unconditional => 16,
        }
    }
}

impl Execute for RETInstruction {

    fn execute<B: CPUBusTrait>(&self, cpu: &mut CPU, cpu_bus: &mut B) {
        match self {
            RETInstruction::Conditional(condition_code) => {
                if condition_code.matches(&cpu.registers) {
                    self.perform_return(cpu, cpu_bus);
                }
            },
            RETInstruction::Unconditional => self.perform_return(cpu, cpu_bus),
        }
    }
}

impl Assemble for RETInstruction {
    open spec fn spec_bytes(&self) -> Seq<u8> {
        match *self {
            RETInstruction::Conditional(cc) => seq![(0xC0 + 8 * cc_code(cc)) as u8],
            RETInstruction::Unconditional => seq![0xC9u8],
        }
    }

    fn assemble(&self, dest: &mut Vec<u8>) -> (r: usize) {
        match self {
            RETInstruction::Conditional(cc) => dest.push(0xC0 + 8 * condition_code(*cc)),
            RETInstruction::Unconditional => dest.push(0xC9),
        }
        1
    }
}

/// RETI enables interrupts, then returns.
pub open spec fn spec_execute_reti<B: CPUBusTrait>(cpu: CPU, bus: B) -> (CPU, B) {
    spec_return(CPU { interrupt_master_enable: true, ..cpu }, bus)
}


/// RETI: return and enable interrupts.
#[derive(Debug, Clone, Copy, PartialEq, Eq, Structural)]
pub enum RETIInstruction {
    Empty,
}

impl RETIInstruction {
    pub open spec fn spec_cycles(self) -> usize {
        16
    }

    pub open spec fn spec_text(self) -> Seq<char> {
        "RETI"@
    }

    pub fn to_string(&self) -> (s: String)
        ensures
            s@ == self.spec_text(),
    {
        String::from_str("RETI")
    }
}

impl InstructionBehavior for RETIInstruction {
    open spec fn spec_instruction(&self) -> Instruction {
        Instruction::RETIInstruction(*self)
    }

    open spec fn spec_has_duration(&self) -> bool {
        true
    }

    open spec fn spec_duration(&self) -> usize {
        self.spec_cycles()
    }


    fn duration(&self) -> (r: usize) {
        16
    }
}

impl Execute for RETIInstruction {

    fn execute<B: CPUBusTrait>(&self, cpu: &mut CPU, cpu_bus: &mut B) {
        crate::cpu::instructions::flags::EIInstruction::Empty.execute(cpu, cpu_bus);
        RETInstruction::Unconditional.execute(cpu, cpu_bus);
    }
}

impl Assemble for RETIInstruction {
    open spec fn spec_bytes(&self) -> Seq<u8> {
        seq![0xD9u8]
    }

    fn assemble(&self, dest: &mut Vec<u8>) -> (r: usize) {
        dest.push(0xD9);
        1
    }
}

/// RST: call one of the eight reset vectors.
#[derive(Debug, Clone, Copy, PartialEq, Eq, Structural)]
pub enum RSTInstruction {
    ResetVector(ResetVector),
}

impl RSTInstruction {
    pub open spec fn spec_cycles(self) -> usize {
        16
    }

    pub open spec fn spec_text(self) -> Seq<char> {
        match self {
            RSTInstruction::ResetVector(v) => "RST $"@ + hex2(v@),
        }
    }

    pub fn to_string(&self) -> (s: String)
        ensures
            s@ == self.spec_text(),
    {
        match self {
            RSTInstruction::ResetVector(v) => {
                let mut s = String::from_str("RST $");
                push_hex2(&mut s, v.as_u8());
                s
            },
        }
    }
}

impl InstructionBehavior for RSTInstruction {
    open spec fn spec_instruction(&self) -> Instruction {
        Instruction::RSTInstruction(*self)
    }

    open spec fn spec_has_duration(&self) -> bool {
        true
    }

    open spec fn spec_duration(&self) -> usize {
        self.spec_cycles()
    }


    fn duration(&self) -> (r: usize) {
        16
    }
}

impl Assemble for RSTInstruction {
    open spec fn spec_bytes(&self) -> Seq<u8> {
        match *self {
            RSTInstruction::ResetVector(v) => seq![(0xC0 + v@) as u8],
        }
    }

    fn assemble(&self, dest: &mut Vec<u8>) -> (r: usize) {
        match self {
            RSTInstruction::ResetVector(v) => dest.push(0xC0 + v.as_u8()),
        }
        1
    }
}


/// STOP: stop the CPU and the LCD.
#[derive(Debug, Clone, Copy, PartialEq, Eq, Structural)]
pub enum STOPInstruction {
    Empty,
}

impl STOPInstruction {
    pub open spec fn spec_cycles(self) -> usize {
        4
    }

    pub open spec fn spec_text(self) -> Seq<char> {
        "STOP"@
    }

    pub fn to_string(&self) -> (s: String)
        ensures
            s@ == self.spec_text(),
    {
        String::from_str("STOP")
    }
}

impl InstructionBehavior for STOPInstruction {
    open spec fn spec_instruction(&self) -> Instruction {
        Instruction::STOPInstruction(*self)
    }

    open spec fn spec_has_duration(&self) -> bool {
        true
    }

    open spec fn spec_duration(&self) -> usize {
        self.spec_cycles()
    }


    fn duration(&self) -> (r: usize) {
        4
    }
}

impl Assemble for STOPInstruction {
    open spec fn spec_bytes(&self) -> Seq<u8> {
        seq![0x10u8, 0x00u8]
    }

    fn assemble(&self, dest: &mut Vec<u8>) -> (r: usize) {
        dest.push(0x10);
        dest.push(0x00);
        2
    }
}

/// Whether a jump, call or return with this condition (none for the
/// unconditional forms) is taken from these registers.
pub open spec fn taken(cc: Option<ConditionCode>, registers: CPURegisters) -> bool {
    match cc {
        Some(c) => c.spec_matches(&registers),
        None => true,
    }
}

/// JP sets PC to its target (HL, or the immediate address), for JP cc only
/// where the condition holds, and leaves PC as it was where it does not. No
/// other register, nor the bus, changes.
pub proof fn lemma_jump_sets_pc<B: CPUBusTrait>(i: JPInstruction, cpu: CPU, bus: B)
    ensures
        ({
            let regs = cpu.registers;
            let (after, after_bus) = spec_execute(Instruction::JPInstruction(i), cpu, bus);
            &&& after.registers.pc == match i {
                JPInstruction::HL => regs.hl@,
                JPInstruction::N16(addr) => addr,
                JPInstruction::CCN16(cc, addr) => if taken(Some(cc), regs) { addr } else { regs.pc },
            }
            &&& after.registers.af == regs.af
            &&& after.registers.bc == regs.bc
            &&& after.registers.de == regs.de
            &&& after.registers.hl == regs.hl
            &&& after.registers.sp == regs.sp
            &&& after.interrupt_master_enable == cpu.interrupt_master_enable
            &&& after_bus == bus
        }),
{
}

/// JR adds its signed offset e to PC, always for JR e and for JR cc, e
/// exactly where the condition holds: where PC + e is an address the new PC
/// is PC + e, and the sum is clamped at 0 and 0xFFFF. Not taken, PC stays. No
/// other register, nor the bus, changes.
pub proof fn lemma_relative_jump_adds_offset<B: CPUBusTrait>(i: JRInstruction, cpu: CPU, bus: B)
    ensures
        ({
            let regs = cpu.registers;
            let (cc, e) = match i {
                JRInstruction::E8(e) => (None, e),
                JRInstruction::CCE8(cc, e) => (Some(cc), e),
            };
            let (after, after_bus) = spec_execute(Instruction::JRInstruction(i), cpu, bus);
            let pc = after.registers.pc;
            &&& taken(cc, regs) && 0 <= regs.pc + e <= 0xFFFF ==> pc == regs.pc + e
            &&& taken(cc, regs) && regs.pc + e < 0 ==> pc == 0
            &&& taken(cc, regs) && regs.pc + e > 0xFFFF ==> pc == 0xFFFF
            &&& !taken(cc, regs) ==> pc == regs.pc
            &&& after.registers.af == regs.af
            &&& after.registers.bc == regs.bc
            &&& after.registers.de == regs.de
            &&& after.registers.hl == regs.hl
            &&& after.registers.sp == regs.sp
            &&& after.interrupt_master_enable == cpu.interrupt_master_enable
            &&& after_bus == bus
        }),
{
}

/// A call that is taken (always for CALL n16, where the condition holds for
/// CALL cc, n16) sets PC to the address and lowers SP by 2, writing PC's low
/// byte at the old SP - 3 and its high byte at the old SP - 2, in that order.
/// A call not taken changes nothing.
pub proof fn lemma_call_pushes_and_jumps<B: CPUBusTrait>(i: CALLInstruction, cpu: CPU, bus: B)
    requires
        cpu.registers.sp >= 3,
    ensures
        ({
            let regs = cpu.registers;
            let (cc, addr) = match i {
                CALLInstruction::N16(addr) => (None, addr),
                CALLInstruction::CCN16(cc, addr) => (Some(cc), addr),
            };
            let (after, after_bus) = spec_execute(Instruction::CALLInstruction(i), cpu, bus);
            &&& taken(cc, regs) ==> {
                &&& after.registers.pc == addr
                &&& after.registers.sp == regs.sp - 2
                &&& after.registers.af == regs.af
                &&& after.registers.bc == regs.bc
                &&& after.registers.de == regs.de
                &&& after.registers.hl == regs.hl
                &&& after.interrupt_master_enable == cpu.interrupt_master_enable
                &&& after_bus == bus.spec_after_write((regs.sp - 3) as u16, (regs.pc % 256) as u8).spec_after_write(
                    (regs.sp - 2) as u16,
                    (regs.pc / 256) as u8,
                )
            }
            &&& !taken(cc, regs) ==> after == cpu && after_bus == bus
        }),
{
    crate::cpu::instructions::lemma_word_to_bytes(cpu.registers.pc);
}

/// A return that is taken (always for RET, where the condition holds for RET
/// cc) sets PC to the byte read at SP plus 256 times the byte read next at SP
/// + 1, and raises SP by 2; the bus takes both reads' side effects. A return
/// not taken changes nothing.
pub proof fn lemma_return_pops<B: CPUBusTrait>(i: RETInstruction, cpu: CPU, bus: B)
    requires
        cpu.registers.sp <= 0xFFFD,
    ensures
        ({
            let regs = cpu.registers;
            let sp = regs.sp;
            let cc = match i {
                RETInstruction::Conditional(cc) => Some(cc),
                RETInstruction::Unconditional => None,
            };
            let low = crate::bus::value_or_zero(bus.spec_read(sp));
            let bus1 = bus.spec_after_read(sp);
            let high = crate::bus::value_or_zero(bus1.spec_read((sp + 1) as u16));
            let (after, after_bus) = spec_execute(Instruction::RETInstruction(i), cpu, bus);
            &&& taken(cc, regs) ==> {
                &&& after.registers.pc == low + 256 * high
                &&& after.registers.sp == sp + 2
                &&& after.registers.af == regs.af
                &&& after.registers.bc == regs.bc
                &&& after.registers.de == regs.de
                &&& after.registers.hl == regs.hl
                &&& after.interrupt_master_enable == cpu.interrupt_master_enable
                &&& after_bus == bus1.spec_after_read((sp + 1) as u16)
            }
            &&& !taken(cc, regs) ==> after == cpu && after_bus == bus
        }),
{
}

/// RETI returns as RET does (PC from the bytes at SP and SP + 1, SP raised by
/// 2) and enables the interrupt master enable.
pub proof fn lemma_reti_returns_and_enables<B: CPUBusTrait>(cpu: CPU, bus: B)
    requires
        cpu.registers.sp <= 0xFFFD,
    ensures
        ({
            let sp = cpu.registers.sp;
            let low = crate::bus::value_or_zero(bus.spec_read(sp));
            let high = crate::bus::value_or_zero(bus.spec_after_read(sp).spec_read((sp + 1) as u16));
            let after = spec_execute(Instruction::RETIInstruction(RETIInstruction::Empty), cpu, bus).0;
            &&& after.interrupt_master_enable
            &&& after.registers.pc == low + 256 * high
            &&& after.registers.sp == sp + 2
            &&& after.registers.af == cpu.registers.af
        }),
{
}

} // verus!
