//! The instruction set: each instruction's timing, effect on the CPU and the
//! bus, machine code and text.
use vstd::prelude::*;
use crate::bus::{Bus, value_or_zero};
use crate::cpu::CPU;
use crate::cpu::assembly::Assemble;
use crate::cpu::cpu_bus::CPUBusTrait;
use crate::cpu::operand::ConditionCode;
use crate::cpu::registers::{CPURegisters, Register16, Register8};
use crate::cpu::instructions::arithmetic::{ADCInstruction, ADDInstruction, DAAInstruction, DECInstruction, INCInstruction, SBCInstruction, SUBInstruction, spec_executable_dec, spec_execute_dec, spec_executable_inc, spec_execute_inc};
use crate::cpu::instructions::bitwise::{CPLInstruction, RESInstruction, RLAInstruction, RLCAInstruction, RLCInstruction, RLInstruction, RRAInstruction, RRCAInstruction, RRCInstruction, RRInstruction, SETInstruction, SLAInstruction, SRAInstruction, SRLInstruction, SWAPInstruction};
use crate::cpu::instructions::control::{CALLInstruction, HALTInstruction, JPInstruction, JRInstruction, NOPInstruction, RETIInstruction, RETInstruction, RSTInstruction, STOPInstruction, spec_executable_call, spec_execute_call, spec_execute_jp, spec_execute_jr, spec_executable_ret, spec_execute_ret, spec_execute_reti, return_possible};
use crate::cpu::instructions::flags::{CCFInstruction, DIInstruction, EIInstruction, SCFInstruction, spec_execute_ccf};
use crate::cpu::instructions::load::{LDHInstruction, LDInstruction, spec_executable_ld, spec_execute_ld, spec_executable_ldh, spec_execute_ldh};
use crate::cpu::instructions::logic::{ANDInstruction, ORInstruction, XORInstruction, spec_executable_or, spec_execute_or, spec_executable_xor, spec_execute_xor};
use crate::cpu::instructions::stack::{POPInstruction, PUSHInstruction};
use crate::cpu::instructions::test::{BITInstruction, CPInstruction, spec_executable_cp, spec_execute_cp};

pub mod arithmetic;
pub mod bitwise;
pub mod control;
pub mod flags;
pub mod load;
pub mod logic;
pub mod stack;
pub mod test;

verus! {

/// A bit position within a byte.
#[derive(Debug, Clone, Copy, PartialEq, Eq, Structural)]
pub enum BitOffset {
    Bit0,
    Bit1,
    Bit2,
    Bit3,
    Bit4,
    Bit5,
    Bit6,
    Bit7,
}

impl View for BitOffset {
    type V = u8;

    open spec fn view(&self) -> u8 {
        match self {
            BitOffset::Bit0 => 0,
            BitOffset::Bit1 => 1,
            BitOffset::Bit2 => 2,
            BitOffset::Bit3 => 3,
            BitOffset::Bit4 => 4,
            BitOffset::Bit5 => 5,
            BitOffset::Bit6 => 6,
            BitOffset::Bit7 => 7,
        }
    }
}

impl BitOffset {
    /// The bit position with the given number, if there is one.
    pub fn from_repr(value: u8) -> (r: Option<BitOffset>)
        ensures
            r matches Some(b) ==> b@ == value,
            r is None <==> value > 7,
    {
        match value {
            0 => Some(BitOffset::Bit0),
            1 => Some(BitOffset::Bit1),
            2 => Some(BitOffset::Bit2),
            3 => Some(BitOffset::Bit3),
            4 => Some(BitOffset::Bit4),
            5 => Some(BitOffset::Bit5),
            6 => Some(BitOffset::Bit6),
            7 => Some(BitOffset::Bit7),
            _ => None,
        }
    }

    /// The bit position's number.
    pub fn as_u8(self) -> (r: u8)
        ensures
            r == self@,
            r <= 7,
    {
        match self {
            BitOffset::Bit0 => 0,
            BitOffset::Bit1 => 1,
            BitOffset::Bit2 => 2,
            BitOffset::Bit3 => 3,
            BitOffset::Bit4 => 4,
            BitOffset::Bit5 => 5,
            BitOffset::Bit6 => 6,
            BitOffset::Bit7 => 7,
        }
    }
}

/// The eight addresses RST can call.
#[derive(Debug, Clone, Copy, PartialEq, Eq, Structural)]
pub enum ResetVector {
    Addr00,
    Addr08,
    Addr10,
    Addr18,
    Addr20,
    Addr28,
    Addr30,
    Addr38,
}

impl View for ResetVector {
    type V = u8;

    open spec fn view(&self) -> u8 {
        match self {
            ResetVector::Addr00 => 0x00,
            ResetVector::Addr08 => 0x08,
            ResetVector::Addr10 => 0x10,
            ResetVector::Addr18 => 0x18,
            ResetVector::Addr20 => 0x20,
            ResetVector::Addr28 => 0x28,
            ResetVector::Addr30 => 0x30,
            ResetVector::Addr38 => 0x38,
        }
    }
}

impl ResetVector {
    /// The reset vector at the given address, if there is one.
    pub fn from_repr(value: u8) -> (r: Option<ResetVector>)
        ensures
            r matches Some(v) ==> v@ == value,
            r is None <==> !(value % 8 == 0 && value <= 0x38),
    {
        match value {
            0x00 => Some(ResetVector::Addr00),
            0x08 => Some(ResetVector::Addr08),
            0x10 => Some(ResetVector::Addr10),
            0x18 => Some(ResetVector::Addr18),
            0x20 => Some(ResetVector::Addr20),
            0x28 => Some(ResetVector::Addr28),
            0x30 => Some(ResetVector::Addr30),
            0x38 => Some(ResetVector::Addr38),
            _ => None,
        }
    }

    /// The vector's address.
    pub fn as_u8(self) -> (r: u8)
        ensures
            r == self@,
            r <= 0x38,
    {
        match self {
            ResetVector::Addr00 => 0x00,
            ResetVector::Addr08 => 0x08,
            ResetVector::Addr10 => 0x10,
            ResetVector::Addr18 => 0x18,
            ResetVector::Addr20 => 0x20,
            ResetVector::Addr28 => 0x28,
            ResetVector::Addr30 => 0x30,
            ResetVector::Addr38 => 0x38,
        }
    }
}

/// What every instruction provides: how long it takes.
pub trait InstructionBehavior: Assemble {
    /// The instruction as a member of the whole instruction set.
    spec fn spec_instruction(&self) -> Instruction;

    /// Whether the instruction has a known duration.
    spec fn spec_has_duration(&self) -> bool;

    /// The duration in clock cycles.
    spec fn spec_duration(&self) -> usize;

    /// The duration in clock cycles.
    fn duration(&self) -> (r: usize)
        requires
            self.spec_has_duration(),
        ensures
            r == self.spec_duration(),
    ;
}

/// Executing an instruction, for the instructions that are implemented: its
/// effect is the one `spec_execute` gives the instruction. The others (ADD,
/// ADC, SUB, SBC, AND, the rotations, shifts and bit operations, DAA, CPL, SCF,
/// HALT, STOP, RST, PUSH and POP) do not implement it, and `spec_executable`
/// is false for them.
pub trait Execute: InstructionBehavior {
    /// Executes the instruction on the CPU and the bus.
    fn execute<B: CPUBusTrait>(&self, cpu: &mut CPU, cpu_bus: &mut B)
        requires
            spec_executable(self.spec_instruction(), *old(cpu), *old(cpu_bus)),
        ensures
            (*final(cpu), *final(cpu_bus)) == spec_execute(self.spec_instruction(), *old(cpu), *old(cpu_bus)),
    ;
}

/// The CPU with its registers replaced.
pub open spec fn with_registers(cpu: CPU, registers: CPURegisters) -> CPU {
    CPU { registers, ..cpu }
}

/// A read with side effects: the byte read (0 where there is none) and the
/// bus afterwards.
pub open spec fn spec_bus_read<B: Bus<u16>>(bus: B, addr: u16) -> (u8, B) {
    (value_or_zero(bus.spec_read(addr)), bus.spec_after_read(addr))
}

/// The number of an eight-bit register in opcodes.
pub open spec fn reg8_code(r: Register8) -> u8 {
    match r {
        Register8::B => 0,
        Register8::C => 1,
        Register8::D => 2,
        Register8::E => 3,
        Register8::H => 4,
        Register8::L => 5,
        Register8::A => 7,
    }
}

pub fn register8_code(r: Register8) -> (c: u8)
    ensures
        c == reg8_code(r),
        c <= 7,
{
    match r {
        Register8::B => 0,
        Register8::C => 1,
        Register8::D => 2,
        Register8::E => 3,
        Register8::H => 4,
        Register8::L => 5,
        Register8::A => 7,
    }
}

/// The number of a register pair in opcodes.
pub open spec fn reg16_code(r: Register16) -> u8 {
    match r {
        Register16::BC => 0,
        Register16::DE => 1,
        Register16::HL => 2,
    }
}

pub fn register16_code(r: Register16) -> (c: u8)
    ensures
        c == reg16_code(r),
        c <= 2,
{
    match r {
        Register16::BC => 0,
        Register16::DE => 1,
        Register16::HL => 2,
    }
}

/// The number of a condition in opcodes.
pub open spec fn cc_code(c: ConditionCode) -> u8 {
    match c {
        ConditionCode::NZ => 0,
        ConditionCode::Z => 1,
        ConditionCode::NC => 2,
        ConditionCode::C => 3,
    }
}

pub fn condition_code(c: ConditionCode) -> (r: u8)
    ensures
        r == cc_code(c),
        r <= 3,
{
    match c {
        ConditionCode::NZ => 0,
        ConditionCode::Z => 1,
        ConditionCode::NC => 2,
        ConditionCode::C => 3,
    }
}

/// The two bytes of a word, least significant first.
pub open spec fn le_bytes(value: u16) -> Seq<u8> {
    seq![(value % 256) as u8, (value / 256) as u8]
}

/// `bytemuck::bytes_of` applied to `zendian::le::u16le::from(value)`: the
/// bytes of a little-endian word, which are the low byte and then the high byte.
#[verifier::external_body]
fn u16_le_bytes(value: u16) -> (r: [u8; 2])
    ensures
        r@ == le_bytes(value),
{
    let word = zendian::le::u16le::from(value);
    let bytes = bytemuck::bytes_of(&word);
    [bytes[0], bytes[1]]
}

/// Appends a word in little-endian order.
pub fn push_le16(dest: &mut Vec<u8>, value: u16)
    ensures
        final(dest)@ == old(dest)@ + le_bytes(value),
{
    let bytes = u16_le_bytes(value);
    dest.push(bytes[0]);
    dest.push(bytes[1]);
    assert(final(dest)@ =~= old(dest)@ + le_bytes(value));
}

/// Masking and shifting split a word into its low and high bytes.
pub proof fn lemma_word_to_bytes(w: u16)
    ensures
        (w & 0xFF) as u8 == w % 256,
        (w >> 8) as u8 == w / 256,
{
    assert((w & 0xFF) as u8 == w % 256 && (w >> 8) as u8 == w / 256) by (bit_vector);
}

/// A byte shifted into the high byte of a word is that byte times 256.
pub proof fn lemma_shift_high_byte(b: u8)
    ensures
        (b as u16) << 8 == b as u16 * 256,
{
    assert((b as u16) << 8 == b as u16 * 256) by (bit_vector);
}

/// Every instruction of the set.
#[derive(Debug, Clone, Copy, PartialEq, Eq, Structural)]
pub enum Instruction {
    ADCInstruction(ADCInstruction),
    ADDInstruction(ADDInstruction),
    ANDInstruction(ANDInstruction),
    BITInstruction(BITInstruction),
    CALLInstruction(CALLInstruction),
    CCFInstruction(CCFInstruction),
    CPInstruction(CPInstruction),
    CPLInstruction(CPLInstruction),
    DAAInstruction(DAAInstruction),
    DECInstruction(DECInstruction),
    DIInstruction(DIInstruction),
    EIInstruction(EIInstruction),
    HALTInstruction(HALTInstruction),
    INCInstruction(INCInstruction),
    JPInstruction(JPInstruction),
    JRInstruction(JRInstruction),
    LDHInstruction(LDHInstruction),
    LDInstruction(LDInstruction),
    NOPInstruction(NOPInstruction),
    ORInstruction(ORInstruction),
    POPInstruction(POPInstruction),
    PUSHInstruction(PUSHInstruction),
    RESInstruction(RESInstruction),
    RETIInstruction(RETIInstruction),
    RETInstruction(RETInstruction),
    RLAInstruction(RLAInstruction),
    RLCAInstruction(RLCAInstruction),
    RLCInstruction(RLCInstruction),
    RLInstruction(RLInstruction),
    RRAInstruction(RRAInstruction),
    RRCAInstruction(RRCAInstruction),
    RRCInstruction(RRCInstruction),
    RRInstruction(RRInstruction),
    RSTInstruction(RSTInstruction),
    SBCInstruction(SBCInstruction),
    SCFInstruction(SCFInstruction),
    SETInstruction(SETInstruction),
    SLAInstruction(SLAInstruction),
    SRAInstruction(SRAInstruction),
    SRLInstruction(SRLInstruction),
    STOPInstruction(STOPInstruction),
    SUBInstruction(SUBInstruction),
    SWAPInstruction(SWAPInstruction),
    XORInstruction(XORInstruction),
}

impl Instruction {
    /// Whether the instruction can be printed.
    pub open spec fn spec_has_text(self) -> bool {
        match self {
            Instruction::LDInstruction(i) => i.spec_has_text(),
            _ => true,
        }
    }

    /// The instruction as the disassembler prints it.
    pub open spec fn spec_text(self) -> Seq<char> {
        match self {
            Instruction::ADCInstruction(i) => i.spec_text(),
            Instruction::ADDInstruction(i) => i.spec_text(),
            Instruction::ANDInstruction(i) => i.spec_text(),
            Instruction::BITInstruction(i) => i.spec_text(),
            Instruction::CALLInstruction(i) => i.spec_text(),
            Instruction::CCFInstruction(i) => i.spec_text(),
            Instruction::CPInstruction(i) => i.spec_text(),
            Instruction::CPLInstruction(i) => i.spec_text(),
            Instruction::DAAInstruction(i) => i.spec_text(),
            Instruction::DECInstruction(i) => i.spec_text(),
            Instruction::DIInstruction(i) => i.spec_text(),
            Instruction::EIInstruction(i) => i.spec_text(),
            Instruction::HALTInstruction(i) => i.spec_text(),
            Instruction::INCInstruction(i) => i.spec_text(),
            Instruction::JPInstruction(i) => i.spec_text(),
            Instruction::JRInstruction(i) => i.spec_text(),
            Instruction::LDHInstruction(i) => i.spec_text(),
            Instruction::LDInstruction(i) => i.spec_text(),
            Instruction::NOPInstruction(i) => i.spec_text(),
            Instruction::ORInstruction(i) => i.spec_text(),
            Instruction::POPInstruction(i) => i.spec_text(),
            Instruction::PUSHInstruction(i) => i.spec_text(),
            Instruction::RESInstruction(i) => i.spec_text(),
            Instruction::RETIInstruction(i) => i.spec_text(),
            Instruction::RETInstruction(i) => i.spec_text(),
            Instruction::RLAInstruction(i) => i.spec_text(),
            Instruction::RLCAInstruction(i) => i.spec_text(),
            Instruction::RLCInstruction(i) => i.spec_text(),
            Instruction::RLInstruction(i) => i.spec_text(),
            Instruction::RRAInstruction(i) => i.spec_text(),
            Instruction::RRCAInstruction(i) => i.spec_text(),
            Instruction::RRCInstruction(i) => i.spec_text(),
            Instruction::RRInstruction(i) => i.spec_text(),
            Instruction::RSTInstruction(i) => i.spec_text(),
            Instruction::SBCInstruction(i) => i.spec_text(),
            Instruction::SCFInstruction(i) => i.spec_text(),
            Instruction::SETInstruction(i) => i.spec_text(),
            Instruction::SLAInstruction(i) => i.spec_text(),
            Instruction::SRAInstruction(i) => i.spec_text(),
            Instruction::SRLInstruction(i) => i.spec_text(),
            Instruction::STOPInstruction(i) => i.spec_text(),
            Instruction::SUBInstruction(i) => i.spec_text(),
            Instruction::SWAPInstruction(i) => i.spec_text(),
            Instruction::XORInstruction(i) => i.spec_text(),
        }
    }

    pub fn to_string(&self) -> (s: String)
        requires
            self.spec_has_text(),
        ensures
            s@ == self.spec_text(),
    {
        match self {
            Instruction::ADCInstruction(i) => i.to_string(),
            Instruction::ADDInstruction(i) => i.to_string(),
            Instruction::ANDInstruction(i) => i.to_string(),
            Instruction::BITInstruction(i) => i.to_string(),
            Instruction::CALLInstruction(i) => i.to_string(),
            Instruction::CCFInstruction(i) => i.to_string(),
            Instruction::CPInstruction(i) => i.to_string(),
            Instruction::CPLInstruction(i) => i.to_string(),
            Instruction::DAAInstruction(i) => i.to_string(),
            Instruction::DECInstruction(i) => i.to_string(),
            Instruction::DIInstruction(i) => i.to_string(),
            Instruction::EIInstruction(i) => i.to_string(),
            Instruction::HALTInstruction(i) => i.to_string(),
            Instruction::INCInstruction(i) => i.to_string(),
            Instruction::JPInstruction(i) => i.to_string(),
            Instruction::JRInstruction(i) => i.to_string(),
            Instruction::LDHInstruction(i) => i.to_string(),
            Instruction::LDInstruction(i) => i.to_string(),
            Instruction::NOPInstruction(i) => i.to_string(),
            Instruction::ORInstruction(i) => i.to_string(),
            Instruction::POPInstruction(i) => i.to_string(),
            Instruction::PUSHInstruction(i) => i.to_string(),
            Instruction::RESInstruction(i) => i.to_string(),
            Instruction::RETIInstruction(i) => i.to_string(),
            Instruction::RETInstruction(i) => i.to_string(),
            Instruction::RLAInstruction(i) => i.to_string(),
            Instruction::RLCAInstruction(i) => i.to_string(),
            Instruction::RLCInstruction(i) => i.to_string(),
            Instruction::RLInstruction(i) => i.to_string(),
            Instruction::RRAInstruction(i) => i.to_string(),
            Instruction::RRCAInstruction(i) => i.to_string(),
            Instruction::RRCInstruction(i) => i.to_string(),
            Instruction::RRInstruction(i) => i.to_string(),
            Instruction::RSTInstruction(i) => i.to_string(),
            Instruction::SBCInstruction(i) => i.to_string(),
            Instruction::SCFInstruction(i) => i.to_string(),
            Instruction::SETInstruction(i) => i.to_string(),
            Instruction::SLAInstruction(i) => i.to_string(),
            Instruction::SRAInstruction(i) => i.to_string(),
            Instruction::SRLInstruction(i) => i.to_string(),
            Instruction::STOPInstruction(i) => i.to_string(),
            Instruction::SUBInstruction(i) => i.to_string(),
            Instruction::SWAPInstruction(i) => i.to_string(),
            Instruction::XORInstruction(i) => i.to_string(),
        }
    }

    /// Whether the instruction can be printed: every one but LD HL, SP - 128,
    /// whose offset has no positive counterpart in `i8`.
    pub fn has_text(&self) -> (r: bool)
        ensures
            r == self.spec_has_text(),
    {
        match self {
            Instruction::LDInstruction(LDInstruction::HLSPE8(offset)) => *offset != -128,
            _ => true,
        }
    }

    /// Whether the instruction has a known duration: every one but SBC.
    pub fn has_duration(&self) -> (r: bool)
        ensures
            r == self.spec_has_duration(),
    {
        match self {
            Instruction::SBCInstruction(_) => false,
            _ => true,
        }
    }
}

/// Every known duration is a whole number of machine cycles: a positive
/// multiple of four clock cycles.
pub proof fn lemma_duration_whole_machine_cycles(i: Instruction)
    requires
        i.spec_has_duration(),
    ensures
        i.spec_duration() >= 4,
        i.spec_duration() % 4 == 0,
{
    match i {
        Instruction::ADCInstruction(x) => {},
        Instruction::ADDInstruction(x) => {},
        Instruction::ANDInstruction(x) => {},
        Instruction::BITInstruction(x) => {},
        Instruction::CALLInstruction(x) => {},
        Instruction::CCFInstruction(x) => {},
        Instruction::CPInstruction(x) => {},
        Instruction::CPLInstruction(x) => {},
        Instruction::DAAInstruction(x) => {},
        Instruction::DECInstruction(x) => {},
        Instruction::DIInstruction(x) => {},
        Instruction::EIInstruction(x) => {},
        Instruction::HALTInstruction(x) => {},
        Instruction::INCInstruction(x) => {},
        Instruction::JPInstruction(x) => {},
        Instruction::JRInstruction(x) => {},
        Instruction::LDHInstruction(x) => {},
        Instruction::LDInstruction(x) => {},
        Instruction::NOPInstruction(x) => {},
        Instruction::ORInstruction(x) => {},
        Instruction::POPInstruction(x) => {},
        Instruction::PUSHInstruction(x) => {},
        Instruction::RESInstruction(x) => {},
        Instruction::RETIInstruction(x) => {},
        Instruction::RETInstruction(x) => {},
        Instruction::RLAInstruction(x) => {},
        Instruction::RLCAInstruction(x) => {},
        Instruction::RLCInstruction(x) => {},
        Instruction::RLInstruction(x) => {},
        Instruction::RRAInstruction(x) => {},
        Instruction::RRCAInstruction(x) => {},
        Instruction::RRCInstruction(x) => {},
        Instruction::RRInstruction(x) => {},
        Instruction::RSTInstruction(x) => {},
        Instruction::SBCInstruction(x) => {},
        Instruction::SCFInstruction(x) => {},
        Instruction::SETInstruction(x) => {},
        Instruction::SLAInstruction(x) => {},
        Instruction::SRAInstruction(x) => {},
        Instruction::SRLInstruction(x) => {},
        Instruction::STOPInstruction(x) => {},
        Instruction::SUBInstruction(x) => {},
        Instruction::SWAPInstruction(x) => {},
        Instruction::XORInstruction(x) => {},
    }
}

/// Whether executing `instruction` from this state is supported: it is
/// implemented, its stack and address arithmetic stays in range, and the bus
/// serves every address it touches.
pub open spec fn spec_executable<B: CPUBusTrait>(instruction: Instruction, cpu: CPU, bus: B) -> bool {
    match instruction {
        Instruction::CALLInstruction(i) => spec_executable_call(i, cpu, bus),
        Instruction::CCFInstruction(i) => true,
        Instruction::CPInstruction(i) => spec_executable_cp(i, cpu, bus),
        Instruction::DECInstruction(i) => spec_executable_dec(i, cpu, bus),
        Instruction::DIInstruction(i) => true,
        Instruction::EIInstruction(i) => true,
        Instruction::INCInstruction(i) => spec_executable_inc(i, cpu, bus),
        Instruction::JPInstruction(i) => true,
        Instruction::JRInstruction(i) => true,
        Instruction::LDHInstruction(i) => spec_executable_ldh(i, cpu, bus),
        Instruction::LDInstruction(i) => spec_executable_ld(i, cpu, bus),
        Instruction::NOPInstruction(i) => true,
        Instruction::ORInstruction(i) => spec_executable_or(i, cpu, bus),
        Instruction::RETIInstruction(i) => return_possible::<B>(cpu),
        Instruction::RETInstruction(i) => spec_executable_ret(i, cpu, bus),
        Instruction::XORInstruction(i) => spec_executable_xor(i, cpu, bus),
        _ => false,
    }
}

/// The CPU and the bus after executing `instruction`.
pub open spec fn spec_execute<B: CPUBusTrait>(instruction: Instruction, cpu: CPU, bus: B) -> (CPU, B) {
    match instruction {
        Instruction::CALLInstruction(i) => spec_execute_call(i, cpu, bus),
        Instruction::CCFInstruction(i) => spec_execute_ccf(cpu, bus),
        Instruction::CPInstruction(i) => spec_execute_cp(i, cpu, bus),
        Instruction::DECInstruction(i) => spec_execute_dec(i, cpu, bus),
        Instruction::DIInstruction(i) => (CPU { interrupt_master_enable: false, ..cpu }, bus),
        Instruction::EIInstruction(i) => (CPU { interrupt_master_enable: true, ..cpu }, bus),
        Instruction::INCInstruction(i) => spec_execute_inc(i, cpu, bus),
        Instruction::JPInstruction(i) => spec_execute_jp(i, cpu, bus),
        Instruction::JRInstruction(i) => spec_execute_jr(i, cpu, bus),
        Instruction::LDHInstruction(i) => spec_execute_ldh(i, cpu, bus),
        Instruction::LDInstruction(i) => spec_execute_ld(i, cpu, bus),
        Instruction::NOPInstruction(i) => (cpu, bus),
        Instruction::ORInstruction(i) => spec_execute_or(i, cpu, bus),
        Instruction::RETIInstruction(i) => spec_execute_reti(cpu, bus),
        Instruction::RETInstruction(i) => spec_execute_ret(i, cpu, bus),
        Instruction::XORInstruction(i) => spec_execute_xor(i, cpu, bus),
        _ => (cpu, bus),
    }
}

impl InstructionBehavior for Instruction {
    open spec fn spec_instruction(&self) -> Instruction {
        *self
    }

    open spec fn spec_has_duration(&self) -> bool {
        match *self {
            Instruction::ADCInstruction(i) => i.spec_has_duration(),
            Instruction::ADDInstruction(i) => i.spec_has_duration(),
            Instruction::ANDInstruction(i) => i.spec_has_duration(),
            Instruction::BITInstruction(i) => i.spec_has_duration(),
            Instruction::CALLInstruction(i) => i.spec_has_duration(),
            Instruction::CCFInstruction(i) => i.spec_has_duration(),
            Instruction::CPInstruction(i) => i.spec_has_duration(),
            Instruction::CPLInstruction(i) => i.spec_has_duration(),
            Instruction::DAAInstruction(i) => i.spec_has_duration(),
            Instruction::DECInstruction(i) => i.spec_has_duration(),
            Instruction::DIInstruction(i) => i.spec_has_duration(),
            Instruction::EIInstruction(i) => i.spec_has_duration(),
            Instruction::HALTInstruction(i) => i.spec_has_duration(),
            Instruction::INCInstruction(i) => i.spec_has_duration(),
            Instruction::JPInstruction(i) => i.spec_has_duration(),
            Instruction::JRInstruction(i) => i.spec_has_duration(),
            Instruction::LDHInstruction(i) => i.spec_has_duration(),
            Instruction::LDInstruction(i) => i.spec_has_duration(),
            Instruction::NOPInstruction(i) => i.spec_has_duration(),
            Instruction::ORInstruction(i) => i.spec_has_duration(),
            Instruction::POPInstruction(i) => i.spec_has_duration(),
            Instruction::PUSHInstruction(i) => i.spec_has_duration(),
            Instruction::RESInstruction(i) => i.spec_has_duration(),
            Instruction::RETIInstruction(i) => i.spec_has_duration(),
            Instruction::RETInstruction(i) => i.spec_has_duration(),
            Instruction::RLAInstruction(i) => i.spec_has_duration(),
            Instruction::RLCAInstruction(i) => i.spec_has_duration(),
            Instruction::RLCInstruction(i) => i.spec_has_duration(),
            Instruction::RLInstruction(i) => i.spec_has_duration(),
            Instruction::RRAInstruction(i) => i.spec_has_duration(),
            Instruction::RRCAInstruction(i) => i.spec_has_duration(),
            Instruction::RRCInstruction(i) => i.spec_has_duration(),
            Instruction::RRInstruction(i) => i.spec_has_duration(),
            Instruction::RSTInstruction(i) => i.spec_has_duration(),
            Instruction::SBCInstruction(i) => i.spec_has_duration(),
            Instruction::SCFInstruction(i) => i.spec_has_duration(),
            Instruction::SETInstruction(i) => i.spec_has_duration(),
            Instruction::SLAInstruction(i) => i.spec_has_duration(),
            Instruction::SRAInstruction(i) => i.spec_has_duration(),
            Instruction::SRLInstruction(i) => i.spec_has_duration(),
            Instruction::STOPInstruction(i) => i.spec_has_duration(),
            Instruction::SUBInstruction(i) => i.spec_has_duration(),
            Instruction::SWAPInstruction(i) => i.spec_has_duration(),
            Instruction::XORInstruction(i) => i.spec_has_duration(),
        }
    }

    open spec fn spec_duration(&self) -> usize {
        match *self {
            Instruction::ADCInstruction(i) => i.spec_duration(),
            Instruction::ADDInstruction(i) => i.spec_duration(),
            Instruction::ANDInstruction(i) => i.spec_duration(),
            Instruction::BITInstruction(i) => i.spec_duration(),
            Instruction::CALLInstruction(i) => i.spec_duration(),
            Instruction::CCFInstruction(i) => i.spec_duration(),
            Instruction::CPInstruction(i) => i.spec_duration(),
            Instruction::CPLInstruction(i) => i.spec_duration(),
            Instruction::DAAInstruction(i) => i.spec_duration(),
            Instruction::DECInstruction(i) => i.spec_duration(),
            Instruction::DIInstruction(i) => i.spec_duration(),
            Instruction::EIInstruction(i) => i.spec_duration(),
            Instruction::HALTInstruction(i) => i.spec_duration(),
            Instruction::INCInstruction(i) => i.spec_duration(),
            Instruction::JPInstruction(i) => i.spec_duration(),
            Instruction::JRInstruction(i) => i.spec_duration(),
            Instruction::LDHInstruction(i) => i.spec_duration(),
            Instruction::LDInstruction(i) => i.spec_duration(),
            Instruction::NOPInstruction(i) => i.spec_duration(),
            Instruction::ORInstruction(i) => i.spec_duration(),
            Instruction::POPInstruction(i) => i.spec_duration(),
            Instruction::PUSHInstruction(i) => i.spec_duration(),
            Instruction::RESInstruction(i) => i.spec_duration(),
            Instruction::RETIInstruction(i) => i.spec_duration(),
            Instruction::RETInstruction(i) => i.spec_duration(),
            Instruction::RLAInstruction(i) => i.spec_duration(),
            Instruction::RLCAInstruction(i) => i.spec_duration(),
            Instruction::RLCInstruction(i) => i.spec_duration(),
            Instruction::RLInstruction(i) => i.spec_duration(),
            Instruction::RRAInstruction(i) => i.spec_duration(),
            Instruction::RRCAInstruction(i) => i.spec_duration(),
            Instruction::RRCInstruction(i) => i.spec_duration(),
            Instruction::RRInstruction(i) => i.spec_duration(),
            Instruction::RSTInstruction(i) => i.spec_duration(),
            Instruction::SBCInstruction(i) => i.spec_duration(),
            Instruction::SCFInstruction(i) => i.spec_duration(),
            Instruction::SETInstruction(i) => i.spec_duration(),
            Instruction::SLAInstruction(i) => i.spec_duration(),
            Instruction::SRAInstruction(i) => i.spec_duration(),
            Instruction::SRLInstruction(i) => i.spec_duration(),
            Instruction::STOPInstruction(i) => i.spec_duration(),
            Instruction::SUBInstruction(i) => i.spec_duration(),
            Instruction::SWAPInstruction(i) => i.spec_duration(),
            Instruction::XORInstruction(i) => i.spec_duration(),
        }
    }

    #[verifier::spinoff_prover]
    #[verifier::rlimit(100)]
    fn duration(&self) -> (r: usize) {
        match self {
            Instruction::ADCInstruction(i) => i.duration(),
            Instruction::ADDInstruction(i) => i.duration(),
            Instruction::ANDInstruction(i) => i.duration(),
            Instruction::BITInstruction(i) => i.duration(),
            Instruction::CALLInstruction(i) => i.duration(),
            Instruction::CCFInstruction(i) => i.duration(),
            Instruction::CPInstruction(i) => i.duration(),
            Instruction::CPLInstruction(i) => i.duration(),
            Instruction::DAAInstruction(i) => i.duration(),
            Instruction::DECInstruction(i) => i.duration(),
            Instruction::DIInstruction(i) => i.duration(),
            Instruction::EIInstruction(i) => i.duration(),
            Instruction::HALTInstruction(i) => i.duration(),
            Instruction::INCInstruction(i) => i.duration(),
            Instruction::JPInstruction(i) => i.duration(),
            Instruction::JRInstruction(i) => i.duration(),
            Instruction::LDHInstruction(i) => i.duration(),
            Instruction::LDInstruction(i) => i.duration(),
            Instruction::NOPInstruction(i) => i.duration(),
            Instruction::ORInstruction(i) => i.duration(),
            Instruction::POPInstruction(i) => i.duration(),
            Instruction::PUSHInstruction(i) => i.duration(),
            Instruction::RESInstruction(i) => i.duration(),
            Instruction::RETIInstruction(i) => i.duration(),
            Instruction::RETInstruction(i) => i.duration(),
            Instruction::RLAInstruction(i) => i.duration(),
            Instruction::RLCAInstruction(i) => i.duration(),
            Instruction::RLCInstruction(i) => i.duration(),
            Instruction::RLInstruction(i) => i.duration(),
            Instruction::RRAInstruction(i) => i.duration(),
            Instruction::RRCAInstruction(i) => i.duration(),
            Instruction::RRCInstruction(i) => i.duration(),
            Instruction::RRInstruction(i) => i.duration(),
            Instruction::RSTInstruction(i) => i.duration(),
            Instruction::SBCInstruction(i) => i.duration(),
            Instruction::SCFInstruction(i) => i.duration(),
            Instruction::SETInstruction(i) => i.duration(),
            Instruction::SLAInstruction(i) => i.duration(),
            Instruction::SRAInstruction(i) => i.duration(),
            Instruction::SRLInstruction(i) => i.duration(),
            Instruction::STOPInstruction(i) => i.duration(),
            Instruction::SUBInstruction(i) => i.duration(),
            Instruction::SWAPInstruction(i) => i.duration(),
            Instruction::XORInstruction(i) => i.duration(),
        }
    }

}

/// Executing an instruction dispatches to its kind; the kinds that are not
/// implemented are excluded by `spec_executable`.
impl Execute for Instruction {
    fn execute<B: CPUBusTrait>(&self, cpu: &mut CPU, cpu_bus: &mut B) {
        match self {
            Instruction::CALLInstruction(i) => i.execute(cpu, cpu_bus),
            Instruction::CCFInstruction(i) => i.execute(cpu, cpu_bus),
            Instruction::CPInstruction(i) => i.execute(cpu, cpu_bus),
            Instruction::DECInstruction(i) => i.execute(cpu, cpu_bus),
            Instruction::DIInstruction(i) => i.execute(cpu, cpu_bus),
            Instruction::EIInstruction(i) => i.execute(cpu, cpu_bus),
            Instruction::INCInstruction(i) => i.execute(cpu, cpu_bus),
            Instruction::JPInstruction(i) => i.execute(cpu, cpu_bus),
            Instruction::JRInstruction(i) => i.execute(cpu, cpu_bus),
            Instruction::LDHInstruction(i) => i.execute(cpu, cpu_bus),
            Instruction::LDInstruction(i) => i.execute(cpu, cpu_bus),
            Instruction::NOPInstruction(i) => i.execute(cpu, cpu_bus),
            Instruction::ORInstruction(i) => i.execute(cpu, cpu_bus),
            Instruction::RETIInstruction(i) => i.execute(cpu, cpu_bus),
            Instruction::RETInstruction(i) => i.execute(cpu, cpu_bus),
            Instruction::XORInstruction(i) => i.execute(cpu, cpu_bus),
            _ => {},
        }
    }
}

impl Assemble for Instruction {
    open spec fn spec_bytes(&self) -> Seq<u8> {
        match *self {
            Instruction::ADCInstruction(i) => i.spec_bytes(),
            Instruction::ADDInstruction(i) => i.spec_bytes(),
            Instruction::ANDInstruction(i) => i.spec_bytes(),
            Instruction::BITInstruction(i) => i.spec_bytes(),
            Instruction::CALLInstruction(i) => i.spec_bytes(),
            Instruction::CCFInstruction(i) => i.spec_bytes(),
            Instruction::CPInstruction(i) => i.spec_bytes(),
            Instruction::CPLInstruction(i) => i.spec_bytes(),
            Instruction::DAAInstruction(i) => i.spec_bytes(),
            Instruction::DECInstruction(i) => i.spec_bytes(),
            Instruction::DIInstruction(i) => i.spec_bytes(),
            Instruction::EIInstruction(i) => i.spec_bytes(),
            Instruction::HALTInstruction(i) => i.spec_bytes(),
            Instruction::INCInstruction(i) => i.spec_bytes(),
            Instruction::JPInstruction(i) => i.spec_bytes(),
            Instruction::JRInstruction(i) => i.spec_bytes(),
            Instruction::LDHInstruction(i) => i.spec_bytes(),
            Instruction::LDInstruction(i) => i.spec_bytes(),
            Instruction::NOPInstruction(i) => i.spec_bytes(),
            Instruction::ORInstruction(i) => i.spec_bytes(),
            Instruction::POPInstruction(i) => i.spec_bytes(),
            Instruction::PUSHInstruction(i) => i.spec_bytes(),
            Instruction::RESInstruction(i) => i.spec_bytes(),
            Instruction::RETIInstruction(i) => i.spec_bytes(),
            Instruction::RETInstruction(i) => i.spec_bytes(),
            Instruction::RLAInstruction(i) => i.spec_bytes(),
            Instruction::RLCAInstruction(i) => i.spec_bytes(),
            Instruction::RLCInstruction(i) => i.spec_bytes(),
            Instruction::RLInstruction(i) => i.spec_bytes(),
            Instruction::RRAInstruction(i) => i.spec_bytes(),
            Instruction::RRCAInstruction(i) => i.spec_bytes(),
            Instruction::RRCInstruction(i) => i.spec_bytes(),
            Instruction::RRInstruction(i) => i.spec_bytes(),
            Instruction::RSTInstruction(i) => i.spec_bytes(),
            Instruction::SBCInstruction(i) => i.spec_bytes(),
            Instruction::SCFInstruction(i) => i.spec_bytes(),
            Instruction::SETInstruction(i) => i.spec_bytes(),
            Instruction::SLAInstruction(i) => i.spec_bytes(),
            Instruction::SRAInstruction(i) => i.spec_bytes(),
            Instruction::SRLInstruction(i) => i.spec_bytes(),
            Instruction::STOPInstruction(i) => i.spec_bytes(),
            Instruction::SUBInstruction(i) => i.spec_bytes(),
            Instruction::SWAPInstruction(i) => i.spec_bytes(),
            Instruction::XORInstruction(i) => i.spec_bytes(),
        }
    }

    #[verifier::rlimit(50)]
    fn assemble(&self, dest: &mut Vec<u8>) -> (r: usize) {
        match self {
            Instruction::ADCInstruction(i) => i.assemble(dest),
            Instruction::ADDInstruction(i) => i.assemble(dest),
            Instruction::ANDInstruction(i) => i.assemble(dest),
            Instruction::BITInstruction(i) => i.assemble(dest),
            Instruction::CALLInstruction(i) => i.assemble(dest),
            Instruction::CCFInstruction(i) => i.assemble(dest),
            Instruction::CPInstruction(i) => i.assemble(dest),
            Instruction::CPLInstruction(i) => i.assemble(dest),
            Instruction::DAAInstruction(i) => i.assemble(dest),
            Instruction::DECInstruction(i) => i.assemble(dest),
            Instruction::DIInstruction(i) => i.assemble(dest),
            Instruction::EIInstruction(i) => i.assemble(dest),
            Instruction::HALTInstruction(i) => i.assemble(dest),
            Instruction::INCInstruction(i) => i.assemble(dest),
            Instruction::JPInstruction(i) => i.assemble(dest),
            Instruction::JRInstruction(i) => i.assemble(dest),
            Instruction::LDHInstruction(i) => i.assemble(dest),
            Instruction::LDInstruction(i) => i.assemble(dest),
            Instruction::NOPInstruction(i) => i.assemble(dest),
            Instruction::ORInstruction(i) => i.assemble(dest),
            Instruction::POPInstruction(i) => i.assemble(dest),
            Instruction::PUSHInstruction(i) => i.assemble(dest),
            Instruction::RESInstruction(i) => i.assemble(dest),
            Instruction::RETIInstruction(i) => i.assemble(dest),
            Instruction::RETInstruction(i) => i.assemble(dest),
            Instruction::RLAInstruction(i) => i.assemble(dest),
            Instruction::RLCAInstruction(i) => i.assemble(dest),
            Instruction::RLCInstruction(i) => i.assemble(dest),
            Instruction::RLInstruction(i) => i.assemble(dest),
            Instruction::RRAInstruction(i) => i.assemble(dest),
            Instruction::RRCAInstruction(i) => i.assemble(dest),
            Instruction::RRCInstruction(i) => i.assemble(dest),
            Instruction::RRInstruction(i) => i.assemble(dest),
            Instruction::RSTInstruction(i) => i.assemble(dest),
            Instruction::SBCInstruction(i) => i.assemble(dest),
            Instruction::SCFInstruction(i) => i.assemble(dest),
            Instruction::SETInstruction(i) => i.assemble(dest),
            Instruction::SLAInstruction(i) => i.assemble(dest),
            Instruction::SRAInstruction(i) => i.assemble(dest),
            Instruction::SRLInstruction(i) => i.assemble(dest),
            Instruction::STOPInstruction(i) => i.assemble(dest),
            Instruction::SUBInstruction(i) => i.assemble(dest),
            Instruction::SWAPInstruction(i) => i.assemble(dest),
            Instruction::XORInstruction(i) => i.assemble(dest),
        }
    }
}

} // verus!
