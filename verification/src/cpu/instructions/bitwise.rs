//! Bit, rotate and shift instructions.
use vstd::prelude::*;
use crate::cpu::CPU;
use crate::cpu::assembly::Assemble;
use crate::cpu::cpu_bus::CPUBusTrait;
use crate::cpu::instructions::{
    BitOffset, Instruction, InstructionBehavior, reg8_code, register8_code, spec_execute,
    spec_executable,
};
use crate::cpu::registers::Register8;
use crate::text::{dec, push_dec};

verus! {

/// CPL: complement A.
#[derive(Debug, Clone, Copy, PartialEq, Eq, Structural)]
pub enum CPLInstruction {
    Empty,
}

impl CPLInstruction {
    pub open spec fn spec_cycles(self) -> usize {
        4
    }

    pub open spec fn spec_text(self) -> Seq<char> {
        "CPL"@
    }

    pub fn to_string(&self) -> (s: String)
        ensures
            s@ == self.spec_text(),
    {
        String::from_str("CPL")
    }
}

impl InstructionBehavior for CPLInstruction {
    open spec fn spec_instruction(&self) -> Instruction {
        Instruction::CPLInstruction(*self)
    }

    open spec fn spec_has_duration(&self) -> bool {
        true
    }

    open spec fn spec_duration(&self) -> usize {
        self.spec_cycles()
    }


    fn duration(&self) -> (r: usize) {
        4
    }
}

impl Assemble for CPLInstruction {
    open spec fn spec_bytes(&self) -> Seq<u8> {
        seq![0x2Fu8]
    }

    fn assemble(&self, dest: &mut Vec<u8>) -> (r: usize) {
        dest.push(0x2F);
        1
    }
}

/// RES: clear one bit of a register or of the byte at HL.
#[derive(Debug, Clone, Copy, PartialEq, Eq, Structural)]
pub enum RESInstruction {
    U3R8(BitOffset, Register8),
    U3HL(BitOffset),
}

impl RESInstruction {
    pub open spec fn spec_cycles(self) -> usize {
        match self {
            RESInstruction::U3R8(_, _) => 8,
            RESInstruction::U3HL(_) => 12,
        }
    }

    pub open spec fn spec_text(self) -> Seq<char> {
        match self {
            RESInstruction::U3R8(bit, r) => "RES "@ + dec(bit@ as nat) + ", "@ + r.spec_name(),
            RESInstruction::U3HL(bit) => "RES "@ + dec(bit@ as nat) + ", [HL]"@,
        }
    }

    pub fn to_string(&self) -> (s: String)
        ensures
            s@ == self.spec_text(),
    {
        let mut s = String::from_str("RES ");
        match self {
            RESInstruction::U3R8(bit, r) => {
                push_dec(&mut s, bit.as_u8() as u16);
                s.append(", ");
                s.append(r.as_ref());
            },
            RESInstruction::U3HL(bit) => {
                push_dec(&mut s, bit.as_u8() as u16);
                s.append(", [HL]");
            },
        }
        s
    }
}

impl InstructionBehavior for RESInstruction {
    open spec fn spec_instruction(&self) -> Instruction {
        Instruction::RESInstruction(*self)
    }

    open spec fn spec_has_duration(&self) -> bool {
        true
    }

    open spec fn spec_duration(&self) -> usize {
        self.spec_cycles()
    }


    fn duration(&self) -> (r: usize) {
        match self {
            RESInstruction::U3R8(_, _) => 8,
            RESInstruction::U3HL(_) => 12,
        }
    }
}

impl Assemble for RESInstruction {
    open spec fn spec_bytes(&self) -> Seq<u8> {
        match *self {
            RESInstruction::U3R8(bit, r) => seq![0xCBu8, (0x80 + reg8_code(r) + bit@ * 8) as u8],
            RESInstruction::U3HL(bit) => seq![0xCBu8, (0x86 + bit@ * 8) as u8],
        }
    }

    fn assemble(&self, dest: &mut Vec<u8>) -> (r: usize) {
        dest.push(0xCB);
        match self {
            RESInstruction::U3R8(bit, r) => dest.push(0x80 + register8_code(*r) + bit.as_u8() * 8),
            RESInstruction::U3HL(bit) => dest.push(0x86 + bit.as_u8() * 8),
        }
        2
    }
}

/// RL: rotate left through the carry.
#[derive(Debug, Clone, Copy, PartialEq, Eq, Structural)]
pub enum RLInstruction {
    R8(Register8),
    HL,
}

impl RLInstruction {
    pub open spec fn spec_cycles(self) -> usize {
        match self {
            RLInstruction::R8(_) => 8,
            RLInstruction::HL => 16,
        }
    }

    pub open spec fn spec_text(self) -> Seq<char> {
        match self {
            RLInstruction::R8(r) => "RL "@ + r.spec_name(),
            RLInstruction::HL => "RL [HL]"@,
        }
    }

    pub fn to_string(&self) -> (s: String)
        ensures
            s@ == self.spec_text(),
    {
        match self {
            RLInstruction::R8(r) => {
                let mut s = String::from_str("RL ");
                s.append(r.as_ref());
                s
            },
            RLInstruction::HL => String::from_str("RL [HL]"),
        }
    }
}

impl InstructionBehavior for RLInstruction {
    open spec fn spec_instruction(&self) -> Instruction {
        Instruction::RLInstruction(*self)
    }

    open spec fn spec_has_duration(&self) -> bool {
        true
    }

    open spec fn spec_duration(&self) -> usize {
        self.spec_cycles()
    }


    fn duration(&self) -> (r: usize) {
        match self {
            RLInstruction::R8(_) => 8,
            RLInstruction::HL => 16,
        }
    }
}

impl Assemble for RLInstruction {
    open spec fn spec_bytes(&self) -> Seq<u8> {
        match *self {
            RLInstruction::R8(r) => seq![0xCBu8, (0x10 + reg8_code(r)) as u8],
            RLInstruction::HL => seq![0xCBu8, 0x16u8],
        }
    }

    fn assemble(&self, dest: &mut Vec<u8>) -> (r: usize) {
        dest.push(0xCB);
        match self {
            RLInstruction::R8(r) => dest.push(0x10 + register8_code(*r)),
            RLInstruction::HL => dest.push(0x16),
        }
        2
    }
}

/// RLA: rotate A left through the carry.
#[derive(Debug, Clone, Copy, PartialEq, Eq, Structural)]
pub enum RLAInstruction {
    Empty,
}

impl RLAInstruction {
    pub open spec fn spec_cycles(self) -> usize {
        4
    }

    pub open spec fn spec_text(self) -> Seq<char> {
        "RLA"@
    }

    pub fn to_string(&self) -> (s: String)
        ensures
            s@ == self.spec_text(),
    {
        String::from_str("RLA")
    }
}

impl InstructionBehavior for RLAInstruction {
    open spec fn spec_instruction(&self) -> Instruction {
        Instruction::RLAInstruction(*self)
    }

    open spec fn spec_has_duration(&self) -> bool {
        true
    }

    open spec fn spec_duration(&self) -> usize {
        self.spec_cycles()
    }


    fn duration(&self) -> (r: usize) {
        4
    }
}

impl Assemble for RLAInstruction {
    open spec fn spec_bytes(&self) -> Seq<u8> {
        seq![0x17u8]
    }

    fn assemble(&self, dest: &mut Vec<u8>) -> (r: usize) {
        dest.push(0x17);
        1
    }
}

/// RLC: rotate left.
#[derive(Debug, Clone, Copy, PartialEq, Eq, Structural)]
pub enum RLCInstruction {
    R8(Register8),
    HL,
}

impl RLCInstruction {
    pub open spec fn spec_cycles(self) -> usize {
        match self {
            RLCInstruction::R8(_) => 8,
            RLCInstruction::HL => 16,
        }
    }

    pub open spec fn spec_text(self) -> Seq<char> {
        match self {
            RLCInstruction::R8(r) => "RLC "@ + r.spec_name(),
            RLCInstruction::HL => "RLC [HL]"@,
        }
    }

    pub fn to_string(&self) -> (s: String)
        ensures
            s@ == self.spec_text(),
    {
        match self {
            RLCInstruction::R8(r) => {
                let mut s = String::from_str("RLC ");
                s.append(r.as_ref());
                s
            },
            RLCInstruction::HL => String::from_str("RLC [HL]"),
        }
    }
}

impl InstructionBehavior for RLCInstruction {
    open spec fn spec_instruction(&self) -> Instruction {
        Instruction::RLCInstruction(*self)
    }

    open spec fn spec_has_duration(&self) -> bool {
        true
    }

    open spec fn spec_duration(&self) -> usize {
        self.spec_cycles()
    }


    fn duration(&self) -> (r: usize) {
        match self {
            RLCInstruction::R8(_) => 8,
            RLCInstruction::HL => 16,
        }
    }
}

impl Assemble for RLCInstruction {
    open spec fn spec_bytes(&self) -> Seq<u8> {
        match *self {
            RLCInstruction::R8(r) => seq![0xCBu8, (0x00 + reg8_code(r)) as u8],
            RLCInstruction::HL => seq![0xCBu8, 0x06u8],
        }
    }

    fn assemble(&self, dest: &mut Vec<u8>) -> (r: usize) {
        dest.push(0xCB);
        match self {
            RLCInstruction::R8(r) => dest.push(0x00 + register8_code(*r)),
            RLCInstruction::HL => dest.push(0x06),
        }
        2
    }
}

/// RLCA: rotate A left.
#[derive(Debug, Clone, Copy, PartialEq, Eq, Structural)]
pub enum RLCAInstruction {
    Empty,
}

impl RLCAInstruction {
    pub open spec fn spec_cycles(self) -> usize {
        4
    }

    pub open spec fn spec_text(self) -> Seq<char> {
        "RLCA"@
    }

    pub fn to_string(&self) -> (s: String)
        ensures
            s@ == self.spec_text(),
    {
        String::from_str("RLCA")
    }
}

impl InstructionBehavior for RLCAInstruction {
    open spec fn spec_instruction(&self) -> Instruction {
        Instruction::RLCAInstruction(*self)
    }

    open spec fn spec_has_duration(&self) -> bool {
        true
    }

    open spec fn spec_duration(&self) -> usize {
        self.spec_cycles()
    }


    fn duration(&self) -> (r: usize) {
        4
    }
}

impl Assemble for RLCAInstruction {
    open spec fn spec_bytes(&self) -> Seq<u8> {
        seq![0x07u8]
    }

    fn assemble(&self, dest: &mut Vec<u8>) -> (r: usize) {
        dest.push(0x07);
        1
    }
}

/// RR: rotate right through the carry.
#[derive(Debug, Clone, Copy, PartialEq, Eq, Structural)]
pub enum RRInstruction {
    R8(Register8),
    HL,
}

impl RRInstruction {
    pub open spec fn spec_cycles(self) -> usize {
        match self {
            RRInstruction::R8(_) => 8,
            RRInstruction::HL => 16,
        }
    }

    pub open spec fn spec_text(self) -> Seq<char> {
        match self {
            RRInstruction::R8(r) => "RR "@ + r.spec_name(),
            RRInstruction::HL => "RR [HL]"@,
        }
    }

    pub fn to_string(&self) -> (s: String)
        ensures
            s@ == self.spec_text(),
    {
        match self {
            RRInstruction::R8(r) => {
                let mut s = String::from_str("RR ");
                s.append(r.as_ref());
                s
            },
            RRInstruction::HL => String::from_str("RR [HL]"),
        }
    }
}

impl InstructionBehavior for RRInstruction {
    open spec fn spec_instruction(&self) -> Instruction {
        Instruction::RRInstruction(*self)
    }

    open spec fn spec_has_duration(&self) -> bool {
        true
    }

    open spec fn spec_duration(&self) -> usize {
        self.spec_cycles()
    }


    fn duration(&self) -> (r: usize) {
        match self {
            RRInstruction::R8(_) => 8,
            RRInstruction::HL => 16,
        }
    }
}

impl Assemble for RRInstruction {
    open spec fn spec_bytes(&self) -> Seq<u8> {
        match *self {
            RRInstruction::R8(r) => seq![0xCBu8, (0x18 + reg8_code(r)) as u8],
            RRInstruction::HL => seq![0xCBu8, 0x1Eu8],
        }
    }

    fn assemble(&self, dest: &mut Vec<u8>) -> (r: usize) {
        dest.push(0xCB);
        match self {
            RRInstruction::R8(r) => dest.push(0x18 + register8_code(*r)),
            RRInstruction::HL => dest.push(0x1E),
        }
        2
    }
}

/// RRA: rotate A right through the carry.
#[derive(Debug, Clone, Copy, PartialEq, Eq, Structural)]
pub enum RRAInstruction {
    Empty,
}

impl RRAInstruction {
    pub open spec fn spec_cycles(self) -> usize {
        4
    }

    pub open spec fn spec_text(self) -> Seq<char> {
        "RRA"@
    }

    pub fn to_string(&self) -> (s: String)
        ensures
            s@ == self.spec_text(),
    {
        String::from_str("RRA")
    }
}

impl InstructionBehavior for RRAInstruction {
    open spec fn spec_instruction(&self) -> Instruction {
        Instruction::RRAInstruction(*self)
    }

    open spec fn spec_has_duration(&self) -> bool {
        true
    }

    open spec fn spec_duration(&self) -> usize {
        self.spec_cycles()
    }


    fn duration(&self) -> (r: usize) {
        4
    }
}

impl Assemble for RRAInstruction {
    open spec fn spec_bytes(&self) -> Seq<u8> {
        seq![0x1Fu8]
    }

    fn assemble(&self, dest: &mut Vec<u8>) -> (r: usize) {
        dest.push(0x1F);
        1
    }
}

/// RRC: rotate right.
#[derive(Debug, Clone, Copy, PartialEq, Eq, Structural)]
pub enum RRCInstruction {
    R8(Register8),
    HL,
}

impl RRCInstruction {
    pub open spec fn spec_cycles(self) -> usize {
        match self {
            RRCInstruction::R8(_) => 8,
            RRCInstruction::HL => 16,
        }
    }

    pub open spec fn spec_text(self) -> Seq<char> {
        match self {
            RRCInstruction::R8(r) => "RRC "@ + r.spec_name(),
            RRCInstruction::HL => "RRC [HL]"@,
        }
    }

    pub fn to_string(&self) -> (s: String)
        ensures
            s@ == self.spec_text(),
    {
        match self {
            RRCInstruction::R8(r) => {
                let mut s = String::from_str("RRC ");
                s.append(r.as_ref());
                s
            },
            RRCInstruction::HL => String::from_str("RRC [HL]"),
        }
    }
}

impl InstructionBehavior for RRCInstruction {
    open spec fn spec_instruction(&self) -> Instruction {
        Instruction::RRCInstruction(*self)
    }

    open spec fn spec_has_duration(&self) -> bool {
        true
    }

    open spec fn spec_duration(&self) -> usize {
        self.spec_cycles()
    }


    fn duration(&self) -> (r: usize) {
        match self {
            RRCInstruction::R8(_) => 8,
            RRCInstruction::HL => 16,
        }
    }
}

impl Assemble for RRCInstruction {
    open spec fn spec_bytes(&self) -> Seq<u8> {
        match *self {
            RRCInstruction::R8(r) => seq![0xCBu8, (0x08 + reg8_code(r)) as u8],
            RRCInstruction::HL => seq![0xCBu8, 0x0Eu8],
        }
    }

    fn assemble(&self, dest: &mut Vec<u8>) -> (r: usize) {
        dest.push(0xCB);
        match self {
            RRCInstruction::R8(r) => dest.push(0x08 + register8_code(*r)),
            RRCInstruction::HL => dest.push(0x0E),
        }
        2
    }
}

/// RRCA: rotate A right.
#[derive(Debug, Clone, Copy, PartialEq, Eq, Structural)]
pub enum RRCAInstruction {
    Empty,
}

impl RRCAInstruction {
    pub open spec fn spec_cycles(self) -> usize {
        4
    }

    pub open spec fn spec_text(self) -> Seq<char> {
        "RRCA"@
    }

    pub fn to_string(&self) -> (s: String)
        ensures
            s@ == self.spec_text(),
    {
        String::from_str("RRCA")
    }
}

impl InstructionBehavior for RRCAInstruction {
    open spec fn spec_instruction(&self) -> Instruction {
        Instruction::RRCAInstruction(*self)
    }

    open spec fn spec_has_duration(&self) -> bool {
        true
    }

    open spec fn spec_duration(&self) -> usize {
        self.spec_cycles()
    }


    fn duration(&self) -> (r: usize) {
        4
    }
}

impl Assemble for RRCAInstruction {
    open spec fn spec_bytes(&self) -> Seq<u8> {
        seq![0x0Fu8]
    }

    fn assemble(&self, dest: &mut Vec<u8>) -> (r: usize) {
        dest.push(0x0F);
        1
    }
}

/// SLA: shift left arithmetically.
#[derive(Debug, Clone, Copy, PartialEq, Eq, Structural)]
pub enum SLAInstruction {
    R8(Register8),
    HL,
}

impl SLAInstruction {
    pub open spec fn spec_cycles(self) -> usize {
        match self {
            SLAInstruction::R8(_) => 8,
            SLAInstruction::HL => 16,
        }
    }

    pub open spec fn spec_text(self) -> Seq<char> {
        match self {
            SLAInstruction::R8(r) => "SLA "@ + r.spec_name(),
            SLAInstruction::HL => "SLA [HL]"@,
        }
    }

    pub fn to_string(&self) -> (s: String)
        ensures
            s@ == self.spec_text(),
    {
        match self {
            SLAInstruction::R8(r) => {
                let mut s = String::from_str("SLA ");
                s.append(r.as_ref());
                s
            },
            SLAInstruction::HL => String::from_str("SLA [HL]"),
        }
    }
}

impl InstructionBehavior for SLAInstruction {
    open spec fn spec_instruction(&self) -> Instruction {
        Instruction::SLAInstruction(*self)
    }

    open spec fn spec_has_duration(&self) -> bool {
        true
    }

    open spec fn spec_duration(&self) -> usize {
        self.spec_cycles()
    }


    fn duration(&self) -> (r: usize) {
        match self {
            SLAInstruction::R8(_) => 8,
            SLAInstruction::HL => 16,
        }
    }
}

impl Assemble for SLAInstruction {
    open spec fn spec_bytes(&self) -> Seq<u8> {
        match *self {
            SLAInstruction::R8(r) => seq![0xCBu8, (0x20 + reg8_code(r)) as u8],
            SLAInstruction::HL => seq![0xCBu8, 0x26u8],
        }
    }

    fn assemble(&self, dest: &mut Vec<u8>) -> (r: usize) {
        dest.push(0xCB);
        match self {
            SLAInstruction::R8(r) => dest.push(0x20 + register8_code(*r)),
            SLAInstruction::HL => dest.push(0x26),
        }
        2
    }
}

/// SET: set one bit of a register or of the byte at HL.
#[derive(Debug, Clone, Copy, PartialEq, Eq, Structural)]
pub enum SETInstruction {
    U3R8(BitOffset, Register8),
    U3HL(BitOffset),
}

impl SETInstruction {
    pub open spec fn spec_cycles(self) -> usize {
        match self {
            SETInstruction::U3R8(_, _) => 8,
            SETInstruction::U3HL(_) => 12,
        }
    }

    pub open spec fn spec_text(self) -> Seq<char> {
        match self {
            SETInstruction::U3R8(bit, r) => "SET "@ + dec(bit@ as nat) + ", "@ + r.spec_name(),
            SETInstruction::U3HL(bit) => "SET "@ + dec(bit@ as nat) + ", [HL]"@,
        }
    }

    pub fn to_string(&self) -> (s: String)
        ensures
            s@ == self.spec_text(),
    {
        let mut s = String::from_str("SET ");
        match self {
            SETInstruction::U3R8(bit, r) => {
                push_dec(&mut s, bit.as_u8() as u16);
                s.append(", ");
                s.append(r.as_ref());
            },
            SETInstruction::U3HL(bit) => {
                push_dec(&mut s, bit.as_u8() as u16);
                s.append(", [HL]");
            },
        }
        s
    }
}

impl InstructionBehavior for SETInstruction {
    open spec fn spec_instruction(&self) -> Instruction {
        Instruction::SETInstruction(*self)
    }

    open spec fn spec_has_duration(&self) -> bool {
        true
    }

    open spec fn spec_duration(&self) -> usize {
        self.spec_cycles()
    }


    fn duration(&self) -> (r: usize) {
        match self {
            SETInstruction::U3R8(_, _) => 8,
            SETInstruction::U3HL(_) => 12,
        }
    }
}

impl Assemble for SETInstruction {
    open spec fn spec_bytes(&self) -> Seq<u8> {
        match *self {
            SETInstruction::U3R8(bit, r) => seq![0xCBu8, (0xC0 + reg8_code(r) + bit@ * 8) as u8],
            SETInstruction::U3HL(bit) => seq![0xCBu8, (0xC6 + bit@ * 8) as u8],
        }
    }

    fn assemble(&self, dest: &mut Vec<u8>) -> (r: usize) {
        dest.push(0xCB);
        match self {
            SETInstruction::U3R8(bit, r) => dest.push(0xC0 + register8_code(*r) + bit.as_u8() * 8),
            SETInstruction::U3HL(bit) => dest.push(0xC6 + bit.as_u8() * 8),
        }
        2
    }
}

/// SRA: shift right arithmetically.
#[derive(Debug, Clone, Copy, PartialEq, Eq, Structural)]
pub enum SRAInstruction {
    R8(Register8),
    HL,
}

impl SRAInstruction {
    pub open spec fn spec_cycles(self) -> usize {
        match self {
            SRAInstruction::R8(_) => 8,
            SRAInstruction::HL => 16,
        }
    }

    pub open spec fn spec_text(self) -> Seq<char> {
        match self {
            SRAInstruction::R8(r) => "SRA "@ + r.spec_name(),
            SRAInstruction::HL => "SRA [HL]"@,
        }
    }

    pub fn to_string(&self) -> (s: String)
        ensures
            s@ == self.spec_text(),
    {
        match self {
            SRAInstruction::R8(r) => {
                let mut s = String::from_str("SRA ");
                s.append(r.as_ref());
                s
            },
            SRAInstruction::HL => String::from_str("SRA [HL]"),
        }
    }
}

impl InstructionBehavior for SRAInstruction {
    open spec fn spec_instruction(&self) -> Instruction {
        Instruction::SRAInstruction(*self)
    }

    open spec fn spec_has_duration(&self) -> bool {
        true
    }

    open spec fn spec_duration(&self) -> usize {
        self.spec_cycles()
    }


    fn duration(&self) -> (r: usize) {
        match self {
            SRAInstruction::R8(_) => 8,
            SRAInstruction::HL => 16,
        }
    }
}

impl Assemble for SRAInstruction {
    open spec fn spec_bytes(&self) -> Seq<u8> {
        match *self {
            SRAInstruction::R8(r) => seq![0xCBu8, (0x28 + reg8_code(r)) as u8],
            SRAInstruction::HL => seq![0xCBu8, 0x2Eu8],
        }
    }

    fn assemble(&self, dest: &mut Vec<u8>) -> (r: usize) {
        dest.push(0xCB);
        match self {
            SRAInstruction::R8(r) => dest.push(0x28 + register8_code(*r)),
            SRAInstruction::HL => dest.push(0x2E),
        }
        2
    }
}

/// SRL: shift right logically.
#[derive(Debug, Clone, Copy, PartialEq, Eq, Structural)]
pub enum SRLInstruction {
    R8(Register8),
    HL,
}

impl SRLInstruction {
    pub open spec fn spec_cycles(self) -> usize {
        match self {
            SRLInstruction::R8(_) => 8,
            SRLInstruction::HL => 16,
        }
    }

    pub open spec fn spec_text(self) -> Seq<char> {
        match self {
            SRLInstruction::R8(r) => "SRL "@ + r.spec_name(),
            SRLInstruction::HL => "SRL [HL]"@,
        }
    }

    pub fn to_string(&self) -> (s: String)
        ensures
            s@ == self.spec_text(),
    {
        match self {
            SRLInstruction::R8(r) => {
                let mut s = String::from_str("SRL ");
                s.append(r.as_ref());
                s
            },
            SRLInstruction::HL => String::from_str("SRL [HL]"),
        }
    }
}

impl InstructionBehavior for SRLInstruction {
    open spec fn spec_instruction(&self) -> Instruction {
        Instruction::SRLInstruction(*self)
    }

    open spec fn spec_has_duration(&self) -> bool {
        true
    }

    open spec fn spec_duration(&self) -> usize {
        self.spec_cycles()
    }


    fn duration(&self) -> (r: usize) {
        match self {
            SRLInstruction::R8(_) => 8,
            SRLInstruction::HL => 16,
        }
    }
}

impl Assemble for SRLInstruction {
    open spec fn spec_bytes(&self) -> Seq<u8> {
        match *self {
            SRLInstruction::R8(r) => seq![0xCBu8, (0x38 + reg8_code(r)) as u8],
            SRLInstruction::HL => seq![0xCBu8, 0x3Eu8],
        }
    }

    fn assemble(&self, dest: &mut Vec<u8>) -> (r: usize) {
        dest.push(0xCB);
        match self {
            SRLInstruction::R8(r) => dest.push(0x38 + register8_code(*r)),
            SRLInstruction::HL => dest.push(0x3E),
        }
        2
    }
}

/// SWAP: swap the nibbles.
#[derive(Debug, Clone, Copy, PartialEq, Eq, Structural)]
pub enum SWAPInstruction {
    R8(Register8),
    HL,
}

impl SWAPInstruction {
    pub open spec fn spec_cycles(self) -> usize {
        match self {
            SWAPInstruction::R8(_) => 8,
            SWAPInstruction::HL => 16,
        }
    }

    pub open spec fn spec_text(self) -> Seq<char> {
        match self {
            SWAPInstruction::R8(r) => "SWAP "@ + r.spec_name(),
            SWAPInstruction::HL => "SWAP [HL]"@,
        }
    }

    pub fn to_string(&self) -> (s: String)
        ensures
            s@ == self.spec_text(),
    {
        match self {
            SWAPInstruction::R8(r) => {
                let mut s = String::from_str("SWAP ");
                s.append(r.as_ref());
                s
            },
            SWAPInstruction::HL => String::from_str("SWAP [HL]"),
        }
    }
}

impl InstructionBehavior for SWAPInstruction {
    open spec fn spec_instruction(&self) -> Instruction {
        Instruction::SWAPInstruction(*self)
    }

    open spec fn spec_has_duration(&self) -> bool {
        true
    }

    open spec fn spec_duration(&self) -> usize {
        self.spec_cycles()
    }


    fn duration(&self) -> (r: usize) {
        match self {
            SWAPInstruction::R8(_) => 8,
            SWAPInstruction::HL => 16,
        }
    }
}

impl Assemble for SWAPInstruction {
    open spec fn spec_bytes(&self) -> Seq<u8> {
        match *self {
            SWAPInstruction::R8(r) => seq![0xCBu8, (0x30 + reg8_code(r)) as u8],
            SWAPInstruction::HL => seq![0xCBu8, 0x36u8],
        }
    }

    fn assemble(&self, dest: &mut Vec<u8>) -> (r: usize) {
        dest.push(0xCB);
        match self {
            SWAPInstruction::R8(r) => dest.push(0x30 + register8_code(*r)),
            SWAPInstruction::HL => dest.push(0x36),
        }
        2
    }
}

} // verus!
