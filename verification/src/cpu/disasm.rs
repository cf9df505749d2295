//! The disassembler: reads one instruction's machine code from a byte source.
use vstd::prelude::*;
use crate::cpu::assembly::Assemble;
use crate::cpu::instructions::{Instruction, le_bytes};
use crate::cpu::instructions::arithmetic::{ADCInstruction, ADDInstruction, DECInstruction, INCInstruction};
use crate::cpu::instructions::bitwise::{RLAInstruction, RLCAInstruction, RRCAInstruction};
use crate::cpu::instructions::control::{CALLInstruction, JPInstruction, JRInstruction, NOPInstruction, RETIInstruction, RETInstruction, STOPInstruction};
use crate::cpu::instructions::flags::CCFInstruction;
use crate::cpu::instructions::load::{LDHInstruction, LDInstruction};
use crate::cpu::instructions::logic::{ORInstruction, XORInstruction};
use crate::cpu::instructions::test::CPInstruction;
use crate::cpu::operand::ConditionCode;
use crate::cpu::registers::{Register16, Register8};

verus! {

/// Why a read from a byte source failed.
#[derive(Debug, Clone, Copy, PartialEq, Eq, Structural)]
pub enum ReadError {
    /// The source ended before the instruction did.
    UnexpectedEof,
}

/// A source of bytes read one after the other.
///
/// `spec_next` is the byte the next read yields (`None` at the end of the
/// source) and `spec_advance` the source after that read.
pub trait ByteSource: Sized {
    /// Whether the next read is supported at all.
    spec fn spec_can_read(&self) -> bool;

    /// The byte the next read yields, or `None` where the source has ended.
    spec fn spec_next(&self) -> Option<u8>;

    /// The source after the next read.
    spec fn spec_advance(&self) -> Self;

    /// Reads the next byte.
    fn read_byte(&mut self) -> (r: Result<u8, ReadError>)
        requires
            old(self).spec_can_read(),
        ensures
            *final(self) == old(self).spec_advance(),
            r == spec_byte_result(old(self).spec_next()),
    ;
}

/// The result of one read that yields `next`.
pub open spec fn spec_byte_result(next: Option<u8>) -> Result<u8, ReadError> {
    match next {
        Some(b) => Ok(b),
        None => Err(ReadError::UnexpectedEof),
    }
}

/// The source after `n` reads.
pub open spec fn spec_advance_n<S: ByteSource>(s: S, n: nat) -> S
    decreases n,
{
    if n == 0 {
        s
    } else {
        spec_advance_n(s.spec_advance(), (n - 1) as nat)
    }
}

/// Whether up to `n` reads are supported, where reading stops at the first
/// read that finds the source ended.
pub open spec fn spec_can_read_n<S: ByteSource>(s: S, n: nat) -> bool
    decreases n,
{
    n == 0 || (s.spec_can_read() && (s.spec_next() is Some ==> spec_can_read_n(s.spec_advance(), (n - 1) as nat)))
}

/// The number of reads made when reading `n` bytes and stopping at the first
/// read that finds the source ended.
pub open spec fn spec_reads_made<S: ByteSource>(s: S, n: nat) -> nat
    decreases n,
{
    if n == 0 {
        0
    } else {
        match s.spec_next() {
            Some(_) => 1 + spec_reads_made(s.spec_advance(), (n - 1) as nat),
            None => 1,
        }
    }
}

/// The `n` bytes read in a row, or `None` where the source ends first.
pub open spec fn spec_read_exact<S: ByteSource>(s: S, n: nat) -> Option<Seq<u8>>
    decreases n,
{
    if n == 0 {
        Some(Seq::empty())
    } else {
        match s.spec_next() {
            Some(b) => match spec_read_exact(s.spec_advance(), (n - 1) as nat) {
                Some(rest) => Some(seq![b] + rest),
                None => None,
            },
            None => None,
        }
    }
}

/// The opcodes the disassembler knows.
pub open spec fn spec_known_opcode(opcode: u8) -> bool {
    match opcode {
        0x00
        | 0x01
        | 0x02
        | 0x03
        | 0x04
        | 0x05
        | 0x06
        | 0x07
        | 0x08
        | 0x09
        | 0x0A
        | 0x0B
        | 0x0C
        | 0x0D
        | 0x0E
        | 0x0F
        | 0x10
        | 0x11
        | 0x12
        | 0x13
        | 0x14
        | 0x15
        | 0x16
        | 0x17
        | 0x20
        | 0x21
        | 0x2A
        | 0x31
        | 0x32
        | 0x36
        | 0x3A
        | 0x3E
        | 0x78
        | 0x79
        | 0x7A
        | 0x7B
        | 0x7C
        | 0x7D
        | 0x7E
        | 0x7F
        | 0x80
        | 0x81
        | 0x82
        | 0x83
        | 0x84
        | 0x85
        | 0x86
        | 0x87
        | 0x88
        | 0x89
        | 0x8A
        | 0x8B
        | 0x8C
        | 0x8D
        | 0x8E
        | 0x8F
        | 0xAF
        | 0xB0
        | 0xB1
        | 0xB2
        | 0xB3
        | 0xB4
        | 0xB5
        | 0xB6
        | 0xB7
        | 0xC0
        | 0xC3
        | 0xC4
        | 0xC8
        | 0xC9
        | 0xCC
        | 0xCD
        | 0xD0
        | 0xD4
        | 0xD8
        | 0xD9
        | 0xDC
        | 0xE0
        | 0xE2
        | 0xEA
        | 0xF0
        | 0xF2
        | 0xF3
        | 0xFE => true,
        _ => false,
    }
}

/// The number of operand bytes that follow an opcode.
pub open spec fn spec_operand_count(opcode: u8) -> nat {
    match opcode {
        0x06
        | 0x0E
        | 0x10
        | 0x16
        | 0x20
        | 0x36
        | 0x3E
        | 0xE0
        | 0xF0
        | 0xFE => 1,
        0x01
        | 0x08
        | 0x11
        | 0x21
        | 0x31
        | 0xC3
        | 0xC4
        | 0xCC
        | 0xCD
        | 0xD4
        | 0xDC
        | 0xEA => 2,
        _ => 0,
    }
}

/// The word whose little-endian bytes are `lo` and then `hi`.
pub open spec fn le_word(lo: u8, hi: u8) -> u16 {
    (lo + 256 * hi) as u16
}

/// The instruction a known opcode encodes, with `lo` the first operand byte and
/// `hi` the second (each ignored where the opcode has fewer operands).
pub open spec fn spec_decode(opcode: u8, lo: u8, hi: u8) -> Instruction
    recommends
        spec_known_opcode(opcode),
{
    match opcode {
        0x00 => Instruction::NOPInstruction(NOPInstruction::Empty),
        0x01 => Instruction::LDInstruction(LDInstruction::R16N16(Register16::BC, le_word(lo, hi))),
        0x02 => Instruction::LDInstruction(LDInstruction::R16A(Register16::BC)),
        0x03 => Instruction::INCInstruction(INCInstruction::R16(Register16::BC)),
        0x04 => Instruction::INCInstruction(INCInstruction::R8(Register8::B)),
        0x05 => Instruction::DECInstruction(DECInstruction::R8(Register8::B)),
        0x06 => Instruction::LDInstruction(LDInstruction::R8N8(Register8::B, lo)),
        0x07 => Instruction::RLCAInstruction(RLCAInstruction::Empty),
        0x08 => Instruction::LDInstruction(LDInstruction::N16SP(le_word(lo, hi))),
        0x09 => Instruction::ADDInstruction(ADDInstruction::HLR16(Register16::BC)),
        0x0A => Instruction::LDInstruction(LDInstruction::AR16(Register16::BC)),
        0x0B => Instruction::DECInstruction(DECInstruction::R16(Register16::BC)),
        0x0C => Instruction::INCInstruction(INCInstruction::R8(Register8::C)),
        0x0D => Instruction::DECInstruction(DECInstruction::R8(Register8::C)),
        0x0E => Instruction::LDInstruction(LDInstruction::R8N8(Register8::C, lo)),
        0x0F => Instruction::RRCAInstruction(RRCAInstruction::Empty),
        0x10 => Instruction::STOPInstruction(STOPInstruction::Empty),
        0x11 => Instruction::LDInstruction(LDInstruction::R16N16(Register16::DE, le_word(lo, hi))),
        0x12 => Instruction::LDInstruction(LDInstruction::R16A(Register16::DE)),
        0x13 => Instruction::INCInstruction(INCInstruction::R16(Register16::DE)),
        0x14 => Instruction::INCInstruction(INCInstruction::R8(Register8::D)),
        0x15 => Instruction::DECInstruction(DECInstruction::R8(Register8::D)),
        0x16 => Instruction::LDInstruction(LDInstruction::R8N8(Register8::D, lo)),
        0x17 => Instruction::RLAInstruction(RLAInstruction::Empty),
        0x20 => Instruction::JRInstruction(JRInstruction::CCE8(ConditionCode::NZ, lo as i8)),
        0x21 => Instruction::LDInstruction(LDInstruction::R16N16(Register16::HL, le_word(lo, hi))),
        0x2A => Instruction::LDInstruction(LDInstruction::AHLI),
        0x31 => Instruction::LDInstruction(LDInstruction::SPN16(le_word(lo, hi))),
        0x32 => Instruction::LDInstruction(LDInstruction::HLDA),
        0x36 => Instruction::LDInstruction(LDInstruction::HLN8(lo)),
        0x3A => Instruction::LDInstruction(LDInstruction::AHLD),
        0x3E => Instruction::LDInstruction(LDInstruction::R8N8(Register8::A, lo)),
        0x78 => Instruction::LDInstruction(LDInstruction::R8R8(Register8::A, Register8::B)),
        0x79 => Instruction::LDInstruction(LDInstruction::R8R8(Register8::A, Register8::C)),
        0x7A => Instruction::LDInstruction(LDInstruction::R8R8(Register8::A, Register8::D)),
        0x7B => Instruction::LDInstruction(LDInstruction::R8R8(Register8::A, Register8::E)),
        0x7C => Instruction::LDInstruction(LDInstruction::R8R8(Register8::A, Register8::H)),
        0x7D => Instruction::LDInstruction(LDInstruction::R8R8(Register8::A, Register8::L)),
        0x7E => Instruction::LDInstruction(LDInstruction::R8HL(Register8::A)),
        0x7F => Instruction::LDInstruction(LDInstruction::R8R8(Register8::A, Register8::A)),
        0x80 => Instruction::ADDInstruction(ADDInstruction::AR8(Register8::B)),
        0x81 => Instruction::ADDInstruction(ADDInstruction::AR8(Register8::C)),
        0x82 => Instruction::ADDInstruction(ADDInstruction::AR8(Register8::D)),
        0x83 => Instruction::ADDInstruction(ADDInstruction::AR8(Register8::E)),
        0x84 => Instruction::ADDInstruction(ADDInstruction::AR8(Register8::H)),
        0x85 => Instruction::ADDInstruction(ADDInstruction::AR8(Register8::L)),
        0x86 => Instruction::ADDInstruction(ADDInstruction::AHL),
        0x87 => Instruction::ADDInstruction(ADDInstruction::AR8(Register8::A)),
        0x88 => Instruction::ADCInstruction(ADCInstruction::AR8(Register8::B)),
        0x89 => Instruction::ADCInstruction(ADCInstruction::AR8(Register8::C)),
        0x8A => Instruction::ADCInstruction(ADCInstruction::AR8(Register8::D)),
        0x8B => Instruction::ADCInstruction(ADCInstruction::AR8(Register8::E)),
        0x8C => Instruction::ADCInstruction(ADCInstruction::AR8(Register8::H)),
        0x8D => Instruction::ADCInstruction(ADCInstruction::AR8(Register8::L)),
        0x8E => Instruction::ADCInstruction(ADCInstruction::AHL),
        0x8F => Instruction::ADCInstruction(ADCInstruction::AR8(Register8::A)),
        0xAF => Instruction::XORInstruction(XORInstruction::AR8(Register8::A)),
        0xB0 => Instruction::ORInstruction(ORInstruction::AR8(Register8::B)),
        0xB1 => Instruction::ORInstruction(ORInstruction::AR8(Register8::C)),
        0xB2 => Instruction::ORInstruction(ORInstruction::AR8(Register8::D)),
        0xB3 => Instruction::ORInstruction(ORInstruction::AR8(Register8::E)),
        0xB4 => Instruction::ORInstruction(ORInstruction::AR8(Register8::H)),
        0xB5 => Instruction::ORInstruction(ORInstruction::AR8(Register8::L)),
        0xB6 => Instruction::ORInstruction(ORInstruction::AHL),
        0xB7 => Instruction::ORInstruction(ORInstruction::AR8(Register8::A)),
        0xC0 => Instruction::RETInstruction(RETInstruction::Conditional(ConditionCode::NZ)),
        0xC3 => Instruction::JPInstruction(JPInstruction::N16(le_word(lo, hi))),
        0xC4 => Instruction::CALLInstruction(CALLInstruction::CCN16(ConditionCode::NZ, le_word(lo, hi))),
        0xC8 => Instruction::RETInstruction(RETInstruction::Conditional(ConditionCode::Z)),
        0xC9 => Instruction::RETInstruction(RETInstruction::Unconditional),
        0xCC => Instruction::CALLInstruction(CALLInstruction::CCN16(ConditionCode::Z, le_word(lo, hi))),
        0xCD => Instruction::CALLInstruction(CALLInstruction::N16(le_word(lo, hi))),
        0xD0 => Instruction::RETInstruction(RETInstruction::Conditional(ConditionCode::NC)),
        0xD4 => Instruction::CALLInstruction(CALLInstruction::CCN16(ConditionCode::NC, le_word(lo, hi))),
        0xD8 => Instruction::RETInstruction(RETInstruction::Conditional(ConditionCode::C)),
        0xD9 => Instruction::RETIInstruction(RETIInstruction::Empty),
        0xDC => Instruction::CALLInstruction(CALLInstruction::CCN16(ConditionCode::C, le_word(lo, hi))),
        0xE0 => Instruction::LDHInstruction(LDHInstruction::N8A(lo)),
        0xE2 => Instruction::LDHInstruction(LDHInstruction::CA),
        0xEA => Instruction::LDInstruction(LDInstruction::N16A(le_word(lo, hi))),
        0xF0 => Instruction::LDHInstruction(LDHInstruction::AN8(lo)),
        0xF2 => Instruction::LDHInstruction(LDHInstruction::AC),
        0xF3 => Instruction::CCFInstruction(CCFInstruction::Empty),
        0xFE => Instruction::CPInstruction(CPInstruction::AN8(lo)),
        _ => Instruction::NOPInstruction(NOPInstruction::Empty),
    }
}

/// The bytes an opcode's operands are decoded from: the first `count` of `lo`
/// and `hi`.
pub open spec fn spec_operand_bytes(opcode: u8, lo: u8, hi: u8) -> Seq<u8> {
    seq![lo, hi].take(spec_operand_count(opcode) as int)
}

/// The first and second operand bytes, 0 where there is none.
pub open spec fn spec_operand_pair(operands: Seq<u8>) -> (u8, u8) {
    (
        if operands.len() >= 1 { operands[0] } else { 0 },
        if operands.len() >= 2 { operands[1] } else { 0 },
    )
}

/// What `read_instruction` returns for a source: an error where the source
/// ends before the instruction does, else the decoded instruction.
pub open spec fn spec_read_instruction<S: ByteSource>(s: S) -> Result<Instruction, ReadError> {
    match s.spec_next() {
        None => Err(ReadError::UnexpectedEof),
        Some(opcode) => match spec_read_exact(s.spec_advance(), spec_operand_count(opcode)) {
            None => Err(ReadError::UnexpectedEof),
            Some(operands) => Ok(
                spec_decode(opcode, spec_operand_pair(operands).0, spec_operand_pair(operands).1),
            ),
        },
    }
}

/// Whether `read_instruction` may read from the source: the opcode read is
/// supported, and where there is an opcode, it is known and the reads of its
/// operands are supported.
pub open spec fn spec_instruction_readable<S: ByteSource>(s: S) -> bool {
    &&& s.spec_can_read()
    &&& s.spec_next() matches Some(opcode) ==> {
        &&& spec_known_opcode(opcode)
        &&& spec_can_read_n(s.spec_advance(), spec_operand_count(opcode))
    }
}

/// The number of reads `read_instruction` makes on a source.
pub open spec fn spec_instruction_reads<S: ByteSource>(s: S) -> nat {
    match s.spec_next() {
        None => 1,
        Some(opcode) => 1 + spec_reads_made(s.spec_advance(), spec_operand_count(opcode)),
    }
}

/// Whether assembling what an opcode decodes to gives back its bytes: so for
/// every known opcode but 0x21 (its instruction assembles to 0x12), 0xF3 (its
/// instruction assembles to 0x3F) and 0x10 with a padding byte other than 0
/// (STOP assembles its padding as 0).
pub open spec fn spec_reassembles(opcode: u8, lo: u8) -> bool {
    opcode != 0x21 && opcode != 0xF3 && (opcode == 0x10 ==> lo == 0)
}

/// A word's little-endian bytes are the bytes it was made from.
pub proof fn lemma_le_word_bytes(lo: u8, hi: u8)
    ensures
        le_bytes(le_word(lo, hi)) == seq![lo, hi],
{
    let w = le_word(lo, hi);
    assert(w == lo + 256 * hi);
    assert(w % 256 == lo && w / 256 == hi) by (nonlinear_arith)
        requires
            w == lo + 256 * hi,
            lo < 256,
    ;
    assert(le_bytes(w) =~= seq![lo, hi]);
}

/// A byte read as a signed offset and written back is the same byte.
pub proof fn lemma_signed_byte_roundtrip(b: u8)
    ensures
        (b as i8) as u8 == b,
{
    assert((b as i8) as u8 == b) by (bit_vector);
}

/// Disassembling and then assembling gives back the machine code: the
/// instruction decoded from an opcode and its operand bytes assembles to
/// exactly those bytes, wherever `spec_reassembles` holds.
pub proof fn lemma_decode_then_assemble(opcode: u8, lo: u8, hi: u8)
    requires
        spec_known_opcode(opcode),
        spec_reassembles(opcode, lo),
    ensures
        spec_decode(opcode, lo, hi).spec_bytes() == seq![opcode] + spec_operand_bytes(opcode, lo, hi),
{
    lemma_le_word_bytes(lo, hi);
    lemma_signed_byte_roundtrip(lo);
    assert(seq![lo, hi].take(0) =~= Seq::<u8>::empty());
    assert(seq![lo, hi].take(1) =~= seq![lo]);
    assert(seq![lo, hi].take(2) =~= seq![lo, hi]);
    assert(seq![opcode] + seq![lo, hi] =~= seq![opcode, lo, hi]);
    assert(seq![opcode] + seq![lo] =~= seq![opcode, lo]);
    assert(seq![opcode] + Seq::<u8>::empty() =~= seq![opcode]);
}

/// Whether the instruction is decoded from its own machine code.
pub open spec fn spec_decodes_back(i: Instruction) -> bool {
    spec_decode(
        i.spec_bytes()[0],
        spec_operand_pair(i.spec_bytes().drop_first()).0,
        spec_operand_pair(i.spec_bytes().drop_first()).1,
    ) == i
}

/// Assembling and then disassembling gives back the instruction, for every
/// instruction whose machine code starts with a known opcode and has that
/// opcode's length, except three whose machine code collides with another
/// instruction's: LD A, [HL] written with the pair HL, which assembles to 0x7E
/// (LD A, [HL] with the register operand); DI, which assembles to 0xF3 (read
/// back as CCF); and RST, which assembles to 0xC0 plus the vector (RET NZ,
/// RET Z, RET NC and RET C for the first four vectors).
#[verifier::spinoff_prover]
#[verifier::rlimit(100)]
pub proof fn lemma_assemble_then_decode(i: Instruction)
    requires
        i.spec_bytes().len() >= 1,
        spec_known_opcode(i.spec_bytes()[0]),
        i.spec_bytes().len() == 1 + spec_operand_count(i.spec_bytes()[0]),
        i != Instruction::LDInstruction(LDInstruction::AR16(Register16::HL)),
        !(i is DIInstruction),
        !(i is RSTInstruction),
    ensures
        spec_decodes_back(i),
{
    assert forall|v: u16| #[trigger] le_word((v % 256) as u8, (v / 256) as u8) == v by {
        lemma_word_from_le_bytes(v);
    }
    assert forall|e: i8| #[trigger] ((e as u8) as i8) == e by {
        lemma_signed_offset_roundtrip(e);
    }
    match i {
        Instruction::ADCInstruction(x) => {},
        Instruction::ADDInstruction(x) => {},
        Instruction::ANDInstruction(x) => {},
        Instruction::BITInstruction(x) => {},
        Instruction::CALLInstruction(x) => {},
        Instruction::CCFInstruction(x) => {},
        Instruction::CPInstruction(x) => {},
        Instruction::CPLInstruction(x) => {},
        Instruction::DAAInstruction(x) => {},
        Instruction::DECInstruction(x) => {},
        Instruction::DIInstruction(x) => {},
        Instruction::EIInstruction(x) => {},
        Instruction::HALTInstruction(x) => {},
        Instruction::INCInstruction(x) => {},
        Instruction::JPInstruction(x) => {},
        Instruction::JRInstruction(x) => {},
        Instruction::LDHInstruction(x) => {},
        Instruction::LDInstruction(x) => {},
        Instruction::NOPInstruction(x) => {},
        Instruction::ORInstruction(x) => {},
        Instruction::POPInstruction(x) => {},
        Instruction::PUSHInstruction(x) => {},
        Instruction::RESInstruction(x) => {},
        Instruction::RETIInstruction(x) => {},
        Instruction::RETInstruction(x) => {},
        Instruction::RLAInstruction(x) => {},
        Instruction::RLCAInstruction(x) => {},
        Instruction::RLCInstruction(x) => {},
        Instruction::RLInstruction(x) => {},
        Instruction::RRAInstruction(x) => {},
        Instruction::RRCAInstruction(x) => {},
        Instruction::RRCInstruction(x) => {},
        Instruction::RRInstruction(x) => {},
        Instruction::RSTInstruction(x) => {},
        Instruction::SBCInstruction(x) => {},
        Instruction::SCFInstruction(x) => {},
        Instruction::SETInstruction(x) => {},
        Instruction::SLAInstruction(x) => {},
        Instruction::SRAInstruction(x) => {},
        Instruction::SRLInstruction(x) => {},
        Instruction::STOPInstruction(x) => {},
        Instruction::SUBInstruction(x) => {},
        Instruction::SWAPInstruction(x) => {},
        Instruction::XORInstruction(x) => {},
    }
}

/// A word is made back from its little-endian bytes.
pub proof fn lemma_word_from_le_bytes(v: u16)
    ensures
        le_word((v % 256) as u8, (v / 256) as u8) == v,
{
}

/// A signed offset written as a byte and read back is the same offset.
pub proof fn lemma_signed_offset_roundtrip(e: i8)
    ensures
        (e as u8) as i8 == e,
{
    assert((e as u8) as i8 == e) by (bit_vector);
}

/// The disassembler reads back what the assembler writes: reading from the
/// start of an instruction's machine code yields the instruction and consumes
/// exactly its bytes, for every instruction `lemma_assemble_then_decode`
/// covers.
pub proof fn lemma_read_back_assembled(i: Instruction, data: &[u8])
    requires
        data@ == i.spec_bytes(),
        i.spec_bytes().len() >= 1,
        spec_known_opcode(i.spec_bytes()[0]),
        i.spec_bytes().len() == 1 + spec_operand_count(i.spec_bytes()[0]),
        i != Instruction::LDInstruction(LDInstruction::AR16(Register16::HL)),
        !(i is DIInstruction),
        !(i is RSTInstruction),
    ensures
        spec_instruction_readable(SliceReader { data, pos: 0 }),
        spec_read_instruction(SliceReader { data, pos: 0 }) == Ok::<Instruction, ReadError>(i),
        spec_advance_n(SliceReader { data, pos: 0 }, spec_instruction_reads(SliceReader { data, pos: 0 }))
            == (SliceReader { data, pos: data@.len() as usize }),
{
    lemma_assemble_then_decode(i);
    reveal_with_fuel(spec_can_read_n, 3);
    reveal_with_fuel(spec_read_exact, 3);
    reveal_with_fuel(spec_reads_made, 3);
    reveal_with_fuel(spec_advance_n, 4);
    let bytes = i.spec_bytes();
    let r1 = SliceReader { data, pos: 1 };
    let n = spec_operand_count(bytes[0]);
    if n == 0 {
        assert(bytes.drop_first() =~= Seq::<u8>::empty());
    } else if n == 1 {
        assert(bytes.drop_first() =~= seq![bytes[1]]);
        assert(spec_read_exact(r1, 1) == Some(seq![bytes[1]]));
    } else {
        assert(bytes.drop_first() =~= seq![bytes[1], bytes[2]]);
        assert(spec_read_exact(r1, 2) == Some(seq![bytes[1], bytes[2]]));
    }
}

/// Whether the disassembler knows the opcode.
pub fn is_known_opcode(opcode: u8) -> (r: bool)
    ensures
        r == spec_known_opcode(opcode),
{
    match opcode {
        0x00
        | 0x01
        | 0x02
        | 0x03
        | 0x04
        | 0x05
        | 0x06
        | 0x07
        | 0x08
        | 0x09
        | 0x0A
        | 0x0B
        | 0x0C
        | 0x0D
        | 0x0E
        | 0x0F
        | 0x10
        | 0x11
        | 0x12
        | 0x13
        | 0x14
        | 0x15
        | 0x16
        | 0x17
        | 0x20
        | 0x21
        | 0x2A
        | 0x31
        | 0x32
        | 0x36
        | 0x3A
        | 0x3E
        | 0x78
        | 0x79
        | 0x7A
        | 0x7B
        | 0x7C
        | 0x7D
        | 0x7E
        | 0x7F
        | 0x80
        | 0x81
        | 0x82
        | 0x83
        | 0x84
        | 0x85
        | 0x86
        | 0x87
        | 0x88
        | 0x89
        | 0x8A
        | 0x8B
        | 0x8C
        | 0x8D
        | 0x8E
        | 0x8F
        | 0xAF
        | 0xB0
        | 0xB1
        | 0xB2
        | 0xB3
        | 0xB4
        | 0xB5
        | 0xB6
        | 0xB7
        | 0xC0
        | 0xC3
        | 0xC4
        | 0xC8
        | 0xC9
        | 0xCC
        | 0xCD
        | 0xD0
        | 0xD4
        | 0xD8
        | 0xD9
        | 0xDC
        | 0xE0
        | 0xE2
        | 0xEA
        | 0xF0
        | 0xF2
        | 0xF3
        | 0xFE => true,
        _ => false,
    }
}

/// The number of operand bytes that follow a known opcode.
pub fn operand_count(opcode: u8) -> (r: usize)
    ensures
        r == spec_operand_count(opcode),
{
    match opcode {
        0x06
        | 0x0E
        | 0x10
        | 0x16
        | 0x20
        | 0x36
        | 0x3E
        | 0xE0
        | 0xF0
        | 0xFE => 1,
        0x01
        | 0x08
        | 0x11
        | 0x21
        | 0x31
        | 0xC3
        | 0xC4
        | 0xCC
        | 0xCD
        | 0xD4
        | 0xDC
        | 0xEA => 2,
        _ => 0,
    }
}

/// `bytemuck::pod_read_unaligned` of two bytes as a `zendian::le::u16le`,
/// converted to a native `u16` by `From`: the little-endian word whose low byte
/// comes first.
#[verifier::external_body]
fn u16_from_le_bytes(bytes: [u8; 2]) -> (r: u16)
    ensures
        r == le_word(bytes[0], bytes[1]),
{
    let word: zendian::le::u16le = bytemuck::pod_read_unaligned(&bytes);
    u16::from(word)
}

/// The instruction a known opcode encodes with the given operand bytes.
#[verifier::rlimit(50)]
pub fn decode(opcode: u8, lo: u8, hi: u8) -> (i: Instruction)
    requires
        spec_known_opcode(opcode),
    ensures
        i == spec_decode(opcode, lo, hi),
{
    match opcode {
        0x00 => Instruction::NOPInstruction(NOPInstruction::Empty),
        0x01 => Instruction::LDInstruction(LDInstruction::R16N16(Register16::BC, u16_from_le_bytes([lo, hi]))),
        0x02 => Instruction::LDInstruction(LDInstruction::R16A(Register16::BC)),
        0x03 => Instruction::INCInstruction(INCInstruction::R16(Register16::BC)),
        0x04 => Instruction::INCInstruction(INCInstruction::R8(Register8::B)),
        0x05 => Instruction::DECInstruction(DECInstruction::R8(Register8::B)),
        0x06 => Instruction::LDInstruction(LDInstruction::R8N8(Register8::B, lo)),
        0x07 => Instruction::RLCAInstruction(RLCAInstruction::Empty),
        0x08 => Instruction::LDInstruction(LDInstruction::N16SP(u16_from_le_bytes([lo, hi]))),
        0x09 => Instruction::ADDInstruction(ADDInstruction::HLR16(Register16::BC)),
        0x0A => Instruction::LDInstruction(LDInstruction::AR16(Register16::BC)),
        0x0B => Instruction::DECInstruction(DECInstruction::R16(Register16::BC)),
        0x0C => Instruction::INCInstruction(INCInstruction::R8(Register8::C)),
        0x0D => Instruction::DECInstruction(DECInstruction::R8(Register8::C)),
        0x0E => Instruction::LDInstruction(LDInstruction::R8N8(Register8::C, lo)),
        0x0F => Instruction::RRCAInstruction(RRCAInstruction::Empty),
        0x10 => Instruction::STOPInstruction(STOPInstruction::Empty),
        0x11 => Instruction::LDInstruction(LDInstruction::R16N16(Register16::DE, u16_from_le_bytes([lo, hi]))),
        0x12 => Instruction::LDInstruction(LDInstruction::R16A(Register16::DE)),
        0x13 => Instruction::INCInstruction(INCInstruction::R16(Register16::DE)),
        0x14 => Instruction::INCInstruction(INCInstruction::R8(Register8::D)),
        0x15 => Instruction::DECInstruction(DECInstruction::R8(Register8::D)),
        0x16 => Instruction::LDInstruction(LDInstruction::R8N8(Register8::D, lo)),
        0x17 => Instruction::RLAInstruction(RLAInstruction::Empty),
        0x20 => Instruction::JRInstruction(JRInstruction::CCE8(ConditionCode::NZ, lo as i8)),
        0x21 => Instruction::LDInstruction(LDInstruction::R16N16(Register16::HL, u16_from_le_bytes([lo, hi]))),
        0x2A => Instruction::LDInstruction(LDInstruction::AHLI),
        0x31 => Instruction::LDInstruction(LDInstruction::SPN16(u16_from_le_bytes([lo, hi]))),
        0x32 => Instruction::LDInstruction(LDInstruction::HLDA),
        0x36 => Instruction::LDInstruction(LDInstruction::HLN8(lo)),
        0x3A => Instruction::LDInstruction(LDInstruction::AHLD),
        0x3E => Instruction::LDInstruction(LDInstruction::R8N8(Register8::A, lo)),
        0x78 => Instruction::LDInstruction(LDInstruction::R8R8(Register8::A, Register8::B)),
        0x79 => Instruction::LDInstruction(LDInstruction::R8R8(Register8::A, Register8::C)),
        0x7A => Instruction::LDInstruction(LDInstruction::R8R8(Register8::A, Register8::D)),
        0x7B => Instruction::LDInstruction(LDInstruction::R8R8(Register8::A, Register8::E)),
        0x7C => Instruction::LDInstruction(LDInstruction::R8R8(Register8::A, Register8::H)),
        0x7D => Instruction::LDInstruction(LDInstruction::R8R8(Register8::A, Register8::L)),
        0x7E => Instruction::LDInstruction(LDInstruction::R8HL(Register8::A)),
        0x7F => Instruction::LDInstruction(LDInstruction::R8R8(Register8::A, Register8::A)),
        0x80 => Instruction::ADDInstruction(ADDInstruction::AR8(Register8::B)),
        0x81 => Instruction::ADDInstruction(ADDInstruction::AR8(Register8::C)),
        0x82 => Instruction::ADDInstruction(ADDInstruction::AR8(Register8::D)),
        0x83 => Instruction::ADDInstruction(ADDInstruction::AR8(Register8::E)),
        0x84 => Instruction::ADDInstruction(ADDInstruction::AR8(Register8::H)),
        0x85 => Instruction::ADDInstruction(ADDInstruction::AR8(Register8::L)),
        0x86 => Instruction::ADDInstruction(ADDInstruction::AHL),
        0x87 => Instruction::ADDInstruction(ADDInstruction::AR8(Register8::A)),
        0x88 => Instruction::ADCInstruction(ADCInstruction::AR8(Register8::B)),
        0x89 => Instruction::ADCInstruction(ADCInstruction::AR8(Register8::C)),
        0x8A => Instruction::ADCInstruction(ADCInstruction::AR8(Register8::D)),
        0x8B => Instruction::ADCInstruction(ADCInstruction::AR8(Register8::E)),
        0x8C => Instruction::ADCInstruction(ADCInstruction::AR8(Register8::H)),
        0x8D => Instruction::ADCInstruction(ADCInstruction::AR8(Register8::L)),
        0x8E => Instruction::ADCInstruction(ADCInstruction::AHL),
        0x8F => Instruction::ADCInstruction(ADCInstruction::AR8(Register8::A)),
        0xAF => Instruction::XORInstruction(XORInstruction::AR8(Register8::A)),
        0xB0 => Instruction::ORInstruction(ORInstruction::AR8(Register8::B)),
        0xB1 => Instruction::ORInstruction(ORInstruction::AR8(Register8::C)),
        0xB2 => Instruction::ORInstruction(ORInstruction::AR8(Register8::D)),
        0xB3 => Instruction::ORInstruction(ORInstruction::AR8(Register8::E)),
        0xB4 => Instruction::ORInstruction(ORInstruction::AR8(Register8::H)),
        0xB5 => Instruction::ORInstruction(ORInstruction::AR8(Register8::L)),
        0xB6 => Instruction::ORInstruction(ORInstruction::AHL),
        0xB7 => Instruction::ORInstruction(ORInstruction::AR8(Register8::A)),
        0xC0 => Instruction::RETInstruction(RETInstruction::Conditional(ConditionCode::NZ)),
        0xC3 => Instruction::JPInstruction(JPInstruction::N16(u16_from_le_bytes([lo, hi]))),
        0xC4 => Instruction::CALLInstruction(CALLInstruction::CCN16(ConditionCode::NZ, u16_from_le_bytes([lo, hi]))),
        0xC8 => Instruction::RETInstruction(RETInstruction::Conditional(ConditionCode::Z)),
        0xC9 => Instruction::RETInstruction(RETInstruction::Unconditional),
        0xCC => Instruction::CALLInstruction(CALLInstruction::CCN16(ConditionCode::Z, u16_from_le_bytes([lo, hi]))),
        0xCD => Instruction::CALLInstruction(CALLInstruction::N16(u16_from_le_bytes([lo, hi]))),
        0xD0 => Instruction::RETInstruction(RETInstruction::Conditional(ConditionCode::NC)),
        0xD4 => Instruction::CALLInstruction(CALLInstruction::CCN16(ConditionCode::NC, u16_from_le_bytes([lo, hi]))),
        0xD8 => Instruction::RETInstruction(RETInstruction::Conditional(ConditionCode::C)),
        0xD9 => Instruction::RETIInstruction(RETIInstruction::Empty),
        0xDC => Instruction::CALLInstruction(CALLInstruction::CCN16(ConditionCode::C, u16_from_le_bytes([lo, hi]))),
        0xE0 => Instruction::LDHInstruction(LDHInstruction::N8A(lo)),
        0xE2 => Instruction::LDHInstruction(LDHInstruction::CA),
        0xEA => Instruction::LDInstruction(LDInstruction::N16A(u16_from_le_bytes([lo, hi]))),
        0xF0 => Instruction::LDHInstruction(LDHInstruction::AN8(lo)),
        0xF2 => Instruction::LDHInstruction(LDHInstruction::AC),
        0xF3 => Instruction::CCFInstruction(CCFInstruction::Empty),
        0xFE => Instruction::CPInstruction(CPInstruction::AN8(lo)),
        _ => Instruction::NOPInstruction(NOPInstruction::Empty),
    }
}

/// Reads one byte.
pub fn read_u8<S: ByteSource>(src: &mut S) -> (r: Result<u8, ReadError>)
    requires
        old(src).spec_can_read(),
    ensures
        *final(src) == old(src).spec_advance(),
        r == spec_byte_result(old(src).spec_next()),
{
    src.read_byte()
}

/// Reads one instruction: its opcode, then as many operand bytes as the
/// opcode takes. Fails where the source ends first.
pub fn read_instruction<S: ByteSource>(src: &mut S) -> (r: Result<Instruction, ReadError>)
    requires
        spec_instruction_readable(*old(src)),
    ensures
        r == spec_read_instruction(*old(src)),
        *final(src) == spec_advance_n(*old(src), spec_instruction_reads(*old(src))),
{
    let ghost s0 = *src;
    proof {
        reveal_with_fuel(spec_can_read_n, 3);
        reveal_with_fuel(spec_advance_n, 4);
    }
    let opcode = match read_u8(src) {
        Ok(b) => b,
        Err(e) => {
            return Err(e);
        },
    };
    let ghost s1 = *src;
    let count = operand_count(opcode);
    proof {
        reveal_with_fuel(spec_read_exact, 3);
        reveal_with_fuel(spec_reads_made, 3);
    }
    let mut lo: u8 = 0;
    let mut hi: u8 = 0;
    if count >= 1 {
        lo = match read_u8(src) {
            Ok(b) => b,
            Err(e) => {
                return Err(e);
            },
        };
    }
    if count == 2 {
        hi = match read_u8(src) {
            Ok(b) => b,
            Err(e) => {
                return Err(e);
            },
        };
    }
    proof {
        if count == 0 {
            assert(spec_read_exact(s1, 0) == Some(Seq::<u8>::empty()));
        } else if count == 1 {
            assert(spec_read_exact(s1, 1) == Some(seq![lo]));
        } else {
            assert(spec_read_exact(s1, 2) == Some(seq![lo, hi]));
        }
    }
    Ok(decode(opcode, lo, hi))
}

/// A byte source over a slice: it reads the slice from `pos` on, and ends
/// with the slice.
pub struct SliceReader<'a> {
    pub data: &'a [u8],
    pub pos: usize,
}

impl<'a> SliceReader<'a> {
    /// A reader at the start of `data`.
    pub fn new(data: &'a [u8]) -> (r: SliceReader<'a>)
        ensures
            r.data@ == data@,
            r.pos == 0,
    {
        SliceReader { data, pos: 0 }
    }
}

impl<'a> ByteSource for SliceReader<'a> {
    open spec fn spec_can_read(&self) -> bool {
        true
    }

    open spec fn spec_next(&self) -> Option<u8> {
        if self.pos < self.data@.len() {
            Some(self.data@[self.pos as int])
        } else {
            None
        }
    }

    open spec fn spec_advance(&self) -> Self {
        if self.pos < self.data@.len() {
            SliceReader { data: self.data, pos: (self.pos + 1) as usize }
        } else {
            *self
        }
    }

    fn read_byte(&mut self) -> (r: Result<u8, ReadError>) {
        if self.pos < self.data.len() {
            let b = self.data[self.pos];
            self.pos = self.pos + 1;
            Ok(b)
        } else {
            Err(ReadError::UnexpectedEof)
        }
    }
}

} // verus!
