use game_enby::cpu::assembly::Assemble;
use game_enby::cpu::disasm::{decode, is_known_opcode, operand_count, read_instruction, ReadError, SliceReader};
use game_enby::cpu::instructions::control::{JPInstruction, JRInstruction, NOPInstruction, STOPInstruction};
use game_enby::cpu::instructions::flags::CCFInstruction;
use game_enby::cpu::instructions::load::{LDHInstruction, LDInstruction};
use game_enby::cpu::instructions::test::CPInstruction;
use game_enby::cpu::instructions::Instruction;
use game_enby::cpu::operand::ConditionCode;
use game_enby::cpu::registers::{Register16, Register8};

fn assembled(i: &Instruction) -> Vec<u8> {
    let mut v = Vec::new();
    i.assemble(&mut v);
    v
}

#[test]
fn disasm_reads_word_operand_little_endian() {
    let bytes = [0x01u8, 0x34, 0x12, 0x00];
    let mut reader = SliceReader::new(&bytes);
    let i = read_instruction(&mut reader).unwrap();
    assert_eq!(i, Instruction::LDInstruction(LDInstruction::R16N16(Register16::BC, 0x1234)));
    assert_eq!(reader.pos, 3);
    let next = read_instruction(&mut reader).unwrap();
    assert_eq!(next, Instruction::NOPInstruction(NOPInstruction::Empty));
    assert_eq!(reader.pos, 4);
}

#[test]
fn disasm_reads_signed_offset() {
    let bytes = [0x20u8, 0xFE];
    let mut reader = SliceReader::new(&bytes);
    let i = read_instruction(&mut reader).unwrap();
    assert_eq!(i, Instruction::JRInstruction(JRInstruction::CCE8(ConditionCode::NZ, -2)));
    assert_eq!(i.to_string(), "JR NZ, -2");
}

#[test]
fn disasm_reads_byte_operands() {
    let bytes = [0x3Eu8, 0x42, 0xE0, 0x80, 0xFE, 0x90];
    let mut reader = SliceReader::new(&bytes);
    assert_eq!(
        read_instruction(&mut reader).unwrap(),
        Instruction::LDInstruction(LDInstruction::R8N8(Register8::A, 0x42))
    );
    assert_eq!(
        read_instruction(&mut reader).unwrap(),
        Instruction::LDHInstruction(LDHInstruction::N8A(0x80))
    );
    assert_eq!(
        read_instruction(&mut reader).unwrap(),
        Instruction::CPInstruction(CPInstruction::AN8(0x90))
    );
    assert_eq!(reader.pos, 6);
}

#[test]
fn disasm_end_of_source_is_an_error() {
    let empty: [u8; 0] = [];
    let mut reader = SliceReader::new(&empty);
    assert_eq!(read_instruction(&mut reader), Err(ReadError::UnexpectedEof));
    assert_eq!(reader.pos, 0);

    let short = [0xC3u8, 0x00];
    let mut reader = SliceReader::new(&short);
    assert_eq!(read_instruction(&mut reader), Err(ReadError::UnexpectedEof));
    assert_eq!(reader.pos, 2);
}

#[test]
fn disasm_stop_skips_its_padding_byte() {
    let bytes = [0x10u8, 0x55, 0x00];
    let mut reader = SliceReader::new(&bytes);
    assert_eq!(
        read_instruction(&mut reader).unwrap(),
        Instruction::STOPInstruction(STOPInstruction::Empty)
    );
    assert_eq!(reader.pos, 2);
    assert_eq!(assembled(&decode(0x10, 0x55, 0)), vec![0x10, 0x00]);
}

#[test]
fn disasm_known_opcodes_and_operand_counts() {
    assert!(is_known_opcode(0x00));
    assert!(is_known_opcode(0xFE));
    assert!(!is_known_opcode(0xCB));
    assert!(!is_known_opcode(0x76));
    assert_eq!(operand_count(0x00), 0);
    assert_eq!(operand_count(0x06), 1);
    assert_eq!(operand_count(0x10), 1);
    assert_eq!(operand_count(0xC3), 2);
}

#[test]
fn disasm_decoded_instructions_reassemble() {
    for op in 0u8..=255 {
        if !is_known_opcode(op) || op == 0x21 || op == 0xF3 || op == 0x10 {
            continue;
        }
        let n = operand_count(op);
        let i = decode(op, 0x34, 0x12);
        let mut expected = vec![op];
        expected.extend_from_slice(&[0x34u8, 0x12][..n]);
        assert_eq!(assembled(&i), expected, "opcode {:02X}", op);
    }
}

#[test]
fn disasm_opcodes_that_do_not_reassemble() {
    assert_eq!(assembled(&decode(0x21, 0x34, 0x12)), vec![0x12, 0x34, 0x12]);
    assert_eq!(decode(0xF3, 0, 0), Instruction::CCFInstruction(CCFInstruction::Empty));
    assert_eq!(assembled(&decode(0xF3, 0, 0)), vec![0x3F]);
}

#[test]
fn disasm_text_of_decoded_instructions() {
    assert_eq!(decode(0xC3, 0x50, 0x01).to_string(), "JP $0150");
    assert_eq!(decode(0xC3, 0x50, 0x01), Instruction::JPInstruction(JPInstruction::N16(0x0150)));
    assert_eq!(decode(0x3E, 0x42, 0).to_string(), "LD A, 0x42");
    assert_eq!(decode(0xFE, 0x90, 0).to_string(), "CP A, 0x90");
    assert_eq!(decode(0x7E, 0, 0).to_string(), "LD A, [HL]");
}

#[test]
fn disasm_reads_back_assembled_code() {
    let program = [
        Instruction::JPInstruction(JPInstruction::N16(0x1234)),
        Instruction::JRInstruction(JRInstruction::CCE8(ConditionCode::NZ, -128)),
        Instruction::LDInstruction(LDInstruction::R8R8(Register8::A, Register8::L)),
        Instruction::LDHInstruction(LDHInstruction::AN8(0x44)),
        Instruction::CPInstruction(CPInstruction::AN8(0x91)),
        Instruction::NOPInstruction(NOPInstruction::Empty),
    ];
    let mut code = Vec::new();
    for i in program.iter() {
        i.assemble(&mut code);
    }
    let mut reader = SliceReader::new(&code);
    for i in program.iter() {
        assert_eq!(read_instruction(&mut reader).unwrap(), *i);
    }
    assert_eq!(reader.pos, code.len());
    assert_eq!(read_instruction(&mut reader), Err(ReadError::UnexpectedEof));
}
