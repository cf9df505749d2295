use game_enby::cpu::instructions::control::NOPInstruction;
use game_enby::cpu::instructions::load::LDInstruction;
use game_enby::cpu::instructions::Instruction;
use game_enby::cpu::registers::Register8;
use game_enby::machine::Machine;

fn rom_with_program(program: &[u8]) -> Vec<u8> {
    let mut rom = vec![0u8; 0x8000];
    rom[0x134..0x138].copy_from_slice(b"TEST");
    rom[0x100..0x100 + program.len()].copy_from_slice(program);
    rom
}

#[test]
fn machine_starts_at_the_entry_point() {
    let m = Machine::from_rom(rom_with_program(&[0x00]));
    assert_eq!(m.cpu.registers.pc, 0x0100);
    assert_eq!(m.cpu_wait_cycles, 0);
    let t = m.trace_state();
    assert_eq!(t.pc, 0x0100);
    assert_eq!(t.pcmem, [0x00, 0x00, 0x00, 0x00]);
}

#[test]
fn machine_tick_fetches_executes_and_waits() {
    let mut m = Machine::from_rom(rom_with_program(&[0x00, 0x3E, 0x42, 0xC3, 0x00, 0x01]));
    assert!(m.can_tick());
    let (i, t) = m.tick().unwrap();
    assert_eq!(i, Instruction::NOPInstruction(NOPInstruction::Empty));
    assert_eq!(
        t.to_string(),
        "A: 00 F: 00, BC: 0000 DE: 0000 HL: 0000 SP: 0000 PC: 0101 PCMEM: 3E,42,C3,00"
    );
    assert_eq!(m.cpu_wait_cycles, 3);
    for _ in 0..3 {
        assert!(m.can_tick());
        assert!(m.tick().is_none());
    }
    assert_eq!(m.cpu_wait_cycles, 0);
    let (i, t) = m.tick().unwrap();
    assert_eq!(i, Instruction::LDInstruction(LDInstruction::R8N8(Register8::A, 0x42)));
    assert_eq!(t.pc, 0x0103);
    assert_eq!(m.cpu.registers.af.a(), 0x42);
    assert_eq!(m.cpu.registers.pc, 0x0103);
    assert_eq!(m.cpu_wait_cycles, 7);
    for _ in 0..7 {
        m.tick();
    }
    let (i, _) = m.tick().unwrap();
    assert_eq!(i.to_string(), "JP $0100");
    assert_eq!(m.cpu.registers.pc, 0x0100);
}

#[test]
fn machine_cannot_tick_on_an_unknown_opcode() {
    let m = Machine::from_rom(rom_with_program(&[0xCB, 0x00]));
    assert!(!m.can_tick());
}

#[test]
fn machine_cannot_tick_on_an_unimplemented_instruction() {
    let m = Machine::from_rom(rom_with_program(&[0xF9]));
    assert!(!m.can_tick());
    let m = Machine::from_rom(rom_with_program(&[0xCD, 0x00, 0x02]));
    assert!(!m.can_tick());
}
