use game_enby::cpu::registers::{Register16, Register8};
use game_enby::cpu::CPU;

#[test]
fn registers_pairs_are_made_of_their_halves() {
    let mut cpu = CPU::new();
    cpu.registers.set_r16(Register16::BC, 0x1234);
    assert_eq!(cpu.registers.get_r8(Register8::B), 0x12);
    assert_eq!(cpu.registers.get_r8(Register8::C), 0x34);
    cpu.registers.set_r8(Register8::L, 0xCD);
    cpu.registers.set_r8(Register8::H, 0xAB);
    assert_eq!(cpu.registers.get_r16(Register16::HL), 0xABCD);
    assert_eq!(cpu.registers.get_r16(Register16::BC), 0x1234);
    assert_eq!(cpu.registers.get_r16(Register16::DE), 0x0000);
}

#[test]
fn registers_writes_touch_one_register() {
    let mut cpu = CPU::new();
    cpu.registers.set_r8(Register8::A, 0x77);
    cpu.registers.set_r8(Register8::E, 0x01);
    assert_eq!(cpu.registers.get_r8(Register8::A), 0x77);
    assert_eq!(cpu.registers.af.f().into_bits(), 0x00);
    assert_eq!(cpu.registers.get_r8(Register8::D), 0x00);
    assert_eq!(cpu.registers.get_r8(Register8::E), 0x01);
    assert_eq!(cpu.registers.pc, 0x0100);
    assert_eq!(cpu.registers.sp, 0x0000);
}
