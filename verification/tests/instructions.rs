use game_enby::apu::APU;
use game_enby::bus::Bus;
use game_enby::cpu::assembly::Assemble;
use game_enby::cpu::cpu_bus::CPUBus;
use game_enby::cpu::instructions::arithmetic::{DECInstruction, INCInstruction};
use game_enby::cpu::instructions::control::{CALLInstruction, JRInstruction, RETInstruction, RSTInstruction};
use game_enby::cpu::instructions::load::LDInstruction;
use game_enby::cpu::instructions::logic::XORInstruction;
use game_enby::cpu::instructions::test::CPInstruction;
use game_enby::cpu::instructions::{Execute, Instruction, InstructionBehavior, ResetVector};
use game_enby::cpu::operand::ConditionCode;
use game_enby::cpu::registers::{Register16, Register8};
use game_enby::cpu::CPU;
use game_enby::ppu::PPU;

fn setup() -> (CPU, CPUBus) {
    (CPU::new(), CPUBus::new(APU::new(), PPU::new()))
}

#[test]
fn instructions_inc_then_dec_restores_registers() {
    let (mut cpu, mut bus) = setup();
    cpu.registers.set_r8(Register8::B, 0xFF);
    Instruction::INCInstruction(INCInstruction::R8(Register8::B)).execute(&mut cpu, &mut bus);
    assert_eq!(cpu.registers.get_r8(Register8::B), 0x00);
    assert!(cpu.registers.af.f().z());
    Instruction::DECInstruction(DECInstruction::R8(Register8::B)).execute(&mut cpu, &mut bus);
    assert_eq!(cpu.registers.get_r8(Register8::B), 0xFF);

    cpu.registers.set_r16(Register16::DE, 0xFFFF);
    Instruction::INCInstruction(INCInstruction::R16(Register16::DE)).execute(&mut cpu, &mut bus);
    assert_eq!(cpu.registers.get_r16(Register16::DE), 0x0000);
    Instruction::DECInstruction(DECInstruction::R16(Register16::DE)).execute(&mut cpu, &mut bus);
    assert_eq!(cpu.registers.get_r16(Register16::DE), 0xFFFF);

    Instruction::DECInstruction(DECInstruction::SP).execute(&mut cpu, &mut bus);
    assert_eq!(cpu.registers.sp, 0xFFFF);
    Instruction::INCInstruction(INCInstruction::SP).execute(&mut cpu, &mut bus);
    assert_eq!(cpu.registers.sp, 0x0000);
}

#[test]
fn instructions_xor_a_clears_a() {
    let (mut cpu, mut bus) = setup();
    cpu.registers.set_r8(Register8::A, 0x5A);
    Instruction::XORInstruction(XORInstruction::AR8(Register8::A)).execute(&mut cpu, &mut bus);
    assert_eq!(cpu.registers.af.a(), 0);
    assert_eq!(cpu.registers.af.f().into_bits(), 0);
}

#[test]
fn instructions_compare_sets_flags_only() {
    let (mut cpu, mut bus) = setup();
    cpu.registers.set_r8(Register8::A, 0x90);
    Instruction::CPInstruction(CPInstruction::AN8(0x90)).execute(&mut cpu, &mut bus);
    assert_eq!(cpu.registers.af.a(), 0x90);
    assert!(cpu.registers.af.f().z());
    assert!(cpu.registers.af.f().n());
}

#[test]
fn instructions_condition_codes() {
    let (mut cpu, _) = setup();
    assert!(ConditionCode::NZ.matches(&cpu.registers));
    assert!(!ConditionCode::Z.matches(&cpu.registers));
    assert!(ConditionCode::NC.matches(&cpu.registers));
    cpu.registers.af.set_f(cpu.registers.af.f().with_z(true).with_c(true));
    assert!(ConditionCode::Z.matches(&cpu.registers));
    assert!(!ConditionCode::NZ.matches(&cpu.registers));
    assert!(ConditionCode::C.matches(&cpu.registers));
    assert!(!ConditionCode::NC.matches(&cpu.registers));
}

#[test]
fn instructions_call_then_ret_reads_the_stack_as_written() {
    let (mut cpu, mut bus) = setup();
    cpu.registers.sp = 0xFFFE;
    cpu.registers.pc = 0x0150;
    Instruction::CALLInstruction(CALLInstruction::N16(0x0200)).execute(&mut cpu, &mut bus);
    assert_eq!(cpu.registers.pc, 0x0200);
    assert_eq!(cpu.registers.sp, 0xFFFC);
    assert_eq!(bus.read_readonly(0xFFFB), 0x50);
    assert_eq!(bus.read_readonly(0xFFFC), 0x01);
    Instruction::RETInstruction(RETInstruction::Unconditional).execute(&mut cpu, &mut bus);
    assert_eq!(cpu.registers.sp, 0xFFFE);
    assert_eq!(cpu.registers.pc, 0x0001);
}

#[test]
fn instructions_load_and_store_through_hl() {
    let (mut cpu, mut bus) = setup();
    cpu.registers.set_r16(Register16::HL, 0xC123);
    cpu.registers.set_r8(Register8::A, 0x77);
    Instruction::LDInstruction(LDInstruction::HLDA).execute(&mut cpu, &mut bus);
    assert_eq!(bus.read_readonly(0xC123), 0x77);
    assert_eq!(cpu.registers.get_r16(Register16::HL), 0xC122);
}

#[test]
fn instructions_durations() {
    assert_eq!(Instruction::CALLInstruction(CALLInstruction::N16(0)).duration(), 24);
    assert_eq!(Instruction::LDInstruction(LDInstruction::R8N8(Register8::A, 0)).duration(), 8);
    assert_eq!(Instruction::INCInstruction(INCInstruction::R8(Register8::A)).duration(), 4);
    assert!(!Instruction::SBCInstruction(game_enby::cpu::instructions::arithmetic::SBCInstruction::AN8(1)).has_duration());
}

#[test]
fn instructions_assemble_bytes() {
    let mut v = Vec::new();
    let n = Instruction::LDInstruction(LDInstruction::R16N16(Register16::DE, 0xBEEF)).assemble(&mut v);
    assert_eq!(n, 3);
    assert_eq!(v, vec![0x11, 0xEF, 0xBE]);
    let mut v = Vec::new();
    Instruction::RSTInstruction(RSTInstruction::ResetVector(ResetVector::Addr38)).assemble(&mut v);
    assert_eq!(v, vec![0xF8]);
    let mut v = Vec::new();
    Instruction::LDInstruction(LDInstruction::R16A(Register16::HL)).assemble(&mut v);
    assert_eq!(v, vec![0x77]);
}

#[test]
fn instructions_text() {
    assert_eq!(Instruction::LDInstruction(LDInstruction::N16SP(0xC000)).to_string(), "LD [$C000], SP");
    assert_eq!(Instruction::LDInstruction(LDInstruction::HLDA).to_string(), "LD [HL-], A");
    assert_eq!(Instruction::JRInstruction(game_enby::cpu::instructions::control::JRInstruction::E8(5)).to_string(), "JR 5");
}

#[test]
fn instructions_relative_jumps_saturate() {
    let (mut cpu, mut bus) = setup();
    cpu.registers.pc = 0x0150;
    Instruction::JRInstruction(JRInstruction::E8(-16)).execute(&mut cpu, &mut bus);
    assert_eq!(cpu.registers.pc, 0x0140);
    Instruction::JRInstruction(JRInstruction::E8(127)).execute(&mut cpu, &mut bus);
    assert_eq!(cpu.registers.pc, 0x01BF);
    cpu.registers.pc = 0x0005;
    Instruction::JRInstruction(JRInstruction::E8(-128)).execute(&mut cpu, &mut bus);
    assert_eq!(cpu.registers.pc, 0x0000);
    cpu.registers.pc = 0xFFF0;
    Instruction::JRInstruction(JRInstruction::E8(100)).execute(&mut cpu, &mut bus);
    assert_eq!(cpu.registers.pc, 0xFFFF);
    cpu.registers.pc = 0x0100;
    Instruction::JRInstruction(JRInstruction::CCE8(ConditionCode::Z, 8)).execute(&mut cpu, &mut bus);
    assert_eq!(cpu.registers.pc, 0x0100);
}

#[test]
fn instructions_loads_keep_flags_and_ime() {
    let (mut cpu, mut bus) = setup();
    cpu.registers.af.set_f(cpu.registers.af.f().with_z(true).with_c(true));
    cpu.interrupt_master_enable = true;
    let f = cpu.registers.af.f().into_bits();
    cpu.registers.set_r16(Register16::HL, 0xC000);
    bus.write(0xC000, 0x99);
    Instruction::LDInstruction(LDInstruction::R8N8(Register8::A, 0x00)).execute(&mut cpu, &mut bus);
    Instruction::LDInstruction(LDInstruction::AHLI).execute(&mut cpu, &mut bus);
    Instruction::LDInstruction(LDInstruction::R16N16(Register16::BC, 0x1234)).execute(&mut cpu, &mut bus);
    assert_eq!(cpu.registers.af.a(), 0x99);
    assert_eq!(cpu.registers.af.f().into_bits(), f);
    assert!(cpu.interrupt_master_enable);
}
