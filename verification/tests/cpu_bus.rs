use game_enby::apu::APU;
use game_enby::bus::Bus;
use game_enby::cartridge::no_mbc::NoMBCCPUBusInterceptor;
use game_enby::cpu::cpu_bus::CPUBus;
use game_enby::ppu::{PPUMode, PPU};

fn fresh_bus() -> CPUBus {
    CPUBus::new(APU::new(), PPU::new())
}

#[test]
fn cpu_bus_work_ram_and_its_echo() {
    let mut bus = fresh_bus();
    bus.write(0xC000, 5);
    assert_eq!(bus.read_readonly(0xC000), 5);
    assert_eq!(bus.read_readonly(0xE000), 5);
    bus.write(0xFDFF, 9);
    assert_eq!(bus.read_readonly(0xDDFF), 9);
    assert_eq!(bus.read(0xDDFF), 9);
    assert_eq!(bus.read_readonly(0xC001), 0);
}

#[test]
fn cpu_bus_high_ram_and_interrupt_registers() {
    let mut bus = fresh_bus();
    bus.write(0xFF80, 1);
    bus.write(0xFFFE, 2);
    bus.write(0xFFFF, 0x1F);
    bus.write(0xFF0F, 0x04);
    assert_eq!(bus.read_readonly(0xFF80), 1);
    assert_eq!(bus.read_readonly(0xFFFE), 2);
    assert_eq!(bus.read_readonly(0xFFFF), 0x1F);
    assert_eq!(bus.read_readonly(0xFF0F), 0x04);
    assert_eq!(bus.interrupt_enable.into_bits(), 0x1F);
}

#[test]
fn cpu_bus_ly_ignores_writes() {
    let mut bus = fresh_bus();
    bus.write(0xFF44, 0x99);
    assert_eq!(bus.read_readonly(0xFF44), 0);
}

#[test]
fn cpu_bus_status_write_keeps_the_mode() {
    let mut bus = fresh_bus();
    assert_eq!(bus.read_readonly(0xFF41), 0x02);
    bus.write(0xFF41, 0xFF);
    assert_eq!(bus.read_readonly(0xFF41), 0x3E);
    assert_eq!(bus.ppu.lcd_status.ppu_mode(), PPUMode::OAMScan);
}

#[test]
fn cpu_bus_video_and_audio_registers() {
    let mut bus = fresh_bus();
    bus.write(0xFF40, 0x91);
    bus.write(0xFF42, 0x10);
    bus.write(0xFF43, 0x20);
    bus.write(0xFF47, 0xE4);
    bus.write(0xFF26, 0x80);
    assert_eq!(bus.read_readonly(0xFF40), 0x91);
    assert_eq!(bus.ppu.scy, 0x10);
    assert_eq!(bus.ppu.scx, 0x20);
    assert_eq!(bus.read_readonly(0xFF47), 0xE4);
    assert_eq!(bus.read_readonly(0xFF26), 0x80);
}

#[test]
fn no_mbc_reads_rom_and_passes_the_rest_through() {
    let mut rom = vec![0u8; 0x200];
    rom[0x100] = 0xAA;
    let mut bus = NoMBCCPUBusInterceptor { rom, bus: fresh_bus() };
    assert_eq!(bus.read_readonly(0x0100), 0xAA);
    assert_eq!(bus.read_readonly(0x7FFF), 0);
    bus.write(0xC010, 0x77);
    assert_eq!(bus.read_readonly(0xC010), 0x77);
    assert_eq!(bus.bus.work_ram[0x10], 0x77);
    assert_eq!(bus.read(0x0100), 0xAA);
}
