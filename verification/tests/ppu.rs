use game_enby::ppu::{PPUMode, PPU};

#[test]
fn ppu_modes_follow_each_other() {
    let mut ppu = PPU::new();
    assert_eq!(ppu.lcd_status.ppu_mode(), PPUMode::OAMScan);
    assert!(ppu.is_wf());
    for _ in 0..81 {
        ppu.tick();
    }
    assert_eq!(ppu.lcd_status.ppu_mode(), PPUMode::DrawingPixels);
    assert_eq!(ppu.mode_wait_cycles, 172);
    for _ in 0..173 {
        ppu.tick();
    }
    assert_eq!(ppu.lcd_status.ppu_mode(), PPUMode::HorizontalBlank);
    for _ in 0..205 {
        ppu.tick();
    }
    assert_eq!(ppu.lcd_status.ppu_mode(), PPUMode::OAMScan);
    assert_eq!(ppu.ly, 1);
    assert!(ppu.is_wf());
}

#[test]
fn ppu_reaches_vertical_blank_and_wraps() {
    let mut ppu = PPU::new();
    let line = 81 + 173 + 205;
    for _ in 0..(144 * line) {
        ppu.tick();
    }
    assert_eq!(ppu.lcd_status.ppu_mode(), PPUMode::VerticalBlank);
    assert_eq!(ppu.ly, 144);
    for _ in 0..4561 {
        assert!(ppu.is_wf());
        ppu.tick();
    }
    assert_eq!(ppu.lcd_status.ppu_mode(), PPUMode::OAMScan);
    assert_eq!(ppu.ly, 0);
    assert!(ppu.is_wf());
}

#[test]
fn ppu_lyc_flag_follows_ly() {
    let mut ppu = PPU::new();
    ppu.lyc = 1;
    for _ in 0..(81 + 173 + 205) {
        ppu.tick();
    }
    assert_eq!(ppu.ly, 1);
    assert!(ppu.lcd_status.lyc_equals_ly());
}

#[test]
fn oam_entry_bytes_read_back() {
    let mut entry = game_enby::ppu::oam::OAMEntry::new();
    entry.write_byte(0, 0x80);
    entry.write_byte(1, 0x12);
    entry.write_byte(2, 0x34);
    entry.write_byte(3, 0x56);
    assert_eq!(entry.read_byte(0), 0x80);
    assert_eq!(entry.read_byte(1), 0x12);
    assert_eq!(entry.read_byte(2), 0x34);
    assert_eq!(entry.read_byte(3), 0x56);
    assert_eq!(entry.into_bits(), 0x5634_1280);
    entry.write_byte(1, 0xFF);
    assert_eq!(entry.read_byte(0), 0x80);
    assert_eq!(entry.read_byte(2), 0x34);
}

#[test]
fn ppu_power_on_state() {
    let ppu = PPU::new();
    assert_eq!(ppu.lcd_status.into_bits(), 0x02);
    assert_eq!(ppu.lcd_control.into_bits(), 0x00);
    assert!(ppu.tilemap0.iter().all(|b| *b == 0));
    assert!(ppu.tilemap1.iter().all(|b| *b == 0));
    assert!(ppu.tile_data_block0.iter().all(|t| t.0.iter().all(|b| *b == 0)));
    assert!(ppu.oam.iter().all(|e| e.into_bits() == 0));
    assert_eq!(ppu.mode_wait_cycles, 80);
}
