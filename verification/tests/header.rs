use game_enby::cartridge::header::{
    CartridgeHeader, CartridgeType, CountryCode, Licensee, NewLicensee, ROMSize, SaveRAMSize,
};
use game_enby::cartridge::Cartridge;

fn rom_with(title: &[u8], cartridge_type: u8, rom_size: u8, ram_size: u8, licensee: u8) -> Vec<u8> {
    let mut rom = vec![0u8; 0x8000];
    rom[0x134..0x134 + title.len()].copy_from_slice(title);
    rom[0x146] = 0x03;
    rom[0x147] = cartridge_type;
    rom[0x148] = rom_size;
    rom[0x149] = ram_size;
    rom[0x14A] = 0x01;
    rom[0x14B] = licensee;
    rom[0x14C] = 0x02;
    rom[0x14D] = 0xAB;
    rom[0x14E] = 0x12;
    rom[0x14F] = 0x34;
    rom
}

#[test]
fn header_fields_are_read() {
    let rom = rom_with(b"TETRIS", 0x00, 0x00, 0x00, 0x01);
    assert!(CartridgeHeader::is_valid(&rom));
    let h = CartridgeHeader::from_rom(&rom).unwrap();
    assert_eq!(h.title, "TETRIS\0\0\0\0\0\0\0\0\0\0");
    assert_eq!(h.title.len(), 16);
    assert_eq!(h.new_licensee, NewLicensee::NoLicensee);
    assert!(h.sgb_features);
    assert_eq!(h.cartridge_type, CartridgeType::NoMBC);
    assert_eq!(h.rom_size, ROMSize::K32);
    assert_eq!(h.save_ram_size, SaveRAMSize::K0);
    assert_eq!(h.licensee, Licensee::Nintendo);
    assert_eq!(h.mask_rom_version_number, 0x02);
    assert_eq!(h.header_checksum, 0xAB);
    assert_eq!(h.global_checksum, 0x1234);
}

#[test]
fn header_country_is_looked_up_with_the_rom_size_code() {
    let rom = rom_with(b"GAME", 0x01, 0x01, 0x02, 0x08);
    let h = CartridgeHeader::from_rom(&rom).unwrap();
    assert_eq!(h.country_code, CountryCode::NonJapan);
    assert_eq!(h.rom_size, ROMSize::K64);
    assert_eq!(h.cartridge_type, CartridgeType::MBC1);
    assert_eq!(h.cartridge_type.as_ref(), "MBC1");
    assert_eq!(h.save_ram_size, SaveRAMSize::K8);
    assert_eq!(h.licensee, Licensee::Capcom);
    let rom = rom_with(b"GAME", 0x00, 0x00, 0x00, 0x00);
    let h = CartridgeHeader::from_rom(&rom).unwrap();
    assert_eq!(h.country_code, CountryCode::Japan);
}

#[test]
fn header_rejected_roms() {
    assert!(!CartridgeHeader::is_valid(&vec![0u8; 0x14F]));
    assert!(!CartridgeHeader::is_valid(&rom_with(&[0xFF, 0xFE], 0, 0, 0, 0)));
    assert!(!CartridgeHeader::is_valid(&rom_with(b"X", 0x04, 0, 0, 0)));
    assert!(!CartridgeHeader::is_valid(&rom_with(b"X", 0, 0x02, 0, 0)));
    assert!(!CartridgeHeader::is_valid(&rom_with(b"X", 0, 0, 0x06, 0)));
    assert!(!CartridgeHeader::is_valid(&rom_with(b"X", 0, 0, 0, 0x02)));
    assert!(CartridgeHeader::is_valid(&vec![0u8; 0x150]));
}

#[test]
fn header_enum_codes() {
    assert_eq!(CartridgeType::from_repr(0x13), Some(CartridgeType::MBC3RAMBattery));
    assert_eq!(CartridgeType::from_repr(0x04), None);
    assert_eq!(ROMSize::from_repr(0x54), Some(ROMSize::M1Point5));
    assert_eq!(NewLicensee::from_repr(0x13), Some(NewLicensee::ElectronicArts));
    assert_eq!(CartridgeType::NoMBCRAMBattern.as_ref(), "NoMBCRAMBattern");
}

#[test]
fn cartridge_loadable_roms() {
    assert!(Cartridge::is_loadable(&rom_with(b"A", 0x00, 0, 0, 0)));
    assert!(!Cartridge::is_loadable(&rom_with(b"A", 0x01, 0, 0, 0)));
}
