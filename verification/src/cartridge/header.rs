//! The cartridge header: the block of ROM at 0x0100 to 0x014F that names the
//! game and describes the cartridge hardware.
use vstd::prelude::*;
use vstd::string::StringSliceAdditionalSpecFns;
use vstd::utf8::valid_utf8;

verus! {

/// The publisher code in the newer two-byte field.
#[derive(Debug, Clone, Copy, PartialEq, Eq, Structural)]
pub enum NewLicensee {
    NoLicensee,
    Nintendo,
    Capcom,
    ElectronicArts,
}

impl View for NewLicensee {
    type V = u16;

    open spec fn view(&self) -> u16 {
        match self {
            NewLicensee::NoLicensee => 0x00,
            NewLicensee::Nintendo => 0x01,
            NewLicensee::Capcom => 0x08,
            NewLicensee::ElectronicArts => 0x13,
        }
    }
}

impl NewLicensee {
    /// The value with the given code, if there is one.
    pub open spec fn spec_from_repr(code: u16) -> Option<NewLicensee> {
        match code {
            0x00 => Some(NewLicensee::NoLicensee),
            0x01 => Some(NewLicensee::Nintendo),
            0x08 => Some(NewLicensee::Capcom),
            0x13 => Some(NewLicensee::ElectronicArts),
            _ => None,
        }
    }

    /// The value with the given code, if there is one.
    pub fn from_repr(code: u16) -> (r: Option<NewLicensee>)
        ensures
            r == NewLicensee::spec_from_repr(code),
            r matches Some(v) ==> v@ == code,
    {
        match code {
            0x00 => Some(NewLicensee::NoLicensee),
            0x01 => Some(NewLicensee::Nintendo),
            0x08 => Some(NewLicensee::Capcom),
            0x13 => Some(NewLicensee::ElectronicArts),
            _ => None,
        }
    }
}

/// The memory bank controller and extra hardware on the cartridge.
#[derive(Debug, Clone, Copy, PartialEq, Eq, Structural)]
pub enum CartridgeType {
    NoMBC,
    MBC1,
    MBC1RAM,
    MBC1RAMBattery,
    MBC2,
    MBC2Battery,
    NoMBCRAM,
    NoMBCRAMBattern,
    MMM01,
    MMM01RAM,
    MMM01RAMBattery,
    MBC3TimerBattery,
    MBC3TimerRAMBattery,
    MBC3,
    MBC3RAM,
    MBC3RAMBattery,
}

impl View for CartridgeType {
    type V = u8;

    open spec fn view(&self) -> u8 {
        match self {
            CartridgeType::NoMBC => 0x00,
            CartridgeType::MBC1 => 0x01,
            CartridgeType::MBC1RAM => 0x02,
            CartridgeType::MBC1RAMBattery => 0x03,
            CartridgeType::MBC2 => 0x05,
            CartridgeType::MBC2Battery => 0x06,
            CartridgeType::NoMBCRAM => 0x08,
            CartridgeType::NoMBCRAMBattern => 0x09,
            CartridgeType::MMM01 => 0x0B,
            CartridgeType::MMM01RAM => 0x0C,
            CartridgeType::MMM01RAMBattery => 0x0D,
            CartridgeType::MBC3TimerBattery => 0x0F,
            CartridgeType::MBC3TimerRAMBattery => 0x10,
            CartridgeType::MBC3 => 0x11,
            CartridgeType::MBC3RAM => 0x12,
            CartridgeType::MBC3RAMBattery => 0x13,
        }
    }
}

impl CartridgeType {
    /// The value with the given code, if there is one.
    pub open spec fn spec_from_repr(code: u8) -> Option<CartridgeType> {
        match code {
            0x00 => Some(CartridgeType::NoMBC),
            0x01 => Some(CartridgeType::MBC1),
            0x02 => Some(CartridgeType::MBC1RAM),
            0x03 => Some(CartridgeType::MBC1RAMBattery),
            0x05 => Some(CartridgeType::MBC2),
            0x06 => Some(CartridgeType::MBC2Battery),
            0x08 => Some(CartridgeType::NoMBCRAM),
            0x09 => Some(CartridgeType::NoMBCRAMBattern),
            0x0B => Some(CartridgeType::MMM01),
            0x0C => Some(CartridgeType::MMM01RAM),
            0x0D => Some(CartridgeType::MMM01RAMBattery),
            0x0F => Some(CartridgeType::MBC3TimerBattery),
            0x10 => Some(CartridgeType::MBC3TimerRAMBattery),
            0x11 => Some(CartridgeType::MBC3),
            0x12 => Some(CartridgeType::MBC3RAM),
            0x13 => Some(CartridgeType::MBC3RAMBattery),
            _ => None,
        }
    }

    /// The value with the given code, if there is one.
    pub fn from_repr(code: u8) -> (r: Option<CartridgeType>)
        ensures
            r == CartridgeType::spec_from_repr(code),
            r matches Some(v) ==> v@ == code,
    {
        match code {
            0x00 => Some(CartridgeType::NoMBC),
            0x01 => Some(CartridgeType::MBC1),
            0x02 => Some(CartridgeType::MBC1RAM),
            0x03 => Some(CartridgeType::MBC1RAMBattery),
            0x05 => Some(CartridgeType::MBC2),
            0x06 => Some(CartridgeType::MBC2Battery),
            0x08 => Some(CartridgeType::NoMBCRAM),
            0x09 => Some(CartridgeType::NoMBCRAMBattern),
            0x0B => Some(CartridgeType::MMM01),
            0x0C => Some(CartridgeType::MMM01RAM),
            0x0D => Some(CartridgeType::MMM01RAMBattery),
            0x0F => Some(CartridgeType::MBC3TimerBattery),
            0x10 => Some(CartridgeType::MBC3TimerRAMBattery),
            0x11 => Some(CartridgeType::MBC3),
            0x12 => Some(CartridgeType::MBC3RAM),
            0x13 => Some(CartridgeType::MBC3RAMBattery),
            _ => None,
        }
    }

    /// The name of the variant.
    pub open spec fn spec_name(self) -> Seq<char> {
        match self {
            CartridgeType::NoMBC => "NoMBC"@,
            CartridgeType::MBC1 => "MBC1"@,
            CartridgeType::MBC1RAM => "MBC1RAM"@,
            CartridgeType::MBC1RAMBattery => "MBC1RAMBattery"@,
            CartridgeType::MBC2 => "MBC2"@,
            CartridgeType::MBC2Battery => "MBC2Battery"@,
            CartridgeType::NoMBCRAM => "NoMBCRAM"@,
            CartridgeType::NoMBCRAMBattern => "NoMBCRAMBattern"@,
            CartridgeType::MMM01 => "MMM01"@,
            CartridgeType::MMM01RAM => "MMM01RAM"@,
            CartridgeType::MMM01RAMBattery => "MMM01RAMBattery"@,
            CartridgeType::MBC3TimerBattery => "MBC3TimerBattery"@,
            CartridgeType::MBC3TimerRAMBattery => "MBC3TimerRAMBattery"@,
            CartridgeType::MBC3 => "MBC3"@,
            CartridgeType::MBC3RAM => "MBC3RAM"@,
            CartridgeType::MBC3RAMBattery => "MBC3RAMBattery"@,
        }
    }

    /// The name of the variant.
    pub fn as_ref(&self) -> (r: &'static str)
        ensures
            r@ == self.spec_name(),
    {
        let r = match self {
            CartridgeType::NoMBC => "NoMBC",
            CartridgeType::MBC1 => "MBC1",
            CartridgeType::MBC1RAM => "MBC1RAM",
            CartridgeType::MBC1RAMBattery => "MBC1RAMBattery",
            CartridgeType::MBC2 => "MBC2",
            CartridgeType::MBC2Battery => "MBC2Battery",
            CartridgeType::NoMBCRAM => "NoMBCRAM",
            CartridgeType::NoMBCRAMBattern => "NoMBCRAMBattern",
            CartridgeType::MMM01 => "MMM01",
            CartridgeType::MMM01RAM => "MMM01RAM",
            CartridgeType::MMM01RAMBattery => "MMM01RAMBattery",
            CartridgeType::MBC3TimerBattery => "MBC3TimerBattery",
            CartridgeType::MBC3TimerRAMBattery => "MBC3TimerRAMBattery",
            CartridgeType::MBC3 => "MBC3",
            CartridgeType::MBC3RAM => "MBC3RAM",
            CartridgeType::MBC3RAMBattery => "MBC3RAMBattery",
        };
        proof {
            reveal_strlit("NoMBC");
            reveal_strlit("MBC1");
            reveal_strlit("MBC1RAM");
            reveal_strlit("MBC1RAMBattery");
            reveal_strlit("MBC2");
            reveal_strlit("MBC2Battery");
            reveal_strlit("NoMBCRAM");
            reveal_strlit("NoMBCRAMBattern");
            reveal_strlit("MMM01");
            reveal_strlit("MMM01RAM");
            reveal_strlit("MMM01RAMBattery");
            reveal_strlit("MBC3TimerBattery");
            reveal_strlit("MBC3TimerRAMBattery");
            reveal_strlit("MBC3");
            reveal_strlit("MBC3RAM");
            reveal_strlit("MBC3RAMBattery");
        }
        r
    }
}

/// The size of the cartridge ROM.
#[derive(Debug, Clone, Copy, PartialEq, Eq, Structural)]
pub enum ROMSize {
    K32,
    K64,
    K128,
    K256,
    K512,
    M1,
    M2,
    M4,
    M8,
    M1Point1,
    M1Point2,
    M1Point5,
}

impl View for ROMSize {
    type V = u8;

    open spec fn view(&self) -> u8 {
        match self {
            ROMSize::K32 => 0x00,
            ROMSize::K64 => 0x01,
            ROMSize::K128 => 0x02,
            ROMSize::K256 => 0x03,
            ROMSize::K512 => 0x04,
            ROMSize::M1 => 0x05,
            ROMSize::M2 => 0x06,
            ROMSize::M4 => 0x07,
            ROMSize::M8 => 0x08,
            ROMSize::M1Point1 => 0x52,
            ROMSize::M1Point2 => 0x53,
            ROMSize::M1Point5 => 0x54,
        }
    }
}

impl ROMSize {
    /// The value with the given code, if there is one.
    pub open spec fn spec_from_repr(code: u8) -> Option<ROMSize> {
        match code {
            0x00 => Some(ROMSize::K32),
            0x01 => Some(ROMSize::K64),
            0x02 => Some(ROMSize::K128),
            0x03 => Some(ROMSize::K256),
            0x04 => Some(ROMSize::K512),
            0x05 => Some(ROMSize::M1),
            0x06 => Some(ROMSize::M2),
            0x07 => Some(ROMSize::M4),
            0x08 => Some(ROMSize::M8),
            0x52 => Some(ROMSize::M1Point1),
            0x53 => Some(ROMSize::M1Point2),
            0x54 => Some(ROMSize::M1Point5),
            _ => None,
        }
    }

    /// The value with the given code, if there is one.
    pub fn from_repr(code: u8) -> (r: Option<ROMSize>)
        ensures
            r == ROMSize::spec_from_repr(code),
            r matches Some(v) ==> v@ == code,
    {
        match code {
            0x00 => Some(ROMSize::K32),
            0x01 => Some(ROMSize::K64),
            0x02 => Some(ROMSize::K128),
            0x03 => Some(ROMSize::K256),
            0x04 => Some(ROMSize::K512),
            0x05 => Some(ROMSize::M1),
            0x06 => Some(ROMSize::M2),
            0x07 => Some(ROMSize::M4),
            0x08 => Some(ROMSize::M8),
            0x52 => Some(ROMSize::M1Point1),
            0x53 => Some(ROMSize::M1Point2),
            0x54 => Some(ROMSize::M1Point5),
            _ => None,
        }
    }
}

/// The size of the battery-backed RAM on the cartridge.
#[derive(Debug, Clone, Copy, PartialEq, Eq, Structural)]
pub enum SaveRAMSize {
    K0,
    K2,
    K8,
    K32,
    K128,
    K64,
}

impl View for SaveRAMSize {
    type V = u8;

    open spec fn view(&self) -> u8 {
        match self {
            SaveRAMSize::K0 => 0x00,
            SaveRAMSize::K2 => 0x01,
            SaveRAMSize::K8 => 0x02,
            SaveRAMSize::K32 => 0x03,
            SaveRAMSize::K128 => 0x04,
            SaveRAMSize::K64 => 0x05,
        }
    }
}

impl SaveRAMSize {
    /// The value with the given code, if there is one.
    pub open spec fn spec_from_repr(code: u8) -> Option<SaveRAMSize> {
        match code {
            0x00 => Some(SaveRAMSize::K0),
            0x01 => Some(SaveRAMSize::K2),
            0x02 => Some(SaveRAMSize::K8),
            0x03 => Some(SaveRAMSize::K32),
            0x04 => Some(SaveRAMSize::K128),
            0x05 => Some(SaveRAMSize::K64),
            _ => None,
        }
    }

    /// The value with the given code, if there is one.
    pub fn from_repr(code: u8) -> (r: Option<SaveRAMSize>)
        ensures
            r == SaveRAMSize::spec_from_repr(code),
            r matches Some(v) ==> v@ == code,
    {
        match code {
            0x00 => Some(SaveRAMSize::K0),
            0x01 => Some(SaveRAMSize::K2),
            0x02 => Some(SaveRAMSize::K8),
            0x03 => Some(SaveRAMSize::K32),
            0x04 => Some(SaveRAMSize::K128),
            0x05 => Some(SaveRAMSize::K64),
            _ => None,
        }
    }
}

/// Where the cartridge is sold.
#[derive(Debug, Clone, Copy, PartialEq, Eq, Structural)]
pub enum CountryCode {
    Japan,
    NonJapan,
}

impl View for CountryCode {
    type V = u8;

    open spec fn view(&self) -> u8 {
        match self {
            CountryCode::Japan => 0x00,
            CountryCode::NonJapan => 0x01,
        }
    }
}

impl CountryCode {
    /// The value with the given code, if there is one.
    pub open spec fn spec_from_repr(code: u8) -> Option<CountryCode> {
        match code {
            0x00 => Some(CountryCode::Japan),
            0x01 => Some(CountryCode::NonJapan),
            _ => None,
        }
    }

    /// The value with the given code, if there is one.
    pub fn from_repr(code: u8) -> (r: Option<CountryCode>)
        ensures
            r == CountryCode::spec_from_repr(code),
            r matches Some(v) ==> v@ == code,
    {
        match code {
            0x00 => Some(CountryCode::Japan),
            0x01 => Some(CountryCode::NonJapan),
            _ => None,
        }
    }
}

/// The publisher code in the older one-byte field.
#[derive(Debug, Clone, Copy, PartialEq, Eq, Structural)]
pub enum Licensee {
    NoLicensee,
    Nintendo,
    Capcom,
}

impl View for Licensee {
    type V = u8;

    open spec fn view(&self) -> u8 {
        match self {
            Licensee::NoLicensee => 0x00,
            Licensee::Nintendo => 0x01,
            Licensee::Capcom => 0x08,
        }
    }
}

impl Licensee {
    /// The value with the given code, if there is one.
    pub open spec fn spec_from_repr(code: u8) -> Option<Licensee> {
        match code {
            0x00 => Some(Licensee::NoLicensee),
            0x01 => Some(Licensee::Nintendo),
            0x08 => Some(Licensee::Capcom),
            _ => None,
        }
    }

    /// The value with the given code, if there is one.
    pub fn from_repr(code: u8) -> (r: Option<Licensee>)
        ensures
            r == Licensee::spec_from_repr(code),
            r matches Some(v) ==> v@ == code,
    {
        match code {
            0x00 => Some(Licensee::NoLicensee),
            0x01 => Some(Licensee::Nintendo),
            0x08 => Some(Licensee::Capcom),
            _ => None,
        }
    }
}

/// `std::io::Error`, the error type of the header reader.
#[verifier::external_type_specification]
#[verifier::external_body]
pub struct ExIoError(std::io::Error);

/// The title bytes of a ROM.
pub open spec fn title_bytes(rom: Seq<u8>) -> Seq<u8> {
    rom.subrange(0x134, 0x144)
}

/// Whether a ROM has a header the reader accepts: it reaches past 0x014F, the
/// title is UTF-8, and the codes read are known. The country is looked up with
/// the ROM size code (0x0148), so that code must also be 0 or 1.
pub open spec fn spec_header_valid(rom: Seq<u8>) -> bool {
    &&& rom.len() >= 0x150
    &&& valid_utf8(title_bytes(rom))
    &&& CartridgeType::spec_from_repr(rom[0x147]) is Some
    &&& ROMSize::spec_from_repr(rom[0x148]) is Some
    &&& SaveRAMSize::spec_from_repr(rom[0x149]) is Some
    &&& CountryCode::spec_from_repr(rom[0x148]) is Some
    &&& Licensee::spec_from_repr(rom[0x14B]) is Some
}

/// The header fields as read from a valid ROM.
#[derive(Debug, Clone)]
pub struct CartridgeHeader {
    pub title: String,
    pub new_licensee: NewLicensee,
    pub sgb_features: bool,
    pub cartridge_type: CartridgeType,
    pub rom_size: ROMSize,
    pub save_ram_size: SaveRAMSize,
    pub country_code: CountryCode,
    pub licensee: Licensee,
    pub mask_rom_version_number: u8,
    pub header_checksum: u8,
    pub global_checksum: u16,
}

/// Whether `h` holds the header of `rom`, field by field.
pub open spec fn spec_is_header_of(h: &CartridgeHeader, rom: Seq<u8>) -> bool {
    &&& vstd::utf8::encode_utf8(h.title@) == title_bytes(rom)
    &&& h.new_licensee == NewLicensee::NoLicensee
    &&& h.sgb_features == (rom[0x146] == 0x03)
    &&& CartridgeType::spec_from_repr(rom[0x147]) == Some(h.cartridge_type)
    &&& ROMSize::spec_from_repr(rom[0x148]) == Some(h.rom_size)
    &&& SaveRAMSize::spec_from_repr(rom[0x149]) == Some(h.save_ram_size)
    &&& CountryCode::spec_from_repr(rom[0x148]) == Some(h.country_code)
    &&& Licensee::spec_from_repr(rom[0x14B]) == Some(h.licensee)
    &&& h.mask_rom_version_number == rom[0x14C]
    &&& h.header_checksum == rom[0x14D]
    &&& h.global_checksum == rom[0x14E] * 256 + rom[0x14F]
}

/// `std::str::from_utf8`: the text the bytes encode where they are valid
/// UTF-8, and nothing where they are not.
#[verifier::external_body]
fn str_from_utf8(bytes: &[u8]) -> (r: Option<&str>)
    ensures
        r is Some <==> valid_utf8(bytes@),
        r matches Some(s) ==> s.spec_bytes() == bytes@,
{
    match std::str::from_utf8(bytes) {
        Ok(s) => Some(s),
        Err(_) => None,
    }
}

impl CartridgeHeader {
    /// Whether `rom` has a header that `from_rom` accepts.
    pub fn is_valid(rom: &[u8]) -> (r: bool)
        ensures
            r == spec_header_valid(rom@),
    {
        if rom.len() < 0x150 {
            return false;
        }
        let title = vstd::slice::slice_subrange(rom, 0x134, 0x144);
        str_from_utf8(title).is_some()
            && CartridgeType::from_repr(rom[0x147]).is_some()
            && ROMSize::from_repr(rom[0x148]).is_some()
            && SaveRAMSize::from_repr(rom[0x149]).is_some()
            && CountryCode::from_repr(rom[0x148]).is_some()
            && Licensee::from_repr(rom[0x14B]).is_some()
    }

    /// Reads the header of a ROM. The newer licensee code is not decoded and
    /// reads as `NewLicensee::NoLicensee`; the global checksum is stored big-endian.
    pub fn from_rom(rom: &[u8]) -> (r: Result<CartridgeHeader, std::io::Error>)
        requires
            spec_header_valid(rom@),
        ensures
            r matches Ok(h) && spec_is_header_of(&h, rom@),
    {
        broadcast use vstd::string::to_string_from_display_ensures_for_str;
        let title_buf = vstd::slice::slice_subrange(rom, 0x134, 0x144);
        let title_str = str_from_utf8(title_buf).unwrap();
        let title = title_str.to_string();
        proof {
            crate::cpu::instructions::lemma_shift_high_byte(rom@[0x14E]);
        }
        Ok(CartridgeHeader {
            title,
            new_licensee: NewLicensee::NoLicensee,
            sgb_features: rom[0x146] == 0x03,
            cartridge_type: CartridgeType::from_repr(rom[0x147]).unwrap(),
            rom_size: ROMSize::from_repr(rom[0x148]).unwrap(),
            save_ram_size: SaveRAMSize::from_repr(rom[0x149]).unwrap(),
            country_code: CountryCode::from_repr(rom[0x148]).unwrap(),
            licensee: Licensee::from_repr(rom[0x14B]).unwrap(),
            mask_rom_version_number: rom[0x14C],
            header_checksum: rom[0x14D],
            global_checksum: ((rom[0x14E] as u16) << 8) + (rom[0x14F] as u16),
        })
    }
}

/// `NewLicensee::from_repr` finds exactly the value with the code: what it gives
/// has that code, and every value is found from its own code.
pub proof fn lemma_new_licensee_codes(code: u16, value: NewLicensee)
    ensures
        NewLicensee::spec_from_repr(code) matches Some(found) ==> found@ == code,
        NewLicensee::spec_from_repr(value@) == Some(value),
{
}

/// `CartridgeType::from_repr` finds exactly the value with the code: what it gives
/// has that code, and every value is found from its own code.
pub proof fn lemma_cartridge_type_codes(code: u8, value: CartridgeType)
    ensures
        CartridgeType::spec_from_repr(code) matches Some(found) ==> found@ == code,
        CartridgeType::spec_from_repr(value@) == Some(value),
{
}

/// `ROMSize::from_repr` finds exactly the value with the code: what it gives
/// has that code, and every value is found from its own code.
pub proof fn lemma_rom_size_codes(code: u8, value: ROMSize)
    ensures
        ROMSize::spec_from_repr(code) matches Some(found) ==> found@ == code,
        ROMSize::spec_from_repr(value@) == Some(value),
{
}

/// `SaveRAMSize::from_repr` finds exactly the value with the code: what it gives
/// has that code, and every value is found from its own code.
pub proof fn lemma_save_ram_size_codes(code: u8, value: SaveRAMSize)
    ensures
        SaveRAMSize::spec_from_repr(code) matches Some(found) ==> found@ == code,
        SaveRAMSize::spec_from_repr(value@) == Some(value),
{
}

/// `CountryCode::from_repr` finds exactly the value with the code: what it gives
/// has that code, and every value is found from its own code.
pub proof fn lemma_country_code_codes(code: u8, value: CountryCode)
    ensures
        CountryCode::spec_from_repr(code) matches Some(found) ==> found@ == code,
        CountryCode::spec_from_repr(value@) == Some(value),
{
}

/// `Licensee::from_repr` finds exactly the value with the code: what it gives
/// has that code, and every value is found from its own code.
pub proof fn lemma_licensee_codes(code: u8, value: Licensee)
    ensures
        Licensee::spec_from_repr(code) matches Some(found) ==> found@ == code,
        Licensee::spec_from_repr(value@) == Some(value),
{
}

/// A header read from a ROM holds, for each coded field, the value whose code
/// is the ROM's byte: the cartridge type at 0x147, the ROM size at 0x148, the
/// save RAM size at 0x149, the country looked up with the byte at 0x148, and
/// the licensee at 0x14B.
pub proof fn lemma_header_codes(h: CartridgeHeader, rom: Seq<u8>)
    requires
        spec_is_header_of(&h, rom),
    ensures
        h.cartridge_type@ == rom[0x147],
        h.rom_size@ == rom[0x148],
        h.save_ram_size@ == rom[0x149],
        h.country_code@ == rom[0x148],
        h.licensee@ == rom[0x14B],
{
    lemma_cartridge_type_codes(rom[0x147], h.cartridge_type);
    lemma_rom_size_codes(rom[0x148], h.rom_size);
    lemma_save_ram_size_codes(rom[0x149], h.save_ram_size);
    lemma_country_code_codes(rom[0x148], h.country_code);
    lemma_licensee_codes(rom[0x14B], h.licensee);
}

} // verus!
