//! Cartridges: the header, and the hardware that maps the ROM onto the bus.
use vstd::prelude::*;
use crate::apu::APU;
use crate::cartridge::header::{CartridgeHeader, CartridgeType, spec_header_valid};
use crate::cartridge::no_mbc::{NoMBC, NoMBCCPUBusInterceptor};
use crate::cpu::cpu_bus::CPUBusTrait;
use crate::ppu::PPU;

pub mod header;
pub mod no_mbc;

verus! {

/// What every cartridge provides: the CPU bus as the cartridge presents it.
pub trait CartridgeBehavior: Sized {
    type CPUBusType: CPUBusTrait;

    /// The bus the CPU sees.
    spec fn spec_cpu_bus(&self) -> Self::CPUBusType;

    /// The cartridge with its bus replaced.
    spec fn spec_with_cpu_bus(&self, bus: Self::CPUBusType) -> Self;

    fn cpu_bus(&self) -> (r: &Self::CPUBusType)
        ensures
            *r == self.spec_cpu_bus(),
    ;

    fn cpu_bus_mut(&mut self) -> (r: &mut Self::CPUBusType)
        ensures
            *r == old(self).spec_cpu_bus(),
            *final(self) == old(self).spec_with_cpu_bus(*final(r)),
    ;
}

/// The cartridges there are.
pub enum Cartridge {
    NoMBC(NoMBC),
}

/// Whether a ROM can be loaded: its header is accepted and names a cartridge
/// without a memory bank controller, the one kind implemented.
pub open spec fn spec_rom_loadable(rom: Seq<u8>) -> bool {
    spec_header_valid(rom) && rom[0x147] == 0x00
}

impl Cartridge {
    /// The cartridge a ROM describes, in front of a fresh CPU bus around the
    /// given devices.
    pub fn from_rom(rom: Vec<u8>, apu: APU, ppu: PPU) -> (r: Cartridge)
        requires
            spec_rom_loadable(rom@),
        ensures
            r matches Cartridge::NoMBC(c) && c.cpu_bus.rom@ == rom@ && c.cpu_bus.bus.spec_fresh(apu, ppu),
    {
        let header = match CartridgeHeader::from_rom(rom.as_slice()) {
            Ok(h) => h,
            Err(_) => {
                return vstd::pervasive::unreached();
            },
        };
        match header.cartridge_type {
            CartridgeType::NoMBC => Cartridge::NoMBC(NoMBC::from_rom(rom, apu, ppu)),
            _ => vstd::pervasive::unreached(),
        }
    }

    /// Whether a ROM can be loaded by `from_rom`.
    pub fn is_loadable(rom: &[u8]) -> (r: bool)
        ensures
            r == spec_rom_loadable(rom@),
    {
        CartridgeHeader::is_valid(rom) && rom[0x147] == 0x00
    }
}

impl CartridgeBehavior for Cartridge {
    type CPUBusType = NoMBCCPUBusInterceptor;

    open spec fn spec_cpu_bus(&self) -> NoMBCCPUBusInterceptor {
        match self {
            Cartridge::NoMBC(c) => c.spec_cpu_bus(),
        }
    }

    open spec fn spec_with_cpu_bus(&self, bus: NoMBCCPUBusInterceptor) -> Cartridge {
        match self {
            Cartridge::NoMBC(c) => Cartridge::NoMBC(c.spec_with_cpu_bus(bus)),
        }
    }

    fn cpu_bus(&self) -> (r: &NoMBCCPUBusInterceptor) {
        match self {
            Cartridge::NoMBC(c) => c.cpu_bus(),
        }
    }

    fn cpu_bus_mut(&mut self) -> (r: &mut NoMBCCPUBusInterceptor) {
        match self {
            Cartridge::NoMBC(c) => c.cpu_bus_mut(),
        }
    }
}

} // verus!
