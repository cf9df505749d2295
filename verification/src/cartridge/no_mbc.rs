//! Cartridges without a memory bank controller: the ROM is mapped as it is at
//! 0x0000 to 0x7FFF.
use vstd::prelude::*;
use crate::apu::APU;
use crate::bus::Bus;
use crate::bus::bus_interceptor::{BusInterceptor, InterceptorResult};
use crate::cartridge::CartridgeBehavior;
use crate::cpu::cpu_bus::{CPUBus, cpu_bus_serves, serves};
use crate::ppu::PPU;

verus! {

/// The CPU bus as such a cartridge presents it: reads at 0x0000 to 0x7FFF
/// come from the ROM, everything else goes to the CPU bus.
pub struct NoMBCCPUBusInterceptor {
    pub rom: Vec<u8>,
    pub bus: CPUBus,
}

/// The value of the ROM at an address of the ROM area: its byte there, or
/// nothing past its end.
pub open spec fn rom_byte(rom: Seq<u8>, addr: u16) -> Option<u8> {
    if (addr as int) < rom.len() {
        Some(rom[addr as int])
    } else {
        None
    }
}

impl NoMBCCPUBusInterceptor {
    /// Whether a read at the address is served.
    pub fn accepts_read(addr: u16) -> (r: bool)
        ensures
            r == Self::spec_accepts_read(addr),
    {
        addr <= 0x7FFF || serves(addr)
    }

    /// Whether a write at the address is served.
    pub fn accepts_write(addr: u16) -> (r: bool)
        ensures
            r == Self::spec_accepts_write(addr),
    {
        serves(addr)
    }
}

impl BusInterceptor<u16> for NoMBCCPUBusInterceptor {
    type BusType = CPUBus;

    open spec fn spec_inner(&self) -> CPUBus {
        self.bus
    }

    open spec fn spec_with_inner(&self, inner: CPUBus) -> NoMBCCPUBusInterceptor {
        NoMBCCPUBusInterceptor { rom: self.rom, bus: inner }
    }

    open spec fn spec_accepts_read(addr: u16) -> bool {
        addr <= 0x7FFF || cpu_bus_serves(addr)
    }

    open spec fn spec_accepts_write(addr: u16) -> bool {
        cpu_bus_serves(addr)
    }

    open spec fn spec_intercept_read(&self, addr: u16) -> InterceptorResult<Option<u8>> {
        if addr <= 0x7FFF {
            InterceptorResult::Intercepted(rom_byte(self.rom@, addr))
        } else {
            InterceptorResult::NotIntercepted
        }
    }

    open spec fn spec_intercept_write(&self, addr: u16, value: u8) -> (InterceptorResult<()>, NoMBCCPUBusInterceptor) {
        (InterceptorResult::NotIntercepted, *self)
    }

    open spec fn spec_intercept_side_effects(&self, addr: u16) -> (InterceptorResult<()>, NoMBCCPUBusInterceptor) {
        if addr <= 0x7FFF {
            (InterceptorResult::Intercepted(()), *self)
        } else {
            (InterceptorResult::NotIntercepted, *self)
        }
    }

    fn get_inner(&self) -> (r: &CPUBus) {
        &self.bus
    }

    fn get_inner_mut(&mut self) -> (r: &mut CPUBus) {
        &mut self.bus
    }

    fn intercept_read_readonly(&self, addr: u16) -> (r: InterceptorResult<Option<u8>>) {
        if addr <= 0x7FFF {
            let value = match self.rom.as_slice().get(addr as usize) {
                Some(b) => Some(*b),
                None => None,
            };
            InterceptorResult::Intercepted(value)
        } else {
            InterceptorResult::NotIntercepted
        }
    }

    fn intercept_write(&mut self, addr: u16, value: u8) -> (r: InterceptorResult<()>) {
        InterceptorResult::NotIntercepted
    }

    /// Reads of the ROM have no side effects; the reads the ROM does not serve
    /// take the CPU bus's.
    fn intercept_read_side_effects(&mut self, addr: u16) -> (r: InterceptorResult<()>) {
        if addr <= 0x7FFF {
            InterceptorResult::Intercepted(())
        } else {
            InterceptorResult::NotIntercepted
        }
    }
}

/// The ROM is read-only: a read at 0x0000 to 0x7FFF yields the ROM's byte
/// there (nothing past its end), before and after any write.
pub proof fn lemma_rom_reads(bus: NoMBCCPUBusInterceptor, addr: u16, value: u8, rom_addr: u16)
    requires
        rom_addr <= 0x7FFF,
    ensures
        bus.spec_read(rom_addr) == rom_byte(bus.rom@, rom_addr),
        bus.spec_after_write(addr, value).spec_read(rom_addr) == bus.spec_read(rom_addr),
{
}

/// Outside the ROM area, the cartridge passes reads and their side effects
/// through to the CPU bus; reads of the ROM change nothing; every write goes
/// to the CPU bus.
pub proof fn lemma_passes_through(bus: NoMBCCPUBusInterceptor, addr: u16, value: u8)
    ensures
        addr > 0x7FFF ==> bus.spec_read(addr) == bus.bus.spec_read(addr),
        bus.spec_after_write(addr, value) == (NoMBCCPUBusInterceptor { rom: bus.rom, bus: bus.bus.spec_after_write(addr, value) }),
        addr > 0x7FFF ==> bus.spec_after_read(addr) == (NoMBCCPUBusInterceptor { rom: bus.rom, bus: bus.bus.spec_after_read(addr) }),
        addr <= 0x7FFF ==> bus.spec_after_read(addr) == bus,
{
}

/// A cartridge without a memory bank controller.
pub struct NoMBC {
    pub cpu_bus: NoMBCCPUBusInterceptor,
}

impl NoMBC {
    /// The cartridge with the given ROM, in front of a fresh CPU bus around
    /// the given devices.
    pub fn from_rom(rom: Vec<u8>, apu: APU, ppu: PPU) -> (r: NoMBC)
        ensures
            r.cpu_bus.rom@ == rom@,
            r.cpu_bus.bus.spec_fresh(apu, ppu),
    {
        NoMBC { cpu_bus: NoMBCCPUBusInterceptor { rom, bus: CPUBus::new(apu, ppu) } }
    }
}

impl CartridgeBehavior for NoMBC {
    type CPUBusType = NoMBCCPUBusInterceptor;

    open spec fn spec_cpu_bus(&self) -> NoMBCCPUBusInterceptor {
        self.cpu_bus
    }

    open spec fn spec_with_cpu_bus(&self, bus: NoMBCCPUBusInterceptor) -> NoMBC {
        NoMBC { cpu_bus: bus }
    }

    fn cpu_bus(&self) -> (r: &NoMBCCPUBusInterceptor) {
        &self.cpu_bus
    }

    fn cpu_bus_mut(&mut self) -> (r: &mut NoMBCCPUBusInterceptor) {
        &mut self.cpu_bus
    }
}

} // verus!
