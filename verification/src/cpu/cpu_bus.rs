//! The bus the CPU sees: work RAM and its echo, the I/O registers that are
//! implemented, high RAM and the interrupt registers.
use vstd::prelude::*;
use crate::apu::APU;
use crate::apu::registers::{
    AudioMasterControlRegister, AudioMasterVolumeVINPanningRegister, AudioPanningRegister,
};
use crate::bus::Bus;
use crate::bus::bus_interceptor::BusInterceptor;
use crate::cpu::registers::{IERegister, IFRegister};
use crate::ppu::PPU;
use crate::ppu::registers::{GreyscalePaletteData, LCDControlRegister, LCDStatusRegister};

verus! {

/// A bus over which the CPU can run: the CPU bus itself or an interceptor
/// (such as a cartridge) layered over it.
pub trait CPUBusTrait: Bus<u16> {}

/// The addresses the CPU bus serves. The cartridge area, video RAM, external
/// RAM, OAM, the unusable area and the I/O registers not listed are not
/// served yet.
pub open spec fn cpu_bus_serves(addr: u16) -> bool {
    ||| 0xC000 <= addr <= 0xFDFF
    ||| addr == 0xFF0F
    ||| 0xFF24 <= addr <= 0xFF26
    ||| 0xFF40 <= addr <= 0xFF44
    ||| 0xFF47 <= addr <= 0xFF49
    ||| 0xFF80 <= addr
}

/// Whether the CPU bus serves the address.
pub fn serves(addr: u16) -> (r: bool)
    ensures
        r == cpu_bus_serves(addr),
{
    (0xC000 <= addr && addr <= 0xFDFF) || addr == 0xFF0F || (0xFF24 <= addr && addr <= 0xFF26) || (0xFF40 <= addr
        && addr <= 0xFF44) || (0xFF47 <= addr && addr <= 0xFF49) || 0xFF80 <= addr
}

pub struct CPUBus {
    pub work_ram: [u8; 8192],
    pub high_ram: [u8; 127],
    pub apu: APU,
    pub ppu: PPU,
    pub interrupt_enable: IERegister,
    pub interrupt_flag: IFRegister,
}

impl CPUBus {
    /// Whether this is a bus just made around the given devices: cleared RAM
    /// and clear interrupt registers.
    pub open spec fn spec_fresh(&self, apu: APU, ppu: PPU) -> bool {
        &&& self.work_ram@ == Seq::new(8192, |i: int| 0u8)
        &&& self.high_ram@ == Seq::new(127, |i: int| 0u8)
        &&& self.apu == apu
        &&& self.ppu == ppu
        &&& self.interrupt_enable@ == 0
        &&& self.interrupt_flag@ == 0
    }

    /// A bus with cleared RAM around the given devices and clear interrupt registers.
    pub fn new(apu: APU, ppu: PPU) -> (r: CPUBus)
        ensures
            r.spec_fresh(apu, ppu),
    {
        let r = CPUBus {
            work_ram: [0; 8192],
            high_ram: [0; 127],
            apu,
            ppu,
            interrupt_enable: IERegister::from_bits(0),
            interrupt_flag: IFRegister::from_bits(0),
        };
        assert(r.work_ram@ =~= Seq::new(8192, |i: int| 0u8));
        assert(r.high_ram@ =~= Seq::new(127, |i: int| 0u8));
        r
    }
}

impl Bus<u16> for CPUBus {
    open spec fn spec_readable(addr: u16) -> bool {
        cpu_bus_serves(addr)
    }

    open spec fn spec_writable(addr: u16) -> bool {
        cpu_bus_serves(addr)
    }

    open spec fn spec_read(&self, addr: u16) -> Option<u8> {
        if 0xC000 <= addr <= 0xDFFF {
            Some(self.work_ram@[addr - 0xC000])
        } else if 0xE000 <= addr <= 0xFDFF {
            Some(self.work_ram@[addr - 0xE000])
        } else if addr == 0xFF0F {
            Some(self.interrupt_flag@)
        } else if addr == 0xFF24 {
            Some(self.apu.master_volume_vin_panning@)
        } else if addr == 0xFF25 {
            Some(self.apu.panning@)
        } else if addr == 0xFF26 {
            Some(self.apu.master_control@)
        } else if addr == 0xFF40 {
            Some(self.ppu.lcd_control@)
        } else if addr == 0xFF41 {
            Some(self.ppu.lcd_status@)
        } else if addr == 0xFF42 {
            Some(self.ppu.scy)
        } else if addr == 0xFF43 {
            Some(self.ppu.scx)
        } else if addr == 0xFF44 {
            Some(self.ppu.ly)
        } else if addr == 0xFF47 {
            Some(self.ppu.bg_palette_data@)
        } else if addr == 0xFF48 {
            Some(self.ppu.obj_palette0_data@)
        } else if addr == 0xFF49 {
            Some(self.ppu.obj_palette1_data@)
        } else if 0xFF80 <= addr <= 0xFFFE {
            Some(self.high_ram@[addr - 0xFF80])
        } else if addr == 0xFFFF {
            Some(self.interrupt_enable@)
        } else {
            None
        }
    }

    open spec fn spec_after_read(&self, addr: u16) -> CPUBus {
        *self
    }

    open spec fn spec_after_write(&self, addr: u16, value: u8) -> CPUBus {
        if 0xC000 <= addr <= 0xDFFF {
            CPUBus { work_ram: vstd::array::spec_array_update(self.work_ram, addr - 0xC000, value), ..*self }
        } else if 0xE000 <= addr <= 0xFDFF {
            CPUBus { work_ram: vstd::array::spec_array_update(self.work_ram, addr - 0xE000, value), ..*self }
        } else if addr == 0xFF0F {
            CPUBus { interrupt_flag: IFRegister::spec_from_bits(value), ..*self }
        } else if addr == 0xFF24 {
            CPUBus { apu: APU { master_volume_vin_panning: AudioMasterVolumeVINPanningRegister::spec_from_bits(value), ..self.apu }, ..*self }
        } else if addr == 0xFF25 {
            CPUBus { apu: APU { panning: AudioPanningRegister::spec_from_bits(value), ..self.apu }, ..*self }
        } else if addr == 0xFF26 {
            CPUBus { apu: APU { master_control: AudioMasterControlRegister::spec_from_bits(value), ..self.apu }, ..*self }
        } else if addr == 0xFF40 {
            CPUBus { ppu: PPU { lcd_control: LCDControlRegister::spec_from_bits(value), ..self.ppu }, ..*self }
        } else if addr == 0xFF41 {
            CPUBus { ppu: PPU { lcd_status: self.ppu.lcd_status.spec_write_from_bus(LCDStatusRegister::spec_from_bits(value)), ..self.ppu }, ..*self }
        } else if addr == 0xFF42 {
            CPUBus { ppu: PPU { scy: value, ..self.ppu }, ..*self }
        } else if addr == 0xFF43 {
            CPUBus { ppu: PPU { scx: value, ..self.ppu }, ..*self }
        } else if addr == 0xFF47 {
            CPUBus { ppu: PPU { bg_palette_data: GreyscalePaletteData::spec_from_bits(value), ..self.ppu }, ..*self }
        } else if addr == 0xFF48 {
            CPUBus { ppu: PPU { obj_palette0_data: GreyscalePaletteData::spec_from_bits(value), ..self.ppu }, ..*self }
        } else if addr == 0xFF49 {
            CPUBus { ppu: PPU { obj_palette1_data: GreyscalePaletteData::spec_from_bits(value), ..self.ppu }, ..*self }
        } else if 0xFF80 <= addr <= 0xFFFE {
            CPUBus { high_ram: vstd::array::spec_array_update(self.high_ram, addr - 0xFF80, value), ..*self }
        } else if addr == 0xFFFF {
            CPUBus { interrupt_enable: IERegister::spec_from_bits(value), ..*self }
        } else {
            *self
        }
    }

    fn try_read_readonly(&self, addr: u16) -> (r: Option<u8>) {
        if 0xC000 <= addr && addr <= 0xDFFF {
            Some(self.work_ram[(addr - 0xC000) as usize])
        } else if 0xE000 <= addr && addr <= 0xFDFF {
            Some(self.work_ram[(addr - 0xE000) as usize])
        } else if addr == 0xFF0F {
            Some(self.interrupt_flag.into_bits())
        } else if addr == 0xFF24 {
            Some(self.apu.master_volume_vin_panning.into_bits())
        } else if addr == 0xFF25 {
            Some(self.apu.panning.into_bits())
        } else if addr == 0xFF26 {
            Some(self.apu.master_control.into_bits())
        } else if addr == 0xFF40 {
            Some(self.ppu.lcd_control.into_bits())
        } else if addr == 0xFF41 {
            Some(self.ppu.lcd_status.into_bits())
        } else if addr == 0xFF42 {
            Some(self.ppu.scy)
        } else if addr == 0xFF43 {
            Some(self.ppu.scx)
        } else if addr == 0xFF44 {
            Some(self.ppu.ly)
        } else if addr == 0xFF47 {
            Some(self.ppu.bg_palette_data.into_bits())
        } else if addr == 0xFF48 {
            Some(self.ppu.obj_palette0_data.into_bits())
        } else if addr == 0xFF49 {
            Some(self.ppu.obj_palette1_data.into_bits())
        } else if 0xFF80 <= addr && addr <= 0xFFFE {
            Some(self.high_ram[(addr - 0xFF80) as usize])
        } else {
            Some(self.interrupt_enable.into_bits())
        }
    }

    fn read_side_effects(&mut self, addr: u16) {
    }

    fn write(&mut self, addr: u16, value: u8) {
        if 0xC000 <= addr && addr <= 0xDFFF {
            self.work_ram[(addr - 0xC000) as usize] = value;
        } else if 0xE000 <= addr && addr <= 0xFDFF {
            self.work_ram[(addr - 0xE000) as usize] = value;
        } else if addr == 0xFF0F {
            self.interrupt_flag = IFRegister::from_bits(value);
        } else if addr == 0xFF24 {
            self.apu.master_volume_vin_panning = AudioMasterVolumeVINPanningRegister::from_bits(value);
        } else if addr == 0xFF25 {
            self.apu.panning = AudioPanningRegister::from_bits(value);
        } else if addr == 0xFF26 {
            self.apu.master_control = AudioMasterControlRegister::from_bits(value);
        } else if addr == 0xFF40 {
            self.ppu.lcd_control = LCDControlRegister::from_bits(value);
        } else if addr == 0xFF41 {
            let new_value = self.ppu.lcd_status.write_from_bus(LCDStatusRegister::from_bits(value));
            self.ppu.lcd_status = new_value;
        } else if addr == 0xFF42 {
            self.ppu.scy = value;
        } else if addr == 0xFF43 {
            self.ppu.scx = value;
        } else if addr == 0xFF44 {
        } else if addr == 0xFF47 {
            self.ppu.bg_palette_data = GreyscalePaletteData::from_bits(value);
        } else if addr == 0xFF48 {
            self.ppu.obj_palette0_data = GreyscalePaletteData::from_bits(value);
        } else if addr == 0xFF49 {
            self.ppu.obj_palette1_data = GreyscalePaletteData::from_bits(value);
        } else if 0xFF80 <= addr && addr <= 0xFFFE {
            self.high_ram[(addr - 0xFF80) as usize] = value;
        } else {
            self.interrupt_enable = IERegister::from_bits(value);
        }
    }
}

/// The storage behind an address: the work RAM index for work RAM and its
/// echo, the address itself for everything else.
pub open spec fn storage_cell(addr: u16) -> int {
    if 0xC000 <= addr <= 0xDFFF {
        addr - 0xC000
    } else if 0xE000 <= addr <= 0xFDFF {
        addr - 0xE000
    } else {
        addr as int
    }
}

/// A write is read back: at every served address but the LCD status
/// register (0xFF41, whose mode and LY=LYC bits belong to the PPU) and LY
/// (0xFF44, which ignores writes), a read after a write yields the byte
/// written.
pub proof fn lemma_write_then_read(bus: CPUBus, addr: u16, value: u8)
    requires
        cpu_bus_serves(addr),
        addr != 0xFF41,
        addr != 0xFF44,
    ensures
        bus.spec_after_write(addr, value).spec_read(addr) == Some(value),
{
    broadcast use vstd::array::axiom_spec_array_update;
    broadcast use crate::cpu::registers::group_cpu_register_views;
    broadcast use crate::apu::registers::group_apu_register_views;
    broadcast use crate::ppu::registers::group_ppu_register_views;
}

/// A write touches only its own storage: every address backed by other
/// storage reads as before.
pub proof fn lemma_write_keeps_other_cells(bus: CPUBus, addr: u16, value: u8, other: u16)
    requires
        storage_cell(addr) != storage_cell(other),
    ensures
        bus.spec_after_write(addr, value).spec_read(other) == bus.spec_read(other),
{
    broadcast use vstd::array::axiom_spec_array_update;
}

/// Echo RAM: 0xE000 to 0xFDFF read what lies 0x2000 lower.
pub proof fn lemma_echo_ram(bus: CPUBus, addr: u16)
    requires
        0xE000 <= addr <= 0xFDFF,
    ensures
        bus.spec_read(addr) == bus.spec_read((addr - 0x2000) as u16),
{
}

/// LY is read-only from the bus: writing it changes nothing.
pub proof fn lemma_ly_ignores_writes(bus: CPUBus, value: u8)
    ensures
        bus.spec_after_write(0xFF44, value) == bus,
{
}

/// Reads from the CPU bus have no side effects.
pub proof fn lemma_reads_have_no_side_effects(bus: CPUBus, addr: u16)
    ensures
        bus.spec_after_read(addr) == bus,
{
}

impl CPUBusTrait for CPUBus {}

impl<T: BusInterceptor<u16, BusType = CPUBus>> CPUBusTrait for T {}

} // verus!
