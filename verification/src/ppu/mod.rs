//! The picture processing unit: its registers, memories and mode timing.
use vstd::prelude::*;
use crate::ppu::oam::OAMEntry;
use crate::ppu::registers::{GreyscalePaletteData, LCDControlRegister, LCDStatusRegister};
use crate::ppu::tile::TileData;

pub mod oam;
pub mod registers;
pub mod tile;

verus! {

/// The four modes the PPU cycles through while drawing a frame.
#[derive(Debug, Clone, Copy, PartialEq, Eq, Structural)]
pub enum PPUMode {
    HorizontalBlank,
    VerticalBlank,
    OAMScan,
    DrawingPixels,
}

impl View for PPUMode {
    type V = u8;

    open spec fn view(&self) -> u8 {
        match self {
            PPUMode::HorizontalBlank => 0,
            PPUMode::VerticalBlank => 1,
            PPUMode::OAMScan => 2,
            PPUMode::DrawingPixels => 3,
        }
    }
}

impl PPUMode {
    /// The value with the given bits; any other bits give `HorizontalBlank`.
    pub open spec fn spec_from_bits(bits: u8) -> PPUMode {
        match bits {
            0 => PPUMode::HorizontalBlank,
            1 => PPUMode::VerticalBlank,
            2 => PPUMode::OAMScan,
            3 => PPUMode::DrawingPixels,
            _ => PPUMode::HorizontalBlank,
        }
    }

    #[verifier::when_used_as_spec(spec_from_bits)]
    pub fn from_bits(bits: u8) -> (r: PPUMode)
        ensures
            r == PPUMode::spec_from_bits(bits),
    {
        match bits {
            0 => PPUMode::HorizontalBlank,
            1 => PPUMode::VerticalBlank,
            2 => PPUMode::OAMScan,
            3 => PPUMode::DrawingPixels,
            _ => PPUMode::HorizontalBlank,
        }
    }

    pub fn into_bits(self) -> (r: u8)
        ensures
            r == self@,
    {
        match self {
            PPUMode::HorizontalBlank => 0,
            PPUMode::VerticalBlank => 1,
            PPUMode::OAMScan => 2,
            PPUMode::DrawingPixels => 3,
        }
    }
}

/// The PPU: its registers, video memory, object attribute memory, and the
/// countdown to the end of the current mode.
pub struct PPU {
    pub lcd_control: LCDControlRegister,
    pub lcd_status: LCDStatusRegister,
    pub bg_palette_data: GreyscalePaletteData,
    pub obj_palette0_data: GreyscalePaletteData,
    pub obj_palette1_data: GreyscalePaletteData,
    pub tile_data_block0: [TileData; 128],
    pub tile_data_block1: [TileData; 128],
    pub tile_data_block2: [TileData; 128],
    pub tilemap0: [u8; 1024],
    pub tilemap1: [u8; 1024],
    pub oam: [OAMEntry; 40],
    pub scx: u8,
    pub scy: u8,
    pub ly: u8,
    pub lyc: u8,
    /// Dots left before the current mode ends.
    pub mode_wait_cycles: usize,
}

/// Dots spent in OAM scan, in drawing pixels, in horizontal blank, and in
/// the whole vertical blank (ten lines of 456 dots).
pub open spec fn oam_scan_dots() -> usize { 80 }
pub open spec fn drawing_dots() -> usize { 172 }
pub open spec fn hblank_dots() -> usize { 204 }
pub open spec fn vblank_dots() -> usize { 4560 }

/// Whether every byte of every tile in a block is 0.
pub open spec fn blank_tiles(block: [TileData; 128]) -> bool {
    forall|i: int, j: int| 0 <= i < 128 && 0 <= j < 16 ==> #[trigger] block@[i].0@[j] == 0
}

/// One dot of mode timing: the mode, LY and countdown after a tick from the
/// given ones. A mode ends when its countdown is at 0.
pub open spec fn spec_next_timing(mode: PPUMode, ly: u8, wait: usize) -> (PPUMode, int, int) {
    match mode {
        PPUMode::HorizontalBlank => if wait == 0 {
            if ly + 1 < 144 {
                (PPUMode::OAMScan, ly + 1, oam_scan_dots() as int)
            } else {
                (PPUMode::VerticalBlank, ly + 1, vblank_dots() as int)
            }
        } else {
            (PPUMode::HorizontalBlank, ly as int, wait - 1)
        },
        PPUMode::VerticalBlank => if wait == 0 {
            (PPUMode::OAMScan, 0, oam_scan_dots() as int)
        } else {
            (PPUMode::VerticalBlank, if wait % 456 == 455 { ly + 1 } else { ly as int }, wait - 1)
        },
        PPUMode::OAMScan => if wait == 0 {
            (PPUMode::DrawingPixels, ly as int, drawing_dots() as int)
        } else {
            (PPUMode::OAMScan, ly as int, wait - 1)
        },
        PPUMode::DrawingPixels => if wait == 0 {
            (PPUMode::HorizontalBlank, ly as int, hblank_dots() as int)
        } else {
            (PPUMode::DrawingPixels, ly as int, wait - 1)
        },
    }
}

impl PPU {
    pub open spec fn spec_mode(&self) -> PPUMode {
        self.lcd_status.spec_ppu_mode()
    }

    /// LY does not overflow on the next tick.
    pub open spec fn spec_tick_safe(&self) -> bool {
        let (_, ly, _) = spec_next_timing(self.spec_mode(), self.ly, self.mode_wait_cycles);
        ly <= 255
    }

    /// The timing state the PPU reaches from power-on: in each drawing mode LY
    /// is a visible line and the countdown is within that mode's length; in
    /// vertical blank LY counts the lines already passed (144 to 153, and 154
    /// on the last dot).
    pub open spec fn wf(&self) -> bool {
        match self.spec_mode() {
            PPUMode::OAMScan => self.ly < 144 && self.mode_wait_cycles <= oam_scan_dots(),
            PPUMode::DrawingPixels => self.ly < 144 && self.mode_wait_cycles <= drawing_dots(),
            PPUMode::HorizontalBlank => self.ly < 144 && self.mode_wait_cycles <= hblank_dots(),
            PPUMode::VerticalBlank => self.mode_wait_cycles <= vblank_dots() && self.ly == 154 - (
            self.mode_wait_cycles + 1) / 456,
        }
    }

    /// Whether the PPU is well formed.
    pub fn is_wf(&self) -> (r: bool)
        ensures
            r == self.wf(),
    {
        match self.lcd_status.ppu_mode() {
            PPUMode::OAMScan => self.ly < 144 && self.mode_wait_cycles <= 80,
            PPUMode::DrawingPixels => self.ly < 144 && self.mode_wait_cycles <= 172,
            PPUMode::HorizontalBlank => self.ly < 144 && self.mode_wait_cycles <= 204,
            PPUMode::VerticalBlank => self.mode_wait_cycles <= 4560 && (self.ly as usize) == 154 - (
            self.mode_wait_cycles + 1) / 456,
        }
    }

    /// Everything but the mode, LY, the LY=LYC bit and the countdown is the same.
    pub open spec fn same_but_timing(&self, other: &PPU) -> bool {
        &&& self.lcd_control == other.lcd_control
        &&& self.lcd_status.spec_lyc_int_select() == other.lcd_status.spec_lyc_int_select()
        &&& self.lcd_status.spec_mode0_int_select() == other.lcd_status.spec_mode0_int_select()
        &&& self.lcd_status.spec_mode1_int_select() == other.lcd_status.spec_mode1_int_select()
        &&& self.lcd_status.spec_mode2_int_select() == other.lcd_status.spec_mode2_int_select()
        &&& self.bg_palette_data == other.bg_palette_data
        &&& self.obj_palette0_data == other.obj_palette0_data
        &&& self.obj_palette1_data == other.obj_palette1_data
        &&& self.tile_data_block0 == other.tile_data_block0
        &&& self.tile_data_block1 == other.tile_data_block1
        &&& self.tile_data_block2 == other.tile_data_block2
        &&& self.tilemap0 == other.tilemap0
        &&& self.tilemap1 == other.tilemap1
        &&& self.oam == other.oam
        &&& self.scx == other.scx
        &&& self.scy == other.scy
        &&& self.lyc == other.lyc
    }

    /// The power-on state: registers clear, in OAM scan on line 0 with the
    /// whole scan ahead.
    pub open spec fn spec_power_on(&self) -> bool {
        &&& self.lcd_control@ == 0
        &&& self.lcd_status@ == 2
        &&& self.spec_mode() == PPUMode::OAMScan
        &&& !self.lcd_status.spec_lyc_int_select()
        &&& !self.lcd_status.spec_mode0_int_select()
        &&& !self.lcd_status.spec_mode1_int_select()
        &&& !self.lcd_status.spec_mode2_int_select()
        &&& !self.lcd_status.spec_lyc_equals_ly()
        &&& self.bg_palette_data@ == 0
        &&& self.obj_palette0_data@ == 0
        &&& self.obj_palette1_data@ == 0
        &&& self.scx == 0
        &&& self.scy == 0
        &&& self.ly == 0
        &&& self.lyc == 0
        &&& self.mode_wait_cycles == oam_scan_dots()
        &&& blank_tiles(self.tile_data_block0)
        &&& blank_tiles(self.tile_data_block1)
        &&& blank_tiles(self.tile_data_block2)
        &&& self.tilemap0@ == Seq::new(1024, |i: int| 0u8)
        &&& self.tilemap1@ == Seq::new(1024, |i: int| 0u8)
        &&& forall|i: int| 0 <= i < 40 ==> (#[trigger] self.oam@[i])@ == 0
    }

    /// Whether this is the PPU a tick makes of `before`: mode, LY and
    /// countdown advance by `spec_next_timing`, the LY=LYC bit is refreshed,
    /// and nothing else changes.
    pub open spec fn spec_ticked_from(&self, before: &PPU) -> bool {
        let (mode, ly, wait) = spec_next_timing(before.spec_mode(), before.ly, before.mode_wait_cycles);
        &&& self.spec_mode() == mode
        &&& self.ly == ly
        &&& self.mode_wait_cycles == wait
        &&& self.lcd_status.spec_lyc_equals_ly() == (self.lyc == self.ly)
        &&& self.same_but_timing(before)
    }

    /// A PPU at power-on: everything clear, in OAM scan on line 0.
    pub fn new() -> (r: PPU)
        ensures
            r.spec_power_on(),
            r.wf(),
    {
        let blank = LCDStatusRegister::new();
        let status = blank.with_ppu_mode(PPUMode::OAMScan);
        proof {
            crate::ppu::registers::lemma_small_mode_views();
            crate::bits::lemma_small_masks();
            assert(crate::bits::bits8(0, 2, 1) == 0 && crate::bits::bits8(0, 3, 1) == 0 && crate::bits::bits8(0, 4, 1) == 0
                && crate::bits::bits8(0, 5, 1) == 0 && crate::bits::bits8(0, 6, 1) == 0) by (bit_vector);
            crate::ppu::registers::lemma_lcd_status_register_with_ppu_mode(blank, PPUMode::OAMScan);
            assert(crate::bits::put_bits8(0, 0, 2, 2) == 2) by (bit_vector);
            crate::ppu::registers::lemma_lcd_status_register_view(crate::bits::put_bits8(0, 0, 2, 2));
        }
        let r = PPU {
            lcd_control: LCDControlRegister::new(),
            lcd_status: status,
            bg_palette_data: GreyscalePaletteData::new(),
            obj_palette0_data: GreyscalePaletteData::new(),
            obj_palette1_data: GreyscalePaletteData::new(),
            tile_data_block0: [TileData([0; 16]); 128],
            tile_data_block1: [TileData([0; 16]); 128],
            tile_data_block2: [TileData([0; 16]); 128],
            tilemap0: [0; 1024],
            tilemap1: [0; 1024],
            oam: [OAMEntry::new(); 40],
            scx: 0,
            scy: 0,
            ly: 0,
            lyc: 0,
            mode_wait_cycles: 80,
        };
        assert(r.tilemap0@ =~= Seq::new(1024, |i: int| 0u8));
        assert(r.tilemap1@ =~= Seq::new(1024, |i: int| 0u8));
        r
    }

    /// Advances the PPU by one dot.
    pub fn tick(&mut self)
        requires
            old(self).spec_tick_safe(),
        ensures
            final(self).spec_ticked_from(&*old(self)),
    {
        broadcast use crate::ppu::registers::group_ppu_register_views;

        proof {
            crate::ppu::registers::lemma_small_mode_views();
        }
        match self.lcd_status.ppu_mode() {
            PPUMode::HorizontalBlank => {
                if self.mode_wait_cycles == 0 {
                    self.ly = self.ly + 1;
                    if self.ly < 144 {
                        self.lcd_status.set_ppu_mode(PPUMode::OAMScan);
                        self.mode_wait_cycles = 80;
                    } else {
                        self.lcd_status.set_ppu_mode(PPUMode::VerticalBlank);
                        self.mode_wait_cycles = 4560;
                    }
                } else {
                    self.mode_wait_cycles = self.mode_wait_cycles - 1;
                }
            },
            PPUMode::VerticalBlank => {
                if self.mode_wait_cycles == 0 {
                    self.ly = 0;
                    self.lcd_status.set_ppu_mode(PPUMode::OAMScan);
                    self.mode_wait_cycles = 80;
                } else {
                    if self.mode_wait_cycles % 456 == 455 {
                        self.ly = self.ly + 1;
                    }
                    self.mode_wait_cycles = self.mode_wait_cycles - 1;
                }
            },
            PPUMode::OAMScan => {
                if self.mode_wait_cycles == 0 {
                    self.lcd_status.set_ppu_mode(PPUMode::DrawingPixels);
                    self.mode_wait_cycles = 172;
                } else {
                    self.mode_wait_cycles = self.mode_wait_cycles - 1;
                }
            },
            PPUMode::DrawingPixels => {
                if self.mode_wait_cycles == 0 {
                    self.lcd_status.set_ppu_mode(PPUMode::HorizontalBlank);
                    self.mode_wait_cycles = 204;
                } else {
                    self.mode_wait_cycles = self.mode_wait_cycles - 1;
                }
            },
        }
        let equal = self.lyc == self.ly;
        self.lcd_status.set_lyc_equals_ly(equal);
    }
}

/// A well-formed PPU never overflows LY on a tick, stays well formed, and
/// keeps LY below 155.
pub proof fn lemma_tick_keeps_wf(ppu: PPU)
    requires
        ppu.wf(),
    ensures
        ppu.spec_tick_safe(),
        ppu.ly <= 154,
        ({
            let (mode, ly, wait) = spec_next_timing(ppu.spec_mode(), ppu.ly, ppu.mode_wait_cycles);
            &&& 0 <= ly <= 154
            &&& 0 <= wait <= vblank_dots()
            &&& match mode {
                PPUMode::OAMScan => ly < 144 && wait <= oam_scan_dots(),
                PPUMode::DrawingPixels => ly < 144 && wait <= drawing_dots(),
                PPUMode::HorizontalBlank => ly < 144 && wait <= hblank_dots(),
                PPUMode::VerticalBlank => wait <= vblank_dots() && ly == 154 - (wait + 1) / 456,
            }
        }),
{
}

/// A tick keeps a well-formed PPU well formed.
pub proof fn lemma_ticked_keeps_wf(before: PPU, after: PPU)
    requires
        before.wf(),
        after.spec_ticked_from(&before),
    ensures
        after.wf(),
{
    lemma_tick_keeps_wf(before);
}

} // verus!
