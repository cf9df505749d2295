//! The LCD control, LCD status and palette registers.
use vstd::prelude::*;
use crate::ppu::PPUMode;
use crate::bits::{bits8, put_bits8, get_bits8, set_bits8, lemma_put_bits8_frame, lemma_small_masks};

verus! {

/// A shade of grey, from white to black.
#[derive(Debug, Clone, Copy, PartialEq, Eq, Structural)]
pub enum GreyscaleColor {
    White,
    LightGrey,
    DarkGrey,
    Black,
}

impl View for GreyscaleColor {
    type V = u8;

    open spec fn view(&self) -> u8 {
        match self {
            GreyscaleColor::White => 0,
            GreyscaleColor::LightGrey => 1,
            GreyscaleColor::DarkGrey => 2,
            GreyscaleColor::Black => 3,
        }
    }
}

impl GreyscaleColor {
    /// The value with the given bits; any other bits give `White`.
    pub open spec fn spec_from_bits(bits: u8) -> GreyscaleColor {
        match bits {
            0 => GreyscaleColor::White,
            1 => GreyscaleColor::LightGrey,
            2 => GreyscaleColor::DarkGrey,
            3 => GreyscaleColor::Black,
            _ => GreyscaleColor::White,
        }
    }

    #[verifier::when_used_as_spec(spec_from_bits)]
    pub fn from_bits(bits: u8) -> (r: GreyscaleColor)
        ensures
            r == GreyscaleColor::spec_from_bits(bits),
    {
        match bits {
            0 => GreyscaleColor::White,
            1 => GreyscaleColor::LightGrey,
            2 => GreyscaleColor::DarkGrey,
            3 => GreyscaleColor::Black,
            _ => GreyscaleColor::White,
        }
    }

    pub fn into_bits(self) -> (r: u8)
        ensures
            r == self@,
    {
        match self {
            GreyscaleColor::White => 0,
            GreyscaleColor::LightGrey => 1,
            GreyscaleColor::DarkGrey => 2,
            GreyscaleColor::Black => 3,
        }
    }
}

/// LCDC: the LCD and PPU control bits.
#[derive(Debug, Clone, Copy, PartialEq, Eq, Structural)]
pub struct LCDControlRegister {
    bits: u8,
}

impl View for LCDControlRegister {
    type V = u8;

    closed spec fn view(&self) -> u8 {
        self.bits
    }
}

impl LCDControlRegister {
    /// The register holding exactly the given bits.
    pub closed spec fn spec_from_bits(bits: u8) -> LCDControlRegister {
        LCDControlRegister { bits }
    }

    pub open spec fn spec_bg_window_enable_priority(&self) -> bool {
        bits8(self@, 0, 1) == 1
    }

    pub open spec fn spec_with_bg_window_enable_priority(self, value: bool) -> LCDControlRegister {
        LCDControlRegister::spec_from_bits(put_bits8(self@, 0, 1, (if value { 1u8 } else { 0u8 })))
    }

    pub open spec fn spec_obj_enable(&self) -> bool {
        bits8(self@, 1, 1) == 1
    }

    pub open spec fn spec_with_obj_enable(self, value: bool) -> LCDControlRegister {
        LCDControlRegister::spec_from_bits(put_bits8(self@, 1, 1, (if value { 1u8 } else { 0u8 })))
    }

    pub open spec fn spec_obj_size(&self) -> bool {
        bits8(self@, 2, 1) == 1
    }

    pub open spec fn spec_with_obj_size(self, value: bool) -> LCDControlRegister {
        LCDControlRegister::spec_from_bits(put_bits8(self@, 2, 1, (if value { 1u8 } else { 0u8 })))
    }

    pub open spec fn spec_bg_tile_map(&self) -> bool {
        bits8(self@, 3, 1) == 1
    }

    pub open spec fn spec_with_bg_tile_map(self, value: bool) -> LCDControlRegister {
        LCDControlRegister::spec_from_bits(put_bits8(self@, 3, 1, (if value { 1u8 } else { 0u8 })))
    }

    pub open spec fn spec_bg_window_tiles(&self) -> bool {
        bits8(self@, 4, 1) == 1
    }

    pub open spec fn spec_with_bg_window_tiles(self, value: bool) -> LCDControlRegister {
        LCDControlRegister::spec_from_bits(put_bits8(self@, 4, 1, (if value { 1u8 } else { 0u8 })))
    }

    pub open spec fn spec_window_enable(&self) -> bool {
        bits8(self@, 5, 1) == 1
    }

    pub open spec fn spec_with_window_enable(self, value: bool) -> LCDControlRegister {
        LCDControlRegister::spec_from_bits(put_bits8(self@, 5, 1, (if value { 1u8 } else { 0u8 })))
    }

    pub open spec fn spec_window_tile_map(&self) -> bool {
        bits8(self@, 6, 1) == 1
    }

    pub open spec fn spec_with_window_tile_map(self, value: bool) -> LCDControlRegister {
        LCDControlRegister::spec_from_bits(put_bits8(self@, 6, 1, (if value { 1u8 } else { 0u8 })))
    }

    pub open spec fn spec_lcd_ppu_enable(&self) -> bool {
        bits8(self@, 7, 1) == 1
    }

    pub open spec fn spec_with_lcd_ppu_enable(self, value: bool) -> LCDControlRegister {
        LCDControlRegister::spec_from_bits(put_bits8(self@, 7, 1, (if value { 1u8 } else { 0u8 })))
    }

    /// The register with every bit clear.
    pub fn new() -> (r: LCDControlRegister)
        ensures
            r@ == 0,
    {
        LCDControlRegister { bits: 0 }
    }

    #[verifier::when_used_as_spec(spec_from_bits)]
    pub fn from_bits(bits: u8) -> (r: LCDControlRegister)
        ensures
            r@ == bits,
            r == LCDControlRegister::spec_from_bits(bits),
    {
        LCDControlRegister { bits }
    }

    pub fn into_bits(self) -> (r: u8)
        ensures
            r == self@,
    {
        self.bits
    }

    #[verifier::when_used_as_spec(spec_bg_window_enable_priority)]
    pub fn bg_window_enable_priority(&self) -> (r: bool)
        ensures
            r == self.spec_bg_window_enable_priority(),
    {
        get_bits8(self.bits, 0, 1) == 1
    }

    #[verifier::when_used_as_spec(spec_with_bg_window_enable_priority)]
    pub fn with_bg_window_enable_priority(self, value: bool) -> (r: LCDControlRegister)
        ensures
            r == self.spec_with_bg_window_enable_priority(value),
            r.spec_bg_window_enable_priority() == value,
            r.spec_obj_enable() == self.spec_obj_enable(),
            r.spec_obj_size() == self.spec_obj_size(),
            r.spec_bg_tile_map() == self.spec_bg_tile_map(),
            r.spec_bg_window_tiles() == self.spec_bg_window_tiles(),
            r.spec_window_enable() == self.spec_window_enable(),
            r.spec_window_tile_map() == self.spec_window_tile_map(),
            r.spec_lcd_ppu_enable() == self.spec_lcd_ppu_enable(),
    {
        proof {
            lemma_lcd_control_register_with_bg_window_enable_priority(self, value);
        }
        LCDControlRegister { bits: set_bits8(self.bits, 0, 1, if value { 1u8 } else { 0u8 }) }
    }

    pub fn set_bg_window_enable_priority(&mut self, value: bool)
        ensures
            *final(self) == old(self).spec_with_bg_window_enable_priority(value),
    {
        *self = self.with_bg_window_enable_priority(value);
    }

    #[verifier::when_used_as_spec(spec_obj_enable)]
    pub fn obj_enable(&self) -> (r: bool)
        ensures
            r == self.spec_obj_enable(),
    {
        get_bits8(self.bits, 1, 1) == 1
    }

    #[verifier::when_used_as_spec(spec_with_obj_enable)]
    pub fn with_obj_enable(self, value: bool) -> (r: LCDControlRegister)
        ensures
            r == self.spec_with_obj_enable(value),
            r.spec_obj_enable() == value,
            r.spec_bg_window_enable_priority() == self.spec_bg_window_enable_priority(),
            r.spec_obj_size() == self.spec_obj_size(),
            r.spec_bg_tile_map() == self.spec_bg_tile_map(),
            r.spec_bg_window_tiles() == self.spec_bg_window_tiles(),
            r.spec_window_enable() == self.spec_window_enable(),
            r.spec_window_tile_map() == self.spec_window_tile_map(),
            r.spec_lcd_ppu_enable() == self.spec_lcd_ppu_enable(),
    {
        proof {
            lemma_lcd_control_register_with_obj_enable(self, value);
        }
        LCDControlRegister { bits: set_bits8(self.bits, 1, 1, if value { 1u8 } else { 0u8 }) }
    }

    pub fn set_obj_enable(&mut self, value: bool)
        ensures
            *final(self) == old(self).spec_with_obj_enable(value),
    {
        *self = self.with_obj_enable(value);
    }

    #[verifier::when_used_as_spec(spec_obj_size)]
    pub fn obj_size(&self) -> (r: bool)
        ensures
            r == self.spec_obj_size(),
    {
        get_bits8(self.bits, 2, 1) == 1
    }

    #[verifier::when_used_as_spec(spec_with_obj_size)]
    pub fn with_obj_size(self, value: bool) -> (r: LCDControlRegister)
        ensures
            r == self.spec_with_obj_size(value),
            r.spec_obj_size() == value,
            r.spec_bg_window_enable_priority() == self.spec_bg_window_enable_priority(),
            r.spec_obj_enable() == self.spec_obj_enable(),
            r.spec_bg_tile_map() == self.spec_bg_tile_map(),
            r.spec_bg_window_tiles() == self.spec_bg_window_tiles(),
            r.spec_window_enable() == self.spec_window_enable(),
            r.spec_window_tile_map() == self.spec_window_tile_map(),
            r.spec_lcd_ppu_enable() == self.spec_lcd_ppu_enable(),
    {
        proof {
            lemma_lcd_control_register_with_obj_size(self, value);
        }
        LCDControlRegister { bits: set_bits8(self.bits, 2, 1, if value { 1u8 } else { 0u8 }) }
    }

    pub fn set_obj_size(&mut self, value: bool)
        ensures
            *final(self) == old(self).spec_with_obj_size(value),
    {
        *self = self.with_obj_size(value);
    }

    #[verifier::when_used_as_spec(spec_bg_tile_map)]
    pub fn bg_tile_map(&self) -> (r: bool)
        ensures
            r == self.spec_bg_tile_map(),
    {
        get_bits8(self.bits, 3, 1) == 1
    }

    #[verifier::when_used_as_spec(spec_with_bg_tile_map)]
    pub fn with_bg_tile_map(self, value: bool) -> (r: LCDControlRegister)
        ensures
            r == self.spec_with_bg_tile_map(value),
            r.spec_bg_tile_map() == value,
            r.spec_bg_window_enable_priority() == self.spec_bg_window_enable_priority(),
            r.spec_obj_enable() == self.spec_obj_enable(),
            r.spec_obj_size() == self.spec_obj_size(),
            r.spec_bg_window_tiles() == self.spec_bg_window_tiles(),
            r.spec_window_enable() == self.spec_window_enable(),
            r.spec_window_tile_map() == self.spec_window_tile_map(),
            r.spec_lcd_ppu_enable() == self.spec_lcd_ppu_enable(),
    {
        proof {
            lemma_lcd_control_register_with_bg_tile_map(self, value);
        }
        LCDControlRegister { bits: set_bits8(self.bits, 3, 1, if value { 1u8 } else { 0u8 }) }
    }

    pub fn set_bg_tile_map(&mut self, value: bool)
        ensures
            *final(self) == old(self).spec_with_bg_tile_map(value),
    {
        *self = self.with_bg_tile_map(value);
    }

    #[verifier::when_used_as_spec(spec_bg_window_tiles)]
    pub fn bg_window_tiles(&self) -> (r: bool)
        ensures
            r == self.spec_bg_window_tiles(),
    {
        get_bits8(self.bits, 4, 1) == 1
    }

    #[verifier::when_used_as_spec(spec_with_bg_window_tiles)]
    pub fn with_bg_window_tiles(self, value: bool) -> (r: LCDControlRegister)
        ensures
            r == self.spec_with_bg_window_tiles(value),
            r.spec_bg_window_tiles() == value,
            r.spec_bg_window_enable_priority() == self.spec_bg_window_enable_priority(),
            r.spec_obj_enable() == self.spec_obj_enable(),
            r.spec_obj_size() == self.spec_obj_size(),
            r.spec_bg_tile_map() == self.spec_bg_tile_map(),
            r.spec_window_enable() == self.spec_window_enable(),
            r.spec_window_tile_map() == self.spec_window_tile_map(),
            r.spec_lcd_ppu_enable() == self.spec_lcd_ppu_enable(),
    {
        proof {
            lemma_lcd_control_register_with_bg_window_tiles(self, value);
        }
        LCDControlRegister { bits: set_bits8(self.bits, 4, 1, if value { 1u8 } else { 0u8 }) }
    }

    pub fn set_bg_window_tiles(&mut self, value: bool)
        ensures
            *final(self) == old(self).spec_with_bg_window_tiles(value),
    {
        *self = self.with_bg_window_tiles(value);
    }

    #[verifier::when_used_as_spec(spec_window_enable)]
    pub fn window_enable(&self) -> (r: bool)
        ensures
            r == self.spec_window_enable(),
    {
        get_bits8(self.bits, 5, 1) == 1
    }

    #[verifier::when_used_as_spec(spec_with_window_enable)]
    pub fn with_window_enable(self, value: bool) -> (r: LCDControlRegister)
        ensures
            r == self.spec_with_window_enable(value),
            r.spec_window_enable() == value,
            r.spec_bg_window_enable_priority() == self.spec_bg_window_enable_priority(),
            r.spec_obj_enable() == self.spec_obj_enable(),
            r.spec_obj_size() == self.spec_obj_size(),
            r.spec_bg_tile_map() == self.spec_bg_tile_map(),
            r.spec_bg_window_tiles() == self.spec_bg_window_tiles(),
            r.spec_window_tile_map() == self.spec_window_tile_map(),
            r.spec_lcd_ppu_enable() == self.spec_lcd_ppu_enable(),
    {
        proof {
            lemma_lcd_control_register_with_window_enable(self, value);
        }
        LCDControlRegister { bits: set_bits8(self.bits, 5, 1, if value { 1u8 } else { 0u8 }) }
    }

    pub fn set_window_enable(&mut self, value: bool)
        ensures
            *final(self) == old(self).spec_with_window_enable(value),
    {
        *self = self.with_window_enable(value);
    }

    #[verifier::when_used_as_spec(spec_window_tile_map)]
    pub fn window_tile_map(&self) -> (r: bool)
        ensures
            r == self.spec_window_tile_map(),
    {
        get_bits8(self.bits, 6, 1) == 1
    }

    #[verifier::when_used_as_spec(spec_with_window_tile_map)]
    pub fn with_window_tile_map(self, value: bool) -> (r: LCDControlRegister)
        ensures
            r == self.spec_with_window_tile_map(value),
            r.spec_window_tile_map() == value,
            r.spec_bg_window_enable_priority() == self.spec_bg_window_enable_priority(),
            r.spec_obj_enable() == self.spec_obj_enable(),
            r.spec_obj_size() == self.spec_obj_size(),
            r.spec_bg_tile_map() == self.spec_bg_tile_map(),
            r.spec_bg_window_tiles() == self.spec_bg_window_tiles(),
            r.spec_window_enable() == self.spec_window_enable(),
            r.spec_lcd_ppu_enable() == self.spec_lcd_ppu_enable(),
    {
        proof {
            lemma_lcd_control_register_with_window_tile_map(self, value);
        }
        LCDControlRegister { bits: set_bits8(self.bits, 6, 1, if value { 1u8 } else { 0u8 }) }
    }

    pub fn set_window_tile_map(&mut self, value: bool)
        ensures
            *final(self) == old(self).spec_with_window_tile_map(value),
    {
        *self = self.with_window_tile_map(value);
    }

    #[verifier::when_used_as_spec(spec_lcd_ppu_enable)]
    pub fn lcd_ppu_enable(&self) -> (r: bool)
        ensures
            r == self.spec_lcd_ppu_enable(),
    {
        get_bits8(self.bits, 7, 1) == 1
    }

    #[verifier::when_used_as_spec(spec_with_lcd_ppu_enable)]
    pub fn with_lcd_ppu_enable(self, value: bool) -> (r: LCDControlRegister)
        ensures
            r == self.spec_with_lcd_ppu_enable(value),
            r.spec_lcd_ppu_enable() == value,
            r.spec_bg_window_enable_priority() == self.spec_bg_window_enable_priority(),
            r.spec_obj_enable() == self.spec_obj_enable(),
            r.spec_obj_size() == self.spec_obj_size(),
            r.spec_bg_tile_map() == self.spec_bg_tile_map(),
            r.spec_bg_window_tiles() == self.spec_bg_window_tiles(),
            r.spec_window_enable() == self.spec_window_enable(),
            r.spec_window_tile_map() == self.spec_window_tile_map(),
    {
        proof {
            lemma_lcd_control_register_with_lcd_ppu_enable(self, value);
        }
        LCDControlRegister { bits: set_bits8(self.bits, 7, 1, if value { 1u8 } else { 0u8 }) }
    }

    pub fn set_lcd_ppu_enable(&mut self, value: bool)
        ensures
            *final(self) == old(self).spec_with_lcd_ppu_enable(value),
    {
        *self = self.with_lcd_ppu_enable(value);
    }
}

/// The view of a register built from bits is those bits.
pub broadcast proof fn lemma_lcd_control_register_view(bits: u8)
    ensures
        #[trigger] LCDControlRegister::spec_from_bits(bits)@ == bits,
{
}

/// Two registers with the same bits are the same register.
pub broadcast proof fn lemma_lcd_control_register_from_own_bits(r: LCDControlRegister)
    ensures
        #[trigger] LCDControlRegister::spec_from_bits(r@) == r,
{
}

/// Replacing `bg_window_enable_priority` makes it read back as the new value and keeps every other field.
pub broadcast proof fn lemma_lcd_control_register_with_bg_window_enable_priority(r: LCDControlRegister, value: bool)
    ensures
        (#[trigger] r.spec_with_bg_window_enable_priority(value)).spec_bg_window_enable_priority() == value,
        r.spec_with_bg_window_enable_priority(value).spec_obj_enable() == r.spec_obj_enable(),
        r.spec_with_bg_window_enable_priority(value).spec_obj_size() == r.spec_obj_size(),
        r.spec_with_bg_window_enable_priority(value).spec_bg_tile_map() == r.spec_bg_tile_map(),
        r.spec_with_bg_window_enable_priority(value).spec_bg_window_tiles() == r.spec_bg_window_tiles(),
        r.spec_with_bg_window_enable_priority(value).spec_window_enable() == r.spec_window_enable(),
        r.spec_with_bg_window_enable_priority(value).spec_window_tile_map() == r.spec_window_tile_map(),
        r.spec_with_bg_window_enable_priority(value).spec_lcd_ppu_enable() == r.spec_lcd_ppu_enable(),
{
    lemma_small_masks();
    lemma_put_bits8_frame(r@, 0, 1, (if value { 1u8 } else { 0u8 }), 0, 1);
    lemma_put_bits8_frame(r@, 0, 1, (if value { 1u8 } else { 0u8 }), 1, 1);
    lemma_put_bits8_frame(r@, 0, 1, (if value { 1u8 } else { 0u8 }), 2, 1);
    lemma_put_bits8_frame(r@, 0, 1, (if value { 1u8 } else { 0u8 }), 3, 1);
    lemma_put_bits8_frame(r@, 0, 1, (if value { 1u8 } else { 0u8 }), 4, 1);
    lemma_put_bits8_frame(r@, 0, 1, (if value { 1u8 } else { 0u8 }), 5, 1);
    lemma_put_bits8_frame(r@, 0, 1, (if value { 1u8 } else { 0u8 }), 6, 1);
    lemma_put_bits8_frame(r@, 0, 1, (if value { 1u8 } else { 0u8 }), 7, 1);
}

/// Replacing `obj_enable` makes it read back as the new value and keeps every other field.
pub broadcast proof fn lemma_lcd_control_register_with_obj_enable(r: LCDControlRegister, value: bool)
    ensures
        (#[trigger] r.spec_with_obj_enable(value)).spec_obj_enable() == value,
        r.spec_with_obj_enable(value).spec_bg_window_enable_priority() == r.spec_bg_window_enable_priority(),
        r.spec_with_obj_enable(value).spec_obj_size() == r.spec_obj_size(),
        r.spec_with_obj_enable(value).spec_bg_tile_map() == r.spec_bg_tile_map(),
        r.spec_with_obj_enable(value).spec_bg_window_tiles() == r.spec_bg_window_tiles(),
        r.spec_with_obj_enable(value).spec_window_enable() == r.spec_window_enable(),
        r.spec_with_obj_enable(value).spec_window_tile_map() == r.spec_window_tile_map(),
        r.spec_with_obj_enable(value).spec_lcd_ppu_enable() == r.spec_lcd_ppu_enable(),
{
    lemma_small_masks();
    lemma_put_bits8_frame(r@, 1, 1, (if value { 1u8 } else { 0u8 }), 0, 1);
    lemma_put_bits8_frame(r@, 1, 1, (if value { 1u8 } else { 0u8 }), 1, 1);
    lemma_put_bits8_frame(r@, 1, 1, (if value { 1u8 } else { 0u8 }), 2, 1);
    lemma_put_bits8_frame(r@, 1, 1, (if value { 1u8 } else { 0u8 }), 3, 1);
    lemma_put_bits8_frame(r@, 1, 1, (if value { 1u8 } else { 0u8 }), 4, 1);
    lemma_put_bits8_frame(r@, 1, 1, (if value { 1u8 } else { 0u8 }), 5, 1);
    lemma_put_bits8_frame(r@, 1, 1, (if value { 1u8 } else { 0u8 }), 6, 1);
    lemma_put_bits8_frame(r@, 1, 1, (if value { 1u8 } else { 0u8 }), 7, 1);
}

/// Replacing `obj_size` makes it read back as the new value and keeps every other field.
pub broadcast proof fn lemma_lcd_control_register_with_obj_size(r: LCDControlRegister, value: bool)
    ensures
        (#[trigger] r.spec_with_obj_size(value)).spec_obj_size() == value,
        r.spec_with_obj_size(value).spec_bg_window_enable_priority() == r.spec_bg_window_enable_priority(),
        r.spec_with_obj_size(value).spec_obj_enable() == r.spec_obj_enable(),
        r.spec_with_obj_size(value).spec_bg_tile_map() == r.spec_bg_tile_map(),
        r.spec_with_obj_size(value).spec_bg_window_tiles() == r.spec_bg_window_tiles(),
        r.spec_with_obj_size(value).spec_window_enable() == r.spec_window_enable(),
        r.spec_with_obj_size(value).spec_window_tile_map() == r.spec_window_tile_map(),
        r.spec_with_obj_size(value).spec_lcd_ppu_enable() == r.spec_lcd_ppu_enable(),
{
    lemma_small_masks();
    lemma_put_bits8_frame(r@, 2, 1, (if value { 1u8 } else { 0u8 }), 0, 1);
    lemma_put_bits8_frame(r@, 2, 1, (if value { 1u8 } else { 0u8 }), 1, 1);
    lemma_put_bits8_frame(r@, 2, 1, (if value { 1u8 } else { 0u8 }), 2, 1);
    lemma_put_bits8_frame(r@, 2, 1, (if value { 1u8 } else { 0u8 }), 3, 1);
    lemma_put_bits8_frame(r@, 2, 1, (if value { 1u8 } else { 0u8 }), 4, 1);
    lemma_put_bits8_frame(r@, 2, 1, (if value { 1u8 } else { 0u8 }), 5, 1);
    lemma_put_bits8_frame(r@, 2, 1, (if value { 1u8 } else { 0u8 }), 6, 1);
    lemma_put_bits8_frame(r@, 2, 1, (if value { 1u8 } else { 0u8 }), 7, 1);
}

/// Replacing `bg_tile_map` makes it read back as the new value and keeps every other field.
pub broadcast proof fn lemma_lcd_control_register_with_bg_tile_map(r: LCDControlRegister, value: bool)
    ensures
        (#[trigger] r.spec_with_bg_tile_map(value)).spec_bg_tile_map() == value,
        r.spec_with_bg_tile_map(value).spec_bg_window_enable_priority() == r.spec_bg_window_enable_priority(),
        r.spec_with_bg_tile_map(value).spec_obj_enable() == r.spec_obj_enable(),
        r.spec_with_bg_tile_map(value).spec_obj_size() == r.spec_obj_size(),
        r.spec_with_bg_tile_map(value).spec_bg_window_tiles() == r.spec_bg_window_tiles(),
        r.spec_with_bg_tile_map(value).spec_window_enable() == r.spec_window_enable(),
        r.spec_with_bg_tile_map(value).spec_window_tile_map() == r.spec_window_tile_map(),
        r.spec_with_bg_tile_map(value).spec_lcd_ppu_enable() == r.spec_lcd_ppu_enable(),
{
    lemma_small_masks();
    lemma_put_bits8_frame(r@, 3, 1, (if value { 1u8 } else { 0u8 }), 0, 1);
    lemma_put_bits8_frame(r@, 3, 1, (if value { 1u8 } else { 0u8 }), 1, 1);
    lemma_put_bits8_frame(r@, 3, 1, (if value { 1u8 } else { 0u8 }), 2, 1);
    lemma_put_bits8_frame(r@, 3, 1, (if value { 1u8 } else { 0u8 }), 3, 1);
    lemma_put_bits8_frame(r@, 3, 1, (if value { 1u8 } else { 0u8 }), 4, 1);
    lemma_put_bits8_frame(r@, 3, 1, (if value { 1u8 } else { 0u8 }), 5, 1);
    lemma_put_bits8_frame(r@, 3, 1, (if value { 1u8 } else { 0u8 }), 6, 1);
    lemma_put_bits8_frame(r@, 3, 1, (if value { 1u8 } else { 0u8 }), 7, 1);
}

/// Replacing `bg_window_tiles` makes it read back as the new value and keeps every other field.
pub broadcast proof fn lemma_lcd_control_register_with_bg_window_tiles(r: LCDControlRegister, value: bool)
    ensures
        (#[trigger] r.spec_with_bg_window_tiles(value)).spec_bg_window_tiles() == value,
        r.spec_with_bg_window_tiles(value).spec_bg_window_enable_priority() == r.spec_bg_window_enable_priority(),
        r.spec_with_bg_window_tiles(value).spec_obj_enable() == r.spec_obj_enable(),
        r.spec_with_bg_window_tiles(value).spec_obj_size() == r.spec_obj_size(),
        r.spec_with_bg_window_tiles(value).spec_bg_tile_map() == r.spec_bg_tile_map(),
        r.spec_with_bg_window_tiles(value).spec_window_enable() == r.spec_window_enable(),
        r.spec_with_bg_window_tiles(value).spec_window_tile_map() == r.spec_window_tile_map(),
        r.spec_with_bg_window_tiles(value).spec_lcd_ppu_enable() == r.spec_lcd_ppu_enable(),
{
    lemma_small_masks();
    lemma_put_bits8_frame(r@, 4, 1, (if value { 1u8 } else { 0u8 }), 0, 1);
    lemma_put_bits8_frame(r@, 4, 1, (if value { 1u8 } else { 0u8 }), 1, 1);
    lemma_put_bits8_frame(r@, 4, 1, (if value { 1u8 } else { 0u8 }), 2, 1);
    lemma_put_bits8_frame(r@, 4, 1, (if value { 1u8 } else { 0u8 }), 3, 1);
    lemma_put_bits8_frame(r@, 4, 1, (if value { 1u8 } else { 0u8 }), 4, 1);
    lemma_put_bits8_frame(r@, 4, 1, (if value { 1u8 } else { 0u8 }), 5, 1);
    lemma_put_bits8_frame(r@, 4, 1, (if value { 1u8 } else { 0u8 }), 6, 1);
    lemma_put_bits8_frame(r@, 4, 1, (if value { 1u8 } else { 0u8 }), 7, 1);
}

/// Replacing `window_enable` makes it read back as the new value and keeps every other field.
pub broadcast proof fn lemma_lcd_control_register_with_window_enable(r: LCDControlRegister, value: bool)
    ensures
        (#[trigger] r.spec_with_window_enable(value)).spec_window_enable() == value,
        r.spec_with_window_enable(value).spec_bg_window_enable_priority() == r.spec_bg_window_enable_priority(),
        r.spec_with_window_enable(value).spec_obj_enable() == r.spec_obj_enable(),
        r.spec_with_window_enable(value).spec_obj_size() == r.spec_obj_size(),
        r.spec_with_window_enable(value).spec_bg_tile_map() == r.spec_bg_tile_map(),
        r.spec_with_window_enable(value).spec_bg_window_tiles() == r.spec_bg_window_tiles(),
        r.spec_with_window_enable(value).spec_window_tile_map() == r.spec_window_tile_map(),
        r.spec_with_window_enable(value).spec_lcd_ppu_enable() == r.spec_lcd_ppu_enable(),
{
    lemma_small_masks();
    lemma_put_bits8_frame(r@, 5, 1, (if value { 1u8 } else { 0u8 }), 0, 1);
    lemma_put_bits8_frame(r@, 5, 1, (if value { 1u8 } else { 0u8 }), 1, 1);
    lemma_put_bits8_frame(r@, 5, 1, (if value { 1u8 } else { 0u8 }), 2, 1);
    lemma_put_bits8_frame(r@, 5, 1, (if value { 1u8 } else { 0u8 }), 3, 1);
    lemma_put_bits8_frame(r@, 5, 1, (if value { 1u8 } else { 0u8 }), 4, 1);
    lemma_put_bits8_frame(r@, 5, 1, (if value { 1u8 } else { 0u8 }), 5, 1);
    lemma_put_bits8_frame(r@, 5, 1, (if value { 1u8 } else { 0u8 }), 6, 1);
    lemma_put_bits8_frame(r@, 5, 1, (if value { 1u8 } else { 0u8 }), 7, 1);
}

/// Replacing `window_tile_map` makes it read back as the new value and keeps every other field.
pub broadcast proof fn lemma_lcd_control_register_with_window_tile_map(r: LCDControlRegister, value: bool)
    ensures
        (#[trigger] r.spec_with_window_tile_map(value)).spec_window_tile_map() == value,
        r.spec_with_window_tile_map(value).spec_bg_window_enable_priority() == r.spec_bg_window_enable_priority(),
        r.spec_with_window_tile_map(value).spec_obj_enable() == r.spec_obj_enable(),
        r.spec_with_window_tile_map(value).spec_obj_size() == r.spec_obj_size(),
        r.spec_with_window_tile_map(value).spec_bg_tile_map() == r.spec_bg_tile_map(),
        r.spec_with_window_tile_map(value).spec_bg_window_tiles() == r.spec_bg_window_tiles(),
        r.spec_with_window_tile_map(value).spec_window_enable() == r.spec_window_enable(),
        r.spec_with_window_tile_map(value).spec_lcd_ppu_enable() == r.spec_lcd_ppu_enable(),
{
    lemma_small_masks();
    lemma_put_bits8_frame(r@, 6, 1, (if value { 1u8 } else { 0u8 }), 0, 1);
    lemma_put_bits8_frame(r@, 6, 1, (if value { 1u8 } else { 0u8 }), 1, 1);
    lemma_put_bits8_frame(r@, 6, 1, (if value { 1u8 } else { 0u8 }), 2, 1);
    lemma_put_bits8_frame(r@, 6, 1, (if value { 1u8 } else { 0u8 }), 3, 1);
    lemma_put_bits8_frame(r@, 6, 1, (if value { 1u8 } else { 0u8 }), 4, 1);
    lemma_put_bits8_frame(r@, 6, 1, (if value { 1u8 } else { 0u8 }), 5, 1);
    lemma_put_bits8_frame(r@, 6, 1, (if value { 1u8 } else { 0u8 }), 6, 1);
    lemma_put_bits8_frame(r@, 6, 1, (if value { 1u8 } else { 0u8 }), 7, 1);
}

/// Replacing `lcd_ppu_enable` makes it read back as the new value and keeps every other field.
pub broadcast proof fn lemma_lcd_control_register_with_lcd_ppu_enable(r: LCDControlRegister, value: bool)
    ensures
        (#[trigger] r.spec_with_lcd_ppu_enable(value)).spec_lcd_ppu_enable() == value,
        r.spec_with_lcd_ppu_enable(value).spec_bg_window_enable_priority() == r.spec_bg_window_enable_priority(),
        r.spec_with_lcd_ppu_enable(value).spec_obj_enable() == r.spec_obj_enable(),
        r.spec_with_lcd_ppu_enable(value).spec_obj_size() == r.spec_obj_size(),
        r.spec_with_lcd_ppu_enable(value).spec_bg_tile_map() == r.spec_bg_tile_map(),
        r.spec_with_lcd_ppu_enable(value).spec_bg_window_tiles() == r.spec_bg_window_tiles(),
        r.spec_with_lcd_ppu_enable(value).spec_window_enable() == r.spec_window_enable(),
        r.spec_with_lcd_ppu_enable(value).spec_window_tile_map() == r.spec_window_tile_map(),
{
    lemma_small_masks();
    lemma_put_bits8_frame(r@, 7, 1, (if value { 1u8 } else { 0u8 }), 0, 1);
    lemma_put_bits8_frame(r@, 7, 1, (if value { 1u8 } else { 0u8 }), 1, 1);
    lemma_put_bits8_frame(r@, 7, 1, (if value { 1u8 } else { 0u8 }), 2, 1);
    lemma_put_bits8_frame(r@, 7, 1, (if value { 1u8 } else { 0u8 }), 3, 1);
    lemma_put_bits8_frame(r@, 7, 1, (if value { 1u8 } else { 0u8 }), 4, 1);
    lemma_put_bits8_frame(r@, 7, 1, (if value { 1u8 } else { 0u8 }), 5, 1);
    lemma_put_bits8_frame(r@, 7, 1, (if value { 1u8 } else { 0u8 }), 6, 1);
    lemma_put_bits8_frame(r@, 7, 1, (if value { 1u8 } else { 0u8 }), 7, 1);
}

/// STAT: the PPU mode, the interrupt selects and the LY=LYC comparison.
#[derive(Debug, Clone, Copy, PartialEq, Eq, Structural)]
pub struct LCDStatusRegister {
    bits: u8,
}

impl View for LCDStatusRegister {
    type V = u8;

    closed spec fn view(&self) -> u8 {
        self.bits
    }
}

impl LCDStatusRegister {
    /// The register holding exactly the given bits.
    pub closed spec fn spec_from_bits(bits: u8) -> LCDStatusRegister {
        LCDStatusRegister { bits }
    }

    pub open spec fn spec_ppu_mode(&self) -> PPUMode {
        PPUMode::spec_from_bits(((bits8(self@, 0, 2)) as u8))
    }

    pub open spec fn spec_with_ppu_mode(self, value: PPUMode) -> LCDStatusRegister {
        LCDStatusRegister::spec_from_bits(put_bits8(self@, 0, 2, value@))
    }

    pub open spec fn spec_lyc_int_select(&self) -> bool {
        bits8(self@, 2, 1) == 1
    }

    pub open spec fn spec_with_lyc_int_select(self, value: bool) -> LCDStatusRegister {
        LCDStatusRegister::spec_from_bits(put_bits8(self@, 2, 1, (if value { 1u8 } else { 0u8 })))
    }

    pub open spec fn spec_mode0_int_select(&self) -> bool {
        bits8(self@, 3, 1) == 1
    }

    pub open spec fn spec_with_mode0_int_select(self, value: bool) -> LCDStatusRegister {
        LCDStatusRegister::spec_from_bits(put_bits8(self@, 3, 1, (if value { 1u8 } else { 0u8 })))
    }

    pub open spec fn spec_mode1_int_select(&self) -> bool {
        bits8(self@, 4, 1) == 1
    }

    pub open spec fn spec_with_mode1_int_select(self, value: bool) -> LCDStatusRegister {
        LCDStatusRegister::spec_from_bits(put_bits8(self@, 4, 1, (if value { 1u8 } else { 0u8 })))
    }

    pub open spec fn spec_mode2_int_select(&self) -> bool {
        bits8(self@, 5, 1) == 1
    }

    pub open spec fn spec_with_mode2_int_select(self, value: bool) -> LCDStatusRegister {
        LCDStatusRegister::spec_from_bits(put_bits8(self@, 5, 1, (if value { 1u8 } else { 0u8 })))
    }

    pub open spec fn spec_lyc_equals_ly(&self) -> bool {
        bits8(self@, 6, 1) == 1
    }

    pub open spec fn spec_with_lyc_equals_ly(self, value: bool) -> LCDStatusRegister {
        LCDStatusRegister::spec_from_bits(put_bits8(self@, 6, 1, (if value { 1u8 } else { 0u8 })))
    }

    /// The register with every bit clear.
    pub fn new() -> (r: LCDStatusRegister)
        ensures
            r@ == 0,
    {
        LCDStatusRegister { bits: 0 }
    }

    #[verifier::when_used_as_spec(spec_from_bits)]
    pub fn from_bits(bits: u8) -> (r: LCDStatusRegister)
        ensures
            r@ == bits,
            r == LCDStatusRegister::spec_from_bits(bits),
    {
        LCDStatusRegister { bits }
    }

    pub fn into_bits(self) -> (r: u8)
        ensures
            r == self@,
    {
        self.bits
    }

    #[verifier::when_used_as_spec(spec_ppu_mode)]
    pub fn ppu_mode(&self) -> (r: PPUMode)
        ensures
            r == self.spec_ppu_mode(),
    {
        PPUMode::from_bits((get_bits8(self.bits, 0, 2)) as u8)
    }

    #[verifier::when_used_as_spec(spec_with_ppu_mode)]
    pub fn with_ppu_mode(self, value: PPUMode) -> (r: LCDStatusRegister)
        ensures
            r == self.spec_with_ppu_mode(value),
            r.spec_ppu_mode() == value,
            r.spec_lyc_int_select() == self.spec_lyc_int_select(),
            r.spec_mode0_int_select() == self.spec_mode0_int_select(),
            r.spec_mode1_int_select() == self.spec_mode1_int_select(),
            r.spec_mode2_int_select() == self.spec_mode2_int_select(),
            r.spec_lyc_equals_ly() == self.spec_lyc_equals_ly(),
    {
        proof {
            lemma_lcd_status_register_with_ppu_mode(self, value);
        }
        LCDStatusRegister { bits: set_bits8(self.bits, 0, 2, value.into_bits()) }
    }

    pub fn set_ppu_mode(&mut self, value: PPUMode)
        ensures
            *final(self) == old(self).spec_with_ppu_mode(value),
    {
        *self = self.with_ppu_mode(value);
    }

    #[verifier::when_used_as_spec(spec_lyc_int_select)]
    pub fn lyc_int_select(&self) -> (r: bool)
        ensures
            r == self.spec_lyc_int_select(),
    {
        get_bits8(self.bits, 2, 1) == 1
    }

    #[verifier::when_used_as_spec(spec_with_lyc_int_select)]
    pub fn with_lyc_int_select(self, value: bool) -> (r: LCDStatusRegister)
        ensures
            r == self.spec_with_lyc_int_select(value),
            r.spec_lyc_int_select() == value,
            r.spec_ppu_mode() == self.spec_ppu_mode(),
            r.spec_mode0_int_select() == self.spec_mode0_int_select(),
            r.spec_mode1_int_select() == self.spec_mode1_int_select(),
            r.spec_mode2_int_select() == self.spec_mode2_int_select(),
            r.spec_lyc_equals_ly() == self.spec_lyc_equals_ly(),
    {
        proof {
            lemma_lcd_status_register_with_lyc_int_select(self, value);
        }
        LCDStatusRegister { bits: set_bits8(self.bits, 2, 1, if value { 1u8 } else { 0u8 }) }
    }

    pub fn set_lyc_int_select(&mut self, value: bool)
        ensures
            *final(self) == old(self).spec_with_lyc_int_select(value),
    {
        *self = self.with_lyc_int_select(value);
    }

    #[verifier::when_used_as_spec(spec_mode0_int_select)]
    pub fn mode0_int_select(&self) -> (r: bool)
        ensures
            r == self.spec_mode0_int_select(),
    {
        get_bits8(self.bits, 3, 1) == 1
    }

    #[verifier::when_used_as_spec(spec_with_mode0_int_select)]
    pub fn with_mode0_int_select(self, value: bool) -> (r: LCDStatusRegister)
        ensures
            r == self.spec_with_mode0_int_select(value),
            r.spec_mode0_int_select() == value,
            r.spec_ppu_mode() == self.spec_ppu_mode(),
            r.spec_lyc_int_select() == self.spec_lyc_int_select(),
            r.spec_mode1_int_select() == self.spec_mode1_int_select(),
            r.spec_mode2_int_select() == self.spec_mode2_int_select(),
            r.spec_lyc_equals_ly() == self.spec_lyc_equals_ly(),
    {
        proof {
            lemma_lcd_status_register_with_mode0_int_select(self, value);
        }
        LCDStatusRegister { bits: set_bits8(self.bits, 3, 1, if value { 1u8 } else { 0u8 }) }
    }

    pub fn set_mode0_int_select(&mut self, value: bool)
        ensures
            *final(self) == old(self).spec_with_mode0_int_select(value),
    {
        *self = self.with_mode0_int_select(value);
    }

    #[verifier::when_used_as_spec(spec_mode1_int_select)]
    pub fn mode1_int_select(&self) -> (r: bool)
        ensures
            r == self.spec_mode1_int_select(),
    {
        get_bits8(self.bits, 4, 1) == 1
    }

    #[verifier::when_used_as_spec(spec_with_mode1_int_select)]
    pub fn with_mode1_int_select(self, value: bool) -> (r: LCDStatusRegister)
        ensures
            r == self.spec_with_mode1_int_select(value),
            r.spec_mode1_int_select() == value,
            r.spec_ppu_mode() == self.spec_ppu_mode(),
            r.spec_lyc_int_select() == self.spec_lyc_int_select(),
            r.spec_mode0_int_select() == self.spec_mode0_int_select(),
            r.spec_mode2_int_select() == self.spec_mode2_int_select(),
            r.spec_lyc_equals_ly() == self.spec_lyc_equals_ly(),
    {
        proof {
            lemma_lcd_status_register_with_mode1_int_select(self, value);
        }
        LCDStatusRegister { bits: set_bits8(self.bits, 4, 1, if value { 1u8 } else { 0u8 }) }
    }

    pub fn set_mode1_int_select(&mut self, value: bool)
        ensures
            *final(self) == old(self).spec_with_mode1_int_select(value),
    {
        *self = self.with_mode1_int_select(value);
    }

    #[verifier::when_used_as_spec(spec_mode2_int_select)]
    pub fn mode2_int_select(&self) -> (r: bool)
        ensures
            r == self.spec_mode2_int_select(),
    {
        get_bits8(self.bits, 5, 1) == 1
    }

    #[verifier::when_used_as_spec(spec_with_mode2_int_select)]
    pub fn with_mode2_int_select(self, value: bool) -> (r: LCDStatusRegister)
        ensures
            r == self.spec_with_mode2_int_select(value),
            r.spec_mode2_int_select() == value,
            r.spec_ppu_mode() == self.spec_ppu_mode(),
            r.spec_lyc_int_select() == self.spec_lyc_int_select(),
            r.spec_mode0_int_select() == self.spec_mode0_int_select(),
            r.spec_mode1_int_select() == self.spec_mode1_int_select(),
            r.spec_lyc_equals_ly() == self.spec_lyc_equals_ly(),
    {
        proof {
            lemma_lcd_status_register_with_mode2_int_select(self, value);
        }
        LCDStatusRegister { bits: set_bits8(self.bits, 5, 1, if value { 1u8 } else { 0u8 }) }
    }

    pub fn set_mode2_int_select(&mut self, value: bool)
        ensures
            *final(self) == old(self).spec_with_mode2_int_select(value),
    {
        *self = self.with_mode2_int_select(value);
    }

    #[verifier::when_used_as_spec(spec_lyc_equals_ly)]
    pub fn lyc_equals_ly(&self) -> (r: bool)
        ensures
            r == self.spec_lyc_equals_ly(),
    {
        get_bits8(self.bits, 6, 1) == 1
    }

    #[verifier::when_used_as_spec(spec_with_lyc_equals_ly)]
    pub fn with_lyc_equals_ly(self, value: bool) -> (r: LCDStatusRegister)
        ensures
            r == self.spec_with_lyc_equals_ly(value),
            r.spec_lyc_equals_ly() == value,
            r.spec_ppu_mode() == self.spec_ppu_mode(),
            r.spec_lyc_int_select() == self.spec_lyc_int_select(),
            r.spec_mode0_int_select() == self.spec_mode0_int_select(),
            r.spec_mode1_int_select() == self.spec_mode1_int_select(),
            r.spec_mode2_int_select() == self.spec_mode2_int_select(),
    {
        proof {
            lemma_lcd_status_register_with_lyc_equals_ly(self, value);
        }
        LCDStatusRegister { bits: set_bits8(self.bits, 6, 1, if value { 1u8 } else { 0u8 }) }
    }

    pub fn set_lyc_equals_ly(&mut self, value: bool)
        ensures
            *final(self) == old(self).spec_with_lyc_equals_ly(value),
    {
        *self = self.with_lyc_equals_ly(value);
    }
}

/// The view of a register built from bits is those bits.
pub broadcast proof fn lemma_lcd_status_register_view(bits: u8)
    ensures
        #[trigger] LCDStatusRegister::spec_from_bits(bits)@ == bits,
{
}

/// Two registers with the same bits are the same register.
pub broadcast proof fn lemma_lcd_status_register_from_own_bits(r: LCDStatusRegister)
    ensures
        #[trigger] LCDStatusRegister::spec_from_bits(r@) == r,
{
}

/// Replacing `ppu_mode` makes it read back as the new value and keeps every other field.
pub broadcast proof fn lemma_lcd_status_register_with_ppu_mode(r: LCDStatusRegister, value: PPUMode)
    ensures
        (#[trigger] r.spec_with_ppu_mode(value)).spec_ppu_mode() == value,
        r.spec_with_ppu_mode(value).spec_lyc_int_select() == r.spec_lyc_int_select(),
        r.spec_with_ppu_mode(value).spec_mode0_int_select() == r.spec_mode0_int_select(),
        r.spec_with_ppu_mode(value).spec_mode1_int_select() == r.spec_mode1_int_select(),
        r.spec_with_ppu_mode(value).spec_mode2_int_select() == r.spec_mode2_int_select(),
        r.spec_with_ppu_mode(value).spec_lyc_equals_ly() == r.spec_lyc_equals_ly(),
{
    lemma_small_masks();
    lemma_put_bits8_frame(r@, 0, 2, value@, 0, 2);
    lemma_put_bits8_frame(r@, 0, 2, value@, 2, 1);
    lemma_put_bits8_frame(r@, 0, 2, value@, 3, 1);
    lemma_put_bits8_frame(r@, 0, 2, value@, 4, 1);
    lemma_put_bits8_frame(r@, 0, 2, value@, 5, 1);
    lemma_put_bits8_frame(r@, 0, 2, value@, 6, 1);
}

/// Replacing `lyc_int_select` makes it read back as the new value and keeps every other field.
pub broadcast proof fn lemma_lcd_status_register_with_lyc_int_select(r: LCDStatusRegister, value: bool)
    ensures
        (#[trigger] r.spec_with_lyc_int_select(value)).spec_lyc_int_select() == value,
        r.spec_with_lyc_int_select(value).spec_ppu_mode() == r.spec_ppu_mode(),
        r.spec_with_lyc_int_select(value).spec_mode0_int_select() == r.spec_mode0_int_select(),
        r.spec_with_lyc_int_select(value).spec_mode1_int_select() == r.spec_mode1_int_select(),
        r.spec_with_lyc_int_select(value).spec_mode2_int_select() == r.spec_mode2_int_select(),
        r.spec_with_lyc_int_select(value).spec_lyc_equals_ly() == r.spec_lyc_equals_ly(),
{
    lemma_small_masks();
    lemma_put_bits8_frame(r@, 2, 1, (if value { 1u8 } else { 0u8 }), 0, 2);
    lemma_put_bits8_frame(r@, 2, 1, (if value { 1u8 } else { 0u8 }), 2, 1);
    lemma_put_bits8_frame(r@, 2, 1, (if value { 1u8 } else { 0u8 }), 3, 1);
    lemma_put_bits8_frame(r@, 2, 1, (if value { 1u8 } else { 0u8 }), 4, 1);
    lemma_put_bits8_frame(r@, 2, 1, (if value { 1u8 } else { 0u8 }), 5, 1);
    lemma_put_bits8_frame(r@, 2, 1, (if value { 1u8 } else { 0u8 }), 6, 1);
}

/// Replacing `mode0_int_select` makes it read back as the new value and keeps every other field.
pub broadcast proof fn lemma_lcd_status_register_with_mode0_int_select(r: LCDStatusRegister, value: bool)
    ensures
        (#[trigger] r.spec_with_mode0_int_select(value)).spec_mode0_int_select() == value,
        r.spec_with_mode0_int_select(value).spec_ppu_mode() == r.spec_ppu_mode(),
        r.spec_with_mode0_int_select(value).spec_lyc_int_select() == r.spec_lyc_int_select(),
        r.spec_with_mode0_int_select(value).spec_mode1_int_select() == r.spec_mode1_int_select(),
        r.spec_with_mode0_int_select(value).spec_mode2_int_select() == r.spec_mode2_int_select(),
        r.spec_with_mode0_int_select(value).spec_lyc_equals_ly() == r.spec_lyc_equals_ly(),
{
    lemma_small_masks();
    lemma_put_bits8_frame(r@, 3, 1, (if value { 1u8 } else { 0u8 }), 0, 2);
    lemma_put_bits8_frame(r@, 3, 1, (if value { 1u8 } else { 0u8 }), 2, 1);
    lemma_put_bits8_frame(r@, 3, 1, (if value { 1u8 } else { 0u8 }), 3, 1);
    lemma_put_bits8_frame(r@, 3, 1, (if value { 1u8 } else { 0u8 }), 4, 1);
    lemma_put_bits8_frame(r@, 3, 1, (if value { 1u8 } else { 0u8 }), 5, 1);
    lemma_put_bits8_frame(r@, 3, 1, (if value { 1u8 } else { 0u8 }), 6, 1);
}

/// Replacing `mode1_int_select` makes it read back as the new value and keeps every other field.
pub broadcast proof fn lemma_lcd_status_register_with_mode1_int_select(r: LCDStatusRegister, value: bool)
    ensures
        (#[trigger] r.spec_with_mode1_int_select(value)).spec_mode1_int_select() == value,
        r.spec_with_mode1_int_select(value).spec_ppu_mode() == r.spec_ppu_mode(),
        r.spec_with_mode1_int_select(value).spec_lyc_int_select() == r.spec_lyc_int_select(),
        r.spec_with_mode1_int_select(value).spec_mode0_int_select() == r.spec_mode0_int_select(),
        r.spec_with_mode1_int_select(value).spec_mode2_int_select() == r.spec_mode2_int_select(),
        r.spec_with_mode1_int_select(value).spec_lyc_equals_ly() == r.spec_lyc_equals_ly(),
{
    lemma_small_masks();
    lemma_put_bits8_frame(r@, 4, 1, (if value { 1u8 } else { 0u8 }), 0, 2);
    lemma_put_bits8_frame(r@, 4, 1, (if value { 1u8 } else { 0u8 }), 2, 1);
    lemma_put_bits8_frame(r@, 4, 1, (if value { 1u8 } else { 0u8 }), 3, 1);
    lemma_put_bits8_frame(r@, 4, 1, (if value { 1u8 } else { 0u8 }), 4, 1);
    lemma_put_bits8_frame(r@, 4, 1, (if value { 1u8 } else { 0u8 }), 5, 1);
    lemma_put_bits8_frame(r@, 4, 1, (if value { 1u8 } else { 0u8 }), 6, 1);
}

/// Replacing `mode2_int_select` makes it read back as the new value and keeps every other field.
pub broadcast proof fn lemma_lcd_status_register_with_mode2_int_select(r: LCDStatusRegister, value: bool)
    ensures
        (#[trigger] r.spec_with_mode2_int_select(value)).spec_mode2_int_select() == value,
        r.spec_with_mode2_int_select(value).spec_ppu_mode() == r.spec_ppu_mode(),
        r.spec_with_mode2_int_select(value).spec_lyc_int_select() == r.spec_lyc_int_select(),
        r.spec_with_mode2_int_select(value).spec_mode0_int_select() == r.spec_mode0_int_select(),
        r.spec_with_mode2_int_select(value).spec_mode1_int_select() == r.spec_mode1_int_select(),
        r.spec_with_mode2_int_select(value).spec_lyc_equals_ly() == r.spec_lyc_equals_ly(),
{
    lemma_small_masks();
    lemma_put_bits8_frame(r@, 5, 1, (if value { 1u8 } else { 0u8 }), 0, 2);
    lemma_put_bits8_frame(r@, 5, 1, (if value { 1u8 } else { 0u8 }), 2, 1);
    lemma_put_bits8_frame(r@, 5, 1, (if value { 1u8 } else { 0u8 }), 3, 1);
    lemma_put_bits8_frame(r@, 5, 1, (if value { 1u8 } else { 0u8 }), 4, 1);
    lemma_put_bits8_frame(r@, 5, 1, (if value { 1u8 } else { 0u8 }), 5, 1);
    lemma_put_bits8_frame(r@, 5, 1, (if value { 1u8 } else { 0u8 }), 6, 1);
}

/// Replacing `lyc_equals_ly` makes it read back as the new value and keeps every other field.
pub broadcast proof fn lemma_lcd_status_register_with_lyc_equals_ly(r: LCDStatusRegister, value: bool)
    ensures
        (#[trigger] r.spec_with_lyc_equals_ly(value)).spec_lyc_equals_ly() == value,
        r.spec_with_lyc_equals_ly(value).spec_ppu_mode() == r.spec_ppu_mode(),
        r.spec_with_lyc_equals_ly(value).spec_lyc_int_select() == r.spec_lyc_int_select(),
        r.spec_with_lyc_equals_ly(value).spec_mode0_int_select() == r.spec_mode0_int_select(),
        r.spec_with_lyc_equals_ly(value).spec_mode1_int_select() == r.spec_mode1_int_select(),
        r.spec_with_lyc_equals_ly(value).spec_mode2_int_select() == r.spec_mode2_int_select(),
{
    lemma_small_masks();
    lemma_put_bits8_frame(r@, 6, 1, (if value { 1u8 } else { 0u8 }), 0, 2);
    lemma_put_bits8_frame(r@, 6, 1, (if value { 1u8 } else { 0u8 }), 2, 1);
    lemma_put_bits8_frame(r@, 6, 1, (if value { 1u8 } else { 0u8 }), 3, 1);
    lemma_put_bits8_frame(r@, 6, 1, (if value { 1u8 } else { 0u8 }), 4, 1);
    lemma_put_bits8_frame(r@, 6, 1, (if value { 1u8 } else { 0u8 }), 5, 1);
    lemma_put_bits8_frame(r@, 6, 1, (if value { 1u8 } else { 0u8 }), 6, 1);
}

/// BGP, OBP0, OBP1: the shade of each of the four colour indices.
#[derive(Debug, Clone, Copy, PartialEq, Eq, Structural)]
pub struct GreyscalePaletteData {
    bits: u8,
}

impl View for GreyscalePaletteData {
    type V = u8;

    closed spec fn view(&self) -> u8 {
        self.bits
    }
}

impl GreyscalePaletteData {
    /// The register holding exactly the given bits.
    pub closed spec fn spec_from_bits(bits: u8) -> GreyscalePaletteData {
        GreyscalePaletteData { bits }
    }

    pub open spec fn spec_color0(&self) -> GreyscaleColor {
        GreyscaleColor::spec_from_bits(((bits8(self@, 0, 2)) as u8))
    }

    pub open spec fn spec_with_color0(self, value: GreyscaleColor) -> GreyscalePaletteData {
        GreyscalePaletteData::spec_from_bits(put_bits8(self@, 0, 2, value@))
    }

    pub open spec fn spec_color1(&self) -> GreyscaleColor {
        GreyscaleColor::spec_from_bits(((bits8(self@, 2, 2)) as u8))
    }

    pub open spec fn spec_with_color1(self, value: GreyscaleColor) -> GreyscalePaletteData {
        GreyscalePaletteData::spec_from_bits(put_bits8(self@, 2, 2, value@))
    }

    pub open spec fn spec_color2(&self) -> GreyscaleColor {
        GreyscaleColor::spec_from_bits(((bits8(self@, 4, 2)) as u8))
    }

    pub open spec fn spec_with_color2(self, value: GreyscaleColor) -> GreyscalePaletteData {
        GreyscalePaletteData::spec_from_bits(put_bits8(self@, 4, 2, value@))
    }

    pub open spec fn spec_color3(&self) -> GreyscaleColor {
        GreyscaleColor::spec_from_bits(((bits8(self@, 6, 2)) as u8))
    }

    pub open spec fn spec_with_color3(self, value: GreyscaleColor) -> GreyscalePaletteData {
        GreyscalePaletteData::spec_from_bits(put_bits8(self@, 6, 2, value@))
    }

    /// The register with every bit clear.
    pub fn new() -> (r: GreyscalePaletteData)
        ensures
            r@ == 0,
    {
        GreyscalePaletteData { bits: 0 }
    }

    #[verifier::when_used_as_spec(spec_from_bits)]
    pub fn from_bits(bits: u8) -> (r: GreyscalePaletteData)
        ensures
            r@ == bits,
            r == GreyscalePaletteData::spec_from_bits(bits),
    {
        GreyscalePaletteData { bits }
    }

    pub fn into_bits(self) -> (r: u8)
        ensures
            r == self@,
    {
        self.bits
    }

    #[verifier::when_used_as_spec(spec_color0)]
    pub fn color0(&self) -> (r: GreyscaleColor)
        ensures
            r == self.spec_color0(),
    {
        GreyscaleColor::from_bits((get_bits8(self.bits, 0, 2)) as u8)
    }

    #[verifier::when_used_as_spec(spec_with_color0)]
    pub fn with_color0(self, value: GreyscaleColor) -> (r: GreyscalePaletteData)
        ensures
            r == self.spec_with_color0(value),
            r.spec_color0() == value,
            r.spec_color1() == self.spec_color1(),
            r.spec_color2() == self.spec_color2(),
            r.spec_color3() == self.spec_color3(),
    {
        proof {
            lemma_greyscale_palette_data_with_color0(self, value);
        }
        GreyscalePaletteData { bits: set_bits8(self.bits, 0, 2, value.into_bits()) }
    }

    pub fn set_color0(&mut self, value: GreyscaleColor)
        ensures
            *final(self) == old(self).spec_with_color0(value),
    {
        *self = self.with_color0(value);
    }

    #[verifier::when_used_as_spec(spec_color1)]
    pub fn color1(&self) -> (r: GreyscaleColor)
        ensures
            r == self.spec_color1(),
    {
        GreyscaleColor::from_bits((get_bits8(self.bits, 2, 2)) as u8)
    }

    #[verifier::when_used_as_spec(spec_with_color1)]
    pub fn with_color1(self, value: GreyscaleColor) -> (r: GreyscalePaletteData)
        ensures
            r == self.spec_with_color1(value),
            r.spec_color1() == value,
            r.spec_color0() == self.spec_color0(),
            r.spec_color2() == self.spec_color2(),
            r.spec_color3() == self.spec_color3(),
    {
        proof {
            lemma_greyscale_palette_data_with_color1(self, value);
        }
        GreyscalePaletteData { bits: set_bits8(self.bits, 2, 2, value.into_bits()) }
    }

    pub fn set_color1(&mut self, value: GreyscaleColor)
        ensures
            *final(self) == old(self).spec_with_color1(value),
    {
        *self = self.with_color1(value);
    }

    #[verifier::when_used_as_spec(spec_color2)]
    pub fn color2(&self) -> (r: GreyscaleColor)
        ensures
            r == self.spec_color2(),
    {
        GreyscaleColor::from_bits((get_bits8(self.bits, 4, 2)) as u8)
    }

    #[verifier::when_used_as_spec(spec_with_color2)]
    pub fn with_color2(self, value: GreyscaleColor) -> (r: GreyscalePaletteData)
        ensures
            r == self.spec_with_color2(value),
            r.spec_color2() == value,
            r.spec_color0() == self.spec_color0(),
            r.spec_color1() == self.spec_color1(),
            r.spec_color3() == self.spec_color3(),
    {
        proof {
            lemma_greyscale_palette_data_with_color2(self, value);
        }
        GreyscalePaletteData { bits: set_bits8(self.bits, 4, 2, value.into_bits()) }
    }

    pub fn set_color2(&mut self, value: GreyscaleColor)
        ensures
            *final(self) == old(self).spec_with_color2(value),
    {
        *self = self.with_color2(value);
    }

    #[verifier::when_used_as_spec(spec_color3)]
    pub fn color3(&self) -> (r: GreyscaleColor)
        ensures
            r == self.spec_color3(),
    {
        GreyscaleColor::from_bits((get_bits8(self.bits, 6, 2)) as u8)
    }

    #[verifier::when_used_as_spec(spec_with_color3)]
    pub fn with_color3(self, value: GreyscaleColor) -> (r: GreyscalePaletteData)
        ensures
            r == self.spec_with_color3(value),
            r.spec_color3() == value,
            r.spec_color0() == self.spec_color0(),
            r.spec_color1() == self.spec_color1(),
            r.spec_color2() == self.spec_color2(),
    {
        proof {
            lemma_greyscale_palette_data_with_color3(self, value);
        }
        GreyscalePaletteData { bits: set_bits8(self.bits, 6, 2, value.into_bits()) }
    }

    pub fn set_color3(&mut self, value: GreyscaleColor)
        ensures
            *final(self) == old(self).spec_with_color3(value),
    {
        *self = self.with_color3(value);
    }
}

/// The view of a register built from bits is those bits.
pub broadcast proof fn lemma_greyscale_palette_data_view(bits: u8)
    ensures
        #[trigger] GreyscalePaletteData::spec_from_bits(bits)@ == bits,
{
}

/// Two registers with the same bits are the same register.
pub broadcast proof fn lemma_greyscale_palette_data_from_own_bits(r: GreyscalePaletteData)
    ensures
        #[trigger] GreyscalePaletteData::spec_from_bits(r@) == r,
{
}

/// Replacing `color0` makes it read back as the new value and keeps every other field.
pub broadcast proof fn lemma_greyscale_palette_data_with_color0(r: GreyscalePaletteData, value: GreyscaleColor)
    ensures
        (#[trigger] r.spec_with_color0(value)).spec_color0() == value,
        r.spec_with_color0(value).spec_color1() == r.spec_color1(),
        r.spec_with_color0(value).spec_color2() == r.spec_color2(),
        r.spec_with_color0(value).spec_color3() == r.spec_color3(),
{
    lemma_small_masks();
    lemma_put_bits8_frame(r@, 0, 2, value@, 0, 2);
    lemma_put_bits8_frame(r@, 0, 2, value@, 2, 2);
    lemma_put_bits8_frame(r@, 0, 2, value@, 4, 2);
    lemma_put_bits8_frame(r@, 0, 2, value@, 6, 2);
}

/// Replacing `color1` makes it read back as the new value and keeps every other field.
pub broadcast proof fn lemma_greyscale_palette_data_with_color1(r: GreyscalePaletteData, value: GreyscaleColor)
    ensures
        (#[trigger] r.spec_with_color1(value)).spec_color1() == value,
        r.spec_with_color1(value).spec_color0() == r.spec_color0(),
        r.spec_with_color1(value).spec_color2() == r.spec_color2(),
        r.spec_with_color1(value).spec_color3() == r.spec_color3(),
{
    lemma_small_masks();
    lemma_put_bits8_frame(r@, 2, 2, value@, 0, 2);
    lemma_put_bits8_frame(r@, 2, 2, value@, 2, 2);
    lemma_put_bits8_frame(r@, 2, 2, value@, 4, 2);
    lemma_put_bits8_frame(r@, 2, 2, value@, 6, 2);
}

/// Replacing `color2` makes it read back as the new value and keeps every other field.
pub broadcast proof fn lemma_greyscale_palette_data_with_color2(r: GreyscalePaletteData, value: GreyscaleColor)
    ensures
        (#[trigger] r.spec_with_color2(value)).spec_color2() == value,
        r.spec_with_color2(value).spec_color0() == r.spec_color0(),
        r.spec_with_color2(value).spec_color1() == r.spec_color1(),
        r.spec_with_color2(value).spec_color3() == r.spec_color3(),
{
    lemma_small_masks();
    lemma_put_bits8_frame(r@, 4, 2, value@, 0, 2);
    lemma_put_bits8_frame(r@, 4, 2, value@, 2, 2);
    lemma_put_bits8_frame(r@, 4, 2, value@, 4, 2);
    lemma_put_bits8_frame(r@, 4, 2, value@, 6, 2);
}

/// Replacing `color3` makes it read back as the new value and keeps every other field.
pub broadcast proof fn lemma_greyscale_palette_data_with_color3(r: GreyscalePaletteData, value: GreyscaleColor)
    ensures
        (#[trigger] r.spec_with_color3(value)).spec_color3() == value,
        r.spec_with_color3(value).spec_color0() == r.spec_color0(),
        r.spec_with_color3(value).spec_color1() == r.spec_color1(),
        r.spec_with_color3(value).spec_color2() == r.spec_color2(),
{
    lemma_small_masks();
    lemma_put_bits8_frame(r@, 6, 2, value@, 0, 2);
    lemma_put_bits8_frame(r@, 6, 2, value@, 2, 2);
    lemma_put_bits8_frame(r@, 6, 2, value@, 4, 2);
    lemma_put_bits8_frame(r@, 6, 2, value@, 6, 2);
}

pub broadcast group group_ppu_register_views {
    lemma_lcd_control_register_view,
    lemma_lcd_control_register_from_own_bits,
    lemma_lcd_control_register_with_bg_window_enable_priority,
    lemma_lcd_control_register_with_obj_enable,
    lemma_lcd_control_register_with_obj_size,
    lemma_lcd_control_register_with_bg_tile_map,
    lemma_lcd_control_register_with_bg_window_tiles,
    lemma_lcd_control_register_with_window_enable,
    lemma_lcd_control_register_with_window_tile_map,
    lemma_lcd_control_register_with_lcd_ppu_enable,
    lemma_lcd_status_register_view,
    lemma_lcd_status_register_from_own_bits,
    lemma_lcd_status_register_with_ppu_mode,
    lemma_lcd_status_register_with_lyc_int_select,
    lemma_lcd_status_register_with_mode0_int_select,
    lemma_lcd_status_register_with_mode1_int_select,
    lemma_lcd_status_register_with_mode2_int_select,
    lemma_lcd_status_register_with_lyc_equals_ly,
    lemma_greyscale_palette_data_view,
    lemma_greyscale_palette_data_from_own_bits,
    lemma_greyscale_palette_data_with_color0,
    lemma_greyscale_palette_data_with_color1,
    lemma_greyscale_palette_data_with_color2,
    lemma_greyscale_palette_data_with_color3,
}

impl LCDStatusRegister {
    /// The register after a write from the bus: only the four interrupt
    /// selects are taken from `value`; the mode and the LY=LYC bit are kept.
    pub open spec fn spec_write_from_bus(&self, value: LCDStatusRegister) -> LCDStatusRegister {
        self.spec_with_lyc_int_select(value.spec_lyc_int_select())
            .spec_with_mode0_int_select(value.spec_mode0_int_select())
            .spec_with_mode1_int_select(value.spec_mode1_int_select())
            .spec_with_mode2_int_select(value.spec_mode2_int_select())
    }

    pub fn write_from_bus(&self, value: LCDStatusRegister) -> (r: LCDStatusRegister)
        ensures
            r == self.spec_write_from_bus(value),
            r.ppu_mode() == self.ppu_mode(),
            r.lyc_equals_ly() == self.lyc_equals_ly(),
            r.lyc_int_select() == value.lyc_int_select(),
            r.mode0_int_select() == value.mode0_int_select(),
            r.mode1_int_select() == value.mode1_int_select(),
            r.mode2_int_select() == value.mode2_int_select(),
    {
        self.with_lyc_int_select(value.lyc_int_select())
            .with_mode0_int_select(value.mode0_int_select())
            .with_mode1_int_select(value.mode1_int_select())
            .with_mode2_int_select(value.mode2_int_select())
    }
}

/// A write to the status register from the bus never changes the PPU mode nor
/// the LY=LYC bit, and takes exactly the four interrupt selects from the value.
pub proof fn lemma_status_write_keeps_mode(status: LCDStatusRegister, value: LCDStatusRegister)
    ensures
        status.spec_write_from_bus(value).spec_ppu_mode() == status.spec_ppu_mode(),
        status.spec_write_from_bus(value).spec_lyc_equals_ly() == status.spec_lyc_equals_ly(),
        status.spec_write_from_bus(value).spec_lyc_int_select() == value.spec_lyc_int_select(),
        status.spec_write_from_bus(value).spec_mode0_int_select() == value.spec_mode0_int_select(),
        status.spec_write_from_bus(value).spec_mode1_int_select() == value.spec_mode1_int_select(),
        status.spec_write_from_bus(value).spec_mode2_int_select() == value.spec_mode2_int_select(),
{
    let s1 = status.spec_with_lyc_int_select(value.spec_lyc_int_select());
    let s2 = s1.spec_with_mode0_int_select(value.spec_mode0_int_select());
    let s3 = s2.spec_with_mode1_int_select(value.spec_mode1_int_select());
    lemma_lcd_status_register_with_lyc_int_select(status, value.spec_lyc_int_select());
    lemma_lcd_status_register_with_mode0_int_select(s1, value.spec_mode0_int_select());
    lemma_lcd_status_register_with_mode1_int_select(s2, value.spec_mode1_int_select());
    lemma_lcd_status_register_with_mode2_int_select(s3, value.spec_mode2_int_select());
}

/// Each mode's bits fit the two-bit mode field and read back as that mode.
pub proof fn lemma_small_mode_views()
    ensures
        forall|m: PPUMode| #[trigger] m@ <= 3 && PPUMode::spec_from_bits(m@) == m,
{
}

} // verus!
