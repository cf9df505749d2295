//! Object attribute memory entries.
use vstd::prelude::*;
use crate::bits::{bits8, put_bits8, get_bits8, set_bits8, lemma_put_bits8_frame, lemma_small_masks};

verus! {

/// The attribute byte of an object: palettes, bank, flips and priority.
#[derive(Debug, Clone, Copy, PartialEq, Eq, Structural)]
pub struct OAMAttributes {
    bits: u8,
}

impl View for OAMAttributes {
    type V = u8;

    closed spec fn view(&self) -> u8 {
        self.bits
    }
}

impl OAMAttributes {
    /// The register holding exactly the given bits.
    pub closed spec fn spec_from_bits(bits: u8) -> OAMAttributes {
        OAMAttributes { bits }
    }

    /// The register with every bit clear.
    pub fn new() -> (r: OAMAttributes)
        ensures
            r@ == 0,
    {
        OAMAttributes { bits: 0 }
    }

    #[verifier::when_used_as_spec(spec_from_bits)]
    pub fn from_bits(bits: u8) -> (r: OAMAttributes)
        ensures
            r@ == bits,
            r == OAMAttributes::spec_from_bits(bits),
    {
        OAMAttributes { bits }
    }

    pub fn into_bits(self) -> (r: u8)
        ensures
            r == self@,
    {
        self.bits
    }
}

/// The view of a register built from bits is those bits.
pub broadcast proof fn lemma_oam_attributes_view(bits: u8)
    ensures
        #[trigger] OAMAttributes::spec_from_bits(bits)@ == bits,
{
}

/// Two registers with the same bits are the same register.
pub broadcast proof fn lemma_oam_attributes_from_own_bits(r: OAMAttributes)
    ensures
        #[trigger] OAMAttributes::spec_from_bits(r@) == r,
{
}

/// One object attribute memory entry: attributes, tile index and position.
#[derive(Debug, Clone, Copy, PartialEq, Eq, Structural)]
pub struct OAMEntry {
    bits: u32,
}

impl View for OAMEntry {
    type V = u32;

    closed spec fn view(&self) -> u32 {
        self.bits
    }
}

impl OAMEntry {
    /// The register holding exactly the given bits.
    pub closed spec fn spec_from_bits(bits: u32) -> OAMEntry {
        OAMEntry { bits }
    }

    pub open spec fn spec_attributes(&self) -> OAMAttributes {
        OAMAttributes::spec_from_bits((((self@ as int / 1) % 256) as u8))
    }

    pub open spec fn spec_with_attributes(self, value: OAMAttributes) -> OAMEntry {
        OAMEntry::spec_from_bits((self@ as int - ((self@ as int / 1) % 256) * 1 + value@ as int * 1) as u32)
    }

    pub open spec fn spec_tile_index(&self) -> u8 {
        ((self@ as int / 256) % 256) as u8
    }

    pub open spec fn spec_with_tile_index(self, value: u8) -> OAMEntry {
        OAMEntry::spec_from_bits((self@ as int - ((self@ as int / 256) % 256) * 256 + value as int * 256) as u32)
    }

    pub open spec fn spec_x_position_minus_8(&self) -> u8 {
        ((self@ as int / 65536) % 256) as u8
    }

    pub open spec fn spec_with_x_position_minus_8(self, value: u8) -> OAMEntry {
        OAMEntry::spec_from_bits((self@ as int - ((self@ as int / 65536) % 256) * 65536 + value as int * 65536) as u32)
    }

    pub open spec fn spec_y_position_minus_16(&self) -> u8 {
        ((self@ as int / 16777216) % 256) as u8
    }

    pub open spec fn spec_with_y_position_minus_16(self, value: u8) -> OAMEntry {
        OAMEntry::spec_from_bits((self@ as int - ((self@ as int / 16777216) % 256) * 16777216 + value as int * 16777216) as u32)
    }

    /// The register with every bit clear.
    pub fn new() -> (r: OAMEntry)
        ensures
            r@ == 0,
    {
        OAMEntry { bits: 0 }
    }

    #[verifier::when_used_as_spec(spec_from_bits)]
    pub fn from_bits(bits: u32) -> (r: OAMEntry)
        ensures
            r@ == bits,
            r == OAMEntry::spec_from_bits(bits),
    {
        OAMEntry { bits }
    }

    pub fn into_bits(self) -> (r: u32)
        ensures
            r == self@,
    {
        self.bits
    }

    #[verifier::when_used_as_spec(spec_attributes)]
    pub fn attributes(&self) -> (r: OAMAttributes)
        ensures
            r == self.spec_attributes(),
    {
        OAMAttributes::from_bits(((self.bits / 1) % 256) as u8)
    }

    #[verifier::when_used_as_spec(spec_with_attributes)]
    pub fn with_attributes(self, value: OAMAttributes) -> (r: OAMEntry)
        ensures
            r == self.spec_with_attributes(value),
            r.spec_attributes() == value,
            r.spec_tile_index() == self.spec_tile_index(),
            r.spec_x_position_minus_8() == self.spec_x_position_minus_8(),
            r.spec_y_position_minus_16() == self.spec_y_position_minus_16(),
    {
        proof {
            lemma_oam_entry_with_attributes(self, value);
        }
        let cur = (self.bits / 1) % 256;
        let v: u32 = value.into_bits() as u32;
        OAMEntry { bits: self.bits - cur * 1 + v * 1 }
    }

    pub fn set_attributes(&mut self, value: OAMAttributes)
        ensures
            *final(self) == old(self).spec_with_attributes(value),
    {
        *self = self.with_attributes(value);
    }

    #[verifier::when_used_as_spec(spec_tile_index)]
    pub fn tile_index(&self) -> (r: u8)
        ensures
            r == self.spec_tile_index(),
    {
        ((self.bits / 256) % 256) as u8
    }

    #[verifier::when_used_as_spec(spec_with_tile_index)]
    pub fn with_tile_index(self, value: u8) -> (r: OAMEntry)
        requires
            value < 256,
        ensures
            r == self.spec_with_tile_index(value),
            r.spec_tile_index() == value,
            r.spec_attributes() == self.spec_attributes(),
            r.spec_x_position_minus_8() == self.spec_x_position_minus_8(),
            r.spec_y_position_minus_16() == self.spec_y_position_minus_16(),
    {
        proof {
            lemma_oam_entry_with_tile_index(self, value);
        }
        let cur = (self.bits / 256) % 256;
        let v: u32 = value as u32;
        OAMEntry { bits: self.bits - cur * 256 + v * 256 }
    }

    pub fn set_tile_index(&mut self, value: u8)
        requires
            value < 256,
        ensures
            *final(self) == old(self).spec_with_tile_index(value),
    {
        *self = self.with_tile_index(value);
    }

    #[verifier::when_used_as_spec(spec_x_position_minus_8)]
    pub fn x_position_minus_8(&self) -> (r: u8)
        ensures
            r == self.spec_x_position_minus_8(),
    {
        ((self.bits / 65536) % 256) as u8
    }

    #[verifier::when_used_as_spec(spec_with_x_position_minus_8)]
    pub fn with_x_position_minus_8(self, value: u8) -> (r: OAMEntry)
        requires
            value < 256,
        ensures
            r == self.spec_with_x_position_minus_8(value),
            r.spec_x_position_minus_8() == value,
            r.spec_attributes() == self.spec_attributes(),
            r.spec_tile_index() == self.spec_tile_index(),
            r.spec_y_position_minus_16() == self.spec_y_position_minus_16(),
    {
        proof {
            lemma_oam_entry_with_x_position_minus_8(self, value);
        }
        let cur = (self.bits / 65536) % 256;
        let v: u32 = value as u32;
        OAMEntry { bits: self.bits - cur * 65536 + v * 65536 }
    }

    pub fn set_x_position_minus_8(&mut self, value: u8)
        requires
            value < 256,
        ensures
            *final(self) == old(self).spec_with_x_position_minus_8(value),
    {
        *self = self.with_x_position_minus_8(value);
    }

    #[verifier::when_used_as_spec(spec_y_position_minus_16)]
    pub fn y_position_minus_16(&self) -> (r: u8)
        ensures
            r == self.spec_y_position_minus_16(),
    {
        ((self.bits / 16777216) % 256) as u8
    }

    #[verifier::when_used_as_spec(spec_with_y_position_minus_16)]
    pub fn with_y_position_minus_16(self, value: u8) -> (r: OAMEntry)
        requires
            value < 256,
        ensures
            r == self.spec_with_y_position_minus_16(value),
            r.spec_y_position_minus_16() == value,
            r.spec_attributes() == self.spec_attributes(),
            r.spec_tile_index() == self.spec_tile_index(),
            r.spec_x_position_minus_8() == self.spec_x_position_minus_8(),
    {
        proof {
            lemma_oam_entry_with_y_position_minus_16(self, value);
        }
        let cur = (self.bits / 16777216) % 256;
        let v: u32 = value as u32;
        OAMEntry { bits: self.bits - cur * 16777216 + v * 16777216 }
    }

    pub fn set_y_position_minus_16(&mut self, value: u8)
        requires
            value < 256,
        ensures
            *final(self) == old(self).spec_with_y_position_minus_16(value),
    {
        *self = self.with_y_position_minus_16(value);
    }
}

/// The view of a register built from bits is those bits.
pub broadcast proof fn lemma_oam_entry_view(bits: u32)
    ensures
        #[trigger] OAMEntry::spec_from_bits(bits)@ == bits,
{
}

/// Two registers with the same bits are the same register.
pub broadcast proof fn lemma_oam_entry_from_own_bits(r: OAMEntry)
    ensures
        #[trigger] OAMEntry::spec_from_bits(r@) == r,
{
}

/// Replacing `attributes` makes it read back as the new value and keeps every other field.
pub broadcast proof fn lemma_oam_entry_with_attributes(r: OAMEntry, value: OAMAttributes)
    ensures
        (#[trigger] r.spec_with_attributes(value)).spec_attributes() == value,
        r.spec_with_attributes(value).spec_tile_index() == r.spec_tile_index(),
        r.spec_with_attributes(value).spec_x_position_minus_8() == r.spec_x_position_minus_8(),
        r.spec_with_attributes(value).spec_y_position_minus_16() == r.spec_y_position_minus_16(),
{
    let x = r@;
    let nx = (x as int - ((x as int / 1) % 256) * 1 + value@ as int * 1) as u32;
    let v = value@;
    assert((nx as int / 1) % 256 == v as int && (nx as int / 256) % 256 == (x as int / 256) % 256 && (nx as int / 65536) % 256 == (x as int / 65536) % 256 && (nx as int / 16777216) % 256 == (x as int / 16777216) % 256) by (bit_vector)
        requires
            nx == (x as int - ((x as int / 1) % 256) * 1 + v as int * 1) as u32,
    ;
    assert(OAMEntry::spec_from_bits(nx)@ == nx);
}

/// Replacing `tile_index` makes it read back as the new value and keeps every other field.
pub broadcast proof fn lemma_oam_entry_with_tile_index(r: OAMEntry, value: u8)
    requires
        value < 256,
    ensures
        (#[trigger] r.spec_with_tile_index(value)).spec_tile_index() == value,
        r.spec_with_tile_index(value).spec_attributes() == r.spec_attributes(),
        r.spec_with_tile_index(value).spec_x_position_minus_8() == r.spec_x_position_minus_8(),
        r.spec_with_tile_index(value).spec_y_position_minus_16() == r.spec_y_position_minus_16(),
{
    let x = r@;
    let nx = (x as int - ((x as int / 256) % 256) * 256 + value as int * 256) as u32;
    let v = value;
    assert((nx as int / 1) % 256 == (x as int / 1) % 256 && (nx as int / 256) % 256 == v as int && (nx as int / 65536) % 256 == (x as int / 65536) % 256 && (nx as int / 16777216) % 256 == (x as int / 16777216) % 256) by (bit_vector)
        requires
            nx == (x as int - ((x as int / 256) % 256) * 256 + v as int * 256) as u32,
    ;
    assert(OAMEntry::spec_from_bits(nx)@ == nx);
}

/// Replacing `x_position_minus_8` makes it read back as the new value and keeps every other field.
pub broadcast proof fn lemma_oam_entry_with_x_position_minus_8(r: OAMEntry, value: u8)
    requires
        value < 256,
    ensures
        (#[trigger] r.spec_with_x_position_minus_8(value)).spec_x_position_minus_8() == value,
        r.spec_with_x_position_minus_8(value).spec_attributes() == r.spec_attributes(),
        r.spec_with_x_position_minus_8(value).spec_tile_index() == r.spec_tile_index(),
        r.spec_with_x_position_minus_8(value).spec_y_position_minus_16() == r.spec_y_position_minus_16(),
{
    let x = r@;
    let nx = (x as int - ((x as int / 65536) % 256) * 65536 + value as int * 65536) as u32;
    let v = value;
    assert((nx as int / 1) % 256 == (x as int / 1) % 256 && (nx as int / 256) % 256 == (x as int / 256) % 256 && (nx as int / 65536) % 256 == v as int && (nx as int / 16777216) % 256 == (x as int / 16777216) % 256) by (bit_vector)
        requires
            nx == (x as int - ((x as int / 65536) % 256) * 65536 + v as int * 65536) as u32,
    ;
    assert(OAMEntry::spec_from_bits(nx)@ == nx);
}

/// Replacing `y_position_minus_16` makes it read back as the new value and keeps every other field.
pub broadcast proof fn lemma_oam_entry_with_y_position_minus_16(r: OAMEntry, value: u8)
    requires
        value < 256,
    ensures
        (#[trigger] r.spec_with_y_position_minus_16(value)).spec_y_position_minus_16() == value,
        r.spec_with_y_position_minus_16(value).spec_attributes() == r.spec_attributes(),
        r.spec_with_y_position_minus_16(value).spec_tile_index() == r.spec_tile_index(),
        r.spec_with_y_position_minus_16(value).spec_x_position_minus_8() == r.spec_x_position_minus_8(),
{
    let x = r@;
    let nx = (x as int - ((x as int / 16777216) % 256) * 16777216 + value as int * 16777216) as u32;
    let v = value;
    assert((nx as int / 1) % 256 == (x as int / 1) % 256 && (nx as int / 256) % 256 == (x as int / 256) % 256 && (nx as int / 65536) % 256 == (x as int / 65536) % 256 && (nx as int / 16777216) % 256 == v as int) by (bit_vector)
        requires
            nx == (x as int - ((x as int / 16777216) % 256) * 16777216 + v as int * 16777216) as u32,
    ;
    assert(OAMEntry::spec_from_bits(nx)@ == nx);
}

pub broadcast group group_oam_views {
    lemma_oam_attributes_view,
    lemma_oam_attributes_from_own_bits,
    lemma_oam_entry_view,
    lemma_oam_entry_from_own_bits,
    lemma_oam_entry_with_attributes,
    lemma_oam_entry_with_tile_index,
    lemma_oam_entry_with_x_position_minus_8,
    lemma_oam_entry_with_y_position_minus_16,
}

impl OAMEntry {
    /// Byte `byte_index` of the entry as object attribute memory lays it out:
    /// attributes, tile index, X position minus 8, Y position minus 16.
    pub open spec fn spec_byte(self, byte_index: usize) -> u8 {
        if byte_index == 0 {
            self.spec_attributes()@
        } else if byte_index == 1 {
            self.spec_tile_index()
        } else if byte_index == 2 {
            self.spec_x_position_minus_8()
        } else {
            self.spec_y_position_minus_16()
        }
    }

    /// The entry after writing `value` to byte `byte_index`.
    pub open spec fn spec_with_byte(self, byte_index: usize, value: u8) -> OAMEntry {
        if byte_index == 0 {
            self.spec_with_attributes(OAMAttributes::spec_from_bits(value))
        } else if byte_index == 1 {
            self.spec_with_tile_index(value)
        } else if byte_index == 2 {
            self.spec_with_x_position_minus_8(value)
        } else {
            self.spec_with_y_position_minus_16(value)
        }
    }

    pub fn read_byte(&self, byte_index: usize) -> (r: u8)
        requires
            byte_index < 4,
        ensures
            r == self.spec_byte(byte_index),
    {
        match byte_index {
            0 => self.attributes().into_bits(),
            1 => self.tile_index(),
            2 => self.x_position_minus_8(),
            _ => self.y_position_minus_16(),
        }
    }

    pub fn write_byte(&mut self, byte_index: usize, value: u8)
        requires
            byte_index < 4,
        ensures
            *final(self) == old(self).spec_with_byte(byte_index, value),
    {
        match byte_index {
            0 => self.set_attributes(OAMAttributes::from_bits(value)),
            1 => self.set_tile_index(value),
            2 => self.set_x_position_minus_8(value),
            _ => self.set_y_position_minus_16(value),
        }
    }
}

/// Reading a byte of an entry gives back what was last written to it, and
/// writing one byte leaves the other three as they were.
pub proof fn lemma_oam_write_then_read(entry: OAMEntry, byte_index: usize, value: u8, other: usize)
    requires
        byte_index < 4,
        other < 4,
    ensures
        entry.spec_with_byte(byte_index, value).spec_byte(byte_index) == value,
        other != byte_index ==> entry.spec_with_byte(byte_index, value).spec_byte(other) == entry.spec_byte(other),
{
    lemma_oam_attributes_view(value);
    lemma_oam_entry_with_attributes(entry, OAMAttributes::spec_from_bits(value));
    lemma_oam_entry_with_tile_index(entry, value);
    lemma_oam_entry_with_x_position_minus_8(entry, value);
    lemma_oam_entry_with_y_position_minus_16(entry, value);
}

} // verus!
