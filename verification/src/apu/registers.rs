//! The audio control registers.
use vstd::prelude::*;
use crate::bits::{bits8, put_bits8, get_bits8, set_bits8, lemma_put_bits8_frame, lemma_small_masks};

verus! {

/// NR52: which channels are on, and whether audio is on at all.
#[derive(Debug, Clone, Copy, PartialEq, Eq, Structural)]
pub struct AudioMasterControlRegister {
    bits: u8,
}

impl View for AudioMasterControlRegister {
    type V = u8;

    closed spec fn view(&self) -> u8 {
        self.bits
    }
}

impl AudioMasterControlRegister {
    /// The register holding exactly the given bits.
    pub closed spec fn spec_from_bits(bits: u8) -> AudioMasterControlRegister {
        AudioMasterControlRegister { bits }
    }

    pub open spec fn spec_channel1_on(&self) -> bool {
        bits8(self@, 0, 1) == 1
    }

    pub open spec fn spec_with_channel1_on(self, value: bool) -> AudioMasterControlRegister {
        AudioMasterControlRegister::spec_from_bits(put_bits8(self@, 0, 1, (if value { 1u8 } else { 0u8 })))
    }

    pub open spec fn spec_channel2_on(&self) -> bool {
        bits8(self@, 1, 1) == 1
    }

    pub open spec fn spec_with_channel2_on(self, value: bool) -> AudioMasterControlRegister {
        AudioMasterControlRegister::spec_from_bits(put_bits8(self@, 1, 1, (if value { 1u8 } else { 0u8 })))
    }

    pub open spec fn spec_channel3_on(&self) -> bool {
        bits8(self@, 2, 1) == 1
    }

    pub open spec fn spec_with_channel3_on(self, value: bool) -> AudioMasterControlRegister {
        AudioMasterControlRegister::spec_from_bits(put_bits8(self@, 2, 1, (if value { 1u8 } else { 0u8 })))
    }

    pub open spec fn spec_channel4_on(&self) -> bool {
        bits8(self@, 3, 1) == 1
    }

    pub open spec fn spec_with_channel4_on(self, value: bool) -> AudioMasterControlRegister {
        AudioMasterControlRegister::spec_from_bits(put_bits8(self@, 3, 1, (if value { 1u8 } else { 0u8 })))
    }

    pub open spec fn spec_audio_on(&self) -> bool {
        bits8(self@, 7, 1) == 1
    }

    pub open spec fn spec_with_audio_on(self, value: bool) -> AudioMasterControlRegister {
        AudioMasterControlRegister::spec_from_bits(put_bits8(self@, 7, 1, (if value { 1u8 } else { 0u8 })))
    }

    /// The register with every bit clear.
    pub fn new() -> (r: AudioMasterControlRegister)
        ensures
            r@ == 0,
    {
        AudioMasterControlRegister { bits: 0 }
    }

    #[verifier::when_used_as_spec(spec_from_bits)]
    pub fn from_bits(bits: u8) -> (r: AudioMasterControlRegister)
        ensures
            r@ == bits,
            r == AudioMasterControlRegister::spec_from_bits(bits),
    {
        AudioMasterControlRegister { bits }
    }

    pub fn into_bits(self) -> (r: u8)
        ensures
            r == self@,
    {
        self.bits
    }

    #[verifier::when_used_as_spec(spec_channel1_on)]
    pub fn channel1_on(&self) -> (r: bool)
        ensures
            r == self.spec_channel1_on(),
    {
        get_bits8(self.bits, 0, 1) == 1
    }

    #[verifier::when_used_as_spec(spec_with_channel1_on)]
    pub fn with_channel1_on(self, value: bool) -> (r: AudioMasterControlRegister)
        ensures
            r == self.spec_with_channel1_on(value),
            r.spec_channel1_on() == value,
            r.spec_channel2_on() == self.spec_channel2_on(),
            r.spec_channel3_on() == self.spec_channel3_on(),
            r.spec_channel4_on() == self.spec_channel4_on(),
            r.spec_audio_on() == self.spec_audio_on(),
    {
        proof {
            lemma_audio_master_control_register_with_channel1_on(self, value);
        }
        AudioMasterControlRegister { bits: set_bits8(self.bits, 0, 1, if value { 1u8 } else { 0u8 }) }
    }

    pub fn set_channel1_on(&mut self, value: bool)
        ensures
            *final(self) == old(self).spec_with_channel1_on(value),
    {
        *self = self.with_channel1_on(value);
    }

    #[verifier::when_used_as_spec(spec_channel2_on)]
    pub fn channel2_on(&self) -> (r: bool)
        ensures
            r == self.spec_channel2_on(),
    {
        get_bits8(self.bits, 1, 1) == 1
    }

    #[verifier::when_used_as_spec(spec_with_channel2_on)]
    pub fn with_channel2_on(self, value: bool) -> (r: AudioMasterControlRegister)
        ensures
            r == self.spec_with_channel2_on(value),
            r.spec_channel2_on() == value,
            r.spec_channel1_on() == self.spec_channel1_on(),
            r.spec_channel3_on() == self.spec_channel3_on(),
            r.spec_channel4_on() == self.spec_channel4_on(),
            r.spec_audio_on() == self.spec_audio_on(),
    {
        proof {
            lemma_audio_master_control_register_with_channel2_on(self, value);
        }
        AudioMasterControlRegister { bits: set_bits8(self.bits, 1, 1, if value { 1u8 } else { 0u8 }) }
    }

    pub fn set_channel2_on(&mut self, value: bool)
        ensures
            *final(self) == old(self).spec_with_channel2_on(value),
    {
        *self = self.with_channel2_on(value);
    }

    #[verifier::when_used_as_spec(spec_channel3_on)]
    pub fn channel3_on(&self) -> (r: bool)
        ensures
            r == self.spec_channel3_on(),
    {
        get_bits8(self.bits, 2, 1) == 1
    }

    #[verifier::when_used_as_spec(spec_with_channel3_on)]
    pub fn with_channel3_on(self, value: bool) -> (r: AudioMasterControlRegister)
        ensures
            r == self.spec_with_channel3_on(value),
            r.spec_channel3_on() == value,
            r.spec_channel1_on() == self.spec_channel1_on(),
            r.spec_channel2_on() == self.spec_channel2_on(),
            r.spec_channel4_on() == self.spec_channel4_on(),
            r.spec_audio_on() == self.spec_audio_on(),
    {
        proof {
            lemma_audio_master_control_register_with_channel3_on(self, value);
        }
        AudioMasterControlRegister { bits: set_bits8(self.bits, 2, 1, if value { 1u8 } else { 0u8 }) }
    }

    pub fn set_channel3_on(&mut self, value: bool)
        ensures
            *final(self) == old(self).spec_with_channel3_on(value),
    {
        *self = self.with_channel3_on(value);
    }

    #[verifier::when_used_as_spec(spec_channel4_on)]
    pub fn channel4_on(&self) -> (r: bool)
        ensures
            r == self.spec_channel4_on(),
    {
        get_bits8(self.bits, 3, 1) == 1
    }

    #[verifier::when_used_as_spec(spec_with_channel4_on)]
    pub fn with_channel4_on(self, value: bool) -> (r: AudioMasterControlRegister)
        ensures
            r == self.spec_with_channel4_on(value),
            r.spec_channel4_on() == value,
            r.spec_channel1_on() == self.spec_channel1_on(),
            r.spec_channel2_on() == self.spec_channel2_on(),
            r.spec_channel3_on() == self.spec_channel3_on(),
            r.spec_audio_on() == self.spec_audio_on(),
    {
        proof {
            lemma_audio_master_control_register_with_channel4_on(self, value);
        }
        AudioMasterControlRegister { bits: set_bits8(self.bits, 3, 1, if value { 1u8 } else { 0u8 }) }
    }

    pub fn set_channel4_on(&mut self, value: bool)
        ensures
            *final(self) == old(self).spec_with_channel4_on(value),
    {
        *self = self.with_channel4_on(value);
    }

    #[verifier::when_used_as_spec(spec_audio_on)]
    pub fn audio_on(&self) -> (r: bool)
        ensures
            r == self.spec_audio_on(),
    {
        get_bits8(self.bits, 7, 1) == 1
    }

    #[verifier::when_used_as_spec(spec_with_audio_on)]
    pub fn with_audio_on(self, value: bool) -> (r: AudioMasterControlRegister)
        ensures
            r == self.spec_with_audio_on(value),
            r.spec_audio_on() == value,
            r.spec_channel1_on() == self.spec_channel1_on(),
            r.spec_channel2_on() == self.spec_channel2_on(),
            r.spec_channel3_on() == self.spec_channel3_on(),
            r.spec_channel4_on() == self.spec_channel4_on(),
    {
        proof {
            lemma_audio_master_control_register_with_audio_on(self, value);
        }
        AudioMasterControlRegister { bits: set_bits8(self.bits, 7, 1, if value { 1u8 } else { 0u8 }) }
    }

    pub fn set_audio_on(&mut self, value: bool)
        ensures
            *final(self) == old(self).spec_with_audio_on(value),
    {
        *self = self.with_audio_on(value);
    }
}

/// The view of a register built from bits is those bits.
pub broadcast proof fn lemma_audio_master_control_register_view(bits: u8)
    ensures
        #[trigger] AudioMasterControlRegister::spec_from_bits(bits)@ == bits,
{
}

/// Two registers with the same bits are the same register.
pub broadcast proof fn lemma_audio_master_control_register_from_own_bits(r: AudioMasterControlRegister)
    ensures
        #[trigger] AudioMasterControlRegister::spec_from_bits(r@) == r,
{
}

/// Replacing `channel1_on` makes it read back as the new value and keeps every other field.
pub broadcast proof fn lemma_audio_master_control_register_with_channel1_on(r: AudioMasterControlRegister, value: bool)
    ensures
        (#[trigger] r.spec_with_channel1_on(value)).spec_channel1_on() == value,
        r.spec_with_channel1_on(value).spec_channel2_on() == r.spec_channel2_on(),
        r.spec_with_channel1_on(value).spec_channel3_on() == r.spec_channel3_on(),
        r.spec_with_channel1_on(value).spec_channel4_on() == r.spec_channel4_on(),
        r.spec_with_channel1_on(value).spec_audio_on() == r.spec_audio_on(),
{
    lemma_small_masks();
    lemma_put_bits8_frame(r@, 0, 1, (if value { 1u8 } else { 0u8 }), 0, 1);
    lemma_put_bits8_frame(r@, 0, 1, (if value { 1u8 } else { 0u8 }), 1, 1);
    lemma_put_bits8_frame(r@, 0, 1, (if value { 1u8 } else { 0u8 }), 2, 1);
    lemma_put_bits8_frame(r@, 0, 1, (if value { 1u8 } else { 0u8 }), 3, 1);
    lemma_put_bits8_frame(r@, 0, 1, (if value { 1u8 } else { 0u8 }), 7, 1);
}

/// Replacing `channel2_on` makes it read back as the new value and keeps every other field.
pub broadcast proof fn lemma_audio_master_control_register_with_channel2_on(r: AudioMasterControlRegister, value: bool)
    ensures
        (#[trigger] r.spec_with_channel2_on(value)).spec_channel2_on() == value,
        r.spec_with_channel2_on(value).spec_channel1_on() == r.spec_channel1_on(),
        r.spec_with_channel2_on(value).spec_channel3_on() == r.spec_channel3_on(),
        r.spec_with_channel2_on(value).spec_channel4_on() == r.spec_channel4_on(),
        r.spec_with_channel2_on(value).spec_audio_on() == r.spec_audio_on(),
{
    lemma_small_masks();
    lemma_put_bits8_frame(r@, 1, 1, (if value { 1u8 } else { 0u8 }), 0, 1);
    lemma_put_bits8_frame(r@, 1, 1, (if value { 1u8 } else { 0u8 }), 1, 1);
    lemma_put_bits8_frame(r@, 1, 1, (if value { 1u8 } else { 0u8 }), 2, 1);
    lemma_put_bits8_frame(r@, 1, 1, (if value { 1u8 } else { 0u8 }), 3, 1);
    lemma_put_bits8_frame(r@, 1, 1, (if value { 1u8 } else { 0u8 }), 7, 1);
}

/// Replacing `channel3_on` makes it read back as the new value and keeps every other field.
pub broadcast proof fn lemma_audio_master_control_register_with_channel3_on(r: AudioMasterControlRegister, value: bool)
    ensures
        (#[trigger] r.spec_with_channel3_on(value)).spec_channel3_on() == value,
        r.spec_with_channel3_on(value).spec_channel1_on() == r.spec_channel1_on(),
        r.spec_with_channel3_on(value).spec_channel2_on() == r.spec_channel2_on(),
        r.spec_with_channel3_on(value).spec_channel4_on() == r.spec_channel4_on(),
        r.spec_with_channel3_on(value).spec_audio_on() == r.spec_audio_on(),
{
    lemma_small_masks();
    lemma_put_bits8_frame(r@, 2, 1, (if value { 1u8 } else { 0u8 }), 0, 1);
    lemma_put_bits8_frame(r@, 2, 1, (if value { 1u8 } else { 0u8 }), 1, 1);
    lemma_put_bits8_frame(r@, 2, 1, (if value { 1u8 } else { 0u8 }), 2, 1);
    lemma_put_bits8_frame(r@, 2, 1, (if value { 1u8 } else { 0u8 }), 3, 1);
    lemma_put_bits8_frame(r@, 2, 1, (if value { 1u8 } else { 0u8 }), 7, 1);
}

/// Replacing `channel4_on` makes it read back as the new value and keeps every other field.
pub broadcast proof fn lemma_audio_master_control_register_with_channel4_on(r: AudioMasterControlRegister, value: bool)
    ensures
        (#[trigger] r.spec_with_channel4_on(value)).spec_channel4_on() == value,
        r.spec_with_channel4_on(value).spec_channel1_on() == r.spec_channel1_on(),
        r.spec_with_channel4_on(value).spec_channel2_on() == r.spec_channel2_on(),
        r.spec_with_channel4_on(value).spec_channel3_on() == r.spec_channel3_on(),
        r.spec_with_channel4_on(value).spec_audio_on() == r.spec_audio_on(),
{
    lemma_small_masks();
    lemma_put_bits8_frame(r@, 3, 1, (if value { 1u8 } else { 0u8 }), 0, 1);
    lemma_put_bits8_frame(r@, 3, 1, (if value { 1u8 } else { 0u8 }), 1, 1);
    lemma_put_bits8_frame(r@, 3, 1, (if value { 1u8 } else { 0u8 }), 2, 1);
    lemma_put_bits8_frame(r@, 3, 1, (if value { 1u8 } else { 0u8 }), 3, 1);
    lemma_put_bits8_frame(r@, 3, 1, (if value { 1u8 } else { 0u8 }), 7, 1);
}

/// Replacing `audio_on` makes it read back as the new value and keeps every other field.
pub broadcast proof fn lemma_audio_master_control_register_with_audio_on(r: AudioMasterControlRegister, value: bool)
    ensures
        (#[trigger] r.spec_with_audio_on(value)).spec_audio_on() == value,
        r.spec_with_audio_on(value).spec_channel1_on() == r.spec_channel1_on(),
        r.spec_with_audio_on(value).spec_channel2_on() == r.spec_channel2_on(),
        r.spec_with_audio_on(value).spec_channel3_on() == r.spec_channel3_on(),
        r.spec_with_audio_on(value).spec_channel4_on() == r.spec_channel4_on(),
{
    lemma_small_masks();
    lemma_put_bits8_frame(r@, 7, 1, (if value { 1u8 } else { 0u8 }), 0, 1);
    lemma_put_bits8_frame(r@, 7, 1, (if value { 1u8 } else { 0u8 }), 1, 1);
    lemma_put_bits8_frame(r@, 7, 1, (if value { 1u8 } else { 0u8 }), 2, 1);
    lemma_put_bits8_frame(r@, 7, 1, (if value { 1u8 } else { 0u8 }), 3, 1);
    lemma_put_bits8_frame(r@, 7, 1, (if value { 1u8 } else { 0u8 }), 7, 1);
}

/// NR51: which channels reach the right and the left output.
#[derive(Debug, Clone, Copy, PartialEq, Eq, Structural)]
pub struct AudioPanningRegister {
    bits: u8,
}

impl View for AudioPanningRegister {
    type V = u8;

    closed spec fn view(&self) -> u8 {
        self.bits
    }
}

impl AudioPanningRegister {
    /// The register holding exactly the given bits.
    pub closed spec fn spec_from_bits(bits: u8) -> AudioPanningRegister {
        AudioPanningRegister { bits }
    }

    pub open spec fn spec_channel1_right(&self) -> bool {
        bits8(self@, 0, 1) == 1
    }

    pub open spec fn spec_with_channel1_right(self, value: bool) -> AudioPanningRegister {
        AudioPanningRegister::spec_from_bits(put_bits8(self@, 0, 1, (if value { 1u8 } else { 0u8 })))
    }

    pub open spec fn spec_channel2_right(&self) -> bool {
        bits8(self@, 1, 1) == 1
    }

    pub open spec fn spec_with_channel2_right(self, value: bool) -> AudioPanningRegister {
        AudioPanningRegister::spec_from_bits(put_bits8(self@, 1, 1, (if value { 1u8 } else { 0u8 })))
    }

    pub open spec fn spec_channel3_right(&self) -> bool {
        bits8(self@, 2, 1) == 1
    }

    pub open spec fn spec_with_channel3_right(self, value: bool) -> AudioPanningRegister {
        AudioPanningRegister::spec_from_bits(put_bits8(self@, 2, 1, (if value { 1u8 } else { 0u8 })))
    }

    pub open spec fn spec_channel4_right(&self) -> bool {
        bits8(self@, 3, 1) == 1
    }

    pub open spec fn spec_with_channel4_right(self, value: bool) -> AudioPanningRegister {
        AudioPanningRegister::spec_from_bits(put_bits8(self@, 3, 1, (if value { 1u8 } else { 0u8 })))
    }

    pub open spec fn spec_channel1_left(&self) -> bool {
        bits8(self@, 4, 1) == 1
    }

    pub open spec fn spec_with_channel1_left(self, value: bool) -> AudioPanningRegister {
        AudioPanningRegister::spec_from_bits(put_bits8(self@, 4, 1, (if value { 1u8 } else { 0u8 })))
    }

    pub open spec fn spec_channel2_left(&self) -> bool {
        bits8(self@, 5, 1) == 1
    }

    pub open spec fn spec_with_channel2_left(self, value: bool) -> AudioPanningRegister {
        AudioPanningRegister::spec_from_bits(put_bits8(self@, 5, 1, (if value { 1u8 } else { 0u8 })))
    }

    pub open spec fn spec_channel3_left(&self) -> bool {
        bits8(self@, 6, 1) == 1
    }

    pub open spec fn spec_with_channel3_left(self, value: bool) -> AudioPanningRegister {
        AudioPanningRegister::spec_from_bits(put_bits8(self@, 6, 1, (if value { 1u8 } else { 0u8 })))
    }

    pub open spec fn spec_channel4_left(&self) -> bool {
        bits8(self@, 7, 1) == 1
    }

    pub open spec fn spec_with_channel4_left(self, value: bool) -> AudioPanningRegister {
        AudioPanningRegister::spec_from_bits(put_bits8(self@, 7, 1, (if value { 1u8 } else { 0u8 })))
    }

    /// The register with every bit clear.
    pub fn new() -> (r: AudioPanningRegister)
        ensures
            r@ == 0,
    {
        AudioPanningRegister { bits: 0 }
    }

    #[verifier::when_used_as_spec(spec_from_bits)]
    pub fn from_bits(bits: u8) -> (r: AudioPanningRegister)
        ensures
            r@ == bits,
            r == AudioPanningRegister::spec_from_bits(bits),
    {
        AudioPanningRegister { bits }
    }

    pub fn into_bits(self) -> (r: u8)
        ensures
            r == self@,
    {
        self.bits
    }

    #[verifier::when_used_as_spec(spec_channel1_right)]
    pub fn channel1_right(&self) -> (r: bool)
        ensures
            r == self.spec_channel1_right(),
    {
        get_bits8(self.bits, 0, 1) == 1
    }

    #[verifier::when_used_as_spec(spec_with_channel1_right)]
    pub fn with_channel1_right(self, value: bool) -> (r: AudioPanningRegister)
        ensures
            r == self.spec_with_channel1_right(value),
            r.spec_channel1_right() == value,
            r.spec_channel2_right() == self.spec_channel2_right(),
            r.spec_channel3_right() == self.spec_channel3_right(),
            r.spec_channel4_right() == self.spec_channel4_right(),
            r.spec_channel1_left() == self.spec_channel1_left(),
            r.spec_channel2_left() == self.spec_channel2_left(),
            r.spec_channel3_left() == self.spec_channel3_left(),
            r.spec_channel4_left() == self.spec_channel4_left(),
    {
        proof {
            lemma_audio_panning_register_with_channel1_right(self, value);
        }
        AudioPanningRegister { bits: set_bits8(self.bits, 0, 1, if value { 1u8 } else { 0u8 }) }
    }

    pub fn set_channel1_right(&mut self, value: bool)
        ensures
            *final(self) == old(self).spec_with_channel1_right(value),
    {
        *self = self.with_channel1_right(value);
    }

    #[verifier::when_used_as_spec(spec_channel2_right)]
    pub fn channel2_right(&self) -> (r: bool)
        ensures
            r == self.spec_channel2_right(),
    {
        get_bits8(self.bits, 1, 1) == 1
    }

    #[verifier::when_used_as_spec(spec_with_channel2_right)]
    pub fn with_channel2_right(self, value: bool) -> (r: AudioPanningRegister)
        ensures
            r == self.spec_with_channel2_right(value),
            r.spec_channel2_right() == value,
            r.spec_channel1_right() == self.spec_channel1_right(),
            r.spec_channel3_right() == self.spec_channel3_right(),
            r.spec_channel4_right() == self.spec_channel4_right(),
            r.spec_channel1_left() == self.spec_channel1_left(),
            r.spec_channel2_left() == self.spec_channel2_left(),
            r.spec_channel3_left() == self.spec_channel3_left(),
            r.spec_channel4_left() == self.spec_channel4_left(),
    {
        proof {
            lemma_audio_panning_register_with_channel2_right(self, value);
        }
        AudioPanningRegister { bits: set_bits8(self.bits, 1, 1, if value { 1u8 } else { 0u8 }) }
    }

    pub fn set_channel2_right(&mut self, value: bool)
        ensures
            *final(self) == old(self).spec_with_channel2_right(value),
    {
        *self = self.with_channel2_right(value);
    }

    #[verifier::when_used_as_spec(spec_channel3_right)]
    pub fn channel3_right(&self) -> (r: bool)
        ensures
            r == self.spec_channel3_right(),
    {
        get_bits8(self.bits, 2, 1) == 1
    }

    #[verifier::when_used_as_spec(spec_with_channel3_right)]
    pub fn with_channel3_right(self, value: bool) -> (r: AudioPanningRegister)
        ensures
            r == self.spec_with_channel3_right(value),
            r.spec_channel3_right() == value,
            r.spec_channel1_right() == self.spec_channel1_right(),
            r.spec_channel2_right() == self.spec_channel2_right(),
            r.spec_channel4_right() == self.spec_channel4_right(),
            r.spec_channel1_left() == self.spec_channel1_left(),
            r.spec_channel2_left() == self.spec_channel2_left(),
            r.spec_channel3_left() == self.spec_channel3_left(),
            r.spec_channel4_left() == self.spec_channel4_left(),
    {
        proof {
            lemma_audio_panning_register_with_channel3_right(self, value);
        }
        AudioPanningRegister { bits: set_bits8(self.bits, 2, 1, if value { 1u8 } else { 0u8 }) }
    }

    pub fn set_channel3_right(&mut self, value: bool)
        ensures
            *final(self) == old(self).spec_with_channel3_right(value),
    {
        *self = self.with_channel3_right(value);
    }

    #[verifier::when_used_as_spec(spec_channel4_right)]
    pub fn channel4_right(&self) -> (r: bool)
        ensures
            r == self.spec_channel4_right(),
    {
        get_bits8(self.bits, 3, 1) == 1
    }

    #[verifier::when_used_as_spec(spec_with_channel4_right)]
    pub fn with_channel4_right(self, value: bool) -> (r: AudioPanningRegister)
        ensures
            r == self.spec_with_channel4_right(value),
            r.spec_channel4_right() == value,
            r.spec_channel1_right() == self.spec_channel1_right(),
            r.spec_channel2_right() == self.spec_channel2_right(),
            r.spec_channel3_right() == self.spec_channel3_right(),
            r.spec_channel1_left() == self.spec_channel1_left(),
            r.spec_channel2_left() == self.spec_channel2_left(),
            r.spec_channel3_left() == self.spec_channel3_left(),
            r.spec_channel4_left() == self.spec_channel4_left(),
    {
        proof {
            lemma_audio_panning_register_with_channel4_right(self, value);
        }
        AudioPanningRegister { bits: set_bits8(self.bits, 3, 1, if value { 1u8 } else { 0u8 }) }
    }

    pub fn set_channel4_right(&mut self, value: bool)
        ensures
            *final(self) == old(self).spec_with_channel4_right(value),
    {
        *self = self.with_channel4_right(value);
    }

    #[verifier::when_used_as_spec(spec_channel1_left)]
    pub fn channel1_left(&self) -> (r: bool)
        ensures
            r == self.spec_channel1_left(),
    {
        get_bits8(self.bits, 4, 1) == 1
    }

    #[verifier::when_used_as_spec(spec_with_channel1_left)]
    pub fn with_channel1_left(self, value: bool) -> (r: AudioPanningRegister)
        ensures
            r == self.spec_with_channel1_left(value),
            r.spec_channel1_left() == value,
            r.spec_channel1_right() == self.spec_channel1_right(),
            r.spec_channel2_right() == self.spec_channel2_right(),
            r.spec_channel3_right() == self.spec_channel3_right(),
            r.spec_channel4_right() == self.spec_channel4_right(),
            r.spec_channel2_left() == self.spec_channel2_left(),
            r.spec_channel3_left() == self.spec_channel3_left(),
            r.spec_channel4_left() == self.spec_channel4_left(),
    {
        proof {
            lemma_audio_panning_register_with_channel1_left(self, value);
        }
        AudioPanningRegister { bits: set_bits8(self.bits, 4, 1, if value { 1u8 } else { 0u8 }) }
    }

    pub fn set_channel1_left(&mut self, value: bool)
        ensures
            *final(self) == old(self).spec_with_channel1_left(value),
    {
        *self = self.with_channel1_left(value);
    }

    #[verifier::when_used_as_spec(spec_channel2_left)]
    pub fn channel2_left(&self) -> (r: bool)
        ensures
            r == self.spec_channel2_left(),
    {
        get_bits8(self.bits, 5, 1) == 1
    }

    #[verifier::when_used_as_spec(spec_with_channel2_left)]
    pub fn with_channel2_left(self, value: bool) -> (r: AudioPanningRegister)
        ensures
            r == self.spec_with_channel2_left(value),
            r.spec_channel2_left() == value,
            r.spec_channel1_right() == self.spec_channel1_right(),
            r.spec_channel2_right() == self.spec_channel2_right(),
            r.spec_channel3_right() == self.spec_channel3_right(),
            r.spec_channel4_right() == self.spec_channel4_right(),
            r.spec_channel1_left() == self.spec_channel1_left(),
            r.spec_channel3_left() == self.spec_channel3_left(),
            r.spec_channel4_left() == self.spec_channel4_left(),
    {
        proof {
            lemma_audio_panning_register_with_channel2_left(self, value);
        }
        AudioPanningRegister { bits: set_bits8(self.bits, 5, 1, if value { 1u8 } else { 0u8 }) }
    }

    pub fn set_channel2_left(&mut self, value: bool)
        ensures
            *final(self) == old(self).spec_with_channel2_left(value),
    {
        *self = self.with_channel2_left(value);
    }

    #[verifier::when_used_as_spec(spec_channel3_left)]
    pub fn channel3_left(&self) -> (r: bool)
        ensures
            r == self.spec_channel3_left(),
    {
        get_bits8(self.bits, 6, 1) == 1
    }

    #[verifier::when_used_as_spec(spec_with_channel3_left)]
    pub fn with_channel3_left(self, value: bool) -> (r: AudioPanningRegister)
        ensures
            r == self.spec_with_channel3_left(value),
            r.spec_channel3_left() == value,
            r.spec_channel1_right() == self.spec_channel1_right(),
            r.spec_channel2_right() == self.spec_channel2_right(),
            r.spec_channel3_right() == self.spec_channel3_right(),
            r.spec_channel4_right() == self.spec_channel4_right(),
            r.spec_channel1_left() == self.spec_channel1_left(),
            r.spec_channel2_left() == self.spec_channel2_left(),
            r.spec_channel4_left() == self.spec_channel4_left(),
    {
        proof {
            lemma_audio_panning_register_with_channel3_left(self, value);
        }
        AudioPanningRegister { bits: set_bits8(self.bits, 6, 1, if value { 1u8 } else { 0u8 }) }
    }

    pub fn set_channel3_left(&mut self, value: bool)
        ensures
            *final(self) == old(self).spec_with_channel3_left(value),
    {
        *self = self.with_channel3_left(value);
    }

    #[verifier::when_used_as_spec(spec_channel4_left)]
    pub fn channel4_left(&self) -> (r: bool)
        ensures
            r == self.spec_channel4_left(),
    {
        get_bits8(self.bits, 7, 1) == 1
    }

    #[verifier::when_used_as_spec(spec_with_channel4_left)]
    pub fn with_channel4_left(self, value: bool) -> (r: AudioPanningRegister)
        ensures
            r == self.spec_with_channel4_left(value),
            r.spec_channel4_left() == value,
            r.spec_channel1_right() == self.spec_channel1_right(),
            r.spec_channel2_right() == self.spec_channel2_right(),
            r.spec_channel3_right() == self.spec_channel3_right(),
            r.spec_channel4_right() == self.spec_channel4_right(),
            r.spec_channel1_left() == self.spec_channel1_left(),
            r.spec_channel2_left() == self.spec_channel2_left(),
            r.spec_channel3_left() == self.spec_channel3_left(),
    {
        proof {
            lemma_audio_panning_register_with_channel4_left(self, value);
        }
        AudioPanningRegister { bits: set_bits8(self.bits, 7, 1, if value { 1u8 } else { 0u8 }) }
    }

    pub fn set_channel4_left(&mut self, value: bool)
        ensures
            *final(self) == old(self).spec_with_channel4_left(value),
    {
        *self = self.with_channel4_left(value);
    }
}

/// The view of a register built from bits is those bits.
pub broadcast proof fn lemma_audio_panning_register_view(bits: u8)
    ensures
        #[trigger] AudioPanningRegister::spec_from_bits(bits)@ == bits,
{
}

/// Two registers with the same bits are the same register.
pub broadcast proof fn lemma_audio_panning_register_from_own_bits(r: AudioPanningRegister)
    ensures
        #[trigger] AudioPanningRegister::spec_from_bits(r@) == r,
{
}

/// Replacing `channel1_right` makes it read back as the new value and keeps every other field.
pub broadcast proof fn lemma_audio_panning_register_with_channel1_right(r: AudioPanningRegister, value: bool)
    ensures
        (#[trigger] r.spec_with_channel1_right(value)).spec_channel1_right() == value,
        r.spec_with_channel1_right(value).spec_channel2_right() == r.spec_channel2_right(),
        r.spec_with_channel1_right(value).spec_channel3_right() == r.spec_channel3_right(),
        r.spec_with_channel1_right(value).spec_channel4_right() == r.spec_channel4_right(),
        r.spec_with_channel1_right(value).spec_channel1_left() == r.spec_channel1_left(),
        r.spec_with_channel1_right(value).spec_channel2_left() == r.spec_channel2_left(),
        r.spec_with_channel1_right(value).spec_channel3_left() == r.spec_channel3_left(),
        r.spec_with_channel1_right(value).spec_channel4_left() == r.spec_channel4_left(),
{
    lemma_small_masks();
    lemma_put_bits8_frame(r@, 0, 1, (if value { 1u8 } else { 0u8 }), 0, 1);
    lemma_put_bits8_frame(r@, 0, 1, (if value { 1u8 } else { 0u8 }), 1, 1);
    lemma_put_bits8_frame(r@, 0, 1, (if value { 1u8 } else { 0u8 }), 2, 1);
    lemma_put_bits8_frame(r@, 0, 1, (if value { 1u8 } else { 0u8 }), 3, 1);
    lemma_put_bits8_frame(r@, 0, 1, (if value { 1u8 } else { 0u8 }), 4, 1);
    lemma_put_bits8_frame(r@, 0, 1, (if value { 1u8 } else { 0u8 }), 5, 1);
    lemma_put_bits8_frame(r@, 0, 1, (if value { 1u8 } else { 0u8 }), 6, 1);
    lemma_put_bits8_frame(r@, 0, 1, (if value { 1u8 } else { 0u8 }), 7, 1);
}

/// Replacing `channel2_right` makes it read back as the new value and keeps every other field.
pub broadcast proof fn lemma_audio_panning_register_with_channel2_right(r: AudioPanningRegister, value: bool)
    ensures
        (#[trigger] r.spec_with_channel2_right(value)).spec_channel2_right() == value,
        r.spec_with_channel2_right(value).spec_channel1_right() == r.spec_channel1_right(),
        r.spec_with_channel2_right(value).spec_channel3_right() == r.spec_channel3_right(),
        r.spec_with_channel2_right(value).spec_channel4_right() == r.spec_channel4_right(),
        r.spec_with_channel2_right(value).spec_channel1_left() == r.spec_channel1_left(),
        r.spec_with_channel2_right(value).spec_channel2_left() == r.spec_channel2_left(),
        r.spec_with_channel2_right(value).spec_channel3_left() == r.spec_channel3_left(),
        r.spec_with_channel2_right(value).spec_channel4_left() == r.spec_channel4_left(),
{
    lemma_small_masks();
    lemma_put_bits8_frame(r@, 1, 1, (if value { 1u8 } else { 0u8 }), 0, 1);
    lemma_put_bits8_frame(r@, 1, 1, (if value { 1u8 } else { 0u8 }), 1, 1);
    lemma_put_bits8_frame(r@, 1, 1, (if value { 1u8 } else { 0u8 }), 2, 1);
    lemma_put_bits8_frame(r@, 1, 1, (if value { 1u8 } else { 0u8 }), 3, 1);
    lemma_put_bits8_frame(r@, 1, 1, (if value { 1u8 } else { 0u8 }), 4, 1);
    lemma_put_bits8_frame(r@, 1, 1, (if value { 1u8 } else { 0u8 }), 5, 1);
    lemma_put_bits8_frame(r@, 1, 1, (if value { 1u8 } else { 0u8 }), 6, 1);
    lemma_put_bits8_frame(r@, 1, 1, (if value { 1u8 } else { 0u8 }), 7, 1);
}

/// Replacing `channel3_right` makes it read back as the new value and keeps every other field.
pub broadcast proof fn lemma_audio_panning_register_with_channel3_right(r: AudioPanningRegister, value: bool)
    ensures
        (#[trigger] r.spec_with_channel3_right(value)).spec_channel3_right() == value,
        r.spec_with_channel3_right(value).spec_channel1_right() == r.spec_channel1_right(),
        r.spec_with_channel3_right(value).spec_channel2_right() == r.spec_channel2_right(),
        r.spec_with_channel3_right(value).spec_channel4_right() == r.spec_channel4_right(),
        r.spec_with_channel3_right(value).spec_channel1_left() == r.spec_channel1_left(),
        r.spec_with_channel3_right(value).spec_channel2_left() == r.spec_channel2_left(),
        r.spec_with_channel3_right(value).spec_channel3_left() == r.spec_channel3_left(),
        r.spec_with_channel3_right(value).spec_channel4_left() == r.spec_channel4_left(),
{
    lemma_small_masks();
    lemma_put_bits8_frame(r@, 2, 1, (if value { 1u8 } else { 0u8 }), 0, 1);
    lemma_put_bits8_frame(r@, 2, 1, (if value { 1u8 } else { 0u8 }), 1, 1);
    lemma_put_bits8_frame(r@, 2, 1, (if value { 1u8 } else { 0u8 }), 2, 1);
    lemma_put_bits8_frame(r@, 2, 1, (if value { 1u8 } else { 0u8 }), 3, 1);
    lemma_put_bits8_frame(r@, 2, 1, (if value { 1u8 } else { 0u8 }), 4, 1);
    lemma_put_bits8_frame(r@, 2, 1, (if value { 1u8 } else { 0u8 }), 5, 1);
    lemma_put_bits8_frame(r@, 2, 1, (if value { 1u8 } else { 0u8 }), 6, 1);
    lemma_put_bits8_frame(r@, 2, 1, (if value { 1u8 } else { 0u8 }), 7, 1);
}

/// Replacing `channel4_right` makes it read back as the new value and keeps every other field.
pub broadcast proof fn lemma_audio_panning_register_with_channel4_right(r: AudioPanningRegister, value: bool)
    ensures
        (#[trigger] r.spec_with_channel4_right(value)).spec_channel4_right() == value,
        r.spec_with_channel4_right(value).spec_channel1_right() == r.spec_channel1_right(),
        r.spec_with_channel4_right(value).spec_channel2_right() == r.spec_channel2_right(),
        r.spec_with_channel4_right(value).spec_channel3_right() == r.spec_channel3_right(),
        r.spec_with_channel4_right(value).spec_channel1_left() == r.spec_channel1_left(),
        r.spec_with_channel4_right(value).spec_channel2_left() == r.spec_channel2_left(),
        r.spec_with_channel4_right(value).spec_channel3_left() == r.spec_channel3_left(),
        r.spec_with_channel4_right(value).spec_channel4_left() == r.spec_channel4_left(),
{
    lemma_small_masks();
    lemma_put_bits8_frame(r@, 3, 1, (if value { 1u8 } else { 0u8 }), 0, 1);
    lemma_put_bits8_frame(r@, 3, 1, (if value { 1u8 } else { 0u8 }), 1, 1);
    lemma_put_bits8_frame(r@, 3, 1, (if value { 1u8 } else { 0u8 }), 2, 1);
    lemma_put_bits8_frame(r@, 3, 1, (if value { 1u8 } else { 0u8 }), 3, 1);
    lemma_put_bits8_frame(r@, 3, 1, (if value { 1u8 } else { 0u8 }), 4, 1);
    lemma_put_bits8_frame(r@, 3, 1, (if value { 1u8 } else { 0u8 }), 5, 1);
    lemma_put_bits8_frame(r@, 3, 1, (if value { 1u8 } else { 0u8 }), 6, 1);
    lemma_put_bits8_frame(r@, 3, 1, (if value { 1u8 } else { 0u8 }), 7, 1);
}

/// Replacing `channel1_left` makes it read back as the new value and keeps every other field.
pub broadcast proof fn lemma_audio_panning_register_with_channel1_left(r: AudioPanningRegister, value: bool)
    ensures
        (#[trigger] r.spec_with_channel1_left(value)).spec_channel1_left() == value,
        r.spec_with_channel1_left(value).spec_channel1_right() == r.spec_channel1_right(),
        r.spec_with_channel1_left(value).spec_channel2_right() == r.spec_channel2_right(),
        r.spec_with_channel1_left(value).spec_channel3_right() == r.spec_channel3_right(),
        r.spec_with_channel1_left(value).spec_channel4_right() == r.spec_channel4_right(),
        r.spec_with_channel1_left(value).spec_channel2_left() == r.spec_channel2_left(),
        r.spec_with_channel1_left(value).spec_channel3_left() == r.spec_channel3_left(),
        r.spec_with_channel1_left(value).spec_channel4_left() == r.spec_channel4_left(),
{
    lemma_small_masks();
    lemma_put_bits8_frame(r@, 4, 1, (if value { 1u8 } else { 0u8 }), 0, 1);
    lemma_put_bits8_frame(r@, 4, 1, (if value { 1u8 } else { 0u8 }), 1, 1);
    lemma_put_bits8_frame(r@, 4, 1, (if value { 1u8 } else { 0u8 }), 2, 1);
    lemma_put_bits8_frame(r@, 4, 1, (if value { 1u8 } else { 0u8 }), 3, 1);
    lemma_put_bits8_frame(r@, 4, 1, (if value { 1u8 } else { 0u8 }), 4, 1);
    lemma_put_bits8_frame(r@, 4, 1, (if value { 1u8 } else { 0u8 }), 5, 1);
    lemma_put_bits8_frame(r@, 4, 1, (if value { 1u8 } else { 0u8 }), 6, 1);
    lemma_put_bits8_frame(r@, 4, 1, (if value { 1u8 } else { 0u8 }), 7, 1);
}

/// Replacing `channel2_left` makes it read back as the new value and keeps every other field.
pub broadcast proof fn lemma_audio_panning_register_with_channel2_left(r: AudioPanningRegister, value: bool)
    ensures
        (#[trigger] r.spec_with_channel2_left(value)).spec_channel2_left() == value,
        r.spec_with_channel2_left(value).spec_channel1_right() == r.spec_channel1_right(),
        r.spec_with_channel2_left(value).spec_channel2_right() == r.spec_channel2_right(),
        r.spec_with_channel2_left(value).spec_channel3_right() == r.spec_channel3_right(),
        r.spec_with_channel2_left(value).spec_channel4_right() == r.spec_channel4_right(),
        r.spec_with_channel2_left(value).spec_channel1_left() == r.spec_channel1_left(),
        r.spec_with_channel2_left(value).spec_channel3_left() == r.spec_channel3_left(),
        r.spec_with_channel2_left(value).spec_channel4_left() == r.spec_channel4_left(),
{
    lemma_small_masks();
    lemma_put_bits8_frame(r@, 5, 1, (if value { 1u8 } else { 0u8 }), 0, 1);
    lemma_put_bits8_frame(r@, 5, 1, (if value { 1u8 } else { 0u8 }), 1, 1);
    lemma_put_bits8_frame(r@, 5, 1, (if value { 1u8 } else { 0u8 }), 2, 1);
    lemma_put_bits8_frame(r@, 5, 1, (if value { 1u8 } else { 0u8 }), 3, 1);
    lemma_put_bits8_frame(r@, 5, 1, (if value { 1u8 } else { 0u8 }), 4, 1);
    lemma_put_bits8_frame(r@, 5, 1, (if value { 1u8 } else { 0u8 }), 5, 1);
    lemma_put_bits8_frame(r@, 5, 1, (if value { 1u8 } else { 0u8 }), 6, 1);
    lemma_put_bits8_frame(r@, 5, 1, (if value { 1u8 } else { 0u8 }), 7, 1);
}

/// Replacing `channel3_left` makes it read back as the new value and keeps every other field.
pub broadcast proof fn lemma_audio_panning_register_with_channel3_left(r: AudioPanningRegister, value: bool)
    ensures
        (#[trigger] r.spec_with_channel3_left(value)).spec_channel3_left() == value,
        r.spec_with_channel3_left(value).spec_channel1_right() == r.spec_channel1_right(),
        r.spec_with_channel3_left(value).spec_channel2_right() == r.spec_channel2_right(),
        r.spec_with_channel3_left(value).spec_channel3_right() == r.spec_channel3_right(),
        r.spec_with_channel3_left(value).spec_channel4_right() == r.spec_channel4_right(),
        r.spec_with_channel3_left(value).spec_channel1_left() == r.spec_channel1_left(),
        r.spec_with_channel3_left(value).spec_channel2_left() == r.spec_channel2_left(),
        r.spec_with_channel3_left(value).spec_channel4_left() == r.spec_channel4_left(),
{
    lemma_small_masks();
    lemma_put_bits8_frame(r@, 6, 1, (if value { 1u8 } else { 0u8 }), 0, 1);
    lemma_put_bits8_frame(r@, 6, 1, (if value { 1u8 } else { 0u8 }), 1, 1);
    lemma_put_bits8_frame(r@, 6, 1, (if value { 1u8 } else { 0u8 }), 2, 1);
    lemma_put_bits8_frame(r@, 6, 1, (if value { 1u8 } else { 0u8 }), 3, 1);
    lemma_put_bits8_frame(r@, 6, 1, (if value { 1u8 } else { 0u8 }), 4, 1);
    lemma_put_bits8_frame(r@, 6, 1, (if value { 1u8 } else { 0u8 }), 5, 1);
    lemma_put_bits8_frame(r@, 6, 1, (if value { 1u8 } else { 0u8 }), 6, 1);
    lemma_put_bits8_frame(r@, 6, 1, (if value { 1u8 } else { 0u8 }), 7, 1);
}

/// Replacing `channel4_left` makes it read back as the new value and keeps every other field.
pub broadcast proof fn lemma_audio_panning_register_with_channel4_left(r: AudioPanningRegister, value: bool)
    ensures
        (#[trigger] r.spec_with_channel4_left(value)).spec_channel4_left() == value,
        r.spec_with_channel4_left(value).spec_channel1_right() == r.spec_channel1_right(),
        r.spec_with_channel4_left(value).spec_channel2_right() == r.spec_channel2_right(),
        r.spec_with_channel4_left(value).spec_channel3_right() == r.spec_channel3_right(),
        r.spec_with_channel4_left(value).spec_channel4_right() == r.spec_channel4_right(),
        r.spec_with_channel4_left(value).spec_channel1_left() == r.spec_channel1_left(),
        r.spec_with_channel4_left(value).spec_channel2_left() == r.spec_channel2_left(),
        r.spec_with_channel4_left(value).spec_channel3_left() == r.spec_channel3_left(),
{
    lemma_small_masks();
    lemma_put_bits8_frame(r@, 7, 1, (if value { 1u8 } else { 0u8 }), 0, 1);
    lemma_put_bits8_frame(r@, 7, 1, (if value { 1u8 } else { 0u8 }), 1, 1);
    lemma_put_bits8_frame(r@, 7, 1, (if value { 1u8 } else { 0u8 }), 2, 1);
    lemma_put_bits8_frame(r@, 7, 1, (if value { 1u8 } else { 0u8 }), 3, 1);
    lemma_put_bits8_frame(r@, 7, 1, (if value { 1u8 } else { 0u8 }), 4, 1);
    lemma_put_bits8_frame(r@, 7, 1, (if value { 1u8 } else { 0u8 }), 5, 1);
    lemma_put_bits8_frame(r@, 7, 1, (if value { 1u8 } else { 0u8 }), 6, 1);
    lemma_put_bits8_frame(r@, 7, 1, (if value { 1u8 } else { 0u8 }), 7, 1);
}

/// NR50: the master volume of each side, and whether VIN reaches it.
#[derive(Debug, Clone, Copy, PartialEq, Eq, Structural)]
pub struct AudioMasterVolumeVINPanningRegister {
    bits: u8,
}

impl View for AudioMasterVolumeVINPanningRegister {
    type V = u8;

    closed spec fn view(&self) -> u8 {
        self.bits
    }
}

impl AudioMasterVolumeVINPanningRegister {
    /// The register holding exactly the given bits.
    pub closed spec fn spec_from_bits(bits: u8) -> AudioMasterVolumeVINPanningRegister {
        AudioMasterVolumeVINPanningRegister { bits }
    }

    pub open spec fn spec_volume_right(&self) -> u8 {
        (bits8(self@, 0, 3)) as u8
    }

    pub open spec fn spec_with_volume_right(self, value: u8) -> AudioMasterVolumeVINPanningRegister {
        AudioMasterVolumeVINPanningRegister::spec_from_bits(put_bits8(self@, 0, 3, value))
    }

    pub open spec fn spec_vin_right(&self) -> bool {
        bits8(self@, 3, 1) == 1
    }

    pub open spec fn spec_with_vin_right(self, value: bool) -> AudioMasterVolumeVINPanningRegister {
        AudioMasterVolumeVINPanningRegister::spec_from_bits(put_bits8(self@, 3, 1, (if value { 1u8 } else { 0u8 })))
    }

    pub open spec fn spec_volume_left(&self) -> u8 {
        (bits8(self@, 4, 3)) as u8
    }

    pub open spec fn spec_with_volume_left(self, value: u8) -> AudioMasterVolumeVINPanningRegister {
        AudioMasterVolumeVINPanningRegister::spec_from_bits(put_bits8(self@, 4, 3, value))
    }

    pub open spec fn spec_vin_left(&self) -> bool {
        bits8(self@, 7, 1) == 1
    }

    pub open spec fn spec_with_vin_left(self, value: bool) -> AudioMasterVolumeVINPanningRegister {
        AudioMasterVolumeVINPanningRegister::spec_from_bits(put_bits8(self@, 7, 1, (if value { 1u8 } else { 0u8 })))
    }

    /// The register with every bit clear.
    pub fn new() -> (r: AudioMasterVolumeVINPanningRegister)
        ensures
            r@ == 0,
    {
        AudioMasterVolumeVINPanningRegister { bits: 0 }
    }

    #[verifier::when_used_as_spec(spec_from_bits)]
    pub fn from_bits(bits: u8) -> (r: AudioMasterVolumeVINPanningRegister)
        ensures
            r@ == bits,
            r == AudioMasterVolumeVINPanningRegister::spec_from_bits(bits),
    {
        AudioMasterVolumeVINPanningRegister { bits }
    }

    pub fn into_bits(self) -> (r: u8)
        ensures
            r == self@,
    {
        self.bits
    }

    #[verifier::when_used_as_spec(spec_volume_right)]
    pub fn volume_right(&self) -> (r: u8)
        ensures
            r == self.spec_volume_right(),
    {
        (get_bits8(self.bits, 0, 3)) as u8
    }

    #[verifier::when_used_as_spec(spec_with_volume_right)]
    pub fn with_volume_right(self, value: u8) -> (r: AudioMasterVolumeVINPanningRegister)
        requires
            value < 8,
        ensures
            r == self.spec_with_volume_right(value),
            r.spec_volume_right() == value,
            r.spec_vin_right() == self.spec_vin_right(),
            r.spec_volume_left() == self.spec_volume_left(),
            r.spec_vin_left() == self.spec_vin_left(),
    {
        proof {
            lemma_audio_master_volume_vin_panning_register_with_volume_right(self, value);
        }
        AudioMasterVolumeVINPanningRegister { bits: set_bits8(self.bits, 0, 3, value) }
    }

    pub fn set_volume_right(&mut self, value: u8)
        requires
            value < 8,
        ensures
            *final(self) == old(self).spec_with_volume_right(value),
    {
        *self = self.with_volume_right(value);
    }

    #[verifier::when_used_as_spec(spec_vin_right)]
    pub fn vin_right(&self) -> (r: bool)
        ensures
            r == self.spec_vin_right(),
    {
        get_bits8(self.bits, 3, 1) == 1
    }

    #[verifier::when_used_as_spec(spec_with_vin_right)]
    pub fn with_vin_right(self, value: bool) -> (r: AudioMasterVolumeVINPanningRegister)
        ensures
            r == self.spec_with_vin_right(value),
            r.spec_vin_right() == value,
            r.spec_volume_right() == self.spec_volume_right(),
            r.spec_volume_left() == self.spec_volume_left(),
            r.spec_vin_left() == self.spec_vin_left(),
    {
        proof {
            lemma_audio_master_volume_vin_panning_register_with_vin_right(self, value);
        }
        AudioMasterVolumeVINPanningRegister { bits: set_bits8(self.bits, 3, 1, if value { 1u8 } else { 0u8 }) }
    }

    pub fn set_vin_right(&mut self, value: bool)
        ensures
            *final(self) == old(self).spec_with_vin_right(value),
    {
        *self = self.with_vin_right(value);
    }

    #[verifier::when_used_as_spec(spec_volume_left)]
    pub fn volume_left(&self) -> (r: u8)
        ensures
            r == self.spec_volume_left(),
    {
        (get_bits8(self.bits, 4, 3)) as u8
    }

    #[verifier::when_used_as_spec(spec_with_volume_left)]
    pub fn with_volume_left(self, value: u8) -> (r: AudioMasterVolumeVINPanningRegister)
        requires
            value < 8,
        ensures
            r == self.spec_with_volume_left(value),
            r.spec_volume_left() == value,
            r.spec_volume_right() == self.spec_volume_right(),
            r.spec_vin_right() == self.spec_vin_right(),
            r.spec_vin_left() == self.spec_vin_left(),
    {
        proof {
            lemma_audio_master_volume_vin_panning_register_with_volume_left(self, value);
        }
        AudioMasterVolumeVINPanningRegister { bits: set_bits8(self.bits, 4, 3, value) }
    }

    pub fn set_volume_left(&mut self, value: u8)
        requires
            value < 8,
        ensures
            *final(self) == old(self).spec_with_volume_left(value),
    {
        *self = self.with_volume_left(value);
    }

    #[verifier::when_used_as_spec(spec_vin_left)]
    pub fn vin_left(&self) -> (r: bool)
        ensures
            r == self.spec_vin_left(),
    {
        get_bits8(self.bits, 7, 1) == 1
    }

    #[verifier::when_used_as_spec(spec_with_vin_left)]
    pub fn with_vin_left(self, value: bool) -> (r: AudioMasterVolumeVINPanningRegister)
        ensures
            r == self.spec_with_vin_left(value),
            r.spec_vin_left() == value,
            r.spec_volume_right() == self.spec_volume_right(),
            r.spec_vin_right() == self.spec_vin_right(),
            r.spec_volume_left() == self.spec_volume_left(),
    {
        proof {
            lemma_audio_master_volume_vin_panning_register_with_vin_left(self, value);
        }
        AudioMasterVolumeVINPanningRegister { bits: set_bits8(self.bits, 7, 1, if value { 1u8 } else { 0u8 }) }
    }

    pub fn set_vin_left(&mut self, value: bool)
        ensures
            *final(self) == old(self).spec_with_vin_left(value),
    {
        *self = self.with_vin_left(value);
    }
}

/// The view of a register built from bits is those bits.
pub broadcast proof fn lemma_audio_master_volume_vin_panning_register_view(bits: u8)
    ensures
        #[trigger] AudioMasterVolumeVINPanningRegister::spec_from_bits(bits)@ == bits,
{
}

/// Two registers with the same bits are the same register.
pub broadcast proof fn lemma_audio_master_volume_vin_panning_register_from_own_bits(r: AudioMasterVolumeVINPanningRegister)
    ensures
        #[trigger] AudioMasterVolumeVINPanningRegister::spec_from_bits(r@) == r,
{
}

/// Replacing `volume_right` makes it read back as the new value and keeps every other field.
pub broadcast proof fn lemma_audio_master_volume_vin_panning_register_with_volume_right(r: AudioMasterVolumeVINPanningRegister, value: u8)
    requires
        value < 8,
    ensures
        (#[trigger] r.spec_with_volume_right(value)).spec_volume_right() == value,
        r.spec_with_volume_right(value).spec_vin_right() == r.spec_vin_right(),
        r.spec_with_volume_right(value).spec_volume_left() == r.spec_volume_left(),
        r.spec_with_volume_right(value).spec_vin_left() == r.spec_vin_left(),
{
    lemma_small_masks();
    lemma_put_bits8_frame(r@, 0, 3, value, 0, 3);
    lemma_put_bits8_frame(r@, 0, 3, value, 3, 1);
    lemma_put_bits8_frame(r@, 0, 3, value, 4, 3);
    lemma_put_bits8_frame(r@, 0, 3, value, 7, 1);
}

/// Replacing `vin_right` makes it read back as the new value and keeps every other field.
pub broadcast proof fn lemma_audio_master_volume_vin_panning_register_with_vin_right(r: AudioMasterVolumeVINPanningRegister, value: bool)
    ensures
        (#[trigger] r.spec_with_vin_right(value)).spec_vin_right() == value,
        r.spec_with_vin_right(value).spec_volume_right() == r.spec_volume_right(),
        r.spec_with_vin_right(value).spec_volume_left() == r.spec_volume_left(),
        r.spec_with_vin_right(value).spec_vin_left() == r.spec_vin_left(),
{
    lemma_small_masks();
    lemma_put_bits8_frame(r@, 3, 1, (if value { 1u8 } else { 0u8 }), 0, 3);
    lemma_put_bits8_frame(r@, 3, 1, (if value { 1u8 } else { 0u8 }), 3, 1);
    lemma_put_bits8_frame(r@, 3, 1, (if value { 1u8 } else { 0u8 }), 4, 3);
    lemma_put_bits8_frame(r@, 3, 1, (if value { 1u8 } else { 0u8 }), 7, 1);
}

/// Replacing `volume_left` makes it read back as the new value and keeps every other field.
pub broadcast proof fn lemma_audio_master_volume_vin_panning_register_with_volume_left(r: AudioMasterVolumeVINPanningRegister, value: u8)
    requires
        value < 8,
    ensures
        (#[trigger] r.spec_with_volume_left(value)).spec_volume_left() == value,
        r.spec_with_volume_left(value).spec_volume_right() == r.spec_volume_right(),
        r.spec_with_volume_left(value).spec_vin_right() == r.spec_vin_right(),
        r.spec_with_volume_left(value).spec_vin_left() == r.spec_vin_left(),
{
    lemma_small_masks();
    lemma_put_bits8_frame(r@, 4, 3, value, 0, 3);
    lemma_put_bits8_frame(r@, 4, 3, value, 3, 1);
    lemma_put_bits8_frame(r@, 4, 3, value, 4, 3);
    lemma_put_bits8_frame(r@, 4, 3, value, 7, 1);
}

/// Replacing `vin_left` makes it read back as the new value and keeps every other field.
pub broadcast proof fn lemma_audio_master_volume_vin_panning_register_with_vin_left(r: AudioMasterVolumeVINPanningRegister, value: bool)
    ensures
        (#[trigger] r.spec_with_vin_left(value)).spec_vin_left() == value,
        r.spec_with_vin_left(value).spec_volume_right() == r.spec_volume_right(),
        r.spec_with_vin_left(value).spec_vin_right() == r.spec_vin_right(),
        r.spec_with_vin_left(value).spec_volume_left() == r.spec_volume_left(),
{
    lemma_small_masks();
    lemma_put_bits8_frame(r@, 7, 1, (if value { 1u8 } else { 0u8 }), 0, 3);
    lemma_put_bits8_frame(r@, 7, 1, (if value { 1u8 } else { 0u8 }), 3, 1);
    lemma_put_bits8_frame(r@, 7, 1, (if value { 1u8 } else { 0u8 }), 4, 3);
    lemma_put_bits8_frame(r@, 7, 1, (if value { 1u8 } else { 0u8 }), 7, 1);
}

pub broadcast group group_apu_register_views {
    lemma_audio_master_control_register_view,
    lemma_audio_master_control_register_from_own_bits,
    lemma_audio_master_control_register_with_channel1_on,
    lemma_audio_master_control_register_with_channel2_on,
    lemma_audio_master_control_register_with_channel3_on,
    lemma_audio_master_control_register_with_channel4_on,
    lemma_audio_master_control_register_with_audio_on,
    lemma_audio_panning_register_view,
    lemma_audio_panning_register_from_own_bits,
    lemma_audio_panning_register_with_channel1_right,
    lemma_audio_panning_register_with_channel2_right,
    lemma_audio_panning_register_with_channel3_right,
    lemma_audio_panning_register_with_channel4_right,
    lemma_audio_panning_register_with_channel1_left,
    lemma_audio_panning_register_with_channel2_left,
    lemma_audio_panning_register_with_channel3_left,
    lemma_audio_panning_register_with_channel4_left,
    lemma_audio_master_volume_vin_panning_register_view,
    lemma_audio_master_volume_vin_panning_register_from_own_bits,
    lemma_audio_master_volume_vin_panning_register_with_volume_right,
    lemma_audio_master_volume_vin_panning_register_with_vin_right,
    lemma_audio_master_volume_vin_panning_register_with_volume_left,
    lemma_audio_master_volume_vin_panning_register_with_vin_left,
}

} // verus!
