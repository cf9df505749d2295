//! The serial port.
use vstd::prelude::*;
use crate::bits::{bits8, put_bits8, get_bits8, set_bits8, lemma_put_bits8_frame, lemma_small_masks};

verus! {

/// Which side drives the serial clock.
#[derive(Debug, Clone, Copy, PartialEq, Eq, Structural)]
pub enum SerialTransferClockSelect {
    External,
    Internal,
}

impl View for SerialTransferClockSelect {
    type V = u8;

    open spec fn view(&self) -> u8 {
        match self {
            SerialTransferClockSelect::External => 0,
            SerialTransferClockSelect::Internal => 1,
        }
    }
}

impl SerialTransferClockSelect {
    /// The value with the given bits; any other bits give `External`.
    pub open spec fn spec_from_bits(bits: u8) -> SerialTransferClockSelect {
        match bits {
            0 => SerialTransferClockSelect::External,
            1 => SerialTransferClockSelect::Internal,
            _ => SerialTransferClockSelect::External,
        }
    }

    #[verifier::when_used_as_spec(spec_from_bits)]
    pub fn from_bits(bits: u8) -> (r: SerialTransferClockSelect)
        ensures
            r == SerialTransferClockSelect::spec_from_bits(bits),
    {
        match bits {
            0 => SerialTransferClockSelect::External,
            1 => SerialTransferClockSelect::Internal,
            _ => SerialTransferClockSelect::External,
        }
    }

    pub fn into_bits(self) -> (r: u8)
        ensures
            r == self@,
    {
        match self {
            SerialTransferClockSelect::External => 0,
            SerialTransferClockSelect::Internal => 1,
        }
    }
}

/// The serial clock speed.
#[derive(Debug, Clone, Copy, PartialEq, Eq, Structural)]
pub enum SerialTransferClockSpeed {
    NormalSpeed,
    HighSpeed,
}

impl View for SerialTransferClockSpeed {
    type V = u8;

    open spec fn view(&self) -> u8 {
        match self {
            SerialTransferClockSpeed::NormalSpeed => 0,
            SerialTransferClockSpeed::HighSpeed => 1,
        }
    }
}

impl SerialTransferClockSpeed {
    /// The value with the given bits; any other bits give `NormalSpeed`.
    pub open spec fn spec_from_bits(bits: u8) -> SerialTransferClockSpeed {
        match bits {
            0 => SerialTransferClockSpeed::NormalSpeed,
            1 => SerialTransferClockSpeed::HighSpeed,
            _ => SerialTransferClockSpeed::NormalSpeed,
        }
    }

    #[verifier::when_used_as_spec(spec_from_bits)]
    pub fn from_bits(bits: u8) -> (r: SerialTransferClockSpeed)
        ensures
            r == SerialTransferClockSpeed::spec_from_bits(bits),
    {
        match bits {
            0 => SerialTransferClockSpeed::NormalSpeed,
            1 => SerialTransferClockSpeed::HighSpeed,
            _ => SerialTransferClockSpeed::NormalSpeed,
        }
    }

    pub fn into_bits(self) -> (r: u8)
        ensures
            r == self@,
    {
        match self {
            SerialTransferClockSpeed::NormalSpeed => 0,
            SerialTransferClockSpeed::HighSpeed => 1,
        }
    }
}

/// SC: clock source, clock speed and transfer enable.
#[derive(Debug, Clone, Copy, PartialEq, Eq, Structural)]
pub struct SerialTransferControlRegister {
    bits: u8,
}

impl View for SerialTransferControlRegister {
    type V = u8;

    closed spec fn view(&self) -> u8 {
        self.bits
    }
}

impl SerialTransferControlRegister {
    /// The register holding exactly the given bits.
    pub closed spec fn spec_from_bits(bits: u8) -> SerialTransferControlRegister {
        SerialTransferControlRegister { bits }
    }

    pub open spec fn spec_clock_select(&self) -> SerialTransferClockSelect {
        SerialTransferClockSelect::spec_from_bits(((bits8(self@, 0, 1)) as u8))
    }

    pub open spec fn spec_with_clock_select(self, value: SerialTransferClockSelect) -> SerialTransferControlRegister {
        SerialTransferControlRegister::spec_from_bits(put_bits8(self@, 0, 1, value@))
    }

    pub open spec fn spec_clock_speed(&self) -> SerialTransferClockSpeed {
        SerialTransferClockSpeed::spec_from_bits(((bits8(self@, 1, 1)) as u8))
    }

    pub open spec fn spec_with_clock_speed(self, value: SerialTransferClockSpeed) -> SerialTransferControlRegister {
        SerialTransferControlRegister::spec_from_bits(put_bits8(self@, 1, 1, value@))
    }

    pub open spec fn spec_transfer_enable(&self) -> bool {
        bits8(self@, 7, 1) == 1
    }

    pub open spec fn spec_with_transfer_enable(self, value: bool) -> SerialTransferControlRegister {
        SerialTransferControlRegister::spec_from_bits(put_bits8(self@, 7, 1, (if value { 1u8 } else { 0u8 })))
    }

    /// The register with every bit clear.
    pub fn new() -> (r: SerialTransferControlRegister)
        ensures
            r@ == 0,
    {
        SerialTransferControlRegister { bits: 0 }
    }

    #[verifier::when_used_as_spec(spec_from_bits)]
    pub fn from_bits(bits: u8) -> (r: SerialTransferControlRegister)
        ensures
            r@ == bits,
            r == SerialTransferControlRegister::spec_from_bits(bits),
    {
        SerialTransferControlRegister { bits }
    }

    pub fn into_bits(self) -> (r: u8)
        ensures
            r == self@,
    {
        self.bits
    }

    #[verifier::when_used_as_spec(spec_clock_select)]
    pub fn clock_select(&self) -> (r: SerialTransferClockSelect)
        ensures
            r == self.spec_clock_select(),
    {
        SerialTransferClockSelect::from_bits((get_bits8(self.bits, 0, 1)) as u8)
    }

    #[verifier::when_used_as_spec(spec_with_clock_select)]
    pub fn with_clock_select(self, value: SerialTransferClockSelect) -> (r: SerialTransferControlRegister)
        ensures
            r == self.spec_with_clock_select(value),
            r.spec_clock_select() == value,
            r.spec_clock_speed() == self.spec_clock_speed(),
            r.spec_transfer_enable() == self.spec_transfer_enable(),
    {
        proof {
            lemma_serial_transfer_control_register_with_clock_select(self, value);
        }
        SerialTransferControlRegister { bits: set_bits8(self.bits, 0, 1, value.into_bits()) }
    }

    pub fn set_clock_select(&mut self, value: SerialTransferClockSelect)
        ensures
            *final(self) == old(self).spec_with_clock_select(value),
    {
        *self = self.with_clock_select(value);
    }

    #[verifier::when_used_as_spec(spec_clock_speed)]
    pub fn clock_speed(&self) -> (r: SerialTransferClockSpeed)
        ensures
            r == self.spec_clock_speed(),
    {
        SerialTransferClockSpeed::from_bits((get_bits8(self.bits, 1, 1)) as u8)
    }

    #[verifier::when_used_as_spec(spec_with_clock_speed)]
    pub fn with_clock_speed(self, value: SerialTransferClockSpeed) -> (r: SerialTransferControlRegister)
        ensures
            r == self.spec_with_clock_speed(value),
            r.spec_clock_speed() == value,
            r.spec_clock_select() == self.spec_clock_select(),
            r.spec_transfer_enable() == self.spec_transfer_enable(),
    {
        proof {
            lemma_serial_transfer_control_register_with_clock_speed(self, value);
        }
        SerialTransferControlRegister { bits: set_bits8(self.bits, 1, 1, value.into_bits()) }
    }

    pub fn set_clock_speed(&mut self, value: SerialTransferClockSpeed)
        ensures
            *final(self) == old(self).spec_with_clock_speed(value),
    {
        *self = self.with_clock_speed(value);
    }

    #[verifier::when_used_as_spec(spec_transfer_enable)]
    pub fn transfer_enable(&self) -> (r: bool)
        ensures
            r == self.spec_transfer_enable(),
    {
        get_bits8(self.bits, 7, 1) == 1
    }

    #[verifier::when_used_as_spec(spec_with_transfer_enable)]
    pub fn with_transfer_enable(self, value: bool) -> (r: SerialTransferControlRegister)
        ensures
            r == self.spec_with_transfer_enable(value),
            r.spec_transfer_enable() == value,
            r.spec_clock_select() == self.spec_clock_select(),
            r.spec_clock_speed() == self.spec_clock_speed(),
    {
        proof {
            lemma_serial_transfer_control_register_with_transfer_enable(self, value);
        }
        SerialTransferControlRegister { bits: set_bits8(self.bits, 7, 1, if value { 1u8 } else { 0u8 }) }
    }

    pub fn set_transfer_enable(&mut self, value: bool)
        ensures
            *final(self) == old(self).spec_with_transfer_enable(value),
    {
        *self = self.with_transfer_enable(value);
    }
}

/// The view of a register built from bits is those bits.
pub broadcast proof fn lemma_serial_transfer_control_register_view(bits: u8)
    ensures
        #[trigger] SerialTransferControlRegister::spec_from_bits(bits)@ == bits,
{
}

/// Two registers with the same bits are the same register.
pub broadcast proof fn lemma_serial_transfer_control_register_from_own_bits(r: SerialTransferControlRegister)
    ensures
        #[trigger] SerialTransferControlRegister::spec_from_bits(r@) == r,
{
}

/// Replacing `clock_select` makes it read back as the new value and keeps every other field.
pub broadcast proof fn lemma_serial_transfer_control_register_with_clock_select(r: SerialTransferControlRegister, value: SerialTransferClockSelect)
    ensures
        (#[trigger] r.spec_with_clock_select(value)).spec_clock_select() == value,
        r.spec_with_clock_select(value).spec_clock_speed() == r.spec_clock_speed(),
        r.spec_with_clock_select(value).spec_transfer_enable() == r.spec_transfer_enable(),
{
    lemma_small_masks();
    lemma_put_bits8_frame(r@, 0, 1, value@, 0, 1);
    lemma_put_bits8_frame(r@, 0, 1, value@, 1, 1);
    lemma_put_bits8_frame(r@, 0, 1, value@, 7, 1);
}

/// Replacing `clock_speed` makes it read back as the new value and keeps every other field.
pub broadcast proof fn lemma_serial_transfer_control_register_with_clock_speed(r: SerialTransferControlRegister, value: SerialTransferClockSpeed)
    ensures
        (#[trigger] r.spec_with_clock_speed(value)).spec_clock_speed() == value,
        r.spec_with_clock_speed(value).spec_clock_select() == r.spec_clock_select(),
        r.spec_with_clock_speed(value).spec_transfer_enable() == r.spec_transfer_enable(),
{
    lemma_small_masks();
    lemma_put_bits8_frame(r@, 1, 1, value@, 0, 1);
    lemma_put_bits8_frame(r@, 1, 1, value@, 1, 1);
    lemma_put_bits8_frame(r@, 1, 1, value@, 7, 1);
}

/// Replacing `transfer_enable` makes it read back as the new value and keeps every other field.
pub broadcast proof fn lemma_serial_transfer_control_register_with_transfer_enable(r: SerialTransferControlRegister, value: bool)
    ensures
        (#[trigger] r.spec_with_transfer_enable(value)).spec_transfer_enable() == value,
        r.spec_with_transfer_enable(value).spec_clock_select() == r.spec_clock_select(),
        r.spec_with_transfer_enable(value).spec_clock_speed() == r.spec_clock_speed(),
{
    lemma_small_masks();
    lemma_put_bits8_frame(r@, 7, 1, (if value { 1u8 } else { 0u8 }), 0, 1);
    lemma_put_bits8_frame(r@, 7, 1, (if value { 1u8 } else { 0u8 }), 1, 1);
    lemma_put_bits8_frame(r@, 7, 1, (if value { 1u8 } else { 0u8 }), 7, 1);
}

pub broadcast group group_serial_register_views {
    lemma_serial_transfer_control_register_view,
    lemma_serial_transfer_control_register_from_own_bits,
    lemma_serial_transfer_control_register_with_clock_select,
    lemma_serial_transfer_control_register_with_clock_speed,
    lemma_serial_transfer_control_register_with_transfer_enable,
}

/// The serial port: its data byte and its control register.
pub struct SerialBus {
    pub data: u8,
    pub control_register: SerialTransferControlRegister,
}

impl SerialBus {
    pub fn new() -> (r: SerialBus)
        ensures
            r.data == 0,
            r.control_register@ == 0,
    {
        SerialBus { data: 0, control_register: SerialTransferControlRegister::new() }
    }
}

} // verus!
