//! The CPU register file and its packed registers.
use vstd::prelude::*;
use crate::bits::{bits8, put_bits8, get_bits8, set_bits8, lemma_put_bits8_frame, lemma_small_masks};

verus! {

/// The flag register F. Bits 4 to 7 hold the carry, half-carry,
/// subtraction and zero flags; the low nibble is kept as written.
#[derive(Debug, Clone, Copy, PartialEq, Eq, Structural)]
pub struct CPUFlags {
    bits: u8,
}

impl View for CPUFlags {
    type V = u8;

    closed spec fn view(&self) -> u8 {
        self.bits
    }
}

impl CPUFlags {
    /// The register holding exactly the given bits.
    pub closed spec fn spec_from_bits(bits: u8) -> CPUFlags {
        CPUFlags { bits }
    }

    /// Carry flag.
    pub open spec fn spec_c(&self) -> bool {
        bits8(self@, 4, 1) == 1
    }

    pub open spec fn spec_with_c(self, value: bool) -> CPUFlags {
        CPUFlags::spec_from_bits(put_bits8(self@, 4, 1, (if value { 1u8 } else { 0u8 })))
    }

    /// Half-carry flag (BCD).
    pub open spec fn spec_h(&self) -> bool {
        bits8(self@, 5, 1) == 1
    }

    pub open spec fn spec_with_h(self, value: bool) -> CPUFlags {
        CPUFlags::spec_from_bits(put_bits8(self@, 5, 1, (if value { 1u8 } else { 0u8 })))
    }

    /// Subtraction flag (BCD).
    pub open spec fn spec_n(&self) -> bool {
        bits8(self@, 6, 1) == 1
    }

    pub open spec fn spec_with_n(self, value: bool) -> CPUFlags {
        CPUFlags::spec_from_bits(put_bits8(self@, 6, 1, (if value { 1u8 } else { 0u8 })))
    }

    /// Zero flag.
    pub open spec fn spec_z(&self) -> bool {
        bits8(self@, 7, 1) == 1
    }

    pub open spec fn spec_with_z(self, value: bool) -> CPUFlags {
        CPUFlags::spec_from_bits(put_bits8(self@, 7, 1, (if value { 1u8 } else { 0u8 })))
    }

    /// The register with every bit clear.
    pub fn new() -> (r: CPUFlags)
        ensures
            r@ == 0,
    {
        CPUFlags { bits: 0 }
    }

    #[verifier::when_used_as_spec(spec_from_bits)]
    pub fn from_bits(bits: u8) -> (r: CPUFlags)
        ensures
            r@ == bits,
            r == CPUFlags::spec_from_bits(bits),
    {
        CPUFlags { bits }
    }

    pub fn into_bits(self) -> (r: u8)
        ensures
            r == self@,
    {
        self.bits
    }

    #[verifier::when_used_as_spec(spec_c)]
    pub fn c(&self) -> (r: bool)
        ensures
            r == self.spec_c(),
    {
        get_bits8(self.bits, 4, 1) == 1
    }

    #[verifier::when_used_as_spec(spec_with_c)]
    pub fn with_c(self, value: bool) -> (r: CPUFlags)
        ensures
            r == self.spec_with_c(value),
            r.spec_c() == value,
            r.spec_h() == self.spec_h(),
            r.spec_n() == self.spec_n(),
            r.spec_z() == self.spec_z(),
    {
        proof {
            lemma_cpu_flags_with_c(self, value);
        }
        CPUFlags { bits: set_bits8(self.bits, 4, 1, if value { 1u8 } else { 0u8 }) }
    }

    pub fn set_c(&mut self, value: bool)
        ensures
            *final(self) == old(self).spec_with_c(value),
    {
        *self = self.with_c(value);
    }

    #[verifier::when_used_as_spec(spec_h)]
    pub fn h(&self) -> (r: bool)
        ensures
            r == self.spec_h(),
    {
        get_bits8(self.bits, 5, 1) == 1
    }

    #[verifier::when_used_as_spec(spec_with_h)]
    pub fn with_h(self, value: bool) -> (r: CPUFlags)
        ensures
            r == self.spec_with_h(value),
            r.spec_h() == value,
            r.spec_c() == self.spec_c(),
            r.spec_n() == self.spec_n(),
            r.spec_z() == self.spec_z(),
    {
        proof {
            lemma_cpu_flags_with_h(self, value);
        }
        CPUFlags { bits: set_bits8(self.bits, 5, 1, if value { 1u8 } else { 0u8 }) }
    }

    pub fn set_h(&mut self, value: bool)
        ensures
            *final(self) == old(self).spec_with_h(value),
    {
        *self = self.with_h(value);
    }

    #[verifier::when_used_as_spec(spec_n)]
    pub fn n(&self) -> (r: bool)
        ensures
            r == self.spec_n(),
    {
        get_bits8(self.bits, 6, 1) == 1
    }

    #[verifier::when_used_as_spec(spec_with_n)]
    pub fn with_n(self, value: bool) -> (r: CPUFlags)
        ensures
            r == self.spec_with_n(value),
            r.spec_n() == value,
            r.spec_c() == self.spec_c(),
            r.spec_h() == self.spec_h(),
            r.spec_z() == self.spec_z(),
    {
        proof {
            lemma_cpu_flags_with_n(self, value);
        }
        CPUFlags { bits: set_bits8(self.bits, 6, 1, if value { 1u8 } else { 0u8 }) }
    }

    pub fn set_n(&mut self, value: bool)
        ensures
            *final(self) == old(self).spec_with_n(value),
    {
        *self = self.with_n(value);
    }

    #[verifier::when_used_as_spec(spec_z)]
    pub fn z(&self) -> (r: bool)
        ensures
            r == self.spec_z(),
    {
        get_bits8(self.bits, 7, 1) == 1
    }

    #[verifier::when_used_as_spec(spec_with_z)]
    pub fn with_z(self, value: bool) -> (r: CPUFlags)
        ensures
            r == self.spec_with_z(value),
            r.spec_z() == value,
            r.spec_c() == self.spec_c(),
            r.spec_h() == self.spec_h(),
            r.spec_n() == self.spec_n(),
    {
        proof {
            lemma_cpu_flags_with_z(self, value);
        }
        CPUFlags { bits: set_bits8(self.bits, 7, 1, if value { 1u8 } else { 0u8 }) }
    }

    pub fn set_z(&mut self, value: bool)
        ensures
            *final(self) == old(self).spec_with_z(value),
    {
        *self = self.with_z(value);
    }
}

/// The view of a register built from bits is those bits.
pub broadcast proof fn lemma_cpu_flags_view(bits: u8)
    ensures
        #[trigger] CPUFlags::spec_from_bits(bits)@ == bits,
{
}

/// Two registers with the same bits are the same register.
pub broadcast proof fn lemma_cpu_flags_from_own_bits(r: CPUFlags)
    ensures
        #[trigger] CPUFlags::spec_from_bits(r@) == r,
{
}

/// Replacing `c` makes it read back as the new value and keeps every other field.
pub broadcast proof fn lemma_cpu_flags_with_c(r: CPUFlags, value: bool)
    ensures
        (#[trigger] r.spec_with_c(value)).spec_c() == value,
        r.spec_with_c(value).spec_h() == r.spec_h(),
        r.spec_with_c(value).spec_n() == r.spec_n(),
        r.spec_with_c(value).spec_z() == r.spec_z(),
{
    lemma_small_masks();
    lemma_put_bits8_frame(r@, 4, 1, (if value { 1u8 } else { 0u8 }), 4, 1);
    lemma_put_bits8_frame(r@, 4, 1, (if value { 1u8 } else { 0u8 }), 5, 1);
    lemma_put_bits8_frame(r@, 4, 1, (if value { 1u8 } else { 0u8 }), 6, 1);
    lemma_put_bits8_frame(r@, 4, 1, (if value { 1u8 } else { 0u8 }), 7, 1);
}

/// Replacing `h` makes it read back as the new value and keeps every other field.
pub broadcast proof fn lemma_cpu_flags_with_h(r: CPUFlags, value: bool)
    ensures
        (#[trigger] r.spec_with_h(value)).spec_h() == value,
        r.spec_with_h(value).spec_c() == r.spec_c(),
        r.spec_with_h(value).spec_n() == r.spec_n(),
        r.spec_with_h(value).spec_z() == r.spec_z(),
{
    lemma_small_masks();
    lemma_put_bits8_frame(r@, 5, 1, (if value { 1u8 } else { 0u8 }), 4, 1);
    lemma_put_bits8_frame(r@, 5, 1, (if value { 1u8 } else { 0u8 }), 5, 1);
    lemma_put_bits8_frame(r@, 5, 1, (if value { 1u8 } else { 0u8 }), 6, 1);
    lemma_put_bits8_frame(r@, 5, 1, (if value { 1u8 } else { 0u8 }), 7, 1);
}

/// Replacing `n` makes it read back as the new value and keeps every other field.
pub broadcast proof fn lemma_cpu_flags_with_n(r: CPUFlags, value: bool)
    ensures
        (#[trigger] r.spec_with_n(value)).spec_n() == value,
        r.spec_with_n(value).spec_c() == r.spec_c(),
        r.spec_with_n(value).spec_h() == r.spec_h(),
        r.spec_with_n(value).spec_z() == r.spec_z(),
{
    lemma_small_masks();
    lemma_put_bits8_frame(r@, 6, 1, (if value { 1u8 } else { 0u8 }), 4, 1);
    lemma_put_bits8_frame(r@, 6, 1, (if value { 1u8 } else { 0u8 }), 5, 1);
    lemma_put_bits8_frame(r@, 6, 1, (if value { 1u8 } else { 0u8 }), 6, 1);
    lemma_put_bits8_frame(r@, 6, 1, (if value { 1u8 } else { 0u8 }), 7, 1);
}

/// Replacing `z` makes it read back as the new value and keeps every other field.
pub broadcast proof fn lemma_cpu_flags_with_z(r: CPUFlags, value: bool)
    ensures
        (#[trigger] r.spec_with_z(value)).spec_z() == value,
        r.spec_with_z(value).spec_c() == r.spec_c(),
        r.spec_with_z(value).spec_h() == r.spec_h(),
        r.spec_with_z(value).spec_n() == r.spec_n(),
{
    lemma_small_masks();
    lemma_put_bits8_frame(r@, 7, 1, (if value { 1u8 } else { 0u8 }), 4, 1);
    lemma_put_bits8_frame(r@, 7, 1, (if value { 1u8 } else { 0u8 }), 5, 1);
    lemma_put_bits8_frame(r@, 7, 1, (if value { 1u8 } else { 0u8 }), 6, 1);
    lemma_put_bits8_frame(r@, 7, 1, (if value { 1u8 } else { 0u8 }), 7, 1);
}

/// The accumulator A (high byte) paired with the flags F (low byte).
#[derive(Debug, Clone, Copy, PartialEq, Eq, Structural)]
pub struct AFRegister {
    bits: u16,
}

impl View for AFRegister {
    type V = u16;

    closed spec fn view(&self) -> u16 {
        self.bits
    }
}

impl AFRegister {
    /// The register holding exactly the given bits.
    pub closed spec fn spec_from_bits(bits: u16) -> AFRegister {
        AFRegister { bits }
    }

    pub open spec fn spec_f(&self) -> CPUFlags {
        CPUFlags::spec_from_bits((((self@ as int / 1) % 256) as u8))
    }

    pub open spec fn spec_with_f(self, value: CPUFlags) -> AFRegister {
        AFRegister::spec_from_bits((self@ as int - ((self@ as int / 1) % 256) * 1 + value@ as int * 1) as u16)
    }

    pub open spec fn spec_a(&self) -> u8 {
        ((self@ as int / 256) % 256) as u8
    }

    pub open spec fn spec_with_a(self, value: u8) -> AFRegister {
        AFRegister::spec_from_bits((self@ as int - ((self@ as int / 256) % 256) * 256 + value as int * 256) as u16)
    }

    /// The register with every bit clear.
    pub fn new() -> (r: AFRegister)
        ensures
            r@ == 0,
    {
        AFRegister { bits: 0 }
    }

    #[verifier::when_used_as_spec(spec_from_bits)]
    pub fn from_bits(bits: u16) -> (r: AFRegister)
        ensures
            r@ == bits,
            r == AFRegister::spec_from_bits(bits),
    {
        AFRegister { bits }
    }

    pub fn into_bits(self) -> (r: u16)
        ensures
            r == self@,
    {
        self.bits
    }

    #[verifier::when_used_as_spec(spec_f)]
    pub fn f(&self) -> (r: CPUFlags)
        ensures
            r == self.spec_f(),
    {
        CPUFlags::from_bits(((self.bits / 1) % 256) as u8)
    }

    #[verifier::when_used_as_spec(spec_with_f)]
    pub fn with_f(self, value: CPUFlags) -> (r: AFRegister)
        ensures
            r == self.spec_with_f(value),
            r.spec_f() == value,
            r.spec_a() == self.spec_a(),
    {
        proof {
            lemma_af_register_with_f(self, value);
        }
        let cur = (self.bits / 1) % 256;
        let v: u16 = value.into_bits() as u16;
        AFRegister { bits: self.bits - cur * 1 + v * 1 }
    }

    pub fn set_f(&mut self, value: CPUFlags)
        ensures
            *final(self) == old(self).spec_with_f(value),
    {
        *self = self.with_f(value);
    }

    #[verifier::when_used_as_spec(spec_a)]
    pub fn a(&self) -> (r: u8)
        ensures
            r == self.spec_a(),
    {
        ((self.bits / 256) % 256) as u8
    }

    #[verifier::when_used_as_spec(spec_with_a)]
    pub fn with_a(self, value: u8) -> (r: AFRegister)
        requires
            value < 256,
        ensures
            r == self.spec_with_a(value),
            r.spec_a() == value,
            r.spec_f() == self.spec_f(),
    {
        proof {
            lemma_af_register_with_a(self, value);
        }
        let cur = (self.bits / 256) % 256;
        let v: u16 = value as u16;
        AFRegister { bits: self.bits - cur * 256 + v * 256 }
    }

    pub fn set_a(&mut self, value: u8)
        requires
            value < 256,
        ensures
            *final(self) == old(self).spec_with_a(value),
    {
        *self = self.with_a(value);
    }
}

/// The view of a register built from bits is those bits.
pub broadcast proof fn lemma_af_register_view(bits: u16)
    ensures
        #[trigger] AFRegister::spec_from_bits(bits)@ == bits,
{
}

/// Two registers with the same bits are the same register.
pub broadcast proof fn lemma_af_register_from_own_bits(r: AFRegister)
    ensures
        #[trigger] AFRegister::spec_from_bits(r@) == r,
{
}

/// Replacing `f` makes it read back as the new value and keeps every other field.
pub broadcast proof fn lemma_af_register_with_f(r: AFRegister, value: CPUFlags)
    ensures
        (#[trigger] r.spec_with_f(value)).spec_f() == value,
        r.spec_with_f(value).spec_a() == r.spec_a(),
{
}

/// Replacing `a` makes it read back as the new value and keeps every other field.
pub broadcast proof fn lemma_af_register_with_a(r: AFRegister, value: u8)
    requires
        value < 256,
    ensures
        (#[trigger] r.spec_with_a(value)).spec_a() == value,
        r.spec_with_a(value).spec_f() == r.spec_f(),
{
}

/// The register pair BC: B is the high byte, C the low byte.
#[derive(Debug, Clone, Copy, PartialEq, Eq, Structural)]
pub struct BCRegister {
    bits: u16,
}

impl View for BCRegister {
    type V = u16;

    closed spec fn view(&self) -> u16 {
        self.bits
    }
}

impl BCRegister {
    /// The register holding exactly the given bits.
    pub closed spec fn spec_from_bits(bits: u16) -> BCRegister {
        BCRegister { bits }
    }

    pub open spec fn spec_c(&self) -> u8 {
        ((self@ as int / 1) % 256) as u8
    }

    pub open spec fn spec_with_c(self, value: u8) -> BCRegister {
        BCRegister::spec_from_bits((self@ as int - ((self@ as int / 1) % 256) * 1 + value as int * 1) as u16)
    }

    pub open spec fn spec_b(&self) -> u8 {
        ((self@ as int / 256) % 256) as u8
    }

    pub open spec fn spec_with_b(self, value: u8) -> BCRegister {
        BCRegister::spec_from_bits((self@ as int - ((self@ as int / 256) % 256) * 256 + value as int * 256) as u16)
    }

    /// The register with every bit clear.
    pub fn new() -> (r: BCRegister)
        ensures
            r@ == 0,
    {
        BCRegister { bits: 0 }
    }

    #[verifier::when_used_as_spec(spec_from_bits)]
    pub fn from_bits(bits: u16) -> (r: BCRegister)
        ensures
            r@ == bits,
            r == BCRegister::spec_from_bits(bits),
    {
        BCRegister { bits }
    }

    pub fn into_bits(self) -> (r: u16)
        ensures
            r == self@,
    {
        self.bits
    }

    #[verifier::when_used_as_spec(spec_c)]
    pub fn c(&self) -> (r: u8)
        ensures
            r == self.spec_c(),
    {
        ((self.bits / 1) % 256) as u8
    }

    #[verifier::when_used_as_spec(spec_with_c)]
    pub fn with_c(self, value: u8) -> (r: BCRegister)
        requires
            value < 256,
        ensures
            r == self.spec_with_c(value),
            r.spec_c() == value,
            r.spec_b() == self.spec_b(),
    {
        proof {
            lemma_bc_register_with_c(self, value);
        }
        let cur = (self.bits / 1) % 256;
        let v: u16 = value as u16;
        BCRegister { bits: self.bits - cur * 1 + v * 1 }
    }

    pub fn set_c(&mut self, value: u8)
        requires
            value < 256,
        ensures
            *final(self) == old(self).spec_with_c(value),
    {
        *self = self.with_c(value);
    }

    #[verifier::when_used_as_spec(spec_b)]
    pub fn b(&self) -> (r: u8)
        ensures
            r == self.spec_b(),
    {
        ((self.bits / 256) % 256) as u8
    }

    #[verifier::when_used_as_spec(spec_with_b)]
    pub fn with_b(self, value: u8) -> (r: BCRegister)
        requires
            value < 256,
        ensures
            r == self.spec_with_b(value),
            r.spec_b() == value,
            r.spec_c() == self.spec_c(),
    {
        proof {
            lemma_bc_register_with_b(self, value);
        }
        let cur = (self.bits / 256) % 256;
        let v: u16 = value as u16;
        BCRegister { bits: self.bits - cur * 256 + v * 256 }
    }

    pub fn set_b(&mut self, value: u8)
        requires
            value < 256,
        ensures
            *final(self) == old(self).spec_with_b(value),
    {
        *self = self.with_b(value);
    }
}

/// The view of a register built from bits is those bits.
pub broadcast proof fn lemma_bc_register_view(bits: u16)
    ensures
        #[trigger] BCRegister::spec_from_bits(bits)@ == bits,
{
}

/// Two registers with the same bits are the same register.
pub broadcast proof fn lemma_bc_register_from_own_bits(r: BCRegister)
    ensures
        #[trigger] BCRegister::spec_from_bits(r@) == r,
{
}

/// Replacing `c` makes it read back as the new value and keeps every other field.
pub broadcast proof fn lemma_bc_register_with_c(r: BCRegister, value: u8)
    requires
        value < 256,
    ensures
        (#[trigger] r.spec_with_c(value)).spec_c() == value,
        r.spec_with_c(value).spec_b() == r.spec_b(),
{
}

/// Replacing `b` makes it read back as the new value and keeps every other field.
pub broadcast proof fn lemma_bc_register_with_b(r: BCRegister, value: u8)
    requires
        value < 256,
    ensures
        (#[trigger] r.spec_with_b(value)).spec_b() == value,
        r.spec_with_b(value).spec_c() == r.spec_c(),
{
}

/// The register pair DE: D is the high byte, E the low byte.
#[derive(Debug, Clone, Copy, PartialEq, Eq, Structural)]
pub struct DERegister {
    bits: u16,
}

impl View for DERegister {
    type V = u16;

    closed spec fn view(&self) -> u16 {
        self.bits
    }
}

impl DERegister {
    /// The register holding exactly the given bits.
    pub closed spec fn spec_from_bits(bits: u16) -> DERegister {
        DERegister { bits }
    }

    pub open spec fn spec_e(&self) -> u8 {
        ((self@ as int / 1) % 256) as u8
    }

    pub open spec fn spec_with_e(self, value: u8) -> DERegister {
        DERegister::spec_from_bits((self@ as int - ((self@ as int / 1) % 256) * 1 + value as int * 1) as u16)
    }

    pub open spec fn spec_d(&self) -> u8 {
        ((self@ as int / 256) % 256) as u8
    }

    pub open spec fn spec_with_d(self, value: u8) -> DERegister {
        DERegister::spec_from_bits((self@ as int - ((self@ as int / 256) % 256) * 256 + value as int * 256) as u16)
    }

    /// The register with every bit clear.
    pub fn new() -> (r: DERegister)
        ensures
            r@ == 0,
    {
        DERegister { bits: 0 }
    }

    #[verifier::when_used_as_spec(spec_from_bits)]
    pub fn from_bits(bits: u16) -> (r: DERegister)
        ensures
            r@ == bits,
            r == DERegister::spec_from_bits(bits),
    {
        DERegister { bits }
    }

    pub fn into_bits(self) -> (r: u16)
        ensures
            r == self@,
    {
        self.bits
    }

    #[verifier::when_used_as_spec(spec_e)]
    pub fn e(&self) -> (r: u8)
        ensures
            r == self.spec_e(),
    {
        ((self.bits / 1) % 256) as u8
    }

    #[verifier::when_used_as_spec(spec_with_e)]
    pub fn with_e(self, value: u8) -> (r: DERegister)
        requires
            value < 256,
        ensures
            r == self.spec_with_e(value),
            r.spec_e() == value,
            r.spec_d() == self.spec_d(),
    {
        proof {
            lemma_de_register_with_e(self, value);
        }
        let cur = (self.bits / 1) % 256;
        let v: u16 = value as u16;
        DERegister { bits: self.bits - cur * 1 + v * 1 }
    }

    pub fn set_e(&mut self, value: u8)
        requires
            value < 256,
        ensures
            *final(self) == old(self).spec_with_e(value),
    {
        *self = self.with_e(value);
    }

    #[verifier::when_used_as_spec(spec_d)]
    pub fn d(&self) -> (r: u8)
        ensures
            r == self.spec_d(),
    {
        ((self.bits / 256) % 256) as u8
    }

    #[verifier::when_used_as_spec(spec_with_d)]
    pub fn with_d(self, value: u8) -> (r: DERegister)
        requires
            value < 256,
        ensures
            r == self.spec_with_d(value),
            r.spec_d() == value,
            r.spec_e() == self.spec_e(),
    {
        proof {
            lemma_de_register_with_d(self, value);
        }
        let cur = (self.bits / 256) % 256;
        let v: u16 = value as u16;
        DERegister { bits: self.bits - cur * 256 + v * 256 }
    }

    pub fn set_d(&mut self, value: u8)
        requires
            value < 256,
        ensures
            *final(self) == old(self).spec_with_d(value),
    {
        *self = self.with_d(value);
    }
}

/// The view of a register built from bits is those bits.
pub broadcast proof fn lemma_de_register_view(bits: u16)
    ensures
        #[trigger] DERegister::spec_from_bits(bits)@ == bits,
{
}

/// Two registers with the same bits are the same register.
pub broadcast proof fn lemma_de_register_from_own_bits(r: DERegister)
    ensures
        #[trigger] DERegister::spec_from_bits(r@) == r,
{
}

/// Replacing `e` makes it read back as the new value and keeps every other field.
pub broadcast proof fn lemma_de_register_with_e(r: DERegister, value: u8)
    requires
        value < 256,
    ensures
        (#[trigger] r.spec_with_e(value)).spec_e() == value,
        r.spec_with_e(value).spec_d() == r.spec_d(),
{
}

/// Replacing `d` makes it read back as the new value and keeps every other field.
pub broadcast proof fn lemma_de_register_with_d(r: DERegister, value: u8)
    requires
        value < 256,
    ensures
        (#[trigger] r.spec_with_d(value)).spec_d() == value,
        r.spec_with_d(value).spec_e() == r.spec_e(),
{
}

/// The register pair HL: H is the high byte, L the low byte.
#[derive(Debug, Clone, Copy, PartialEq, Eq, Structural)]
pub struct HLRegister {
    bits: u16,
}

impl View for HLRegister {
    type V = u16;

    closed spec fn view(&self) -> u16 {
        self.bits
    }
}

impl HLRegister {
    /// The register holding exactly the given bits.
    pub closed spec fn spec_from_bits(bits: u16) -> HLRegister {
        HLRegister { bits }
    }

    pub open spec fn spec_l(&self) -> u8 {
        ((self@ as int / 1) % 256) as u8
    }

    pub open spec fn spec_with_l(self, value: u8) -> HLRegister {
        HLRegister::spec_from_bits((self@ as int - ((self@ as int / 1) % 256) * 1 + value as int * 1) as u16)
    }

    pub open spec fn spec_h(&self) -> u8 {
        ((self@ as int / 256) % 256) as u8
    }

    pub open spec fn spec_with_h(self, value: u8) -> HLRegister {
        HLRegister::spec_from_bits((self@ as int - ((self@ as int / 256) % 256) * 256 + value as int * 256) as u16)
    }

    /// The register with every bit clear.
    pub fn new() -> (r: HLRegister)
        ensures
            r@ == 0,
    {
        HLRegister { bits: 0 }
    }

    #[verifier::when_used_as_spec(spec_from_bits)]
    pub fn from_bits(bits: u16) -> (r: HLRegister)
        ensures
            r@ == bits,
            r == HLRegister::spec_from_bits(bits),
    {
        HLRegister { bits }
    }

    pub fn into_bits(self) -> (r: u16)
        ensures
            r == self@,
    {
        self.bits
    }

    #[verifier::when_used_as_spec(spec_l)]
    pub fn l(&self) -> (r: u8)
        ensures
            r == self.spec_l(),
    {
        ((self.bits / 1) % 256) as u8
    }

    #[verifier::when_used_as_spec(spec_with_l)]
    pub fn with_l(self, value: u8) -> (r: HLRegister)
        requires
            value < 256,
        ensures
            r == self.spec_with_l(value),
            r.spec_l() == value,
            r.spec_h() == self.spec_h(),
    {
        proof {
            lemma_hl_register_with_l(self, value);
        }
        let cur = (self.bits / 1) % 256;
        let v: u16 = value as u16;
        HLRegister { bits: self.bits - cur * 1 + v * 1 }
    }

    pub fn set_l(&mut self, value: u8)
        requires
            value < 256,
        ensures
            *final(self) == old(self).spec_with_l(value),
    {
        *self = self.with_l(value);
    }

    #[verifier::when_used_as_spec(spec_h)]
    pub fn h(&self) -> (r: u8)
        ensures
            r == self.spec_h(),
    {
        ((self.bits / 256) % 256) as u8
    }

    #[verifier::when_used_as_spec(spec_with_h)]
    pub fn with_h(self, value: u8) -> (r: HLRegister)
        requires
            value < 256,
        ensures
            r == self.spec_with_h(value),
            r.spec_h() == value,
            r.spec_l() == self.spec_l(),
    {
        proof {
            lemma_hl_register_with_h(self, value);
        }
        let cur = (self.bits / 256) % 256;
        let v: u16 = value as u16;
        HLRegister { bits: self.bits - cur * 256 + v * 256 }
    }

    pub fn set_h(&mut self, value: u8)
        requires
            value < 256,
        ensures
            *final(self) == old(self).spec_with_h(value),
    {
        *self = self.with_h(value);
    }
}

/// The view of a register built from bits is those bits.
pub broadcast proof fn lemma_hl_register_view(bits: u16)
    ensures
        #[trigger] HLRegister::spec_from_bits(bits)@ == bits,
{
}

/// Two registers with the same bits are the same register.
pub broadcast proof fn lemma_hl_register_from_own_bits(r: HLRegister)
    ensures
        #[trigger] HLRegister::spec_from_bits(r@) == r,
{
}

/// Replacing `l` makes it read back as the new value and keeps every other field.
pub broadcast proof fn lemma_hl_register_with_l(r: HLRegister, value: u8)
    requires
        value < 256,
    ensures
        (#[trigger] r.spec_with_l(value)).spec_l() == value,
        r.spec_with_l(value).spec_h() == r.spec_h(),
{
}

/// Replacing `h` makes it read back as the new value and keeps every other field.
pub broadcast proof fn lemma_hl_register_with_h(r: HLRegister, value: u8)
    requires
        value < 256,
    ensures
        (#[trigger] r.spec_with_h(value)).spec_h() == value,
        r.spec_with_h(value).spec_l() == r.spec_l(),
{
}

/// The interrupt enable register (IE, mapped at 0xFFFF).
#[derive(Debug, Clone, Copy, PartialEq, Eq, Structural)]
pub struct IERegister {
    bits: u8,
}

impl View for IERegister {
    type V = u8;

    closed spec fn view(&self) -> u8 {
        self.bits
    }
}

impl IERegister {
    /// The register holding exactly the given bits.
    pub closed spec fn spec_from_bits(bits: u8) -> IERegister {
        IERegister { bits }
    }

    pub open spec fn spec_vblank(&self) -> bool {
        bits8(self@, 0, 1) == 1
    }

    pub open spec fn spec_with_vblank(self, value: bool) -> IERegister {
        IERegister::spec_from_bits(put_bits8(self@, 0, 1, (if value { 1u8 } else { 0u8 })))
    }

    pub open spec fn spec_lcd(&self) -> bool {
        bits8(self@, 1, 1) == 1
    }

    pub open spec fn spec_with_lcd(self, value: bool) -> IERegister {
        IERegister::spec_from_bits(put_bits8(self@, 1, 1, (if value { 1u8 } else { 0u8 })))
    }

    pub open spec fn spec_timer(&self) -> bool {
        bits8(self@, 2, 1) == 1
    }

    pub open spec fn spec_with_timer(self, value: bool) -> IERegister {
        IERegister::spec_from_bits(put_bits8(self@, 2, 1, (if value { 1u8 } else { 0u8 })))
    }

    pub open spec fn spec_serial(&self) -> bool {
        bits8(self@, 3, 1) == 1
    }

    pub open spec fn spec_with_serial(self, value: bool) -> IERegister {
        IERegister::spec_from_bits(put_bits8(self@, 3, 1, (if value { 1u8 } else { 0u8 })))
    }

    pub open spec fn spec_joypad(&self) -> bool {
        bits8(self@, 4, 1) == 1
    }

    pub open spec fn spec_with_joypad(self, value: bool) -> IERegister {
        IERegister::spec_from_bits(put_bits8(self@, 4, 1, (if value { 1u8 } else { 0u8 })))
    }

    /// The register with every bit clear.
    pub fn new() -> (r: IERegister)
        ensures
            r@ == 0,
    {
        IERegister { bits: 0 }
    }

    #[verifier::when_used_as_spec(spec_from_bits)]
    pub fn from_bits(bits: u8) -> (r: IERegister)
        ensures
            r@ == bits,
            r == IERegister::spec_from_bits(bits),
    {
        IERegister { bits }
    }

    pub fn into_bits(self) -> (r: u8)
        ensures
            r == self@,
    {
        self.bits
    }

    #[verifier::when_used_as_spec(spec_vblank)]
    pub fn vblank(&self) -> (r: bool)
        ensures
            r == self.spec_vblank(),
    {
        get_bits8(self.bits, 0, 1) == 1
    }

    #[verifier::when_used_as_spec(spec_with_vblank)]
    pub fn with_vblank(self, value: bool) -> (r: IERegister)
        ensures
            r == self.spec_with_vblank(value),
            r.spec_vblank() == value,
            r.spec_lcd() == self.spec_lcd(),
            r.spec_timer() == self.spec_timer(),
            r.spec_serial() == self.spec_serial(),
            r.spec_joypad() == self.spec_joypad(),
    {
        proof {
            lemma_ie_register_with_vblank(self, value);
        }
        IERegister { bits: set_bits8(self.bits, 0, 1, if value { 1u8 } else { 0u8 }) }
    }

    pub fn set_vblank(&mut self, value: bool)
        ensures
            *final(self) == old(self).spec_with_vblank(value),
    {
        *self = self.with_vblank(value);
    }

    #[verifier::when_used_as_spec(spec_lcd)]
    pub fn lcd(&self) -> (r: bool)
        ensures
            r == self.spec_lcd(),
    {
        get_bits8(self.bits, 1, 1) == 1
    }

    #[verifier::when_used_as_spec(spec_with_lcd)]
    pub fn with_lcd(self, value: bool) -> (r: IERegister)
        ensures
            r == self.spec_with_lcd(value),
            r.spec_lcd() == value,
            r.spec_vblank() == self.spec_vblank(),
            r.spec_timer() == self.spec_timer(),
            r.spec_serial() == self.spec_serial(),
            r.spec_joypad() == self.spec_joypad(),
    {
        proof {
            lemma_ie_register_with_lcd(self, value);
        }
        IERegister { bits: set_bits8(self.bits, 1, 1, if value { 1u8 } else { 0u8 }) }
    }

    pub fn set_lcd(&mut self, value: bool)
        ensures
            *final(self) == old(self).spec_with_lcd(value),
    {
        *self = self.with_lcd(value);
    }

    #[verifier::when_used_as_spec(spec_timer)]
    pub fn timer(&self) -> (r: bool)
        ensures
            r == self.spec_timer(),
    {
        get_bits8(self.bits, 2, 1) == 1
    }

    #[verifier::when_used_as_spec(spec_with_timer)]
    pub fn with_timer(self, value: bool) -> (r: IERegister)
        ensures
            r == self.spec_with_timer(value),
            r.spec_timer() == value,
            r.spec_vblank() == self.spec_vblank(),
            r.spec_lcd() == self.spec_lcd(),
            r.spec_serial() == self.spec_serial(),
            r.spec_joypad() == self.spec_joypad(),
    {
        proof {
            lemma_ie_register_with_timer(self, value);
        }
        IERegister { bits: set_bits8(self.bits, 2, 1, if value { 1u8 } else { 0u8 }) }
    }

    pub fn set_timer(&mut self, value: bool)
        ensures
            *final(self) == old(self).spec_with_timer(value),
    {
        *self = self.with_timer(value);
    }

    #[verifier::when_used_as_spec(spec_serial)]
    pub fn serial(&self) -> (r: bool)
        ensures
            r == self.spec_serial(),
    {
        get_bits8(self.bits, 3, 1) == 1
    }

    #[verifier::when_used_as_spec(spec_with_serial)]
    pub fn with_serial(self, value: bool) -> (r: IERegister)
        ensures
            r == self.spec_with_serial(value),
            r.spec_serial() == value,
            r.spec_vblank() == self.spec_vblank(),
            r.spec_lcd() == self.spec_lcd(),
            r.spec_timer() == self.spec_timer(),
            r.spec_joypad() == self.spec_joypad(),
    {
        proof {
            lemma_ie_register_with_serial(self, value);
        }
        IERegister { bits: set_bits8(self.bits, 3, 1, if value { 1u8 } else { 0u8 }) }
    }

    pub fn set_serial(&mut self, value: bool)
        ensures
            *final(self) == old(self).spec_with_serial(value),
    {
        *self = self.with_serial(value);
    }

    #[verifier::when_used_as_spec(spec_joypad)]
    pub fn joypad(&self) -> (r: bool)
        ensures
            r == self.spec_joypad(),
    {
        get_bits8(self.bits, 4, 1) == 1
    }

    #[verifier::when_used_as_spec(spec_with_joypad)]
    pub fn with_joypad(self, value: bool) -> (r: IERegister)
        ensures
            r == self.spec_with_joypad(value),
            r.spec_joypad() == value,
            r.spec_vblank() == self.spec_vblank(),
            r.spec_lcd() == self.spec_lcd(),
            r.spec_timer() == self.spec_timer(),
            r.spec_serial() == self.spec_serial(),
    {
        proof {
            lemma_ie_register_with_joypad(self, value);
        }
        IERegister { bits: set_bits8(self.bits, 4, 1, if value { 1u8 } else { 0u8 }) }
    }

    pub fn set_joypad(&mut self, value: bool)
        ensures
            *final(self) == old(self).spec_with_joypad(value),
    {
        *self = self.with_joypad(value);
    }
}

/// The view of a register built from bits is those bits.
pub broadcast proof fn lemma_ie_register_view(bits: u8)
    ensures
        #[trigger] IERegister::spec_from_bits(bits)@ == bits,
{
}

/// Two registers with the same bits are the same register.
pub broadcast proof fn lemma_ie_register_from_own_bits(r: IERegister)
    ensures
        #[trigger] IERegister::spec_from_bits(r@) == r,
{
}

/// Replacing `vblank` makes it read back as the new value and keeps every other field.
pub broadcast proof fn lemma_ie_register_with_vblank(r: IERegister, value: bool)
    ensures
        (#[trigger] r.spec_with_vblank(value)).spec_vblank() == value,
        r.spec_with_vblank(value).spec_lcd() == r.spec_lcd(),
        r.spec_with_vblank(value).spec_timer() == r.spec_timer(),
        r.spec_with_vblank(value).spec_serial() == r.spec_serial(),
        r.spec_with_vblank(value).spec_joypad() == r.spec_joypad(),
{
    lemma_small_masks();
    lemma_put_bits8_frame(r@, 0, 1, (if value { 1u8 } else { 0u8 }), 0, 1);
    lemma_put_bits8_frame(r@, 0, 1, (if value { 1u8 } else { 0u8 }), 1, 1);
    lemma_put_bits8_frame(r@, 0, 1, (if value { 1u8 } else { 0u8 }), 2, 1);
    lemma_put_bits8_frame(r@, 0, 1, (if value { 1u8 } else { 0u8 }), 3, 1);
    lemma_put_bits8_frame(r@, 0, 1, (if value { 1u8 } else { 0u8 }), 4, 1);
}

/// Replacing `lcd` makes it read back as the new value and keeps every other field.
pub broadcast proof fn lemma_ie_register_with_lcd(r: IERegister, value: bool)
    ensures
        (#[trigger] r.spec_with_lcd(value)).spec_lcd() == value,
        r.spec_with_lcd(value).spec_vblank() == r.spec_vblank(),
        r.spec_with_lcd(value).spec_timer() == r.spec_timer(),
        r.spec_with_lcd(value).spec_serial() == r.spec_serial(),
        r.spec_with_lcd(value).spec_joypad() == r.spec_joypad(),
{
    lemma_small_masks();
    lemma_put_bits8_frame(r@, 1, 1, (if value { 1u8 } else { 0u8 }), 0, 1);
    lemma_put_bits8_frame(r@, 1, 1, (if value { 1u8 } else { 0u8 }), 1, 1);
    lemma_put_bits8_frame(r@, 1, 1, (if value { 1u8 } else { 0u8 }), 2, 1);
    lemma_put_bits8_frame(r@, 1, 1, (if value { 1u8 } else { 0u8 }), 3, 1);
    lemma_put_bits8_frame(r@, 1, 1, (if value { 1u8 } else { 0u8 }), 4, 1);
}

/// Replacing `timer` makes it read back as the new value and keeps every other field.
pub broadcast proof fn lemma_ie_register_with_timer(r: IERegister, value: bool)
    ensures
        (#[trigger] r.spec_with_timer(value)).spec_timer() == value,
        r.spec_with_timer(value).spec_vblank() == r.spec_vblank(),
        r.spec_with_timer(value).spec_lcd() == r.spec_lcd(),
        r.spec_with_timer(value).spec_serial() == r.spec_serial(),
        r.spec_with_timer(value).spec_joypad() == r.spec_joypad(),
{
    lemma_small_masks();
    lemma_put_bits8_frame(r@, 2, 1, (if value { 1u8 } else { 0u8 }), 0, 1);
    lemma_put_bits8_frame(r@, 2, 1, (if value { 1u8 } else { 0u8 }), 1, 1);
    lemma_put_bits8_frame(r@, 2, 1, (if value { 1u8 } else { 0u8 }), 2, 1);
    lemma_put_bits8_frame(r@, 2, 1, (if value { 1u8 } else { 0u8 }), 3, 1);
    lemma_put_bits8_frame(r@, 2, 1, (if value { 1u8 } else { 0u8 }), 4, 1);
}

/// Replacing `serial` makes it read back as the new value and keeps every other field.
pub broadcast proof fn lemma_ie_register_with_serial(r: IERegister, value: bool)
    ensures
        (#[trigger] r.spec_with_serial(value)).spec_serial() == value,
        r.spec_with_serial(value).spec_vblank() == r.spec_vblank(),
        r.spec_with_serial(value).spec_lcd() == r.spec_lcd(),
        r.spec_with_serial(value).spec_timer() == r.spec_timer(),
        r.spec_with_serial(value).spec_joypad() == r.spec_joypad(),
{
    lemma_small_masks();
    lemma_put_bits8_frame(r@, 3, 1, (if value { 1u8 } else { 0u8 }), 0, 1);
    lemma_put_bits8_frame(r@, 3, 1, (if value { 1u8 } else { 0u8 }), 1, 1);
    lemma_put_bits8_frame(r@, 3, 1, (if value { 1u8 } else { 0u8 }), 2, 1);
    lemma_put_bits8_frame(r@, 3, 1, (if value { 1u8 } else { 0u8 }), 3, 1);
    lemma_put_bits8_frame(r@, 3, 1, (if value { 1u8 } else { 0u8 }), 4, 1);
}

/// Replacing `joypad` makes it read back as the new value and keeps every other field.
pub broadcast proof fn lemma_ie_register_with_joypad(r: IERegister, value: bool)
    ensures
        (#[trigger] r.spec_with_joypad(value)).spec_joypad() == value,
        r.spec_with_joypad(value).spec_vblank() == r.spec_vblank(),
        r.spec_with_joypad(value).spec_lcd() == r.spec_lcd(),
        r.spec_with_joypad(value).spec_timer() == r.spec_timer(),
        r.spec_with_joypad(value).spec_serial() == r.spec_serial(),
{
    lemma_small_masks();
    lemma_put_bits8_frame(r@, 4, 1, (if value { 1u8 } else { 0u8 }), 0, 1);
    lemma_put_bits8_frame(r@, 4, 1, (if value { 1u8 } else { 0u8 }), 1, 1);
    lemma_put_bits8_frame(r@, 4, 1, (if value { 1u8 } else { 0u8 }), 2, 1);
    lemma_put_bits8_frame(r@, 4, 1, (if value { 1u8 } else { 0u8 }), 3, 1);
    lemma_put_bits8_frame(r@, 4, 1, (if value { 1u8 } else { 0u8 }), 4, 1);
}

/// The interrupt flag register (IF, mapped at 0xFF0F).
#[derive(Debug, Clone, Copy, PartialEq, Eq, Structural)]
pub struct IFRegister {
    bits: u8,
}

impl View for IFRegister {
    type V = u8;

    closed spec fn view(&self) -> u8 {
        self.bits
    }
}

impl IFRegister {
    /// The register holding exactly the given bits.
    pub closed spec fn spec_from_bits(bits: u8) -> IFRegister {
        IFRegister { bits }
    }

    pub open spec fn spec_vblank(&self) -> bool {
        bits8(self@, 0, 1) == 1
    }

    pub open spec fn spec_with_vblank(self, value: bool) -> IFRegister {
        IFRegister::spec_from_bits(put_bits8(self@, 0, 1, (if value { 1u8 } else { 0u8 })))
    }

    pub open spec fn spec_lcd(&self) -> bool {
        bits8(self@, 1, 1) == 1
    }

    pub open spec fn spec_with_lcd(self, value: bool) -> IFRegister {
        IFRegister::spec_from_bits(put_bits8(self@, 1, 1, (if value { 1u8 } else { 0u8 })))
    }

    pub open spec fn spec_timer(&self) -> bool {
        bits8(self@, 2, 1) == 1
    }

    pub open spec fn spec_with_timer(self, value: bool) -> IFRegister {
        IFRegister::spec_from_bits(put_bits8(self@, 2, 1, (if value { 1u8 } else { 0u8 })))
    }

    pub open spec fn spec_serial(&self) -> bool {
        bits8(self@, 3, 1) == 1
    }

    pub open spec fn spec_with_serial(self, value: bool) -> IFRegister {
        IFRegister::spec_from_bits(put_bits8(self@, 3, 1, (if value { 1u8 } else { 0u8 })))
    }

    pub open spec fn spec_joypad(&self) -> bool {
        bits8(self@, 4, 1) == 1
    }

    pub open spec fn spec_with_joypad(self, value: bool) -> IFRegister {
        IFRegister::spec_from_bits(put_bits8(self@, 4, 1, (if value { 1u8 } else { 0u8 })))
    }

    /// The register with every bit clear.
    pub fn new() -> (r: IFRegister)
        ensures
            r@ == 0,
    {
        IFRegister { bits: 0 }
    }

    #[verifier::when_used_as_spec(spec_from_bits)]
    pub fn from_bits(bits: u8) -> (r: IFRegister)
        ensures
            r@ == bits,
            r == IFRegister::spec_from_bits(bits),
    {
        IFRegister { bits }
    }

    pub fn into_bits(self) -> (r: u8)
        ensures
            r == self@,
    {
        self.bits
    }

    #[verifier::when_used_as_spec(spec_vblank)]
    pub fn vblank(&self) -> (r: bool)
        ensures
            r == self.spec_vblank(),
    {
        get_bits8(self.bits, 0, 1) == 1
    }

    #[verifier::when_used_as_spec(spec_with_vblank)]
    pub fn with_vblank(self, value: bool) -> (r: IFRegister)
        ensures
            r == self.spec_with_vblank(value),
            r.spec_vblank() == value,
            r.spec_lcd() == self.spec_lcd(),
            r.spec_timer() == self.spec_timer(),
            r.spec_serial() == self.spec_serial(),
            r.spec_joypad() == self.spec_joypad(),
    {
        proof {
            lemma_if_register_with_vblank(self, value);
        }
        IFRegister { bits: set_bits8(self.bits, 0, 1, if value { 1u8 } else { 0u8 }) }
    }

    pub fn set_vblank(&mut self, value: bool)
        ensures
            *final(self) == old(self).spec_with_vblank(value),
    {
        *self = self.with_vblank(value);
    }

    #[verifier::when_used_as_spec(spec_lcd)]
    pub fn lcd(&self) -> (r: bool)
        ensures
            r == self.spec_lcd(),
    {
        get_bits8(self.bits, 1, 1) == 1
    }

    #[verifier::when_used_as_spec(spec_with_lcd)]
    pub fn with_lcd(self, value: bool) -> (r: IFRegister)
        ensures
            r == self.spec_with_lcd(value),
            r.spec_lcd() == value,
            r.spec_vblank() == self.spec_vblank(),
            r.spec_timer() == self.spec_timer(),
            r.spec_serial() == self.spec_serial(),
            r.spec_joypad() == self.spec_joypad(),
    {
        proof {
            lemma_if_register_with_lcd(self, value);
        }
        IFRegister { bits: set_bits8(self.bits, 1, 1, if value { 1u8 } else { 0u8 }) }
    }

    pub fn set_lcd(&mut self, value: bool)
        ensures
            *final(self) == old(self).spec_with_lcd(value),
    {
        *self = self.with_lcd(value);
    }

    #[verifier::when_used_as_spec(spec_timer)]
    pub fn timer(&self) -> (r: bool)
        ensures
            r == self.spec_timer(),
    {
        get_bits8(self.bits, 2, 1) == 1
    }

    #[verifier::when_used_as_spec(spec_with_timer)]
    pub fn with_timer(self, value: bool) -> (r: IFRegister)
        ensures
            r == self.spec_with_timer(value),
            r.spec_timer() == value,
            r.spec_vblank() == self.spec_vblank(),
            r.spec_lcd() == self.spec_lcd(),
            r.spec_serial() == self.spec_serial(),
            r.spec_joypad() == self.spec_joypad(),
    {
        proof {
            lemma_if_register_with_timer(self, value);
        }
        IFRegister { bits: set_bits8(self.bits, 2, 1, if value { 1u8 } else { 0u8 }) }
    }

    pub fn set_timer(&mut self, value: bool)
        ensures
            *final(self) == old(self).spec_with_timer(value),
    {
        *self = self.with_timer(value);
    }

    #[verifier::when_used_as_spec(spec_serial)]
    pub fn serial(&self) -> (r: bool)
        ensures
            r == self.spec_serial(),
    {
        get_bits8(self.bits, 3, 1) == 1
    }

    #[verifier::when_used_as_spec(spec_with_serial)]
    pub fn with_serial(self, value: bool) -> (r: IFRegister)
        ensures
            r == self.spec_with_serial(value),
            r.spec_serial() == value,
            r.spec_vblank() == self.spec_vblank(),
            r.spec_lcd() == self.spec_lcd(),
            r.spec_timer() == self.spec_timer(),
            r.spec_joypad() == self.spec_joypad(),
    {
        proof {
            lemma_if_register_with_serial(self, value);
        }
        IFRegister { bits: set_bits8(self.bits, 3, 1, if value { 1u8 } else { 0u8 }) }
    }

    pub fn set_serial(&mut self, value: bool)
        ensures
            *final(self) == old(self).spec_with_serial(value),
    {
        *self = self.with_serial(value);
    }

    #[verifier::when_used_as_spec(spec_joypad)]
    pub fn joypad(&self) -> (r: bool)
        ensures
            r == self.spec_joypad(),
    {
        get_bits8(self.bits, 4, 1) == 1
    }

    #[verifier::when_used_as_spec(spec_with_joypad)]
    pub fn with_joypad(self, value: bool) -> (r: IFRegister)
        ensures
            r == self.spec_with_joypad(value),
            r.spec_joypad() == value,
            r.spec_vblank() == self.spec_vblank(),
            r.spec_lcd() == self.spec_lcd(),
            r.spec_timer() == self.spec_timer(),
            r.spec_serial() == self.spec_serial(),
    {
        proof {
            lemma_if_register_with_joypad(self, value);
        }
        IFRegister { bits: set_bits8(self.bits, 4, 1, if value { 1u8 } else { 0u8 }) }
    }

    pub fn set_joypad(&mut self, value: bool)
        ensures
            *final(self) == old(self).spec_with_joypad(value),
    {
        *self = self.with_joypad(value);
    }
}

/// The view of a register built from bits is those bits.
pub broadcast proof fn lemma_if_register_view(bits: u8)
    ensures
        #[trigger] IFRegister::spec_from_bits(bits)@ == bits,
{
}

/// Two registers with the same bits are the same register.
pub broadcast proof fn lemma_if_register_from_own_bits(r: IFRegister)
    ensures
        #[trigger] IFRegister::spec_from_bits(r@) == r,
{
}

/// Replacing `vblank` makes it read back as the new value and keeps every other field.
pub broadcast proof fn lemma_if_register_with_vblank(r: IFRegister, value: bool)
    ensures
        (#[trigger] r.spec_with_vblank(value)).spec_vblank() == value,
        r.spec_with_vblank(value).spec_lcd() == r.spec_lcd(),
        r.spec_with_vblank(value).spec_timer() == r.spec_timer(),
        r.spec_with_vblank(value).spec_serial() == r.spec_serial(),
        r.spec_with_vblank(value).spec_joypad() == r.spec_joypad(),
{
    lemma_small_masks();
    lemma_put_bits8_frame(r@, 0, 1, (if value { 1u8 } else { 0u8 }), 0, 1);
    lemma_put_bits8_frame(r@, 0, 1, (if value { 1u8 } else { 0u8 }), 1, 1);
    lemma_put_bits8_frame(r@, 0, 1, (if value { 1u8 } else { 0u8 }), 2, 1);
    lemma_put_bits8_frame(r@, 0, 1, (if value { 1u8 } else { 0u8 }), 3, 1);
    lemma_put_bits8_frame(r@, 0, 1, (if value { 1u8 } else { 0u8 }), 4, 1);
}

/// Replacing `lcd` makes it read back as the new value and keeps every other field.
pub broadcast proof fn lemma_if_register_with_lcd(r: IFRegister, value: bool)
    ensures
        (#[trigger] r.spec_with_lcd(value)).spec_lcd() == value,
        r.spec_with_lcd(value).spec_vblank() == r.spec_vblank(),
        r.spec_with_lcd(value).spec_timer() == r.spec_timer(),
        r.spec_with_lcd(value).spec_serial() == r.spec_serial(),
        r.spec_with_lcd(value).spec_joypad() == r.spec_joypad(),
{
    lemma_small_masks();
    lemma_put_bits8_frame(r@, 1, 1, (if value { 1u8 } else { 0u8 }), 0, 1);
    lemma_put_bits8_frame(r@, 1, 1, (if value { 1u8 } else { 0u8 }), 1, 1);
    lemma_put_bits8_frame(r@, 1, 1, (if value { 1u8 } else { 0u8 }), 2, 1);
    lemma_put_bits8_frame(r@, 1, 1, (if value { 1u8 } else { 0u8 }), 3, 1);
    lemma_put_bits8_frame(r@, 1, 1, (if value { 1u8 } else { 0u8 }), 4, 1);
}

/// Replacing `timer` makes it read back as the new value and keeps every other field.
pub broadcast proof fn lemma_if_register_with_timer(r: IFRegister, value: bool)
    ensures
        (#[trigger] r.spec_with_timer(value)).spec_timer() == value,
        r.spec_with_timer(value).spec_vblank() == r.spec_vblank(),
        r.spec_with_timer(value).spec_lcd() == r.spec_lcd(),
        r.spec_with_timer(value).spec_serial() == r.spec_serial(),
        r.spec_with_timer(value).spec_joypad() == r.spec_joypad(),
{
    lemma_small_masks();
    lemma_put_bits8_frame(r@, 2, 1, (if value { 1u8 } else { 0u8 }), 0, 1);
    lemma_put_bits8_frame(r@, 2, 1, (if value { 1u8 } else { 0u8 }), 1, 1);
    lemma_put_bits8_frame(r@, 2, 1, (if value { 1u8 } else { 0u8 }), 2, 1);
    lemma_put_bits8_frame(r@, 2, 1, (if value { 1u8 } else { 0u8 }), 3, 1);
    lemma_put_bits8_frame(r@, 2, 1, (if value { 1u8 } else { 0u8 }), 4, 1);
}

/// Replacing `serial` makes it read back as the new value and keeps every other field.
pub broadcast proof fn lemma_if_register_with_serial(r: IFRegister, value: bool)
    ensures
        (#[trigger] r.spec_with_serial(value)).spec_serial() == value,
        r.spec_with_serial(value).spec_vblank() == r.spec_vblank(),
        r.spec_with_serial(value).spec_lcd() == r.spec_lcd(),
        r.spec_with_serial(value).spec_timer() == r.spec_timer(),
        r.spec_with_serial(value).spec_joypad() == r.spec_joypad(),
{
    lemma_small_masks();
    lemma_put_bits8_frame(r@, 3, 1, (if value { 1u8 } else { 0u8 }), 0, 1);
    lemma_put_bits8_frame(r@, 3, 1, (if value { 1u8 } else { 0u8 }), 1, 1);
    lemma_put_bits8_frame(r@, 3, 1, (if value { 1u8 } else { 0u8 }), 2, 1);
    lemma_put_bits8_frame(r@, 3, 1, (if value { 1u8 } else { 0u8 }), 3, 1);
    lemma_put_bits8_frame(r@, 3, 1, (if value { 1u8 } else { 0u8 }), 4, 1);
}

/// Replacing `joypad` makes it read back as the new value and keeps every other field.
pub broadcast proof fn lemma_if_register_with_joypad(r: IFRegister, value: bool)
    ensures
        (#[trigger] r.spec_with_joypad(value)).spec_joypad() == value,
        r.spec_with_joypad(value).spec_vblank() == r.spec_vblank(),
        r.spec_with_joypad(value).spec_lcd() == r.spec_lcd(),
        r.spec_with_joypad(value).spec_timer() == r.spec_timer(),
        r.spec_with_joypad(value).spec_serial() == r.spec_serial(),
{
    lemma_small_masks();
    lemma_put_bits8_frame(r@, 4, 1, (if value { 1u8 } else { 0u8 }), 0, 1);
    lemma_put_bits8_frame(r@, 4, 1, (if value { 1u8 } else { 0u8 }), 1, 1);
    lemma_put_bits8_frame(r@, 4, 1, (if value { 1u8 } else { 0u8 }), 2, 1);
    lemma_put_bits8_frame(r@, 4, 1, (if value { 1u8 } else { 0u8 }), 3, 1);
    lemma_put_bits8_frame(r@, 4, 1, (if value { 1u8 } else { 0u8 }), 4, 1);
}

pub broadcast group group_cpu_register_views {
    lemma_cpu_flags_view,
    lemma_cpu_flags_from_own_bits,
    lemma_cpu_flags_with_c,
    lemma_cpu_flags_with_h,
    lemma_cpu_flags_with_n,
    lemma_cpu_flags_with_z,
    lemma_af_register_view,
    lemma_af_register_from_own_bits,
    lemma_af_register_with_f,
    lemma_af_register_with_a,
    lemma_bc_register_view,
    lemma_bc_register_from_own_bits,
    lemma_bc_register_with_c,
    lemma_bc_register_with_b,
    lemma_de_register_view,
    lemma_de_register_from_own_bits,
    lemma_de_register_with_e,
    lemma_de_register_with_d,
    lemma_hl_register_view,
    lemma_hl_register_from_own_bits,
    lemma_hl_register_with_l,
    lemma_hl_register_with_h,
    lemma_ie_register_view,
    lemma_ie_register_from_own_bits,
    lemma_ie_register_with_vblank,
    lemma_ie_register_with_lcd,
    lemma_ie_register_with_timer,
    lemma_ie_register_with_serial,
    lemma_ie_register_with_joypad,
    lemma_if_register_view,
    lemma_if_register_from_own_bits,
    lemma_if_register_with_vblank,
    lemma_if_register_with_lcd,
    lemma_if_register_with_timer,
    lemma_if_register_with_serial,
    lemma_if_register_with_joypad,
}

/// The eight-bit registers that instructions name.
#[derive(Debug, Clone, Copy, PartialEq, Eq, Structural)]
pub enum Register8 {
    A,
    B,
    C,
    D,
    E,
    H,
    L,
}

impl Register8 {
    /// The register's name as the disassembler prints it.
    pub open spec fn spec_name(self) -> Seq<char> {
        match self {
            Register8::A => "A"@,
            Register8::B => "B"@,
            Register8::C => "C"@,
            Register8::D => "D"@,
            Register8::E => "E"@,
            Register8::H => "H"@,
            Register8::L => "L"@,
        }
    }

    pub fn as_ref(&self) -> (r: &'static str)
        ensures
            r@ == self.spec_name(),
    {
        match self {
            Register8::A => "A",
            Register8::B => "B",
            Register8::C => "C",
            Register8::D => "D",
            Register8::E => "E",
            Register8::H => "H",
            Register8::L => "L",
        }
    }
}

/// The sixteen-bit register pairs that instructions name.
#[derive(Debug, Clone, Copy, PartialEq, Eq, Structural)]
pub enum Register16 {
    BC,
    DE,
    HL,
}

impl Register16 {
    /// The pair's name as the disassembler prints it.
    pub open spec fn spec_name(self) -> Seq<char> {
        match self {
            Register16::BC => "BC"@,
            Register16::DE => "DE"@,
            Register16::HL => "HL"@,
        }
    }

    pub fn as_ref(&self) -> (r: &'static str)
        ensures
            r@ == self.spec_name(),
    {
        match self {
            Register16::BC => "BC",
            Register16::DE => "DE",
            Register16::HL => "HL",
        }
    }
}

/// The CPU's register file.
#[derive(Debug, Clone, Copy, PartialEq, Eq, Structural)]
pub struct CPURegisters {
    pub af: AFRegister,
    pub bc: BCRegister,
    pub de: DERegister,
    pub hl: HLRegister,
    pub sp: u16,
    pub pc: u16,
}

impl CPURegisters {
    pub open spec fn spec_get_r8(&self, r8: Register8) -> u8 {
        match r8 {
            Register8::A => self.af.spec_a(),
            Register8::B => self.bc.spec_b(),
            Register8::C => self.bc.spec_c(),
            Register8::D => self.de.spec_d(),
            Register8::E => self.de.spec_e(),
            Register8::H => self.hl.spec_h(),
            Register8::L => self.hl.spec_l(),
        }
    }

    /// The register file after writing `value` to the eight-bit register `r8`.
    pub open spec fn spec_set_r8(self, r8: Register8, value: u8) -> CPURegisters {
        match r8 {
            Register8::A => CPURegisters { af: self.af.spec_with_a(value), ..self },
            Register8::B => CPURegisters { bc: self.bc.spec_with_b(value), ..self },
            Register8::C => CPURegisters { bc: self.bc.spec_with_c(value), ..self },
            Register8::D => CPURegisters { de: self.de.spec_with_d(value), ..self },
            Register8::E => CPURegisters { de: self.de.spec_with_e(value), ..self },
            Register8::H => CPURegisters { hl: self.hl.spec_with_h(value), ..self },
            Register8::L => CPURegisters { hl: self.hl.spec_with_l(value), ..self },
        }
    }

    pub open spec fn spec_get_r16(&self, r16: Register16) -> u16 {
        match r16 {
            Register16::BC => self.bc@,
            Register16::DE => self.de@,
            Register16::HL => self.hl@,
        }
    }

    /// The register file after writing `value` to the register pair `r16`.
    pub open spec fn spec_set_r16(self, r16: Register16, value: u16) -> CPURegisters {
        match r16 {
            Register16::BC => CPURegisters { bc: BCRegister::spec_from_bits(value), ..self },
            Register16::DE => CPURegisters { de: DERegister::spec_from_bits(value), ..self },
            Register16::HL => CPURegisters { hl: HLRegister::spec_from_bits(value), ..self },
        }
    }

    #[verifier::when_used_as_spec(spec_get_r8)]
    pub fn get_r8(&self, r8: Register8) -> (r: u8)
        ensures
            r == self.spec_get_r8(r8),
    {
        match r8 {
            Register8::A => self.af.a(),
            Register8::B => self.bc.b(),
            Register8::C => self.bc.c(),
            Register8::D => self.de.d(),
            Register8::E => self.de.e(),
            Register8::H => self.hl.h(),
            Register8::L => self.hl.l(),
        }
    }

    pub fn set_r8(&mut self, r8: Register8, value: u8)
        ensures
            *final(self) == old(self).spec_set_r8(r8, value),
    {
        match r8 {
            Register8::A => self.af.set_a(value),
            Register8::B => self.bc.set_b(value),
            Register8::C => self.bc.set_c(value),
            Register8::D => self.de.set_d(value),
            Register8::E => self.de.set_e(value),
            Register8::H => self.hl.set_h(value),
            Register8::L => self.hl.set_l(value),
        }
    }

    #[verifier::when_used_as_spec(spec_get_r16)]
    pub fn get_r16(&self, r16: Register16) -> (r: u16)
        ensures
            r == self.spec_get_r16(r16),
    {
        match r16 {
            Register16::BC => self.bc.into_bits(),
            Register16::DE => self.de.into_bits(),
            Register16::HL => self.hl.into_bits(),
        }
    }

    pub fn set_r16(&mut self, r16: Register16, value: u16)
        ensures
            *final(self) == old(self).spec_set_r16(r16, value),
    {
        match r16 {
            Register16::BC => self.bc = BCRegister::from_bits(value),
            Register16::DE => self.de = DERegister::from_bits(value),
            Register16::HL => self.hl = HLRegister::from_bits(value),
        }
    }
}


/// Reading an eight-bit register gives back what was last written to it, and
/// writing one eight-bit register leaves every other register as it was.
pub proof fn lemma_r8_write_then_read(regs: CPURegisters, r8: Register8, value: u8, other: Register8)
    ensures
        regs.spec_set_r8(r8, value).spec_get_r8(r8) == value,
        other != r8 ==> regs.spec_set_r8(r8, value).spec_get_r8(other) == regs.spec_get_r8(other),
        regs.spec_set_r8(r8, value).af.spec_f() == regs.af.spec_f(),
        regs.spec_set_r8(r8, value).sp == regs.sp,
        regs.spec_set_r8(r8, value).pc == regs.pc,
{
    broadcast use group_cpu_register_views;
}

/// Reading a register pair gives back what was last written to it; its high
/// byte lands in the first named register and its low byte in the second.
pub proof fn lemma_r16_write_then_read(regs: CPURegisters, r16: Register16, value: u16, other: Register16)
    ensures
        regs.spec_set_r16(r16, value).spec_get_r16(r16) == value,
        other != r16 ==> regs.spec_set_r16(r16, value).spec_get_r16(other) == regs.spec_get_r16(other),
        regs.spec_set_r16(r16, value).af == regs.af,
        r16 == Register16::BC ==> regs.spec_set_r16(r16, value).spec_get_r8(Register8::B) == value / 256
            && regs.spec_set_r16(r16, value).spec_get_r8(Register8::C) == value % 256,
        r16 == Register16::DE ==> regs.spec_set_r16(r16, value).spec_get_r8(Register8::D) == value / 256
            && regs.spec_set_r16(r16, value).spec_get_r8(Register8::E) == value % 256,
        r16 == Register16::HL ==> regs.spec_set_r16(r16, value).spec_get_r8(Register8::H) == value / 256
            && regs.spec_set_r16(r16, value).spec_get_r8(Register8::L) == value % 256,
{
    broadcast use group_cpu_register_views;
}

/// A register pair reads as its high register times 256 plus its low register.
pub proof fn lemma_r16_is_pair_of_r8(regs: CPURegisters)
    ensures
        regs.spec_get_r16(Register16::BC) == regs.spec_get_r8(Register8::B) * 256 + regs.spec_get_r8(Register8::C),
        regs.spec_get_r16(Register16::DE) == regs.spec_get_r8(Register8::D) * 256 + regs.spec_get_r8(Register8::E),
        regs.spec_get_r16(Register16::HL) == regs.spec_get_r8(Register8::H) * 256 + regs.spec_get_r8(Register8::L),
{
}

} // verus!
