//! The memory bus: a byte-addressed device that can be read, read with side
//! effects, and written.
use vstd::prelude::*;

pub mod bus_interceptor;

verus! {

/// A byte-addressed bus. Each implementation describes its own state change
/// on a read (`spec_after_read`) and on a write (`spec_after_write`), and
/// which addresses it can serve at all (`spec_readable`, `spec_writable`).
///
/// An implementation that does not describe itself keeps the defaults, under
/// which it serves no address to verified callers.
pub trait Bus<AddrType: Copy>: Sized + Send + Sync {
    /// The addresses at which a read is served.
    open spec fn spec_readable(addr: AddrType) -> bool {
        false
    }

    /// The addresses at which a write is served.
    open spec fn spec_writable(addr: AddrType) -> bool {
        false
    }

    /// What a read at `addr` yields, without its side effects.
    open spec fn spec_read(&self, addr: AddrType) -> Option<u8> {
        None
    }

    /// The bus after the side effects of a read at `addr`.
    open spec fn spec_after_read(&self, addr: AddrType) -> Self {
        *self
    }

    /// The bus after writing `value` at `addr`.
    open spec fn spec_after_write(&self, addr: AddrType, value: u8) -> Self {
        *self
    }

    fn try_read_readonly(&self, addr: AddrType) -> (r: Option<u8>)
        requires
            Self::spec_readable(addr),
        ensures
            r == self.spec_read(addr),
    ;

    fn write(&mut self, addr: AddrType, value: u8)
        requires
            Self::spec_writable(addr),
        ensures
            *final(self) == old(self).spec_after_write(addr, value),
    ;

    /// The side effects of a read at an address where reads are served.
    fn read_side_effects(&mut self, addr: AddrType)
        requires
            Self::spec_readable(addr),
        ensures
            *final(self) == old(self).spec_after_read(addr),
    ;

    /// Reads without side effects; an address with no value reads as 0.
    fn read_readonly(&self, addr: AddrType) -> (r: u8)
        requires
            Self::spec_readable(addr),
        ensures
            r == value_or_zero(self.spec_read(addr)),
    {
        match Self::try_read_readonly(self, addr) {
            Some(v) => v,
            None => 0,
        }
    }

    /// Reads with side effects; an address with no value reads as 0.
    fn read(&mut self, addr: AddrType) -> (r: u8)
        requires
            Self::spec_readable(addr),
        ensures
            r == value_or_zero(old(self).spec_read(addr)),
            *final(self) == old(self).spec_after_read(addr),
    {
        let result = Self::try_read_readonly(self, addr);
        Self::read_side_effects(self, addr);
        match result {
            Some(v) => v,
            None => 0,
        }
    }
}

/// The byte a read yields: the value, or 0 where there is none.
pub open spec fn value_or_zero(v: Option<u8>) -> u8 {
    match v {
        Some(b) => b,
        None => 0,
    }
}

} // verus!
