//! A bus that wraps another bus and may answer reads and writes itself.
use vstd::prelude::*;
use crate::bus::Bus;

verus! {

/// Whether an interceptor handled an access itself.
pub enum InterceptorResult<T> {
    Intercepted(T),
    NotIntercepted,
}

/// A bus layered over an inner bus: every access is first offered to the
/// interceptor, and only the accesses it does not intercept reach the inner bus.
///
/// An implementation that does not describe itself keeps the defaults, under
/// which it serves no address to verified callers and nothing is known of its
/// inner bus.
pub trait BusInterceptor<AddrType: Copy>: Sized + Send + Sync {
    type BusType: Bus<AddrType>;

    /// The inner bus.
    open spec fn spec_inner(&self) -> Self::BusType {
        vstd::pervasive::arbitrary()
    }

    /// The interceptor with its inner bus replaced.
    open spec fn spec_with_inner(&self, inner: Self::BusType) -> Self {
        *self
    }

    /// The addresses at which the layered bus serves a read.
    open spec fn spec_accepts_read(addr: AddrType) -> bool {
        false
    }

    /// The addresses at which the layered bus serves a write.
    open spec fn spec_accepts_write(addr: AddrType) -> bool {
        false
    }

    /// The outcome of offering a read.
    open spec fn spec_intercept_read(&self, addr: AddrType) -> InterceptorResult<Option<u8>> {
        InterceptorResult::NotIntercepted
    }

    /// The outcome of offering a write, and the interceptor afterwards.
    open spec fn spec_intercept_write(&self, addr: AddrType, value: u8) -> (InterceptorResult<()>, Self) {
        (InterceptorResult::NotIntercepted, *self)
    }

    /// The outcome of offering a read's side effects, and the interceptor afterwards.
    open spec fn spec_intercept_side_effects(&self, addr: AddrType) -> (InterceptorResult<()>, Self) {
        (InterceptorResult::NotIntercepted, *self)
    }

    fn get_inner(&self) -> (r: &Self::BusType)
        ensures
            *r == self.spec_inner(),
    ;

    fn get_inner_mut(&mut self) -> (r: &mut Self::BusType)
        ensures
            *r == old(self).spec_inner(),
            *final(self) == old(self).spec_with_inner(*final(r)),
    ;

    fn intercept_read_readonly(&self, addr: AddrType) -> (r: InterceptorResult<Option<u8>>)
        requires
            Self::spec_accepts_read(addr),
        ensures
            r == self.spec_intercept_read(addr),
            r is NotIntercepted ==> <Self::BusType as Bus<AddrType>>::spec_readable(addr),
    ;

    fn intercept_write(&mut self, addr: AddrType, value: u8) -> (r: InterceptorResult<()>)
        requires
            Self::spec_accepts_write(addr),
        ensures
            (r, *final(self)) == old(self).spec_intercept_write(addr, value),
            r is NotIntercepted ==> <Self::BusType as Bus<AddrType>>::spec_writable(addr),
    ;

    fn intercept_read_side_effects(&mut self, addr: AddrType) -> (r: InterceptorResult<()>)
        requires
            Self::spec_accepts_read(addr),
        ensures
            (r, *final(self)) == old(self).spec_intercept_side_effects(addr),
            r is NotIntercepted ==> <Self::BusType as Bus<AddrType>>::spec_readable(addr),
    ;
}

impl<AddrType: Copy, I: BusInterceptor<AddrType>> Bus<AddrType> for I {
    open spec fn spec_readable(addr: AddrType) -> bool {
        I::spec_accepts_read(addr)
    }

    open spec fn spec_writable(addr: AddrType) -> bool {
        I::spec_accepts_write(addr)
    }

    open spec fn spec_read(&self, addr: AddrType) -> Option<u8> {
        match self.spec_intercept_read(addr) {
            InterceptorResult::Intercepted(value) => value,
            InterceptorResult::NotIntercepted => self.spec_inner().spec_read(addr),
        }
    }

    open spec fn spec_after_read(&self, addr: AddrType) -> I {
        let (r, after) = self.spec_intercept_side_effects(addr);
        match r {
            InterceptorResult::Intercepted(_) => after,
            InterceptorResult::NotIntercepted => after.spec_with_inner(after.spec_inner().spec_after_read(addr)),
        }
    }

    open spec fn spec_after_write(&self, addr: AddrType, value: u8) -> I {
        let (r, after) = self.spec_intercept_write(addr, value);
        match r {
            InterceptorResult::Intercepted(_) => after,
            InterceptorResult::NotIntercepted => after.spec_with_inner(after.spec_inner().spec_after_write(addr, value)),
        }
    }

    fn try_read_readonly(&self, addr: AddrType) -> (r: Option<u8>) {
        match self.intercept_read_readonly(addr) {
            InterceptorResult::Intercepted(value) => value,
            InterceptorResult::NotIntercepted => self.get_inner().try_read_readonly(addr),
        }
    }

    fn read_side_effects(&mut self, addr: AddrType) {
        match self.intercept_read_side_effects(addr) {
            InterceptorResult::Intercepted(_) => {},
            InterceptorResult::NotIntercepted => self.get_inner_mut().read_side_effects(addr),
        }
    }

    fn write(&mut self, addr: AddrType, value: u8) {
        match self.intercept_write(addr, value) {
            InterceptorResult::Intercepted(_) => {},
            InterceptorResult::NotIntercepted => self.get_inner_mut().write(addr, value),
        }
    }
}

/// A layered read yields the interceptor's value where it intercepts the read,
/// and the inner bus's value otherwise; the read itself changes nothing.
pub proof fn lemma_layered_read<AddrType: Copy, I: BusInterceptor<AddrType>>(bus: I, addr: AddrType)
    ensures
        bus.spec_intercept_read(addr) matches InterceptorResult::Intercepted(v) ==> bus.spec_read(addr) == v,
        bus.spec_intercept_read(addr) is NotIntercepted ==> bus.spec_read(addr) == bus.spec_inner().spec_read(addr),
{
}

/// A layered write that the interceptor intercepts leaves the bus as the
/// interceptor's own write leaves it, the inner bus unwritten; one that it
/// does not intercept reaches the inner bus, with the same address and value.
pub proof fn lemma_layered_write<AddrType: Copy, I: BusInterceptor<AddrType>>(bus: I, addr: AddrType, value: u8)
    ensures
        ({
            let (r, after) = bus.spec_intercept_write(addr, value);
            &&& r is Intercepted ==> bus.spec_after_write(addr, value) == after
            &&& r is NotIntercepted ==> bus.spec_after_write(addr, value) == after.spec_with_inner(
                after.spec_inner().spec_after_write(addr, value),
            )
        }),
{
}

} // verus!
