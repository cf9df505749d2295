//! Bit fields packed into a byte: reading one field and replacing one field,
//! with the facts that a replacement reads back and leaves other fields alone.
use vstd::prelude::*;

verus! {

/// The mask of the `width` lowest bits of a byte.
pub open spec fn mask8(width: u8) -> u8 {
    0xffu8 >> ((8 - width) as u8)
}

/// The `width`-bit field of `b` that starts at bit `lo`.
pub open spec fn bits8(b: u8, lo: u8, width: u8) -> u8 {
    (b >> lo) & mask8(width)
}

/// `b` with its `width`-bit field at bit `lo` replaced by the low bits of `v`.
pub open spec fn put_bits8(b: u8, lo: u8, width: u8, v: u8) -> u8 {
    (b & !(mask8(width) << lo)) | ((v & mask8(width)) << lo)
}

pub fn get_bits8(b: u8, lo: u8, width: u8) -> (r: u8)
    requires
        1 <= width <= 7,
        lo + width <= 8,
    ensures
        r == bits8(b, lo, width),
{
    (b >> lo) & (0xffu8 >> (8 - width))
}

pub fn set_bits8(b: u8, lo: u8, width: u8, v: u8) -> (r: u8)
    requires
        1 <= width <= 7,
        lo + width <= 8,
    ensures
        r == put_bits8(b, lo, width, v),
{
    let m: u8 = 0xffu8 >> (8 - width);
    (b & !(m << lo)) | ((v & m) << lo)
}

/// Replacing a field makes it read back as the value (when the value fits),
/// and leaves every field that does not overlap it unchanged.
pub proof fn lemma_put_bits8_frame(b: u8, lo: u8, width: u8, v: u8, lo2: u8, width2: u8)
    requires
        1 <= width <= 7,
        lo + width <= 8,
        1 <= width2 <= 7,
        lo2 + width2 <= 8,
    ensures
        v <= mask8(width) ==> bits8(put_bits8(b, lo, width, v), lo, width) == v,
        (lo2 + width2 <= lo || lo + width <= lo2) ==> bits8(put_bits8(b, lo, width, v), lo2, width2)
            == bits8(b, lo2, width2),
{
    assert(v <= mask8(width) ==> bits8(put_bits8(b, lo, width, v), lo, width) == v) by (bit_vector)
        requires
            1 <= width <= 7,
            lo + width <= 8,
    ;
    assert((lo2 + width2 <= lo || lo + width <= lo2) ==> bits8(put_bits8(b, lo, width, v), lo2, width2)
        == bits8(b, lo2, width2)) by (bit_vector)
        requires
            1 <= width <= 7,
            lo + width <= 8,
            1 <= width2 <= 7,
            lo2 + width2 <= 8,
    ;
}

/// The masks of one, two, three and five bits.
pub proof fn lemma_small_masks()
    ensures
        mask8(1) == 1,
        mask8(2) == 3,
        mask8(3) == 7,
        mask8(5) == 31,
{
    assert(mask8(1) == 1 && mask8(2) == 3 && mask8(3) == 7 && mask8(5) == 31) by (bit_vector);
}

/// The low nibble of a byte, taken with a mask, is the byte modulo 16.
pub proof fn lemma_low_nibble(x: u8)
    ensures
        x & 0x0F == x % 16,
{
    assert(x & 0x0F == x % 16) by (bit_vector);
}

/// Bit `k` of a byte, counted from the least significant bit.
pub open spec fn bit_of(x: u8, k: u8) -> bool {
    (x >> k) & 1 == 1
}

/// A bit of an OR is set exactly when it is set in either byte, and a bit of
/// an XOR exactly when it is set in one byte but not the other.
pub proof fn lemma_or_xor_bits(a: u8, v: u8)
    ensures
        forall|k: u8| k < 8 ==> (#[trigger] bit_of(a | v, k)) == (bit_of(a, k) || bit_of(v, k)),
        forall|k: u8| k < 8 ==> (#[trigger] bit_of(a ^ v, k)) == (bit_of(a, k) != bit_of(v, k)),
{
    assert forall|k: u8| k < 8 implies (#[trigger] bit_of(a | v, k)) == (bit_of(a, k) || bit_of(v, k)) by {
        assert(((a | v) >> k) & 1 == 1 <==> (((a >> k) & 1 == 1) || ((v >> k) & 1 == 1))) by (bit_vector);
    }
    assert forall|k: u8| k < 8 implies (#[trigger] bit_of(a ^ v, k)) == (bit_of(a, k) != bit_of(v, k)) by {
        assert(((a ^ v) >> k) & 1 == 1 <==> (((a >> k) & 1 == 1) != ((v >> k) & 1 == 1))) by (bit_vector);
    }
}

} // verus!
