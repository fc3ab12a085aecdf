//! Byte-level helpers: copying into a region, and the little-endian halves
//! of a 16-bit number.

use vstd::prelude::*;

verus! {

/// The low byte of a 16-bit number, which little-endian order puts first.
pub open spec fn low_byte(v: u16) -> u8 {
    (v % 256) as u8
}

/// The high byte of a 16-bit number, which little-endian order puts second.
pub open spec fn high_byte(v: u16) -> u8 {
    (v / 256) as u8
}

/// The 16-bit number whose little-endian bytes are `low`, then `high`.
pub open spec fn le_u16(low: u8, high: u8) -> u16 {
    (low + 256 * high) as u16
}

/// `bytes` cut or lengthened to `n` bytes: what it held up to `n` stays, and
/// what is added is zero.
pub open spec fn resized(bytes: Seq<u8>, n: nat) -> Seq<u8> {
    Seq::new(
        n,
        |i: int|
            if i < bytes.len() {
                bytes[i]
            } else {
                0u8
            },
    )
}

/// Writes a 16-bit number at `at` and `at + 1`, low byte first.
pub(crate) fn write_le_u16(buffer: &mut [u8], at: usize, v: u16)
    requires
        at + 1 < old(buffer)@.len(),
    ensures
        final(buffer)@ == old(buffer)@.update(at as int, low_byte(v)).update(
            at + 1,
            high_byte(v),
        ),
{
    buffer[at] = (v % 256) as u8;
    buffer[at + 1] = (v / 256) as u8;
}

/// Copies `source` over a region of the same length.
pub(crate) fn copy_slice(source: &[u8], region: &mut [u8])
    requires
        old(region)@.len() == source@.len(),
    ensures
        final(region)@ == source@,
{
    let n = source.len();
    let mut i: usize = 0;
    while i < n
        invariant
            n == source@.len(),
            region@.len() == n,
            i <= n,
            forall|j: int| 0 <= j < i ==> region@[j] == source@[j],
        decreases n - i,
    {
        region[i] = source[i];
        i += 1;
    }
    assert(region@ =~= source@);
}

} // verus!
