//! Fixed-width integers read from byte buffers.

use byteorder::{BigEndian, ReadBytesExt};
use vstd::prelude::*;
use vstd::slice::slice_subrange;

verus! {

/// The big-endian 16-bit value of two bytes.
pub open spec fn be16(hi: u8, lo: u8) -> u16 {
    (hi as int * 256 + lo as int) as u16
}

/// Relies on byteorder's `ReadBytesExt::read_u16::<BigEndian>` on a byte
/// slice: it fills two bytes with `read_exact`, which fails only when fewer
/// than two bytes are left, and decodes them with `u16::from_be_bytes`.
#[verifier::external_body]
pub fn read_u16_be(b: &[u8]) -> (r: Option<u16>)
    ensures
        r == (if b@.len() >= 2 {
            Some(be16(b@[0], b@[1]))
        } else {
            None::<u16>
        }),
{
    let mut rdr: &[u8] = b;
    rdr.read_u16::<BigEndian>().ok()
}

/// The big-endian 16-bit value of the two bytes of `b` at `i`.
pub fn be16_at(b: &[u8], i: usize) -> (r: u16)
    requires
        i + 2 <= b@.len(),
    ensures
        r == be16(b@[i as int], b@[i + 1]),
{
    let n = b.len();
    assert(i + 2 <= n);
    let two = slice_subrange(b, i, i + 2);
    match read_u16_be(two) {
        Some(v) => v,
        None => 0,
    }
}

} // verus!
