//! Little-endian 16-bit fields: the length and type fields of a record header.

use vstd::prelude::*;

verus! {

/// The two little-endian bytes of a 16-bit value.
pub open spec fn u16_le(v: u16) -> Seq<u8> {
    seq![(v & 0xff) as u8, (v >> 8) as u8]
}

/// The 16-bit value stored little-endian at byte offset `i` of `s`.
pub open spec fn le16(s: Seq<u8>, i: int) -> int
    recommends
        0 <= i,
        i + 2 <= s.len(),
{
    s[i] + 0x100 * s[i + 1]
}

/// Reading back the two bytes of `u16_le(v)` gives `v`.
pub proof fn lemma_u16_le_roundtrip(v: u16)
    ensures
        le16(u16_le(v), 0) == v,
{
    assert((v & 0xff) < 0x100 && (v >> 8) < 0x100 && (v & 0xff) + 0x100 * (v >> 8) == v)
        by (bit_vector);
}

/// Append a 16-bit value to the buffer, low byte first.
pub fn push_u16_le(buf: &mut Vec<u8>, v: u16)
    requires
        old(buf)@.len() + 2 <= usize::MAX,
    ensures
        final(buf)@ == old(buf)@ + u16_le(v),
{
    proof {
        assert((v & 0xff) < 0x100 && (v >> 8) < 0x100) by (bit_vector);
    }
    let lo = (v & 0xff) as u8;
    let hi = (v >> 8) as u8;
    buf.push(lo);
    buf.push(hi);
    proof {
        assert(buf@ =~= old(buf)@ + u16_le(v));
    }
}

/// Read the 16-bit value stored little-endian at byte offset `i`.
pub fn read_u16_le(buf: &[u8], i: usize) -> (r: u16)
    requires
        i + 2 <= buf@.len(),
    ensures
        r as int == le16(buf@, i as int),
{
    let b0 = buf[i];
    let b1 = buf[i + 1];
    let r = (b0 as u16) | ((b1 as u16) << 8);
    proof {
        let x = b0 as u16;
        let y = b1 as u16;
        assert(x < 0x100 && y < 0x100 ==> (x | (y << 8)) == x + 0x100 * y) by (bit_vector);
    }
    r
}

} // verus!
