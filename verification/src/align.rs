//! Alignment primitives: records sit at 4-byte boundaries on the wire, and the
//! raw 16-bit type field carries two flag bits above the 14-bit attribute id.

use vstd::prelude::*;

verus! {

/// Records are aligned to this many bytes on the wire.
pub const NLA_ALIGNTO: usize = 4;

/// Bit 15 of the raw type field: the record's payload is itself a
/// concatenation of records.
pub const NLA_F_NESTED: u16 = 0x8000;

/// Bit 14 of the raw type field: the payload is in network byte order.
/// Exposed but not acted upon; the remote peer does not set it reliably.
pub const NLA_F_NET_BYTEORDER: u16 = 0x4000;

/// The smallest multiple of 4 that is at least `n`.
pub open spec fn spec_align_up(n: int) -> int {
    if n % 4 == 0 {
        n
    } else {
        n + (4 - n % 4)
    }
}

/// For every `n >= 0`, `spec_align_up(n)` is a multiple of 4, is at least
/// `n`, and is less than `n + 4`.
pub proof fn lemma_align_up(n: int)
    requires
        n >= 0,
    ensures
        spec_align_up(n) % 4 == 0,
        spec_align_up(n) >= n,
        spec_align_up(n) < n + 4,
{
    if n % 4 != 0 {
        let q = n / 4;
        vstd::arithmetic::div_mod::lemma_fundamental_div_mod(n, 4);
        assert(spec_align_up(n) == 4 * (q + 1));
        vstd::arithmetic::div_mod::lemma_mod_multiples_basic(q + 1, 4);
    }
}

/// The bare attribute id: the raw type field with the two flag bits cleared.
pub fn nla_type(ty: u16) -> (r: u16)
    ensures
        r == ty % 0x4000,
{
    let r = ty & !(NLA_F_NESTED | NLA_F_NET_BYTEORDER);
    proof {
        assert(ty & !(0x8000u16 | 0x4000u16) == ty % 0x4000) by (bit_vector);
    }
    r
}

/// Round `len` up to the next multiple of 4.
pub fn nla_align_up(len: usize) -> (r: usize)
    requires
        len <= usize::MAX - 3,
    ensures
        r == spec_align_up(len as int),
{
    let rem = len % NLA_ALIGNTO;
    if rem == 0 {
        len
    } else {
        len + (NLA_ALIGNTO - rem)
    }
}

/// A sequence of `n` zero bytes.
pub open spec fn zeros(n: nat) -> Seq<u8> {
    Seq::new(n, |i: int| 0u8)
}

/// Append zero bytes until the buffer's length is a multiple of 4.
pub fn align(buf: &mut Vec<u8>)
    requires
        old(buf)@.len() <= usize::MAX - 3,
    ensures
        final(buf)@.len() == spec_align_up(old(buf)@.len() as int),
        final(buf)@ == old(buf)@ + zeros((final(buf)@.len() - old(buf)@.len()) as nat),
        final(buf)@.len() % 4 == 0,
{
    proof {
        lemma_align_up(old(buf)@.len() as int);
    }
    let target = nla_align_up(buf.len());
    while buf.len() < target
        invariant
            old(buf)@.len() <= buf@.len() <= target,
            target == spec_align_up(old(buf)@.len() as int),
            buf@ == old(buf)@ + zeros((buf@.len() - old(buf)@.len()) as nat),
        decreases target - buf@.len(),
    {
        buf.push(0u8);
        proof {
            assert(buf@ =~= old(buf)@ + zeros((buf@.len() - old(buf)@.len()) as nat));
        }
    }
    proof {
        lemma_align_up(old(buf)@.len() as int);
    }
}

} // verus!
