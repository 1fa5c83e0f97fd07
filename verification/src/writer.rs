//! Header writer: emits a record header at a 4-byte-aligned offset and
//! backpatches the length field of nested records once their children are in.
//!
//! A record is serialized as `length:u16 | type:u16 | payload | 0..3 zero pad
//! bytes`, where `length` counts the 4 header bytes plus the payload, before
//! padding. The caller appends the payload itself after `push_header` and
//! re-aligns (directly or via the next header write) before the next record.

use vstd::prelude::*;

use crate::align::{align, spec_align_up, zeros, NLA_F_NESTED};
use crate::wire::{le16, push_u16_le, u16_le};

verus! {

/// Anything that exposes a growable record buffer to write records into.
pub trait Rec {
    /// The buffer that records are appended to.
    fn as_rec_mut(&mut self) -> &mut Vec<u8>;
}

impl Rec for &mut Vec<u8> {
    fn as_rec_mut(&mut self) -> &mut Vec<u8> {
        self
    }
}

/// The raw 16-bit type field written for attribute id `ty`: bit 15 set iff
/// the record is nested.
pub open spec fn wire_type(ty: u16, is_nested: bool) -> u16 {
    if is_nested {
        ty | NLA_F_NESTED
    } else {
        ty
    }
}

/// The bytes a header write appends to a buffer of length `n`: padding up to
/// alignment, then the length field `len + 4`, then the type field.
pub open spec fn header_bytes(n: int, ty: u16, len: u16, is_nested: bool) -> Seq<u8> {
    zeros((spec_align_up(n) - n) as nat) + u16_le((len + 4) as u16) + u16_le(
        wire_type(ty, is_nested),
    )
}

/// Write a record header: pad to alignment, then append the length field
/// (`len + 4` bytes of header plus payload) and the type field, with bit 15
/// of the type set iff `is_nested`. Returns the byte offset of the header.
fn push_header_type(buf: &mut Vec<u8>, ty: u16, len: u16, is_nested: bool) -> (offset: usize)
    requires
        ty < 0x4000,
        len <= u16::MAX - 4,
        old(buf)@.len() <= usize::MAX - 8,
    ensures
        offset == spec_align_up(old(buf)@.len() as int),
        final(buf)@ == old(buf)@ + header_bytes(old(buf)@.len() as int, ty, len, is_nested),
        final(buf)@.len() == offset + 4,
        final(buf)@.len() % 4 == 0,
{
    align(buf);
    let offset = buf.len();
    let wire = if is_nested {
        ty | NLA_F_NESTED
    } else {
        ty
    };
    push_u16_le(buf, len + 4);
    push_u16_le(buf, wire);
    proof {
        crate::align::lemma_align_up(old(buf)@.len() as int);
        assert(buf@.len() % 4 == 0) by {
            assert(offset % 4 == 0);
            vstd::arithmetic::div_mod::lemma_add_mod_noop(offset as int, 4int, 4int);
        }
        assert(buf@ =~= old(buf)@ + header_bytes(old(buf)@.len() as int, ty, len, is_nested));
    }
    align(buf);
    proof {
        assert(buf@ =~= old(buf)@ + header_bytes(old(buf)@.len() as int, ty, len, is_nested));
    }
    offset
}

/// Write a complete (non-nested) record header for a payload of `len` bytes.
/// The caller appends the `len` payload bytes afterwards and must re-align
/// before the next header. Returns the header's byte offset.
pub fn push_header(buf: &mut Vec<u8>, ty: u16, len: u16) -> (offset: usize)
    requires
        ty < 0x4000,
        len <= u16::MAX - 4,
        old(buf)@.len() <= usize::MAX - 8,
    ensures
        offset == spec_align_up(old(buf)@.len() as int),
        final(buf)@ == old(buf)@ + header_bytes(old(buf)@.len() as int, ty, len, false),
        final(buf)@.len() == offset + 4,
        final(buf)@.len() % 4 == 0,
{
    push_header_type(buf, ty, len, false)
}

/// Write a nested record header with a placeholder length of 4 (header only)
/// and bit 15 of the type field set. Returns the header's byte offset, to be
/// handed to `finalize_nested_header` once all children are appended.
pub fn push_nested_header(buf: &mut Vec<u8>, ty: u16) -> (offset: usize)
    requires
        ty < 0x4000,
        old(buf)@.len() <= usize::MAX - 8,
    ensures
        offset == spec_align_up(old(buf)@.len() as int),
        final(buf)@ == old(buf)@ + header_bytes(old(buf)@.len() as int, ty, 0, true),
        final(buf)@.len() == offset + 4,
        final(buf)@.len() % 4 == 0,
{
    push_header_type(buf, ty, 0, true)
}

/// Backpatch the length field of the nested record whose header sits at
/// `offset`: pad the buffer to alignment, then overwrite the two length bytes
/// with the distance from the header to the buffer's end (truncated to 16
/// bits). Call exactly once per `push_nested_header`, innermost first.
pub fn finalize_nested_header(buf: &mut Vec<u8>, offset: usize)
    requires
        old(buf)@.len() <= usize::MAX - 3,
        offset + 4 <= old(buf)@.len(),
    ensures
        final(buf)@.len() == spec_align_up(old(buf)@.len() as int),
        final(buf)@.len() % 4 == 0,
        le16(final(buf)@, offset as int) == (final(buf)@.len() - offset) % 0x10000,
        forall|i: int|
            0 <= i < final(buf)@.len() && i != offset && i != offset + 1 ==> final(buf)@[i] == (
            old(buf)@ + zeros((spec_align_up(old(buf)@.len() as int) - old(buf)@.len()) as nat))[i],
{
    align(buf);
    let len = buf.len() - offset;
    proof {
        assert(len as u16 == len % 0x10000usize) by (bit_vector);
        assert((len % 0x10000usize) as int == (buf@.len() - offset) % 0x10000);
    }
    let v: u16 = #[verifier::truncate] (len as u16);
    proof {
        assert((v & 0xff) < 0x100 && (v >> 8) < 0x100 && (v & 0xff) + 0x100 * (v >> 8) == v)
            by (bit_vector);
    }
    buf[offset] = (v & 0xff) as u8;
    buf[offset + 1] = (v >> 8) as u8;
}

} // verus!
