//! Header reader: a single-step TLV decode. Repeated calls with the same
//! position reference walk a buffer's records left to right until no valid
//! record remains; truncated or malformed trailing bytes end the walk
//! silently, and whether that is an error is the caller's decision.

use vstd::prelude::*;

use crate::align::{nla_align_up, nla_type, spec_align_up, NLA_F_NESTED, NLA_F_NET_BYTEORDER};
use crate::wire::{le16, read_u16_le};

verus! {

/// A decoded record header. The raw 16-bit type field carries the attribute
/// id in its low 14 bits and two flag bits above them.
#[derive(Debug, Clone, Copy, PartialEq, Eq, Structural)]
pub struct Header {
    /// The bare attribute id: the raw type field modulo `0x4000`.
    pub type_id: u16,
    /// Bit 15 of the raw type field: the payload is itself a record sequence.
    pub is_nested: bool,
    /// Bit 14 of the raw type field: network byte order. Exposed, not acted
    /// upon; the remote peer does not set it reliably.
    pub net_byteorder: bool,
}

/// The length field of the record starting at `pos`.
pub open spec fn rec_len(s: Seq<u8>, pos: int) -> int {
    le16(s, pos)
}

/// The raw type field of the record starting at `pos`.
pub open spec fn rec_type(s: Seq<u8>, pos: int) -> int {
    le16(s, pos + 2)
}

/// A valid record starts at `pos`: at least 4 bytes remain, the declared
/// length covers its own header, and it does not run past the buffer.
pub open spec fn rec_valid(s: Seq<u8>, pos: int) -> bool {
    &&& pos + 4 <= s.len()
    &&& 4 <= rec_len(s, pos)
    &&& pos + rec_len(s, pos) <= s.len()
}

/// The header decoded from the raw type field `t`.
pub open spec fn spec_header(t: int) -> Header {
    Header {
        type_id: (t % 0x4000) as u16,
        is_nested: t / 0x8000 % 2 == 1,
        net_byteorder: t / 0x4000 % 2 == 1,
    }
}

/// Where the walk stands after consuming the record at `pos`: advanced by the
/// record's padded length, clamped to the buffer's end.
pub open spec fn spec_next_pos(s: Seq<u8>, pos: int) -> int {
    let next = pos + spec_align_up(rec_len(s, pos));
    if next < s.len() {
        next
    } else {
        s.len() as int
    }
}

/// Round trip: a record written by the header writer reads back unchanged.
/// If the 4 bytes at `pos` are exactly what a header write for attribute id
/// `ty` (with `len` payload bytes declared) put there, and the `len` bytes
/// after them are `payload`, then a record starting at `pos` is valid, its
/// decoded header carries the same `ty` and `is_nested` flag (and no
/// net-byte-order flag), and its payload slice is exactly `payload`.
pub proof fn lemma_write_read_round_trip(
    s: Seq<u8>,
    pos: int,
    ty: u16,
    len: u16,
    is_nested: bool,
    payload: Seq<u8>,
)
    requires
        ty < 0x4000,
        len <= u16::MAX - 4,
        payload.len() == len,
        0 <= pos,
        pos + 4 + len <= s.len(),
        s.subrange(pos, pos + 4) == crate::wire::u16_le((len + 4) as u16) + crate::wire::u16_le(
            crate::writer::wire_type(ty, is_nested),
        ),
        s.subrange(pos + 4, pos + 4 + len) == payload,
    ensures
        rec_valid(s, pos),
        rec_len(s, pos) == len + 4,
        spec_header(rec_type(s, pos)) == (Header { type_id: ty, is_nested, net_byteorder: false }),
        s.subrange(pos + 4, pos + rec_len(s, pos)) == payload,
{
    let v = (len + 4) as u16;
    let w = crate::writer::wire_type(ty, is_nested);
    let hdr = crate::wire::u16_le(v) + crate::wire::u16_le(w);
    assert(s[pos] == hdr[0] && s[pos + 1] == hdr[1] && s[pos + 2] == hdr[2] && s[pos + 3] == hdr[3])
        by {
        assert forall|i: int| 0 <= i < 4 implies s[pos + i] == hdr[i] by {
            assert(s.subrange(pos, pos + 4)[i] == s[pos + i]);
        }
    }
    crate::wire::lemma_u16_le_roundtrip(v);
    crate::wire::lemma_u16_le_roundtrip(w);
    assert(rec_len(s, pos) == v && rec_type(s, pos) == w);
    assert(ty | 0x8000u16 == ty + 0x8000) by (bit_vector)
        requires
            ty < 0x4000u16,
    ;
    assert(spec_header(w as int) == (Header { type_id: ty, is_nested, net_byteorder: false }));
}

/// Round trip through the writer: a buffer that continues a prefix with the
/// writer's header bytes for attribute id `ty`, then the declared `len`
/// payload bytes, then anything at all, holds a valid record at the padded
/// end of the prefix, and it decodes to the same `ty`, the same `is_nested`
/// flag, and the same payload.
pub proof fn lemma_round_trip_through_writer(
    prefix: Seq<u8>,
    ty: u16,
    len: u16,
    is_nested: bool,
    payload: Seq<u8>,
    rest: Seq<u8>,
)
    requires
        ty < 0x4000,
        len <= u16::MAX - 4,
        payload.len() == len,
    ensures
        ({
            let s = prefix + crate::writer::header_bytes(prefix.len() as int, ty, len, is_nested)
                + payload + rest;
            let pos = spec_align_up(prefix.len() as int);
            &&& rec_valid(s, pos)
            &&& rec_len(s, pos) == len + 4
            &&& spec_header(rec_type(s, pos)) == (Header {
                type_id: ty,
                is_nested,
                net_byteorder: false,
            })
            &&& s.subrange(pos + 4, pos + rec_len(s, pos)) == payload
        }),
{
    crate::align::lemma_align_up(prefix.len() as int);
    let s = prefix + crate::writer::header_bytes(prefix.len() as int, ty, len, is_nested) + payload
        + rest;
    let pos = spec_align_up(prefix.len() as int);
    assert(s.subrange(pos, pos + 4) =~= crate::wire::u16_le((len + 4) as u16)
        + crate::wire::u16_le(crate::writer::wire_type(ty, is_nested)));
    assert(s.subrange(pos + 4, pos + 4 + len) =~= payload);
    lemma_write_read_round_trip(s, pos, ty, len, is_nested, payload);
}

/// Decode the record starting at `*pos`: on success, return its header and
/// payload slice and advance `*pos` past the record and its padding (clamped
/// to the buffer's end). Return `None`, leaving `*pos` unchanged, if fewer
/// than 4 bytes remain, the declared length cannot cover its own header, or
/// the declared length exceeds the bytes remaining.
pub fn chop_header<'a>(buf: &'a [u8], pos: &mut usize) -> (r: Option<(Header, &'a [u8])>)
    requires
        *old(pos) <= buf@.len(),
    ensures
        r is Some <==> rec_valid(buf@, *old(pos) as int),
        r is None ==> *final(pos) == *old(pos),
        r matches Some((h, payload)) ==> {
            &&& h == spec_header(rec_type(buf@, *old(pos) as int))
            &&& payload@ == buf@.subrange(
                *old(pos) + 4,
                *old(pos) + rec_len(buf@, *old(pos) as int),
            )
            &&& *final(pos) == spec_next_pos(buf@, *old(pos) as int)
            &&& *old(pos) < *final(pos) <= buf@.len()
        },
{
    let remaining = buf.len() - *pos;
    if remaining < 4 {
        return None;
    }
    let len = read_u16_le(buf, *pos);
    let ty = read_u16_le(buf, *pos + 2);

    if len < 4 || remaining < len as usize {
        return None;
    }

    let next_len = nla_align_up(len as usize);
    let payload = vstd::slice::slice_subrange(buf, *pos + 4, *pos + len as usize);
    proof {
        crate::align::lemma_align_up(len as int);
    }
    *pos += if next_len < remaining {
        next_len
    } else {
        remaining
    };

    let is_nested = ty & NLA_F_NESTED != 0;
    let net_byteorder = ty & NLA_F_NET_BYTEORDER != 0;
    proof {
        assert((ty & 0x8000u16 != 0) == (ty / 0x8000 % 2 == 1)) by (bit_vector);
        assert((ty & 0x4000u16 != 0) == (ty / 0x4000 % 2 == 1)) by (bit_vector);
    }
    Some((Header { type_id: nla_type(ty), is_nested, net_byteorder }, payload))
}

} // verus!
