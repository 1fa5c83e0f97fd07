//! Decode cursor: a view over a byte buffer that tracks the walk position,
//! carries the logical byte location of the buffer and of the record set's
//! origin, and constructs localized errors. Positions are explicit byte
//! offsets in a caller-chosen coordinate scheme (the top-level record set
//! usually starts at 0), so error offsets are reproducible byte distances.
//!
//! The `AttrSet` tag type prevents mixing cursors across unrelated attribute
//! sets at compile time; it carries no data.

use vstd::prelude::*;

use core::marker::PhantomData;

use crate::error::{ErrorContext, ErrorReason};

verus! {

/// A cursor over `buf` starting at `pos`, whose first byte sits at logical
/// location `loc`, with error offsets measured from `orig_loc`. In strict
/// mode the surrounding harness aborts on the first constructed error; the
/// cursor itself only records the mode.
#[derive(Debug)]
pub struct Iterable<'a, AttrSet> {
    pub buf: &'a [u8],
    /// Current position of the walk within `buf`.
    pub pos: usize,
    /// Logical byte location of `buf[0]`.
    pub loc: usize,
    /// Logical byte location errors are measured from; fixed at construction.
    pub orig_loc: usize,
    /// Whether error construction is meant to abort the run (strict) or hand
    /// the error back as a value (normal).
    pub strict: bool,
    pub phantom: PhantomData<AttrSet>,
}

impl<'a, AttrSet> Clone for Iterable<'a, AttrSet> {
    fn clone(&self) -> (r: Self)
        ensures
            r == *self,
    {
        *self
    }
}

impl<'a, AttrSet> Copy for Iterable<'a, AttrSet> {

}

impl<'a, AttrSet> Default for Iterable<'a, AttrSet> {
    /// An empty cursor: nothing remains and every location is zero.
    fn default() -> (r: Self)
        ensures
            r.buf@.len() == 0,
            r == (Iterable {
                buf: r.buf,
                pos: 0usize,
                loc: 0usize,
                orig_loc: 0usize,
                strict: false,
                phantom: PhantomData::<AttrSet>,
            }),
            r.wf(),
    {
        let buf: &'a [u8] = &[];
        Iterable { buf, pos: 0, loc: 0, orig_loc: 0, strict: false, phantom: PhantomData }
    }
}

/// The byte distance from `orig` to `loc`, or 0 when `loc` lies before
/// `orig` or more than `0xffff` bytes after it.
pub open spec fn spec_calc_offset(orig: int, loc: int) -> int {
    if orig <= loc && loc - orig <= 0xffff {
        loc - orig
    } else {
        0
    }
}

impl<'a, AttrSet> Iterable<'a, AttrSet> {
    /// The walk position is inside the buffer and every location within the
    /// buffer is representable.
    pub open spec fn wf(self) -> bool {
        &&& self.pos <= self.buf@.len()
        &&& self.loc + self.buf@.len() <= usize::MAX
    }

    /// The bytes not yet consumed.
    pub open spec fn remaining(self) -> Seq<u8> {
        self.buf@.subrange(self.pos as int, self.buf@.len() as int)
    }

    /// A cursor over a top-level record set: the buffer's start is both its
    /// own location and the origin for error offsets.
    pub fn new(buf: &'a [u8]) -> (r: Self)
        ensures
            r == (Iterable {
                buf,
                pos: 0usize,
                loc: 0usize,
                orig_loc: 0usize,
                strict: false,
                phantom: PhantomData::<AttrSet>,
            }),
            r.wf(),
    {
        proof {
            broadcast use vstd::slice::axiom_spec_len;

            assert(vstd::slice::spec_slice_len(buf) == buf@.len());
        }
        Iterable { buf, pos: 0, loc: 0, orig_loc: 0, strict: false, phantom: PhantomData }
    }

    /// A cursor over a sub-slice whose first byte sits at logical location
    /// `loc` of an outer offset scheme, with error offsets measured from
    /// `orig_loc` of that same scheme.
    pub fn with_loc(buf: &'a [u8], loc: usize, orig_loc: usize) -> (r: Self)
        requires
            loc + buf@.len() <= usize::MAX,
        ensures
            r == (Iterable {
                buf,
                pos: 0usize,
                loc,
                orig_loc,
                strict: false,
                phantom: PhantomData::<AttrSet>,
            }),
            r.wf(),
    {
        Iterable { buf, pos: 0, loc, orig_loc, strict: false, phantom: PhantomData }
    }

    /// The same cursor with the strict/normal error mode set as given.
    pub fn set_strict(self, strict: bool) -> (r: Self)
        ensures
            r == (Iterable { strict, ..self }),
    {
        Iterable { strict, ..self }
    }

    /// Whether error construction is meant to abort the run.
    pub fn is_strict(&self) -> (r: bool)
        ensures
            r == self.strict,
    {
        self.strict
    }

    /// The byte offset of logical location `loc` from this cursor's origin,
    /// clamped to 0 when `loc` lies before the origin or more than `0xffff`
    /// bytes after it.
    pub fn calc_offset(&self, loc: usize) -> (r: usize)
        ensures
            r == spec_calc_offset(self.orig_loc as int, loc as int),
    {
        let orig = self.orig_loc;
        if orig <= loc && loc - orig <= 0xffff {
            loc - orig
        } else {
            0
        }
    }

    /// The error for a required attribute that was never observed, located at
    /// the start of the remaining bytes.
    pub fn error_missing(&self, attrs: &'static str, attr: &'static str) -> (r: ErrorContext)
        requires
            self.wf(),
        ensures
            r == (ErrorContext {
                attrs,
                attr: Some(attr),
                offset: spec_calc_offset(self.orig_loc as int, self.loc + self.pos) as usize,
                reason: ErrorReason::AttrMissing,
            }),
    {
        ErrorContext {
            attrs,
            attr: Some(attr),
            offset: self.calc_offset(self.loc + self.pos),
            reason: ErrorReason::AttrMissing,
        }
    }

    /// The error for a value that fails to decode (`attr` known) or an
    /// unrecognized attribute id (`attr` unknown), located at logical
    /// location `loc`. Poisons the cursor: its remaining view becomes empty,
    /// so any further walk over it ends at once.
    pub fn error_context(
        &mut self,
        attrs: &'static str,
        attr: Option<&'static str>,
        loc: usize,
    ) -> (r: ErrorContext)
        requires
            old(self).wf(),
        ensures
            final(self).wf(),
            final(self).remaining() == Seq::<u8>::empty(),
            final(self).buf@.len() == 0,
            final(self).loc == old(self).loc,
            final(self).orig_loc == old(self).orig_loc,
            final(self).strict == old(self).strict,
            r == (ErrorContext {
                attrs,
                attr,
                offset: spec_calc_offset(old(self).orig_loc as int, loc as int) as usize,
                reason: if attr is Some {
                    ErrorReason::ParsingError
                } else {
                    ErrorReason::UnknownAttr
                },
            }),
    {
        let empty = vstd::slice::slice_subrange(self.buf, 0, 0);
        self.buf = empty;
        self.pos = 0;
        let reason = if attr.is_some() {
            ErrorReason::ParsingError
        } else {
            ErrorReason::UnknownAttr
        };
        proof {
            assert(self.remaining() =~= Seq::<u8>::empty());
        }
        ErrorContext { attrs, attr, offset: self.calc_offset(loc), reason }
    }

    /// The bytes not yet consumed, for the caller's own record walk.
    pub fn get_buf(&self) -> (r: &'a [u8])
        requires
            self.wf(),
        ensures
            r@ == self.remaining(),
    {
        vstd::slice::slice_subrange(self.buf, self.pos, self.buf.len())
    }
}

} // verus!
