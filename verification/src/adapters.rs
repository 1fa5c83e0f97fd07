//! Adapters that turn a stream of fallible per-attribute results into a plain
//! value stream. Both stop permanently at the first failure: one `Err` (or
//! projection miss) anywhere truncates all subsequent output, rather than
//! skipping to later valid items.

use vstd::prelude::*;
use vstd::std_specs::iter::IteratorSpec;

use crate::error::ErrorContext;

verus! {

/// Yields the projection of each successfully parsed value; ends permanently
/// at the inner stream's first `Err`, at its end, or at the first value the
/// projection maps to `None`. Exposes one concrete shape out of a union of
/// possible attribute value shapes.
#[derive(Clone)]
#[verifier::reject_recursive_types(T)]
#[verifier::reject_recursive_types(V)]
pub struct MultiAttrIterable<I, T, V, F> where
    I: Iterator<Item = Result<T, ErrorContext>>,
    F: Fn(T) -> Option<V>,
 {
    pub inner: I,
    pub f: F,
    /// Latched on the first failure; every later pull yields `None`.
    pub done: bool,
}

impl<I, T, V, F> MultiAttrIterable<I, T, V, F> where
    I: Iterator<Item = Result<T, ErrorContext>>,
    F: Fn(T) -> Option<V>,
 {
    /// Wrap `inner`, projecting each parsed value through `f`.
    pub fn new(inner: I, f: F) -> (r: Self)
        ensures
            r.inner == inner,
            r.f == f,
            !r.done,
    {
        Self { inner, f, done: false }
    }

    /// Pull the next projected value. Once this has yielded `None`, it yields
    /// `None` forever.
    pub fn next(&mut self) -> (ret: Option<V>)
        requires
            forall|t: T| call_requires(old(self).f, (t,)),

        ensures
            final(self).f == old(self).f,
            old(self).done ==> final(self).done && ret is None,
            ret is Some ==> !old(self).done && !final(self).done,
            old(self).done ==> final(self).inner == old(self).inner,
            old(self).inner.obeys_prophetic_iter_laws()
                ==> final(self).inner.obeys_prophetic_iter_laws(),
            !old(self).done && old(self).inner.obeys_prophetic_iter_laws() ==> {
                let rem = old(self).inner.remaining();
                if rem.len() == 0 {
                    ret is None && final(self).done
                } else {
                    final(self).inner.remaining() == rem.drop_first() && match rem[0] {
                        Ok(t) => call_ensures(old(self).f, (t,), ret) && (final(self).done <==> ret
                            is None),
                        Err(_) => ret is None && final(self).done,
                    }
                }
            },
    {
        if self.done {
            return None;
        }
        match self.inner.next() {
            Some(Ok(val)) => {
                let r = (self.f)(val);
                if r.is_none() {
                    self.done = true;
                }
                r
            },
            _ => {
                self.done = true;
                None
            },
        }
    }
}

/// Yields each successfully parsed value as is; ends permanently at the inner
/// stream's first `Err` or at its end. Exposes plain repeated-attribute
/// lists.
#[derive(Clone)]
#[verifier::reject_recursive_types(T)]
pub struct ArrayIterable<I, T> where I: Iterator<Item = Result<T, ErrorContext>> {
    pub inner: I,
    /// Latched on the first failure; every later pull yields `None`.
    pub done: bool,
}

impl<I, T> ArrayIterable<I, T> where I: Iterator<Item = Result<T, ErrorContext>> {
    /// Wrap `inner`.
    pub fn new(inner: I) -> (r: Self)
        ensures
            r.inner == inner,
            !r.done,
    {
        Self { inner, done: false }
    }

    /// Pull the next parsed value. Once this has yielded `None`, it yields
    /// `None` forever.
    pub fn next(&mut self) -> (ret: Option<T>)
        ensures
            old(self).done ==> final(self).done && ret is None,
            ret is Some ==> !old(self).done && !final(self).done,
            old(self).done ==> final(self).inner == old(self).inner,
            old(self).inner.obeys_prophetic_iter_laws()
                ==> final(self).inner.obeys_prophetic_iter_laws(),
            !old(self).done && old(self).inner.obeys_prophetic_iter_laws() ==> {
                let rem = old(self).inner.remaining();
                if rem.len() == 0 {
                    ret is None && final(self).done
                } else {
                    final(self).inner.remaining() == rem.drop_first() && match rem[0] {
                        Ok(t) => ret == Some(t) && !final(self).done,
                        Err(_) => ret is None && final(self).done,
                    }
                }
            },
    {
        if self.done {
            return None;
        }
        match self.inner.next() {
            Some(Ok(val)) => Some(val),
            _ => {
                self.done = true;
                None
            },
        }
    }
}

} // verus!
