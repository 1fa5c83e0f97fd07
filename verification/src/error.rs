//! Structured decode errors: a taxonomy of three failure reasons, the labels
//! and byte offset of the failure site, and exact human-readable rendering.

use vstd::prelude::*;
use vstd::string::StringExecFns;

verus! {

/// Why an attribute set failed to decode.
#[derive(Debug, Clone, PartialEq, Eq)]
pub enum ErrorReason {
    /// A required attribute was never present. Only produced when looking a
    /// specific attribute up.
    AttrMissing,
    /// An attribute's raw bytes do not decode to its expected value type.
    ParsingError,
    /// An attribute id not recognized by a set that must reject unknown ids.
    UnknownAttr,
}

/// A decode failure: the attribute set's label, the failing attribute's label
/// if one is known, the byte offset of the failure from the record set's
/// origin (0 when unknown or not representable), and the reason. Immutable
/// once constructed.
#[derive(Debug, Clone, PartialEq, Eq)]
pub struct ErrorContext {
    pub attrs: &'static str,
    pub attr: Option<&'static str>,
    pub offset: usize,
    pub reason: ErrorReason,
}

/// The decimal digit `d` as a one-character string.
pub open spec fn dec_digit(d: int) -> Seq<char>
    recommends
        0 <= d < 10,
{
    if d == 0 {
        "0"@
    } else if d == 1 {
        "1"@
    } else if d == 2 {
        "2"@
    } else if d == 3 {
        "3"@
    } else if d == 4 {
        "4"@
    } else if d == 5 {
        "5"@
    } else if d == 6 {
        "6"@
    } else if d == 7 {
        "7"@
    } else if d == 8 {
        "8"@
    } else {
        "9"@
    }
}

/// The decimal rendering of `n`, most significant digit first, no leading
/// zeros (a lone `0` for zero).
pub open spec fn dec_str(n: nat) -> Seq<char>
    decreases n,
{
    if n < 10 {
        dec_digit(n as int)
    } else {
        dec_str(n / 10) + dec_digit((n % 10) as int)
    }
}

/// The decimal digit `d` as a one-character string slice.
fn dec_digit_str(d: usize) -> (r: &'static str)
    requires
        d < 10,
    ensures
        r@ == dec_digit(d as int),
{
    if d == 0 {
        "0"
    } else if d == 1 {
        "1"
    } else if d == 2 {
        "2"
    } else if d == 3 {
        "3"
    } else if d == 4 {
        "4"
    } else if d == 5 {
        "5"
    } else if d == 6 {
        "6"
    } else if d == 7 {
        "7"
    } else if d == 8 {
        "8"
    } else {
        "9"
    }
}

/// Render `n` in decimal.
pub fn usize_to_string(n: usize) -> (r: String)
    ensures
        r@ == dec_str(n as nat),
    decreases n,
{
    if n < 10 {
        String::from_str(dec_digit_str(n))
    } else {
        let mut s = usize_to_string(n / 10);
        s.append(dec_digit_str(n % 10));
        s
    }
}

impl ErrorContext {
    /// The rendered message, by reason: a missing attribute names the
    /// attribute and its set; a parsing failure names the attribute (or the
    /// set's header, with an unknown-attribute note where that is the reason)
    /// and carries the byte offset.
    pub open spec fn spec_render(self) -> Seq<char> {
        if self.reason is AttrMissing {
            "Missing attribute \""@ + self.attr->0@ + "\" in \""@ + self.attrs@ + "\""@
        } else {
            let head = if self.attr is Some {
                "Error parsing attribute \""@ + self.attr->0@ + "\" of \""@ + self.attrs@ + "\""@
            } else if self.reason is UnknownAttr {
                "Error parsing header of \""@ + self.attrs@ + "\" (unknown attribute)"@
            } else {
                "Error parsing header of \""@ + self.attrs@ + "\""@
            };
            head + " at offset "@ + dec_str(self.offset as nat)
        }
    }

    /// Render the error as text, exactly as `spec_render` states it.
    pub fn render(&self) -> (r: String)
        requires
            self.reason is AttrMissing ==> self.attr is Some,
        ensures
            r@ == self.spec_render(),
    {
        let mut s = String::new();
        match &self.reason {
            ErrorReason::AttrMissing => {
                let attr = match self.attr {
                    Some(a) => a,
                    None => vstd::pervasive::unreached(),
                };
                s.append("Missing attribute \"");
                s.append(attr);
                s.append("\" in \"");
                s.append(self.attrs);
                s.append("\"");
            },
            _ => {
                match self.attr {
                    Some(a) => {
                        s.append("Error parsing attribute \"");
                        s.append(a);
                        s.append("\" of \"");
                        s.append(self.attrs);
                        s.append("\"");
                    },
                    None => {
                        s.append("Error parsing header of \"");
                        s.append(self.attrs);
                        if matches!(&self.reason, ErrorReason::UnknownAttr) {
                            s.append("\" (unknown attribute)");
                        } else {
                            s.append("\"");
                        }
                    },
                }
                s.append(" at offset ");
                let off = usize_to_string(self.offset);
                s.append(off.as_str());
            },
        }
        proof {
            assert(s@ =~= self.spec_render());
        }
        s
    }
}

/// A per-attribute decode result, carried so that a caller can flatten the
/// error into its rendered message instead of the structured value.
pub struct FlattenErrorContext<T>(pub Result<T, ErrorContext>);

impl<T> FlattenErrorContext<T> {
    /// The rendered message of the carried error, if the result is one.
    pub fn err_render(&self) -> (r: Option<String>)
        requires
            self.0 matches Err(e) && e.reason is AttrMissing ==> (self.0->Err_0).attr is Some,
        ensures
            match self.0 {
                Ok(_) => r is None,
                Err(e) => r matches Some(m) && m@ == e.spec_render(),
            },
    {
        match &self.0 {
            Ok(_) => None,
            Err(e) => Some(e.render()),
        }
    }
}

} // verus!
