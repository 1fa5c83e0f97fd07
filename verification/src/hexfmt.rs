//! Test-support helpers: hex rendering of byte buffers and the first
//! differing position of two buffers. These carry no protocol semantics; they
//! exist to make codec test failures legible.

use vstd::prelude::*;
use vstd::string::StringExecFns;

verus! {

/// The hex digit `d` as a one-character string.
pub open spec fn hex_digit(d: int) -> Seq<char>
    recommends
        0 <= d < 16,
{
    if d == 0 {
        "0"@
    } else if d == 1 {
        "1"@
    } else if d == 2 {
        "2"@
    } else if d == 3 {
        "3"@
    } else if d == 4 {
        "4"@
    } else if d == 5 {
        "5"@
    } else if d == 6 {
        "6"@
    } else if d == 7 {
        "7"@
    } else if d == 8 {
        "8"@
    } else if d == 9 {
        "9"@
    } else if d == 10 {
        "a"@
    } else if d == 11 {
        "b"@
    } else if d == 12 {
        "c"@
    } else if d == 13 {
        "d"@
    } else if d == 14 {
        "e"@
    } else {
        "f"@
    }
}

/// Two lowercase hex digits for each byte, in order.
pub open spec fn hex_bytes(s: Seq<u8>) -> Seq<char>
    decreases s.len(),
{
    if s.len() == 0 {
        Seq::empty()
    } else {
        hex_bytes(s.drop_last()) + hex_digit(s.last() as int / 16) + hex_digit(s.last() as int % 16)
    }
}

/// The hex digit `d` as a one-character string slice.
fn hex_digit_str(d: u8) -> (r: &'static str)
    requires
        d < 16,
    ensures
        r@ == hex_digit(d as int),
{
    if d == 0 {
        "0"
    } else if d == 1 {
        "1"
    } else if d == 2 {
        "2"
    } else if d == 3 {
        "3"
    } else if d == 4 {
        "4"
    } else if d == 5 {
        "5"
    } else if d == 6 {
        "6"
    } else if d == 7 {
        "7"
    } else if d == 8 {
        "8"
    } else if d == 9 {
        "9"
    } else if d == 10 {
        "a"
    } else if d == 11 {
        "b"
    } else if d == 12 {
        "c"
    } else if d == 13 {
        "d"
    } else if d == 14 {
        "e"
    } else {
        "f"
    }
}

/// A byte slice rendered as a quoted string of hex digit pairs.
pub struct FormatHex<'a>(pub &'a [u8]);

impl<'a> FormatHex<'a> {
    /// The quoted hex rendering of the wrapped bytes.
    pub open spec fn spec_render(self) -> Seq<char> {
        "\""@ + hex_bytes(self.0@) + "\""@
    }

    /// Render the wrapped bytes as text, exactly as `spec_render` states it.
    pub fn render(&self) -> (r: String)
        ensures
            r@ == self.spec_render(),
    {
        let mut s = String::from_str("\"");
        let mut i: usize = 0;
        while i < self.0.len()
            invariant
                i <= self.0@.len(),
                s@ == "\""@ + hex_bytes(self.0@.subrange(0, i as int)),
            decreases self.0@.len() - i,
        {
            let b = self.0[i];
            s.append(hex_digit_str(b / 16));
            s.append(hex_digit_str(b % 16));
            i = i + 1;
            proof {
                assert(self.0@.subrange(0, i as int).drop_last() =~= self.0@.subrange(
                    0,
                    i as int - 1,
                ));
            }
        }
        proof {
            assert(self.0@.subrange(0, self.0@.len() as int) =~= self.0@);
        }
        s.append("\"");
        s
    }
}

/// The first position where the two buffers differ, comparing up to the
/// shorter length; `None` when they agree everywhere both have a byte.
pub fn first_mismatch(left: &[u8], right: &[u8]) -> (r: Option<usize>)
    ensures
        match r {
            Some(i) => {
                &&& i < left@.len() && i < right@.len()
                &&& left@[i as int] != right@[i as int]
                &&& forall|j: int| 0 <= j < i ==> left@[j] == right@[j]
            },
            None => forall|j: int|
                0 <= j < left@.len() && j < right@.len() ==> left@[j] == right@[j],
        },
{
    let n = if left.len() < right.len() {
        left.len()
    } else {
        right.len()
    };
    let mut i: usize = 0;
    while i < n
        invariant
            i <= n,
            n <= left@.len() && n <= right@.len(),
            forall|j: int| 0 <= j < i ==> left@[j] == right@[j],
        decreases n - i,
    {
        if left[i] != right[i] {
            return Some(i);
        }
        i = i + 1;
    }
    None
}

} // verus!
