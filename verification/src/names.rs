//! Validation of tag and attribute names.
//!
//! Names are written into the output verbatim, so the only protection they
//! get is this check at construction time.

use vstd::prelude::*;
use vstd::std_specs::iter::IteratorSpec;

verus! {

/// Whether `c` has the Unicode `White_Space` property.
pub open spec fn is_whitespace(c: char) -> bool {
    let n = c as u32;
    ||| 0x09 <= n <= 0x0D
    ||| n == 0x20
    ||| n == 0x85
    ||| n == 0xA0
    ||| n == 0x1680
    ||| 0x2000 <= n <= 0x200A
    ||| n == 0x2028
    ||| n == 0x2029
    ||| n == 0x202F
    ||| n == 0x205F
    ||| n == 0x3000
}

/// A name is valid when it is not empty and holds no whitespace.
pub open spec fn valid_name(name: Seq<char>) -> bool {
    &&& name.len() > 0
    &&& forall|i: int| 0 <= i < name.len() ==> !is_whitespace(#[trigger] name[i])
}

/// Executable form of [`is_whitespace`].
pub fn char_is_whitespace(c: char) -> (b: bool)
    ensures
        b == is_whitespace(c),
{
    let n: u32 = c as u32;
    (0x09 <= n && n <= 0x0D) || n == 0x20 || n == 0x85 || n == 0xA0 || n == 0x1680 || (0x2000 <= n
        && n <= 0x200A) || n == 0x2028 || n == 0x2029 || n == 0x202F || n == 0x205F || n == 0x3000
}

/// Decides [`valid_name`] for a string.
pub fn is_valid_name(name: &str) -> (b: bool)
    ensures
        b == valid_name(name@),
{
    if name.is_empty() {
        return false;
    }
    let mut chars = name.chars();
    let ghost mut seen: int = 0;
    loop
        invariant
            chars.obeys_prophetic_iter_laws(),
            0 <= seen <= name@.len(),
            chars.remaining() == name@.subrange(seen, name@.len() as int),
            forall|i: int| 0 <= i < seen ==> !is_whitespace(#[trigger] name@[i]),
            name@.len() > 0,
        decreases name@.len() - seen,
    {
        match chars.next() {
            Some(c) => {
                if char_is_whitespace(c) {
                    return false;
                }
                proof {
                    seen = seen + 1;
                }
            },
            None => {
                return true;
            },
        }
    }
}

} // verus!
