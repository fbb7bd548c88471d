//! Checks for the interval-log export.
//!
//! The textual interval-log format separates fields by commas and
//! whitespace, so a histogram tag prefix must contain neither.  The export
//! itself is plain output and lives with the caller; the admission rule is
//! verified here.

use vstd::prelude::*;

verus! {

/// True when a byte may appear in an interval-log tag: anything but a
/// comma, a space, a newline or a tab.
pub open spec fn spec_tag_byte_ok(b: u8) -> bool {
    b != 44 && b != 32 && b != 10 && b != 9
}

/// True when `bytes` (the UTF-8 text of a tag prefix) is admissible for the
/// interval log: it contains no comma and no whitespace.
pub fn valid_tag_prefix(bytes: &Vec<u8>) -> (r: bool)
    ensures
        r == forall|i: int| 0 <= i < bytes@.len() ==> spec_tag_byte_ok(#[trigger] bytes@[i]),
{
    let n = bytes.len();
    let mut i: usize = 0;
    while i < n
        invariant
            n == bytes@.len(),
            i <= n,
            forall|k: int| 0 <= k < i ==> spec_tag_byte_ok(#[trigger] bytes@[k]),
        decreases n - i,
    {
        let b = bytes[i];
        if b == 44 || b == 32 || b == 10 || b == 9 {
            return false;
        }
        i = i + 1;
    }
    true
}

} // verus!
