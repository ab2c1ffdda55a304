//! Small helpers on text.

use vstd::prelude::*;
use vstd::string::*;
use vstd::std_specs::iter::IteratorSpec;

verus! {

/// Whether two texts hold the same characters.
pub fn same_text(a: &str, b: &str) -> (same: bool)
    ensures
        same == (a@ == b@),
{
    broadcast use group_string_axioms;

    let mut left = a.chars();
    let mut right = b.chars();
    let ghost mut seen: int = 0;
    loop
        invariant
            0 <= seen <= a@.len(),
            seen <= b@.len(),
            left.remaining() == a@.skip(seen),
            right.remaining() == b@.skip(seen),
            left.obeys_prophetic_iter_laws(),
            right.obeys_prophetic_iter_laws(),
            forall|i: int| 0 <= i < seen ==> a@[i] == b@[i],
        decreases a@.len() - seen,
    {
        let x = left.next();
        let y = right.next();
        match (x, y) {
            (Some(c), Some(d)) => {
                if c != d {
                    return false;
                }
                proof {
                    seen = seen + 1;
                }
            },
            (None, None) => {
                assert(a@ =~= b@);
                return true;
            },
            _ => {
                return false;
            },
        }
    }
}

} // verus!
