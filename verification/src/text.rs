//! Comparison of texts by their characters.

use vstd::prelude::*;

verus! {

/// Tells whether two texts hold the same characters.
pub fn same_text(left: &str, right: &str) -> (same: bool)
    ensures
        same == (left@ == right@),
{
    String::from_str(left) == String::from_str(right)
}

} // verus!
