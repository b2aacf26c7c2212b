//! Small shared spec helpers for viewing optional strings.

use vstd::prelude::*;

verus! {

/// View of an optional string: the character sequence, if present.
pub open spec fn opt_str_view(o: Option<String>) -> Option<Seq<char>> {
    match o {
        Some(s) => Some(s@),
        None => None,
    }
}

} // verus!
