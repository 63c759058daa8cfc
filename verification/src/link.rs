//! Validation of the pasted source link.  A link is well formed only if it
//! is non-empty and begins with one of the accepted URL prefixes for the
//! supported video host; everything else is rejected before any work starts.

use vstd::prelude::*;

use crate::text::{is_prefix, str_has_prefix};

verus! {

/// A well-formed source link: non-empty text beginning with one of the two
/// accepted URL prefixes.
pub open spec fn spec_valid_link(s: Seq<char>) -> bool {
    s.len() > 0 && (is_prefix("https://www.youtube.com/watch?v="@, s) || is_prefix(
        "https://youtube.com/watch?v="@,
        s,
    ))
}

/// True iff `link` is a well-formed source link.
pub fn link_is_valid(link: &str) -> (r: bool)
    ensures
        r == spec_valid_link(link@),
{
    !link.is_empty() && (str_has_prefix(link, "https://www.youtube.com/watch?v=")
        || str_has_prefix(link, "https://youtube.com/watch?v="))
}

} // verus!
