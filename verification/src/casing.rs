//! Case folding for the reserved command words.

use vstd::prelude::*;

verus! {

/// What lowercasing a string yields. The mapping depends on the characters
/// alone, so it is given a name rather than written out.
pub uninterp spec fn lower_of(s: Seq<char>) -> Seq<char>;

/// Relies on str::to_lowercase: the result depends on the characters alone.
#[verifier::external_body]
pub(crate) fn lowercase(s: &str) -> (r: String)
    ensures
        r@ == lower_of(s@),
{
    s.to_lowercase()
}

} // verus!
