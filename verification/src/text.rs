//! Optional texts.

use vstd::prelude::*;

verus! {

/// The characters of a text that may be absent.
pub open spec fn optional_text(value: Option<&str>) -> Option<Seq<char>> {
    match value {
        Some(text) => Some(text@),
        None => None,
    }
}

/// A text that is there is taken whole, and one that is not stays absent.
pub proof fn law_optional_text(text: &str)
    ensures
        optional_text(Some(text)) == Some(text@),
        optional_text(None) is None,
{
}

} // verus!
