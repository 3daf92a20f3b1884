//! Character-level helpers for the grammar of tags, style values and names.
use vstd::prelude::*;
use vstd::string::*;

verus! {

/// The tag of text nodes, `#text`.
pub fn text_tag() -> (s: String)
    ensures
        s@ == seq!['#', 't', 'e', 'x', 't'],
{
    proof {
        reveal_strlit("#text");
    }
    String::from_str("#text")
}

} // verus!
