//! What the other modules share: the fence, and a fact on where a
//! character first stands in a text.

use vstd::prelude::*;

verus! {

/// The three backticks that open and close a fenced block.
pub open spec fn fence() -> Seq<char> {
    seq!['`', '`', '`']
}

/// An index that holds `c`, with no `c` before it, is the index at which
/// `c` first stands in `s`.
pub proof fn lemma_first_occurrence(s: Seq<char>, c: char, k: int)
    requires
        0 <= k < s.len(),
        s[k] == c,
        forall|j: int| 0 <= j < k ==> s[j] != c,
    ensures
        s.index_of_first(c) == Some(k),
{
    s.index_of_first_ensures(c);
    assert(s.contains(c));
}

} // verus!
