//! Comparing text, character by character.

use vstd::prelude::*;

verus! {

/// `text` begins with `prefix`.
pub open spec fn starts_with(text: Seq<char>, prefix: Seq<char>) -> bool {
    prefix.len() <= text.len() && text.subrange(0, prefix.len() as int) == prefix
}

/// Whether two texts are the same, character by character.
pub fn same_text(a: &str, b: &str) -> (same: bool)
    ensures
        same == (a@ == b@),
{
    let n = a.unicode_len();
    if n != b.unicode_len() {
        return false;
    }
    let mut i: usize = 0;
    while i < n
        invariant
            i <= n,
            n == a@.len(),
            n == b@.len(),
            forall|k: int| 0 <= k < i ==> a@[k] == b@[k],
        decreases n - i,
    {
        if a.get_char(i) != b.get_char(i) {
            return false;
        }
        i = i + 1;
    }
    assert(a@ =~= b@);
    true
}

/// Whether `text` begins with `prefix`.
pub fn text_starts_with(text: &str, prefix: &str) -> (found: bool)
    ensures
        found == starts_with(text@, prefix@),
{
    let len = prefix.unicode_len();
    if len > text.unicode_len() {
        return false;
    }
    let mut k: usize = 0;
    while k < len
        invariant
            k <= len,
            len == prefix@.len(),
            len <= text@.len(),
            forall|j: int| 0 <= j < k ==> text@[j] == prefix@[j],
        decreases len - k,
    {
        if text.get_char(k) != prefix.get_char(k) {
            assert(text@.subrange(0, len as int)[k as int] != prefix@[k as int]);
            return false;
        }
        k = k + 1;
    }
    assert(text@.subrange(0, len as int) =~= prefix@);
    true
}

} // verus!
