//! Facts about byte sequences put in a row.

use vstd::prelude::*;

verus! {

/// Appending is associative.
pub proof fn lemma_append_assoc(a: Seq<u8>, b: Seq<u8>, c: Seq<u8>)
    ensures
        (a + b) + c == a + (b + c),
{
    assert((a + b) + c =~= a + (b + c));
}

/// A byte put in front of a sequence is its first byte, and the sequence
/// is what follows it.
pub proof fn lemma_behind_tag(tag: u8, rest: Seq<u8>)
    ensures
        (seq![tag] + rest).len() == rest.len() + 1,
        (seq![tag] + rest)[0] == tag,
        (seq![tag] + rest).skip(1) == rest,
{
    assert((seq![tag] + rest).skip(1) =~= rest);
}

/// The first `k` bytes of two sequences in a row are a prefix of the first
/// or, from its end on, the first and then a prefix of the second.
pub proof fn lemma_take_append(a: Seq<u8>, b: Seq<u8>, k: int)
    requires
        0 <= k <= a.len() + b.len(),
    ensures
        k <= a.len() ==> (a + b).take(k) == a.take(k),
        k >= a.len() ==> (a + b).take(k) == a + b.take(k - a.len()),
{
    if k <= a.len() {
        assert((a + b).take(k) =~= a.take(k));
    }
    if k >= a.len() {
        assert((a + b).take(k) =~= a + b.take(k - a.len()));
    }
}

} // verus!
