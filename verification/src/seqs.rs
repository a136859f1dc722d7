//! Where a value first stands in a sequence.

use vstd::prelude::*;

verus! {

/// `i` is the first place at which `x` stands in `s`.
pub open spec fn is_first_at<A>(s: Seq<A>, x: A, i: int) -> bool {
    &&& 0 <= i < s.len()
    &&& s[i] == x
    &&& forall|j: int| 0 <= j < i ==> s[j] != x
}

/// The first place at which `x` stands in `s`; meaningful only when `s`
/// contains `x`.
pub open spec fn first_place<A>(s: Seq<A>, x: A) -> int {
    choose|i: int| is_first_at(s, x, i)
}

/// `x` stands somewhere in `s` from place `from` up to, not including, `to`.
pub open spec fn occurs_between<A>(s: Seq<A>, from: int, to: int, x: A) -> bool {
    exists|j: int| from <= j < to && 0 <= j < s.len() && s[j] == x
}

proof fn lemma_first_exists<A>(s: Seq<A>, x: A, k: int)
    requires
        0 <= k < s.len(),
        s[k] == x,
    ensures
        exists|i: int| 0 <= i <= k && is_first_at(s, x, i),
    decreases k,
{
    if exists|j: int| 0 <= j < k && s[j] == x {
        let j = choose|j: int| 0 <= j < k && s[j] == x;
        lemma_first_exists(s, x, j);
        let i = choose|i: int| 0 <= i <= j && is_first_at(s, x, i);
        assert(0 <= i <= k && is_first_at(s, x, i));
    } else {
        assert(is_first_at(s, x, k));
    }
}

/// A value that occurs in `s` has exactly one first place, and it lies at or
/// before every place where the value stands.
pub proof fn lemma_first_place<A>(s: Seq<A>, x: A)
    requires
        s.contains(x),
    ensures
        is_first_at(s, x, first_place(s, x)),
        forall|i: int| is_first_at(s, x, i) ==> i == first_place(s, x),
        forall|k: int| 0 <= k < s.len() && s[k] == x ==> first_place(s, x) <= k,
{
    let k = choose|k: int| 0 <= k < s.len() && s[k] == x;
    lemma_first_exists(s, x, k);
}

/// In a sequence without repetitions every value stands at its own first
/// place.
pub proof fn lemma_first_place_distinct<A>(s: Seq<A>, i: int)
    requires
        s.no_duplicates(),
        0 <= i < s.len(),
    ensures
        s.contains(s[i]),
        first_place(s, s[i]) == i,
{
    assert(is_first_at(s, s[i], i));
    lemma_first_place(s, s[i]);
}

} // verus!
