use vstd::prelude::*;

verus! {

/// Whether `i` is the first index of `s` whose element satisfies `p`.
pub open spec fn is_first<T>(s: Seq<T>, p: spec_fn(T) -> bool, i: int) -> bool {
    &&& 0 <= i < s.len()
    &&& p(s[i])
    &&& forall|j: int| 0 <= j < i ==> !p(#[trigger] s[j])
}

/// Index of the first element of `s` that satisfies `p`, or -1.
pub open spec fn first_index<T>(s: Seq<T>, p: spec_fn(T) -> bool) -> int {
    if exists|i: int| is_first(s, p, i) {
        choose|i: int| is_first(s, p, i)
    } else {
        -1
    }
}

pub proof fn lemma_first_index_found<T>(s: Seq<T>, p: spec_fn(T) -> bool, i: int)
    requires
        is_first(s, p, i),
    ensures
        first_index(s, p) == i,
{
    let c = choose|k: int| is_first(s, p, k);
    if c < i {
        assert(!p(s[c]));
    } else if c > i {
        assert(!p(s[i]));
    }
}

pub proof fn lemma_first_index_absent<T>(s: Seq<T>, p: spec_fn(T) -> bool)
    requires
        forall|j: int| 0 <= j < s.len() ==> !p(#[trigger] s[j]),
    ensures
        first_index(s, p) == -1,
{
    if exists|k: int| is_first(s, p, k) {
        let k = choose|k: int| is_first(s, p, k);
        assert(!p(s[k]));
    }
}

} // verus!
