//! Stable sorting, as `slice::sort_by_key` does it: an element goes after
//! every element before it whose key is not greater.
use vstd::prelude::*;

verus! {

/// Inserts `x` into `s` after the last element that is not greater than it.
pub open spec fn insert_sorted<A>(s: Seq<A>, x: A, le: spec_fn(A, A) -> bool) -> Seq<A>
    decreases s.len(),
{
    if s.len() == 0 {
        seq![x]
    } else if le(s.last(), x) {
        s.push(x)
    } else {
        insert_sorted(s.drop_last(), x, le).push(s.last())
    }
}

/// The stable sort of `s` by `le`.
pub open spec fn insertion_sorted<A>(s: Seq<A>, le: spec_fn(A, A) -> bool) -> Seq<A>
    decreases s.len(),
{
    if s.len() == 0 {
        s
    } else {
        insert_sorted(insertion_sorted(s.drop_last(), le), s.last(), le)
    }
}

/// Every element is not greater than any later one.
pub open spec fn is_sorted_by<A>(s: Seq<A>, le: spec_fn(A, A) -> bool) -> bool {
    forall|i: int, j: int| 0 <= i < j < s.len() ==> le(#[trigger] s[i], #[trigger] s[j])
}

/// `le` is total and transitive.
pub open spec fn total_preorder<A>(le: spec_fn(A, A) -> bool) -> bool {
    &&& forall|a: A, b: A| #[trigger] le(a, b) || le(b, a)
    &&& forall|a: A, b: A, c: A| #[trigger] le(a, b) && #[trigger] le(b, c) ==> le(a, c)
}

/// Inserting at the first index from which every element is greater than
/// `x` is what `insert_sorted` does.
pub proof fn lemma_insert_at<A>(s: Seq<A>, x: A, le: spec_fn(A, A) -> bool, j: int)
    requires
        0 <= j <= s.len(),
        forall|k: int| j <= k < s.len() ==> !le(#[trigger] s[k], x),
        j > 0 ==> le(s[j - 1], x),
    ensures
        insert_sorted(s, x, le) == s.insert(j, x),
    decreases s.len(),
{
    if s.len() == 0 {
        assert(s.insert(j, x) =~= seq![x]);
    } else if j == s.len() {
        assert(s.insert(j, x) =~= s.push(x));
    } else {
        assert(!le(s.last(), x));
        let t = s.drop_last();
        assert forall|k: int| j <= k < t.len() implies !le(#[trigger] t[k], x) by {
            assert(t[k] == s[k]);
        }
        if j > 0 {
            assert(t[j - 1] == s[j - 1]);
        }
        lemma_insert_at(t, x, le, j);
        assert(t.insert(j, x).push(s.last()) =~= s.insert(j, x));
    }
}

/// Inserting keeps the elements, plus `x`.
pub proof fn lemma_insert_sorted_multiset<A>(s: Seq<A>, x: A, le: spec_fn(A, A) -> bool)
    ensures
        insert_sorted(s, x, le).to_multiset() == s.to_multiset().insert(x),
    decreases s.len(),
{
    broadcast use vstd::seq_lib::group_to_multiset_ensures;
    if s.len() == 0 {
        assert(seq![x] =~= s.push(x));
    } else if le(s.last(), x) {
    } else {
        lemma_insert_sorted_multiset(s.drop_last(), x, le);
        assert(s.drop_last().push(s.last()) =~= s);
        assert(insert_sorted(s.drop_last(), x, le).push(s.last()).to_multiset() =~= s.to_multiset().insert(
            x,
        ));
    }
}

/// The sort keeps the elements: the result is a permutation.
pub proof fn law_insertion_sorted_permutes<A>(s: Seq<A>, le: spec_fn(A, A) -> bool)
    ensures
        insertion_sorted(s, le).to_multiset() == s.to_multiset(),
    decreases s.len(),
{
    broadcast use vstd::seq_lib::group_to_multiset_ensures;
    if s.len() > 0 {
        law_insertion_sorted_permutes(s.drop_last(), le);
        lemma_insert_sorted_multiset(insertion_sorted(s.drop_last(), le), s.last(), le);
        assert(s.drop_last().push(s.last()) =~= s);
    }
}

/// If every element of `s` and `x` are not greater than `y`, neither is any
/// element of the insertion.
proof fn lemma_insert_sorted_bounded<A>(s: Seq<A>, x: A, le: spec_fn(A, A) -> bool, y: A)
    requires
        forall|i: int| 0 <= i < s.len() ==> le(#[trigger] s[i], y),
        le(x, y),
    ensures
        forall|i: int| 0 <= i < insert_sorted(s, x, le).len() ==> le(#[trigger] insert_sorted(s, x, le)[i], y),
        insert_sorted(s, x, le).len() == s.len() + 1,
    decreases s.len(),
{
    if s.len() == 0 {
    } else if le(s.last(), x) {
        assert forall|i: int| 0 <= i < s.push(x).len() implies le(#[trigger] s.push(x)[i], y) by {
            if i < s.len() {
                assert(s.push(x)[i] == s[i]);
            }
        }
    } else {
        let t = s.drop_last();
        assert forall|i: int| 0 <= i < t.len() implies le(#[trigger] t[i], y) by {
            assert(t[i] == s[i]);
        }
        lemma_insert_sorted_bounded(t, x, le, y);
        let u = insert_sorted(t, x, le);
        assert forall|i: int| 0 <= i < u.push(s.last()).len() implies le(#[trigger] u.push(s.last())[i], y) by {
            if i < u.len() {
                assert(u.push(s.last())[i] == u[i]);
            }
        }
    }
}

/// Inserting into a sorted sequence keeps it sorted.
proof fn lemma_insert_sorted_sorted<A>(s: Seq<A>, x: A, le: spec_fn(A, A) -> bool)
    requires
        total_preorder(le),
        is_sorted_by(s, le),
    ensures
        is_sorted_by(insert_sorted(s, x, le), le),
        insert_sorted(s, x, le).len() == s.len() + 1,
    decreases s.len(),
{
    if s.len() == 0 {
    } else if le(s.last(), x) {
        let r = s.push(x);
        assert forall|i: int, j: int| 0 <= i < j < r.len() implies le(#[trigger] r[i], #[trigger] r[j]) by {
            if j == s.len() {
                if i < s.len() - 1 {
                    assert(le(s[i], s[s.len() - 1]));
                }
            } else {
                assert(r[i] == s[i] && r[j] == s[j]);
            }
        }
    } else {
        let t = s.drop_last();
        let last = s.last();
        assert(le(x, last));
        assert(is_sorted_by(t, le)) by {
            assert forall|i: int, j: int| 0 <= i < j < t.len() implies le(#[trigger] t[i], #[trigger] t[j]) by {
                assert(t[i] == s[i] && t[j] == s[j]);
            }
        }
        assert forall|i: int| 0 <= i < t.len() implies le(#[trigger] t[i], last) by {
            assert(t[i] == s[i]);
            assert(le(s[i], s[s.len() - 1]));
        }
        lemma_insert_sorted_sorted(t, x, le);
        lemma_insert_sorted_bounded(t, x, le, last);
        let u = insert_sorted(t, x, le);
        let r = u.push(last);
        assert forall|i: int, j: int| 0 <= i < j < r.len() implies le(#[trigger] r[i], #[trigger] r[j]) by {
            if j == u.len() {
                assert(r[i] == u[i]);
            } else {
                assert(r[i] == u[i] && r[j] == u[j]);
            }
        }
    }
}

/// The sort orders the elements.
pub proof fn law_insertion_sorted_is_sorted<A>(s: Seq<A>, le: spec_fn(A, A) -> bool)
    requires
        total_preorder(le),
    ensures
        is_sorted_by(insertion_sorted(s, le), le),
        insertion_sorted(s, le).len() == s.len(),
    decreases s.len(),
{
    if s.len() > 0 {
        law_insertion_sorted_is_sorted(s.drop_last(), le);
        lemma_insert_sorted_sorted(insertion_sorted(s.drop_last(), le), s.last(), le);
    }
}

} // verus!
