//! Stable insertion order: the mathematical model of the stable sorts the
//! library performs, and the facts that make it a sort.

use vstd::prelude::*;

verus! {

broadcast use vstd::seq_lib::group_to_multiset_ensures;

/// `x` inserted into `sorted` after every element it does not precede.
pub open spec fn insert_stable<A>(sorted: Seq<A>, x: A, lt: spec_fn(A, A) -> bool) -> Seq<A>
    decreases sorted.len(),
{
    if sorted.len() == 0 {
        seq![x]
    } else if lt(x, sorted.last()) {
        insert_stable(sorted.drop_last(), x, lt).push(sorted.last())
    } else {
        sorted.push(x)
    }
}

/// The stable sort of `s` by the strict order `lt`: equal elements keep their order.
pub open spec fn sort_stable<A>(s: Seq<A>, lt: spec_fn(A, A) -> bool) -> Seq<A>
    decreases s.len(),
{
    if s.len() == 0 {
        Seq::empty()
    } else {
        insert_stable(sort_stable(s.drop_last(), lt), s.last(), lt)
    }
}

/// No element is preceded by a later one.
pub open spec fn is_sorted_by<A>(s: Seq<A>, lt: spec_fn(A, A) -> bool) -> bool {
    forall|i: int, j: int| 0 <= i < j < s.len() ==> !lt(#[trigger] s[j], #[trigger] s[i])
}

/// `lt` is a strict weak order: irreflexive, transitive, and incomparability is transitive.
pub open spec fn strict_weak_order<A>(lt: spec_fn(A, A) -> bool) -> bool {
    &&& forall|a: A| !#[trigger] lt(a, a)
    &&& forall|a: A, b: A, c: A| #![trigger lt(a, b), lt(b, c)] lt(a, b) && lt(b, c) ==> lt(a, c)
    &&& forall|a: A, b: A, c: A| #![trigger lt(a, b), lt(b, c)] lt(a, c) ==> lt(a, b) || lt(b, c)
}

pub proof fn lemma_insert_len<A>(sorted: Seq<A>, x: A, lt: spec_fn(A, A) -> bool)
    ensures
        insert_stable(sorted, x, lt).len() == sorted.len() + 1,
    decreases sorted.len(),
{
    if sorted.len() > 0 && lt(x, sorted.last()) {
        lemma_insert_len(sorted.drop_last(), x, lt);
    }
}

pub proof fn lemma_sort_len<A>(s: Seq<A>, lt: spec_fn(A, A) -> bool)
    ensures
        sort_stable(s, lt).len() == s.len(),
    decreases s.len(),
{
    if s.len() > 0 {
        lemma_sort_len(s.drop_last(), lt);
        lemma_insert_len(sort_stable(s.drop_last(), lt), s.last(), lt);
    }
}

/// Inserting at the first position from the end whose predecessor does not follow `x`.
pub proof fn lemma_insert_split<A>(sorted: Seq<A>, x: A, lt: spec_fn(A, A) -> bool, j: int)
    requires
        0 <= j <= sorted.len(),
        forall|k: int| j <= k < sorted.len() ==> lt(x, #[trigger] sorted[k]),
        j == 0 || !lt(x, sorted[j - 1]),
    ensures
        insert_stable(sorted, x, lt) == sorted.subrange(0, j).push(x) + sorted.subrange(
            j,
            sorted.len() as int,
        ),
    decreases sorted.len(),
{
    if sorted.len() == 0 {
        assert(sorted.subrange(0, j).push(x) + sorted.subrange(j, sorted.len() as int) =~= seq![x]);
    } else if j == sorted.len() {
        assert(!lt(x, sorted.last()));
        assert(sorted.subrange(0, j) =~= sorted);
        assert(sorted.subrange(0, j).push(x) + sorted.subrange(j, sorted.len() as int)
            =~= sorted.push(x));
    } else {
        assert(lt(x, sorted[sorted.len() - 1]));
        let t = sorted.drop_last();
        assert forall|k: int| j <= k < t.len() implies lt(x, #[trigger] t[k]) by {
            assert(t[k] == sorted[k]);
        }
        if j > 0 {
            assert(t[j - 1] == sorted[j - 1]);
        }
        lemma_insert_split(t, x, lt, j);
        assert(t.subrange(0, j) =~= sorted.subrange(0, j));
        assert((t.subrange(0, j).push(x) + t.subrange(j, t.len() as int)).push(sorted.last())
            =~= sorted.subrange(0, j).push(x) + sorted.subrange(j, sorted.len() as int));
    }
}

pub proof fn lemma_insert_multiset<A>(sorted: Seq<A>, x: A, lt: spec_fn(A, A) -> bool)
    ensures
        insert_stable(sorted, x, lt).to_multiset() =~= sorted.to_multiset().insert(x),
    decreases sorted.len(),
{
    if sorted.len() > 0 && lt(x, sorted.last()) {
        let t = sorted.drop_last();
        lemma_insert_multiset(t, x, lt);
        assert(t.push(sorted.last()) =~= sorted);
    }
}

/// Sorting keeps exactly the elements it was given.
pub proof fn lemma_sort_multiset<A>(s: Seq<A>, lt: spec_fn(A, A) -> bool)
    ensures
        sort_stable(s, lt).to_multiset() =~= s.to_multiset(),
    decreases s.len(),
{
    if s.len() > 0 {
        lemma_sort_multiset(s.drop_last(), lt);
        lemma_insert_multiset(sort_stable(s.drop_last(), lt), s.last(), lt);
        assert(s.drop_last().push(s.last()) =~= s);
    }
}

proof fn lemma_insert_sorted<A>(sorted: Seq<A>, x: A, lt: spec_fn(A, A) -> bool)
    requires
        strict_weak_order(lt),
        is_sorted_by(sorted, lt),
    ensures
        is_sorted_by(insert_stable(sorted, x, lt), lt),
    decreases sorted.len(),
{
    if sorted.len() == 0 {
    } else if lt(x, sorted.last()) {
        let t = sorted.drop_last();
        let last = sorted.last();
        assert forall|i: int, j: int| 0 <= i < j < t.len() implies !lt(#[trigger] t[j], #[trigger] t[i]) by {
            assert(t[i] == sorted[i] && t[j] == sorted[j]);
        }
        lemma_insert_sorted(t, x, lt);
        lemma_insert_multiset(t, x, lt);
        let u = insert_stable(t, x, lt);
        lemma_insert_len(t, x, lt);
        assert forall|i: int| 0 <= i < u.len() implies !lt(last, #[trigger] u[i]) by {
            let e = u[i];
            assert(u.to_multiset().count(e) > 0);
            if e != x {
                assert(t.to_multiset().count(e) > 0);
                assert(t.contains(e));
                let k = choose|k: int| 0 <= k < t.len() && t[k] == e;
                assert(sorted[k] == e);
                assert(sorted[sorted.len() - 1] == last);
            } else {
                if lt(last, x) {
                    assert(lt(x, x));
                }
            }
        }
        let r = u.push(last);
        assert forall|i: int, j: int| 0 <= i < j < r.len() implies !lt(#[trigger] r[j], #[trigger] r[i]) by {
            if j == r.len() - 1 {
                assert(r[j] == last);
                assert(r[i] == u[i]);
            } else {
                assert(r[i] == u[i] && r[j] == u[j]);
            }
        }
    } else {
        let r = sorted.push(x);
        let last = sorted.last();
        assert forall|i: int, j: int| 0 <= i < j < r.len() implies !lt(#[trigger] r[j], #[trigger] r[i]) by {
            if j == r.len() - 1 {
                assert(r[j] == x);
                assert(r[i] == sorted[i]);
                if i < sorted.len() - 1 {
                    assert(!lt(sorted[sorted.len() - 1], sorted[i]));
                    if lt(x, sorted[i]) {
                        assert(lt(x, last) || lt(last, sorted[i]));
                    }
                }
            } else {
                assert(r[i] == sorted[i] && r[j] == sorted[j]);
            }
        }
    }
}

/// Under a strict weak order, the stable sort is sorted.
pub proof fn lemma_sort_sorted<A>(s: Seq<A>, lt: spec_fn(A, A) -> bool)
    requires
        strict_weak_order(lt),
    ensures
        is_sorted_by(sort_stable(s, lt), lt),
    decreases s.len(),
{
    if s.len() > 0 {
        lemma_sort_sorted(s.drop_last(), lt);
        lemma_insert_sorted(sort_stable(s.drop_last(), lt), s.last(), lt);
    }
}

} // verus!
