//! Stable sorting of values that are ordered by an integer rank.

use vstd::prelude::*;

verus! {

/// A value with an integer rank to sort by.
pub trait Ranked {
    /// The number by which values of this type are ordered.
    spec fn rank(&self) -> int;

    /// Tells whether `self` ranks no higher than `other`.
    fn ranks_up_to(&self, other: &Self) -> (b: bool)
        ensures
            b == (self.rank() <= other.rank()),
    ;
}

/// `sorted` with `x` put in before the items at its end that rank higher
/// than `x`.
pub open spec fn insert_ranked<T: Ranked>(sorted: Seq<T>, x: T) -> Seq<T>
    decreases sorted.len(),
{
    if sorted.len() == 0 {
        seq![x]
    } else if sorted.last().rank() <= x.rank() {
        sorted.push(x)
    } else {
        insert_ranked(sorted.drop_last(), x).push(sorted.last())
    }
}

/// The items of `s` in ascending order of rank, items of equal rank in the
/// order in which they stand in `s`.
pub open spec fn sort_by_rank<T: Ranked>(s: Seq<T>) -> Seq<T>
    decreases s.len(),
{
    if s.len() == 0 {
        Seq::empty()
    } else {
        insert_ranked(sort_by_rank(s.drop_last()), s.last())
    }
}

/// No item of `s` ranks higher than an item behind it.
pub open spec fn ascending<T: Ranked>(s: Seq<T>) -> bool {
    forall|i: int, j: int| 0 <= i <= j < s.len() ==> s[i].rank() <= s[j].rank()
}

/// Where every item from index `j` on ranks higher than `x`, and the item
/// before `j` does not, `x` is put in at `j`.
pub proof fn lemma_insert_ranked_at<T: Ranked>(t: Seq<T>, x: T, j: int)
    requires
        0 <= j <= t.len(),
        forall|m: int| j <= m < t.len() ==> t[m].rank() > x.rank(),
        j > 0 ==> t[j - 1].rank() <= x.rank(),
    ensures
        insert_ranked(t, x) == t.take(j).push(x) + t.skip(j),
    decreases t.len() - j,
{
    if j == t.len() {
        assert(t.take(j) =~= t);
        assert(t.take(j).push(x) + t.skip(j) =~= t.push(x));
    } else {
        let d = t.drop_last();
        lemma_insert_ranked_at(d, x, j);
        assert(d.take(j) =~= t.take(j));
        assert((d.take(j).push(x) + d.skip(j)).push(t.last()) =~= t.take(j).push(x) + t.skip(j));
    }
}

/// The index at which `insert_ranked` puts `x` into `t`.
pub open spec fn insert_index<T: Ranked>(t: Seq<T>, x: T) -> int
    decreases t.len(),
{
    if t.len() == 0 {
        0
    } else if t.last().rank() <= x.rank() {
        t.len() as int
    } else {
        insert_index(t.drop_last(), x)
    }
}

/// `insert_ranked` puts `x` in at `insert_index`: behind an item that ranks
/// no higher, where there is one before it, and before items that all rank
/// higher.
pub proof fn lemma_insert_ranked_places<T: Ranked>(t: Seq<T>, x: T)
    ensures
        0 <= insert_index(t, x) <= t.len(),
        forall|m: int| insert_index(t, x) <= m < t.len() ==> t[m].rank() > x.rank(),
        insert_index(t, x) > 0 ==> t[insert_index(t, x) - 1].rank() <= x.rank(),
        insert_ranked(t, x) == t.insert(insert_index(t, x), x),
    decreases t.len(),
{
    let j = insert_index(t, x);
    if t.len() > 0 && t.last().rank() > x.rank() {
        let front = t.drop_last();
        lemma_insert_ranked_places(front, x);
        assert forall|m: int| j <= m < t.len() implies t[m].rank() > x.rank() by {
            if m < front.len() {
                assert(front[m].rank() > x.rank());
            }
        }
        if j > 0 {
            assert(front[j - 1].rank() <= x.rank());
        }
    }
    lemma_insert_ranked_at(t, x, j);
    assert(t.take(j).push(x) + t.skip(j) =~= t.insert(j, x));
}

/// Putting an item into an ascending sequence leaves it ascending.
pub proof fn lemma_insert_ranked_ascending<T: Ranked>(t: Seq<T>, x: T)
    requires
        ascending(t),
    ensures
        ascending(insert_ranked(t, x)),
{
    lemma_insert_ranked_places(t, x);
    let j = insert_index(t, x);
    let r = t.insert(j, x);
    assert forall|a: int, b: int| 0 <= a <= b < r.len() implies r[a].rank() <= r[b].rank() by {
        if a < j && b == j {
            assert(t[a].rank() <= t[j - 1].rank());
        } else if a < j && b > j {
            assert(t[a].rank() <= t[b - 1].rank());
        } else if a > j {
            assert(t[a - 1].rank() <= t[b - 1].rank());
        } else if a < j && b < j {
            assert(t[a].rank() <= t[b].rank());
        }
    }
}

/// The sorted sequence is ascending.
pub proof fn lemma_sort_ascending<T: Ranked>(s: Seq<T>)
    ensures
        ascending(sort_by_rank(s)),
    decreases s.len(),
{
    if s.len() > 0 {
        lemma_sort_ascending(s.drop_last());
        lemma_insert_ranked_ascending(sort_by_rank(s.drop_last()), s.last());
    }
}

/// The sorted sequence holds the items of the given one, each as often.
pub proof fn lemma_sort_permutes<T: Ranked>(s: Seq<T>)
    ensures
        sort_by_rank(s).len() == s.len(),
        sort_by_rank(s).to_multiset() == s.to_multiset(),
    decreases s.len(),
{
    broadcast use vstd::seq_lib::group_to_multiset_ensures;

    if s.len() > 0 {
        let front = s.drop_last();
        lemma_sort_permutes(front);
        lemma_insert_ranked_places(sort_by_rank(front), s.last());
        assert(front.push(s.last()) =~= s);
    }
}

/// An ascending sequence is its own sorted form.
pub proof fn lemma_sort_keeps_ascending<T: Ranked>(s: Seq<T>)
    requires
        ascending(s),
    ensures
        sort_by_rank(s) == s,
    decreases s.len(),
{
    if s.len() > 0 {
        let front = s.drop_last();
        assert(ascending(front)) by {
            assert forall|i: int, j: int| 0 <= i <= j < front.len() implies front[i].rank()
                <= front[j].rank() by {
                assert(s[i].rank() <= s[j].rank());
            }
        }
        lemma_sort_keeps_ascending(front);
        if front.len() > 0 {
            assert(front.last().rank() <= s.last().rank()) by {
                assert(s[s.len() - 2].rank() <= s[s.len() - 1].rank());
            }
        }
        assert(front.push(s.last()) =~= s);
    }
}

/// To put an item into an ascending sequence and then pick by `pred` is to
/// pick first and then put the item in, where `pred` picks it.
pub proof fn lemma_insert_ranked_filter<T: Ranked>(t: Seq<T>, x: T, pred: spec_fn(T) -> bool)
    requires
        ascending(t),
    ensures
        insert_ranked(t, x).filter(pred) == if pred(x) {
            insert_ranked(t.filter(pred), x)
        } else {
            t.filter(pred)
        },
    decreases t.len(),
{
    reveal(Seq::filter);
    if t.len() == 0 {
        assert(seq![x] =~= t.push(x));
        t.lemma_filter_push(x, pred);
        assert(t.filter(pred) =~= Seq::<T>::empty());
    } else if t.last().rank() <= x.rank() {
        t.lemma_filter_push(x, pred);
        if pred(x) {
            let picked = t.filter(pred);
            if picked.len() > 0 {
                assert(picked.contains(picked.last())) by {
                    assert(picked[picked.len() - 1] == picked.last());
                }
                t.lemma_filter_contains_rev(pred, picked.last());
                let i = choose|i: int| 0 <= i < t.len() && t[i] == picked.last();
                assert(t[i].rank() <= t[t.len() - 1].rank());
            }
        }
    } else {
        let front = t.drop_last();
        assert(ascending(front)) by {
            assert forall|i: int, j: int| 0 <= i <= j < front.len() implies front[i].rank()
                <= front[j].rank() by {
                assert(t[i].rank() <= t[j].rank());
            }
        }
        lemma_insert_ranked_filter(front, x, pred);
        insert_ranked(front, x).lemma_filter_push(t.last(), pred);
        front.lemma_filter_push(t.last(), pred);
        assert(front.push(t.last()) =~= t);
        if pred(x) && pred(t.last()) {
            assert(front.filter(pred).push(t.last()).drop_last() =~= front.filter(pred));
        }
    }
}

/// To sort and then pick by `pred` is to pick first and then sort.
pub proof fn lemma_sort_commutes_with_filter<T: Ranked>(s: Seq<T>, pred: spec_fn(T) -> bool)
    ensures
        sort_by_rank(s).filter(pred) == sort_by_rank(s.filter(pred)),
    decreases s.len(),
{
    reveal(Seq::filter);
    if s.len() > 0 {
        let front = s.drop_last();
        lemma_sort_commutes_with_filter(front, pred);
        lemma_sort_ascending(front);
        lemma_insert_ranked_filter(sort_by_rank(front), s.last(), pred);
        if pred(s.last()) {
            assert(front.filter(pred).push(s.last()).drop_last() =~= front.filter(pred));
        }
    }
}

/// Sorting is stable: the items of one rank stand in the sorted sequence in
/// the order in which they stand in the given one.
pub proof fn lemma_sort_stable<T: Ranked>(s: Seq<T>, rank: int)
    ensures
        sort_by_rank(s).filter(|x: T| x.rank() == rank) == s.filter(|x: T| x.rank() == rank),
{
    let of_rank = |x: T| x.rank() == rank;
    lemma_sort_commutes_with_filter(s, of_rank);
    let picked = s.filter(of_rank);
    assert(ascending(picked)) by {
        assert forall|i: int, j: int| 0 <= i <= j < picked.len() implies picked[i].rank()
            <= picked[j].rank() by {
            s.lemma_filter_pred(of_rank, i);
            s.lemma_filter_pred(of_rank, j);
        }
    }
    lemma_sort_keeps_ascending(picked);
}

/// Sorts the vector by rank, ascending, and keeps items of equal rank in
/// their order.
pub fn sort_stable<T: Ranked>(v: &mut Vec<T>)
    ensures
        final(v)@ == sort_by_rank(old(v)@),
{
    let ghost orig = v@;
    let n = v.len();
    let mut k: usize = 0;
    while k < n
        invariant
            v.len() == n,
            orig.len() == n,
            k <= n,
            v@.take(k as int) == sort_by_rank(orig.take(k as int)),
            v@.skip(k as int) == orig.skip(k as int),
        decreases n - k,
    {
        let ghost before = v@;
        let x = v.remove(k);
        assert(x == orig[k as int]) by {
            assert(before.skip(k as int)[0] == orig.skip(k as int)[0]);
        }
        let mut j: usize = k;
        while j > 0 && !v[j - 1].ranks_up_to(&x)
            invariant
                j <= k,
                k < n,
                v.len() == n - 1,
                forall|m: int| j <= m < k ==> v@[m].rank() > x.rank(),
            decreases j,
        {
            j = j - 1;
        }
        let ghost head = v@.take(k as int);
        let ghost tail = v@.skip(k as int);
        v.insert(j, x);
        proof {
            assert(head =~= before.take(k as int));
            assert(tail =~= orig.skip(k + 1)) by {
                assert forall|m: int| 0 <= m < tail.len() implies tail[m] == orig.skip(k + 1)[m] by {
                    assert(before.skip(k as int)[m + 1] == orig.skip(k as int)[m + 1]);
                }
            }
            lemma_insert_ranked_at(head, x, j as int);
            assert(orig.take(k + 1).drop_last() =~= orig.take(k as int));
            assert(v@.take(k + 1) =~= head.take(j as int).push(x) + head.skip(j as int));
            assert(v@.skip(k + 1) =~= tail);
        }
        k = k + 1;
    }
    assert(v@.take(n as int) =~= v@);
    assert(orig.take(n as int) =~= orig);
}

} // verus!
