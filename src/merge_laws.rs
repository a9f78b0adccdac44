use vstd::prelude::*;
use vstd::seq_lib::lemma_multiset_commutative;

use crate::record_handling::{count, merged, KeyView};

verus! {

/// The aggregate of a sequence of keys: each key that occurs, with the number of its occurrences.
pub open spec fn tally(keys: Seq<KeyView>) -> Map<KeyView, int> {
    Map::new(|k: KeyView| keys.contains(k), |k: KeyView| keys.to_multiset().count(k) as int)
}

/// The merge of the aggregates of several workers, each worker's keys tallied on its own.
pub open spec fn merge_all(parts: Seq<Seq<KeyView>>) -> Map<KeyView, int>
    decreases parts.len(),
{
    if parts.len() == 0 {
        Map::empty()
    } else {
        merged(merge_all(parts.drop_last()), tally(parts.last()))
    }
}

/// Merging an aggregate into an empty one yields the original, and so does merging an empty
/// one into it.
pub proof fn lemma_merge_identity(a: Map<KeyView, int>)
    ensures
        merged(Map::empty(), a) == a,
        merged(a, Map::empty()) == a,
{
    assert(merged(Map::empty(), a) =~= a);
    assert(merged(a, Map::empty()) =~= a);
}

/// Merge is associative.
pub proof fn lemma_merge_associative(a: Map<KeyView, int>, b: Map<KeyView, int>, c: Map<KeyView, int>)
    ensures
        merged(merged(a, b), c) == merged(a, merged(b, c)),
{
    assert(merged(merged(a, b), c) =~= merged(a, merged(b, c)));
}

/// Merge is commutative: the keys and counts do not depend on which side is which.
pub proof fn lemma_merge_commutative(a: Map<KeyView, int>, b: Map<KeyView, int>)
    ensures
        merged(a, b) == merged(b, a),
{
    assert(merged(a, b) =~= merged(b, a));
}

/// Tallying two runs of keys one after the other is merging their two tallies.
pub proof fn lemma_tally_concat(a: Seq<KeyView>, b: Seq<KeyView>)
    ensures
        tally(a + b) == merged(tally(a), tally(b)),
{
    broadcast use vstd::seq_lib::group_to_multiset_ensures;

    lemma_multiset_commutative(a, b);
    assert forall|k: KeyView| (a + b).contains(k) <==> (a.contains(k) || b.contains(k)) by {
        if a.contains(k) {
            let i = choose|i: int| 0 <= i < a.len() && a[i] == k;
            assert((a + b)[i] == k);
        }
        if b.contains(k) {
            let i = choose|i: int| 0 <= i < b.len() && b[i] == k;
            assert((a + b)[a.len() + i] == k);
        }
        if (a + b).contains(k) {
            let i = choose|i: int| 0 <= i < (a + b).len() && (a + b)[i] == k;
            if i < a.len() {
                assert(a[i] == k);
            } else {
                assert(b[i - a.len()] == k);
            }
        }
    }
    assert forall|k: KeyView| #[trigger] tally(a + b).contains_key(k) implies tally(a + b)[k]
        == count(tally(a), k) + count(tally(b), k) by {
        assert((a + b).to_multiset().count(k) == a.to_multiset().count(k) + b.to_multiset().count(
            k,
        ));
    }
    assert(tally(a + b) =~= merged(tally(a), tally(b)));
}

/// The tally does not depend on the order of the keys.
pub proof fn lemma_tally_reorder(a: Seq<KeyView>, b: Seq<KeyView>)
    requires
        a.to_multiset() == b.to_multiset(),
    ensures
        tally(a) == tally(b),
{
    broadcast use vstd::seq_lib::group_to_multiset_ensures;

    assert forall|k: KeyView| a.contains(k) <==> b.contains(k) by {
        assert(a.contains(k) <==> a.to_multiset().count(k) > 0);
        assert(b.contains(k) <==> b.to_multiset().count(k) > 0);
    }
    assert(tally(a) =~= tally(b));
}

proof fn lemma_merge_all_flatten(parts: Seq<Seq<KeyView>>)
    ensures
        merge_all(parts) == tally(parts.flatten()),
    decreases parts.len(),
{
    broadcast use vstd::seq_lib::group_to_multiset_ensures;

    if parts.len() == 0 {
        assert(tally(parts.flatten()) =~= Map::<KeyView, int>::empty());
    } else {
        let init = parts.drop_last();
        lemma_merge_all_flatten(init);
        assert(init.push(parts.last()) =~= parts);
        init.lemma_flatten_push(parts.last());
        lemma_tally_concat(init.flatten(), parts.last());
    }
}

/// However the keys are shared out among workers, and in whatever order each worker meets its
/// own, merging the workers' aggregates gives the tally of all keys: the final aggregate depends
/// neither on the order of dispatch nor on the number of workers.
pub proof fn lemma_dispatch_independent(parts: Seq<Seq<KeyView>>, all: Seq<KeyView>)
    requires
        parts.flatten().to_multiset() == all.to_multiset(),
    ensures
        merge_all(parts) == tally(all),
{
    lemma_merge_all_flatten(parts);
    lemma_tally_reorder(parts.flatten(), all);
}

/// Tallying one more key is merging in the tally of that key alone.
pub proof fn lemma_tally_push(s: Seq<KeyView>, k: KeyView)
    ensures
        tally(s.push(k)) == merged(tally(s), tally(seq![k])),
{
    assert(s + seq![k] =~= s.push(k));
    lemma_tally_concat(s, seq![k]);
}

/// Counting one more occurrence of `k` is merging in the tally of `k` alone.
pub proof fn lemma_count_one_more(m: Map<KeyView, int>, k: KeyView)
    ensures
        m.insert(k, count(m, k) + 1) == merged(m, tally(seq![k])),
{
    broadcast use vstd::seq_lib::group_to_multiset_ensures;

    let one = seq![k];
    assert(Seq::<KeyView>::empty().push(k) =~= one);
    assert(one.to_multiset().count(k) == 1);
    assert forall|j: KeyView| one.contains(j) <==> j == k by {
        if one.contains(j) {
            assert(one[0] == j);
        }
        if j == k {
            assert(one[0] == j);
        }
    }
    assert(m.insert(k, count(m, k) + 1) =~= merged(m, tally(one)));
}

} // verus!
