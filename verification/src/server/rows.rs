//! Facts about sequences of rows that the tables' proofs share.

use vstd::prelude::*;

verus! {

/// `key` stands at `i` in `keys` and nowhere before it.
pub open spec fn first_at<K>(keys: Seq<K>, key: K, i: int) -> bool {
    &&& 0 <= i < keys.len()
    &&& keys[i] == key
    &&& forall|j: int| 0 <= j < i ==> keys[j] != key
}

/// `found` is where `key` first stands in `keys`, or nothing where it stands
/// nowhere.
pub open spec fn is_position<K>(keys: Seq<K>, key: K, found: Option<usize>) -> bool {
    match found {
        Some(i) => i < keys.len() && keys.index_of_first(key) == Some(i as int),
        None => !keys.contains(key) && keys.index_of_first(key) is None,
    }
}

/// A place that holds `key` with no earlier one is the first place that
/// holds it.
pub proof fn lemma_first_index<K>(keys: Seq<K>, key: K, i: int)
    requires
        first_at(keys, key, i),
    ensures
        keys.index_of_first(key) == Some(i),
{
    keys.index_of_first_ensures(key);
    assert(keys.contains(key));
}

/// Where no place holds `key`, there is no first one.
pub proof fn lemma_no_index<K>(keys: Seq<K>, key: K)
    requires
        forall|j: int| 0 <= j < keys.len() ==> keys[j] != key,
    ensures
        keys.index_of_first(key) is None,
        !keys.contains(key),
{
    keys.index_of_first_ensures(key);
}

/// What `index_of_first` finds is a first place, and it finds one exactly
/// when the key occurs.
pub proof fn lemma_index_of_first<K>(keys: Seq<K>, key: K)
    ensures
        keys.index_of_first(key) matches Some(i) ==> first_at(keys, key, i),
        keys.index_of_first(key) is Some <==> keys.contains(key),
{
    keys.index_of_first_ensures(key);
}

/// A filter keeps nothing exactly when no row passes it.
pub proof fn lemma_filter_empty<A>(rows: Seq<A>, pred: spec_fn(A) -> bool)
    ensures
        rows.filter(pred).len() == 0 <==> forall|i: int|
            0 <= i < rows.len() ==> !pred(#[trigger] rows[i]),
{
    broadcast use {Seq::lemma_filter_pred, Seq::lemma_filter_contains};

    let kept = rows.filter(pred);
    if kept.len() == 0 {
        assert forall|i: int| 0 <= i < rows.len() implies !pred(#[trigger] rows[i]) by {
            if pred(rows[i]) {
                assert(kept.contains(rows[i]));
            }
        }
    } else {
        lemma_filter_source(rows, pred, 0);
    }
}

/// Every row that a filter keeps is a row of the sequence it was taken from.
pub proof fn lemma_filter_source<A>(rows: Seq<A>, pred: spec_fn(A) -> bool, k: int)
    requires
        0 <= k < rows.filter(pred).len(),
    ensures
        pred(rows.filter(pred)[k]),
        exists|i: int| 0 <= i < rows.len() && #[trigger] rows[i] == rows.filter(pred)[k],
    decreases rows.len(),
{
    reveal(Seq::filter);
    broadcast use Seq::lemma_filter_pred;

    if rows.len() > 0 {
        let front = rows.drop_last();
        if k < front.filter(pred).len() {
            lemma_filter_source(front, pred, k);
            let i = choose|i: int|
                0 <= i < front.len() && #[trigger] front[i] == front.filter(pred)[k];
            assert(rows[i] == rows.filter(pred)[k]);
        } else {
            assert(rows[rows.len() - 1] == rows.filter(pred)[k]);
        }
    }
}

/// Filtering the first `i + 1` rows is filtering the first `i` and then
/// deciding on row `i`.
pub proof fn lemma_filter_step<A>(rows: Seq<A>, pred: spec_fn(A) -> bool, i: int)
    requires
        0 <= i < rows.len(),
    ensures
        rows.take(i + 1).filter(pred) == if pred(rows[i]) {
            rows.take(i).filter(pred).push(rows[i])
        } else {
            rows.take(i).filter(pred)
        },
{
    broadcast use Seq::lemma_filter_push;

    assert(rows.take(i + 1) =~= rows.take(i).push(rows[i]));
}

/// Taking one key out of keys that are all different leaves them different,
/// and takes out no other key.
pub proof fn lemma_remove_key<K>(keys: Seq<K>, i: int)
    requires
        keys.no_duplicates(),
        0 <= i < keys.len(),
    ensures
        keys.remove(i).no_duplicates(),
        !keys.remove(i).contains(keys[i]),
        forall|k: K| k != keys[i] && keys.contains(k) ==> #[trigger] keys.remove(i).contains(k),
{
    let rest = keys.remove(i);
    assert forall|a: int| 0 <= a < rest.len() implies rest[a] == keys[if a < i {
        a
    } else {
        a + 1
    }] by {}
    assert forall|k: K| k != keys[i] && keys.contains(k) implies #[trigger] rest.contains(k) by {
        let a = choose|a: int| 0 <= a < keys.len() && keys[a] == k;
        if a < i {
            assert(rest[a] == k);
        } else {
            assert(rest[a - 1] == k);
        }
    }
}

} // verus!
