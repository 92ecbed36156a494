//! The filtered index: which records of the collection match the query, in
//! collection order.
use crate::customer::{Customer, CustomerView};
use crate::text::{contains_seq, lower_of, lowercase};
use vstd::prelude::*;

verus! {

/// The positions of the records of `items` that match `folded_query`, in
/// increasing order.
pub open spec fn filter_spec(items: Seq<CustomerView>, folded_query: Seq<char>) -> Seq<usize>
    decreases items.len(),
{
    if items.len() == 0 {
        Seq::empty()
    } else {
        let prev = filter_spec(items.drop_last(), folded_query);
        if items.last().matches(folded_query) {
            prev.push((items.len() - 1) as usize)
        } else {
            prev
        }
    }
}

/// The records of a collection as mathematical values.
pub open spec fn customers_view(items: Seq<Customer>) -> Seq<CustomerView> {
    items.map_values(|c: Customer| c@)
}

/// Every index is below `n`, and each is greater than the one before it.
pub open spec fn strictly_increasing_below(f: Seq<usize>, n: nat) -> bool {
    &&& forall|k: int| 0 <= k < f.len() ==> #[trigger] f[k] < n
    &&& forall|j: int, k: int| 0 <= j < k < f.len() ==> f[j] < f[k]
}

/// All positions `0..n`, in order.
pub open spec fn all_indices(n: nat) -> Seq<usize> {
    Seq::new(n, |i: int| i as usize)
}

/// The filtered index of `items` under `query`: the positions of the records
/// that have a field holding the query, ignoring case, in collection order.
/// The empty query keeps every record.
pub fn filter_indices(items: &Vec<Customer>, query: &str) -> (r: Vec<usize>)
    ensures
        r@ == filter_spec(customers_view(items@), lower_of(query@)),
        strictly_increasing_below(r@, items@.len()),
        query@.len() == 0 ==> r@ == all_indices(items@.len()),
{
    let folded = lowercase(query);
    let mut r: Vec<usize> = Vec::new();
    let mut i: usize = 0;
    while i < items.len()
        invariant
            folded@ == lower_of(query@),
            i <= items@.len(),
            r@ == filter_spec(customers_view(items@).subrange(0, i as int), folded@),
        decreases items@.len() - i,
    {
        assert(customers_view(items@).subrange(0, i + 1).drop_last() =~= customers_view(
            items@,
        ).subrange(0, i as int));
        if items[i].matches_folded(folded.as_str()) {
            r.push(i);
        }
        i = i + 1;
    }
    assert(customers_view(items@).subrange(0, i as int) =~= customers_view(items@));
    proof {
        lemma_filter_ordered(customers_view(items@), folded@);
        if query@.len() == 0 {
            assert(folded@ =~= Seq::<char>::empty());
            lemma_empty_query_keeps_all(customers_view(items@), folded@);
        }
    }
    r
}

/// Every text holds the empty query.
proof fn lemma_contains_empty(t: Seq<char>, q: Seq<char>)
    requires
        q.len() == 0,
    ensures
        contains_seq(t, q),
{
    let i: int = 0;
    assert(t.subrange(i, i + q.len()) =~= q);
    assert(0 <= i && i + q.len() <= t.len() && t.subrange(i, i + q.len()) == q);
}

/// The empty query keeps every record, in order.
pub proof fn lemma_empty_query_keeps_all(items: Seq<CustomerView>, folded_query: Seq<char>)
    requires
        folded_query.len() == 0,
        items.len() <= usize::MAX,
    ensures
        filter_spec(items, folded_query) == all_indices(items.len()),
    decreases items.len(),
{
    if items.len() > 0 {
        lemma_contains_empty(lower_of(items.last().name), folded_query);
        lemma_empty_query_keeps_all(items.drop_last(), folded_query);
        assert(filter_spec(items, folded_query) =~= all_indices(items.len()));
    }
}

/// Filter correctness: position `i` is in the filtered index exactly when
/// the record there matches the query.
pub proof fn lemma_filter_correct(items: Seq<CustomerView>, folded_query: Seq<char>, i: int)
    requires
        0 <= i < items.len(),
        items.len() <= usize::MAX,
    ensures
        filter_spec(items, folded_query).contains(i as usize) <==> items[i].matches(folded_query),
    decreases items.len(),
{
    lemma_filter_ordered(items, folded_query);
    let f = filter_spec(items, folded_query);
    let prev = filter_spec(items.drop_last(), folded_query);
    lemma_filter_ordered(items.drop_last(), folded_query);
    if i < items.len() - 1 {
        lemma_filter_correct(items.drop_last(), folded_query, i);
        if prev.contains(i as usize) {
            let k = choose|k: int| 0 <= k < prev.len() && prev[k] == i as usize;
            assert(f[k] == i as usize);
        }
        if f.contains(i as usize) {
            let k = choose|k: int| 0 <= k < f.len() && f[k] == i as usize;
            assert(k < prev.len());
            assert(prev[k] == i as usize);
        }
    } else {
        if items.last().matches(folded_query) {
            assert(f[f.len() - 1] == i as usize);
        }
        if f.contains(i as usize) {
            let k = choose|k: int| 0 <= k < f.len() && f[k] == i as usize;
            assert(k == f.len() - 1);
        }
    }
}

/// Filter stability: the filtered index is strictly increasing and every
/// entry is a position of the collection, so it lists the matching records
/// in collection order.
pub proof fn lemma_filter_ordered(items: Seq<CustomerView>, folded_query: Seq<char>)
    requires
        items.len() <= usize::MAX,
    ensures
        strictly_increasing_below(filter_spec(items, folded_query), items.len()),
    decreases items.len(),
{
    if items.len() > 0 {
        lemma_filter_ordered(items.drop_last(), folded_query);
    }
}

} // verus!
