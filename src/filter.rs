//! Case-insensitive substring filtering of a list of names.
use vstd::prelude::*;
use crate::text::{contains, is_substring, lower_of, lowercase, views};

verus! {

/// An item is kept when its lowercase form contains the query's lowercase form.
pub open spec fn matches_query(item: Seq<char>, query: Seq<char>) -> bool {
    is_substring(lower_of(query), lower_of(item))
}

/// The items that match `query`, in the order of `items`.
pub open spec fn filtered(items: Seq<Seq<char>>, query: Seq<char>) -> Seq<Seq<char>>
    decreases items.len(),
{
    if items.len() == 0 {
        Seq::empty()
    } else {
        let rest = filtered(items.drop_last(), query);
        if matches_query(items.last(), query) {
            rest.push(items.last())
        } else {
            rest
        }
    }
}

/// Whether an already lowercased item contains an already lowercased query.
pub fn contains_folded(item_folded: &str, query_folded: &str) -> (r: bool)
    ensures
        r == is_substring(query_folded@, item_folded@),
{
    contains(item_folded, query_folded)
}

/// Whether `item` matches `query`, ignoring case.
pub fn item_matches(item: &str, query: &str) -> (r: bool)
    ensures
        r == matches_query(item@, query@),
{
    let item_folded = lowercase(item);
    let query_folded = lowercase(query);
    contains_folded(item_folded.as_str(), query_folded.as_str())
}

/// The filtered view of `items` under `query`: every item whose lowercase
/// form contains the lowercase query, in the order of `items`.
pub fn filtered_view(items: &Vec<String>, query: &str) -> (r: Vec<String>)
    ensures
        views(r@) == filtered(views(items@), query@),
{
    let mut out: Vec<String> = Vec::new();
    let mut i: usize = 0;
    while i < items.len()
        invariant
            i <= items@.len(),
            views(out@) == filtered(views(items@).take(i as int), query@),
        decreases items@.len() - i,
    {
        let item = &items[i];
        assert(views(items@).take(i as int + 1).drop_last() == views(items@).take(i as int));
        if item_matches(item.as_str(), query) {
            let ghost before = out@;
            out.push(item.clone());
            assert(views(out@) == views(before).push(item@));
        }
        i += 1;
    }
    assert(views(items@).take(items@.len() as int) == views(items@));
    out
}

/// `idx` lists, for each item of `sub`, the position in `s` it was taken
/// from, and these positions strictly increase.
pub open spec fn picks<A>(idx: Seq<int>, sub: Seq<A>, s: Seq<A>) -> bool {
    &&& idx.len() == sub.len()
    &&& forall|i: int, j: int| 0 <= i < j < idx.len() ==> #[trigger] idx[i] < #[trigger] idx[j]
    &&& forall|i: int| 0 <= i < idx.len() ==> 0 <= #[trigger] idx[i] < s.len() && sub[i] == s[idx[i]]
}

/// `sub` is `s` with some items left out and the others kept in order.
pub open spec fn is_subsequence<A>(sub: Seq<A>, s: Seq<A>) -> bool {
    exists|idx: Seq<int>| picks(idx, sub, s)
}

proof fn filtered_positions(items: Seq<Seq<char>>, query: Seq<char>) -> (idx: Seq<int>)
    ensures
        picks(idx, filtered(items, query), items),
    decreases items.len(),
{
    if items.len() == 0 {
        Seq::empty()
    } else {
        let rest = filtered_positions(items.drop_last(), query);
        if matches_query(items.last(), query) {
            rest.push(items.len() - 1)
        } else {
            rest
        }
    }
}

/// Filtering keeps the relative order of the items: the filtered view is a
/// subsequence of the unfiltered list.
pub proof fn lemma_filtered_is_subsequence(items: Seq<Seq<char>>, query: Seq<char>)
    ensures
        is_subsequence(filtered(items, query), items),
{
    let idx = filtered_positions(items, query);
    assert(picks(idx, filtered(items, query), items));
}

/// Every item of the filtered view matches the query.
pub proof fn lemma_filtered_all_match(items: Seq<Seq<char>>, query: Seq<char>)
    ensures
        forall|i: int|
            0 <= i < filtered(items, query).len() ==> matches_query(
                #[trigger] filtered(items, query)[i],
                query,
            ),
    decreases items.len(),
{
    if items.len() > 0 {
        let rest = filtered(items.drop_last(), query);
        lemma_filtered_all_match(items.drop_last(), query);
        assert forall|i: int| 0 <= i < filtered(items, query).len() implies matches_query(
            #[trigger] filtered(items, query)[i],
            query,
        ) by {
            if i < rest.len() {
                assert(filtered(items, query)[i] == rest[i]);
            }
        }
    }
}

proof fn lemma_filtered_keeps_matching(items: Seq<Seq<char>>, query: Seq<char>)
    requires
        forall|i: int| 0 <= i < items.len() ==> matches_query(#[trigger] items[i], query),
    ensures
        filtered(items, query) == items,
    decreases items.len(),
{
    if items.len() > 0 {
        lemma_filtered_keeps_matching(items.drop_last(), query);
        assert(items.drop_last().push(items.last()) == items);
    }
}

/// Filtering is idempotent: filtering the filtered view again by the same
/// query gives the same view back.
pub proof fn lemma_filter_idempotent(items: Seq<Seq<char>>, query: Seq<char>)
    ensures
        filtered(filtered(items, query), query) == filtered(items, query),
{
    lemma_filtered_all_match(items, query);
    lemma_filtered_keeps_matching(filtered(items, query), query);
}

} // verus!
