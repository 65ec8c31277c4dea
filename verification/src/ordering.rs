//! Ordering a row by a key, largest first, where items of one key keep the
//! order in which they stood.

use vstd::prelude::*;

verus! {

/// An ordered row with one more item: it goes behind every item whose key is
/// as large or larger.
pub open spec fn insert_by_key<A>(sorted: Seq<A>, item: A, key: spec_fn(A) -> int) -> Seq<A>
    decreases sorted.len(),
{
    if sorted.len() == 0 {
        seq![item]
    } else if key(sorted.last()) >= key(item) {
        sorted.push(item)
    } else {
        insert_by_key(sorted.drop_last(), item, key).push(sorted.last())
    }
}

/// The items ordered by key, largest first.
pub open spec fn descending_by<A>(items: Seq<A>, key: spec_fn(A) -> int) -> Seq<A>
    decreases items.len(),
{
    if items.len() == 0 {
        Seq::empty()
    } else {
        insert_by_key(descending_by(items.drop_last(), key), items.last(), key)
    }
}

/// No item stands before one with a larger key.
pub open spec fn is_descending<A>(items: Seq<A>, key: spec_fn(A) -> int) -> bool {
    forall|i: int, j: int| 0 <= i < j < items.len() ==> key(items[i]) >= key(items[j])
}

/// Where `insert_by_key` puts an item: at the position behind which every
/// key is smaller, and before which the neighbour's is not.
pub proof fn lemma_insert_position<A>(
    sorted: Seq<A>,
    item: A,
    key: spec_fn(A) -> int,
    position: int,
)
    requires
        0 <= position <= sorted.len(),
        forall|k: int| position <= k < sorted.len() ==> key(#[trigger] sorted[k]) < key(item),
        position > 0 ==> key(sorted[position - 1]) >= key(item),
    ensures
        insert_by_key(sorted, item, key) == sorted.insert(position, item),
    decreases sorted.len(),
{
    if sorted.len() > 0 && key(sorted.last()) < key(item) {
        lemma_insert_position(sorted.drop_last(), item, key, position);
    }
}

/// `insert_by_key` keeps a row ordered, and adds the item and nothing else.
pub proof fn lemma_insert_keeps_order<A>(sorted: Seq<A>, item: A, key: spec_fn(A) -> int)
    requires
        is_descending(sorted, key),
    ensures
        is_descending(insert_by_key(sorted, item, key), key),
        insert_by_key(sorted, item, key).to_multiset() == sorted.to_multiset().insert(item),
        insert_by_key(sorted, item, key).len() == sorted.len() + 1,
    decreases sorted.len(),
{
    broadcast use vstd::seq_lib::group_to_multiset_ensures;

    if sorted.len() > 0 && key(sorted.last()) < key(item) {
        let front = sorted.drop_last();
        let last = sorted.last();
        assert(is_descending(front, key));
        lemma_insert_keeps_order(front, item, key);
        let inner = insert_by_key(front, item, key);
        let grown = inner.push(last);
        assert(sorted =~= front.push(last));
        assert forall|i: int, j: int| 0 <= i < j < grown.len() implies key(grown[i]) >= key(
            grown[j],
        ) by {
            if j == inner.len() {
                assert(inner.to_multiset().count(inner[i]) > 0);
            }
        }
    }
}

/// `descending_by` orders the items and neither drops nor adds one.
pub proof fn lemma_descending<A>(items: Seq<A>, key: spec_fn(A) -> int)
    ensures
        is_descending(descending_by(items, key), key),
        descending_by(items, key).to_multiset() == items.to_multiset(),
        descending_by(items, key).len() == items.len(),
    decreases items.len(),
{
    broadcast use vstd::seq_lib::group_to_multiset_ensures;

    if items.len() > 0 {
        lemma_descending(items.drop_last(), key);
        lemma_insert_keeps_order(descending_by(items.drop_last(), key), items.last(), key);
        assert(items =~= items.drop_last().push(items.last()));
    }
}

/// One more item at the end of the row that is ordered.
pub proof fn lemma_descending_push<A>(items: Seq<A>, item: A, key: spec_fn(A) -> int)
    ensures
        descending_by(items.push(item), key) == insert_by_key(
            descending_by(items, key),
            item,
            key,
        ),
{
    assert(items.push(item).drop_last() =~= items);
}

} // verus!
