//! Optional values in sequences: the first item, the items that are present,
//! and how many are missing.

use vstd::prelude::*;

verus! {

/// The first item of a sequence, if it has one.
pub open spec fn first_of<T>(items: Seq<T>) -> Option<T> {
    if items.len() > 0 {
        Some(items[0])
    } else {
        None
    }
}

/// The view of an optional value.
pub open spec fn view_of<T: View>(item: Option<T>) -> Option<T::V> {
    match item {
        Some(t) => Some(t@),
        None => None,
    }
}

/// The values that are present, in their order.
pub open spec fn present<T>(items: Seq<Option<T>>) -> Seq<T>
    decreases items.len(),
{
    if items.len() == 0 {
        Seq::empty()
    } else {
        match items.last() {
            Some(t) => present(items.drop_last()).push(t),
            None => present(items.drop_last()),
        }
    }
}

/// The number of values that are missing.
pub open spec fn missing<T>(items: Seq<Option<T>>) -> nat
    decreases items.len(),
{
    if items.len() == 0 {
        0
    } else if items.last().is_none() {
        missing(items.drop_last()) + 1
    } else {
        missing(items.drop_last())
    }
}

/// Every item is either present or missing.
pub proof fn lemma_present_and_missing<T>(items: Seq<Option<T>>)
    ensures
        present(items).len() + missing(items) == items.len(),
    decreases items.len(),
{
    if items.len() > 0 {
        lemma_present_and_missing(items.drop_last());
    }
}

/// What one more item adds to the values that are present.
pub proof fn lemma_present_push<T>(items: Seq<Option<T>>, item: Option<T>)
    ensures
        present(items.push(item)) == match item {
            Some(t) => present(items).push(t),
            None => present(items),
        },
{
    assert(items.push(item).drop_last() =~= items);
}

} // verus!
