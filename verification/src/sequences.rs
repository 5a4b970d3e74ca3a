use vstd::prelude::*;

verus! {

/// The models of the items of a sequence, in the same order.
pub open spec fn views<T: View>(items: Seq<T>) -> Seq<T::V> {
    Seq::new(items.len(), |i: int| items[i]@)
}

pub proof fn lemma_views_push<T: View>(items: Seq<T>, item: T)
    ensures
        views(items.push(item)) == views(items).push(item@),
{
    assert(views(items.push(item)) =~= views(items).push(item@));
}

pub proof fn lemma_views_insert<T: View>(items: Seq<T>, position: int, item: T)
    requires
        0 <= position <= items.len(),
    ensures
        views(items.insert(position, item)) == views(items).insert(position, item@),
{
    assert(views(items.insert(position, item)) =~= views(items).insert(position, item@));
}

pub proof fn lemma_views_remove<T: View>(items: Seq<T>, position: int)
    requires
        0 <= position < items.len(),
    ensures
        views(items.remove(position)) == views(items).remove(position),
{
    assert(views(items.remove(position)) =~= views(items).remove(position));
}

pub proof fn lemma_views_update<T: View>(items: Seq<T>, position: int, item: T)
    requires
        0 <= position < items.len(),
    ensures
        views(items.update(position, item)) == views(items).update(position, item@),
{
    assert(views(items.update(position, item)) =~= views(items).update(position, item@));
}

} // verus!
