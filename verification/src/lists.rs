//! Lists of references.

use vstd::prelude::*;

verus! {

/// Puts references to all of `items` behind `list`.
pub(crate) fn push_all<'a, T>(list: &mut Vec<&'a T>, items: &'a Vec<T>)
    ensures
        final(list)@.unref() == old(list)@.unref() + items@,
{
    let mut i: usize = 0;
    while i < items.len()
        invariant
            i <= items@.len(),
            list@.len() == old(list)@.len() + i,
            forall|j: int| 0 <= j < old(list)@.len() ==> list@[j] == old(list)@[j],
            forall|j: int| 0 <= j < i ==> *(#[trigger] list@[old(list)@.len() + j]) == items@[j],
        decreases items@.len() - i,
    {
        list.push(&items[i]);
        i += 1;
    }
    assert forall|j: int| old(list)@.len() <= j < list@.len() implies *(#[trigger] list@[j])
        == items@[j - old(list)@.len()] by {
        assert(list@[j] == list@[old(list)@.len() + (j - old(list)@.len())]);
    }
    assert(list@.unref() =~= old(list)@.unref() + items@);
}

/// References to all of `items`.
pub(crate) fn refs<T>(items: &Vec<T>) -> (list: Vec<&T>)
    ensures
        list@.unref() == items@,
{
    let mut list: Vec<&T> = Vec::new();
    push_all(&mut list, items);
    assert(list@.unref() =~= items@);
    list
}

} // verus!
