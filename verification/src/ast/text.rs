//! Lists of plain text and bytes.

use vstd::prelude::*;

verus! {

/// Both lists hold the same texts in the same order.
pub open spec fn same_strings(list: Seq<String>, other: Seq<String>) -> bool {
    &&& list.len() == other.len()
    &&& forall|i: int| 0 <= i < list.len() ==> (#[trigger] list[i])@ == other[i]@
}

/// A copy of a list of texts.
pub fn clone_strings(list: &Vec<String>) -> (copy: Vec<String>)
    ensures
        same_strings(list@, copy@),
{
    let mut copy: Vec<String> = Vec::new();
    let mut i: usize = 0;
    while i < list.len()
        invariant
            i <= list@.len(),
            copy@.len() == i,
            forall|j: int| 0 <= j < i ==> (#[trigger] list@[j])@ == copy@[j]@,
        decreases list@.len() - i,
    {
        copy.push(list[i].clone());
        i += 1;
    }
    copy
}

/// Both lists hold the same bytes in the same order.
pub open spec fn same_bytes(list: Seq<u8>, other: Seq<u8>) -> bool {
    list == other
}

/// A copy of a list of bytes.
pub fn clone_bytes(list: &Vec<u8>) -> (copy: Vec<u8>)
    ensures
        same_bytes(list@, copy@),
{
    list.clone()
}

} // verus!
