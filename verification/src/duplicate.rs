//! Exact copies.
use vstd::prelude::*;

verus! {

/// A value that can be copied exactly.
pub trait Duplicate: Sized {
    /// An equal value.
    fn duplicate(&self) -> (copy: Self)
        ensures
            copy == *self,
    ;
}

/// An equal list.
pub fn duplicate_all<T: Duplicate>(items: &Vec<T>) -> (copy: Vec<T>)
    ensures
        copy@ == items@,
{
    let mut copy: Vec<T> = Vec::new();
    let mut i: usize = 0;
    while i < items.len()
        invariant
            i <= items@.len(),
            copy@ == items@.take(i as int),
        decreases items@.len() - i,
    {
        copy.push(items[i].duplicate());
        i = i + 1;
    }
    assert(items@.take(items@.len() as int) =~= items@);
    copy
}

impl<A: Duplicate, B: Duplicate> Duplicate for (A, B) {
    fn duplicate(&self) -> (copy: (A, B)) {
        (self.0.duplicate(), self.1.duplicate())
    }
}

} // verus!
