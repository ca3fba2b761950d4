//! Copies of values, made field by field, with the copy known to hold what
//! the value holds.

use vstd::prelude::*;

verus! {

/// A value that can be copied into a second value holding the same.
pub trait Duplicate: Sized {
    /// `other` holds what `self` holds.
    spec fn same(&self, other: &Self) -> bool;

    /// A second value that holds what `self` holds.
    fn duplicate(&self) -> (copy: Self)
        ensures
            self.same(&copy),
    ;
}

impl Duplicate for String {
    open spec fn same(&self, other: &Self) -> bool {
        self@ == other@
    }

    fn duplicate(&self) -> (copy: Self) {
        self.clone()
    }
}

impl<T: Duplicate> Duplicate for Option<T> {
    open spec fn same(&self, other: &Self) -> bool {
        match (*self, *other) {
            (Some(a), Some(b)) => a.same(&b),
            (None, None) => true,
            _ => false,
        }
    }

    fn duplicate(&self) -> (copy: Self) {
        match self {
            Some(a) => Some(a.duplicate()),
            None => None,
        }
    }
}

impl<T: Duplicate> Duplicate for Vec<T> {
    open spec fn same(&self, other: &Self) -> bool {
        self.len() == other.len() && forall|i: int|
            0 <= i < self.len() ==> (#[trigger] self[i]).same(&other[i])
    }

    fn duplicate(&self) -> (copy: Self) {
        let mut copy: Vec<T> = Vec::new();
        let mut i: usize = 0;
        while i < self.len()
            invariant
                i <= self.len(),
                copy.len() == i,
                forall|j: int| 0 <= j < i ==> (#[trigger] self[j]).same(&copy[j]),
            decreases self.len() - i,
        {
            copy.push(self[i].duplicate());
            i = i + 1;
        }
        copy
    }
}

} // verus!
