//! Copies of values whose content is stated: a copy holds the same content as the
//! value copied, element by element for sequences.
use vstd::prelude::*;

verus! {

/// A value that can be copied with its content kept.
pub trait Duplicate: Sized {
    /// Whether `other` holds the same content as `self`.
    spec fn same(&self, other: &Self) -> bool;

    /// A copy of this value.
    fn copied(&self) -> (r: Self)
        ensures
            r.same(self),
    ;
}

impl Duplicate for String {
    open spec fn same(&self, other: &Self) -> bool {
        *self == *other
    }

    fn copied(&self) -> (r: String) {
        self.clone()
    }
}

impl Duplicate for bool {
    open spec fn same(&self, other: &Self) -> bool {
        *self == *other
    }

    fn copied(&self) -> (r: bool) {
        *self
    }
}

impl Duplicate for i32 {
    open spec fn same(&self, other: &Self) -> bool {
        *self == *other
    }

    fn copied(&self) -> (r: i32) {
        *self
    }
}

impl Duplicate for u32 {
    open spec fn same(&self, other: &Self) -> bool {
        *self == *other
    }

    fn copied(&self) -> (r: u32) {
        *self
    }
}

impl Duplicate for u16 {
    open spec fn same(&self, other: &Self) -> bool {
        *self == *other
    }

    fn copied(&self) -> (r: u16) {
        *self
    }
}

impl<T: Duplicate> Duplicate for Option<T> {
    open spec fn same(&self, other: &Self) -> bool {
        match (self, other) {
            (Some(a), Some(b)) => a.same(b),
            (None, None) => true,
            _ => false,
        }
    }

    fn copied(&self) -> (r: Option<T>) {
        match self {
            Some(a) => Some(a.copied()),
            None => None,
        }
    }
}

impl<T: Duplicate> Duplicate for Box<T> {
    open spec fn same(&self, other: &Self) -> bool {
        (**self).same(&**other)
    }

    fn copied(&self) -> (r: Box<T>) {
        Box::new((**self).copied())
    }
}

impl<T: Duplicate> Duplicate for Vec<T> {
    open spec fn same(&self, other: &Self) -> bool {
        &&& self@.len() == other@.len()
        &&& forall|i: int| 0 <= i < self@.len() ==> #[trigger] self@[i].same(&other@[i])
    }

    fn copied(&self) -> (r: Vec<T>) {
        let mut r: Vec<T> = Vec::new();
        let mut i: usize = 0;
        while i < self.len()
            invariant
                i <= self@.len(),
                r@.len() == i,
                forall|j: int| 0 <= j < i ==> #[trigger] r@[j].same(&self@[j]),
            decreases self@.len() - i,
        {
            r.push(self[i].copied());
            i = i + 1;
        }
        r
    }
}

} // verus!
