//! An owned, bounds-checked collection of the records one session
//! enumeration call yields. The enumerator collaborator acquires the raw
//! buffer, converts each entry to a plain record, and hands the lot over
//! here; release is deterministic with the vector's own.

use vstd::prelude::*;

verus! {

/// The records of one enumeration call.
pub struct WtsArray<T> {
    items: Vec<T>,
}

impl<T> View for WtsArray<T> {
    type V = Seq<T>;

    closed spec fn view(&self) -> Seq<T> {
        self.items@
    }
}

impl<T> WtsArray<T> {
    /// Takes ownership of the converted records of one enumeration call.
    pub fn from_raw(items: Vec<T>) -> (a: WtsArray<T>)
        ensures
            a@ == items@,
    {
        WtsArray { items }
    }

    /// Whether the enumeration yielded no records.
    pub fn is_empty(&self) -> (r: bool)
        ensures
            r == (self@.len() == 0),
    {
        self.items.len() == 0
    }

    /// The records, in enumeration order.
    pub fn as_slice(&self) -> (s: &[T])
        ensures
            s@ == self@,
    {
        self.items.as_slice()
    }

    /// Hands the records back out, consuming the collection.
    pub fn into_items(self) -> (items: Vec<T>)
        ensures
            items@ == self@,
    {
        self.items
    }
}

} // verus!
