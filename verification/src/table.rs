//! A table of strings searchable by prefix.

use vstd::prelude::*;

use crate::text::starts_with;

verus! {

/// A collection of strings searched front to back.
pub struct StringTable {
    pub elements: Vec<String>,
}

impl StringTable {
    /// Returns a borrow of the first element that starts with `prefix`, or
    /// `None` if no element does.
    pub fn find_by_prefix(&self, prefix: &str) -> (r: Option<&String>)
        ensures
            r is Some <==> exists|i: int|
                0 <= i < self.elements@.len() && prefix@.is_prefix_of(
                    (#[trigger] self.elements@[i])@,
                ),
            r matches Some(s) ==> exists|i: int|
                {
                    &&& 0 <= i < self.elements@.len()
                    &&& prefix@.is_prefix_of((#[trigger] self.elements@[i])@)
                    &&& s@ == self.elements@[i]@
                    &&& forall|j: int|
                        0 <= j < i ==> !prefix@.is_prefix_of((#[trigger] self.elements@[j])@)
                },
    {
        let mut i: usize = 0;
        while i < self.elements.len()
            invariant
                i <= self.elements@.len(),
                forall|j: int|
                    0 <= j < i ==> !prefix@.is_prefix_of((#[trigger] self.elements@[j])@),
            decreases self.elements@.len() - i,
        {
            if starts_with(self.elements[i].as_str(), prefix) {
                return Some(&self.elements[i]);
            }
            i = i + 1;
        }
        None
    }
}

} // verus!
