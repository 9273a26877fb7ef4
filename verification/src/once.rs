//! A write-once cell: the at-most-once lifecycle of the bridge's lazily
//! discovered references, made structural.
//!
//! The cell starts empty and is filled by a "set if still empty" step, so
//! setting the same discovered value twice is harmless and a value, once
//! present, is never reset or replaced.

use vstd::prelude::*;

verus! {

/// A cell that is empty until filled once, and never changes afterwards.
pub struct WriteOnce<T> {
    value: Option<T>,
}

impl<T> WriteOnce<T> {
    /// The cell's content.
    pub closed spec fn spec_value(&self) -> Option<T> {
        self.value
    }

    /// A cell with nothing in it.
    pub fn empty() -> (r: Self)
        ensures
            r.spec_value() is None,
    {
        WriteOnce { value: None }
    }

    /// Reads the content.
    pub fn get(&self) -> (r: &Option<T>)
        ensures
            *r == self.spec_value(),
    {
        &self.value
    }

    /// Whether the cell has been filled.
    pub fn is_set(&self) -> (b: bool)
        ensures
            b == (self.spec_value() is Some),
    {
        self.value.is_some()
    }

    /// Fills the cell if it is still empty; an already filled cell keeps
    /// its value, whatever is offered.
    pub fn set_if_empty(&mut self, v: T)
        ensures
            final(self).spec_value() == if old(self).spec_value() is None {
                Some(v)
            } else {
                old(self).spec_value()
            },
    {
        if self.value.is_none() {
            self.value = Some(v);
        }
    }
}

} // verus!
