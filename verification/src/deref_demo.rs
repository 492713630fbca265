//! A tiny wrapper type with an explicit dereference accessor.

use vstd::prelude::*;

verus! {

/// Wraps one value and hands out references to it.
pub struct DerefDemo<T> {
    pub value: T,
}

impl<T> DerefDemo<T> {
    /// Wraps the given value.
    pub fn new(value: T) -> (r: DerefDemo<T>)
        ensures
            r.value == value,
    {
        DerefDemo { value }
    }

    /// A reference to the wrapped value.
    pub fn deref(&self) -> (r: &T)
        ensures
            *r == self.value,
    {
        &self.value
    }
}

} // verus!
