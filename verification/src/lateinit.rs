//! A value that is set once, after construction, and read afterwards.

use vstd::prelude::*;

verus! {

/// A value set once after construction.
pub struct LateInit<T> {
    value: Option<T>,
}

impl<T> LateInit<T> {
    /// The value, once it has been set.
    pub closed spec fn value(&self) -> Option<T> {
        self.value
    }

    /// A value not set yet.
    pub fn new() -> (r: LateInit<T>)
        ensures
            r.value() is None,
    {
        LateInit { value: None }
    }

    /// Sets the value; it must not have been set before.
    pub fn init(&mut self, value: T)
        requires
            old(self).value() is None,
        ensures
            final(self).value() == Some(value),
    {
        self.value = Some(value);
    }

    /// Whether the value has been set.
    pub fn is_initialized(&self) -> (r: bool)
        ensures
            r == self.value() is Some,
    {
        self.value.is_some()
    }

    /// The value; it must have been set.
    pub fn get(&self) -> (r: &T)
        requires
            self.value() is Some,
        ensures
            Some(*r) == self.value(),
    {
        match &self.value {
            Some(v) => v,
            None => vstd::pervasive::unreached(),
        }
    }
}

} // verus!
