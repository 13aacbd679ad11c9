//! References to objects on the heap: the index of the object, or null.

use vstd::prelude::*;
use vstd::std_specs::convert::FromSpecImpl;

verus! {

/// A reference: the heap index of an object, or null.
#[derive(Debug, Copy, Clone, PartialEq, Eq, Structural)]
pub enum Reference {
    Value(usize),
    Null,
}

impl Reference {
    /// The object referred to; the reference must not be null.
    pub fn expect(self, message: &str) -> (r: usize)
        requires
            self is Value,
        ensures
            self == Reference::Value(r),
    {
        match self {
            Reference::Value(v) => v,
            Reference::Null => {
                proof {
                    assert(false);
                }
                0
            },
        }
    }

    /// The object referred to; the reference must not be null.
    pub fn unwrap(self) -> (r: usize)
        requires
            self is Value,
        ensures
            self == Reference::Value(r),
    {
        match self {
            Reference::Value(v) => v,
            Reference::Null => {
                proof {
                    assert(false);
                }
                0
            },
        }
    }

    pub fn is_not_null(&self) -> (r: bool)
        ensures
            r == (*self is Value),
    {
        match self {
            Reference::Value(_) => true,
            Reference::Null => false,
        }
    }

    pub fn is_null(&self) -> (r: bool)
        ensures
            r == (*self is Null),
    {
        match self {
            Reference::Value(_) => false,
            Reference::Null => true,
        }
    }

    /// Whether two references are both null or refer to the same object.
    pub fn equals(self, other: Reference) -> (r: bool)
        ensures
            r == (self == other),
    {
        if self.is_null() && other.is_null() {
            return true;
        }
        if self.is_not_null() && other.is_not_null() {
            return self.unwrap() == other.unwrap();
        }
        false
    }
}

impl From<Option<usize>> for Reference {
    fn from(value: Option<usize>) -> (r: Reference) {
        match value {
            Some(v) => Reference::Value(v),
            None => Reference::Null,
        }
    }
}

impl FromSpecImpl<Option<usize>> for Reference {
    open spec fn obeys_from_spec() -> bool {
        true
    }

    open spec fn from_spec(value: Option<usize>) -> Reference {
        match value {
            Some(v) => Reference::Value(v),
            None => Reference::Null,
        }
    }
}

} // verus!
