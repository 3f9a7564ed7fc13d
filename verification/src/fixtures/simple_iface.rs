//! A minimal object interface.

use vstd::prelude::*;
use std::sync::Arc;

verus! {

/// An object holding one number.
#[derive(Debug)]
pub struct Object {
    inner: i32,
}

impl Object {
    /// The held number, as the contracts speak of it.
    pub closed spec fn spec_inner(&self) -> i32 {
        self.inner
    }

    /// An object holding the given number.
    pub fn new(inner: i32) -> (r: Self)
        ensures
            r.spec_inner() == inner,
    {
        Self { inner }
    }

    /// The held number.
    pub fn get_inner(&self) -> (r: i32)
        ensures
            r == self.spec_inner(),
    {
        self.inner
    }

    /// This method never hands an object back.
    pub fn some_method(&self) -> (r: Option<Arc<Object>>)
        ensures
            r is None,
    {
        None
    }
}

/// A shared object holding the given number.
pub fn make_object(inner: i32) -> (r: Arc<Object>)
    ensures
        r.spec_inner() == inner,
{
    Arc::new(Object::new(inner))
}

} // verus!
