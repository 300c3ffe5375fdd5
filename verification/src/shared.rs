use std::sync::Arc;
use vstd::prelude::*;

verus! {

/// A reference-counted handle to a value distributed across agents.
///
/// Every handle obtained by cloning refers to the same underlying value,
/// which is freed automatically once the last handle is dropped. The handle
/// grants shared access only: a caller that needs to mutate the value from
/// several agents must pick a `T` that carries its own internal
/// synchronization.
pub struct Shared<T> {
    inner: Arc<T>,
}

/// Relies on std::sync::Arc::clone: the returned handle points to the same
/// allocation, so the value it refers to is the value the old handle refers
/// to.
#[verifier::external_body]
fn arc_clone<T>(arc: &Arc<T>) -> (r: Arc<T>)
    ensures
        r == *arc,
{
    Arc::clone(arc)
}

impl<T> Shared<T> {
    /// The value this handle refers to.
    pub closed spec fn value(&self) -> T {
        *self.inner
    }

    /// Takes ownership of `value` and returns a first handle to it.
    pub fn new(value: T) -> (r: Self)
        ensures
            r.value() == value,
    {
        Shared { inner: Arc::new(value) }
    }

    /// Borrows the underlying value.
    pub fn get(&self) -> (r: &T)
        ensures
            *r == self.value(),
    {
        &*self.inner
    }
}

impl<T> Clone for Shared<T> {
    /// Returns an independent handle referring to the same underlying
    /// value; `T` is not deep-copied.
    fn clone(&self) -> (r: Self)
        ensures
            r.value() == self.value(),
    {
        Shared { inner: arc_clone(&self.inner) }
    }
}

} // verus!
