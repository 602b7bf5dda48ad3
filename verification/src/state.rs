use std::any::Any;
use std::sync::Arc;
use vstd::prelude::*;

verus! {

/// The shared state of a router: one value of any type, held behind a
/// reference count, or nothing. What it holds is opaque to the verifier, which
/// has no notion of a value whose type is only known at run time.
#[verifier::external_body]
#[derive(Debug)]
pub struct State {
    inner: Arc<dyn Any + Send + Sync + 'static>,
}

impl Clone for State {
    /// `Arc::clone`: a second handle on the same value.
    #[verifier::external_body]
    fn clone(&self) -> (r: Self)
        ensures
            r == *self,
    {
        State { inner: self.inner.clone() }
    }
}

impl State {
    /// `Arc::new` on the unit value: a state that holds nothing.
    #[verifier::external_body]
    pub fn new() -> Self {
        State { inner: Arc::new(()) }
    }

    /// `Arc::new`: replaces what the state holds by `obj`.
    #[verifier::external_body]
    pub fn set<T: 'static + Send + Sync>(&mut self, obj: T) {
        self.inner = Arc::new(obj);
    }

    /// `Arc::downcast`: the held value, where its type is `T`, and nothing
    /// where it is of another type.
    #[verifier::external_body]
    pub fn inner<T: 'static + Send + Sync>(&self) -> Option<Arc<T>> {
        self.inner.clone().downcast::<T>().ok()
    }
}

} // verus!
