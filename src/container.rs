//! Containers: the owned and shared wrappers in which results are handed out.
//!
//! A plain client hands out [`Inner`] values, which unwrap for free; a caching client hands
//! out [`Arc`] values, so that re-serving a cached response does not copy the payload for
//! every consumer. Both read transparently as the value they hold.
use std::sync::Arc;

use vstd::prelude::*;

verus! {

/// What every payload handed out by the service's clients can do: be copied.
pub trait FreedomApiValue: Clone {

}

impl<T: Clone> FreedomApiValue for T {

}

/// A read-only wrapper around a payload, which reads as that payload and unwraps into it.
pub trait FreedomApiContainer<T: FreedomApiValue>: core::ops::Deref<Target = T> + FreedomApiValue + Sized {
    /// The payload held.
    spec fn value(&self) -> T;

    /// Whether unwrapping moves the payload out instead of copying it.
    spec fn unwraps_by_move(&self) -> bool;

    /// The payload, read in place.
    fn get(&self) -> (r: &T)
        ensures
            *r == self.value(),
    ;

    /// The payload, owned: moved out when `unwraps_by_move`, otherwise a copy.
    fn into_inner(self) -> (r: T)
        ensures
            cloned(self.value(), r),
            self.unwraps_by_move() ==> r == self.value(),
    ;
}

/// An owned payload, held on the stack.
#[derive(Debug, Clone, PartialEq)]
pub struct Inner<T>(T);

impl<T> Inner<T> {
    /// The payload held.
    pub closed spec fn held(&self) -> T {
        self.0
    }

    /// Wraps a payload.
    pub fn new(value: T) -> (r: Self)
        ensures
            r.held() == value,
    {
        Inner(value)
    }
}

impl<T> core::ops::Deref for Inner<T> {
    type Target = T;

    fn deref(&self) -> &T {
        &self.0
    }
}

impl<T: Clone> FreedomApiContainer<T> for Inner<T> {
    open spec fn value(&self) -> T {
        self.held()
    }

    open spec fn unwraps_by_move(&self) -> bool {
        true
    }

    fn get(&self) -> (r: &T) {
        &self.0
    }

    fn into_inner(self) -> (r: T) {
        self.0
    }
}

/// Relies on `Arc::unwrap_or_clone`: the payload itself when this is its only handle,
/// otherwise a clone of it.
#[verifier::external_body]
fn arc_unwrap_or_clone<T: Clone>(a: Arc<T>) -> (r: T)
    ensures
        cloned(*a, r),
{
    Arc::unwrap_or_clone(a)
}

impl<T: Clone> FreedomApiContainer<T> for Arc<T> {
    open spec fn value(&self) -> T {
        **self
    }

    open spec fn unwraps_by_move(&self) -> bool {
        false
    }

    fn get(&self) -> (r: &T) {
        &**self
    }

    fn into_inner(self) -> (r: T) {
        arc_unwrap_or_clone(self)
    }
}

/// Container transparency: an owned and a shared wrapper of the same payload (as
/// `Inner::new` and `Arc::new` make them) read as that payload; the owned one unwraps into
/// the payload itself, the shared one into the payload or a copy of it.
pub proof fn lemma_containers_agree<T: Clone>(v: T, owned: Inner<T>, shared: Arc<T>)
    requires
        owned.held() == v,
        *shared == v,
    ensures
        owned.value() == v,
        shared.value() == v,
        owned.unwraps_by_move(),
        !shared.unwraps_by_move(),
        cloned(v, v),
{
}

} // verus!
