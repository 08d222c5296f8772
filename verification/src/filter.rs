//! Map and filter adapter of event publishers.

use std::rc::Rc;
use vstd::prelude::*;

verus! {

/// Filtered event publisher handle: every event goes through `filter`, and
/// what it lets through is published by `publisher`.
pub struct FilterPub<P, F> {
    publisher: P,
    filter: Rc<F>,
}

impl<P, F> FilterPub<P, F> {
    pub closed spec fn spec_publisher(&self) -> P {
        self.publisher
    }

    pub closed spec fn spec_filter(&self) -> F {
        *self.filter
    }

    pub fn new(publisher: P, filter: F) -> (r: Self)
        ensures
            r.spec_publisher() == publisher,
            r.spec_filter() == filter,
    {
        FilterPub { publisher, filter: Rc::new(filter) }
    }

    /// The downstream publisher.
    pub fn publisher(&self) -> (p: &P)
        ensures
            *p == self.spec_publisher(),
    {
        &self.publisher
    }

    /// The filter, shared by every clone of this handle.
    pub fn filter(&self) -> (f: &Rc<F>)
        ensures
            **f == self.spec_filter(),
    {
        &self.filter
    }
}

impl<P: Clone, F> Clone for FilterPub<P, F> {
    /// Another handle on a clone of the publisher, sharing the filter.
    fn clone(&self) -> (r: Self) {
        FilterPub { publisher: self.publisher.clone(), filter: self.filter.clone() }
    }
}

/// Event subscription handle that hides what it subscribes.
pub trait LedgeDyn {}

} // verus!
