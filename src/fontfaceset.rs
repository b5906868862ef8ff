//! The state behind a document's font face set: its `ready` promise.
use vstd::prelude::*;

verus! {

/// A font face set, as far as its `ready` promise goes.
#[derive(Debug)]
pub struct FontFaceSet {
    ready_fulfilled: bool,
}

impl FontFaceSet {
    /// Whether the `ready` promise is fulfilled.
    pub closed spec fn spec_ready_fulfilled(&self) -> bool {
        self.ready_fulfilled
    }

    /// A set whose `ready` promise is still pending.
    pub fn new_inherited() -> (r: FontFaceSet)
        ensures
            !r.spec_ready_fulfilled(),
    {
        FontFaceSet { ready_fulfilled: false }
    }

    pub fn is_ready_fulfilled(&self) -> (r: bool)
        ensures
            r == self.spec_ready_fulfilled(),
    {
        self.ready_fulfilled
    }

    /// Fulfils the `ready` promise unless it already is. Returns whether it was fulfilled by
    /// this call, so that the promise's holder resolves it exactly once.
    pub fn fulfill_ready_promise_if_needed(&mut self) -> (now: bool)
        ensures
            final(self).spec_ready_fulfilled(),
            now == !old(self).spec_ready_fulfilled(),
    {
        if !self.ready_fulfilled {
            self.ready_fulfilled = true;
            true
        } else {
            false
        }
    }
}

} // verus!
