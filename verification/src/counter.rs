//! The live counter: its stored state, the form action applied to it,
//! and the notification broadcast after an update. Only the decision
//! logic lives here; fetching, writing and broadcasting are transport
//! concerns outside the library.

use vstd::prelude::*;

use crate::fields::str_eq;

verus! {

/// A named counter as the store keeps it.
#[derive(Debug)]
pub struct Counter {
    pub id: String,
    pub value: i64,
}

/// The request body for creating a counter.
#[derive(Debug)]
pub struct CreateCounter {
    pub count: i32,
}

/// A form-submitted action on a counter: `"inc"`, `"dec"`, or anything
/// else, which changes nothing.
#[derive(Debug)]
pub struct CounterAction {
    pub action: String,
}

/// The notification broadcast to live subscribers after an update.
#[derive(Debug)]
pub struct CounterUpdate {
    pub id: String,
    pub count: i64,
}

impl Clone for Counter {
    fn clone(&self) -> (r: Self)
        ensures
            r.id@ == self.id@,
            r.value == self.value,
    {
        Counter { id: self.id.clone(), value: self.value }
    }
}

impl Counter {
    /// A fresh counter under the given name, starting at zero: the state
    /// a page visit creates when none is stored yet.
    pub fn new(id: String) -> (c: Counter)
        ensures
            c.id@ == id@,
            c.value == 0,
    {
        Counter { id, value: 0 }
    }

    /// Applies one form action: `"inc"` adds one, `"dec"` subtracts one,
    /// and any other action leaves the value as it is. The name never
    /// changes.
    pub fn apply_action(&mut self, action: &CounterAction)
        requires
            action.action@ == "inc"@ ==> old(self).value < i64::MAX,
            action.action@ == "dec"@ ==> old(self).value > i64::MIN,
        ensures
            final(self).id@ == old(self).id@,
            final(self).value == (if action.action@ == "inc"@ {
                old(self).value + 1
            } else if action.action@ == "dec"@ {
                old(self).value - 1
            } else {
                old(self).value as int
            }),
    {
        if str_eq(action.action.as_str(), "inc") {
            self.value = self.value + 1;
        } else if str_eq(action.action.as_str(), "dec") {
            self.value = self.value - 1;
        }
    }

    /// The notification describing this counter's current state.
    pub fn to_update(&self) -> (u: CounterUpdate)
        ensures
            u.id@ == self.id@,
            u.count == self.value,
    {
        CounterUpdate { id: self.id.clone(), count: self.value }
    }
}

} // verus!
