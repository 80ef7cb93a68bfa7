use vstd::prelude::*;

use crate::spinner::event::{Event, EventPayload, SpinnerListener};

verus! {

/// `b` holds as many registrations as `a`, for the same events in the
/// same order; only the listeners' own state may differ.
pub open spec fn same_events<L>(a: Seq<(Event, L)>, b: Seq<(Event, L)>) -> bool {
    b.len() == a.len() && forall|i: int| 0 <= i < a.len() ==> b[i].0 == a[i].0
}

/// Dispatches lifecycle notifications to registered listeners.
///
/// Each listener is registered for one [`Event`]; emitting an event invokes,
/// in registration order, every listener registered for it, synchronously on
/// the calling thread.
pub struct EventEmitter<L> {
    listeners: Vec<(Event, L)>,
}

impl<L: SpinnerListener> EventEmitter<L> {
    /// The registered (event, listener) pairs, in registration order.
    pub closed spec fn spec_entries(self) -> Seq<(Event, L)> {
        self.listeners@
    }

    /// An emitter with no listeners.
    pub fn new() -> (r: Self)
        ensures
            r.spec_entries() == Seq::<(Event, L)>::empty(),
    {
        EventEmitter { listeners: Vec::new() }
    }

    /// Registers `listener` for `event`, after all earlier registrations.
    pub fn on(&mut self, event: Event, listener: L)
        ensures
            final(self).spec_entries() == old(self).spec_entries().push((event, listener)),
    {
        self.listeners.push((event, listener));
    }

    /// Invokes every listener registered for `event`, in registration order.
    /// The registrations themselves are unchanged: each slot keeps its
    /// event, and a listener registered for another event is untouched.
    pub fn emit(&mut self, event: Event, payload: &EventPayload)
        ensures
            same_events(old(self).spec_entries(), final(self).spec_entries()),
            forall|j: int|
                0 <= j < old(self).spec_entries().len() && old(self).spec_entries()[j].0 != event
                    ==> final(self).spec_entries()[j] == old(self).spec_entries()[j],
    {
        let n = self.listeners.len();
        let mut i: usize = 0;
        while i < n
            invariant
                i <= n,
                n == self.listeners@.len(),
                self.listeners@.len() == old(self).listeners@.len(),
                forall|j: int|
                    0 <= j < old(self).listeners@.len() ==> self.listeners@[j].0 == old(
                        self,
                    ).listeners@[j].0,
                forall|j: int|
                    0 <= j < old(self).listeners@.len() && old(self).listeners@[j].0 != event
                        ==> self.listeners@[j] == old(self).listeners@[j],
            decreases n - i,
        {
            if self.listeners[i].0 == event {
                let ghost pre = self.listeners@;
                let mut entry = self.listeners.remove(i);
                entry.1.on_event(payload);
                self.listeners.insert(i, entry);
                proof {
                    assert forall|j: int| 0 <= j < pre.len() implies self.listeners@[j].0
                        == pre[j].0 by {
                        if j < i {
                        } else if j == i {
                        } else {
                        }
                    }
                    assert forall|j: int|
                        0 <= j < pre.len() && j != i implies self.listeners@[j] == pre[j] by {
                        if j < i {
                        } else {
                        }
                    }
                }
            }
            i = i + 1;
        }
    }
}

} // verus!
