//! The trace bridge: forwarding a garbage-collection tracing capability
//! through a normal shared borrow of the cell.

use vstd::prelude::*;

use crate::cell::DOMRefCell;
use crate::role::ThreadRole;

verus! {

/// The tracing capability handed to a value during garbage collection,
/// through which the value reports the references reachable from it.
pub struct Tracer {
    /// How many reachable references have been reported so far.
    pub reported: u64,
}

impl Tracer {
    /// A fresh tracer with nothing reported yet.
    pub fn new() -> (t: Tracer)
        ensures
            t.reported == 0,
    {
        Tracer { reported: 0 }
    }

    /// Report one reachable reference. The count saturates at its machine
    /// limit rather than overflow.
    pub fn report(&mut self)
        ensures
            final(self).reported == if old(self).reported < u64::MAX {
                old(self).reported + 1
            } else {
                u64::MAX as int
            },
    {
        self.reported = self.reported.saturating_add(1);
    }
}

/// A value that supports garbage-collection tracing: it reports to the
/// tracer every reference reachable from it. Implemented by the values the
/// object graph stores in its cells.
pub trait Traceable {
    /// What tracing this value does to a tracer: the relation between the
    /// tracer as handed in and as handed back. Each implementing type
    /// defines it; `trace` promises it.
    spec fn traced(self, before: Tracer, after: Tracer) -> bool;

    /// Report every reference reachable from `self` to the tracer.
    fn trace(&self, tracer: &mut Tracer)
        ensures
            self.traced(*old(tracer), *final(tracer)),
    ;
}

/// A plain integer holds no references, so tracing it reports nothing and
/// leaves the tracer as it was.
impl Traceable for u64 {
    open spec fn traced(self, before: Tracer, after: Tracer) -> bool {
        after == before
    }

    fn trace(&self, tracer: &mut Tracer) {
    }
}

impl<T: Traceable> DOMRefCell<T> {
    /// The cell's own trace entry point: acquire a normal shared borrow —
    /// the checked API, not a bypass accessor — and forward the tracing
    /// call through it, so the contained value's own `traced` relation
    /// holds of the caller's tracer. The guard is released before
    /// returning, so the tracker comes back to the state it started in.
    ///
    /// Legal only for the script role (trace callbacks run on the owning
    /// thread), and only while no exclusive guard is live, as for any
    /// shared borrow.
    pub fn trace(&mut self, role: ThreadRole, tracer: &mut Tracer)
        requires
            old(self).wf(),
            role.is_script(),
            old(self).borrow_state().can_borrow(),
            old(self).borrow_state().has_room(),
        ensures
            final(self).wf(),
            final(self).value() == old(self).value(),
            final(self).borrow_state() == old(self).borrow_state(),
            old(self).value().traced(*old(tracer), *final(tracer)),
    {
        let guard = self.borrow(role);
        self.read(&guard).trace(tracer);
        self.release(guard);
    }
}

} // verus!
