//! The shareable mutable container itself: a value, a borrow tracker, a
//! checked access API gated on the script role, and three bypass accessors
//! that skip the tracker under caller-guaranteed scheduling conditions.

use vstd::prelude::*;

use crate::role::ThreadRole;
use crate::state::BorrowState;

verus! {

/// Evidence of one live shared borrow of a cell. Acquired through
/// `DOMRefCell::borrow` or `DOMRefCell::try_borrow`, redeemed for read
/// access through `DOMRefCell::read`, and given back through
/// `DOMRefCell::release`, which decrements the tracker's count: exactly one
/// decrement per guard.
pub struct SharedGuard {
    token: (),
}

/// Evidence of the one live exclusive borrow of a cell. Acquired through
/// `DOMRefCell::borrow_mut` or `DOMRefCell::try_borrow_mut`, redeemed for
/// write access through `DOMRefCell::get_mut`, and given back through
/// `DOMRefCell::release_mut`, which moves the tracker back to `Free`.
pub struct ExclusiveGuard {
    token: (),
}

/// A mutable field in a DOM-like object graph.
///
/// The cell owns its value exclusively and records in a `BorrowState` how
/// the value is currently borrowed. Checked access demands the script role
/// and a tracker state that admits the borrow; the three bypass accessors
/// demand only a role, and leave the tracker untouched.
pub struct DOMRefCell<T> {
    value: T,
    state: BorrowState,
}

impl<T> DOMRefCell<T> {
    /// The contained value, for contracts.
    pub closed spec fn value(self) -> T {
        self.value
    }

    /// The tracker's current state, for contracts.
    pub closed spec fn borrow_state(self) -> BorrowState {
        self.state
    }

    /// Well-formedness of the cell: its tracker state is well-formed.
    pub open spec fn wf(self) -> bool {
        self.borrow_state().wf()
    }

    /// Create a new cell containing `value`, with the tracker `Free`.
    pub fn new(value: T) -> (c: DOMRefCell<T>)
        ensures
            c.wf(),
            c.value() == value,
            c.borrow_state() == BorrowState::Free,
    {
        DOMRefCell { value, state: BorrowState::Free }
    }

    /// Is the cell exclusively (mutably) borrowed?
    ///
    /// A pure query on the tracker: true exactly when an exclusive guard is
    /// live. Never mutates the tracker and is not role-gated; it serves as
    /// a cheap pre-check elsewhere.
    pub fn is_mutably_borrowed(&self) -> (r: bool)
        ensures
            r == (self.borrow_state() is Exclusive),
    {
        match self.state {
            BorrowState::Exclusive => true,
            _ => false,
        }
    }

    /// Attempt to acquire a shared borrow of the cell.
    ///
    /// Legal only for the script role. Returns a guard exactly when no
    /// exclusive guard is live, moving `Free` to `Shared(1)` or `Shared(n)`
    /// to `Shared(n + 1)`; returns nothing, and leaves the tracker as it
    /// was, exactly when an exclusive guard is live.
    pub fn try_borrow(&mut self, role: ThreadRole) -> (g: Option<SharedGuard>)
        requires
            old(self).wf(),
            role.is_script(),
            old(self).borrow_state().has_room(),
        ensures
            final(self).wf(),
            final(self).value() == old(self).value(),
            g is Some <==> old(self).borrow_state().can_borrow(),
            old(self).borrow_state().can_borrow() ==> final(self).borrow_state() == old(
                self,
            ).borrow_state().after_borrow(),
            !old(self).borrow_state().can_borrow() ==> final(self).borrow_state() == old(
                self,
            ).borrow_state(),
    {
        match self.state {
            BorrowState::Free => {
                self.state = BorrowState::Shared(1);
                Some(SharedGuard { token: () })
            },
            BorrowState::Shared(n) => {
                self.state = BorrowState::Shared(n + 1);
                Some(SharedGuard { token: () })
            },
            BorrowState::Exclusive => None,
        }
    }

    /// Attempt to acquire the exclusive borrow of the cell.
    ///
    /// Legal only for the script role. Returns a guard exactly when no
    /// guard of either kind is live, moving `Free` to `Exclusive`; returns
    /// nothing, and leaves the tracker as it was, exactly when any guard is
    /// live.
    pub fn try_borrow_mut(&mut self, role: ThreadRole) -> (g: Option<ExclusiveGuard>)
        requires
            old(self).wf(),
            role.is_script(),
        ensures
            final(self).wf(),
            final(self).value() == old(self).value(),
            g is Some <==> old(self).borrow_state().can_borrow_mut(),
            old(self).borrow_state().can_borrow_mut() ==> final(self).borrow_state()
                == BorrowState::Exclusive,
            !old(self).borrow_state().can_borrow_mut() ==> final(self).borrow_state() == old(
                self,
            ).borrow_state(),
    {
        match self.state {
            BorrowState::Free => {
                self.state = BorrowState::Exclusive;
                Some(ExclusiveGuard { token: () })
            },
            _ => None,
        }
    }

    /// Acquire a shared borrow of the cell.
    ///
    /// Legal only for the script role, and only while no exclusive guard is
    /// live: a call under a live exclusive guard is a programming-invariant
    /// violation, which `try_borrow` converts into an empty result instead.
    pub fn borrow(&mut self, role: ThreadRole) -> (g: SharedGuard)
        requires
            old(self).wf(),
            role.is_script(),
            old(self).borrow_state().can_borrow(),
            old(self).borrow_state().has_room(),
        ensures
            final(self).wf(),
            final(self).value() == old(self).value(),
            final(self).borrow_state() == old(self).borrow_state().after_borrow(),
    {
        match self.try_borrow(role) {
            Some(g) => g,
            None => unreached(),
        }
    }

    /// Acquire the exclusive borrow of the cell.
    ///
    /// Legal only for the script role, and only while no guard of either
    /// kind is live: a call under any live guard is a programming-invariant
    /// violation, which `try_borrow_mut` converts into an empty result
    /// instead.
    pub fn borrow_mut(&mut self, role: ThreadRole) -> (g: ExclusiveGuard)
        requires
            old(self).wf(),
            role.is_script(),
            old(self).borrow_state().can_borrow_mut(),
        ensures
            final(self).wf(),
            final(self).value() == old(self).value(),
            final(self).borrow_state() == BorrowState::Exclusive,
    {
        match self.try_borrow_mut(role) {
            Some(g) => g,
            None => unreached(),
        }
    }

    /// Read the contents through a live shared guard.
    pub fn read<'a>(&'a self, guard: &SharedGuard) -> (r: &'a T)
        requires
            self.borrow_state() matches BorrowState::Shared(_),
        ensures
            *r == self.value(),
    {
        &self.value
    }

    /// Write access to the contents through the live exclusive guard. The
    /// cell's value follows whatever the caller does with the returned
    /// reference; the tracker does not move.
    pub fn get_mut<'a>(&'a mut self, guard: &ExclusiveGuard) -> (r: &'a mut T)
        requires
            old(self).borrow_state() is Exclusive,
        ensures
            *r == old(self).value(),
            final(self).value() == *final(r),
            final(self).borrow_state() == old(self).borrow_state(),
    {
        &mut self.value
    }

    /// Release one shared guard: `Shared(1)` moves back to `Free`,
    /// `Shared(n)` with `n > 1` to `Shared(n - 1)`. The guard is consumed;
    /// exactly one decrement per guard.
    pub fn release(&mut self, guard: SharedGuard)
        requires
            old(self).wf(),
            old(self).borrow_state() matches BorrowState::Shared(_),
        ensures
            final(self).wf(),
            final(self).value() == old(self).value(),
            final(self).borrow_state() == old(self).borrow_state().after_release(),
    {
        match self.state {
            BorrowState::Shared(n) => {
                if n <= 1 {
                    self.state = BorrowState::Free;
                } else {
                    self.state = BorrowState::Shared(n - 1);
                }
            },
            _ => (),
        }
    }

    /// Release the exclusive guard: the tracker moves back to `Free`. The
    /// guard is consumed.
    pub fn release_mut(&mut self, guard: ExclusiveGuard)
        requires
            old(self).wf(),
            old(self).borrow_state() is Exclusive,
        ensures
            final(self).wf(),
            final(self).value() == old(self).value(),
            final(self).borrow_state() == BorrowState::Free,
    {
        self.state = BorrowState::Free;
    }

    /// Return a reference to the contents, for the render and layout role
    /// only, regardless of the tracker's state.
    ///
    /// A bypass accessor: it never touches the tracker. Its safety rests on
    /// the caller-guaranteed scheduling condition that script mutation
    /// never runs concurrently with a render-role phase, so no exclusive
    /// borrow can be in flight from the reader's perspective even if the
    /// bookkeeping says otherwise.
    pub fn borrow_for_layout<'a>(&'a self, role: ThreadRole) -> (r: &'a T)
        requires
            role is Render,
        ensures
            *r == self.value(),
    {
        &self.value
    }

    /// Return a reference to the contents, for the collector's tracing role
    /// only, regardless of the tracker's state.
    ///
    /// A bypass accessor: it never touches the tracker, and succeeds even
    /// while `Exclusive` is recorded, so trace code has to be careful.
    /// Trace callbacks run synchronously, on the owning thread, during a
    /// collection pause in which no mutation can be interleaved.
    pub fn borrow_for_gc_trace<'a>(&'a self, role: ThreadRole) -> (r: &'a T)
        requires
            role is CollectorTracing,
        ensures
            *r == self.value(),
    {
        &self.value
    }

    /// Return a mutable reference to the contents, for the script role
    /// only, regardless of the tracker's state.
    ///
    /// A bypass accessor for object teardown: it never touches the tracker,
    /// and is for use only while the owning object is being destroyed and
    /// no further legitimate borrow of this cell will occur, so stale guard
    /// state is irrelevant.
    pub fn borrow_for_script_deallocation<'a>(&'a mut self, role: ThreadRole) -> (r: &'a mut T)
        requires
            role.is_script(),
        ensures
            *r == old(self).value(),
            final(self).value() == *final(r),
            final(self).borrow_state() == old(self).borrow_state(),
    {
        &mut self.value
    }
}

} // verus!
