//! The borrow tracker: a state machine recording whether a cell's value is
//! free, shared-borrowed (with a live-guard count), or exclusively borrowed.

use vstd::prelude::*;

verus! {

/// The tracker state held by a cell.
///
/// `Shared(n)` records `n` currently-live shared guards; well-formed states
/// have `n >= 1`, since `Shared(1)` moves back to `Free` on release.
#[derive(Clone, Copy, PartialEq, Eq, Structural, Debug)]
pub enum BorrowState {
    Free,
    Shared(usize),
    Exclusive,
}

impl BorrowState {
    /// Well-formedness: a `Shared` state records at least one live guard.
    pub open spec fn wf(self) -> bool {
        self matches BorrowState::Shared(n) ==> n >= 1
    }

    /// How many shared guards this state records as live.
    pub open spec fn shared_count(self) -> nat {
        match self {
            BorrowState::Shared(n) => n as nat,
            _ => 0,
        }
    }

    /// How many exclusive guards this state records as live.
    pub open spec fn exclusive_count(self) -> nat {
        if self is Exclusive {
            1
        } else {
            0
        }
    }

    /// A shared borrow may be acquired: every state but `Exclusive`.
    ///
    /// `DOMRefCell::borrow` demands exactly this, and
    /// `DOMRefCell::try_borrow` succeeds exactly here.
    pub open spec fn can_borrow(self) -> bool {
        !(self is Exclusive)
    }

    /// An exclusive borrow may be acquired: only the `Free` state.
    ///
    /// `DOMRefCell::borrow_mut` demands exactly this, and
    /// `DOMRefCell::try_borrow_mut` succeeds exactly here.
    pub open spec fn can_borrow_mut(self) -> bool {
        self is Free
    }

    /// The shared-guard counter has room for one more guard. Every live
    /// guard is a distinct value, so a program cannot in fact exceed this
    /// machine limit.
    pub open spec fn has_room(self) -> bool {
        self matches BorrowState::Shared(n) ==> n < usize::MAX
    }

    /// The state after a shared borrow is acquired.
    pub open spec fn after_borrow(self) -> BorrowState
        recommends
            self.can_borrow(),
            self.has_room(),
    {
        match self {
            BorrowState::Free => BorrowState::Shared(1),
            BorrowState::Shared(n) => BorrowState::Shared((n + 1) as usize),
            BorrowState::Exclusive => BorrowState::Exclusive,
        }
    }

    /// The state after one shared guard is released.
    pub open spec fn after_release(self) -> BorrowState
        recommends
            self matches BorrowState::Shared(_),
    {
        match self {
            BorrowState::Shared(n) => if n <= 1 {
                BorrowState::Free
            } else {
                BorrowState::Shared((n - 1) as usize)
            },
            other => other,
        }
    }
}

/// One acquisition or release of a guard, abstracted as an event. A run of
/// the tracker is a sequence of these, in the order the one role issues them.
#[derive(Clone, Copy, PartialEq, Eq, Structural, Debug)]
pub enum BorrowEvent {
    AcquireShared,
    ReleaseShared,
    AcquireExclusive,
    ReleaseExclusive,
}

/// The tracker's transition on one event, or `None` where the event is not
/// enabled: a conflicting acquisition (where the checked borrows abort and
/// the try-borrows return empty), a release with no matching live guard, or
/// a shared acquisition past the counter's machine limit.
pub open spec fn step(s: BorrowState, e: BorrowEvent) -> Option<BorrowState> {
    match e {
        BorrowEvent::AcquireShared => if s.can_borrow() && s.has_room() {
            Some(s.after_borrow())
        } else {
            None
        },
        BorrowEvent::ReleaseShared => if s matches BorrowState::Shared(_) {
            Some(s.after_release())
        } else {
            None
        },
        BorrowEvent::AcquireExclusive => if s.can_borrow_mut() {
            Some(BorrowState::Exclusive)
        } else {
            None
        },
        BorrowEvent::ReleaseExclusive => if s is Exclusive {
            Some(BorrowState::Free)
        } else {
            None
        },
    }
}

/// The state after a whole sequence of events, or `None` as soon as one of
/// them is not enabled.
pub open spec fn run(s: BorrowState, es: Seq<BorrowEvent>) -> Option<BorrowState>
    decreases es.len(),
{
    if es.len() == 0 {
        Some(s)
    } else {
        match step(s, es[0]) {
            Some(t) => run(t, es.drop_first()),
            None => None,
        }
    }
}

/// How many times event `e` occurs in `es`.
pub open spec fn event_count(es: Seq<BorrowEvent>, e: BorrowEvent) -> nat
    decreases es.len(),
{
    if es.len() == 0 {
        0
    } else {
        (if es[0] == e {
            1nat
        } else {
            0nat
        }) + event_count(es.drop_first(), e)
    }
}

/// A state records guards of one kind at a time: at most one exclusive
/// guard, and never a shared guard alongside an exclusive one.
pub proof fn lemma_at_most_one_kind(s: BorrowState)
    ensures
        s.exclusive_count() <= 1,
        !(s.shared_count() > 0 && s.exclusive_count() > 0),
{
}

/// Every enabled step preserves well-formedness.
pub proof fn lemma_step_wf(s: BorrowState, e: BorrowEvent)
    requires
        s.wf(),
        step(s, e) is Some,
    ensures
        step(s, e)->0.wf(),
{
}

/// Along every enabled event sequence from a well-formed state, the tracker
/// stays well-formed and its recorded live-guard counts track acquisitions
/// minus releases, kind by kind: the count in `Shared(n)` equals the number
/// of shared guards acquired and not yet released, and likewise (as zero or
/// one) for `Exclusive`.
pub proof fn lemma_run_counts(s: BorrowState, es: Seq<BorrowEvent>)
    requires
        s.wf(),
        run(s, es) is Some,
    ensures
        run(s, es)->0.wf(),
        run(s, es)->0.shared_count() + event_count(es, BorrowEvent::ReleaseShared) == s.shared_count()
            + event_count(es, BorrowEvent::AcquireShared),
        run(s, es)->0.exclusive_count() + event_count(es, BorrowEvent::ReleaseExclusive)
            == s.exclusive_count() + event_count(es, BorrowEvent::AcquireExclusive),
    decreases es.len(),
{
    if es.len() != 0 {
        let t = step(s, es[0])->0;
        lemma_step_wf(s, es[0]);
        lemma_run_counts(t, es.drop_first());
    }
}

/// For all interleavings of acquisitions and releases from the initial
/// `Free` state: at most one exclusive guard or any number of shared guards
/// is live at a time, never both kinds. The sequence here is arbitrary, so
/// this holds at every point of a longer run (instantiate it with each
/// prefix; `lemma_run_prefix` shows every prefix of an enabled run is
/// enabled).
pub proof fn lemma_no_aliasing(es: Seq<BorrowEvent>)
    requires
        run(BorrowState::Free, es) is Some,
    ensures
        run(BorrowState::Free, es)->0.exclusive_count() <= 1,
        !(run(BorrowState::Free, es)->0.shared_count() > 0 && run(BorrowState::Free, es)->0.exclusive_count() > 0),
{
    lemma_run_counts(BorrowState::Free, es);
    lemma_at_most_one_kind(run(BorrowState::Free, es)->0);
}

/// Every prefix of an enabled run is itself enabled.
pub proof fn lemma_run_prefix(s: BorrowState, es: Seq<BorrowEvent>, i: int)
    requires
        run(s, es) is Some,
        0 <= i <= es.len(),
    ensures
        run(s, es.take(i)) is Some,
    decreases i,
{
    if i > 0 {
        let t = step(s, es[0])->0;
        assert(es.take(i).drop_first() =~= es.drop_first().take(i - 1));
        lemma_run_prefix(t, es.drop_first(), i - 1);
    } else {
        assert(es.take(0) =~= Seq::<BorrowEvent>::empty());
    }
}

/// When no guard of either kind is live, the tracker is `Free` again: the
/// cell reports no exclusive borrow, and a fresh exclusive borrow is
/// allowed.
pub proof fn lemma_all_released(s: BorrowState)
    requires
        s.wf(),
        s.shared_count() == 0,
        s.exclusive_count() == 0,
    ensures
        s == BorrowState::Free,
        s.can_borrow_mut(),
        !(s is Exclusive),
{
}

/// After a run from `Free` in which every acquisition is matched by a
/// release, the tracker is `Free` again: every live guard having been
/// released, an exclusive borrow succeeds afresh.
pub proof fn lemma_balanced_run_frees(es: Seq<BorrowEvent>)
    requires
        run(BorrowState::Free, es) is Some,
        event_count(es, BorrowEvent::AcquireShared) == event_count(es, BorrowEvent::ReleaseShared),
        event_count(es, BorrowEvent::AcquireExclusive) == event_count(
            es,
            BorrowEvent::ReleaseExclusive,
        ),
    ensures
        run(BorrowState::Free, es) == Some(BorrowState::Free),
        run(BorrowState::Free, es)->0.can_borrow_mut(),
{
    lemma_run_counts(BorrowState::Free, es);
    lemma_all_released(run(BorrowState::Free, es)->0);
}

/// The checked borrows abort under exactly the conditions under which their
/// try- counterparts return empty: both go by the same two predicates,
/// spelled out here. A shared borrow conflicts exactly with a live
/// exclusive guard; an exclusive borrow conflicts exactly with any live
/// guard.
pub proof fn lemma_conflict_conditions(s: BorrowState)
    ensures
        s.can_borrow() <==> !(s is Exclusive),
        s.can_borrow_mut() <==> s is Free,
        s.wf() ==> (s.can_borrow_mut() <==> s.shared_count() == 0 && s.exclusive_count() == 0),
{
}

} // verus!
