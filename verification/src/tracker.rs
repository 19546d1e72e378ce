use vstd::prelude::*;

verus! {

/// The admission state of one slot's borrow tracker.
///
/// A slot is either free, held by some number of shared (read-only) borrows,
/// or held by the single exclusive (read-write) borrow. Admission of a new
/// borrow depends on this state alone.
#[derive(Debug, Copy, Clone, PartialEq, Eq, Structural)]
pub enum BorrowState {
    /// No borrow is outstanding.
    Free,
    /// `count` shared borrows are outstanding; `count` is at least 1.
    Shared { count: u64 },
    /// The single exclusive borrow is outstanding.
    Exclusive,
}

impl BorrowState {
    /// A state the tracker can actually reach: a shared count is never zero.
    pub open spec fn wf(self) -> bool {
        self matches BorrowState::Shared { count } ==> count >= 1
    }
}

/// The tracker's answer to a shared-borrow request: the next state, and
/// whether the request is granted.
///
/// From `Free` the request is granted and one shared borrow is outstanding;
/// from `Shared` it is granted and the count grows by one, unless the count
/// has no room left; from `Exclusive` it is refused and nothing changes.
pub open spec fn shared_requested(s: BorrowState) -> (BorrowState, bool) {
    match s {
        BorrowState::Free => (BorrowState::Shared { count: 1 }, true),
        BorrowState::Shared { count } => if count < u64::MAX {
            (BorrowState::Shared { count: (count + 1) as u64 }, true)
        } else {
            (s, false)
        },
        BorrowState::Exclusive => (s, false),
    }
}

/// The tracker's answer to an exclusive-borrow request: the next state, and
/// whether the request is granted.
///
/// The request is granted exactly from `Free`; from any other state it is
/// refused and nothing changes.
pub open spec fn exclusive_requested(s: BorrowState) -> (BorrowState, bool) {
    match s {
        BorrowState::Free => (BorrowState::Exclusive, true),
        _ => (s, false),
    }
}

/// The state after one outstanding shared borrow is released: the count
/// shrinks by one, reaching `Free` when the last one goes. States without a
/// shared borrow are left as they are; the tracker never reaches them here.
pub open spec fn shared_released(s: BorrowState) -> BorrowState {
    match s {
        BorrowState::Shared { count } => if count <= 1 {
            BorrowState::Free
        } else {
            BorrowState::Shared { count: (count - 1) as u64 }
        },
        _ => s,
    }
}

/// The state after the exclusive borrow is released: `Free`. States without
/// an exclusive borrow are left as they are; the tracker never reaches them
/// here.
pub open spec fn exclusive_released(s: BorrowState) -> BorrowState {
    match s {
        BorrowState::Exclusive => BorrowState::Free,
        _ => s,
    }
}

/// How many borrows are outstanding in state `s`.
pub open spec fn outstanding(s: BorrowState) -> nat {
    match s {
        BorrowState::Free => 0,
        BorrowState::Shared { count } => count as nat,
        BorrowState::Exclusive => 1,
    }
}

/// The state after every outstanding borrow has been released, one by one.
pub open spec fn all_released(s: BorrowState) -> BorrowState
    decreases outstanding(s),
{
    match s {
        BorrowState::Free => BorrowState::Free,
        BorrowState::Shared { count } => if count == 0 {
            BorrowState::Free
        } else {
            all_released(shared_released(s))
        },
        BorrowState::Exclusive => all_released(exclusive_released(s)),
    }
}

/// A borrow tracker for one slot, confined to a single thread.
///
/// It decides whether a new shared or exclusive access to the slot may
/// proceed. There is no queueing: a conflicting request fails at once, is
/// never retried internally, and leaves the state untouched. The slots of
/// the resource store enforce this same discipline with an atomic count, so
/// that they can be reached from several threads; this plain variant states
/// the state machine exactly, and the laws below are proved over its
/// transitions.
pub struct BorrowTracker {
    state: BorrowState,
}

impl View for BorrowTracker {
    type V = BorrowState;

    closed spec fn view(&self) -> BorrowState {
        self.state
    }
}

impl BorrowTracker {
    /// Creates a tracker with no borrow outstanding.
    pub fn new() -> (t: BorrowTracker)
        ensures
            t@ == BorrowState::Free,
    {
        BorrowTracker { state: BorrowState::Free }
    }

    /// Requests one shared borrow; returns whether it was granted.
    pub fn try_acquire_shared(&mut self) -> (granted: bool)
        ensures
            (final(self)@, granted) == shared_requested(old(self)@),
    {
        match self.state {
            BorrowState::Free => {
                self.state = BorrowState::Shared { count: 1 };
                true
            },
            BorrowState::Shared { count } => {
                if count < u64::MAX {
                    self.state = BorrowState::Shared { count: count + 1 };
                    true
                } else {
                    false
                }
            },
            BorrowState::Exclusive => false,
        }
    }

    /// Requests the exclusive borrow; returns whether it was granted.
    pub fn try_acquire_exclusive(&mut self) -> (granted: bool)
        ensures
            (final(self)@, granted) == exclusive_requested(old(self)@),
    {
        match self.state {
            BorrowState::Free => {
                self.state = BorrowState::Exclusive;
                true
            },
            _ => false,
        }
    }

    /// Releases one outstanding shared borrow.
    pub fn release_shared(&mut self)
        requires
            old(self)@ is Shared,
        ensures
            final(self)@ == shared_released(old(self)@),
    {
        match self.state {
            BorrowState::Shared { count } => {
                if count <= 1 {
                    self.state = BorrowState::Free;
                } else {
                    self.state = BorrowState::Shared { count: count - 1 };
                }
            },
            _ => {},
        }
    }

    /// Releases the outstanding exclusive borrow.
    pub fn release_exclusive(&mut self)
        requires
            old(self)@ is Exclusive,
        ensures
            final(self)@ == exclusive_released(old(self)@),
    {
        self.state = BorrowState::Free;
    }
}

/// Shared borrows are mutually compatible: after a shared request is
/// granted, an exclusive request is refused, while a further shared request
/// is granted as long as the count has room.
pub proof fn lemma_shared_compatible(s: BorrowState)
    requires
        s.wf(),
        shared_requested(s).1,
    ensures
        ({
            let t = shared_requested(s).0;
            &&& !exclusive_requested(t).1
            &&& t matches BorrowState::Shared { count } && (count < u64::MAX
                ==> shared_requested(t).1)
        }),
{
}

/// The exclusive borrow excludes everything: after an exclusive request is
/// granted, every further request on the slot is refused until release.
pub proof fn lemma_exclusive_excludes(s: BorrowState)
    requires
        s.wf(),
        exclusive_requested(s).1,
    ensures
        !shared_requested(exclusive_requested(s).0).1,
        !exclusive_requested(exclusive_requested(s).0).1,
{
}

/// Admission is decided by the slot's state alone: an exclusive request is
/// granted exactly from `Free`, and a shared request exactly while no
/// exclusive borrow is outstanding and the count has room. In particular, no
/// two exclusive grants, and no exclusive grant beside a shared one, can
/// ever be outstanding together.
pub proof fn lemma_admission(s: BorrowState)
    requires
        s.wf(),
    ensures
        exclusive_requested(s).1 <==> s == BorrowState::Free,
        shared_requested(s).1 <==> (s == BorrowState::Free || (s matches BorrowState::Shared {
            count,
        } && count < u64::MAX)),
{
}

/// Releasing every outstanding borrow re-admits everyone: the slot returns
/// to `Free`, and a subsequent exclusive (or shared) request is granted.
pub proof fn lemma_release_readmits(s: BorrowState)
    requires
        s.wf(),
    ensures
        all_released(s) == BorrowState::Free,
        exclusive_requested(all_released(s)).1,
        shared_requested(all_released(s)).1,
    decreases outstanding(s),
{
    match s {
        BorrowState::Free => {},
        BorrowState::Shared { .. } => {
            lemma_release_readmits(shared_released(s));
        },
        BorrowState::Exclusive => {
            lemma_release_readmits(exclusive_released(s));
        },
    }
}

/// Every transition leaves the tracker in a reachable state.
pub proof fn lemma_transitions_preserve_wf(s: BorrowState)
    requires
        s.wf(),
    ensures
        shared_requested(s).0.wf(),
        exclusive_requested(s).0.wf(),
        shared_released(s).wf(),
        exclusive_released(s).wf(),
{
}

} // verus!
