use vstd::prelude::*;

verus! {

/// Single-flight coordination primitive: lets exactly one caller become the
/// leader of a refresh attempt while all others become followers.
///
/// The companion notification channel that suspends followers and wakes them
/// on release is owned by the embedding application; this type carries the
/// leadership state that the contracts speak about.
#[derive(Debug)]
pub struct RefreshGate {
    leader_active: bool,
}

impl RefreshGate {
    /// Whether a leader currently holds the refresh gate.
    pub closed spec fn is_leader_active(self) -> bool {
        self.leader_active
    }

    /// Whether a leader currently holds the refresh gate.
    pub fn leader_active(&self) -> (active: bool)
        ensures
            active == self.is_leader_active(),
    {
        self.leader_active
    }

    /// A gate with no active leader.
    pub fn new() -> (gate: RefreshGate)
        ensures
            !gate.is_leader_active(),
    {
        RefreshGate { leader_active: false }
    }

    /// Atomically claims leadership if none is active; returns whether the
    /// caller is now the leader.
    pub fn try_acquire(&mut self) -> (became_leader: bool)
        ensures
            final(self).is_leader_active(),
            became_leader == !old(self).is_leader_active(),
    {
        let became_leader: bool = !self.leader_active;
        self.leader_active = true;
        became_leader
    }

    /// Clears leadership. The caller runs this on every exit path of a
    /// refresh attempt — success, failure, or cancellation — so the outcome
    /// flag does not influence the result; the embedding application wakes
    /// all waiting followers right after this call returns.
    pub fn release(&mut self, _succeeded: bool)
        ensures
            !final(self).is_leader_active(),
    {
        self.leader_active = false;
    }
}

} // verus!
