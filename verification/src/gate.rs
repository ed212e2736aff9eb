use vstd::prelude::*;

verus! {

/// Single-flight guard serializing probe executions, a two-state machine:
/// `Idle` (no probe running) and `Busy` (one probe running). A
/// request must acquire the slot before launching the external tool and must
/// release it on every exit path, success or failure alike. The surrounding
/// service wraps this guard in its blocking mutual-exclusion primitive; this
/// type carries the state logic that the primitive protects.
pub struct ProbeGate {
    pub busy: bool,
}

/// Gate transition on an acquisition attempt: an idle gate becomes busy and
/// grants the slot; a busy gate is unchanged and denies it.
pub open spec fn acquire_transition(g: ProbeGate) -> (ProbeGate, bool) {
    if g.is_idle() {
        (ProbeGate { busy: true }, true)
    } else {
        (g, false)
    }
}

/// Transition on release: back to idle unconditionally,
/// whatever state it was in.
pub open spec fn release_transition(g: ProbeGate) -> ProbeGate {
    ProbeGate { busy: false }
}

impl ProbeGate {
    /// No probe is running.
    pub open spec fn is_idle(self) -> bool {
        !self.busy
    }

    /// A probe is running.
    pub open spec fn is_busy(self) -> bool {
        self.busy
    }

    /// A fresh gate starts idle.
    pub fn new() -> (g: ProbeGate)
        ensures
            g.is_idle(),
    {
        ProbeGate { busy: false }
    }

    /// Attempts to take the single probe slot. Grants it exactly when the
    /// guard was idle; a denied attempt changes nothing.
    pub fn try_acquire(&mut self) -> (granted: bool)
        ensures
            granted == old(self).is_idle(),
            *final(self) == acquire_transition(*old(self)).0,
            granted ==> final(self).is_busy(),
            !granted ==> *final(self) == *old(self),
    {
        if self.busy {
            false
        } else {
            self.busy = true;
            true
        }
    }

    /// Returns to idle. Callers run this on every exit path, so a failed
    /// probe can never leave the slot stuck busy.
    pub fn release(&mut self)
        ensures
            *final(self) == release_transition(*old(self)),
            final(self).is_idle(),
    {
        self.busy = false;
    }
}

/// Mutual exclusion: once an acquisition is granted, every further
/// acquisition attempt is denied until the holder releases — two probe
/// executions can never be granted overlapping slots.
pub proof fn lemma_gate_mutual_exclusion(g: ProbeGate)
    requires
        acquire_transition(g).1,
    ensures
        !acquire_transition(acquire_transition(g).0).1,
{
}

/// Release on failure: whatever happened to the probe that held the slot,
/// after a release it is idle again and the next acquisition attempt is
/// granted.
pub proof fn lemma_gate_release_reopens(g: ProbeGate)
    ensures
        release_transition(g).is_idle(),
        acquire_transition(release_transition(g)).1,
{
}

} // verus!
