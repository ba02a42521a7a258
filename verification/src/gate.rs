//! The admission gate: a counting permit pool that bounds how many fetch
//! pipelines may be active at once.
//!
//! A task keeps its permit from before its fetch begins until its parse is
//! done and gives it back whether the task succeeded or failed, so the cap
//! applies to whole pipelines and not only to open connections. `gate_step`
//! gives the transition relation, and `lemma_gate_never_exceeds_bound` shows
//! that no event sequence can drive the permit count past the cap.

use vstd::prelude::*;

verus! {

/// One event in the life of a gate: a task asking for a permit, or a task
/// giving its permit back.
pub enum GateEvent {
    Acquire,
    Release,
}

/// How many permits are outstanding after one event, given the bound and the
/// count before it: an acquire is granted only below the bound, and a release
/// of a permit is only possible while one is outstanding.
pub open spec fn gate_step(bound: nat, active: nat, event: GateEvent) -> nat {
    match event {
        GateEvent::Acquire => if active < bound {
            active + 1
        } else {
            active
        },
        GateEvent::Release => if active >= 1 {
            (active - 1) as nat
        } else {
            active
        },
    }
}

/// How many permits are outstanding after a sequence of events, starting from
/// an idle gate.
pub open spec fn gate_active_after(bound: nat, events: Seq<GateEvent>) -> nat
    decreases events.len(),
{
    if events.len() == 0 {
        0
    } else {
        gate_step(bound, gate_active_after(bound, events.drop_last()), events.last())
    }
}

/// No event sequence drives the permit count past `bound`: however the
/// acquires and releases interleave, at most `bound` permits are ever out at
/// once.
pub proof fn lemma_gate_never_exceeds_bound(bound: nat, events: Seq<GateEvent>)
    ensures
        gate_active_after(bound, events) <= bound,
    decreases events.len(),
{
    if events.len() > 0 {
        lemma_gate_never_exceeds_bound(bound, events.drop_last());
    }
}

/// A counting permit pool with a caller-chosen positive bound.
pub struct AdmissionGate {
    bound: usize,
    active: usize,
}

impl AdmissionGate {
    /// The configured concurrency bound.
    pub closed spec fn bound_spec(self) -> nat {
        self.bound as nat
    }

    /// How many permits are currently outstanding.
    pub closed spec fn active_spec(self) -> nat {
        self.active as nat
    }

    /// Well-formedness: the cap is positive and the permit count is within
    /// it.
    pub open spec fn wf(self) -> bool {
        1 <= self.bound_spec() && self.active_spec() <= self.bound_spec()
    }

    /// A new idle gate with the given positive bound.
    pub fn new(bound: usize) -> (gate: AdmissionGate)
        requires
            1 <= bound,
        ensures
            gate.wf(),
            gate.bound_spec() == bound,
            gate.active_spec() == 0,
    {
        AdmissionGate { bound, active: 0 }
    }

    /// Ask for a permit, granted exactly when the count is under the cap;
    /// the count then moves as `gate_step` prescribes for an acquire event.
    pub fn try_acquire(&mut self) -> (granted: bool)
        requires
            old(self).wf(),
        ensures
            final(self).wf(),
            final(self).bound_spec() == old(self).bound_spec(),
            granted <==> old(self).active_spec() < old(self).bound_spec(),
            final(self).active_spec() == gate_step(
                old(self).bound_spec(),
                old(self).active_spec(),
                GateEvent::Acquire,
            ),
    {
        if self.active < self.bound {
            self.active = self.active + 1;
            true
        } else {
            false
        }
    }

    /// Give an outstanding permit back; the count moves as `gate_step` says
    /// for a release event.
    pub fn release(&mut self)
        requires
            old(self).wf(),
            1 <= old(self).active_spec(),
        ensures
            final(self).wf(),
            final(self).bound_spec() == old(self).bound_spec(),
            final(self).active_spec() == gate_step(
                old(self).bound_spec(),
                old(self).active_spec(),
                GateEvent::Release,
            ),
    {
        self.active = self.active - 1;
    }
}

} // verus!
