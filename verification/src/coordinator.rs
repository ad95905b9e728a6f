//! The interrupt coordinator: the single interruptability flag and the
//! arbitration of pending interrupt requests against it.

use vstd::prelude::*;

verus! {

/// Interruptability of the clip now rendering, as the driver publishes it
/// once per clip transition.
#[derive(Clone, Copy, Debug, PartialEq, Eq, Structural)]
pub enum PipelineStatus {
    /// The started clip is intended to be played completely.
    Continuous,
    /// The started clip may be cut short.
    Interruptable,
}

/// Owner of the interruptability flag. The driver is its only writer (one
/// status per clip transition, applied in the order emitted) and the
/// arbitration logic its only reader. At most one interrupt request is
/// outstanding; one that arrives while the flag is down stays pending --
/// deferred, never dropped -- and takes effect at the first check that finds
/// the flag up, which may be when a later interruptable clip begins, or
/// never, if playback ends first.
pub struct Coordinator {
    /// Whether the clip now rendering may be cut short.
    pub interruptable: bool,
    /// Whether an interrupt request is waiting to be honored.
    pub pending: bool,
}

/// One status update as the arbitration sees it: the coordinator state
/// after the update, and whether a pending request is honored by it.
pub open spec fn spec_status_step(c: Coordinator, status: PipelineStatus) -> (Coordinator, bool) {
    (
        Coordinator { interruptable: status == PipelineStatus::Interruptable, ..c },
        c.pending && status == PipelineStatus::Interruptable,
    )
}

/// A run of status updates: the coordinator state at the end (or at the
/// honoring update, where the session stops) and the index of the first
/// update that honors a pending request, if any does.
pub open spec fn spec_run_statuses(c: Coordinator, statuses: Seq<PipelineStatus>) -> (
    Coordinator,
    Option<int>,
)
    decreases statuses.len(),
{
    if statuses.len() == 0 {
        (c, None)
    } else {
        let step = spec_status_step(c, statuses[0]);
        if step.1 {
            (step.0, Some(0int))
        } else {
            let rest = spec_run_statuses(step.0, statuses.drop_first());
            (
                rest.0,
                match rest.1 {
                    Some(k) => Some(k + 1),
                    None => None::<int>,
                },
            )
        }
    }
}

/// Deferral law: a pending interrupt request is never dropped. Across any
/// run of status updates the request stays pending, it is not honored while
/// every update says the clip must play completely, and it is honored at
/// exactly the first update that says the clip is interruptable -- or never,
/// if no such update comes, in which case playback's own end moots it.
pub proof fn lemma_request_deferred_never_dropped(c: Coordinator, statuses: Seq<PipelineStatus>)
    requires
        c.pending,
    ensures
        ({
            let outcome = spec_run_statuses(c, statuses);
            &&& outcome.0.pending
            &&& (outcome.1 is None <==> forall|i: int|
                0 <= i < statuses.len() ==> statuses[i] != PipelineStatus::Interruptable)
            &&& (outcome.1 matches Some(k) ==> {
                &&& 0 <= k < statuses.len()
                &&& statuses[k] == PipelineStatus::Interruptable
                &&& forall|j: int| 0 <= j < k ==> statuses[j] != PipelineStatus::Interruptable
            })
        }),
    decreases statuses.len(),
{
    if statuses.len() > 0 {
        let step = spec_status_step(c, statuses[0]);
        if !step.1 {
            lemma_request_deferred_never_dropped(step.0, statuses.drop_first());
            let rest = spec_run_statuses(step.0, statuses.drop_first());
            match rest.1 {
                None => {
                    assert forall|i: int|
                        0 <= i < statuses.len() implies statuses[i]
                        != PipelineStatus::Interruptable by {
                        if i > 0 {
                            assert(statuses.drop_first()[i - 1] == statuses[i]);
                        }
                    }
                },
                Some(k) => {
                    assert(statuses.drop_first()[k] == statuses[k + 1]);
                    assert forall|j: int|
                        0 <= j < k + 1 implies statuses[j] != PipelineStatus::Interruptable by {
                        if j > 0 {
                            assert(statuses.drop_first()[j - 1] == statuses[j]);
                        }
                    }
                },
            }
        }
    }
}

impl Coordinator {
    /// A fresh coordinator: not interruptable, no request pending.
    pub fn new() -> (c: Coordinator)
        ensures
            c == (Coordinator { interruptable: false, pending: false }),
    {
        Coordinator { interruptable: false, pending: false }
    }

    /// Apply a driver status update, overwriting the flag: last write wins,
    /// since only the current clip's status matters. The session must stop
    /// exactly when a pending request becomes honorable by this update.
    pub fn on_status(&mut self, status: PipelineStatus) -> (stop: bool)
        ensures
            final(self).interruptable == (status == PipelineStatus::Interruptable),
            final(self).pending == old(self).pending,
            stop == (old(self).pending && status == PipelineStatus::Interruptable),
            (*final(self), stop) == spec_status_step(*old(self), status),
    {
        self.interruptable = match status {
            PipelineStatus::Continuous => false,
            PipelineStatus::Interruptable => true,
        };
        self.pending && self.interruptable
    }

    /// Take delivery of an interrupt request: honor it at once exactly when
    /// the flag is up, else leave it pending.
    pub fn on_interrupt(&mut self) -> (stop: bool)
        ensures
            final(self).interruptable == old(self).interruptable,
            final(self).pending,
            stop == old(self).interruptable,
    {
        self.pending = true;
        self.interruptable
    }

    /// The repeated arbitration check while a request is outstanding: the
    /// session stops as soon as a check finds a pending request against the
    /// current flag value, never a stale snapshot.
    pub fn honor_now(&self) -> (stop: bool)
        ensures
            stop == (self.pending && self.interruptable),
    {
        self.pending && self.interruptable
    }
}

} // verus!
