//! The concurrency gate: a process-wide admission control with capacity
//! exactly one, held only around the resource-heavy separation step.
//!
//! The surrounding process realizes this admission control with an
//! asynchronous semaphore; this module is its model: what acquiring and
//! releasing mean, and the proof that under these rules two holders can
//! never overlap.

use vstd::prelude::*;

verus! {

/// The single permit, as the pipeline sees it.
pub struct ConcurrencyGate {
    pub held: bool,
}

impl ConcurrencyGate {
    /// A fresh gate; the permit is available.
    pub fn new() -> (r: ConcurrencyGate)
        ensures
            !r.held,
    {
        ConcurrencyGate { held: false }
    }

    /// Takes the permit when it is available; refused otherwise.
    pub fn try_acquire(&mut self) -> (r: bool)
        ensures
            r == !old(self).held,
            final(self).held,
    {
        let was_free = !self.held;
        self.held = true;
        was_free
    }

    /// Returns the permit.
    pub fn release(&mut self)
        requires
            old(self).held,
        ensures
            !final(self).held,
    {
        self.held = false;
    }
}

/// One acquisition or release of the permit.
pub enum GateEvent {
    Acquire,
    Release,
}

/// What one event does to the permit: acquiring needs it free, releasing
/// needs it held; anything else is inadmissible.
pub open spec fn gate_step(held: bool, ev: GateEvent) -> Option<bool> {
    match ev {
        GateEvent::Acquire => if held {
            None
        } else {
            Some(true)
        },
        GateEvent::Release => if held {
            Some(false)
        } else {
            None
        },
    }
}

/// The permit's state after a trace of events, from the free state;
/// `None` when some event of the trace was inadmissible.
pub open spec fn gate_run(trace: Seq<GateEvent>) -> Option<bool>
    decreases trace.len(),
{
    if trace.len() == 0 {
        Some(false)
    } else {
        match gate_run(trace.drop_last()) {
            None => None,
            Some(h) => gate_step(h, trace.last()),
        }
    }
}

/// A trace whose every event is admissible.
pub open spec fn admitted(trace: Seq<GateEvent>) -> bool {
    gate_run(trace) is Some
}

/// Every prefix of an admitted trace is admitted.
pub proof fn lemma_prefix_admitted(trace: Seq<GateEvent>, m: int)
    requires
        admitted(trace),
        0 <= m <= trace.len(),
    ensures
        admitted(trace.take(m)),
    decreases trace.len() - m,
{
    if m < trace.len() {
        lemma_prefix_admitted(trace, m + 1);
        assert(trace.take(m + 1).drop_last() =~= trace.take(m));
    } else {
        assert(trace.take(m) =~= trace);
    }
}

/// In an admitted trace, any two acquisitions are separated by a release:
/// the second holder's window cannot open before the first holder's window
/// has closed, so two holders never overlap.
pub proof fn lemma_no_overlapping_holders(trace: Seq<GateEvent>, i: int, j: int)
    requires
        admitted(trace),
        0 <= i < j < trace.len(),
        trace[i] is Acquire,
        trace[j] is Acquire,
    ensures
        exists|k: int| i < k < j && (#[trigger] trace[k]) is Release,
{
    lemma_prefix_admitted(trace, i + 1);
    lemma_prefix_admitted(trace, j);
    lemma_prefix_admitted(trace, j + 1);
    assert(trace.take(i + 1).drop_last() =~= trace.take(i));
    assert(trace.take(j + 1).drop_last() =~= trace.take(j));
    lemma_prefix_admitted(trace.take(i + 1), i);
    // After the acquisition at `i` the permit is held.
    assert(gate_run(trace.take(i + 1)) == Some(true));
    // The acquisition at `j` is admitted, so the permit is free before it.
    assert(gate_run(trace.take(j)) == Some(false));
    // Only a release frees the permit, so the event before `j` is one;
    // and it lies strictly after `i` because the permit is held at `i + 1`.
    if i + 1 == j {
        assert(false);
    }
    assert(trace.take(j).drop_last() =~= trace.take(j - 1));
    assert(gate_step(gate_run(trace.take(j - 1))->0, trace[j - 1]) == Some(false));
    assert(trace[j - 1] is Release);
}

} // verus!
