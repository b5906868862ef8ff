//! The decisions of running an operation off the caller's context: the work runs at most
//! once, its outcome is delivered at most once, and nothing is delivered once the caller
//! has gone.
use vstd::prelude::*;

verus! {

/// Where a scheduled operation stands.
#[derive(Clone, Copy, Debug, PartialEq, Eq, Structural)]
pub enum Phase {
    /// Queued, not yet run.
    Scheduled,
    /// Run, and its outcome delivered.
    Settled,
    /// Its caller went away before it ran.
    Cancelled,
}

/// What happens to a scheduled operation.
#[derive(Clone, Copy, Debug, PartialEq, Eq, Structural)]
pub enum TaskEvent {
    /// The execution context reaches the operation.
    Run,
    /// The caller's context is torn down.
    Cancel,
}

/// What the execution context must do on an event.
#[derive(Clone, Copy, Debug, PartialEq, Eq, Structural)]
pub enum TaskAction {
    /// Perform the work and deliver its outcome.
    Deliver,
    /// Do nothing.
    Nothing,
}

/// The transition of a scheduled operation on an event.
pub open spec fn task_step(phase: Phase, event: TaskEvent) -> (Phase, TaskAction) {
    match (phase, event) {
        (Phase::Scheduled, TaskEvent::Run) => (Phase::Settled, TaskAction::Deliver),
        (Phase::Scheduled, TaskEvent::Cancel) => (Phase::Cancelled, TaskAction::Nothing),
        (p, _) => (p, TaskAction::Nothing),
    }
}

/// How many deliveries a run of events causes from a phase.
pub open spec fn deliveries(phase: Phase, events: Seq<TaskEvent>) -> nat
    decreases events.len(),
{
    if events.len() == 0 {
        0
    } else {
        let (next, action) = task_step(phase, events[0]);
        (if action == TaskAction::Deliver {
            1nat
        } else {
            0nat
        }) + deliveries(next, events.drop_first())
    }
}

/// Advances a scheduled operation on an event, and says what to do.
pub fn step(phase: Phase, event: TaskEvent) -> (r: (Phase, TaskAction))
    ensures
        r == task_step(phase, event),
{
    match (phase, event) {
        (Phase::Scheduled, TaskEvent::Run) => (Phase::Settled, TaskAction::Deliver),
        (Phase::Scheduled, TaskEvent::Cancel) => (Phase::Cancelled, TaskAction::Nothing),
        (p, _) => (p, TaskAction::Nothing),
    }
}

/// Whatever events follow, an operation is delivered at most once; one that is settled or
/// cancelled is never delivered again.
pub proof fn lemma_delivered_at_most_once(phase: Phase, events: Seq<TaskEvent>)
    ensures
        deliveries(phase, events) <= 1,
        phase != Phase::Scheduled ==> deliveries(phase, events) == 0,
    decreases events.len(),
{
    if events.len() > 0 {
        let (next, _) = task_step(phase, events[0]);
        lemma_delivered_at_most_once(next, events.drop_first());
    }
}

/// An operation that is cancelled before it runs is never delivered.
pub proof fn lemma_cancelled_never_delivered(events: Seq<TaskEvent>)
    ensures
        deliveries(Phase::Scheduled, seq![TaskEvent::Cancel] + events) == 0,
{
    let all = seq![TaskEvent::Cancel] + events;
    assert(all[0] == TaskEvent::Cancel);
    assert(all.drop_first() =~= events);
    lemma_delivered_at_most_once(Phase::Cancelled, events);
}

} // verus!
