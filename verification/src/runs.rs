//! Runs of a task: a sequence of events fed one by one to a step function,
//! and the marks (observable actions) that the steps leave.  The whole-run
//! laws of the tasks are stated over these runs.
use vstd::prelude::*;

verus! {

/// Feeds `events` one by one to `step`, starting from `s`.  A step gives the
/// next state and the marks it leaves, or `None` where the event cannot be
/// taken in that state (or the task faults), which ends the run: then the
/// whole run is `None`.  Otherwise the result is the final state and all the
/// marks in order.
pub open spec fn run<S, E, M>(step: spec_fn(S, E) -> Option<(S, Seq<M>)>, s: S, events: Seq<E>) -> Option<(S, Seq<M>)>
    decreases events.len(),
{
    if events.len() == 0 {
        Some((s, Seq::empty()))
    } else {
        match run(step, s, events.drop_last()) {
            None => None,
            Some((s1, t1)) => match step(s1, events.last()) {
                None => None,
                Some((s2, t2)) => Some((s2, t1 + t2)),
            },
        }
    }
}

/// A run that completes has a completed run of all but its last event, whose
/// marks come first.
pub proof fn lemma_run_prefix<S, E, M>(step: spec_fn(S, E) -> Option<(S, Seq<M>)>, s: S, events: Seq<E>)
    requires
        events.len() > 0,
        run(step, s, events) is Some,
    ensures
        run(step, s, events.drop_last()) is Some,
        step(run(step, s, events.drop_last())->Some_0.0, events.last()) is Some,
        run(step, s, events)->Some_0.0 == step(run(step, s, events.drop_last())->Some_0.0, events.last())->Some_0.0,
        run(step, s, events)->Some_0.1 == run(step, s, events.drop_last())->Some_0.1
            + step(run(step, s, events.drop_last())->Some_0.0, events.last())->Some_0.1,
{
}

} // verus!
