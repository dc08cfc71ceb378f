use vstd::prelude::*;

use crate::controller::{step_of, stop_worker, Controller, JobStep, WorkerError};
use crate::worker::{ThreadWorkerStatus, Worker};

verus! {

/// The record after a series of `update` calls, applied in order.
pub open spec fn apply_updates(w: Worker, updates: Seq<ThreadWorkerStatus>) -> Worker
    decreases updates.len(),
{
    if updates.len() == 0 {
        w
    } else {
        apply_updates(w, updates.drop_last()).with_status(updates.last())
    }
}

/// After any series of updates the phase is the last one written, and the
/// identity and payload are those the record had before.
pub proof fn lemma_last_update_wins(w: Worker, updates: Seq<ThreadWorkerStatus>)
    requires
        updates.len() > 0,
    ensures
        apply_updates(w, updates).spec_status() == updates.last(),
        apply_updates(w, updates).spec_id() == w.spec_id(),
        apply_updates(w, updates).spec_value() == w.spec_value(),
    decreases updates.len(),
{
    lemma_updates_keep_record(w, updates);
}

/// Updates change the phase only.
proof fn lemma_updates_keep_record(w: Worker, updates: Seq<ThreadWorkerStatus>)
    ensures
        apply_updates(w, updates).spec_id() == w.spec_id(),
        apply_updates(w, updates).spec_value() == w.spec_value(),
        updates.len() == 0 ==> apply_updates(w, updates) == w,
        updates.len() > 0 ==> apply_updates(w, updates).spec_status() == updates.last(),
    decreases updates.len(),
{
    if updates.len() > 0 {
        lemma_updates_keep_record(w, updates.drop_last());
        apply_updates(w, updates.drop_last()).lemma_with_status(updates.last());
    }
}

/// Stopping a controller that holds no background loop succeeds with
/// nothing to join, and leaves both the controller and the record as they were.
pub proof fn lemma_stop_before_init<H>(c: Controller<H>, w: Worker)
    requires
        !c.is_active(),
    ensures
        c.job() is None,
        c.after_stop() == c,
        stop_worker(w, c.is_active()) == w,
{
    c.lemma_transitions(arbitrary());
}

/// After `init` and `stop`, the controller can be started again.
pub proof fn lemma_init_after_stop<H>(c: Controller<H>, first: H, second: H)
    ensures
        c.after_init(first).is_active(),
        !c.after_init(first).after_stop().is_active(),
        c.after_init(first).after_stop().init_result() == Ok::<(), WorkerError>(()),
        c.after_init(first).after_stop().after_init(second).job() == Some(second),
{
    c.lemma_transitions(first);
    c.after_init(first).lemma_transitions(second);
    c.after_init(first).after_stop().lemma_transitions(second);
}

/// A second `init` without a `stop` in between is refused, and keeps the
/// loop that the first one started.
pub proof fn lemma_second_init_refused<H>(c: Controller<H>, first: H, second: H)
    requires
        !c.is_active(),
    ensures
        c.after_init(first).init_result() == Err::<(), WorkerError>(WorkerError::AlreadyInitialized),
        c.after_init(first).after_init(second) == c.after_init(first),
        c.after_init(first).job() == Some(first),
{
    c.lemma_transitions(first);
    c.after_init(first).lemma_transitions(second);
}

/// Once `Running` is followed by `Stop`, the background loop leaves at its
/// next reading of the phase, whatever came before; `stop` keeps it so.
pub proof fn lemma_stop_after_running(w: Worker, active: bool)
    ensures
        step_of(w.with_status(ThreadWorkerStatus::Running).with_status(
            ThreadWorkerStatus::Stop,
        ).spec_status()) == JobStep::Exit,
        step_of(stop_worker(
            w.with_status(ThreadWorkerStatus::Running).with_status(ThreadWorkerStatus::Stop),
            active,
        ).spec_status()) == JobStep::Exit,
{
    w.lemma_with_status(ThreadWorkerStatus::Running);
    w.with_status(ThreadWorkerStatus::Running).lemma_with_status(ThreadWorkerStatus::Stop);
    w.with_status(ThreadWorkerStatus::Running).with_status(
        ThreadWorkerStatus::Stop,
    ).lemma_with_status(ThreadWorkerStatus::Stop);
}

} // verus!
