use vstd::prelude::*;

use crate::worker::{ThreadWorkerStatus, Worker};

verus! {

/// The failures of the controller.
#[derive(PartialEq, Eq, Structural, Clone, Copy, Debug)]
pub enum WorkerError {
    /// `init` was called while a background loop handle is held.
    AlreadyInitialized,
    /// The shared lock was poisoned by a panic of a former holder.
    LockPoisoned,
}

/// What the background loop does after reading the phase under the lock.
#[derive(PartialEq, Eq, Structural, Clone, Copy, Debug)]
pub enum JobStep {
    /// Keep waiting on the condition variable.
    Wait,
    /// Do one unit of work, release the lock, sleep, and read the phase again.
    Work,
    /// Leave the loop.
    Exit,
}

/// The step that the background loop takes in a given phase.
pub open spec fn step_of(status: ThreadWorkerStatus) -> JobStep {
    match status {
        ThreadWorkerStatus::Idle => JobStep::Wait,
        ThreadWorkerStatus::Running => JobStep::Work,
        ThreadWorkerStatus::Stop => JobStep::Exit,
    }
}

/// Decides the background loop's next step from the phase it read.
/// The loop only reads the phase: it never writes it back, so a `Running`
/// worker keeps working every cycle until it is moved to `Stop`.
pub fn job_step(status: ThreadWorkerStatus) -> (r: JobStep)
    ensures
        r == step_of(status),
        r == JobStep::Wait <==> status == ThreadWorkerStatus::Idle,
        r == JobStep::Work <==> status == ThreadWorkerStatus::Running,
        r == JobStep::Exit <==> status == ThreadWorkerStatus::Stop,
{
    match status {
        ThreadWorkerStatus::Idle => JobStep::Wait,
        ThreadWorkerStatus::Running => JobStep::Work,
        ThreadWorkerStatus::Stop => JobStep::Exit,
    }
}

/// The controller side of a worker: the handle of its background loop, if
/// one is held. `H` is the handle type of whatever runs the loop.
pub struct Controller<H> {
    job: Option<H>,
}

impl<H> Controller<H> {
    /// The handle held, if any.
    pub closed spec fn job(&self) -> Option<H> {
        self.job
    }

    /// A background loop is active or not yet joined.
    pub open spec fn is_active(&self) -> bool {
        self.job() is Some
    }

    /// What `init` returns from this state.
    pub open spec fn init_result(&self) -> Result<(), WorkerError> {
        if self.is_active() {
            Err(WorkerError::AlreadyInitialized)
        } else {
            Ok(())
        }
    }

    /// The state after `init`, where `handle` is what a spawn would give.
    pub closed spec fn after_init(self, handle: H) -> Controller<H> {
        if self.is_active() {
            self
        } else {
            Controller { job: Some(handle) }
        }
    }

    /// The state after `stop`: no handle is held.
    pub closed spec fn after_stop(self) -> Controller<H> {
        Controller { job: None }
    }

    /// `init` stores the spawned handle exactly when none is held, and `stop`
    /// drops whatever is held.
    pub proof fn lemma_transitions(self, handle: H)
        ensures
            !self.is_active() ==> self.after_init(handle).job() == Some(handle),
            self.is_active() ==> self.after_init(handle) == self,
            self.after_stop().job() is None,
            !self.is_active() ==> self.after_stop() == self,
    {
    }

    /// A controller with no background loop.
    pub fn new() -> (c: Controller<H>)
        ensures
            !c.is_active(),
    {
        Controller { job: None }
    }

    /// Whether a background loop handle is held.
    pub fn is_initialized(&self) -> (r: bool)
        ensures
            r == self.is_active(),
    {
        self.job.is_some()
    }

    /// Starts the background loop through `spawn` unless one is already
    /// held; `spawn` is called exactly when the result is `Ok`.
    pub fn init<F: FnOnce() -> H>(&mut self, spawn: F) -> (r: Result<(), WorkerError>)
        requires
            !old(self).is_active() ==> spawn.requires(()),
        ensures
            r == old(self).init_result(),
            final(self).is_active(),
            old(self).is_active() ==> *final(self) == *old(self),
            !old(self).is_active() ==> (final(self).job() matches Some(h) && spawn.ensures((), h)
                && *final(self) == old(self).after_init(h)),
    {
        if self.job.is_some() {
            return Err(WorkerError::AlreadyInitialized);
        }
        let handle = spawn();
        self.job = Some(handle);
        Ok(())
    }

    /// Signals the background loop to stop, under the lock that guards
    /// `worker`, and hands back its handle for the caller to join. Without
    /// a handle nothing changes and there is nothing to join.
    pub fn stop(&mut self, worker: &mut Worker) -> (r: Option<H>)
        ensures
            r == old(self).job(),
            *final(self) == old(self).after_stop(),
            !final(self).is_active(),
            *final(worker) == stop_worker(*old(worker), old(self).is_active()),
            final(worker).spec_status() == (if old(self).is_active() {
                ThreadWorkerStatus::Stop
            } else {
                old(worker).spec_status()
            }),
            final(worker).spec_id() == old(worker).spec_id(),
            final(worker).spec_value() == old(worker).spec_value(),
    {
        let job = self.job.take();
        if job.is_some() {
            worker.set_status(ThreadWorkerStatus::Stop);
        }
        job
    }
}

/// The worker record after `stop`, given whether a loop was active.
pub open spec fn stop_worker(w: Worker, active: bool) -> Worker {
    if active {
        w.with_status(ThreadWorkerStatus::Stop)
    } else {
        w
    }
}

} // verus!
