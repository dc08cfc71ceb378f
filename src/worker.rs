use vstd::prelude::*;

verus! {

/// The lifecycle phase of a worker.
#[derive(PartialEq, Eq, Structural, Clone, Copy, Debug)]
pub enum ThreadWorkerStatus {
    /// No work requested: the background loop parks.
    Idle,
    /// Work requested: the background loop does one unit of work per cycle.
    Running,
    /// Terminal: the background loop exits.
    Stop,
}

/// The record shared between the controller and its background loop.
pub struct Worker {
    status: ThreadWorkerStatus,
    value: String,
    id: u32,
}

impl Worker {
    /// The current phase.
    pub closed spec fn spec_status(&self) -> ThreadWorkerStatus {
        self.status
    }

    /// The identity given at construction.
    pub closed spec fn spec_id(&self) -> u32 {
        self.id
    }

    /// The text payload.
    pub closed spec fn spec_value(&self) -> Seq<char> {
        self.value@
    }

    /// This record with its phase replaced by `status`.
    pub closed spec fn with_status(self, status: ThreadWorkerStatus) -> Worker {
        Worker { status, ..self }
    }

    /// Replacing the phase changes the phase alone.
    pub proof fn lemma_with_status(self, status: ThreadWorkerStatus)
        ensures
            self.with_status(status).spec_status() == status,
            self.with_status(status).spec_id() == self.spec_id(),
            self.with_status(status).spec_value() == self.spec_value(),
            self.spec_status() == status ==> self.with_status(status) == self,
    {
    }

    /// A record with the given identity, in phase `Idle`, with an empty payload.
    pub fn new(id: u32) -> (w: Worker)
        ensures
            w.spec_status() == ThreadWorkerStatus::Idle,
            w.spec_id() == id,
            w.spec_value() == Seq::<char>::empty(),
    {
        Worker { status: ThreadWorkerStatus::Idle, value: String::new(), id }
    }

    pub fn status(&self) -> (r: ThreadWorkerStatus)
        ensures
            r == self.spec_status(),
    {
        self.status
    }

    pub fn id(&self) -> (r: u32)
        ensures
            r == self.spec_id(),
    {
        self.id
    }

    pub fn value(&self) -> (r: &str)
        ensures
            r@ == self.spec_value(),
    {
        self.value.as_str()
    }

    /// Overwrites the phase unconditionally; identity and payload are kept.
    pub fn set_status(&mut self, status: ThreadWorkerStatus)
        ensures
            *final(self) == old(self).with_status(status),
            final(self).spec_status() == status,
            final(self).spec_id() == old(self).spec_id(),
            final(self).spec_value() == old(self).spec_value(),
    {
        self.status = status;
    }
}

} // verus!
