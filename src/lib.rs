//! A worker-thread lifecycle controller: the shared worker record, the
//! decisions of the background loop, and the controller-side transitions
//! of `init`, `update` and `stop`, each stated and proved; and the level
//! filtering and line layout of a simple log sink.

pub mod controller;
pub mod lifecycle;
pub mod logger;
pub mod worker;

pub use controller::{job_step, Controller, JobStep, WorkerError};
pub use logger::SimpleLogger;
pub use worker::{ThreadWorkerStatus, Worker};
