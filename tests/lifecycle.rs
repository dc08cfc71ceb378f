use thread_worker::{job_step, Controller, JobStep, ThreadWorkerStatus, Worker, WorkerError};

#[test]
fn new_worker_is_idle_and_empty() {
    let w = Worker::new(1);
    assert_eq!(w.status(), ThreadWorkerStatus::Idle);
    assert_eq!(w.id(), 1);
    assert_eq!(w.value(), "");
}

#[test]
fn set_status_keeps_identity() {
    let mut w = Worker::new(42);
    w.set_status(ThreadWorkerStatus::Running);
    assert_eq!(w.status(), ThreadWorkerStatus::Running);
    assert_eq!(w.id(), 42);
    assert_eq!(w.value(), "");
}

#[test]
fn last_update_wins() {
    let mut w = Worker::new(7);
    let updates = [
        ThreadWorkerStatus::Running,
        ThreadWorkerStatus::Idle,
        ThreadWorkerStatus::Running,
        ThreadWorkerStatus::Stop,
        ThreadWorkerStatus::Idle,
    ];
    for s in updates {
        w.set_status(s);
    }
    assert_eq!(w.status(), ThreadWorkerStatus::Idle);
    assert_eq!(w.id(), 7);
}

#[test]
fn job_step_per_phase() {
    assert_eq!(job_step(ThreadWorkerStatus::Idle), JobStep::Wait);
    assert_eq!(job_step(ThreadWorkerStatus::Running), JobStep::Work);
    assert_eq!(job_step(ThreadWorkerStatus::Stop), JobStep::Exit);
}

#[test]
fn running_does_not_fall_back_to_idle() {
    let mut w = Worker::new(1);
    w.set_status(ThreadWorkerStatus::Running);
    for _ in 0..3 {
        assert_eq!(job_step(w.status()), JobStep::Work);
    }
    assert_eq!(w.status(), ThreadWorkerStatus::Running);
}

#[test]
fn stop_before_init_is_a_no_op() {
    let mut c: Controller<u32> = Controller::new();
    let mut w = Worker::new(1);
    assert_eq!(c.stop(&mut w), None);
    assert!(!c.is_initialized());
    assert_eq!(w.status(), ThreadWorkerStatus::Idle);
}

#[test]
fn init_after_stop_succeeds() {
    let mut c: Controller<u32> = Controller::new();
    let mut w = Worker::new(1);
    assert_eq!(c.init(|| 10), Ok(()));
    assert_eq!(c.stop(&mut w), Some(10));
    assert_eq!(w.status(), ThreadWorkerStatus::Stop);
    assert!(!c.is_initialized());
    assert_eq!(c.init(|| 20), Ok(()));
    assert!(c.is_initialized());
    assert_eq!(c.stop(&mut w), Some(20));
}

#[test]
fn second_init_is_refused() {
    let mut c: Controller<u32> = Controller::new();
    let mut spawned: u32 = 0;
    assert_eq!(
        c.init(|| {
            spawned += 1;
            1
        }),
        Ok(())
    );
    assert_eq!(
        c.init(|| {
            spawned += 1;
            2
        }),
        Err(WorkerError::AlreadyInitialized)
    );
    assert_eq!(spawned, 1);
    let mut w = Worker::new(1);
    assert_eq!(c.stop(&mut w), Some(1));
}

#[test]
fn running_then_stop_exits_the_loop() {
    let mut c: Controller<u32> = Controller::new();
    let mut w = Worker::new(1);
    assert_eq!(c.init(|| 5), Ok(()));
    w.set_status(ThreadWorkerStatus::Running);
    w.set_status(ThreadWorkerStatus::Stop);
    assert_eq!(job_step(w.status()), JobStep::Exit);
    assert_eq!(c.stop(&mut w), Some(5));
    assert_eq!(job_step(w.status()), JobStep::Exit);
}

#[test]
fn construct_init_run_stop_scenario() {
    let mut c: Controller<u32> = Controller::new();
    let mut w = Worker::new(1);
    let mut live: u32 = 0;
    assert_eq!(
        c.init(|| {
            live += 1;
            99
        }),
        Ok(())
    );
    assert_eq!(live, 1);
    assert!(c.is_initialized());
    assert_eq!(job_step(w.status()), JobStep::Wait);
    w.set_status(ThreadWorkerStatus::Running);
    assert_eq!(job_step(w.status()), JobStep::Work);
    assert_eq!(c.stop(&mut w), Some(99));
    assert!(!c.is_initialized());
    assert_eq!(job_step(w.status()), JobStep::Exit);
}

#[test]
fn stop_without_loop_keeps_phase() {
    let mut c: Controller<u32> = Controller::new();
    let mut w = Worker::new(3);
    w.set_status(ThreadWorkerStatus::Running);
    assert_eq!(c.stop(&mut w), None);
    assert_eq!(w.status(), ThreadWorkerStatus::Running);
}

#[test]
fn errors_are_distinct() {
    assert_ne!(WorkerError::AlreadyInitialized, WorkerError::LockPoisoned);
}
