//! Jobs handed to the workers.

use eck::errors::EnkryptitError;
use eck::parallelism::{job_queue_bound, EnkryptitExecutable, EnkryptitJob};

/// A trivial executable that returns its value.
struct EchoJob {
    value: u64,
}

impl EnkryptitExecutable for EchoJob {
    type Output = u64;

    fn execute(self) -> Result<Self::Output, EnkryptitError> {
        Ok(self.value)
    }
}

/// An executable that always fails.
struct FailingJob;

impl EnkryptitExecutable for FailingJob {
    type Output = ();

    fn execute(self) -> Result<Self::Output, EnkryptitError> {
        Err(EnkryptitError::Encryption)
    }
}

#[test]
fn enkryptit_job_executes_its_task() {
    let job = EnkryptitJob::new(3, EchoJob { value: 42 });
    assert_eq!(job.index, 3);
    assert_eq!(job.execute().unwrap(), 42);
}

#[test]
fn executable_trait_is_usable() {
    let job = EnkryptitJob::new(7, EchoJob { value: 7 });
    let output: u64 = job.task.execute().unwrap();
    assert_eq!(output, 7);
}

#[test]
fn job_propagates_execution_errors() {
    let job = EnkryptitJob::new(0, FailingJob);
    assert_eq!(job.execute(), Err(EnkryptitError::Encryption));
}

#[test]
fn job_queue_bound_rejects_zero_workers() {
    assert_eq!(job_queue_bound(0), Err(EnkryptitError::InvalidWorkerCount));
}

#[test]
fn job_queue_bound_is_twice_the_workers() {
    assert_eq!(job_queue_bound(1), Ok(2));
    assert_eq!(job_queue_bound(4), Ok(8));
}
