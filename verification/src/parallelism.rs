//! Units of work handed to the worker threads.
use vstd::prelude::*;
use crate::errors::EnkryptitError;

verus! {

/// A unit of work that a worker can run.
pub trait EnkryptitExecutable: Sized {
    type Output;

    /// Runs the work.
    fn execute(self) -> Result<Self::Output, EnkryptitError>;
}

/// A unit of work with its position among the jobs of a treatment.
pub struct EnkryptitJob<T: EnkryptitExecutable> {
    pub index: u64,
    pub task: T,
}

impl<T: EnkryptitExecutable> EnkryptitJob<T> {
    /// A job at the given position.
    pub fn new(index: u64, task: T) -> (res: Self)
        ensures
            res.index == index,
            res.task == task,
    {
        EnkryptitJob { index, task }
    }

    /// Runs the task of the job and hands back what it gives.
    pub fn execute(self) -> (res: Result<T::Output, EnkryptitError>)
        ensures
            call_ensures(T::execute, (self.task,), res),
    {
        self.task.execute()
    }
}

/// How many jobs may wait for a pool of `size` workers: twice the number
/// of workers, to bound memory; a pool without workers is refused.
pub fn job_queue_bound(size: usize) -> (res: Result<usize, EnkryptitError>)
    requires
        size <= usize::MAX / 2,
    ensures
        size == 0 ==> res == Err::<usize, EnkryptitError>(EnkryptitError::InvalidWorkerCount),
        size > 0 ==> res == Ok::<usize, EnkryptitError>((2 * size) as usize),
{
    if size == 0 {
        return Err(EnkryptitError::InvalidWorkerCount);
    }
    Ok(size * 2)
}

} // verus!
