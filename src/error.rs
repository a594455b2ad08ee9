use vstd::prelude::*;

verus! {

/// The ways in which the pool, or one of its workers, refuses a request.
#[derive(Debug, Clone, Copy, PartialEq, Eq, Structural)]
pub enum PoolError {
    /// A pool was asked for with no workers at all.
    InvalidPoolSize,
    /// A job was submitted after shutdown began, or after every receiver was gone.
    QueueClosed,
    /// A worker's thread handle was asked for after it had already been handed out.
    HandleAlreadyTaken,
    /// A worker's thread ended abnormally; this shows when it is joined.
    WorkerPanic,
}

} // verus!
