use crate::error::PoolError;
use crate::slot::Slot;
use vstd::prelude::*;

verus! {

/// One member of the pool: an id fixed at construction and the handle of the
/// thread that runs its loop, which can be handed out exactly once.
pub struct Worker<H> {
    id: usize,
    thread: Slot<H>,
}

impl<H> Worker<H> {
    /// The id given at construction.
    pub closed spec fn worker_id(&self) -> usize {
        self.id
    }

    /// The thread handle's slot: held until `take_thread` hands it out.
    pub closed spec fn handle_slot(&self) -> Slot<H> {
        self.thread
    }

    /// What `take_thread` returns for this worker.
    pub open spec fn take_outcome(&self) -> Result<H, PoolError> {
        match self.handle_slot() {
            Slot::Held(h) => Ok(h),
            Slot::Taken => Err(PoolError::HandleAlreadyTaken),
        }
    }

    /// The worker as `take_thread` leaves it: same id, empty slot.
    pub closed spec fn after_take(&self) -> Worker<H> {
        Worker { id: self.id, thread: Slot::Taken }
    }

    /// Whether the worker still holds its thread handle.
    pub open spec fn holds_thread(&self) -> bool {
        self.handle_slot() is Held
    }

    /// Starts a worker: `spawn` is handed the id and the shared receiving end
    /// and returns the handle of the thread it started, which the worker keeps.
    pub fn new<R, F: Fn(usize, &R) -> H>(id: usize, receiver: &R, spawn: &F) -> (w: Worker<H>)
        requires
            spawn.requires((id, receiver)),
        ensures
            w.worker_id() == id,
            match w.handle_slot() {
                Slot::Held(h) => spawn.ensures((id, receiver), h),
                Slot::Taken => false,
            },
    {
        let thread = spawn(id, receiver);
        Worker { id, thread: Slot::Held(thread) }
    }

    /// The id given at construction.
    pub fn get_id(&self) -> (r: usize)
        ensures
            r == self.worker_id(),
    {
        self.id
    }

    /// Whether the thread handle is still here to be taken.
    pub fn has_thread(&self) -> (r: bool)
        ensures
            r == self.holds_thread(),
    {
        self.thread.is_held()
    }

    /// Hands the thread handle to the caller. A second call finds the slot
    /// empty and fails with `HandleAlreadyTaken`.
    pub fn take_thread(&mut self) -> (r: Result<H, PoolError>)
        ensures
            *final(self) == old(self).after_take(),
            r == old(self).take_outcome(),
    {
        match self.thread.take() {
            Some(h) => Ok(h),
            None => Err(PoolError::HandleAlreadyTaken),
        }
    }
}

/// Taking the handle leaves the id as it was and the slot empty, so a second
/// take always fails with `HandleAlreadyTaken`.
pub proof fn lemma_take_thread_once<H>(w: Worker<H>)
    ensures
        w.after_take().worker_id() == w.worker_id(),
        !w.after_take().holds_thread(),
        w.after_take().take_outcome() == Err::<H, PoolError>(PoolError::HandleAlreadyTaken),
{
}

/// Where a worker's loop stands.
#[derive(Debug, Clone, Copy, PartialEq, Eq, Structural)]
pub enum WorkerState {
    /// Waiting on the shared receiving end for the next job.
    Idle,
    /// Running a job it received; the lock on the receiving end is released.
    Executing,
    /// The channel closed; the loop has ended.
    Terminated,
}

/// What a worker's loop observed.
#[derive(Debug, Clone, Copy, PartialEq, Eq, Structural)]
pub enum WorkerEvent {
    /// A receive returned a job.
    JobDequeued,
    /// The job that was running returned.
    JobReturned,
    /// A receive reported that every sender is gone and the queue is empty.
    ChannelClosed,
}

/// What a worker's loop is to do in a given state.
#[derive(Debug, Clone, Copy, PartialEq, Eq, Structural)]
pub enum WorkerAction {
    /// Lock the receiving end, receive once, and release the lock.
    Receive,
    /// Run the job just received, with no lock held.
    RunJob,
    /// Leave the loop, which ends the thread.
    Exit,
}

/// The worker's transitions: a job moves an idle worker to executing, the job
/// returning moves it back, and the channel closing ends it; nothing else
/// is a move.
pub open spec fn transition(s: WorkerState, e: WorkerEvent) -> Option<WorkerState> {
    match (s, e) {
        (WorkerState::Idle, WorkerEvent::JobDequeued) => Some(WorkerState::Executing),
        (WorkerState::Idle, WorkerEvent::ChannelClosed) => Some(WorkerState::Terminated),
        (WorkerState::Executing, WorkerEvent::JobReturned) => Some(WorkerState::Idle),
        _ => None,
    }
}

impl WorkerState {
    /// The state after `e`; `None` for an event that cannot occur in this state.
    pub fn step(self, e: WorkerEvent) -> (r: Option<WorkerState>)
        ensures
            r == transition(self, e),
    {
        match (self, e) {
            (WorkerState::Idle, WorkerEvent::JobDequeued) => Some(WorkerState::Executing),
            (WorkerState::Idle, WorkerEvent::ChannelClosed) => Some(WorkerState::Terminated),
            (WorkerState::Executing, WorkerEvent::JobReturned) => Some(WorkerState::Idle),
            _ => None,
        }
    }

    /// What the loop does in this state: receive when idle, run the job when
    /// executing, exit once terminated.
    pub fn action(self) -> (r: WorkerAction)
        ensures
            self == WorkerState::Idle ==> r == WorkerAction::Receive,
            self == WorkerState::Executing ==> r == WorkerAction::RunJob,
            self == WorkerState::Terminated ==> r == WorkerAction::Exit,
    {
        match self {
            WorkerState::Idle => WorkerAction::Receive,
            WorkerState::Executing => WorkerAction::RunJob,
            WorkerState::Terminated => WorkerAction::Exit,
        }
    }

    /// The event that a receive stands for: a job, or the channel closing.
    pub fn on_receive(got_job: bool) -> (r: WorkerEvent)
        ensures
            got_job ==> r == WorkerEvent::JobDequeued,
            !got_job ==> r == WorkerEvent::ChannelClosed,
    {
        if got_job {
            WorkerEvent::JobDequeued
        } else {
            WorkerEvent::ChannelClosed
        }
    }
}

/// Once terminated, a worker's loop stays terminated: no event leads out.
pub proof fn lemma_terminated_is_final(e: WorkerEvent)
    ensures
        transition(WorkerState::Terminated, e) is None,
{
}

} // verus!
