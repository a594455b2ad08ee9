use crate::channel::SharedReceiver;
use crate::error::PoolError;
use crate::slot::Slot;
use crate::worker::{lemma_take_thread_once, Worker};
use std::sync::mpsc::{SendError, Sender};
use std::sync::{Arc, Mutex};
use vstd::prelude::*;

verus! {

/// A fixed set of workers that share the receiving end of one job channel,
/// and the sending end through which jobs come in until shutdown.
#[verifier::reject_recursive_types(J)]
pub struct ThreadPool<J, H> {
    workers: Vec<Worker<H>>,
    sender: Slot<Sender<J>>,
}

/// `join` reported a normal exit for the worker's handle, if it had one.
pub open spec fn joined_cleanly<H, F: Fn(H) -> bool>(w: Worker<H>, join: F) -> bool {
    match w.handle_slot() {
        Slot::Held(h) => join.ensures((h,), true),
        Slot::Taken => true,
    }
}

/// `join` reported an abnormal exit for the worker's handle.
pub open spec fn joined_after_panic<H, F: Fn(H) -> bool>(w: Worker<H>, join: F) -> bool {
    match w.handle_slot() {
        Slot::Held(h) => join.ensures((h,), false),
        Slot::Taken => false,
    }
}

/// Every worker holds the handle that `spawn` returned for its position and
/// the shared receiving end `rx`.
pub open spec fn spawned_with<J, H, F: Fn(usize, &SharedReceiver<J>) -> H>(
    ws: Seq<Worker<H>>,
    spawn: F,
    rx: &SharedReceiver<J>,
) -> bool {
    forall|i: int|
        0 <= i < ws.len() ==> match #[trigger] ws[i].handle_slot() {
            Slot::Held(h) => spawn.ensures((i as usize, rx), h),
            Slot::Taken => false,
        }
}

/// What a submission reports, given what the channel's send returned: success
/// when the job went in, `QueueClosed` when no receiver was left to take it.
pub fn submission_result<J>(sent: Result<(), SendError<J>>) -> (r: Result<(), PoolError>)
    ensures
        sent is Ok ==> r == Ok::<(), PoolError>(()),
        sent is Err ==> r == Err::<(), PoolError>(PoolError::QueueClosed),
{
    match sent {
        Ok(()) => Ok(()),
        Err(_) => Err(PoolError::QueueClosed),
    }
}

impl<J, H> ThreadPool<J, H> {
    /// The workers, in construction order.
    pub closed spec fn worker_seq(&self) -> Seq<Worker<H>> {
        self.workers@
    }

    /// Whether the pool still holds its sending end, that is, shutdown has not begun.
    pub closed spec fn accepting(&self) -> bool {
        self.sender is Held
    }

    /// The number of workers.
    pub open spec fn size(&self) -> nat {
        self.worker_seq().len()
    }

    /// At least one worker, and the worker at position `i` has id `i`.
    pub open spec fn wf(&self) -> bool {
        &&& self.size() > 0
        &&& forall|i: int| 0 <= i < self.size() ==> #[trigger] self.worker_seq()[i].worker_id() == i
    }

    /// Shutdown has run: intake is closed and every worker's handle is gone.
    pub open spec fn shut_down(&self) -> bool {
        &&& !self.accepting()
        &&& forall|i: int| 0 <= i < self.size() ==> !#[trigger] self.worker_seq()[i].holds_thread()
    }

    /// Creates the channel and `size` workers sharing its receiving end;
    /// `spawn` starts worker `id`'s thread. Fails with `InvalidPoolSize` when
    /// `size` is zero.
    pub fn new<F: Fn(usize, &SharedReceiver<J>) -> H>(size: usize, spawn: F) -> (r: Result<
        ThreadPool<J, H>,
        PoolError,
    >)
        requires
            forall|id: usize, rx: &SharedReceiver<J>| id < size ==> spawn.requires((id, rx)),
        ensures
            size == 0 ==> r == Err::<ThreadPool<J, H>, PoolError>(PoolError::InvalidPoolSize),
            size > 0 ==> r is Ok,
            r matches Ok(p) ==> {
                &&& p.wf()
                &&& p.accepting()
                &&& p.size() == size
                &&& exists|rx: &SharedReceiver<J>| #[trigger] spawned_with(p.worker_seq(), spawn, rx)
            },
    {
        if size == 0 {
            return Err(PoolError::InvalidPoolSize);
        }
        let (sender, receiver) = std::sync::mpsc::channel();
        let receiver: SharedReceiver<J> = Arc::new(Mutex::new(receiver));
        let mut workers: Vec<Worker<H>> = Vec::with_capacity(size);
        let mut id: usize = 0;
        while id < size
            invariant
                id <= size,
                workers@.len() == id,
                forall|i: usize, rx: &SharedReceiver<J>| i < size ==> spawn.requires((i, rx)),
                forall|i: int|
                    0 <= i < id ==> {
                        &&& (#[trigger] workers@[i]).worker_id() == i
                        &&& match workers@[i].handle_slot() {
                            Slot::Held(h) => spawn.ensures((i as usize, &receiver), h),
                            Slot::Taken => false,
                        }
                    },
            decreases size - id,
        {
            workers.push(Worker::new(id, &receiver, &spawn));
            id = id + 1;
        }
        let pool = ThreadPool { workers, sender: Slot::Held(sender) };
        assert(spawned_with(pool.worker_seq(), spawn, &receiver));
        Ok(pool)
    }

    /// Sends `job` to the workers. Fails with `QueueClosed` once shutdown has
    /// begun; while the pool accepts jobs, it fails only if every receiver is
    /// gone, which the channel alone can tell.
    pub fn execute(&self, job: J) -> (r: Result<(), PoolError>)
        ensures
            !self.accepting() ==> r == Err::<(), PoolError>(PoolError::QueueClosed),
            r is Ok || r == Err::<(), PoolError>(PoolError::QueueClosed),
    {
        match &self.sender {
            Slot::Held(sender) => submission_result(sender.send(job)),
            Slot::Taken => Err(PoolError::QueueClosed),
        }
    }

    /// The number of workers.
    pub fn len(&self) -> (r: usize)
        ensures
            r == self.size(),
    {
        self.workers.len()
    }

    /// Whether jobs are still accepted, that is, shutdown has not begun.
    pub fn is_accepting(&self) -> (r: bool)
        ensures
            r == self.accepting(),
    {
        self.sender.is_held()
    }

    /// The id of the worker at position `i`.
    pub fn worker_id(&self, i: usize) -> (r: usize)
        requires
            i < self.size(),
        ensures
            r == self.worker_seq()[i as int].worker_id(),
    {
        self.workers[i].get_id()
    }

    /// Whether the worker at position `i` still holds its thread handle.
    pub fn worker_has_thread(&self, i: usize) -> (r: bool)
        requires
            i < self.size(),
        ensures
            r == self.worker_seq()[i as int].holds_thread(),
    {
        self.workers[i].has_thread()
    }

    /// Shuts the pool down: first drops the sending end, so that each worker
    /// sees the channel close once the queue is empty; then, in construction
    /// order, takes each worker's thread handle and hands it to `join`, which
    /// waits for that thread and says whether it ended normally. Fails with
    /// `WorkerPanic` when some thread did not, after every worker was joined.
    pub fn shutdown<F: Fn(H) -> bool>(&mut self, join: F) -> (r: Result<(), PoolError>)
        requires
            forall|h: H| join.requires((h,)),
        ensures
            final(self).shut_down(),
            final(self).size() == old(self).size(),
            forall|i: int|
                0 <= i < old(self).size() ==> (#[trigger] final(self).worker_seq()[i]).worker_id()
                    == old(self).worker_seq()[i].worker_id(),
            old(self).wf() ==> final(self).wf(),
            r is Ok ==> forall|i: int|
                0 <= i < old(self).size() ==> joined_cleanly(
                    #[trigger] old(self).worker_seq()[i],
                    join,
                ),
            r is Err ==> r == Err::<(), PoolError>(PoolError::WorkerPanic) && exists|i: int|
                0 <= i < old(self).size() && joined_after_panic(
                    #[trigger] old(self).worker_seq()[i],
                    join,
                ),
    {
        let _ = self.sender.take();
        let ghost start = self.workers@;
        let mut rest: Vec<Worker<H>> = Vec::new();
        core::mem::swap(&mut self.workers, &mut rest);
        let n = rest.len();
        let mut done: Vec<Worker<H>> = Vec::with_capacity(n);
        let mut panicked = false;
        while rest.len() > 0
            invariant
                n == start.len(),
                done@.len() + rest@.len() == n,
                rest@ == start.subrange(done@.len() as int, n as int),
                forall|h: H| join.requires((h,)),
                forall|i: int|
                    0 <= i < done@.len() ==> {
                        &&& (#[trigger] done@[i]).worker_id() == start[i].worker_id()
                        &&& !done@[i].holds_thread()
                    },
                !panicked ==> forall|i: int|
                    0 <= i < done@.len() ==> joined_cleanly(#[trigger] start[i], join),
                panicked ==> exists|i: int|
                    0 <= i < done@.len() && joined_after_panic(#[trigger] start[i], join),
            decreases rest@.len(),
        {
            let mut w = rest.remove(0);
            let k = done.len();
            assert(w == start[k as int]);
            proof {
                lemma_take_thread_once(w);
            }
            match w.take_thread() {
                Ok(h) => {
                    if !join(h) {
                        panicked = true;
                        assert(joined_after_panic(start[k as int], join));
                    }
                },
                Err(_) => {},
            }
            done.push(w);
        }
        self.workers = done;
        if panicked {
            Err(PoolError::WorkerPanic)
        } else {
            Ok(())
        }
    }
}

/// After shutdown the pool takes no more jobs, and no worker has a thread
/// handle left to take: every thread was handed to `join`, and asking a
/// worker for its handle again fails with `HandleAlreadyTaken`.
pub proof fn lemma_shut_down_pool_is_closed<J, H>(p: ThreadPool<J, H>)
    requires
        p.shut_down(),
    ensures
        !p.accepting(),
        forall|i: int|
            0 <= i < p.size() ==> (#[trigger] p.worker_seq()[i]).take_outcome() == Err::<
                H,
                PoolError,
            >(PoolError::HandleAlreadyTaken),
{
    assert forall|i: int| 0 <= i < p.size() implies (#[trigger] p.worker_seq()[
        i
    ]).take_outcome() == Err::<H, PoolError>(PoolError::HandleAlreadyTaken) by {
        assert(!p.worker_seq()[i].holds_thread());
    }
}

} // verus!
