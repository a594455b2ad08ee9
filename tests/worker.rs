use multithreaded::{
    Job, PoolError, SharedReceiver, Slot, Worker, WorkerAction, WorkerEvent, WorkerState,
};
use std::sync::mpsc;
use std::sync::{Arc, Mutex};
use tokio::runtime::Runtime;
use tokio::task::JoinHandle;

fn runtime() -> Runtime {
    tokio::runtime::Builder::new_current_thread().build().unwrap()
}

fn run_worker(receiver: SharedReceiver<Job>) {
    let mut state = WorkerState::Idle;
    let mut job: Option<Job> = None;
    loop {
        match state.action() {
            WorkerAction::Receive => {
                let message = receiver.lock().unwrap().recv();
                let event = WorkerState::on_receive(message.is_ok());
                job = message.ok();
                state = state.step(event).unwrap();
            }
            WorkerAction::RunJob => {
                if let Some(run) = job.take() {
                    run();
                }
                state = state.step(WorkerEvent::JobReturned).unwrap();
            }
            WorkerAction::Exit => break,
        }
    }
}

fn start_worker(rt: &Runtime, id: usize, receiver: &SharedReceiver<Job>) -> Worker<JoinHandle<()>> {
    let spawn = |_id: usize, rx: &SharedReceiver<Job>| {
        let rx = Arc::clone(rx);
        rt.spawn_blocking(move || run_worker(rx))
    };
    Worker::new(id, receiver, &spawn)
}

#[test]
fn get_worker_id() {
    let rt = runtime();
    let (_, rx) = mpsc::channel::<Job>();
    let receiver = Arc::new(Mutex::new(rx));
    let worker = start_worker(&rt, 5, &receiver);

    assert_eq!(worker.get_id(), 5);
}

#[test]
fn take_thread_from_worker() {
    let rt = runtime();
    let (_, rx) = mpsc::channel::<Job>();
    let receiver = Arc::new(Mutex::new(rx));
    let mut worker = start_worker(&rt, 5, &receiver);

    assert!(worker.take_thread().is_ok());

    assert!(!worker.has_thread());
}

#[test]
fn worker_executes_job() {
    let rt = runtime();
    let (tx, rx) = mpsc::channel::<Job>();
    let receiver = Arc::new(Mutex::new(rx));
    let mut worker = start_worker(&rt, 5, &receiver);

    let result = Arc::new(Mutex::new(0u64));

    {
        let result = Arc::clone(&result);
        let job: Job = Box::new(move || {
            let mut res = result.lock().unwrap();
            *res += 5;
        });

        tx.send(job).unwrap();
    }

    // Disconnect the worker.
    drop(tx);

    // Wait for the worker to finish the job.
    let handle = worker.take_thread().unwrap();
    assert!(rt.block_on(handle).is_ok());

    let res = result.lock().unwrap();
    assert_eq!(*res, 5);
}

#[test]
fn second_take_fails() {
    let spawn = |id: usize, _rx: &u8| id + 40;
    let mut worker = Worker::new(2, &0u8, &spawn);
    assert!(worker.has_thread());
    assert_eq!(worker.take_thread(), Ok(42));
    assert_eq!(worker.take_thread(), Err(PoolError::HandleAlreadyTaken));
    assert_eq!(worker.get_id(), 2);
}

#[test]
fn spawn_gets_the_worker_id() {
    let spawn = |id: usize, rx: &u8| (id, *rx);
    let mut worker = Worker::new(7, &9u8, &spawn);
    assert_eq!(worker.take_thread(), Ok((7, 9)));
}

#[test]
fn slot_gives_its_value_once() {
    let mut slot = Slot::Held(3u32);
    assert!(slot.is_held());
    assert_eq!(slot.take(), Some(3));
    assert!(!slot.is_held());
    assert_eq!(slot.take(), None);
}

#[test]
fn worker_state_transitions() {
    assert_eq!(
        WorkerState::Idle.step(WorkerEvent::JobDequeued),
        Some(WorkerState::Executing)
    );
    assert_eq!(
        WorkerState::Executing.step(WorkerEvent::JobReturned),
        Some(WorkerState::Idle)
    );
    assert_eq!(
        WorkerState::Idle.step(WorkerEvent::ChannelClosed),
        Some(WorkerState::Terminated)
    );
    assert_eq!(WorkerState::Idle.step(WorkerEvent::JobReturned), None);
    assert_eq!(WorkerState::Executing.step(WorkerEvent::JobDequeued), None);
    assert_eq!(WorkerState::Executing.step(WorkerEvent::ChannelClosed), None);
    for e in [
        WorkerEvent::JobDequeued,
        WorkerEvent::JobReturned,
        WorkerEvent::ChannelClosed,
    ] {
        assert_eq!(WorkerState::Terminated.step(e), None);
    }
}

#[test]
fn worker_actions_follow_state() {
    assert_eq!(WorkerState::Idle.action(), WorkerAction::Receive);
    assert_eq!(WorkerState::Executing.action(), WorkerAction::RunJob);
    assert_eq!(WorkerState::Terminated.action(), WorkerAction::Exit);
    assert_eq!(WorkerState::on_receive(true), WorkerEvent::JobDequeued);
    assert_eq!(WorkerState::on_receive(false), WorkerEvent::ChannelClosed);
}
