//! A fixed-size pool of workers fed from one shared job channel, with a
//! shutdown that closes intake before joining every worker.
use vstd::prelude::*;

pub mod channel;
pub mod error;
pub mod http;
pub mod slot;
pub mod thread_pool;
pub mod worker;

pub use channel::SharedReceiver;
pub use error::PoolError;
pub use slot::Slot;
pub use thread_pool::ThreadPool;
pub use worker::{Worker, WorkerAction, WorkerEvent, WorkerState};

verus! {

/// A unit of work: run once, on whichever worker receives it.
pub type Job = Box<dyn FnOnce() + Send + 'static>;

} // verus!
