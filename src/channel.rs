use std::sync::mpsc::{Receiver, SendError, Sender};
use std::sync::{Arc, Mutex};
use vstd::prelude::*;

verus! {

/// The sending end of the job channel; clones of it may live on many threads.
#[verifier::external_type_specification]
#[verifier::external_body]
#[verifier::reject_recursive_types(T)]
pub struct ExSender<T>(Sender<T>);

/// The single receiving end of the job channel.
#[verifier::external_type_specification]
#[verifier::external_body]
#[verifier::reject_recursive_types(T)]
pub struct ExReceiver<T>(Receiver<T>);

/// What `Sender::send` hands back when no receiver is left: the value itself.
#[verifier::external_type_specification]
#[verifier::external_body]
#[verifier::reject_recursive_types(T)]
pub struct ExSendError<T>(SendError<T>);

/// The lock that lets several workers share the one receiving end.
#[verifier::external_type_specification]
#[verifier::external_body]
#[verifier::reject_recursive_types(T)]
pub struct ExMutex<T: ?Sized>(Mutex<T>);

/// The receiving end as the workers share it: behind a lock, behind a
/// reference count.
pub type SharedReceiver<J> = Arc<Mutex<Receiver<J>>>;

/// Relies on `std::sync::mpsc::channel`: a new unbounded channel, returned as
/// its two ends.
pub assume_specification<T>[ std::sync::mpsc::channel::<T> ]() -> (Sender<T>, Receiver<T>);

/// Relies on `Mutex::new`: a new unlocked mutex around the value.
pub assume_specification<T>[ Mutex::<T>::new ](t: T) -> Mutex<T>;

/// Relies on `Sender::send`: it never blocks, and it fails only when every
/// receiver is gone, which the caller cannot see from here, so nothing is
/// promised of the outcome.
pub assume_specification<T>[ Sender::<T>::send ](s: &Sender<T>, t: T) -> Result<(), SendError<T>>;

} // verus!
