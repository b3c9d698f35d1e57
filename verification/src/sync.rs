//! What this library takes on trust from `std::sync`.
//!
//! The channel and the lock are shared with other threads, so nothing is
//! claimed of what a receive or a lock hands out: the verified code that
//! follows such a call is proved for every value that may come back.

use crate::message_queue::MessageQueue;
use std::sync::mpsc::{Receiver, RecvError, Sender};
use std::sync::{Mutex, MutexGuard, PoisonError};
use vstd::prelude::*;

verus! {

/// `std::sync::mpsc::Sender`, the sending half of a channel. Opaque here.
#[verifier::external_type_specification]
#[verifier::external_body]
#[verifier::reject_recursive_types(T)]
pub struct ExSender<T>(Sender<T>);

/// `std::sync::mpsc::Receiver`, the receiving half of a channel. Opaque here.
#[verifier::external_type_specification]
#[verifier::external_body]
#[verifier::reject_recursive_types(T)]
pub struct ExReceiver<T>(Receiver<T>);

/// `std::sync::mpsc::RecvError`, the failure of a receive. Opaque here.
#[verifier::external_type_specification]
#[verifier::external_body]
pub struct ExRecvError(RecvError);

/// `std::sync::Mutex`, a mutual-exclusion lock around a value. Opaque here.
#[verifier::external_type_specification]
#[verifier::external_body]
#[verifier::reject_recursive_types(T)]
pub struct ExMutex<T: ?Sized>(Mutex<T>);

/// `std::sync::MutexGuard`, which holds a lock until it is dropped. Opaque here.
#[verifier::external_type_specification]
#[verifier::external_body]
#[verifier::reject_recursive_types(T)]
pub struct ExMutexGuard<'a, T: ?Sized + 'a>(MutexGuard<'a, T>);

/// `std::sync::PoisonError`, the failure to take a poisoned lock. Opaque here.
#[verifier::external_type_specification]
#[verifier::external_body]
#[verifier::reject_recursive_types(T)]
pub struct ExPoisonError<T>(PoisonError<T>);

/// `Receiver::recv` blocks until a value has been sent or every sender is
/// gone. Which of the two happens, and which value arrives, is decided by
/// other threads: nothing is claimed of the result.
pub assume_specification<T>[ Receiver::<T>::recv ](receiver: &Receiver<T>) -> (received: Result<
    T,
    RecvError,
>)
;

/// `Mutex::lock` blocks until the lock is free and fails when an earlier
/// holder panicked. Both depend on other threads: nothing is claimed of the
/// result. A thread that asks for a lock it already holds may block for ever
/// or panic; no contract here can rule that out, so callers are told.
pub assume_specification<T: ?Sized>[ Mutex::<T>::lock ](mutex: &Mutex<T>) -> (locked: Result<
    MutexGuard<'_, T>,
    PoisonError<MutexGuard<'_, T>>,
>)
;

/// `DerefMut::deref_mut` of a `MutexGuard`: the message queue that the held
/// lock protects. Other threads may have changed the queue before the lock
/// was taken, so nothing is claimed of its contents.
#[verifier::external_body]
pub(crate) fn guarded_queue<'a, 'b>(guard: &'a mut MutexGuard<'b, MessageQueue>) -> (queue:
    &'a mut MessageQueue) {
    std::ops::DerefMut::deref_mut(guard)
}

} // verus!
