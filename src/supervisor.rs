use vstd::prelude::*;
use crate::error::{ErrorKind, SessionError, kind_of};

verus! {

/// The TCP port on which hosts connect.
pub const PORT: u16 = 1381;

/// Stack size, in bytes, of a worker task.
pub const WORKER_STACK_SIZE: usize = 16384;

/// The supervisor's one worker slot.
#[derive(Debug, Clone, Copy, PartialEq, Eq, Structural)]
pub enum WorkerSlot {
    /// No worker was ever spawned.
    Empty,
    /// A worker task exists and has not returned.
    Running,
    /// The worker task has returned.
    Terminated,
}

/// Whether replacing the worker in `slot` must first interrupt it and wait
/// for it: only a worker that still runs is.
pub fn must_interrupt(slot: WorkerSlot) -> (r: bool)
    ensures
        r <==> slot is Running,
{
    match slot {
        WorkerSlot::Running => true,
        _ => false,
    }
}

/// Whether the supervisor, with no new connection, starts the idle kernel:
/// when the slot is empty or its worker has returned.
pub fn wants_idle_kernel(slot: WorkerSlot) -> (r: bool)
    ensures
        r <==> !(slot is Running),
{
    match slot {
        WorkerSlot::Running => false,
        _ => true,
    }
}

/// What the supervisor notes when a worker returns.
#[derive(Debug, Clone, Copy, PartialEq, Eq, Structural)]
pub enum WorkerExit {
    /// The worker completed normally.
    Finished,
    /// The host closed the connection (informational).
    ConnectionClosed,
    /// The worker was interrupted to make room for another (informational).
    Interrupted,
    /// No kernel is stored under the key (informational); an idle worker
    /// then parks until it is interrupted.
    NoKernel,
    /// Anything else: reported as an error.
    Aborted,
}

/// How a host session's end is noted: end of stream is informational.
pub fn host_worker_exit(r: &Result<(), SessionError>) -> (x: WorkerExit)
    ensures
        r is Ok ==> x == WorkerExit::Finished,
        r matches Err(e) ==> x == if kind_of(*e) == ErrorKind::UnexpectedEof {
            WorkerExit::ConnectionClosed
        } else {
            WorkerExit::Aborted
        },
{
    match r {
        Ok(()) => WorkerExit::Finished,
        Err(e) => match e.kind() {
            ErrorKind::UnexpectedEof => WorkerExit::ConnectionClosed,
            _ => WorkerExit::Aborted,
        },
    }
}

/// How a flash kernel run's end is noted: a missing kernel and an
/// interruption are informational.
pub fn flash_worker_exit(r: &Result<(), SessionError>) -> (x: WorkerExit)
    ensures
        r is Ok ==> x == WorkerExit::Finished,
        r matches Err(e) ==> x == match kind_of(*e) {
            ErrorKind::Interrupted => WorkerExit::Interrupted,
            ErrorKind::NotFound => WorkerExit::NoKernel,
            _ => WorkerExit::Aborted,
        },
{
    match r {
        Ok(()) => WorkerExit::Finished,
        Err(e) => match e.kind() {
            ErrorKind::Interrupted => WorkerExit::Interrupted,
            ErrorKind::NotFound => WorkerExit::NoKernel,
            _ => WorkerExit::Aborted,
        },
    }
}

} // verus!
