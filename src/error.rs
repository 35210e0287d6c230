use vstd::prelude::*;

verus! {

/// The broad class of a session error, as the supervisor tells them apart.
#[derive(Debug, Clone, Copy, PartialEq, Eq, Structural)]
pub enum ErrorKind {
    InvalidData,
    NotFound,
    Interrupted,
    UnexpectedEof,
    Other,
}

/// Why a session, or a flash kernel run, ended early.
#[derive(Debug, PartialEq, Eq)]
pub enum SessionError {
    /// A message arrived in a state that does not admit it.
    Protocol,
    /// A fresh connection did not open with the preamble.
    UnrecognizedMagic,
    /// The kernel CPU posted a pointer outside the memory it may use.
    InvalidPointer(usize),
    /// A kernel run from flash asked for a remote procedure call.
    RpcInFlashKernel,
    /// A queued asynchronous call is shorter than its length prefix says.
    TruncatedQueuedRpc,
    /// No kernel is stored under the requested key.
    NotFound,
    /// The running kernel holds as many watchdogs as there are.
    OutOfWatchdogs,
    /// A watchdog of the running kernel expired.
    WatchdogExpired,
    /// The RTIO clock failed while a kernel ran.
    ClockFailure,
    /// A kernel run from flash queued an asynchronous call.
    BackgroundRpcInFlashKernel,
    /// The task was interrupted to make room for another.
    Interrupted,
    /// The host closed the connection.
    UnexpectedEof,
    /// Any other failure, with its message.
    Other(String),
}

/// The class of an error.
pub open spec fn kind_of(e: SessionError) -> ErrorKind {
    match e {
        SessionError::Protocol => ErrorKind::InvalidData,
        SessionError::UnrecognizedMagic => ErrorKind::InvalidData,
        SessionError::InvalidPointer(_) => ErrorKind::InvalidData,
        SessionError::RpcInFlashKernel => ErrorKind::InvalidData,
        SessionError::TruncatedQueuedRpc => ErrorKind::InvalidData,
        SessionError::NotFound => ErrorKind::NotFound,
        SessionError::Interrupted => ErrorKind::Interrupted,
        SessionError::UnexpectedEof => ErrorKind::UnexpectedEof,
        _ => ErrorKind::Other,
    }
}

impl SessionError {
    /// The class of this error.
    pub fn kind(&self) -> (r: ErrorKind)
        ensures
            r == kind_of(*self),
    {
        match self {
            SessionError::Protocol => ErrorKind::InvalidData,
            SessionError::UnrecognizedMagic => ErrorKind::InvalidData,
            SessionError::InvalidPointer(_) => ErrorKind::InvalidData,
            SessionError::RpcInFlashKernel => ErrorKind::InvalidData,
            SessionError::TruncatedQueuedRpc => ErrorKind::InvalidData,
            SessionError::NotFound => ErrorKind::NotFound,
            SessionError::Interrupted => ErrorKind::Interrupted,
            SessionError::UnexpectedEof => ErrorKind::UnexpectedEof,
            _ => ErrorKind::Other,
        }
    }
}

/// An error of class `Other` that carries `msg`.
pub fn io_error(msg: &str) -> (r: SessionError)
    ensures
        r matches SessionError::Other(m) && m@ == msg@,
{
    SessionError::Other(msg.to_owned())
}

} // verus!
