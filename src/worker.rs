use vstd::prelude::*;
use byteorder::{ByteOrder, NetworkEndian};
use crate::error::SessionError;
use crate::session::{KernelState, Session};
use crate::watchdog::any_expired;

verus! {

/// The stages of one pass of the host session loop.
#[derive(Debug, Clone, Copy, PartialEq, Eq, Structural)]
pub enum Stage {
    /// Yield to other tasks; a pass starts after it.
    Relinquish,
    /// Forward one queued asynchronous call to the host.
    DrainQueue,
    /// Take one host request.
    HostMessage,
    /// Take one kernel message.
    KernelMessage,
    /// Check watchdogs and the RTIO clock.
    Deadlines,
}

/// The position of a stage within a pass.
pub open spec fn rank(s: Stage) -> nat {
    match s {
        Stage::Relinquish => 0,
        Stage::DrainQueue => 1,
        Stage::HostMessage => 2,
        Stage::KernelMessage => 3,
        Stage::Deadlines => 4,
    }
}

/// The stage after `current`, given what is observed when it completes:
/// whether the asynchronous call queue is empty, whether the host stream
/// has data, and whether the mailbox holds a message.
pub open spec fn next_stage_spec(current: Stage, queue_empty: bool, host_readable: bool, mailbox_pending: bool) -> Stage {
    match current {
        Stage::Relinquish | Stage::DrainQueue => {
            if !queue_empty {
                Stage::DrainQueue
            } else if host_readable {
                Stage::HostMessage
            } else if mailbox_pending {
                Stage::KernelMessage
            } else {
                Stage::Deadlines
            }
        },
        Stage::HostMessage => if mailbox_pending { Stage::KernelMessage } else { Stage::Deadlines },
        Stage::KernelMessage => Stage::Deadlines,
        Stage::Deadlines => Stage::Relinquish,
    }
}

/// Chooses the host session loop's next stage.
pub fn next_stage(current: Stage, queue_empty: bool, host_readable: bool, mailbox_pending: bool) -> (r: Stage)
    ensures
        r == next_stage_spec(current, queue_empty, host_readable, mailbox_pending),
{
    match current {
        Stage::Relinquish | Stage::DrainQueue => {
            if !queue_empty {
                Stage::DrainQueue
            } else if host_readable {
                Stage::HostMessage
            } else if mailbox_pending {
                Stage::KernelMessage
            } else {
                Stage::Deadlines
            }
        },
        Stage::HostMessage => if mailbox_pending { Stage::KernelMessage } else { Stage::Deadlines },
        Stage::KernelMessage => Stage::Deadlines,
        Stage::Deadlines => Stage::Relinquish,
    }
}

/// Whether `trace` is one pass of the loop: it starts by yielding, each
/// stage follows from the one before and what was observed then
/// (`probes[i]`: queue empty, host readable, mailbox pending), and it does
/// not yield again.
pub open spec fn one_pass(trace: Seq<Stage>, probes: Seq<(bool, bool, bool)>) -> bool {
    &&& trace.len() >= 1
    &&& trace[0] == Stage::Relinquish
    &&& probes.len() + 1 >= trace.len()
    &&& forall|i: int| 0 <= i < trace.len() - 1 ==> #[trigger] trace[i + 1] == next_stage_spec(
        trace[i], probes[i].0, probes[i].1, probes[i].2)
    &&& forall|i: int| 1 <= i < trace.len() ==> !(#[trigger] trace[i] is Relinquish)
}

proof fn lemma_ranks_ordered(trace: Seq<Stage>, probes: Seq<(bool, bool, bool)>, j: int)
    requires
        one_pass(trace, probes),
        0 <= j < trace.len(),
    ensures
        forall|i: int| 0 <= i < j ==> rank(trace[i]) < rank(trace[j]) || (trace[i] is DrainQueue && trace[j] is DrainQueue),
    decreases j,
{
    if j > 0 {
        lemma_ranks_ordered(trace, probes, j - 1);
        let k = j - 1;
        assert(trace[k + 1] == next_stage_spec(trace[k], probes[k].0, probes[k].1, probes[k].2));
        assert(!(trace[j] is Relinquish));
    }
}

/// In one pass of the host session loop at most one host request and at
/// most one kernel message are taken, the host request before the kernel
/// message, and the asynchronous call queue is drained before either:
/// every drain comes first, and the pass moves on only once the queue is
/// seen empty.
pub proof fn lemma_one_pass_order(trace: Seq<Stage>, probes: Seq<(bool, bool, bool)>)
    requires
        one_pass(trace, probes),
    ensures
        forall|i: int, j: int| 0 <= i < j < trace.len() && trace[i] == trace[j] ==> trace[i] is DrainQueue,
        forall|i: int, j: int| 0 <= i < j < trace.len() && #[trigger] trace[j] is DrainQueue ==>
            (#[trigger] trace[i] is Relinquish || trace[i] is DrainQueue),
        forall|i: int, j: int| 0 <= i < j < trace.len() && #[trigger] trace[i] is KernelMessage ==>
            !(#[trigger] trace[j] is HostMessage),
        forall|i: int| 0 <= i < trace.len() - 1 && (trace[i] is Relinquish || trace[i] is DrainQueue)
            && !(#[trigger] trace[i + 1] is DrainQueue) ==> probes[i].0,
{
    assert forall|i: int, j: int| 0 <= i < j < trace.len() implies
        rank(trace[i]) < rank(trace[j]) || (trace[i] is DrainQueue && trace[j] is DrainQueue) by {
        lemma_ranks_ordered(trace, probes, j);
    }
    assert forall|i: int| 0 <= i < trace.len() - 1 && (trace[i] is Relinquish || trace[i] is DrainQueue)
        && !(#[trigger] trace[i + 1] is DrainQueue) implies probes[i].0 by {
        assert(trace[i + 1] == next_stage_spec(trace[i], probes[i].0, probes[i].1, probes[i].2));
    }
}

/// How a pass's deadline check ends the session, if it does.
pub open spec fn deadline_failure(watchdog_expired: bool, clock_ok: bool) -> Option<SessionError> {
    if watchdog_expired {
        Some(SessionError::WatchdogExpired)
    } else if !clock_ok {
        Some(SessionError::ClockFailure)
    } else {
        None
    }
}

/// The deadline check of a host session at time `now_ms`, with
/// `clock_ok` the state of the RTIO clock. It applies only while the
/// kernel runs (not while it waits on a call); an expired watchdog is
/// reported before a clock failure.
pub fn host_deadlines(session: &Session, now_ms: u64, clock_ok: bool) -> (r: Option<SessionError>)
    ensures
        session.kernel_state is Running ==> r == deadline_failure(any_expired(session.watchdog_set@, now_ms), clock_ok),
        !(session.kernel_state is Running) ==> r is None,
{
    if session.kernel_state == KernelState::Running {
        flash_deadlines(session, now_ms, clock_ok)
    } else {
        None
    }
}

/// The deadline check of a flash kernel run, made on every pass.
pub fn flash_deadlines(session: &Session, now_ms: u64, clock_ok: bool) -> (r: Option<SessionError>)
    ensures
        r == deadline_failure(any_expired(session.watchdog_set@, now_ms), clock_ok),
{
    if session.watchdog_set.expired(now_ms) {
        Some(SessionError::WatchdogExpired)
    } else if !clock_ok {
        Some(SessionError::ClockFailure)
    } else {
        None
    }
}

/// Checks the asynchronous call queue of a flash kernel run, which must
/// stay empty: flash kernels make no calls.
pub fn flash_queue_check(queue_empty: bool) -> (r: Result<(), SessionError>)
    ensures
        r is Ok <==> queue_empty,
        r is Err ==> r == Err::<(), SessionError>(SessionError::BackgroundRpcInFlashKernel),
{
    if queue_empty {
        Ok(())
    } else {
        Err(SessionError::BackgroundRpcInFlashKernel)
    }
}

/// Checks a kernel image read from the configuration store: a key that is
/// absent reads as no bytes.
pub fn flash_kernel_image(image: &[u8]) -> (r: Result<(), SessionError>)
    ensures
        r is Ok <==> image@.len() > 0,
        r is Err ==> r == Err::<(), SessionError>(SessionError::NotFound),
{
    if image.len() == 0 {
        Err(SessionError::NotFound)
    } else {
        Ok(())
    }
}

/// The number that four bytes make, most significant first.
pub open spec fn be_u32(b: Seq<u8>) -> int {
    b[0] as int * 16777216 + b[1] as int * 65536 + b[2] as int * 256 + b[3] as int
}

/// Relies on byteorder's `NetworkEndian::read_u32`: the first four bytes of
/// `buf`, read most significant first.
#[verifier::external_body]
fn read_u32_be(buf: &[u8]) -> (r: u32)
    requires
        buf@.len() >= 4,
    ensures
        r as int == be_u32(buf@),
{
    NetworkEndian::read_u32(buf)
}

/// The payload of an entry of the asynchronous call queue: the entry
/// starts with the payload's length, four bytes in network order. An
/// entry too short for that length is refused.
pub fn queued_rpc_payload(entry: &[u8]) -> (r: Result<&[u8], SessionError>)
    ensures
        r is Ok <==> entry@.len() >= 4 && 4 + be_u32(entry@) <= entry@.len(),
        r matches Ok(p) ==> p@ == entry@.subrange(4, 4 + be_u32(entry@)),
        r is Err ==> r == Err::<&[u8], SessionError>(SessionError::TruncatedQueuedRpc),
{
    if entry.len() < 4 {
        return Err(SessionError::TruncatedQueuedRpc);
    }
    let length = read_u32_be(entry) as usize;
    if length > entry.len() - 4 {
        return Err(SessionError::TruncatedQueuedRpc);
    }
    Ok(vstd::slice::slice_subrange(entry, 4, 4 + length))
}

} // verus!
