use vstd::prelude::*;
use crate::cache::{Cache, gets, none_borrowed, puts, releases};
use crate::error::SessionError;
use crate::interner::Interner;
use crate::logbuf::{LogBuffer, flushes, lines_of, lines_view};
use crate::watchdog::{WatchdogSet, all_taken, arms, clears, deadline_of};

verus! {

/// Where the kernel of a session stands.
#[derive(Debug, Clone, Copy, PartialEq, Eq, Structural)]
pub enum KernelState {
    /// No kernel is loaded.
    Absent,
    /// A kernel is loaded and waits for the order to run.
    Loaded,
    /// The kernel runs and may post messages at any time.
    Running,
    /// The kernel is suspended until the host returns from a call.
    RpcWait,
}

/// Whether the kernel CPU executes a kernel in state `s`.
pub open spec fn is_running(s: KernelState) -> bool {
    s is Running || s is RpcWait
}

/// The moves a session's kernel state may make: loading (again, while
/// nothing runs), running, waiting on a call and resuming, ending the run.
pub open spec fn permitted_edge(from: KernelState, to: KernelState) -> bool {
    ||| from == to
    ||| (from is Absent || from is Loaded) && to is Loaded
    ||| from is Loaded && to is Running
    ||| from is Running && to is RpcWait
    ||| from is RpcWait && to is Running
    ||| from is Running && to is Absent
}

/// State that outlives sessions: the last timestamp a kernel saved, and the
/// cache kernels share.
pub struct Congress {
    pub now: u64,
    pub cache: Cache,
}

impl Congress {
    /// Fresh persistent state: time zero and an empty cache.
    pub fn new() -> (r: Congress)
        ensures
            r.now == 0,
            r.cache.wf(),
            r.cache@.len() == 0,
    {
        Congress { now: 0, cache: Cache::new() }
    }
}

/// What a host asks for, as far as the session's decisions go.
#[derive(Debug, Clone, Copy, PartialEq, Eq, Structural)]
pub enum HostRequest {
    Ident,
    Log,
    LogClear,
    FlashRead,
    FlashWrite,
    FlashRemove,
    FlashErase,
    SwitchClock,
    LoadKernel,
    RunKernel,
    RpcReply,
    RpcException,
}

/// What serving an admitted host request takes.
#[derive(Debug, Clone, Copy, PartialEq, Eq, Structural)]
pub enum HostStep {
    /// Answer from the board, the logger, the configuration store or the
    /// clock; the kernel CPU is not involved.
    Serve,
    /// Start the kernel CPU, hand it the image and pass its reply to
    /// `kern_loaded`.
    Load,
    /// Acknowledge the mailbox, which lets the loaded kernel run.
    Acknowledge,
    /// Return the host's value to the waiting kernel.
    ReturnValue,
    /// Return the host's exception to the waiting kernel.
    ReturnException,
}

/// Whether a session in state `s` admits request `req`.
pub open spec fn host_admits(s: KernelState, req: HostRequest) -> bool {
    match req {
        HostRequest::SwitchClock => !is_running(s),
        HostRequest::LoadKernel => !is_running(s),
        HostRequest::RunKernel => s is Loaded,
        HostRequest::RpcReply => s is RpcWait,
        HostRequest::RpcException => s is RpcWait,
        _ => true,
    }
}

/// What serving `req` takes.
pub open spec fn host_step_of(req: HostRequest) -> HostStep {
    match req {
        HostRequest::LoadKernel => HostStep::Load,
        HostRequest::RunKernel => HostStep::Acknowledge,
        HostRequest::RpcReply => HostStep::ReturnValue,
        HostRequest::RpcException => HostStep::ReturnException,
        _ => HostStep::Serve,
    }
}

/// The kernel state after an admitted `req` in state `s`.
pub open spec fn host_next_state(s: KernelState, req: HostRequest) -> KernelState {
    match req {
        HostRequest::RunKernel => KernelState::Running,
        HostRequest::RpcReply => KernelState::Running,
        HostRequest::RpcException => KernelState::Running,
        _ => s,
    }
}

/// A message posted by the kernel CPU, with what the session reads of it.
#[derive(Debug, PartialEq, Eq)]
pub enum KernMessage {
    LoadReply { ok: bool },
    RpcRecvRequest,
    Log(Vec<u8>),
    LogSlice(Vec<u8>),
    NowInitRequest,
    NowSave(u64),
    WatchdogSetRequest { ms: u64 },
    WatchdogClear { id: usize },
    RpcSend { is_async: bool },
    CacheGetRequest { key: Vec<u8> },
    CachePutRequest { key: Vec<u8>, value: Vec<i32> },
    RunFinished,
    RunException,
    /// Any message the session never expects from a kernel.
    Other,
}

/// A reply sent to the kernel CPU through the mailbox.
#[derive(Debug, Clone, Copy, PartialEq, Eq, Structural)]
pub enum KernReply {
    NowInitReply(u64),
    WatchdogSetReply(usize),
    /// The index of the cache cell whose value the kernel may read, or
    /// `None` for an empty value.
    CacheGetReply(Option<usize>),
    CachePutReply(bool),
}

/// How the posted message is answered.
#[derive(Debug, Clone, Copy, PartialEq, Eq, Structural)]
pub enum Disposition {
    /// Left in the mailbox for a later step to take.
    Pending,
    /// Acknowledged without reply.
    Acknowledge,
    /// Answered by a reply.
    Reply(KernReply),
    /// The run is over: the kernel CPU is stopped.
    Stop,
}

/// What the host (or, without one, the system log) is told.
#[derive(Debug, Clone, Copy, PartialEq, Eq, Structural)]
pub enum Report {
    Nothing,
    /// A call request, followed by the kernel's packed arguments.
    RpcRequest { is_async: bool },
    KernelFinished,
    /// The kernel's exception, read from the kernel's memory.
    KernelException,
}

/// Everything that handling one kernel message asks of its caller, in
/// this order: stop the kernel CPU if the disposition is `Stop`, log the
/// lines, send the report, then acknowledge or reply.
pub struct KernOutcome {
    pub disposition: Disposition,
    pub report: Report,
    pub log_lines: Vec<Vec<u8>>,
    /// The kernel run ended and no host is attached: the worker is done.
    pub finished: bool,
}

/// Whether `msg` is one that state `s` leaves in the mailbox: it is for the
/// step that waits on it.
pub open spec fn standby(msg: KernMessage, s: KernelState) -> bool {
    ||| msg is LoadReply && s is Loaded
    ||| msg is RpcRecvRequest && s is RpcWait
}

/// An outcome that only answers the mailbox with `d`.
pub open spec fn only_answers(o: KernOutcome, d: Disposition) -> bool {
    &&& o.disposition == d
    &&& o.report == Report::Nothing
    &&& o.log_lines@.len() == 0
    &&& !o.finished
}

/// The end of a run: the kernel CPU is stopped, the host (if any) is told
/// with `report`, and without a host the worker is done.
pub open spec fn ends_run(o: KernOutcome, report: Report, host_attached: bool) -> bool {
    &&& o.disposition == Disposition::Stop
    &&& o.report == report
    &&& o.log_lines@.len() == 0
    &&& o.finished == !host_attached
}

/// What the session reads from a log message.
pub open spec fn log_text(msg: KernMessage) -> Option<Seq<u8>> {
    match msg {
        KernMessage::Log(t) => Some(t@),
        KernMessage::LogSlice(t) => Some(t@),
        _ => None,
    }
}

/// Whether `msg` ends the kernel run.
pub open spec fn ends(msg: KernMessage) -> bool {
    msg is RunFinished || msg is RunException
}

/// Per connection, or per flash kernel run: the kernel's state, its
/// watchdogs, its unfinished log line and the strings handed to it.
pub struct Session {
    pub kernel_state: KernelState,
    pub watchdog_set: WatchdogSet,
    pub log_buffer: LogBuffer,
    pub interner: Interner,
}

impl Session {
    pub open spec fn wf(&self) -> bool {
        self.watchdog_set.wf()
    }

    /// A session with no kernel, no watchdog, no pending log text and no
    /// interned string.
    pub fn new() -> (r: Session)
        ensures
            r.wf(),
            r.kernel_state == KernelState::Absent,
            forall|i: int| 0 <= i < r.watchdog_set@.len() ==> r.watchdog_set@[i] is None,
            r.log_buffer@.len() == 0,
            r.interner@.len() == 0,
    {
        Session {
            kernel_state: KernelState::Absent,
            watchdog_set: WatchdogSet::new(),
            log_buffer: LogBuffer::new(),
            interner: Interner::new(),
        }
    }

    /// Whether the kernel CPU executes this session's kernel.
    pub fn running(&self) -> (r: bool)
        ensures
            r == is_running(self.kernel_state),
    {
        match self.kernel_state {
            KernelState::Absent | KernelState::Loaded => false,
            KernelState::Running | KernelState::RpcWait => true,
        }
    }

    /// Takes the kernel CPU's answer to a load request: a successful load
    /// leaves the kernel Loaded. A failed load, any other message, or a
    /// kernel that already runs is an error, and the state stays.
    pub fn kern_loaded(&mut self, reply: &KernMessage) -> (r: Result<(), SessionError>)
        ensures
            (r is Ok) <==> (!is_running(old(self).kernel_state) && *reply == KernMessage::LoadReply { ok: true }),
            r is Err ==> r == Err::<(), SessionError>(SessionError::Protocol) && *final(self) == *old(self),
            r is Ok ==> *final(self) == (Session { kernel_state: KernelState::Loaded, ..*old(self) }),
            permitted_edge(old(self).kernel_state, final(self).kernel_state),
    {
        if self.running() {
            return Err(SessionError::Protocol);
        }
        match reply {
            KernMessage::LoadReply { ok } => {
                if *ok {
                    self.kernel_state = KernelState::Loaded;
                    Ok(())
                } else {
                    Err(SessionError::Protocol)
                }
            },
            _ => Err(SessionError::Protocol),
        }
    }

    /// Lets a loaded kernel run; in any other state this is an error and
    /// the state stays.
    pub fn kern_run(&mut self) -> (r: Result<(), SessionError>)
        ensures
            (r is Ok) <==> old(self).kernel_state is Loaded,
            r is Err ==> r == Err::<(), SessionError>(SessionError::Protocol) && *final(self) == *old(self),
            r is Ok ==> *final(self) == (Session { kernel_state: KernelState::Running, ..*old(self) }),
            permitted_edge(old(self).kernel_state, final(self).kernel_state),
    {
        match self.kernel_state {
            KernelState::Loaded => {
                self.kernel_state = KernelState::Running;
                Ok(())
            },
            _ => Err(SessionError::Protocol),
        }
    }

    /// Decides on one host request: whether the kernel state admits it,
    /// what serving it takes, and the state after it.
    pub fn process_host_message(&mut self, req: HostRequest) -> (r: Result<HostStep, SessionError>)
        ensures
            host_admits(old(self).kernel_state, req) ==> r == Ok::<HostStep, SessionError>(host_step_of(req))
                && *final(self) == (Session { kernel_state: host_next_state(old(self).kernel_state, req), ..*old(self) }),
            !host_admits(old(self).kernel_state, req) ==> r == Err::<HostStep, SessionError>(SessionError::Protocol)
                && *final(self) == *old(self),
            permitted_edge(old(self).kernel_state, final(self).kernel_state),
    {
        match req {
            HostRequest::SwitchClock => {
                if self.running() {
                    Err(SessionError::Protocol)
                } else {
                    Ok(HostStep::Serve)
                }
            },
            HostRequest::LoadKernel => {
                if self.running() {
                    Err(SessionError::Protocol)
                } else {
                    Ok(HostStep::Load)
                }
            },
            HostRequest::RunKernel => {
                match self.kern_run() {
                    Ok(()) => Ok(HostStep::Acknowledge),
                    Err(e) => Err(e),
                }
            },
            HostRequest::RpcReply => {
                if self.kernel_state != KernelState::RpcWait {
                    Err(SessionError::Protocol)
                } else {
                    self.kernel_state = KernelState::Running;
                    Ok(HostStep::ReturnValue)
                }
            },
            HostRequest::RpcException => {
                if self.kernel_state != KernelState::RpcWait {
                    Err(SessionError::Protocol)
                } else {
                    self.kernel_state = KernelState::Running;
                    Ok(HostStep::ReturnException)
                }
            },
            _ => Ok(HostStep::Serve),
        }
    }
}

/// Takes a message the kernel posts while a call returns: only a request
/// for the next piece of the return value is expected.
pub fn expect_rpc_recv_request(msg: &KernMessage) -> (r: Result<(), SessionError>)
    ensures
        r is Ok <==> *msg is RpcRecvRequest,
        r is Err ==> r == Err::<(), SessionError>(SessionError::Protocol),
{
    match msg {
        KernMessage::RpcRecvRequest => Ok(()),
        _ => Err(SessionError::Protocol),
    }
}

/// No change to what `msg` does not touch.
pub open spec fn keeps_untouched(
    msg: KernMessage,
    before: Session,
    after: Session,
    congress_before: Congress,
    congress_after: Congress,
) -> bool {
    &&& after.interner == before.interner
    &&& !(msg is WatchdogSetRequest || msg is WatchdogClear) ==> after.watchdog_set == before.watchdog_set
    &&& log_text(msg) is None ==> after.log_buffer == before.log_buffer
    &&& !(msg is NowSave) ==> congress_after.now == congress_before.now
    &&& !(msg is CacheGetRequest || msg is CachePutRequest || ends(msg)) ==> congress_after.cache == congress_before.cache
    &&& !(msg is RpcSend || ends(msg)) ==> after.kernel_state == before.kernel_state
}

/// What a running session does with `msg`, given what `r` says came of it.
pub open spec fn handles_running(
    msg: KernMessage,
    host_attached: bool,
    now_ms: u64,
    before: Session,
    after: Session,
    congress_before: Congress,
    congress_after: Congress,
    r: Result<KernOutcome, SessionError>,
) -> bool {
    match msg {
        KernMessage::Log(t) => log_handled(t@, before, after, r),
        KernMessage::LogSlice(t) => log_handled(t@, before, after, r),
        KernMessage::NowInitRequest => r matches Ok(o)
            && only_answers(o, Disposition::Reply(KernReply::NowInitReply(congress_before.now))),
        KernMessage::NowSave(t) => r matches Ok(o) && only_answers(o, Disposition::Acknowledge)
            && congress_after.now == t,
        KernMessage::WatchdogSetRequest { ms } => {
            &&& all_taken(before.watchdog_set@) ==> r == Err::<KernOutcome, SessionError>(SessionError::OutOfWatchdogs)
            &&& !all_taken(before.watchdog_set@) ==> (r matches Ok(o) && exists|id: usize|
                #![trigger arms(before.watchdog_set@, after.watchdog_set@, id, deadline_of(now_ms, ms))]
                only_answers(o, Disposition::Reply(KernReply::WatchdogSetReply(id)))
                && arms(before.watchdog_set@, after.watchdog_set@, id, deadline_of(now_ms, ms)))
        },
        KernMessage::WatchdogClear { id } => r matches Ok(o) && only_answers(o, Disposition::Acknowledge)
            && clears(before.watchdog_set@, after.watchdog_set@, id),
        KernMessage::RpcSend { is_async } => {
            &&& !host_attached ==> r == Err::<KernOutcome, SessionError>(SessionError::RpcInFlashKernel)
            &&& host_attached ==> (r matches Ok(o) && {
                &&& o.disposition == Disposition::Acknowledge
                &&& o.report == (Report::RpcRequest { is_async })
                &&& o.log_lines@.len() == 0
                &&& !o.finished
                &&& after.kernel_state == if is_async { KernelState::Running } else { KernelState::RpcWait }
            })
        },
        KernMessage::CacheGetRequest { key } => r matches Ok(o) && exists|c: Option<usize>|
            #![trigger gets(congress_before.cache@, congress_after.cache@, key@, c)]
            only_answers(o, Disposition::Reply(KernReply::CacheGetReply(c)))
            && gets(congress_before.cache@, congress_after.cache@, key@, c),
        KernMessage::CachePutRequest { key, value } => r matches Ok(o) && exists|ok: bool|
            #![trigger only_answers(o, Disposition::Reply(KernReply::CachePutReply(ok)))]
            only_answers(o, Disposition::Reply(KernReply::CachePutReply(ok)))
            && puts(congress_before.cache@, congress_after.cache@, key@, value@,
                if ok { Ok::<(), ()>(()) } else { Err::<(), ()>(()) }),
        KernMessage::RunFinished => r matches Ok(o)
            && ends_run(o, if host_attached { Report::KernelFinished } else { Report::Nothing }, host_attached)
            && after.kernel_state == KernelState::Absent
            && releases(congress_before.cache@, congress_after.cache@),
        KernMessage::RunException => r matches Ok(o)
            && ends_run(o, Report::KernelException, host_attached)
            && after.kernel_state == KernelState::Absent
            && releases(congress_before.cache@, congress_after.cache@),
        _ => r == Err::<KernOutcome, SessionError>(SessionError::Protocol),
    }
}

/// What a log message `text` does: it is acknowledged, and the buffer's
/// lines come out when it then ends a line.
pub open spec fn log_handled(text: Seq<u8>, before: Session, after: Session, r: Result<KernOutcome, SessionError>) -> bool {
    r matches Ok(o) && {
        &&& o.disposition == Disposition::Acknowledge
        &&& o.report == Report::Nothing
        &&& !o.finished
        &&& flushes(before.log_buffer@ + text) ==> after.log_buffer@.len() == 0
            && lines_view(o.log_lines@) == lines_of(before.log_buffer@ + text)
        &&& !flushes(before.log_buffer@ + text) ==> after.log_buffer@ == before.log_buffer@ + text
            && o.log_lines@.len() == 0
    }
}

impl Session {
    fn answer(d: Disposition) -> (o: KernOutcome)
        ensures
            only_answers(o, d),
    {
        KernOutcome { disposition: d, report: Report::Nothing, log_lines: Vec::new(), finished: false }
    }

    fn end_run(&mut self, congress: &mut Congress, report: Report, host_attached: bool) -> (o: KernOutcome)
        requires
            old(congress).cache.wf(),
        ensures
            final(congress).cache.wf(),
            ends_run(o, report, host_attached),
            *final(self) == (Session { kernel_state: KernelState::Absent, ..*old(self) }),
            final(congress).now == old(congress).now,
            releases(old(congress).cache@, final(congress).cache@),
    {
        self.kernel_state = KernelState::Absent;
        congress.cache.unborrow();
        KernOutcome { disposition: Disposition::Stop, report, log_lines: Vec::new(), finished: !host_attached }
    }

    fn log(&mut self, text: &[u8]) -> (r: Result<KernOutcome, SessionError>)
        ensures
            log_handled(text@, *old(self), *final(self), r),
            *final(self) == (Session { log_buffer: final(self).log_buffer, ..*old(self) }),
    {
        let lines = self.log_buffer.append(text);
        Ok(KernOutcome { disposition: Disposition::Acknowledge, report: Report::Nothing, log_lines: lines, finished: false })
    }

    /// Handles one message posted by the kernel CPU. Messages a waiting
    /// step is for are left pending; in any state but Running every other
    /// message is an error. `host_attached` tells a host session from a
    /// flash kernel run; `now_ms` is the time, for watchdog deadlines.
    pub fn process_kern_message(
        &mut self,
        congress: &mut Congress,
        msg: &KernMessage,
        host_attached: bool,
        now_ms: u64,
    ) -> (r: Result<KernOutcome, SessionError>)
        requires
            old(self).wf(),
            old(congress).cache.wf(),
        ensures
            final(self).wf(),
            final(congress).cache.wf(),
            permitted_edge(old(self).kernel_state, final(self).kernel_state),
            standby(*msg, old(self).kernel_state) ==> (r matches Ok(o) && only_answers(o, Disposition::Pending)
                && *final(self) == *old(self) && *final(congress) == *old(congress)),
            !standby(*msg, old(self).kernel_state) && !(old(self).kernel_state is Running)
                ==> r == Err::<KernOutcome, SessionError>(SessionError::Protocol)
                && *final(self) == *old(self) && *final(congress) == *old(congress),
            old(self).kernel_state is Running ==> handles_running(*msg, host_attached, now_ms,
                *old(self), *final(self), *old(congress), *final(congress), r),
            old(self).kernel_state is Running ==> keeps_untouched(*msg, *old(self), *final(self),
                *old(congress), *final(congress)),
            r matches Ok(o) ==> (o.disposition is Pending <==> standby(*msg, old(self).kernel_state)),
            r matches Ok(o) ==> (o.disposition is Stop <==> ends(*msg)),
            r matches Ok(o) ==> (!standby(*msg, old(self).kernel_state) && !ends(*msg)
                ==> (o.disposition is Acknowledge || o.disposition is Reply)),
            r matches Ok(o) ==> (o.disposition is Stop ==> final(self).kernel_state is Absent
                && none_borrowed(final(congress).cache@)),
    {
        match (msg, self.kernel_state) {
            (KernMessage::LoadReply { .. }, KernelState::Loaded) => Ok(Self::answer(Disposition::Pending)),
            (KernMessage::RpcRecvRequest, KernelState::RpcWait) => Ok(Self::answer(Disposition::Pending)),
            (_, KernelState::Running) => self.handle_running(congress, msg, host_attached, now_ms),
            _ => Err(SessionError::Protocol),
        }
    }

    fn handle_running(
        &mut self,
        congress: &mut Congress,
        msg: &KernMessage,
        host_attached: bool,
        now_ms: u64,
    ) -> (r: Result<KernOutcome, SessionError>)
        requires
            old(self).wf(),
            old(congress).cache.wf(),
            old(self).kernel_state is Running,
        ensures
            final(self).wf(),
            final(congress).cache.wf(),
            permitted_edge(old(self).kernel_state, final(self).kernel_state),
            handles_running(*msg, host_attached, now_ms, *old(self), *final(self), *old(congress), *final(congress), r),
            keeps_untouched(*msg, *old(self), *final(self), *old(congress), *final(congress)),
    {
        let r = match msg {
            KernMessage::Log(text) => self.log(text.as_slice()),
            KernMessage::LogSlice(text) => self.log(text.as_slice()),
            KernMessage::NowInitRequest => Ok(Self::answer(Disposition::Reply(KernReply::NowInitReply(congress.now)))),
            KernMessage::NowSave(t) => {
                congress.now = *t;
                Ok(Self::answer(Disposition::Acknowledge))
            },
            KernMessage::WatchdogSetRequest { ms } => {
                match self.watchdog_set.set_ms(now_ms, *ms) {
                    Ok(id) => {
                        let o = Self::answer(Disposition::Reply(KernReply::WatchdogSetReply(id)));
                        assert(arms(old(self).watchdog_set@, self.watchdog_set@, id, deadline_of(now_ms, *ms)));
                        Ok(o)
                    },
                    Err(()) => Err(SessionError::OutOfWatchdogs),
                }
            },
            KernMessage::WatchdogClear { id } => {
                self.watchdog_set.clear(*id);
                Ok(Self::answer(Disposition::Acknowledge))
            },
            KernMessage::RpcSend { is_async } => {
                if !host_attached {
                    return Err(SessionError::RpcInFlashKernel);
                }
                if !*is_async {
                    self.kernel_state = KernelState::RpcWait;
                }
                Ok(KernOutcome {
                    disposition: Disposition::Acknowledge,
                    report: Report::RpcRequest { is_async: *is_async },
                    log_lines: Vec::new(),
                    finished: false,
                })
            },
            KernMessage::CacheGetRequest { key } => {
                let cell = congress.cache.get(key.as_slice());
                assert(gets(old(congress).cache@, congress.cache@, key@, cell));
                Ok(Self::answer(Disposition::Reply(KernReply::CacheGetReply(cell))))
            },
            KernMessage::CachePutRequest { key, value } => {
                let put = congress.cache.put(key.as_slice(), value.as_slice());
                let succeeded = put.is_ok();
                Ok(Self::answer(Disposition::Reply(KernReply::CachePutReply(succeeded))))
            },
            KernMessage::RunFinished => {
                let report = if host_attached { Report::KernelFinished } else { Report::Nothing };
                Ok(self.end_run(congress, report, host_attached))
            },
            KernMessage::RunException => Ok(self.end_run(congress, Report::KernelException, host_attached)),
            _ => Err(SessionError::Protocol),
        };
        r
    }
}

} // verus!
