use artiq_session::error::SessionError;
use artiq_session::session::{
    expect_rpc_recv_request, Congress, Disposition, HostRequest, HostStep, KernMessage, KernReply,
    KernelState, Report, Session,
};
use artiq_session::supervisor::{
    flash_worker_exit, host_worker_exit, must_interrupt, wants_idle_kernel, WorkerExit, WorkerSlot,
};
use artiq_session::worker::{
    flash_deadlines, flash_kernel_image, flash_queue_check, host_deadlines, next_stage, Stage,
};

fn loaded_and_running(session: &mut Session) {
    assert_eq!(session.process_host_message(HostRequest::LoadKernel), Ok(HostStep::Load));
    assert_eq!(session.kern_loaded(&KernMessage::LoadReply { ok: true }), Ok(()));
    assert_eq!(session.kernel_state, KernelState::Loaded);
    assert_eq!(session.process_host_message(HostRequest::RunKernel), Ok(HostStep::Acknowledge));
    assert_eq!(session.kernel_state, KernelState::Running);
}

#[test]
fn ident_is_served_in_every_state() {
    let mut session = Session::new();
    assert_eq!(session.process_host_message(HostRequest::Ident), Ok(HostStep::Serve));
    loaded_and_running(&mut session);
    assert_eq!(session.process_host_message(HostRequest::Ident), Ok(HostStep::Serve));
    assert_eq!(session.process_host_message(HostRequest::FlashRead), Ok(HostStep::Serve));
    assert_eq!(session.process_host_message(HostRequest::Log), Ok(HostStep::Serve));
    assert!(session.running());
}

#[test]
fn load_run_finish() {
    let mut congress = Congress::new();
    congress.now = 12345;
    let mut session = Session::new();
    loaded_and_running(&mut session);
    let o = session.process_kern_message(&mut congress, &KernMessage::NowInitRequest, true, 0).unwrap();
    assert_eq!(o.disposition, Disposition::Reply(KernReply::NowInitReply(12345)));
    assert_eq!(o.report, Report::Nothing);
    let o = session.process_kern_message(&mut congress, &KernMessage::NowSave(20000), true, 0).unwrap();
    assert_eq!(o.disposition, Disposition::Acknowledge);
    assert_eq!(congress.now, 20000);
    let o = session.process_kern_message(&mut congress, &KernMessage::RunFinished, true, 0).unwrap();
    assert_eq!(o.disposition, Disposition::Stop);
    assert_eq!(o.report, Report::KernelFinished);
    assert!(!o.finished);
    assert_eq!(session.kernel_state, KernelState::Absent);
}

#[test]
fn failed_load_keeps_state() {
    let mut session = Session::new();
    assert_eq!(session.kern_loaded(&KernMessage::LoadReply { ok: false }), Err(SessionError::Protocol));
    assert_eq!(session.kernel_state, KernelState::Absent);
    assert_eq!(session.kern_loaded(&KernMessage::RunFinished), Err(SessionError::Protocol));
    assert_eq!(session.kernel_state, KernelState::Absent);
}

#[test]
fn synchronous_rpc() {
    let mut congress = Congress::new();
    let mut session = Session::new();
    loaded_and_running(&mut session);
    let o = session
        .process_kern_message(&mut congress, &KernMessage::RpcSend { is_async: false }, true, 0)
        .unwrap();
    assert_eq!(o.report, Report::RpcRequest { is_async: false });
    assert_eq!(o.disposition, Disposition::Acknowledge);
    assert_eq!(session.kernel_state, KernelState::RpcWait);
    let o = session.process_kern_message(&mut congress, &KernMessage::RpcRecvRequest, true, 0).unwrap();
    assert_eq!(o.disposition, Disposition::Pending);
    assert_eq!(session.kernel_state, KernelState::RpcWait);
    assert_eq!(session.process_host_message(HostRequest::RpcReply), Ok(HostStep::ReturnValue));
    assert_eq!(session.kernel_state, KernelState::Running);
    assert_eq!(expect_rpc_recv_request(&KernMessage::RpcRecvRequest), Ok(()));
    assert_eq!(expect_rpc_recv_request(&KernMessage::RunFinished), Err(SessionError::Protocol));
    let o = session.process_kern_message(&mut congress, &KernMessage::RunFinished, true, 0).unwrap();
    assert_eq!(o.report, Report::KernelFinished);
}

#[test]
fn asynchronous_rpc_keeps_running() {
    let mut congress = Congress::new();
    let mut session = Session::new();
    loaded_and_running(&mut session);
    let o = session
        .process_kern_message(&mut congress, &KernMessage::RpcSend { is_async: true }, true, 0)
        .unwrap();
    assert_eq!(o.report, Report::RpcRequest { is_async: true });
    assert_eq!(session.kernel_state, KernelState::Running);
}

#[test]
fn exception_rpc() {
    let mut congress = Congress::new();
    let mut session = Session::new();
    loaded_and_running(&mut session);
    session
        .process_kern_message(&mut congress, &KernMessage::RpcSend { is_async: false }, true, 0)
        .unwrap();
    assert_eq!(session.process_host_message(HostRequest::RpcException), Ok(HostStep::ReturnException));
    let name = session.interner.into_c_str(b"ValueError");
    let message = session.interner.into_c_str(b"bad");
    assert_eq!(session.interner.entry(name), b"ValueError\0");
    assert_eq!(session.interner.entry(message), b"bad\0");
    assert_eq!(session.kernel_state, KernelState::Running);
    let o = session.process_kern_message(&mut congress, &KernMessage::RunException, true, 0).unwrap();
    assert_eq!(o.disposition, Disposition::Stop);
    assert_eq!(o.report, Report::KernelException);
    assert_eq!(session.kernel_state, KernelState::Absent);
}

#[test]
fn watchdog_expiry_ends_session() {
    let mut congress = Congress::new();
    let mut session = Session::new();
    loaded_and_running(&mut session);
    let o = session
        .process_kern_message(&mut congress, &KernMessage::WatchdogSetRequest { ms: 10 }, true, 1000)
        .unwrap();
    assert_eq!(o.disposition, Disposition::Reply(KernReply::WatchdogSetReply(0)));
    assert_eq!(host_deadlines(&session, 1005, true), None);
    assert_eq!(host_deadlines(&session, 1020, true), Some(SessionError::WatchdogExpired));
    assert_eq!(host_deadlines(&session, 1005, false), Some(SessionError::ClockFailure));
    let o = session
        .process_kern_message(&mut congress, &KernMessage::WatchdogClear { id: 0 }, true, 1000)
        .unwrap();
    assert_eq!(o.disposition, Disposition::Acknowledge);
    assert_eq!(host_deadlines(&session, 1020, true), None);
}

#[test]
fn deadlines_ignored_outside_running() {
    let session = Session::new();
    assert_eq!(host_deadlines(&session, 0, false), None);
    assert_eq!(flash_deadlines(&session, 0, false), Some(SessionError::ClockFailure));
    assert_eq!(flash_deadlines(&session, 0, true), None);
}

#[test]
fn out_of_watchdogs_fails() {
    let mut congress = Congress::new();
    let mut session = Session::new();
    loaded_and_running(&mut session);
    for i in 0..16 {
        let o = session
            .process_kern_message(&mut congress, &KernMessage::WatchdogSetRequest { ms: 1 }, true, 0)
            .unwrap();
        assert_eq!(o.disposition, Disposition::Reply(KernReply::WatchdogSetReply(i)));
    }
    let r = session.process_kern_message(&mut congress, &KernMessage::WatchdogSetRequest { ms: 1 }, true, 0);
    assert_eq!(r.err(), Some(SessionError::OutOfWatchdogs));
}

#[test]
fn flash_idle_without_kernel() {
    assert_eq!(flash_kernel_image(&[]), Err(SessionError::NotFound));
    assert_eq!(flash_kernel_image(&[1, 2, 3]), Ok(()));
    assert_eq!(flash_worker_exit(&Err(SessionError::NotFound)), WorkerExit::NoKernel);
    assert_eq!(flash_worker_exit(&Err(SessionError::Interrupted)), WorkerExit::Interrupted);
    assert_eq!(flash_worker_exit(&Err(SessionError::WatchdogExpired)), WorkerExit::Aborted);
    assert_eq!(flash_worker_exit(&Ok(())), WorkerExit::Finished);
    assert!(must_interrupt(WorkerSlot::Running));
    assert!(!must_interrupt(WorkerSlot::Terminated));
    assert!(!must_interrupt(WorkerSlot::Empty));
    assert!(wants_idle_kernel(WorkerSlot::Empty));
    assert!(wants_idle_kernel(WorkerSlot::Terminated));
    assert!(!wants_idle_kernel(WorkerSlot::Running));
    let session = Session::new();
    assert_eq!(session.kernel_state, KernelState::Absent);
}

#[test]
fn host_exit_notes() {
    assert_eq!(host_worker_exit(&Ok(())), WorkerExit::Finished);
    assert_eq!(host_worker_exit(&Err(SessionError::UnexpectedEof)), WorkerExit::ConnectionClosed);
    assert_eq!(host_worker_exit(&Err(SessionError::Protocol)), WorkerExit::Aborted);
}

#[test]
fn flash_kernel_run_finishes_worker() {
    let mut congress = Congress::new();
    let mut session = Session::new();
    assert_eq!(session.kern_loaded(&KernMessage::LoadReply { ok: true }), Ok(()));
    assert_eq!(session.kern_run(), Ok(()));
    assert_eq!(flash_queue_check(true), Ok(()));
    assert_eq!(flash_queue_check(false), Err(SessionError::BackgroundRpcInFlashKernel));
    let r = session.process_kern_message(&mut congress, &KernMessage::RpcSend { is_async: true }, false, 0);
    assert_eq!(r.err(), Some(SessionError::RpcInFlashKernel));
    let o = session.process_kern_message(&mut congress, &KernMessage::RunFinished, false, 0).unwrap();
    assert!(o.finished);
    assert_eq!(o.report, Report::Nothing);
    assert_eq!(o.disposition, Disposition::Stop);
}

#[test]
fn flash_kernel_exception_finishes_worker() {
    let mut congress = Congress::new();
    let mut session = Session::new();
    session.kern_loaded(&KernMessage::LoadReply { ok: true }).unwrap();
    session.kern_run().unwrap();
    let o = session.process_kern_message(&mut congress, &KernMessage::RunException, false, 0).unwrap();
    assert!(o.finished);
    assert_eq!(o.report, Report::KernelException);
}

#[test]
fn requests_in_wrong_state_are_protocol_errors() {
    let mut session = Session::new();
    assert_eq!(session.process_host_message(HostRequest::RunKernel), Err(SessionError::Protocol));
    assert_eq!(session.process_host_message(HostRequest::RpcReply), Err(SessionError::Protocol));
    assert_eq!(session.process_host_message(HostRequest::RpcException), Err(SessionError::Protocol));
    loaded_and_running(&mut session);
    assert_eq!(session.process_host_message(HostRequest::LoadKernel), Err(SessionError::Protocol));
    assert_eq!(session.process_host_message(HostRequest::SwitchClock), Err(SessionError::Protocol));
    assert_eq!(session.process_host_message(HostRequest::RunKernel), Err(SessionError::Protocol));
    assert_eq!(session.process_host_message(HostRequest::RpcReply), Err(SessionError::Protocol));
    assert_eq!(session.kernel_state, KernelState::Running);
}

#[test]
fn clock_switch_only_when_idle() {
    let mut session = Session::new();
    assert_eq!(session.process_host_message(HostRequest::SwitchClock), Ok(HostStep::Serve));
}

#[test]
fn kernel_messages_in_wrong_state_are_protocol_errors() {
    let mut congress = Congress::new();
    let mut session = Session::new();
    let r = session.process_kern_message(&mut congress, &KernMessage::NowInitRequest, true, 0);
    assert_eq!(r.err(), Some(SessionError::Protocol));
    session.kern_loaded(&KernMessage::LoadReply { ok: true }).unwrap();
    let o = session.process_kern_message(&mut congress, &KernMessage::LoadReply { ok: true }, true, 0).unwrap();
    assert_eq!(o.disposition, Disposition::Pending);
    session.kern_run().unwrap();
    let r = session.process_kern_message(&mut congress, &KernMessage::Other, true, 0);
    assert_eq!(r.err(), Some(SessionError::Protocol));
    let r = session.process_kern_message(&mut congress, &KernMessage::RpcRecvRequest, true, 0);
    assert_eq!(r.err(), Some(SessionError::Protocol));
}

#[test]
fn kernel_log_lines() {
    let mut congress = Congress::new();
    let mut session = Session::new();
    loaded_and_running(&mut session);
    let o = session
        .process_kern_message(&mut congress, &KernMessage::LogSlice(b"hello ".to_vec()), true, 0)
        .unwrap();
    assert!(o.log_lines.is_empty());
    assert_eq!(o.disposition, Disposition::Acknowledge);
    let o = session
        .process_kern_message(&mut congress, &KernMessage::Log(b"world\n".to_vec()), true, 0)
        .unwrap();
    assert_eq!(o.log_lines, vec![b"hello world".to_vec()]);
}

#[test]
fn cache_borrows_released_when_run_ends() {
    let mut congress = Congress::new();
    let mut session = Session::new();
    loaded_and_running(&mut session);
    let put = KernMessage::CachePutRequest { key: b"k".to_vec(), value: vec![1, 2] };
    let o = session.process_kern_message(&mut congress, &put, true, 0).unwrap();
    assert_eq!(o.disposition, Disposition::Reply(KernReply::CachePutReply(true)));
    let get = KernMessage::CacheGetRequest { key: b"k".to_vec() };
    let o = session.process_kern_message(&mut congress, &get, true, 0).unwrap();
    assert_eq!(o.disposition, Disposition::Reply(KernReply::CacheGetReply(Some(0))));
    assert_eq!(congress.cache.value(0), &[1, 2]);
    let o = session.process_kern_message(&mut congress, &put, true, 0).unwrap();
    assert_eq!(o.disposition, Disposition::Reply(KernReply::CachePutReply(false)));
    let missing = KernMessage::CacheGetRequest { key: b"none".to_vec() };
    let o = session.process_kern_message(&mut congress, &missing, true, 0).unwrap();
    assert_eq!(o.disposition, Disposition::Reply(KernReply::CacheGetReply(None)));
    session.process_kern_message(&mut congress, &KernMessage::RunFinished, true, 0).unwrap();

    let mut next = Session::new();
    loaded_and_running(&mut next);
    let put2 = KernMessage::CachePutRequest { key: b"k".to_vec(), value: vec![3] };
    let o = next.process_kern_message(&mut congress, &put2, true, 0).unwrap();
    assert_eq!(o.disposition, Disposition::Reply(KernReply::CachePutReply(true)));
    assert_eq!(congress.cache.value(0), &[3]);
}

#[test]
fn one_pass_order() {
    assert_eq!(next_stage(Stage::Relinquish, false, true, true), Stage::DrainQueue);
    assert_eq!(next_stage(Stage::DrainQueue, false, true, true), Stage::DrainQueue);
    assert_eq!(next_stage(Stage::DrainQueue, true, true, true), Stage::HostMessage);
    assert_eq!(next_stage(Stage::HostMessage, false, true, true), Stage::KernelMessage);
    assert_eq!(next_stage(Stage::KernelMessage, false, true, true), Stage::Deadlines);
    assert_eq!(next_stage(Stage::Deadlines, false, true, true), Stage::Relinquish);
    assert_eq!(next_stage(Stage::Relinquish, true, false, true), Stage::KernelMessage);
    assert_eq!(next_stage(Stage::Relinquish, true, false, false), Stage::Deadlines);
    assert_eq!(next_stage(Stage::HostMessage, true, true, false), Stage::Deadlines);
}
