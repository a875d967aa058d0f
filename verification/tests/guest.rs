use cfctl::guest::{wait_timeout_step, ExitStatusInfo, GuestHandle, GuestRegistry, WaitStep, WAIT_POLL_MILLIS};
use cfctl::host::{GuestSignal, HostCall, Reply, SignalReport, Step};
use cfctl::supervise::{Terminate, TerminatePhase, KILL_WAIT_MILLIS};

fn exit(code: Option<i32>, signal: Option<i32>) -> ExitStatusInfo {
    ExitStatusInfo { code, signal }
}

#[test]
fn exit_status_success_and_description() {
    assert!(exit(Some(0), None).success());
    assert!(!exit(Some(1), None).success());
    assert!(!exit(Some(0), Some(9)).success());
    assert!(!exit(None, Some(15)).success());
    assert!(!exit(None, None).success());
    assert_eq!(exit(Some(42), None).describe(), "exit code 42");
    assert_eq!(exit(Some(-1), None).describe(), "exit code -1");
    assert_eq!(exit(None, Some(9)).describe(), "signal 9");
    assert_eq!(exit(Some(1), Some(2)).describe(), "exit code 1 (signal 2)");
    assert_eq!(exit(None, None).describe(), "unknown status");
}

#[test]
fn try_wait_caches_the_exit() {
    let mut handle = GuestHandle::new(77, 5);
    assert_eq!(handle.pid(), 77);
    assert_eq!(handle.token(), 5);
    assert!(handle.must_poll());
    assert_eq!(handle.try_wait(Ok(None)), Ok(None));
    assert!(handle.must_poll());
    assert_eq!(handle.try_wait(Err("poll failed".to_string())), Err("poll failed".to_string()));
    assert!(handle.must_poll());
    let status = exit(Some(3), None);
    assert_eq!(handle.try_wait(Ok(Some(status))), Ok(Some(status)));
    assert!(!handle.must_poll());
    // From now on the cached status answers, whatever polling would say.
    assert_eq!(handle.try_wait(Ok(None)), Ok(Some(status)));
    assert_eq!(handle.try_wait(Err("gone".to_string())), Ok(Some(status)));
    assert_eq!(handle.try_wait(Ok(Some(exit(Some(9), None)))), Ok(Some(status)));
    assert_eq!(handle.wait(Err("gone".to_string())), Ok(status));
}

#[test]
fn wait_detaches_the_process() {
    let mut handle = GuestHandle::new(1, 1);
    assert_eq!(handle.wait(Err("interrupted".to_string())), Err("interrupted".to_string()));
    assert!(!handle.must_poll());
    assert_eq!(handle.wait(Ok(exit(Some(0), None))), Err("guest process already awaited".to_string()));
    assert_eq!(handle.try_wait(Ok(Some(exit(Some(0), None)))), Ok(None));

    let mut handle = GuestHandle::new(2, 2);
    let status = exit(None, Some(15));
    assert_eq!(handle.wait(Ok(status)), Ok(status));
    assert_eq!(handle.wait(Err("x".to_string())), Ok(status));
}

#[test]
fn bounded_wait_decides_by_the_deadline() {
    let status = exit(Some(0), None);
    assert_eq!(wait_timeout_step(Some(status), 0, 10), WaitStep::Exited(status));
    assert_eq!(wait_timeout_step(Some(status), 20, 10), WaitStep::Exited(status));
    assert_eq!(wait_timeout_step(None, 9, 10), WaitStep::Retry(WAIT_POLL_MILLIS));
    assert_eq!(wait_timeout_step(None, 10, 10), WaitStep::TimedOut);
    assert_eq!(WAIT_POLL_MILLIS, 200);
    let mut handle = GuestHandle::new(3, 3);
    assert_eq!(handle.wait_timeout(Ok(None), 5, 10), Ok(WaitStep::Retry(200)));
    assert_eq!(handle.wait_timeout(Ok(None), 10, 10), Ok(WaitStep::TimedOut));
    assert_eq!(handle.wait_timeout(Err("e".to_string()), 10, 10), Err("e".to_string()));
    assert_eq!(handle.wait_timeout(Ok(Some(status)), 10, 10), Ok(WaitStep::Exited(status)));
    assert_eq!(handle.wait_timeout(Ok(None), 0, 10), Ok(WaitStep::Exited(status)));
}

#[test]
fn registry_keeps_one_handle_per_instance() {
    let mut registry = GuestRegistry::new();
    assert!(!registry.contains(1));
    assert_eq!(registry.get(1), None);
    let first = GuestHandle::new(10, 100);
    let second = GuestHandle::new(11, 101);
    assert_eq!(registry.insert(1, &first), None);
    assert!(registry.contains(1));
    assert_eq!(registry.get(1), Some(100));
    assert_eq!(registry.insert(2, &first), None);
    // A second insert replaces the handle and hands the old one back.
    assert_eq!(registry.insert(1, &second), Some(100));
    assert_eq!(registry.get(1), Some(101));
    assert_eq!(registry.get(2), Some(100));
    assert!(!registry.contains(3));
}

#[test]
fn registry_removes_only_the_handle_named() {
    let mut registry = GuestRegistry::new();
    let newer = GuestHandle::new(11, 101);
    registry.insert(1, &newer);
    // A stale remover holds the token of an older handle.
    assert_eq!(registry.remove_if_handle(1, 100), None);
    assert_eq!(registry.get(1), Some(101));
    assert_eq!(registry.remove_if_handle(2, 101), None);
    assert_eq!(registry.remove_if_handle(1, 101), Some(101));
    assert!(!registry.contains(1));
    assert_eq!(registry.remove_if_handle(1, 101), None);
}

#[test]
fn signals_have_their_numbers() {
    assert_eq!(GuestSignal::Terminate.number(), 15);
    assert_eq!(GuestSignal::Kill.number(), 9);
}

#[test]
fn signal_reports_count_a_vanished_process_as_done() {
    let report = |delivered, no_such_process| SignalReport { delivered, no_such_process, error: "EPERM".to_string() };
    assert_eq!(report(true, false).outcome(), Ok(()));
    assert_eq!(report(false, true).outcome(), Ok(()));
    assert_eq!(report(false, false).outcome(), Err("EPERM".to_string()));
}

fn delivered() -> Reply {
    Reply::Signalled(SignalReport { delivered: true, no_such_process: false, error: String::new() })
}

#[test]
fn termination_escalates_and_unregisters() {
    let mut registry = GuestRegistry::new();
    assert!(matches!(Terminate::begin(&registry, 4, 2_000), Step::Done(Ok(None), _)));
    registry.insert(4, &GuestHandle::new(40, 400));
    let Step::Ask(op, d) = Terminate::begin(&registry, 4, 2_000) else { panic!("expected a signal") };
    assert!(matches!(d.call, HostCall::Signal { token: 400, signal: GuestSignal::Terminate }));
    assert_eq!(op.phase, TerminatePhase::Asked);
    let Step::Ask(op, d) = op.resume(&mut registry, delivered()) else { panic!("expected a wait") };
    assert!(matches!(d.call, HostCall::AwaitGuest { token: 400, millis: 2_000 }));
    let Step::Ask(op, d) = op.resume(&mut registry, Reply::Guest(Ok(None))) else { panic!("expected a kill") };
    assert!(matches!(d.call, HostCall::Signal { token: 400, signal: GuestSignal::Kill }));
    let Step::Ask(op, d) = op.resume(&mut registry, delivered()) else { panic!("expected a wait") };
    assert!(matches!(d.call, HostCall::AwaitGuest { token: 400, millis: KILL_WAIT_MILLIS }));
    assert!(registry.contains(4));
    // The process never exits; the handle is dropped all the same.
    let done = op.resume(&mut registry, Reply::Guest(Ok(None)));
    assert!(matches!(done, Step::Done(Ok(None), _)));
    assert!(!registry.contains(4));
}

#[test]
fn termination_leaves_a_newer_handle_alone() {
    let mut registry = GuestRegistry::new();
    registry.insert(4, &GuestHandle::new(40, 400));
    let Step::Ask(op, _) = Terminate::begin(&registry, 4, 100) else { panic!("expected a signal") };
    let Step::Ask(op, _) = op.resume(&mut registry, delivered()) else { panic!("expected a wait") };
    registry.insert(4, &GuestHandle::new(41, 401));
    let status = ExitStatusInfo { code: Some(0), signal: None };
    let done = op.resume(&mut registry, Reply::Guest(Ok(Some(status))));
    assert!(matches!(done, Step::Done(Ok(Some(s)), _) if s == status));
    assert_eq!(registry.get(4), Some(401));
}

#[test]
fn termination_fails_when_the_signal_cannot_be_sent() {
    let mut registry = GuestRegistry::new();
    registry.insert(4, &GuestHandle::new(40, 400));
    let Step::Ask(op, _) = Terminate::begin(&registry, 4, 100) else { panic!("expected a signal") };
    let refused = Reply::Signalled(SignalReport { delivered: false, no_such_process: false, error: "EPERM".to_string() });
    assert!(matches!(op.resume(&mut registry, refused), Step::Done(Err(e), _) if e == "EPERM"));
    assert!(registry.contains(4));
    let Step::Ask(op, _) = Terminate::begin(&registry, 4, 100) else { panic!("expected a signal") };
    assert!(matches!(op.resume(&mut registry, Reply::Done(Ok(()))), Step::Done(Err(e), _) if e == "unexpected reply from host"));
}
