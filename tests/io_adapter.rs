use ptyfork::error::PtyError;
use ptyfork::stream::{io_step, IoAction, IoEvent};
use ptyfork::syscall::{checked_count, checked_status};

#[test]
fn transfer_return_values() {
    assert_eq!(checked_count(-1), None);
    assert_eq!(checked_count(0), Some(0));
    assert_eq!(checked_count(1024), Some(1024));
}

#[test]
fn status_return_values() {
    assert!(!checked_status(-1));
    assert!(checked_status(0));
    assert!(checked_status(17));
}

#[test]
fn readiness_events() {
    assert_eq!(io_step(IoEvent::NotReady), IoAction::Suspend);
    assert_eq!(io_step(IoEvent::Ready), IoAction::Attempt);
    assert_eq!(io_step(IoEvent::ReadyFailed), IoAction::Fail);
}

#[test]
fn transfer_events() {
    assert_eq!(io_step(IoEvent::Transferred(5)), IoAction::Complete(5));
    assert_eq!(io_step(IoEvent::TransferFailed), IoAction::Fail);
}

#[test]
fn end_of_stream_is_zero_bytes() {
    assert_eq!(io_step(IoEvent::Transferred(0)), IoAction::Complete(0));
}

#[test]
fn would_block_waits_for_fresh_readiness() {
    assert_eq!(io_step(IoEvent::WouldBlock), IoAction::AwaitReadiness);
}

#[test]
fn stale_signals_cost_one_attempt_each() {
    // Ten stale readiness signals, then data: one raw call per signal.
    let mut attempts = 0;
    let mut signals = 0;
    let mut pending_data = 10;
    let mut event = IoEvent::Ready;
    let moved = loop {
        match io_step(event) {
            IoAction::Attempt => {
                attempts += 1;
                event = if pending_data == 0 { IoEvent::Transferred(4) } else { IoEvent::WouldBlock };
            }
            IoAction::AwaitReadiness => {
                pending_data -= 1;
                signals += 1;
                event = IoEvent::Ready;
            }
            IoAction::Complete(n) => break n,
            other => panic!("unexpected action {:?}", other),
        }
    };
    assert_eq!(moved, 4);
    assert_eq!(attempts, signals + 1);
    assert_eq!(attempts, 11);
}

#[test]
fn partial_writes_resubmitted_complete() {
    // The kernel takes at most four bytes per call; ten are requested.
    let requested: usize = 10;
    let mut total: usize = 0;
    let mut calls = 0;
    while total < requested {
        let remainder = requested - total;
        assert_eq!(io_step(IoEvent::Ready), IoAction::Attempt);
        match io_step(IoEvent::Transferred(remainder.min(4))) {
            IoAction::Complete(n) => total += n,
            other => panic!("unexpected action {:?}", other),
        }
        calls += 1;
    }
    assert_eq!(total, requested);
    assert_eq!(calls, 3);
}

#[test]
fn syscall_error_carries_os_error() {
    let e = PtyError::SyscallFailed(std::io::Error::from_raw_os_error(libc::EIO));
    match e {
        PtyError::SyscallFailed(err) => assert_eq!(err.raw_os_error(), Some(libc::EIO)),
    }
}
