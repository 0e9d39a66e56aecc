use winit_softbuffer_bar::notifier::{ExitReason, PollCodes, Worker, WorkerAction, WorkerEvent};

fn polled(ready: i32, errno: Option<i32>, revents: i16) -> WorkerEvent {
    WorkerEvent::Polled { ready, errno, revents }
}

fn exit(reason: ExitReason) -> WorkerAction {
    WorkerAction::Exit { reason }
}

#[test]
fn native_codes_are_those_of_the_platform() {
    let codes = Worker::new().codes;
    assert_eq!(codes.readable, libc::POLLIN);
    assert_eq!(codes.error, libc::POLLERR);
    assert_eq!(codes.hangup, libc::POLLHUP);
    assert_eq!(codes.invalid, libc::POLLNVAL);
    assert_eq!(codes.interrupted, libc::EINTR);
}

#[test]
fn native_codes_tell_data_from_failures() {
    let codes = Worker::new().codes;
    assert_ne!(codes.readable, 0);
    assert_eq!(codes.readable & (codes.error | codes.hangup | codes.invalid), 0);
    assert_eq!(codes.error & codes.hangup, 0);
    assert_eq!(codes.error & codes.invalid, 0);
    assert_eq!(codes.hangup & codes.invalid, 0);
    assert_ne!(codes.interrupted, 0);
}

#[test]
fn worker_polls_until_it_is_stopped() {
    let worker = Worker::new();
    assert_eq!(
        worker.next(WorkerEvent::LoopTop { stop: false }),
        WorkerAction::Poll { timeout_millis: 250 }
    );
    assert_eq!(worker.next(WorkerEvent::LoopTop { stop: true }), exit(ExitReason::Stopped));
}

#[test]
fn interrupted_poll_is_repeated_and_failed_poll_ends_the_thread() {
    let worker = Worker::new();
    assert_eq!(worker.next(polled(-1, Some(libc::EINTR), 0)), WorkerAction::Again);
    assert_eq!(worker.next(polled(-1, Some(libc::EBADF), 0)), exit(ExitReason::PollFailed));
    assert_eq!(worker.next(polled(-1, None, libc::POLLIN)), exit(ExitReason::PollFailed));
}

#[test]
fn poll_that_timed_out_is_repeated() {
    let worker = Worker::new();
    assert_eq!(worker.next(polled(0, None, libc::POLLIN)), WorkerAction::Again);
    assert_eq!(worker.next(polled(0, None, libc::POLLHUP)), WorkerAction::Again);
}

#[test]
fn readable_descriptor_is_drained() {
    let worker = Worker::new();
    assert_eq!(worker.next(polled(1, None, libc::POLLIN)), WorkerAction::Drain);
    assert_eq!(worker.next(polled(1, None, libc::POLLPRI)), WorkerAction::Again);
}

#[test]
fn failure_bits_win_over_data() {
    let worker = Worker::new();
    for bit in [libc::POLLERR, libc::POLLHUP, libc::POLLNVAL] {
        assert_eq!(worker.next(polled(1, None, bit)), exit(ExitReason::Unusable));
        assert_eq!(worker.next(polled(1, None, bit | libc::POLLIN)), exit(ExitReason::Unusable));
    }
}

#[test]
fn codes_of_another_platform_are_respected() {
    let worker = Worker::with_codes(PollCodes {
        readable: 0x0041,
        error: 0x0004,
        hangup: 0x0080,
        invalid: 0x1000,
        interrupted: 27,
    });
    assert_eq!(worker.next(polled(1, None, 0x0040)), WorkerAction::Drain);
    assert_eq!(worker.next(polled(1, None, 0x0008)), WorkerAction::Again);
    assert_eq!(worker.next(polled(1, None, 0x1001)), exit(ExitReason::Unusable));
    assert_eq!(worker.next(polled(-1, Some(27), 0)), WorkerAction::Again);
    assert_eq!(worker.next(polled(-1, Some(4), 0)), exit(ExitReason::PollFailed));
}

#[test]
fn drained_notifications_are_announced_once() {
    let worker = Worker::new();
    assert_eq!(worker.next(WorkerEvent::Drained { count: Some(0) }), WorkerAction::Again);
    assert_eq!(worker.next(WorkerEvent::Drained { count: Some(3) }), WorkerAction::Claim);
    assert_eq!(worker.next(WorkerEvent::Claimed { won: true }), WorkerAction::Send);
    assert_eq!(worker.next(WorkerEvent::Claimed { won: false }), WorkerAction::CheckPending);
    assert_eq!(worker.next(WorkerEvent::Sent { delivered: true }), WorkerAction::CheckPending);
}

#[test]
fn failures_after_the_poll_end_the_thread() {
    let worker = Worker::new();
    assert_eq!(worker.next(WorkerEvent::Drained { count: None }), exit(ExitReason::DrainFailed));
    assert_eq!(worker.next(WorkerEvent::Sent { delivered: false }), WorkerAction::ReleaseAndExit);
}

#[test]
fn worker_waits_while_an_update_is_pending() {
    let worker = Worker::new();
    let waited = |pending: bool, stop: bool| worker.next(WorkerEvent::Waited { pending, stop });
    assert_eq!(waited(true, false), WorkerAction::Sleep { millis: 10 });
    assert_eq!(waited(true, true), WorkerAction::Again);
    assert_eq!(waited(false, false), WorkerAction::Again);
    assert_eq!(waited(false, true), WorkerAction::Again);
}

#[test]
fn at_most_one_update_is_queued() {
    let worker = Worker::new();
    let mut pending = false;
    let mut queued: u32 = 0;
    let mut sent: u32 = 0;
    let mut action = WorkerAction::Again;
    for turn in 0..200 {
        let event = match action {
            WorkerAction::Again => WorkerEvent::LoopTop { stop: false },
            WorkerAction::Poll { .. } => polled(1, None, libc::POLLIN),
            WorkerAction::Drain => WorkerEvent::Drained { count: Some(1) },
            WorkerAction::Claim => {
                let won = !pending;
                pending = true;
                assert!(won);
                WorkerEvent::Claimed { won }
            }
            WorkerAction::Send => {
                queued += 1;
                sent += 1;
                WorkerEvent::Sent { delivered: true }
            }
            WorkerAction::CheckPending | WorkerAction::Sleep { .. } => {
                WorkerEvent::Waited { pending, stop: false }
            }
            WorkerAction::ReleaseAndExit | WorkerAction::Exit { .. } => panic!("thread ended"),
        };
        action = worker.next(event);
        assert!(queued <= 1);
        if turn % 7 == 6 && queued == 1 {
            queued = 0;
            pending = false;
        }
    }
    assert!(sent > 5);
}

/// The actions of a thread that is asked to stop just before `action`, where the
/// event loop never clears the flag.
fn actions_after_stop(mut action: WorkerAction, mut pending: bool) -> (Vec<WorkerAction>, bool) {
    let worker = Worker::new();
    let mut actions = vec![action];
    loop {
        let event = match action {
            WorkerAction::Again => WorkerEvent::LoopTop { stop: true },
            WorkerAction::Poll { .. } => polled(1, None, libc::POLLIN),
            WorkerAction::Drain => WorkerEvent::Drained { count: Some(1) },
            WorkerAction::Claim => {
                let won = !pending;
                pending = true;
                WorkerEvent::Claimed { won }
            }
            WorkerAction::Send => WorkerEvent::Sent { delivered: false },
            WorkerAction::CheckPending | WorkerAction::Sleep { .. } => {
                WorkerEvent::Waited { pending, stop: true }
            }
            WorkerAction::ReleaseAndExit => return (actions, false),
            WorkerAction::Exit { .. } => return (actions, pending),
        };
        action = worker.next(event);
        actions.push(action);
    }
}

#[test]
fn stopped_thread_ends_soon() {
    let poll = WorkerAction::Poll { timeout_millis: 250 };
    let (actions, _) = actions_after_stop(poll, false);
    assert_eq!(
        actions,
        vec![
            poll,
            WorkerAction::Drain,
            WorkerAction::Claim,
            WorkerAction::Send,
            WorkerAction::ReleaseAndExit,
        ]
    );
    let (actions, _) = actions_after_stop(WorkerAction::Sleep { millis: 10 }, true);
    assert_eq!(
        actions,
        vec![
            WorkerAction::Sleep { millis: 10 },
            WorkerAction::Again,
            exit(ExitReason::Stopped),
        ]
    );
}

#[test]
fn thread_that_could_not_send_leaves_no_stale_flag() {
    let (_, pending) = actions_after_stop(WorkerAction::Claim, false);
    assert!(!pending);
}

#[test]
fn stale_pending_flag_costs_one_more_look() {
    let worker = Worker::new();
    let stale = WorkerEvent::Waited { pending: true, stop: false };
    assert_eq!(worker.next(stale), WorkerAction::Sleep { millis: 10 });
    let cleared = WorkerEvent::Waited { pending: false, stop: false };
    assert_eq!(worker.next(cleared), WorkerAction::Again);
}
