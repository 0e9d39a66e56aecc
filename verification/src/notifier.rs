//! The thread that forwards notifications of the shared transport to the event
//! loop.
//!
//! The thread reports what it just did as a [`WorkerEvent`] and does next what
//! [`Worker::next`] answers. It shares a flag with the event loop that marks an
//! update as pending; the event loop clears it once it has drained the transport.

use vstd::prelude::*;

verus! {

/// How long one poll waits.
pub const POLL_TIMEOUT_MILLIS: i32 = 250;

/// How long the thread sleeps between two looks at the pending flag.
pub const PENDING_CHECK_MILLIS: u64 = 10;

/// The numbers by which the platform reports the outcome of a poll.
#[derive(Clone, Copy, Debug, PartialEq, Eq, Structural)]
pub struct PollCodes {
    /// Data can be read.
    pub readable: i16,
    /// An error condition.
    pub error: i16,
    /// The other end is gone.
    pub hangup: i16,
    /// The descriptor is not open.
    pub invalid: i16,
    /// The error number of an interrupted call.
    pub interrupted: i32,
}

impl PollCodes {
    /// Whether the bits returned by a poll say that the descriptor is unusable.
    pub open spec fn unusable(self, revents: i16) -> bool {
        revents & (self.error | self.hangup | self.invalid) != 0
    }

    /// Whether the bits returned by a poll say that there is data to read.
    pub open spec fn has_data(self, revents: i16) -> bool {
        revents & self.readable != 0
    }

    /// Every code is there, and no two of the masks share a bit.
    pub open spec fn wf(self) -> bool {
        &&& self.readable != 0
        &&& self.error != 0
        &&& self.hangup != 0
        &&& self.invalid != 0
        &&& self.interrupted != 0
        &&& !self.unusable(self.readable)
        &&& self.error & self.hangup == 0
        &&& self.error & self.invalid == 0
        &&& self.hangup & self.invalid == 0
    }

    /// The masks are these.
    pub open spec fn has_masks(self, readable: int, error: int, hangup: int, invalid: int) -> bool {
        &&& self.readable == readable
        &&& self.error == error
        &&& self.hangup == hangup
        &&& self.invalid == invalid
    }

    /// The codes are those of a platform with polling: of Linux, the BSDs and most
    /// others; of Emscripten and the Hurd, which number interruption differently;
    /// of QNX; of AIX; of Haiku; or of WASI.
    pub open spec fn of_a_platform(self) -> bool {
        ||| self.has_masks(1, 0x8, 0x10, 0x20) && (self.interrupted == 4 || self.interrupted == 27
            || self.interrupted == 0x4000_0004)
        ||| self.has_masks(5, 0x20, 0x40, 0x1000) && self.interrupted == 4
        ||| self.has_masks(1, 0x4000, 0x2000, -0x8000) && self.interrupted == 4
        ||| self.has_masks(1, 0x4, 0x80, 0x1000) && self.interrupted == -0x7fff_fff6
        ||| self.has_masks(1, 0x1000, 0x2000, 0x4000) && self.interrupted == 27
    }
}

proof fn lemma_platform_codes_are_wf(codes: PollCodes)
    requires
        codes.of_a_platform(),
    ensures
        codes.wf(),
{
    let (r, e, h, n) = (codes.readable, codes.error, codes.hangup, codes.invalid);
    assert(r & (e | h | n) == 0 && e & h == 0 && e & n == 0 && h & n == 0) by (bit_vector)
        requires
            (r == 1 && e == 0x8 && h == 0x10 && n == 0x20) || (r == 5 && e == 0x20 && h == 0x40 && n
                == 0x1000) || (r == 1 && e == 0x4000 && h == 0x2000 && n == -0x8000) || (r == 1 && e
                == 0x4 && h == 0x80 && n == 0x1000) || (r == 1 && e == 0x1000 && h == 0x2000 && n
                == 0x4000),
    ;
}

/// What the thread has just done.
#[derive(Clone, Copy, Debug, PartialEq, Eq, Structural)]
pub enum WorkerEvent {
    /// It is at the top of its loop.
    LoopTop { stop: bool },
    /// A poll came back; `errno` is the error number where it failed with one.
    Polled { ready: i32, errno: Option<i32>, revents: i16 },
    /// The notifications were drained; no count where that failed.
    Drained { count: Option<u64> },
    /// The pending flag was switched from clear to set, or was set already.
    Claimed { won: bool },
    /// An update was handed to the event loop.
    Sent { delivered: bool },
    /// The flags were looked at while waiting for the event loop.
    Waited { pending: bool, stop: bool },
}

/// Why the thread ends.
#[derive(Clone, Copy, Debug, PartialEq, Eq, Structural)]
pub enum ExitReason {
    /// It was asked to.
    Stopped,
    /// A poll failed.
    PollFailed,
    /// The descriptor became unusable.
    Unusable,
    /// The notifications could not be drained.
    DrainFailed,
}

/// What the thread does next.
#[derive(Clone, Copy, Debug, PartialEq, Eq, Structural)]
pub enum WorkerAction {
    /// Poll the descriptor, then report [`WorkerEvent::Polled`].
    Poll { timeout_millis: i32 },
    /// Report [`WorkerEvent::LoopTop`].
    Again,
    /// Drain the notifications, then report [`WorkerEvent::Drained`].
    Drain,
    /// Switch the pending flag from clear to set, then report
    /// [`WorkerEvent::Claimed`].
    Claim,
    /// Send an update, then report [`WorkerEvent::Sent`].
    Send,
    /// Look at the flags and report [`WorkerEvent::Waited`].
    CheckPending,
    /// Sleep, then look at the flags and report [`WorkerEvent::Waited`].
    Sleep { millis: u64 },
    /// Clear the pending flag and end the thread.
    ReleaseAndExit,
    /// End the thread.
    Exit { reason: ExitReason },
}

/// What follows the outcome of a poll.
pub open spec fn after_poll(
    codes: PollCodes,
    ready: i32,
    errno: Option<i32>,
    revents: i16,
) -> WorkerAction {
    if ready < 0 {
        if errno == Some(codes.interrupted) {
            WorkerAction::Again
        } else {
            WorkerAction::Exit { reason: ExitReason::PollFailed }
        }
    } else if ready == 0 {
        WorkerAction::Again
    } else if codes.unusable(revents) {
        WorkerAction::Exit { reason: ExitReason::Unusable }
    } else if codes.has_data(revents) {
        WorkerAction::Drain
    } else {
        WorkerAction::Again
    }
}

/// What follows an event.
pub open spec fn next_spec(codes: PollCodes, event: WorkerEvent) -> WorkerAction {
    match event {
        WorkerEvent::LoopTop { stop } => if stop {
            WorkerAction::Exit { reason: ExitReason::Stopped }
        } else {
            WorkerAction::Poll { timeout_millis: POLL_TIMEOUT_MILLIS }
        },
        WorkerEvent::Polled { ready, errno, revents } => after_poll(codes, ready, errno, revents),
        WorkerEvent::Drained { count: None } => WorkerAction::Exit {
            reason: ExitReason::DrainFailed,
        },
        WorkerEvent::Drained { count: Some(count) } => if count == 0 {
            WorkerAction::Again
        } else {
            WorkerAction::Claim
        },
        WorkerEvent::Claimed { won } => if won {
            WorkerAction::Send
        } else {
            WorkerAction::CheckPending
        },
        WorkerEvent::Sent { delivered } => if delivered {
            WorkerAction::CheckPending
        } else {
            WorkerAction::ReleaseAndExit
        },
        WorkerEvent::Waited { pending, stop } => if pending && !stop {
            WorkerAction::Sleep { millis: PENDING_CHECK_MILLIS }
        } else {
            WorkerAction::Again
        },
    }
}

/// The poll codes of the platform.
///
/// Reads the constants `POLLIN`, `POLLERR`, `POLLHUP`, `POLLNVAL` and `EINTR` of
/// `libc`, whose numbers differ between platforms. Claimed of them: they are those
/// that `libc` lists for one of its platforms. Which platform it is, is not
/// claimed.
#[verifier::external_body]
fn native_codes() -> (codes: PollCodes)
    ensures
        codes.of_a_platform(),
{
    PollCodes {
        readable: libc::POLLIN,
        error: libc::POLLERR,
        hangup: libc::POLLHUP,
        invalid: libc::POLLNVAL,
        interrupted: libc::EINTR,
    }
}

/// The decisions of the forwarding thread.
#[derive(Clone, Copy, Debug, PartialEq, Eq, Structural)]
pub struct Worker {
    pub codes: PollCodes,
}

impl Worker {
    /// A worker for the platform at hand. Its codes are the platform's own; which
    /// platform it is stays open.
    pub fn new() -> (worker: Self)
        ensures
            worker.codes.of_a_platform(),
            worker.codes.wf(),
    {
        let codes = native_codes();
        proof {
            lemma_platform_codes_are_wf(codes);
        }
        Worker { codes }
    }

    /// A worker for a platform with the given codes.
    pub fn with_codes(codes: PollCodes) -> (worker: Self)
        ensures
            worker.codes == codes,
    {
        Worker { codes }
    }

    /// Decides what follows the outcome of a poll.
    fn after_poll(&self, ready: i32, errno: Option<i32>, revents: i16) -> (action: WorkerAction)
        ensures
            action == after_poll(self.codes, ready, errno, revents),
    {
        if ready < 0 {
            return match errno {
                Some(errno) if errno == self.codes.interrupted => WorkerAction::Again,
                _ => WorkerAction::Exit { reason: ExitReason::PollFailed },
            };
        }
        if ready == 0 {
            return WorkerAction::Again;
        }
        if revents & (self.codes.error | self.codes.hangup | self.codes.invalid) != 0 {
            return WorkerAction::Exit { reason: ExitReason::Unusable };
        }
        if revents & self.codes.readable != 0 {
            WorkerAction::Drain
        } else {
            WorkerAction::Again
        }
    }

    /// Decides what the thread does after an event.
    pub fn next(&self, event: WorkerEvent) -> (action: WorkerAction)
        ensures
            action == next_spec(self.codes, event),
    {
        match event {
            WorkerEvent::LoopTop { stop } => if stop {
                WorkerAction::Exit { reason: ExitReason::Stopped }
            } else {
                WorkerAction::Poll { timeout_millis: POLL_TIMEOUT_MILLIS }
            },
            WorkerEvent::Polled { ready, errno, revents } => self.after_poll(ready, errno, revents),
            WorkerEvent::Drained { count } => match count {
                None => WorkerAction::Exit { reason: ExitReason::DrainFailed },
                Some(count) => if count == 0 {
                    WorkerAction::Again
                } else {
                    WorkerAction::Claim
                },
            },
            WorkerEvent::Claimed { won } => if won {
                WorkerAction::Send
            } else {
                WorkerAction::CheckPending
            },
            WorkerEvent::Sent { delivered } => if delivered {
                WorkerAction::CheckPending
            } else {
                WorkerAction::ReleaseAndExit
            },
            WorkerEvent::Waited { pending, stop } => if pending && !stop {
                WorkerAction::Sleep { millis: PENDING_CHECK_MILLIS }
            } else {
                WorkerAction::Again
            },
        }
    }
}

/// Whether `event` reports that `action` was carried out.
pub open spec fn reports(action: WorkerAction, event: WorkerEvent) -> bool {
    match action {
        WorkerAction::Poll { .. } => event is Polled,
        WorkerAction::Again => event is LoopTop,
        WorkerAction::Drain => event is Drained,
        WorkerAction::Claim => event is Claimed,
        WorkerAction::Send => event is Sent,
        WorkerAction::CheckPending => event is Waited,
        WorkerAction::Sleep { .. } => event is Waited,
        WorkerAction::ReleaseAndExit => false,
        WorkerAction::Exit { .. } => false,
    }
}

/// The forwarding thread together with the event loop that it feeds.
pub struct Exchange {
    /// The flag that both share.
    pub pending: bool,
    /// The request to stop.
    pub stop: bool,
    /// Updates that were sent and not yet taken by the event loop.
    pub queued: nat,
    /// The event loop has taken an update and not yet cleared the flag.
    pub handling: bool,
    /// What the thread is about to do; nothing once it has ended.
    pub worker: Option<WorkerAction>,
}

/// One step of either side.
pub enum Step {
    /// The thread carries out what it is about to do, and reports it.
    Work { event: WorkerEvent },
    /// The thread ends.
    End,
    /// The thread is asked to stop.
    RequestStop,
    /// The event loop takes an update from its queue.
    Take,
    /// The event loop has drained the transport and clears the flag.
    Clear,
}

impl Exchange {
    /// Before the thread's first step.
    pub open spec fn initial() -> Self {
        Exchange {
            pending: false,
            stop: false,
            queued: 0,
            handling: false,
            worker: Some(WorkerAction::Again),
        }
    }

    /// Whether the step can happen now. What the thread sees of the flags is what
    /// they are; but while it waits it looks at the pending flag first, which the
    /// event loop may clear before the thread has looked at the request to stop.
    pub open spec fn allows(self, step: Step) -> bool {
        match step {
            Step::Work { event } => {
                &&& self.worker matches Some(action) && reports(action, event)
                &&& event matches WorkerEvent::LoopTop { stop } ==> stop == self.stop
                &&& event matches WorkerEvent::Claimed { won } ==> won == !self.pending
                &&& event matches WorkerEvent::Waited { pending, stop } ==> (self.pending ==> pending)
                    && stop == self.stop
            },
            Step::End => self.worker matches Some(action) && (action is ReleaseAndExit
                || action is Exit),
            Step::RequestStop => true,
            Step::Take => self.queued > 0 && !self.handling,
            Step::Clear => self.handling,
        }
    }

    /// The state after the step.
    pub open spec fn after(self, codes: PollCodes, step: Step) -> Self {
        match step {
            Step::Work { event } => Exchange {
                pending: self.pending || event is Claimed,
                queued: if event == (WorkerEvent::Sent { delivered: true }) {
                    self.queued + 1
                } else {
                    self.queued
                },
                worker: Some(next_spec(codes, event)),
                ..self
            },
            Step::End => Exchange {
                pending: self.pending && self.worker != Some(WorkerAction::ReleaseAndExit),
                worker: None,
                ..self
            },
            Step::RequestStop => Exchange { stop: true, ..self },
            Step::Take => Exchange {
                queued: (self.queued - 1) as nat,
                handling: true,
                ..self
            },
            Step::Clear => Exchange { pending: false, handling: false, ..self },
        }
    }

    /// The thread owns the flag: it has set it and not yet passed it on.
    pub open spec fn worker_holds_flag(self) -> bool {
        self.worker == Some(WorkerAction::Send) || self.worker == Some(WorkerAction::ReleaseAndExit)
    }

    /// The flag is set exactly while one party answers for one update: the thread
    /// before it is sent, the queue, or the event loop that handles it.
    pub open spec fn inv(self) -> bool {
        &&& self.queued + (if self.handling {
            1int
        } else {
            0
        }) + (if self.worker_holds_flag() {
            1int
        } else {
            0
        }) == (if self.pending {
            1int
        } else {
            0
        })
        &&& self.worker == Some(WorkerAction::Again) ==> !self.pending || self.stop
        &&& self.worker matches Some(WorkerAction::Poll { .. }) ==> !self.pending
        &&& self.worker == Some(WorkerAction::Drain) ==> !self.pending
        &&& self.worker == Some(WorkerAction::Claim) ==> !self.pending
    }
}

impl Exchange {
    /// The state after several steps.
    pub open spec fn after_all(self, codes: PollCodes, steps: Seq<Step>) -> Exchange
        decreases steps.len(),
    {
        if steps.len() == 0 {
            self
        } else {
            self.after_all(codes, steps.drop_last()).after(codes, steps.last())
        }
    }

    /// Whether each of the steps can happen after those before it.
    pub open spec fn allows_all(self, codes: PollCodes, steps: Seq<Step>) -> bool
        decreases steps.len(),
    {
        steps.len() > 0 ==> self.allows_all(codes, steps.drop_last()) && self.after_all(
            codes,
            steps.drop_last(),
        ).allows(steps.last())
    }
}

/// The state that a sequence of steps leads to from the start.
pub open spec fn outcome(codes: PollCodes, steps: Seq<Step>) -> Exchange {
    Exchange::initial().after_all(codes, steps)
}

/// Whether the steps can happen one after the other from the start.
pub open spec fn is_history(codes: PollCodes, steps: Seq<Step>) -> bool {
    Exchange::initial().allows_all(codes, steps)
}

proof fn lemma_history_keeps_inv(codes: PollCodes, steps: Seq<Step>)
    requires
        is_history(codes, steps),
    ensures
        outcome(codes, steps).inv(),
    decreases steps.len(),
{
    if steps.len() > 0 {
        lemma_history_keeps_inv(codes, steps.drop_last());
    }
}

/// How many more steps the thread can take before it ends, once it is asked to
/// stop.
pub open spec fn steps_left(worker: Option<WorkerAction>) -> int {
    match worker {
        None => 0,
        Some(WorkerAction::ReleaseAndExit) => 1,
        Some(WorkerAction::Exit { .. }) => 1,
        Some(WorkerAction::Again) => 2,
        Some(WorkerAction::CheckPending) => 3,
        Some(WorkerAction::Sleep { .. }) => 3,
        Some(WorkerAction::Send) => 4,
        Some(WorkerAction::Claim) => 5,
        Some(WorkerAction::Drain) => 6,
        Some(WorkerAction::Poll { .. }) => 7,
    }
}

/// How many of the steps are the thread's own.
pub open spec fn worker_steps(steps: Seq<Step>) -> int
    decreases steps.len(),
{
    if steps.len() == 0 {
        0
    } else {
        worker_steps(steps.drop_last()) + (if steps.last() is Work || steps.last() is End {
            1int
        } else {
            0
        })
    }
}

/// A thread that is asked to stop ends after at most seven more steps of its own,
/// even if the event loop never clears the flag; so waiting for its end is safe.
pub proof fn law_stopped_thread_ends(codes: PollCodes, state: Exchange, steps: Seq<Step>)
    requires
        state.stop,
        state.allows_all(codes, steps),
    ensures
        state.after_all(codes, steps).stop,
        worker_steps(steps) + steps_left(state.after_all(codes, steps).worker) <= steps_left(
            state.worker,
        ),
        worker_steps(steps) <= 7,
    decreases steps.len(),
{
    if steps.len() > 0 {
        law_stopped_thread_ends(codes, state, steps.drop_last());
    }
}

/// A thread that has not ended can always go on: it never waits for a step of the
/// event loop.
pub proof fn law_thread_never_blocks(state: Exchange)
    requires
        state.worker is Some,
    ensures
        state.allows(Step::End) || exists|event: WorkerEvent| state.allows(Step::Work { event }),
{
    let event = match state.worker->0 {
        WorkerAction::Poll { .. } => WorkerEvent::Polled { ready: 0, errno: None, revents: 0 },
        WorkerAction::Again => WorkerEvent::LoopTop { stop: state.stop },
        WorkerAction::Drain => WorkerEvent::Drained { count: None },
        WorkerAction::Claim => WorkerEvent::Claimed { won: !state.pending },
        WorkerAction::Send => WorkerEvent::Sent { delivered: false },
        _ => WorkerEvent::Waited { pending: state.pending, stop: state.stop },
    };
    assert(state.allows(Step::End) || state.allows(Step::Work { event }));
}

/// However the thread and the event loop interleave, at most one shared update is
/// queued at a time, and none is queued while one is being handled.
pub proof fn law_at_most_one_update_queued(codes: PollCodes, steps: Seq<Step>)
    requires
        is_history(codes, steps),
    ensures
        outcome(codes, steps).queued <= 1,
        outcome(codes, steps).handling ==> outcome(codes, steps).queued == 0,
{
    lemma_history_keeps_inv(codes, steps);
}

/// While an update is queued or handled, the pending flag is set.
pub proof fn law_outstanding_update_is_marked_pending(codes: PollCodes, steps: Seq<Step>)
    requires
        is_history(codes, steps),
        outcome(codes, steps).queued > 0 || outcome(codes, steps).handling,
    ensures
        outcome(codes, steps).pending,
{
    lemma_history_keeps_inv(codes, steps);
}

/// Whenever the thread tries to set the flag it is clear, so that each batch of
/// notifications that was drained leads to an update of its own being sent.
pub proof fn law_every_drained_batch_is_sent(codes: PollCodes, steps: Seq<Step>, event: WorkerEvent)
    requires
        is_history(codes, steps),
        outcome(codes, steps).worker == Some(WorkerAction::Claim),
        outcome(codes, steps).allows(Step::Work { event }),
    ensures
        event == (WorkerEvent::Claimed { won: true }),
        outcome(codes, steps).after(codes, Step::Work { event }).worker == Some(WorkerAction::Send),
{
    lemma_history_keeps_inv(codes, steps);
}

/// A thread that has ended leaves no pending flag behind unless an update is
/// still queued or handled.
pub proof fn law_ended_thread_leaves_no_stale_flag(codes: PollCodes, steps: Seq<Step>)
    requires
        is_history(codes, steps),
        outcome(codes, steps).worker is None,
        outcome(codes, steps).pending,
    ensures
        outcome(codes, steps).queued == 1 || outcome(codes, steps).handling,
{
    lemma_history_keeps_inv(codes, steps);
}

/// A poll that reports nothing but readable data leads to a drain, and one that
/// reports a failure ends the thread even if there is data as well.
pub proof fn law_failure_bits_win_over_data(codes: PollCodes, ready: i32, errno: Option<i32>)
    requires
        codes.wf(),
        ready > 0,
    ensures
        next_spec(codes, WorkerEvent::Polled { ready, errno, revents: codes.readable })
            == WorkerAction::Drain,
        forall|revents: i16| #[trigger]
            codes.unusable(revents) ==> next_spec(
                codes,
                WorkerEvent::Polled { ready, errno, revents },
            ) == (WorkerAction::Exit { reason: ExitReason::Unusable }),
{
    let readable = codes.readable;
    assert(readable != 0 ==> readable & readable != 0) by (bit_vector);
}

/// The thread polls exactly when it is at the top of its loop and was not asked to
/// stop, and then waits for a quarter of a second at most; asked to stop there, it
/// ends.
pub proof fn law_polling_goes_on_until_a_stop(codes: PollCodes, event: WorkerEvent)
    ensures
        next_spec(codes, event) is Poll <==> event == (WorkerEvent::LoopTop { stop: false }),
        next_spec(codes, event) is Poll ==> next_spec(codes, event) == (WorkerAction::Poll {
            timeout_millis: 250,
        }),
        next_spec(codes, event) == (WorkerAction::Exit { reason: ExitReason::Stopped }) <==> event
            == (WorkerEvent::LoopTop { stop: true }),
{
}

/// Notifications are drained exactly when a poll found the descriptor ready, the
/// readable bit is among those returned, and none of the failure bits is.
pub proof fn law_draining_needs_data_and_no_failure(codes: PollCodes, event: WorkerEvent)
    ensures
        next_spec(codes, event) == WorkerAction::Drain <==> match event {
            WorkerEvent::Polled { ready, errno, revents } => ready > 0 && revents & codes.readable
                != 0 && revents & codes.error == 0 && revents & codes.hangup == 0 && revents
                & codes.invalid == 0,
            _ => false,
        },
{
    if let WorkerEvent::Polled { ready, errno, revents } = event {
        lemma_failure_bits(codes, revents);
    }
}

/// A failure bit of a ready descriptor ends the thread as unusable, and nothing
/// else does; a failed poll ends it unless it was merely interrupted; a failed
/// drain ends it.
pub proof fn law_failures_end_the_thread(codes: PollCodes, event: WorkerEvent)
    ensures
        next_spec(codes, event) == (WorkerAction::Exit { reason: ExitReason::Unusable })
            <==> match event {
            WorkerEvent::Polled { ready, errno, revents } => ready > 0 && (revents & codes.error
                != 0 || revents & codes.hangup != 0 || revents & codes.invalid != 0),
            _ => false,
        },
        next_spec(codes, event) == (WorkerAction::Exit { reason: ExitReason::PollFailed })
            <==> match event {
            WorkerEvent::Polled { ready, errno, revents } => ready < 0 && errno != Some(
                codes.interrupted,
            ),
            _ => false,
        },
        next_spec(codes, event) == (WorkerAction::Exit { reason: ExitReason::DrainFailed })
            <==> event == (WorkerEvent::Drained { count: None }),
{
    if let WorkerEvent::Polled { ready, errno, revents } = event {
        lemma_failure_bits(codes, revents);
    }
}

proof fn lemma_failure_bits(codes: PollCodes, revents: i16)
    ensures
        codes.unusable(revents) <==> revents & codes.error != 0 || revents & codes.hangup != 0
            || revents & codes.invalid != 0,
{
    let (e, h, n) = (codes.error, codes.hangup, codes.invalid);
    assert(revents & (e | h | n) != 0 <==> revents & e != 0 || revents & h != 0 || revents & n != 0)
        by (bit_vector);
}

/// The flag is claimed after every drain that brought notifications, however many,
/// and after nothing else; a drain that brought none leads back to polling.
pub proof fn law_every_batch_claims_the_flag(codes: PollCodes, event: WorkerEvent)
    ensures
        next_spec(codes, event) == WorkerAction::Claim <==> match event {
            WorkerEvent::Drained { count: Some(count) } => count > 0,
            _ => false,
        },
        next_spec(codes, WorkerEvent::Drained { count: Some(0) }) == WorkerAction::Again,
{
}

/// An update is sent exactly when the flag was claimed; one that could not be
/// delivered gives the flag back and ends the thread, and that happens in no other
/// case.
pub proof fn law_claimed_flag_is_sent_or_given_back(codes: PollCodes, event: WorkerEvent)
    ensures
        next_spec(codes, event) == WorkerAction::Send <==> event == (WorkerEvent::Claimed {
            won: true,
        }),
        next_spec(codes, event) == WorkerAction::ReleaseAndExit <==> event == (WorkerEvent::Sent {
            delivered: false,
        }),
        next_spec(codes, event) == WorkerAction::CheckPending <==> event == (WorkerEvent::Sent {
            delivered: true,
        }) || event == (WorkerEvent::Claimed { won: false }),
{
}

/// The thread sleeps exactly while an update is pending and no stop is requested,
/// ten milliseconds at a time.
pub proof fn law_thread_sleeps_while_an_update_is_pending(codes: PollCodes, event: WorkerEvent)
    ensures
        next_spec(codes, event) is Sleep <==> event == (WorkerEvent::Waited {
            pending: true,
            stop: false,
        }),
        next_spec(codes, event) is Sleep ==> next_spec(codes, event) == (WorkerAction::Sleep {
            millis: 10,
        }),
{
}

/// The thread goes back to the top of its loop exactly after a poll that was
/// interrupted, timed out or brought neither data nor a failure, after a drain that
/// brought nothing, and when its waiting is over.
pub proof fn law_loop_starts_again(codes: PollCodes, event: WorkerEvent)
    ensures
        next_spec(codes, event) == WorkerAction::Again <==> match event {
            WorkerEvent::Polled { ready, errno, revents } => {
                ||| ready < 0 && errno == Some(codes.interrupted)
                ||| ready == 0
                ||| ready > 0 && revents & codes.readable == 0 && revents & codes.error == 0
                    && revents & codes.hangup == 0 && revents & codes.invalid == 0
            },
            WorkerEvent::Drained { count } => count == Some(0u64),
            WorkerEvent::Waited { pending, stop } => !pending || stop,
            _ => false,
        },
{
    if let WorkerEvent::Polled { ready, errno, revents } = event {
        lemma_failure_bits(codes, revents);
    }
}

/// How many drains brought notifications.
pub open spec fn batches(steps: Seq<Step>) -> int
    decreases steps.len(),
{
    if steps.len() == 0 {
        0
    } else {
        batches(steps.drop_last()) + match steps.last() {
            Step::Work { event: WorkerEvent::Drained { count: Some(count) } } => if count > 0 {
                1int
            } else {
                0
            },
            _ => 0,
        }
    }
}

/// How many updates were handed to the event loop, delivered or not.
pub open spec fn sends(steps: Seq<Step>) -> int
    decreases steps.len(),
{
    if steps.len() == 0 {
        0
    } else {
        sends(steps.drop_last()) + match steps.last() {
            Step::Work { event: WorkerEvent::Sent { delivered } } => 1int,
            _ => 0,
        }
    }
}

/// How many updates were delivered.
pub open spec fn deliveries(steps: Seq<Step>) -> int
    decreases steps.len(),
{
    if steps.len() == 0 {
        0
    } else {
        deliveries(steps.drop_last()) + match steps.last() {
            Step::Work { event: WorkerEvent::Sent { delivered: true } } => 1int,
            _ => 0,
        }
    }
}

/// How many updates the event loop took.
pub open spec fn takes(steps: Seq<Step>) -> int
    decreases steps.len(),
{
    if steps.len() == 0 {
        0
    } else {
        takes(steps.drop_last()) + match steps.last() {
            Step::Take => 1int,
            _ => 0,
        }
    }
}

/// No batch of notifications is lost and none is announced twice: there are as
/// many sends as there were drains that brought something, but for the one that the
/// thread is just about to announce. What was delivered is in the queue or was
/// taken from it.
pub proof fn law_every_batch_is_announced_once(codes: PollCodes, steps: Seq<Step>)
    requires
        is_history(codes, steps),
    ensures
        batches(steps) == sends(steps) + (if outcome(codes, steps).worker == Some(
            WorkerAction::Claim,
        ) || outcome(codes, steps).worker == Some(WorkerAction::Send) {
            1int
        } else {
            0
        }),
        outcome(codes, steps).worker is None ==> batches(steps) == sends(steps),
        deliveries(steps) == takes(steps) + outcome(codes, steps).queued,
    decreases steps.len(),
{
    if steps.len() > 0 {
        law_every_batch_is_announced_once(codes, steps.drop_last());
        lemma_history_keeps_inv(codes, steps.drop_last());
    }
}

} // verus!
