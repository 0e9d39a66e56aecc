//! The thread that wakes the event loop at the start of every second.
//!
//! The thread reports what it just did as a [`TickEvent`] and does next what
//! [`next`] answers.

use vstd::prelude::*;

verus! {

/// Nanoseconds in a second.
pub const SECOND_NANOS: u64 = 1_000_000_000;

/// What the thread has just done.
#[derive(Clone, Copy, Debug, PartialEq, Eq, Structural)]
pub enum TickEvent {
    /// It is at the top of its loop. `subsec_nanos` is the sub-second part of the
    /// wall clock, absent when the clock stands before the epoch.
    LoopTop { stop: bool, subsec_nanos: Option<u32> },
    /// The sleep is over.
    Woke { stop: bool },
    /// A tick was handed to the event loop.
    Sent { delivered: bool },
}

/// What the thread does next.
#[derive(Clone, Copy, Debug, PartialEq, Eq, Structural)]
pub enum TickAction {
    /// Sleep, then report [`TickEvent::Woke`].
    Sleep { nanos: u64 },
    /// Send a tick, then report [`TickEvent::Sent`].
    SendTick,
    /// Report [`TickEvent::LoopTop`].
    Again,
    /// End the thread.
    Exit,
}

/// The time that is left of the current second, and at least a nanosecond.
pub open spec fn delay_spec(subsec_nanos: Option<u32>) -> int {
    let elapsed: int = match subsec_nanos {
        Some(nanos) => nanos as int,
        None => 0,
    };
    if elapsed < SECOND_NANOS {
        SECOND_NANOS - elapsed
    } else {
        1
    }
}

/// What follows an event.
pub open spec fn next_spec(event: TickEvent) -> TickAction {
    match event {
        TickEvent::LoopTop { stop: false, subsec_nanos } => TickAction::Sleep {
            nanos: delay_spec(subsec_nanos) as u64,
        },
        TickEvent::Woke { stop: false } => TickAction::SendTick,
        TickEvent::Sent { delivered: true } => TickAction::Again,
        _ => TickAction::Exit,
    }
}

/// How long to sleep until the next second starts.
pub fn delay_nanos(subsec_nanos: Option<u32>) -> (delay: u64)
    ensures
        delay == delay_spec(subsec_nanos),
{
    let elapsed: u64 = match subsec_nanos {
        Some(nanos) => nanos as u64,
        None => 0,
    };
    let left: u64 = SECOND_NANOS.saturating_sub(elapsed);
    if left > 1 {
        left
    } else {
        1
    }
}

/// Decides what the thread does after an event.
pub fn next(event: TickEvent) -> (action: TickAction)
    ensures
        action == next_spec(event),
{
    match event {
        TickEvent::LoopTop { stop, subsec_nanos } => if stop {
            TickAction::Exit
        } else {
            TickAction::Sleep { nanos: delay_nanos(subsec_nanos) }
        },
        TickEvent::Woke { stop } => if stop {
            TickAction::Exit
        } else {
            TickAction::SendTick
        },
        TickEvent::Sent { delivered } => if delivered {
            TickAction::Again
        } else {
            TickAction::Exit
        },
    }
}

/// Whether `event` reports that `action` was carried out.
pub open spec fn reports(action: TickAction, event: TickEvent) -> bool {
    match action {
        TickAction::Sleep { .. } => event is Woke,
        TickAction::SendTick => event is Sent,
        TickAction::Again => event is LoopTop,
        TickAction::Exit => false,
    }
}

/// The events of one run of the thread, in order: it starts at the top of the
/// loop, and every further event reports what the one before led to.
pub open spec fn is_run(events: Seq<TickEvent>) -> bool {
    &&& events.len() > 0 ==> events[0] is LoopTop
    &&& forall|i: int| 0 < i < events.len() ==> reports(next_spec(events[i - 1]), #[trigger] events[i])
}

/// A sleep that starts at some point of a second ends exactly when the next
/// second starts, and never lasts more than a second.
pub proof fn law_sleep_ends_on_the_second(subsec_nanos: u32)
    requires
        subsec_nanos < SECOND_NANOS,
    ensures
        (subsec_nanos + delay_spec(Some(subsec_nanos))) == SECOND_NANOS,
        0 < delay_spec(Some(subsec_nanos)) <= SECOND_NANOS,
{
}

/// No sleep is empty or longer than a second, whatever the clock shows.
pub proof fn law_sleep_is_bounded(subsec_nanos: Option<u32>)
    ensures
        1 <= delay_spec(subsec_nanos) <= SECOND_NANOS,
{
}

/// Every tick that was sent follows a sleep after which no stop had been
/// requested, and that sleep itself began while no stop had been requested.
pub proof fn law_tick_follows_an_undisturbed_sleep(events: Seq<TickEvent>, i: int)
    requires
        is_run(events),
        0 <= i < events.len(),
        events[i] is Sent,
    ensures
        i >= 2,
        events[i - 1] == (TickEvent::Woke { stop: false }),
        events[i - 2] matches TickEvent::LoopTop { stop, subsec_nanos } && !stop,
{
    assert(reports(next_spec(events[i - 1]), events[i]));
    assert(reports(next_spec(events[i - 2]), events[i - 1]));
}

/// Once a stop request was seen or a tick could not be delivered, the run is over.
pub proof fn law_stop_and_disconnect_end_the_run(events: Seq<TickEvent>, i: int)
    requires
        is_run(events),
        0 <= i < events.len(),
        events[i] matches TickEvent::LoopTop { stop, subsec_nanos } ==> stop,
        events[i] matches TickEvent::Woke { stop } ==> stop,
        events[i] matches TickEvent::Sent { delivered } ==> !delivered,
    ensures
        next_spec(events[i]) == TickAction::Exit,
        i == events.len() - 1,
{
    if i + 1 < events.len() {
        assert(reports(next_spec(events[i + 1 - 1]), events[i + 1]));
    }
}

/// Once a stop is requested for good, the thread reports at most two more events.
pub proof fn law_stopped_thread_ends(events: Seq<TickEvent>, from: int)
    requires
        is_run(events),
        0 <= from,
        forall|i: int| from <= i < events.len() ==> {
            &&& #[trigger] events[i] matches TickEvent::LoopTop { stop, subsec_nanos } ==> stop
            &&& events[i] matches TickEvent::Woke { stop } ==> stop
        },
    ensures
        events.len() <= from + 2,
{
    if events.len() > from + 2 {
        assert(reports(next_spec(events[from + 1 - 1]), events[from + 1]));
        assert(reports(next_spec(events[from + 2 - 1]), events[from + 2]));
    }
}

/// The thread sleeps exactly when it is at the top of its loop and was not asked to
/// stop: until the full second, or for a nanosecond where the clock shows none of
/// it left, and for a whole second where the clock stands before the epoch.
pub proof fn law_sleeps_from_the_top_of_the_loop(event: TickEvent)
    ensures
        next_spec(event) is Sleep <==> match event {
            TickEvent::LoopTop { stop, subsec_nanos } => !stop,
            _ => false,
        },
        forall|nanos: u32|
            nanos < 1_000_000_000 ==> #[trigger] next_spec(
                TickEvent::LoopTop { stop: false, subsec_nanos: Some(nanos) },
            ) == (TickAction::Sleep { nanos: (1_000_000_000 - nanos) as u64 }),
        forall|nanos: u32|
            nanos >= 1_000_000_000 ==> #[trigger] next_spec(
                TickEvent::LoopTop { stop: false, subsec_nanos: Some(nanos) },
            ) == (TickAction::Sleep { nanos: 1 }),
        next_spec(TickEvent::LoopTop { stop: false, subsec_nanos: None }) == (TickAction::Sleep {
            nanos: 1_000_000_000,
        }),
{
}

/// A tick is sent exactly after a sleep that no request to stop disturbed; after a
/// delivered one the loop starts again; in every other case but the sleep the
/// thread ends.
pub proof fn law_one_tick_for_each_sleep(event: TickEvent)
    ensures
        next_spec(event) == TickAction::SendTick <==> event == (TickEvent::Woke { stop: false }),
        next_spec(event) == TickAction::Again <==> event == (TickEvent::Sent { delivered: true }),
        next_spec(event) == TickAction::Exit <==> match event {
            TickEvent::LoopTop { stop, subsec_nanos } => stop,
            TickEvent::Woke { stop } => stop,
            TickEvent::Sent { delivered } => !delivered,
        },
{
}

} // verus!
