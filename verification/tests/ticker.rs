use winit_softbuffer_bar::ticker::{delay_nanos, next, TickAction, TickEvent};

#[test]
fn sleep_lasts_for_the_rest_of_the_second() {
    assert_eq!(delay_nanos(Some(0)), 1_000_000_000);
    assert_eq!(delay_nanos(Some(250_000_000)), 750_000_000);
    assert_eq!(delay_nanos(Some(999_999_999)), 1);
}

#[test]
fn sleep_is_never_empty() {
    assert_eq!(delay_nanos(Some(1_000_000_000)), 1);
    assert_eq!(delay_nanos(Some(u32::MAX)), 1);
}

#[test]
fn clock_before_the_epoch_counts_as_the_start_of_a_second() {
    assert_eq!(delay_nanos(None), 1_000_000_000);
}

#[test]
fn one_round_of_the_thread() {
    let top = TickEvent::LoopTop { stop: false, subsec_nanos: Some(400_000_000) };
    assert_eq!(next(top), TickAction::Sleep { nanos: 600_000_000 });
    assert_eq!(next(TickEvent::Woke { stop: false }), TickAction::SendTick);
    assert_eq!(next(TickEvent::Sent { delivered: true }), TickAction::Again);
}

#[test]
fn thread_ends_when_stopped_or_disconnected() {
    let top = TickEvent::LoopTop { stop: true, subsec_nanos: Some(1) };
    assert_eq!(next(top), TickAction::Exit);
    assert_eq!(next(TickEvent::Woke { stop: true }), TickAction::Exit);
    assert_eq!(next(TickEvent::Sent { delivered: false }), TickAction::Exit);
}

#[test]
fn stopped_thread_ends_within_two_events() {
    let after_sent = next(TickEvent::Sent { delivered: true });
    assert_eq!(after_sent, TickAction::Again);
    let top = TickEvent::LoopTop { stop: true, subsec_nanos: None };
    assert_eq!(next(top), TickAction::Exit);
}

#[test]
fn sleep_ends_on_the_second() {
    for nanos in [0u32, 1, 123_456_789, 999_999_999] {
        assert_eq!(u64::from(nanos) + delay_nanos(Some(nanos)), 1_000_000_000);
    }
}
