//! The bar's window together with the work that it has asked for: answers come
//! only to requests, and in their order.

use vstd::prelude::*;

use crate::action::Action;
use crate::event::{UserEvent, WindowEvent};
use crate::geometry::{CursorPosition, Point};
use crate::history::Input;
use crate::state::AppState;

verus! {

/// Whether the input reports what came of carrying out the action.
pub open spec fn answers(action: Action, input: Input) -> bool {
    match action {
        Action::MeasureLogicalSize { .. } => input is LogicalSizeMeasured,
        Action::LocateCursor { .. } => input is CursorLocated,
        Action::MovePointer { .. } => input is HoverUpdated,
        Action::LeavePointer => input is HoverUpdated,
        Action::ActOnPointer { .. } => input is RuntimeUpdated,
        Action::TickAndPoll => input is RuntimeUpdated,
        Action::Tick => input is RuntimeUpdated,
        Action::PollTransport => input is RuntimeUpdated,
        Action::FindMonitor => input is MonitorFound,
        Action::MeasureBar { .. } => input is BarMeasured,
        Action::CreateWindow { .. } => input is WindowCreated,
        Action::Redraw => input is ImageCreated,
        _ => false,
    }
}

/// Whether the action can be carried out without an answer. A redraw is answered
/// only where it had to create an image.
pub open spec fn needs_no_answer(action: Action) -> bool {
    action is Redraw || forall|input: Input| !#[trigger] answers(action, input)
}

/// Whether the input comes from outside, unasked.
pub open spec fn is_event(input: Input) -> bool {
    input is Resumed || input is Window || input is User
}

/// A program at work.
pub struct Run {
    pub state: AppState,
    /// What is still to be done, in order.
    pub agenda: Seq<Action>,
}

/// What can happen next.
pub enum Move {
    /// Something happens outside; only once nothing is left to be done.
    Event { input: Input },
    /// The first action on the agenda is carried out and answered; what the answer
    /// leads to comes before the rest of the agenda.
    Answer { input: Input },
    /// The first action on the agenda is carried out.
    Done,
}

impl Run {
    /// Whether the move is possible now.
    pub open spec fn allows(self, next: Move) -> bool {
        match next {
            Move::Event { input } => {
                &&& self.agenda.len() == 0
                &&& is_event(input)
                &&& self.state.admits(input)
            },
            Move::Answer { input } => {
                &&& self.agenda.len() > 0
                &&& answers(self.agenda[0], input)
                &&& self.state.admits(input)
            },
            Move::Done => self.agenda.len() > 0 && needs_no_answer(self.agenda[0]),
        }
    }

    /// What the move leads to.
    pub open spec fn after(self, next: Move) -> Run {
        match next {
            Move::Event { input } => Run {
                state: self.state.step(input).0,
                agenda: self.state.step(input).1,
            },
            Move::Answer { input } => Run {
                state: self.state.step(input).0,
                agenda: self.state.step(input).1 + self.agenda.drop_first(),
            },
            Move::Done => Run { state: self.state, agenda: self.agenda.drop_first() },
        }
    }

    /// What several moves lead to.
    pub open spec fn after_all(self, moves: Seq<Move>) -> Run
        decreases moves.len(),
    {
        if moves.len() == 0 {
            self
        } else {
            self.after_all(moves.drop_last()).after(moves.last())
        }
    }

    /// Whether each of the moves is possible after those before it.
    pub open spec fn allows_all(self, moves: Seq<Move>) -> bool
        decreases moves.len(),
    {
        moves.len() > 0 ==> self.allows_all(moves.drop_last()) && self.after_all(
            moves.drop_last(),
        ).allows(moves.last())
    }

    /// Measurements are next on the agenda or not on it at all, and speak of the
    /// size and the scale factor that the state holds.
    pub open spec fn measures_what_it_holds(self) -> bool {
        forall|i: int|
            0 <= i < self.agenda.len() ==> match #[trigger] self.agenda[i] {
                Action::MeasureLogicalSize { size, scale_factor } => i == 0 && size
                    == self.state.last_physical_size && scale_factor == self.state.scale_factor,
                Action::LocateCursor { position, scale_factor } => i == 0 && scale_factor
                    == self.state.scale_factor,
                Action::MeasureBar { screen_width, scale_factor } => i == 0 && scale_factor
                    == self.state.scale_factor,
                _ => true,
            }
    }

    /// The window is there, the pointer is not over it, and nothing on the agenda
    /// can change that or reach the bar through the pointer.
    pub open spec fn pointer_is_gone(self, window_id: u64) -> bool {
        &&& self.state.window
        &&& self.state.window_id == Some(window_id)
        &&& self.state.last_cursor_pos is None
        &&& forall|i: int|
            0 <= i < self.agenda.len() ==> {
                &&& !(#[trigger] self.agenda[i] is LocateCursor)
                &&& !(self.agenda[i] is ActOnPointer)
            }
    }
}

/// What an answer leads to never locates the pointer, acts through it or measures
/// a size, but for the measurement of the bar that follows the choice of a monitor.
proof fn lemma_answers_lead_to(state: AppState, input: Input, i: int)
    requires
        !is_event(input),
        0 <= i < state.step(input).1.len(),
    ensures
        match state.step(input).1[i] {
            Action::MeasureLogicalSize { .. } => false,
            Action::LocateCursor { .. } => false,
            Action::ActOnPointer { .. } => false,
            Action::MeasureBar { screen_width, scale_factor } => i == 0 && scale_factor
                == state.step(input).0.scale_factor,
            _ => true,
        },
{
    if let Input::RuntimeUpdated { changed, effects } = input {
        crate::history::lemma_effect_actions(state, effects);
        let head = state.handle_platform_effects(effects);
        if i < head.len() {
            assert(head[i] == state.step(input).1[i]);
        }
    }
}

proof fn lemma_events_measure_what_they_hold(state: AppState, input: Input, i: int)
    requires
        is_event(input),
        0 <= i < state.step(input).1.len(),
    ensures
        match state.step(input).1[i] {
            Action::MeasureLogicalSize { size, scale_factor } => i == 0 && size == state.step(
                input,
            ).0.last_physical_size && scale_factor == state.step(input).0.scale_factor,
            Action::LocateCursor { position, scale_factor } => i == 0 && scale_factor == state.step(
                input,
            ).0.scale_factor,
            Action::MeasureBar { .. } => false,
            _ => true,
        },
{
    match input {
        Input::Window { window_id, event } => match event {
            WindowEvent::Resized { size, window_scale } => {},
            WindowEvent::ScaleFactorChanged { scale_factor, inner_size, geometry } => {},
            _ => {},
        },
        _ => {},
    }
}

proof fn lemma_move_keeps_measurements(run: Run, next: Move)
    requires
        run.measures_what_it_holds(),
        run.allows(next),
    ensures
        run.after(next).measures_what_it_holds(),
{
    let later = run.after(next);
    match next {
        Move::Event { input } => {
            assert forall|i: int| 0 <= i < later.agenda.len() implies match #[trigger] later.agenda[i] {
                Action::MeasureLogicalSize { size, scale_factor } => i == 0 && size
                    == later.state.last_physical_size && scale_factor == later.state.scale_factor,
                Action::LocateCursor { position, scale_factor } => i == 0 && scale_factor
                    == later.state.scale_factor,
                Action::MeasureBar { screen_width, scale_factor } => i == 0 && scale_factor
                    == later.state.scale_factor,
                _ => true,
            } by {
                lemma_events_measure_what_they_hold(run.state, input, i);
            }
        },
        Move::Answer { input } => {
            let led_to = run.state.step(input).1;
            assert forall|i: int| 0 <= i < later.agenda.len() implies match #[trigger] later.agenda[i] {
                Action::MeasureLogicalSize { size, scale_factor } => i == 0 && size
                    == later.state.last_physical_size && scale_factor == later.state.scale_factor,
                Action::LocateCursor { position, scale_factor } => i == 0 && scale_factor
                    == later.state.scale_factor,
                Action::MeasureBar { screen_width, scale_factor } => i == 0 && scale_factor
                    == later.state.scale_factor,
                _ => true,
            } by {
                if i < led_to.len() {
                    lemma_answers_lead_to(run.state, input, i);
                    assert(later.agenda[i] == led_to[i]);
                } else {
                    assert(later.agenda[i] == run.agenda[i - led_to.len() + 1]);
                }
            }
        },
        Move::Done => {
            assert forall|i: int| 0 <= i < later.agenda.len() implies match #[trigger] later.agenda[i] {
                Action::MeasureLogicalSize { size, scale_factor } => i == 0 && size
                    == later.state.last_physical_size && scale_factor == later.state.scale_factor,
                Action::LocateCursor { position, scale_factor } => i == 0 && scale_factor
                    == later.state.scale_factor,
                Action::MeasureBar { screen_width, scale_factor } => i == 0 && scale_factor
                    == later.state.scale_factor,
                _ => true,
            } by {
                assert(later.agenda[i] == run.agenda[i + 1]);
            }
        },
    }
}

/// Whatever is measured, is measured in the size and at the scale factor that the
/// window has at that time.
pub proof fn law_measurements_are_up_to_date(state: AppState, moves: Seq<Move>)
    requires
        (Run { state, agenda: Seq::empty() }).allows_all(moves),
    ensures
        (Run { state, agenda: Seq::empty() }).after_all(moves).measures_what_it_holds(),
    decreases moves.len(),
{
    if moves.len() > 0 {
        law_measurements_are_up_to_date(state, moves.drop_last());
        lemma_move_keeps_measurements(
            (Run { state, agenda: Seq::empty() }).after_all(moves.drop_last()),
            moves.last(),
        );
    }
}

/// A logical size is stored only as the answer to a measurement: of the size in
/// device pixels that was reported last, at the current scale factor; or, before
/// there is a window, of the bar across its monitor.
pub proof fn law_logical_size_is_a_measured_one(state: AppState, moves: Seq<Move>, next: Move)
    requires
        (Run { state, agenda: Seq::empty() }).allows_all(moves),
        (Run { state, agenda: Seq::empty() }).after_all(moves).allows(next),
        (Run { state, agenda: Seq::empty() }).after_all(moves).after(next).state.logical_size != (
        Run { state, agenda: Seq::empty() }).after_all(moves).state.logical_size,
    ensures
        ({
            let run = (Run { state, agenda: Seq::empty() }).after_all(moves);
            let stored = run.after(next).state.logical_size;
            ||| next == (Move::Answer { input: Input::LogicalSizeMeasured { logical_size: stored } })
                && run.agenda[0] == (Action::MeasureLogicalSize {
                size: run.state.last_physical_size,
                scale_factor: run.state.scale_factor,
            })
            ||| next == (Move::Answer { input: Input::BarMeasured { logical_size: stored } })
                && run.agenda[0] is MeasureBar && run.agenda[0]->MeasureBar_scale_factor
                == run.state.scale_factor && !run.state.window
        }),
{
    law_measurements_are_up_to_date(state, moves);
    let run = (Run { state, agenda: Seq::empty() }).after_all(moves);
    match next {
        Move::Event { input } => {
            match input {
                Input::Window { window_id, event } => match event {
                    WindowEvent::Resized { size, window_scale } => {},
                    WindowEvent::ScaleFactorChanged { scale_factor, inner_size, geometry } => {},
                    _ => {},
                },
                _ => {},
            }
        },
        Move::Answer { input } => {
            assert(match run.agenda[0] {
                Action::MeasureLogicalSize { size, scale_factor } => size
                    == run.state.last_physical_size && scale_factor == run.state.scale_factor,
                Action::MeasureBar { screen_width, scale_factor } => scale_factor
                    == run.state.scale_factor,
                _ => true,
            });
        },
        Move::Done => {},
    }
}

/// The pointer's place is stored only as the answer to a position that was
/// reported, taken at the current scale factor.
pub proof fn law_pointer_is_where_it_was_reported(
    state: AppState,
    moves: Seq<Move>,
    position: CursorPosition,
    point: Point,
    window_id: u64,
)
    requires
        (Run { state, agenda: Seq::empty() }).allows_all(moves),
        (Run { state, agenda: Seq::empty() }).after_all(moves).agenda.len() == 0,
        (Run { state, agenda: Seq::empty() }).after_all(moves).state.window_id == Some(window_id),
    ensures
        ({
            let run = (Run { state, agenda: Seq::empty() }).after_all(moves);
            let moved = run.after(
                Move::Event {
                    input: Input::Window {
                        window_id,
                        event: WindowEvent::CursorMoved { position },
                    },
                },
            );
            let located = moved.after(Move::Answer { input: Input::CursorLocated { point } });
            &&& moved.agenda == seq![
                Action::LocateCursor { position, scale_factor: run.state.scale_factor },
            ]
            &&& moved.allows(Move::Answer { input: Input::CursorLocated { point } })
            &&& located.state.last_cursor_pos == Some(point)
            &&& located.agenda == seq![Action::MovePointer { point }]
        }),
{
    let run = (Run { state, agenda: Seq::empty() }).after_all(moves);
    let moved = run.after(
        Move::Event {
            input: Input::Window { window_id, event: WindowEvent::CursorMoved { position } },
        },
    );
    assert(moved.agenda =~= seq![
        Action::LocateCursor { position, scale_factor: run.state.scale_factor },
    ]);
    let located = moved.after(Move::Answer { input: Input::CursorLocated { point } });
    assert(located.agenda =~= seq![Action::MovePointer { point }]);
}

proof fn lemma_move_keeps_pointer_gone(run: Run, next: Move, window_id: u64)
    requires
        run.pointer_is_gone(window_id),
        run.allows(next),
        !(next matches Move::Event {
            input: Input::Window { window_id: id, event: WindowEvent::CursorMoved { position } },
        } && id == window_id),
    ensures
        run.after(next).pointer_is_gone(window_id),
{
    let later = run.after(next);
    match next {
        Move::Event { input } => {
            assert forall|i: int| 0 <= i < later.agenda.len() implies !(
            #[trigger] later.agenda[i] is LocateCursor) && !(later.agenda[i] is ActOnPointer) by {
                match input {
                    Input::Window { window_id: id, event } => match event {
                        WindowEvent::Resized { size, window_scale } => {},
                        WindowEvent::ScaleFactorChanged { scale_factor, inner_size, geometry } => {},
                        _ => {},
                    },
                    _ => {},
                }
            }
        },
        Move::Answer { input } => {
            let led_to = run.state.step(input).1;
            assert(!(run.agenda[0] is LocateCursor));
            assert forall|i: int| 0 <= i < later.agenda.len() implies !(
            #[trigger] later.agenda[i] is LocateCursor) && !(later.agenda[i] is ActOnPointer) by {
                if i < led_to.len() {
                    lemma_answers_lead_to(run.state, input, i);
                    assert(later.agenda[i] == led_to[i]);
                } else {
                    assert(later.agenda[i] == run.agenda[i - led_to.len() + 1]);
                }
            }
        },
        Move::Done => {
            assert forall|i: int| 0 <= i < later.agenda.len() implies !(
            #[trigger] later.agenda[i] is LocateCursor) && !(later.agenda[i] is ActOnPointer) by {
                assert(later.agenda[i] == run.agenda[i + 1]);
            }
        },
    }
}

proof fn lemma_pointer_stays_gone(run: Run, moves: Seq<Move>, window_id: u64)
    requires
        run.pointer_is_gone(window_id),
        run.allows_all(moves),
        forall|i: int|
            0 <= i < moves.len() ==> !(#[trigger] moves[i] matches Move::Event {
                input: Input::Window { window_id: id, event: WindowEvent::CursorMoved { position } },
            } && id == window_id),
    ensures
        run.after_all(moves).pointer_is_gone(window_id),
    decreases moves.len(),
{
    if moves.len() > 0 {
        let earlier = moves.drop_last();
        assert forall|i: int| 0 <= i < earlier.len() implies !(
        #[trigger] earlier[i] matches Move::Event {
            input: Input::Window { window_id: id, event: WindowEvent::CursorMoved { position } },
        } && id == window_id) by {
            assert(earlier[i] == moves[i]);
        }
        lemma_pointer_stays_gone(run, earlier, window_id);
        let last = moves[moves.len() - 1];
        assert(last == moves.last());
        lemma_move_keeps_pointer_gone(run.after_all(earlier), last, window_id);
    }
}

/// Between the pointer's leaving the window and its next movement over it, no
/// click and no turn of the wheel reaches the bar, whatever else happens.
pub proof fn law_pointer_that_left_does_nothing_until_it_moves(
    run: Run,
    window_id: u64,
    moves: Seq<Move>,
)
    requires
        run.state.window,
        run.state.window_id == Some(window_id),
        run.allows(
            Move::Event { input: Input::Window { window_id, event: WindowEvent::CursorLeft } },
        ),
        run.after(
            Move::Event { input: Input::Window { window_id, event: WindowEvent::CursorLeft } },
        ).allows_all(moves),
        forall|i: int|
            0 <= i < moves.len() ==> !(#[trigger] moves[i] matches Move::Event {
                input: Input::Window { window_id: id, event: WindowEvent::CursorMoved { position } },
            } && id == window_id),
    ensures
        ({
            let later = run.after(
                Move::Event { input: Input::Window { window_id, event: WindowEvent::CursorLeft } },
            ).after_all(moves);
            &&& later.state.last_cursor_pos is None
            &&& forall|i: int|
                0 <= i < later.agenda.len() ==> !(#[trigger] later.agenda[i] is ActOnPointer)
        }),
{
    let left = run.after(
        Move::Event { input: Input::Window { window_id, event: WindowEvent::CursorLeft } },
    );
    assert(left.agenda =~= seq![Action::LeavePointer]);
    assert(left.pointer_is_gone(window_id));
    lemma_pointer_stays_gone(left, moves, window_id);
}

proof fn lemma_first_move_is_possible(run: Run, moves: Seq<Move>)
    requires
        run.allows_all(moves),
        moves.len() > 0,
    ensures
        run.allows(moves[0]),
    decreases moves.len(),
{
    if moves.len() == 1 {
        assert(moves.drop_last() =~= Seq::<Move>::empty());
        assert(moves[0] == moves.last());
    } else {
        lemma_first_move_is_possible(run, moves.drop_last());
        assert(moves.drop_last()[0] == moves[0]);
    }
}

/// After a notification, the transport is polled and its update taken over before
/// the flag that the forwarding thread waits for is cleared.
pub proof fn law_transport_is_drained_before_the_flag_is_cleared(run: Run, moves: Seq<Move>)
    requires
        run.allows(Move::Event { input: Input::User { user_event: UserEvent::SharedUpdated } }),
        run.after(
            Move::Event { input: Input::User { user_event: UserEvent::SharedUpdated } },
        ).allows_all(moves),
        ({
            let later = run.after(
                Move::Event { input: Input::User { user_event: UserEvent::SharedUpdated } },
            ).after_all(moves);
            later.agenda.len() > 0 && later.agenda[0] == Action::ClearPending
        }),
    ensures
        moves.len() > 0,
        moves[0] matches Move::Answer { input: Input::RuntimeUpdated { changed, effects } },
        run.after(
            Move::Event { input: Input::User { user_event: UserEvent::SharedUpdated } },
        ).agenda[0] == Action::PollTransport,
{
    let notified = run.after(
        Move::Event { input: Input::User { user_event: UserEvent::SharedUpdated } },
    );
    assert(notified.agenda =~= seq![Action::PollTransport, Action::ClearPending]);
    assert(moves.len() > 0);
    lemma_first_move_is_possible(notified, moves);
    let update = Input::RuntimeUpdated { changed: false, effects: Seq::empty() };
    assert(answers(Action::PollTransport, update));
}

} // verus!
