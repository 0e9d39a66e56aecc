//! What holds of the bar's window over whole runs of the program.

use vstd::prelude::*;

use crate::action::Action;
use crate::back_buffer::{BufferError, CairoBackBuffer};
use crate::event::{BarEffect, UserEvent, WindowEvent};
use crate::geometry::{LogicalSize, Monitor, PhysicalSize, Point, ScaleFactor};
use crate::pointer::{MouseButton, PointerAction, WheelDelta};
use crate::state::{AppState, RedrawPlan, TRANSPORT_RETRY_INTERVAL};

verus! {

/// Anything that the state is told.
pub enum Input {
    Resumed,
    MonitorFound { primary: Option<Monitor>, first: Option<Monitor> },
    BarMeasured { logical_size: LogicalSize },
    WindowCreated { window_id: u64, size: PhysicalSize, buffer: CairoBackBuffer },
    Window { window_id: u64, event: WindowEvent },
    User { user_event: UserEvent },
    LogicalSizeMeasured { logical_size: LogicalSize },
    CursorLocated { point: Point },
    HoverUpdated { changed: bool },
    RuntimeUpdated { changed: bool, effects: Seq<BarEffect> },
    ImageCreated { buffer: CairoBackBuffer },
}

impl AppState {
    /// Whether the input can come now: the steps that lead to a window come only
    /// while there is none, and an image comes only where one was asked for.
    pub open spec fn admits(self, input: Input) -> bool {
        match input {
            Input::MonitorFound { .. } => !self.window,
            Input::BarMeasured { .. } => !self.window,
            Input::WindowCreated { window_id, size, buffer } => !self.window
                && AppState::first_buffer(size) == Ok::<CairoBackBuffer, BufferError>(buffer),
            Input::ImageCreated { buffer } => {
                &&& self.redraw() matches Ok(plan)
                &&& plan matches RedrawPlan::Paint { image, .. }
                &&& image == Some(buffer)
            },
            _ => true,
        }
    }

    /// The state after an input, and what follows.
    pub open spec fn step(self, input: Input) -> (AppState, Seq<Action>) {
        match input {
            Input::Resumed => (self, self.resumed()),
            Input::MonitorFound { primary, first } => self.monitor_found(primary, first),
            Input::BarMeasured { logical_size } => self.bar_measured(logical_size),
            Input::WindowCreated { window_id, size, buffer } => self.window_created(
                window_id,
                size,
                buffer,
            ),
            Input::Window { window_id, event } => self.window_event(window_id, event),
            Input::User { user_event } => self.user_event(user_event),
            Input::LogicalSizeMeasured { logical_size } => (
                self.logical_size_measured(logical_size),
                Seq::empty(),
            ),
            Input::CursorLocated { point } => self.cursor_located(point),
            Input::HoverUpdated { changed } => (self, self.hover_updated(changed)),
            Input::RuntimeUpdated { changed, effects } => (
                self,
                self.handle_runtime_update(changed, effects),
            ),
            Input::ImageCreated { buffer } => (self.image_created(buffer), Seq::empty()),
        }
    }

    /// The state after several inputs.
    pub open spec fn after(self, inputs: Seq<Input>) -> AppState
        decreases inputs.len(),
    {
        if inputs.len() == 0 {
            self
        } else {
            self.after(inputs.drop_last()).step(inputs.last()).0
        }
    }

    /// Whether each of the inputs can come after those before it.
    pub open spec fn admits_all(self, inputs: Seq<Input>) -> bool
        decreases inputs.len(),
    {
        inputs.len() > 0 ==> self.admits_all(inputs.drop_last()) && self.after(
            inputs.drop_last(),
        ).admits(inputs.last())
    }
}

/// Window, number, surface and back buffer come together and stay together,
/// whatever happens.
pub proof fn law_state_stays_well_formed(state: AppState, inputs: Seq<Input>)
    requires
        state.wf(),
        state.admits_all(inputs),
    ensures
        state.after(inputs).wf(),
    decreases inputs.len(),
{
    if inputs.len() > 0 {
        law_state_stays_well_formed(state, inputs.drop_last());
    }
}

/// Once there is a window it stays the same one, and the size that it goes back
/// to when no place is assigned to it stays the one that it was created with:
/// neither resizing nor scaling touches it.
pub proof fn law_window_and_default_size_are_permanent(state: AppState, inputs: Seq<Input>)
    requires
        state.window,
        state.admits_all(inputs),
    ensures
        state.after(inputs).window,
        state.after(inputs).window_id == state.window_id,
        state.after(inputs).default_logical_size == state.default_logical_size,
        state.after(inputs).handle_platform_effect(BarEffect::ClearMonitorGeometry, 0) == seq![
            Action::ResetGeometry { logical_size: state.default_logical_size },
        ],
    decreases inputs.len(),
{
    if inputs.len() > 0 {
        law_window_and_default_size_are_permanent(state, inputs.drop_last());
    }
}

/// A running program asks for a window once: with a window, resuming does nothing.
pub proof fn law_only_one_window_is_asked_for(state: AppState, inputs: Seq<Input>)
    requires
        state.window,
        state.admits_all(inputs),
    ensures
        state.after(inputs).resumed() == Seq::<Action>::empty(),
{
    law_window_and_default_size_are_permanent(state, inputs);
}

/// The path of the transport never changes, and the time of the last attempt
/// never goes back, even if the clock does.
pub proof fn law_attempts_only_move_forward(state: AppState, inputs: Seq<Input>)
    ensures
        state.after(inputs).shared_path == state.shared_path,
        state.after(inputs).last_transport_attempt >= state.last_transport_attempt,
    decreases inputs.len(),
{
    if inputs.len() > 0 {
        law_attempts_only_move_forward(state, inputs.drop_last());
    }
}

/// Without a path the transport is never tried: whatever happens, the time of the
/// last attempt stays the one that the program started with.
pub proof fn law_no_path_means_no_attempt(state: AppState, inputs: Seq<Input>)
    requires
        state.shared_path.len() == 0,
    ensures
        state.after(inputs).shared_path.len() == 0,
        state.after(inputs).last_transport_attempt == state.last_transport_attempt,
        forall|now: u128, connected: bool| !#[trigger]
            state.after(inputs).transport_due(now, connected),
    decreases inputs.len(),
{
    if inputs.len() > 0 {
        law_no_path_means_no_attempt(state, inputs.drop_last());
    }
}

/// Two attempts to open the transport are at least the retry interval apart, no
/// matter what happens in between.
pub proof fn law_attempts_keep_their_distance(
    state: AppState,
    earlier: u128,
    between: Seq<Input>,
    later: u128,
)
    requires
        state.transport_due(earlier, false),
        state.tick_and_poll(earlier, false).0.after(between).transport_due(later, false),
    ensures
        later >= earlier + TRANSPORT_RETRY_INTERVAL,
{
    law_attempts_only_move_forward(state.tick_and_poll(earlier, false).0, between);
}

/// The transport is opened only by a tick, only if a path was given, and never
/// while the runtime is connected.
pub proof fn law_transport_is_opened_only_when_wanted(state: AppState, input: Input)
    requires
        state.step(input).1.contains(Action::OpenTransport),
    ensures
        state.shared_path.len() > 0,
        input matches Input::User { user_event: UserEvent::Tick { now, connected } } && !connected,
{
    let actions = state.step(input).1;
    let i = choose|i: int| 0 <= i < actions.len() && actions[i] == Action::OpenTransport;
    match input {
        Input::RuntimeUpdated { changed, effects } => {
            lemma_effect_actions(state, effects);
            let head = state.handle_platform_effects(effects);
            if i < head.len() {
                assert(head[i] == Action::OpenTransport);
            }
        },
        Input::Window { window_id, event } => {
            lemma_window_event_actions(state, window_id, event, i);
        },
        _ => {},
    }
}

proof fn lemma_window_event_actions(state: AppState, window_id: u64, event: WindowEvent, i: int)
    requires
        0 <= i < state.window_event(window_id, event).1.len(),
    ensures
        match state.window_event(window_id, event).1[i] {
            Action::OpenTransport => false,
            Action::ClearPending => false,
            Action::PrepareSurface { .. } => false,
            Action::ResizeSurface { width, height } => width > 0 && height > 0,
            Action::RequestRedraw => state.window,
            _ => true,
        },
{
    match event {
        WindowEvent::Resized { size, window_scale } => {},
        WindowEvent::ScaleFactorChanged { scale_factor, inner_size, geometry } => {},
        _ => {},
    }
}

/// Effects lead to placing the window, starting programs and reports alone.
pub(crate) proof fn lemma_effect_actions(state: AppState, effects: Seq<BarEffect>)
    ensures
        forall|i: int|
            0 <= i < state.handle_platform_effects(effects).len() ==> {
                let action = #[trigger] state.handle_platform_effects(effects)[i];
                action is ApplyGeometry || action is ResetGeometry || action is Launch
                    || action is Unhandled
            },
    decreases effects.len(),
{
    if effects.len() > 0 {
        lemma_effect_actions(state, effects.drop_last());
    }
}

/// A transport that was lost is tried again by the first tick that comes at least
/// the retry interval after the last attempt.
pub proof fn law_lost_transport_is_retried(state: AppState, now: u128)
    requires
        state.shared_path.len() > 0,
        now >= state.last_transport_attempt + TRANSPORT_RETRY_INTERVAL,
    ensures
        state.user_event(UserEvent::Tick { now, connected: false }).1 == seq![
            Action::OpenTransport,
            Action::TickAndPoll,
        ],
        state.user_event(
            UserEvent::Tick { now, connected: false },
        ).0.last_transport_attempt == now,
{
}

/// Events of other windows change nothing and lead to nothing.
pub proof fn law_other_windows_are_ignored(state: AppState, window_id: u64, event: WindowEvent)
    requires
        state.window_id != Some(window_id),
    ensures
        state.window_event(window_id, event).0 == state,
        state.window_event(window_id, event).1 == Seq::<Action>::empty(),
{
}

/// While the pointer is outside the window, no button and no wheel reaches the
/// bar: not before the pointer is located again.
pub proof fn law_absent_pointer_does_nothing(state: AppState, inputs: Seq<Input>)
    requires
        state.last_cursor_pos is None,
        forall|i: int| 0 <= i < inputs.len() ==> !(#[trigger] inputs[i] is CursorLocated),
    ensures
        state.after(inputs).last_cursor_pos is None,
        forall|window_id: u64, pressed: bool, button: MouseButton|
            (#[trigger] state.after(inputs).window_event(
                window_id,
                WindowEvent::MouseInput { pressed, button },
            )).1 == Seq::<Action>::empty(),
        forall|window_id: u64, delta: WheelDelta|
            (#[trigger] state.after(inputs).window_event(
                window_id,
                WindowEvent::MouseWheel { delta },
            )).1 == Seq::<Action>::empty(),
    decreases inputs.len(),
{
    if inputs.len() > 0 {
        assert forall|i: int| 0 <= i < inputs.drop_last().len() implies !(
        #[trigger] inputs.drop_last()[i] is CursorLocated) by {
            assert(inputs.drop_last()[i] == inputs[i]);
        }
        law_absent_pointer_does_nothing(state, inputs.drop_last());
        assert(!(inputs[inputs.len() - 1] is CursorLocated));
    }
}

/// A click reaches the bar at the place where the pointer was last located,
/// unless the pointer has been located elsewhere or has left the bar's own window
/// since.
pub proof fn law_click_lands_where_the_pointer_is(
    state: AppState,
    point: Point,
    inputs: Seq<Input>,
    window_id: u64,
)
    requires
        state.window,
        state.window_id == Some(window_id),
        state.last_cursor_pos == Some(point),
        state.admits_all(inputs),
        forall|i: int| 0 <= i < inputs.len() ==> !(#[trigger] inputs[i] is CursorLocated),
        forall|i: int|
            0 <= i < inputs.len() ==> #[trigger] inputs[i] != (Input::Window {
                window_id,
                event: WindowEvent::CursorLeft,
            }),
    ensures
        state.after(inputs).last_cursor_pos == Some(point),
        state.after(inputs).window_event(
            window_id,
            WindowEvent::MouseInput { pressed: true, button: MouseButton::Left },
        ).1 == seq![Action::ActOnPointer { point, action: PointerAction::Primary }],
        state.after(inputs).window_event(
            window_id,
            WindowEvent::MouseInput { pressed: true, button: MouseButton::Right },
        ).1 == seq![Action::ActOnPointer { point, action: PointerAction::Secondary }],
        forall|delta: WheelDelta|
            (#[trigger] state.after(inputs).window_event(
                window_id,
                WindowEvent::MouseWheel { delta },
            )).1 == match crate::pointer::wheel_meaning(delta) {
                Some(action) => seq![Action::ActOnPointer { point, action }],
                None => Seq::<Action>::empty(),
            },
    decreases inputs.len(),
{
    law_window_and_default_size_are_permanent(state, inputs);
    if inputs.len() > 0 {
        let earlier = inputs.drop_last();
        assert forall|i: int| 0 <= i < earlier.len() implies !(
        #[trigger] earlier[i] is CursorLocated) && earlier[i] != (Input::Window {
            window_id,
            event: WindowEvent::CursorLeft,
        }) by {
            assert(earlier[i] == inputs[i]);
        }
        law_click_lands_where_the_pointer_is(state, point, earlier, window_id);
        law_window_and_default_size_are_permanent(state, earlier);
        let last = inputs[inputs.len() - 1];
        assert(!(last is CursorLocated));
        assert(last == inputs.last());
    }
}

/// Releasing a button does nothing.
pub proof fn law_release_does_nothing(state: AppState, window_id: u64, button: MouseButton)
    ensures
        state.window_event(window_id, WindowEvent::MouseInput { pressed: false, button }).0
            == state,
        state.window_event(window_id, WindowEvent::MouseInput { pressed: false, button }).1
            == Seq::<Action>::empty(),
{
}

/// A redraw is asked for only of a window that is there.
pub proof fn law_no_redraw_without_a_window(state: AppState, input: Input)
    requires
        state.step(input).1.contains(Action::RequestRedraw),
    ensures
        state.step(input).0.window,
{
    let actions = state.step(input).1;
    let i = choose|i: int| 0 <= i < actions.len() && actions[i] == Action::RequestRedraw;
    if let Input::RuntimeUpdated { changed, effects } = input {
        lemma_effect_actions(state, effects);
        let head = state.handle_platform_effects(effects);
        if i < head.len() {
            assert(head[i] == Action::RequestRedraw);
        }
    }
}

/// The surface is never resized to nothing.
pub proof fn law_surface_is_never_empty(state: AppState, input: Input, width: u32, height: u32)
    requires
        state.step(input).1.contains(Action::ResizeSurface { width, height })
            || state.step(input).1.contains(Action::PrepareSurface { width, height }),
    ensures
        width > 0,
        height > 0,
{
    let actions = state.step(input).1;
    let i = choose|i: int|
        0 <= i < actions.len() && (actions[i] == (Action::ResizeSurface { width, height })
            || actions[i] == (Action::PrepareSurface { width, height }));
    match input {
        Input::RuntimeUpdated { changed, effects } => {
            lemma_effect_actions(state, effects);
            let head = state.handle_platform_effects(effects);
            if i < head.len() {
                assert(head[i] == actions[i]);
            }
        },
        Input::Window { window_id, event } => {
            lemma_window_event_actions(state, window_id, event, i);
        },
        _ => {},
    }
}

/// A window that shrinks to nothing is not drawn until it has a size again, and
/// keeps its logical size.
pub proof fn law_empty_window_is_not_drawn(
    state: AppState,
    window_id: u64,
    size: PhysicalSize,
    window_scale: Option<ScaleFactor>,
)
    requires
        state.window_id == Some(window_id),
        size.is_empty(),
    ensures
        ({
            let resized = state.window_event(
                window_id,
                WindowEvent::Resized { size, window_scale },
            ).0;
            &&& resized.redraw() == Ok::<RedrawPlan, BufferError>(RedrawPlan::Skip)
            &&& resized.logical_size == state.logical_size
        }),
{
}

/// Whatever is drawn has a size, has the size that was reported last, and is
/// presented.
pub proof fn law_drawn_frames_are_presented(state: AppState)
    requires
        state.wf(),
        state.redraw() matches Ok(RedrawPlan::Paint { .. }),
    ensures
        state.redraw() matches Ok(RedrawPlan::Paint { size, image, present, .. }) && {
            &&& !size.is_empty()
            &&& size == state.last_physical_size
            &&& present
            &&& image matches Some(buffer) ==> buffer.wf() && buffer.serves(size.width, size.height)
            &&& image is None ==> state.back is Some && state.back->0.serves(
                size.width,
                size.height,
            )
        },
{
}

/// Once the image that a redraw asked for is there, drawing again in the same
/// size asks for none.
pub proof fn law_image_is_reused(state: AppState, buffer: CairoBackBuffer)
    requires
        state.admits(Input::ImageCreated { buffer }),
    ensures
        state.image_created(buffer).missing_buffer() == Ok::<Option<CairoBackBuffer>, BufferError>(
            None,
        ),
{
}

/// A redraw of a window with a size succeeds unless the size is beyond the
/// renderer's number range.
pub proof fn law_redraw_fails_only_on_oversized_windows(state: AppState)
    requires
        state.redraw() is Err,
    ensures
        state.last_physical_size.width > i32::MAX || state.last_physical_size.height > i32::MAX,
{
}

/// Effects are handled in the order in which the runtime asked for them: what
/// comes later never changes what the earlier ones lead to.
pub proof fn law_effects_keep_their_order(
    state: AppState,
    earlier: Seq<BarEffect>,
    later: Seq<BarEffect>,
)
    ensures
        state.handle_platform_effects(earlier).is_prefix_of(
            state.handle_platform_effects(earlier + later),
        ),
    decreases later.len(),
{
    if later.len() == 0 {
        assert(earlier + later =~= earlier);
    } else {
        law_effects_keep_their_order(state, earlier, later.drop_last());
        assert((earlier + later).drop_last() =~= earlier + later.drop_last());
    }
}

/// An update that changed something ends in one request for a redraw, after all
/// its effects; one that changed nothing asks for none.
pub proof fn law_change_is_drawn_once_and_last(
    state: AppState,
    changed: bool,
    effects: Seq<BarEffect>,
    i: int,
)
    requires
        state.window,
        0 <= i < state.handle_runtime_update(changed, effects).len(),
    ensures
        state.handle_runtime_update(changed, effects)[i] == Action::RequestRedraw <==> changed && i
            == state.handle_runtime_update(changed, effects).len() - 1,
{
    lemma_effect_actions(state, effects);
    let head = state.handle_platform_effects(effects);
    if i < head.len() {
        assert(head[i] == state.handle_runtime_update(changed, effects)[i]);
    }
}

/// Every effect that has an action of its own leads to exactly one, while there is
/// a window.
pub proof fn law_every_effect_is_answered(state: AppState, effects: Seq<BarEffect>)
    requires
        state.window,
    ensures
        state.handle_platform_effects(effects).len() == effects.len(),
        forall|i: int|
            0 <= i < effects.len() ==> seq![#[trigger] state.handle_platform_effects(effects)[i]]
                == state.handle_platform_effect(effects[i], i),
    decreases effects.len(),
{
    if effects.len() > 0 {
        law_every_effect_is_answered(state, effects.drop_last());
        let before = state.handle_platform_effects(effects.drop_last());
        let all = state.handle_platform_effects(effects);
        assert forall|i: int| 0 <= i < effects.len() implies seq![#[trigger] all[i]]
            == state.handle_platform_effect(effects[i], i) by {
            if i < effects.len() - 1 {
                assert(seq![before[i]] == state.handle_platform_effect(effects.drop_last()[i], i));
                assert(all[i] == before[i]);
            } else {
                assert(seq![all[i]] =~= state.handle_platform_effect(effects[i], i));
            }
        }
    }
}

/// The flag that the forwarding thread waits for is cleared only after the
/// transport was polled.
pub proof fn law_pending_is_cleared_after_polling(state: AppState, input: Input, i: int)
    requires
        0 <= i < state.step(input).1.len(),
        state.step(input).1[i] == Action::ClearPending,
    ensures
        input == (Input::User { user_event: UserEvent::SharedUpdated }),
        i > 0,
        state.step(input).1[i - 1] == Action::PollTransport,
{
    let actions = state.step(input).1;
    if let Input::RuntimeUpdated { changed, effects } = input {
        lemma_effect_actions(state, effects);
        let head = state.handle_platform_effects(effects);
        if i < head.len() {
            assert(head[i] == actions[i]);
        }
        assert(false);
    }
}

} // verus!
