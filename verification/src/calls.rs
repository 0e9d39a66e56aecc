//! What the calls of the library have to do with the transitions that the laws
//! speak of: any result of a call is the transition's.

use vstd::prelude::*;

use crate::action::Action;
use crate::app::App;
use crate::back_buffer::{BufferError, CairoBackBuffer};
use crate::event::{RuntimeUpdate, UserEvent, WindowEvent};
use crate::geometry::{LogicalSize, Monitor, PhysicalSize, Point, ScaleFactor};
use crate::notifier::{Worker, WorkerAction, WorkerEvent};
use crate::pointer::{MouseButton, PointerAction, WheelDelta};
use crate::state::{AppState, RedrawPlan};
use crate::ticker::{TickAction, TickEvent};

verus! {

/// A new program has no window, and its path and time are those that it was given.
pub proof fn law_new_program(
    logical_size: LogicalSize,
    physical_size: PhysicalSize,
    scale_factor: ScaleFactor,
    shared_path: String,
    now: u128,
    app: App,
)
    requires
        call_ensures(App::new, (logical_size, physical_size, scale_factor, shared_path, now), app),
    ensures
        app@ == AppState::initial(logical_size, physical_size, scale_factor, shared_path@, now),
{
}

/// A window event does to the program what it does to its state.
pub proof fn law_window_event_call(
    app: &mut App,
    window_id: u64,
    event: WindowEvent,
    actions: Vec<Action>,
)
    requires
        call_ensures(App::window_event, (app, window_id, event), actions),
    ensures
        final(app)@ == old(app)@.window_event(window_id, event).0,
        actions@ == old(app)@.window_event(window_id, event).1,
{
}

/// An event of a thread does to the program what it does to its state.
pub proof fn law_user_event_call(app: &mut App, event: UserEvent, actions: Vec<Action>)
    requires
        call_ensures(App::user_event, (app, event), actions),
    ensures
        final(app)@ == old(app)@.user_event(event).0,
        actions@ == old(app)@.user_event(event).1,
{
}

/// An update of the runtime leads to what it leads to in the program's state.
pub proof fn law_runtime_update_call(app: &App, update: &RuntimeUpdate, actions: Vec<Action>)
    requires
        call_ensures(App::handle_runtime_update, (app, update), actions),
    ensures
        actions@ == app@.handle_runtime_update(update.changed, update.effects@),
{
}

/// The pointer's place and the bar's answer to it go by the program's state.
pub proof fn law_pointer_calls(
    app: &mut App,
    point: Point,
    located: Vec<Action>,
    resting: &App,
    changed: bool,
    hovered: Vec<Action>,
)
    requires
        call_ensures(App::cursor_located, (app, point), located),
        call_ensures(App::hover_updated, (resting, changed), hovered),
    ensures
        final(app)@ == old(app)@.cursor_located(point).0,
        located@ == old(app)@.cursor_located(point).1,
        hovered@ == resting@.hover_updated(changed),
{
}

/// Measurements go into the program's state.
pub proof fn law_measurement_calls(measured: &mut App, size: LogicalSize)
    requires
        call_ensures(App::logical_size_measured, (measured, size), ()),
    ensures
        final(measured)@ == old(measured)@.logical_size_measured(size),
{
}

/// The steps towards a window go by the program's state.
pub proof fn law_start_calls(
    idle: &App,
    resumed: Vec<Action>,
    finding: &mut App,
    primary: Option<Monitor>,
    first: Option<Monitor>,
    found: Vec<Action>,
    measuring: &mut App,
    size: LogicalSize,
    measured: Vec<Action>,
)
    requires
        call_ensures(App::resumed, (idle,), resumed),
        call_ensures(App::monitor_found, (finding, primary, first), found),
        call_ensures(App::bar_measured, (measuring, size), measured),
    ensures
        resumed@ == idle@.resumed(),
        final(finding)@ == old(finding)@.monitor_found(primary, first).0,
        found@ == old(finding)@.monitor_found(primary, first).1,
        final(measuring)@ == old(measuring)@.bar_measured(size).0,
        measured@ == old(measuring)@.bar_measured(size).1,
{
}

/// A created window is taken over with the back buffer for its size; without such
/// a buffer nothing changes and the reason is given.
pub proof fn law_window_created_call(
    app: &mut App,
    window_id: u64,
    size: PhysicalSize,
    r: Result<Vec<Action>, BufferError>,
)
    requires
        call_ensures(App::window_created, (app, window_id, size), r),
    ensures
        match AppState::first_buffer(size) {
            Ok(buffer) => {
                &&& r matches Ok(actions)
                &&& final(app)@ == old(app)@.window_created(window_id, size, buffer).0
                &&& actions@ == old(app)@.window_created(window_id, size, buffer).1
            },
            Err(reason) => {
                &&& r matches Err(error)
                &&& error == reason
                &&& final(app)@ == old(app)@
            },
        },
{
}

/// Drawing goes by the program's state, and a created image goes into it.
pub proof fn law_redraw_calls(
    app: &App,
    plan: Result<RedrawPlan, BufferError>,
    painting: &mut App,
    buffer: CairoBackBuffer,
)
    requires
        call_ensures(App::redraw, (app,), plan),
        call_ensures(App::image_created, (painting, buffer), ()),
    ensures
        plan == app@.redraw(),
        final(painting)@ == old(painting)@.image_created(buffer),
{
}

/// The path that the program gives is that of its state.
pub proof fn law_shared_path_call(app: &App, path: &str)
    requires
        call_ensures(App::shared_path, (app,), path),
    ensures
        path@ == app@.shared_path,
{
}

/// The two threads do what their tables say.
pub proof fn law_thread_calls(
    worker: &Worker,
    worker_event: WorkerEvent,
    worker_action: WorkerAction,
    tick_event: TickEvent,
    tick_action: TickAction,
)
    requires
        call_ensures(Worker::next, (worker, worker_event), worker_action),
        call_ensures(crate::ticker::next, (tick_event,), tick_action),
    ensures
        worker_action == crate::notifier::next_spec(worker.codes, worker_event),
        tick_action == crate::ticker::next_spec(tick_event),
{
}

/// Buttons, wheels and monitors mean what they mean in the program's state.
pub proof fn law_meaning_calls(
    button: MouseButton,
    pressed: Option<PointerAction>,
    delta: WheelDelta,
    turned: Option<PointerAction>,
    primary: Option<Monitor>,
    first: Option<Monitor>,
    monitor: Monitor,
)
    requires
        call_ensures(crate::pointer::button_action, (button,), pressed),
        call_ensures(crate::pointer::wheel_action, (delta,), turned),
        call_ensures(crate::geometry::choose_monitor, (primary, first), monitor),
    ensures
        pressed == crate::pointer::button_meaning(button),
        turned == crate::pointer::wheel_meaning(delta),
        primary matches Some(preferred) ==> monitor == preferred,
        primary is None && first is Some ==> monitor == first->0,
        primary is None && first is None ==> monitor.size == (PhysicalSize {
            width: 1920,
            height: 1080,
        }) && monitor.scale_factor == (ScaleFactor { bits: 0x3ff0_0000_0000_0000 }),
{
}

/// Back buffers are made and replaced as their sizes say.
pub proof fn law_buffer_calls(
    width: u32,
    height: u32,
    made: Result<CairoBackBuffer, BufferError>,
    buffer: &CairoBackBuffer,
    replaced: Result<Option<CairoBackBuffer>, BufferError>,
)
    requires
        call_ensures(CairoBackBuffer::new, (width, height), made),
        call_ensures(CairoBackBuffer::ensure_size, (buffer, width, height), replaced),
    ensures
        made == crate::back_buffer::buffer_for(width, height),
        replaced == buffer.replacement(width, height),
{
}

/// A sleep ends with the current second; where the clock stands before the epoch it
/// lasts a whole one, and where nothing of the second is left, a nanosecond.
pub proof fn law_delay_call(subsec_nanos: Option<u32>, delay: u64)
    requires
        call_ensures(crate::ticker::delay_nanos, (subsec_nanos,), delay),
    ensures
        subsec_nanos matches Some(nanos) ==> {
            &&& nanos < 1_000_000_000 ==> nanos + delay == 1_000_000_000
            &&& nanos >= 1_000_000_000 ==> delay == 1
        },
        subsec_nanos is None ==> delay == 1_000_000_000,
{
}

/// A worker keeps the codes that it was made with, each in its place; a size is
/// empty where a side is zero.
pub proof fn law_plain_calls(
    codes: crate::notifier::PollCodes,
    worker: Worker,
    size: PhysicalSize,
    empty: bool,
)
    requires
        call_ensures(Worker::with_codes, (codes,), worker),
        call_ensures(PhysicalSize::is_empty, (size,), empty),
    ensures
        worker.codes.readable == codes.readable,
        worker.codes.error == codes.error,
        worker.codes.hangup == codes.hangup,
        worker.codes.invalid == codes.invalid,
        worker.codes.interrupted == codes.interrupted,
        empty <==> size.width == 0 || size.height == 0,
{
}

} // verus!
