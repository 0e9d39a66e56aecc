use winit_softbuffer_bar::action::{Action, Program};
use winit_softbuffer_bar::app::App;
use winit_softbuffer_bar::back_buffer::{BufferError, CairoBackBuffer};
use winit_softbuffer_bar::event::{BarEffect, RuntimeUpdate, UserEvent, WindowEvent};
use winit_softbuffer_bar::geometry::{
    CursorPosition, LogicalSize, Monitor, MonitorGeometry, PhysicalSize, Point, ScaleFactor,
};
use winit_softbuffer_bar::pointer::{MouseButton, PointerAction, WheelDelta};
use winit_softbuffer_bar::state::RedrawPlan;

const WINDOW: u64 = 77;
const SECOND: u128 = 1_000_000_000;

fn scale(value: f64) -> ScaleFactor {
    ScaleFactor { bits: value.to_bits() }
}

fn logical(width: f64, height: f64) -> LogicalSize {
    LogicalSize { width: width.to_bits(), height: height.to_bits() }
}

fn physical(width: u32, height: u32) -> PhysicalSize {
    PhysicalSize { width, height }
}

fn point(x: f32, y: f32) -> Point {
    Point { x: x.to_bits(), y: y.to_bits() }
}

fn fresh(path: &str) -> App {
    App::new(logical(800.0, 38.0), physical(800, 38), scale(1.0), path.to_string(), 5 * SECOND)
}

fn buffer(width: u32, height: u32) -> CairoBackBuffer {
    CairoBackBuffer::new(width, height).unwrap()
}

fn open(path: &str) -> App {
    let mut app = fresh(path);
    let monitor = Monitor { scale_factor: scale(2.0), size: physical(3840, 2160) };
    app.monitor_found(Some(monitor), None);
    app.bar_measured(logical(1920.0, 38.0));
    app.window_created(WINDOW, physical(3840, 76)).unwrap();
    app
}

fn update(changed: bool, effects: Vec<BarEffect>) -> RuntimeUpdate {
    RuntimeUpdate { changed, effects }
}

#[test]
fn first_resume_leads_to_a_window() {
    let mut app = fresh("");
    assert_eq!(app.resumed(), vec![Action::FindMonitor]);
    let monitor = Monitor { scale_factor: scale(2.0), size: physical(3840, 2160) };
    assert_eq!(
        app.monitor_found(Some(monitor), None),
        vec![Action::MeasureBar { screen_width: 3840, scale_factor: scale(2.0) }]
    );
    assert_eq!(
        app.bar_measured(logical(1920.0, 38.0)),
        vec![Action::CreateWindow { logical_size: logical(1920.0, 38.0) }]
    );
    assert_eq!(
        app.window_created(WINDOW, physical(3840, 76)),
        Ok(vec![
            Action::PrepareSurface { width: 3840, height: 76 },
            Action::CreateImage { buffer: buffer(3840, 76) },
            Action::Tick,
            Action::PollTransport,
            Action::RequestRedraw,
        ])
    );
}

#[test]
fn second_resume_does_nothing() {
    assert_eq!(open("").resumed(), vec![]);
}

#[test]
fn monitors_are_tried_in_order() {
    let second = Monitor { scale_factor: scale(1.5), size: physical(2560, 1440) };
    assert_eq!(
        fresh("").monitor_found(None, Some(second)),
        vec![Action::MeasureBar { screen_width: 2560, scale_factor: scale(1.5) }]
    );
    assert_eq!(
        fresh("").monitor_found(None, None),
        vec![Action::MeasureBar { screen_width: 1920, scale_factor: scale(1.0) }]
    );
}

#[test]
fn empty_new_window_gets_a_one_pixel_buffer_and_no_surface_size() {
    let mut app = fresh("");
    assert_eq!(
        app.window_created(WINDOW, physical(0, 76)),
        Ok(vec![
            Action::CreateImage { buffer: buffer(1, 76) },
            Action::Tick,
            Action::PollTransport,
            Action::RequestRedraw,
        ])
    );
    assert_eq!(app.redraw(), Ok(RedrawPlan::Skip));
}

#[test]
fn oversized_new_window_is_refused() {
    let mut app = fresh("");
    assert_eq!(
        app.window_created(WINDOW, physical(u32::MAX, 1)),
        Err(BufferError::WidthTooLarge)
    );
    assert_eq!(
        app.window_created(WINDOW, physical(1, u32::MAX)),
        Err(BufferError::HeightTooLarge)
    );
    assert_eq!(app.resumed(), vec![Action::FindMonitor]);
}

#[test]
fn other_windows_are_ignored() {
    let mut app = open("");
    assert_eq!(app.window_event(WINDOW + 1, WindowEvent::CloseRequested), vec![]);
    assert_eq!(app.window_event(WINDOW, WindowEvent::CloseRequested), vec![Action::Exit]);
    assert_eq!(fresh("").window_event(WINDOW, WindowEvent::CloseRequested), vec![]);
}

#[test]
fn resizing_takes_over_scale_and_size() {
    let mut app = open("");
    let size = physical(1000, 57);
    let event = WindowEvent::Resized { size, window_scale: Some(scale(1.5)) };
    assert_eq!(
        app.window_event(WINDOW, event),
        vec![
            Action::MeasureLogicalSize { size, scale_factor: scale(1.5) },
            Action::ResizeSurface { width: 1000, height: 57 },
            Action::RequestRedraw,
        ]
    );
    app.logical_size_measured(logical(666.0, 38.0));
    assert_eq!(
        app.redraw(),
        Ok(RedrawPlan::Paint {
            size,
            image: Some(buffer(1000, 57)),
            scale_factor: scale(1.5),
            logical_size: logical(666.0, 38.0),
            present: true,
        })
    );
}

#[test]
fn resizing_without_a_reported_scale_keeps_the_old_one() {
    let mut app = open("");
    let size = physical(10, 20);
    let actions = app.window_event(WINDOW, WindowEvent::Resized { size, window_scale: None });
    assert_eq!(actions[0], Action::MeasureLogicalSize { size, scale_factor: scale(2.0) });
}

#[test]
fn empty_window_is_not_drawn() {
    let mut app = open("");
    for size in [physical(0, 10), physical(10, 0), physical(0, 0)] {
        let event = WindowEvent::Resized { size, window_scale: Some(scale(1.0)) };
        assert_eq!(app.window_event(WINDOW, event), vec![Action::RequestRedraw]);
        assert_eq!(app.redraw(), Ok(RedrawPlan::Skip));
    }
}

#[test]
fn new_scale_factor_resizes_and_places_the_window() {
    let mut app = open("");
    let size = physical(1920, 38);
    let geometry = MonitorGeometry { x: -5, y: 7, width: 1920 };
    let event = WindowEvent::ScaleFactorChanged {
        scale_factor: scale(1.0),
        inner_size: Some(size),
        geometry: Some(geometry),
    };
    assert_eq!(
        app.window_event(WINDOW, event),
        vec![
            Action::MeasureLogicalSize { size, scale_factor: scale(1.0) },
            Action::ResizeSurface { width: 1920, height: 38 },
            Action::ApplyGeometry { geometry, scale_factor: scale(1.0) },
            Action::RequestRedraw,
        ]
    );
    let event = WindowEvent::ScaleFactorChanged {
        scale_factor: scale(3.0),
        inner_size: None,
        geometry: None,
    };
    assert_eq!(app.window_event(WINDOW, event), vec![Action::RequestRedraw]);
}

#[test]
fn moving_pointer_is_located_with_the_current_scale() {
    let mut app = open("");
    let position = CursorPosition { x: 10.0f64.to_bits(), y: 4.0f64.to_bits() };
    assert_eq!(
        app.window_event(WINDOW, WindowEvent::CursorMoved { position }),
        vec![Action::LocateCursor { position, scale_factor: scale(2.0) }]
    );
    assert_eq!(
        app.cursor_located(point(5.0, 2.0)),
        vec![Action::MovePointer { point: point(5.0, 2.0) }]
    );
    assert_eq!(app.hover_updated(true), vec![Action::RequestRedraw]);
    assert_eq!(app.hover_updated(false), vec![]);
}

#[test]
fn click_lands_where_the_pointer_is() {
    let mut app = open("");
    let press = |button: MouseButton| WindowEvent::MouseInput { pressed: true, button };
    assert_eq!(app.window_event(WINDOW, press(MouseButton::Left)), vec![]);
    app.cursor_located(point(1.0, 2.0));
    app.cursor_located(point(3.0, 4.0));
    assert_eq!(
        app.window_event(WINDOW, press(MouseButton::Left)),
        vec![Action::ActOnPointer { point: point(3.0, 4.0), action: PointerAction::Primary }]
    );
    assert_eq!(
        app.window_event(WINDOW, press(MouseButton::Right)),
        vec![Action::ActOnPointer { point: point(3.0, 4.0), action: PointerAction::Secondary }]
    );
    assert_eq!(app.window_event(WINDOW, press(MouseButton::Middle)), vec![]);
}

#[test]
fn release_does_nothing() {
    let mut app = open("");
    app.cursor_located(point(1.0, 2.0));
    let release = WindowEvent::MouseInput { pressed: false, button: MouseButton::Left };
    assert_eq!(app.window_event(WINDOW, release), vec![]);
}

#[test]
fn wheel_acts_where_the_pointer_is() {
    let mut app = open("");
    let up = WindowEvent::MouseWheel { delta: WheelDelta::Lines { lines: 1.0f32.to_bits() } };
    let down = WindowEvent::MouseWheel { delta: WheelDelta::Pixels { pixels: (-2.5f64).to_bits() } };
    let still = WindowEvent::MouseWheel { delta: WheelDelta::Pixels { pixels: 0 } };
    assert_eq!(app.window_event(WINDOW, up), vec![]);
    app.cursor_located(point(8.0, 9.0));
    assert_eq!(
        app.window_event(WINDOW, up),
        vec![Action::ActOnPointer { point: point(8.0, 9.0), action: PointerAction::ScrollUp }]
    );
    assert_eq!(
        app.window_event(WINDOW, down),
        vec![Action::ActOnPointer { point: point(8.0, 9.0), action: PointerAction::ScrollDown }]
    );
    assert_eq!(app.window_event(WINDOW, still), vec![]);
}

#[test]
fn absent_pointer_does_nothing() {
    let mut app = open("");
    app.cursor_located(point(1.0, 2.0));
    assert_eq!(app.window_event(WINDOW, WindowEvent::CursorLeft), vec![Action::LeavePointer]);
    let press = WindowEvent::MouseInput { pressed: true, button: MouseButton::Left };
    assert_eq!(app.window_event(WINDOW, press), vec![]);
}

#[test]
fn redraw_request_and_other_events() {
    let mut app = open("");
    assert_eq!(app.window_event(WINDOW, WindowEvent::RedrawRequested), vec![Action::Redraw]);
    assert_eq!(app.window_event(WINDOW, WindowEvent::Other), vec![]);
}

#[test]
fn image_is_reused_until_the_size_changes() {
    let mut app = open("");
    let paint = |app: &App| match app.redraw() {
        Ok(RedrawPlan::Paint { image, .. }) => image,
        other => panic!("{other:?}"),
    };
    assert_eq!(paint(&app), None);
    let size = physical(500, 40);
    app.window_event(WINDOW, WindowEvent::Resized { size, window_scale: None });
    assert_eq!(paint(&app), Some(buffer(500, 40)));
    app.image_created(buffer(500, 40));
    assert_eq!(paint(&app), None);
}

#[test]
fn oversized_window_cannot_be_drawn() {
    let mut app = open("");
    let size = physical(1, u32::MAX);
    app.window_event(WINDOW, WindowEvent::Resized { size, window_scale: None });
    assert_eq!(app.redraw(), Err(BufferError::HeightTooLarge));
    assert_eq!(fresh("").redraw(), Ok(RedrawPlan::Skip));
}

#[test]
fn effects_are_handled_in_order_and_a_change_is_drawn_last() {
    let app = open("");
    let geometry = MonitorGeometry { x: 1, y: 2, width: 3 };
    let effects = vec![
        BarEffect::OpenAudioControl,
        BarEffect::ToggleMute,
        BarEffect::ApplyMonitorGeometry(geometry),
        BarEffect::ClearMonitorGeometry,
        BarEffect::Screenshot,
    ];
    assert_eq!(
        app.handle_runtime_update(&update(true, effects)),
        vec![
            Action::Launch { program: Program::Pavucontrol },
            Action::Unhandled { index: 1 },
            Action::ApplyGeometry { geometry, scale_factor: scale(2.0) },
            Action::ResetGeometry { logical_size: logical(1920.0, 38.0) },
            Action::Launch { program: Program::Flameshot },
            Action::RequestRedraw,
        ]
    );
    assert_eq!(app.handle_runtime_update(&update(false, vec![])), vec![]);
}

#[test]
fn effects_for_the_window_manager_and_devices_are_reported() {
    let app = open("");
    let effects = vec![
        BarEffect::WindowManager,
        BarEffect::ToggleMute,
        BarEffect::AdjustVolume,
        BarEffect::AdjustBrightness,
        BarEffect::RefreshBattery,
    ];
    let expected: Vec<Action> = (0..5).map(|index| Action::Unhandled { index }).collect();
    assert_eq!(app.handle_runtime_update(&update(false, effects)), expected);
}

#[test]
fn without_a_window_only_programs_are_started() {
    let app = fresh("");
    let effects = vec![
        BarEffect::ApplyMonitorGeometry(MonitorGeometry { x: 0, y: 0, width: 1 }),
        BarEffect::ClearMonitorGeometry,
        BarEffect::Screenshot,
    ];
    assert_eq!(
        app.handle_runtime_update(&update(true, effects)),
        vec![Action::Launch { program: Program::Flameshot }]
    );
    assert_eq!(app.hover_updated(true), vec![]);
}

#[test]
fn default_size_survives_resizing() {
    let mut app = open("");
    let size = physical(640, 30);
    app.window_event(WINDOW, WindowEvent::Resized { size, window_scale: Some(scale(1.0)) });
    app.logical_size_measured(logical(640.0, 30.0));
    assert_eq!(
        app.handle_runtime_update(&update(false, vec![BarEffect::ClearMonitorGeometry])),
        vec![Action::ResetGeometry { logical_size: logical(1920.0, 38.0) }]
    );
}

#[test]
fn programs_have_their_commands() {
    assert_eq!(Program::Flameshot.command(), "flameshot");
    assert_eq!(Program::Flameshot.arguments(), vec!["gui"]);
    assert_eq!(Program::Pavucontrol.command(), "pavucontrol");
    assert_eq!(Program::Pavucontrol.arguments(), Vec::<&str>::new());
}

#[test]
fn lost_transport_is_retried_after_the_interval() {
    let mut app = open("/dev/shm/bar");
    assert_eq!(app.shared_path(), "/dev/shm/bar");
    let tick = |now: u128, connected: bool| UserEvent::Tick { now, connected };
    let retry = vec![Action::OpenTransport, Action::TickAndPoll];
    let plain = vec![Action::TickAndPoll];
    assert_eq!(app.user_event(tick(7 * SECOND - 1, false)), plain);
    assert_eq!(app.user_event(tick(7 * SECOND, false)), retry);
    assert_eq!(app.user_event(tick(8 * SECOND, false)), plain);
    assert_eq!(app.user_event(tick(9 * SECOND, false)), retry);
    assert_eq!(app.user_event(tick(0, false)), plain);
    assert_eq!(app.user_event(tick(90 * SECOND, true)), plain);
    assert_eq!(app.user_event(tick(90 * SECOND, false)), retry);
}

#[test]
fn transport_is_never_tried_without_a_path() {
    let mut app = open("");
    let tick = UserEvent::Tick { now: 900 * SECOND, connected: false };
    assert_eq!(app.user_event(tick), vec![Action::TickAndPoll]);
}

#[test]
fn pending_flag_is_cleared_after_the_transport_was_polled() {
    let mut app = open("x");
    assert_eq!(
        app.user_event(UserEvent::SharedUpdated),
        vec![Action::PollTransport, Action::ClearPending]
    );
}

#[test]
fn pointer_leaving_another_window_does_not_matter() {
    let mut app = open("");
    app.cursor_located(point(1.0, 2.0));
    assert_eq!(app.window_event(WINDOW + 1, WindowEvent::CursorLeft), vec![]);
    let press = WindowEvent::MouseInput { pressed: true, button: MouseButton::Left };
    assert_eq!(
        app.window_event(WINDOW, press),
        vec![Action::ActOnPointer { point: point(1.0, 2.0), action: PointerAction::Primary }]
    );
}

#[test]
fn pointer_that_left_does_nothing_until_it_moves() {
    let mut app = open("x");
    let press = WindowEvent::MouseInput { pressed: true, button: MouseButton::Left };
    let scroll = WindowEvent::MouseWheel { delta: WheelDelta::Lines { lines: 1.0f32.to_bits() } };
    app.cursor_located(point(1.0, 2.0));
    app.window_event(WINDOW, WindowEvent::CursorLeft);
    app.hover_updated(true);
    app.window_event(WINDOW, WindowEvent::Resized { size: physical(9, 9), window_scale: None });
    app.logical_size_measured(logical(4.5, 4.5));
    app.user_event(UserEvent::Tick { now: 99 * SECOND, connected: false });
    assert_eq!(app.window_event(WINDOW, press), vec![]);
    assert_eq!(app.window_event(WINDOW, scroll), vec![]);
    let position = CursorPosition { x: 6.0f64.to_bits(), y: 8.0f64.to_bits() };
    assert_eq!(
        app.window_event(WINDOW, WindowEvent::CursorMoved { position }),
        vec![Action::LocateCursor { position, scale_factor: scale(2.0) }]
    );
    app.cursor_located(point(3.0, 4.0));
    assert_eq!(
        app.window_event(WINDOW, press),
        vec![Action::ActOnPointer { point: point(3.0, 4.0), action: PointerAction::Primary }]
    );
}

#[test]
fn size_is_measured_at_the_scale_of_the_same_event() {
    let mut app = open("");
    let event = WindowEvent::ScaleFactorChanged {
        scale_factor: scale(1.25),
        inner_size: Some(physical(100, 50)),
        geometry: None,
    };
    assert_eq!(
        app.window_event(WINDOW, event)[0],
        Action::MeasureLogicalSize { size: physical(100, 50), scale_factor: scale(1.25) }
    );
}
