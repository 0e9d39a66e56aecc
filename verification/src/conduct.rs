//! How the bar's window behaves, event by event: what each one stores, and what is
//! done about it, for every state that the window can be in.

use vstd::prelude::*;

use crate::action::{Action, Program};
use crate::back_buffer::{BufferError, CairoBackBuffer};
use crate::event::{BarEffect, UserEvent, WindowEvent};
use crate::geometry::{
    CursorPosition, LogicalSize, Monitor, MonitorGeometry, PhysicalSize, Point, ScaleFactor,
};
use crate::history::Input;
use crate::pointer::{MouseButton, PointerAction, WheelDelta};
use crate::state::{AppState, RedrawPlan};

verus! {

/// A program starts without a window and without a pointer, in the sizes and at the
/// scale factor that it is given, and has tried its transport just now.
pub proof fn law_program_starts_bare(
    logical_size: LogicalSize,
    physical_size: PhysicalSize,
    scale_factor: ScaleFactor,
    shared_path: Seq<char>,
    now: u128,
)
    ensures
        ({
            let state = AppState::initial(
                logical_size,
                physical_size,
                scale_factor,
                shared_path,
                now,
            );
            &&& !state.window && !state.soft_surface
            &&& state.window_id is None && state.back is None && state.last_cursor_pos is None
            &&& state.logical_size == logical_size && state.default_logical_size == logical_size
            &&& state.last_physical_size == physical_size
            &&& state.scale_factor == scale_factor
            &&& state.shared_path == shared_path
            &&& state.last_transport_attempt == now
        }),
{
}

/// In every run from the start, there is a surface, a window number and a back
/// buffer exactly while there is a window, and the back buffer's image is neither
/// empty nor of another size than the buffer.
pub proof fn law_window_parts_come_together(
    logical_size: LogicalSize,
    physical_size: PhysicalSize,
    scale_factor: ScaleFactor,
    shared_path: Seq<char>,
    now: u128,
    inputs: Seq<Input>,
)
    requires
        AppState::initial(
            logical_size,
            physical_size,
            scale_factor,
            shared_path,
            now,
        ).admits_all(inputs),
    ensures
        ({
            let state = AppState::initial(
                logical_size,
                physical_size,
                scale_factor,
                shared_path,
                now,
            ).after(inputs);
            &&& state.window <==> state.soft_surface
            &&& state.window <==> state.window_id is Some
            &&& state.window <==> state.back is Some
            &&& state.back matches Some(buffer) ==> {
                &&& buffer.width > 0
                &&& buffer.height > 0
                &&& buffer.image.width == buffer.width
                &&& buffer.image.height == buffer.height
            }
        }),
{
    crate::history::law_state_stays_well_formed(
        AppState::initial(logical_size, physical_size, scale_factor, shared_path, now),
        inputs,
    );
}

/// A program that is resumed looks for a monitor exactly where it has no window.
pub proof fn law_resuming_looks_for_a_monitor_once(state: AppState)
    ensures
        !state.window ==> state.resumed() == seq![Action::FindMonitor],
        state.window ==> state.resumed().len() == 0,
{
}

/// A primary monitor is taken whatever other monitors there are: the bar is
/// measured across its width at its scale factor, which the window takes over.
/// Nothing else about the window changes.
pub proof fn law_primary_monitor_wins(state: AppState, primary: Monitor, first: Option<Monitor>)
    ensures
        state.monitor_found(Some(primary), first).0 == (AppState {
            scale_factor: primary.scale_factor,
            ..state
        }),
        state.monitor_found(Some(primary), first).1 == seq![
            Action::MeasureBar {
                screen_width: primary.size.width,
                scale_factor: primary.scale_factor,
            },
        ],
{
}

/// Without a primary monitor the first one counts as if it were primary; without
/// any, the bar is measured across 1920 pixels at scale factor one.
pub proof fn law_other_monitors_stand_in(state: AppState, first: Monitor)
    ensures
        state.monitor_found(None, Some(first)).0 == (AppState {
            scale_factor: first.scale_factor,
            ..state
        }),
        state.monitor_found(None, Some(first)).1 == seq![
            Action::MeasureBar {
                screen_width: first.size.width,
                scale_factor: first.scale_factor,
            },
        ],
        state.monitor_found(None, None).0 == (AppState {
            scale_factor: ScaleFactor { bits: 0x3ff0_0000_0000_0000 },
            ..state
        }),
        state.monitor_found(None, None).1 == seq![
            Action::MeasureBar {
                screen_width: 1920,
                scale_factor: ScaleFactor { bits: 0x3ff0_0000_0000_0000 },
            },
        ],
{
}

/// The size that was measured for the bar is both the current and the default one,
/// and a window of that size is created.
pub proof fn law_window_is_created_in_the_measured_size(state: AppState, size: LogicalSize)
    ensures
        state.bar_measured(size).0 == (AppState {
            logical_size: size,
            default_logical_size: size,
            ..state
        }),
        state.bar_measured(size).1 == seq![Action::CreateWindow { logical_size: size }],
{
}

/// A new window gets a back buffer of its size, each side at least one pixel; there
/// is none exactly where a side is beyond 2147483647, the width being blamed first.
pub proof fn law_first_buffer_fits_the_window(size: PhysicalSize)
    ensures
        AppState::first_buffer(size) is Ok <==> size.width <= 0x7fff_ffff && size.height
            <= 0x7fff_ffff,
        AppState::first_buffer(size) matches Ok(buffer) ==> {
            &&& size.width > 0 ==> buffer.width == size.width
            &&& size.width == 0 ==> buffer.width == 1
            &&& size.height > 0 ==> buffer.height == size.height
            &&& size.height == 0 ==> buffer.height == 1
            &&& buffer.image.width == buffer.width
            &&& buffer.image.height == buffer.height
        },
        AppState::first_buffer(size) == Err::<CairoBackBuffer, BufferError>(
            BufferError::WidthTooLarge,
        ) <==> size.width > 0x7fff_ffff,
{
}

/// A window that was created is remembered with its number, its size, its surface
/// and its back buffer, and nothing else changes. The surface is given the window's
/// size unless a side is zero; then the image is created, the bar is ticked and
/// polled, in this order, and drawn.
pub proof fn law_created_window_is_set_up(
    state: AppState,
    window_id: u64,
    size: PhysicalSize,
    buffer: CairoBackBuffer,
)
    ensures
        state.window_created(window_id, size, buffer).0 == (AppState {
            window: true,
            window_id: Some(window_id),
            last_physical_size: size,
            back: Some(buffer),
            soft_surface: true,
            ..state
        }),
        size.width > 0 && size.height > 0 ==> state.window_created(window_id, size, buffer).1
            == seq![
            Action::PrepareSurface { width: size.width, height: size.height },
            Action::CreateImage { buffer },
            Action::Tick,
            Action::PollTransport,
            Action::RequestRedraw,
        ],
        size.width == 0 || size.height == 0 ==> state.window_created(window_id, size, buffer).1
            == seq![
            Action::CreateImage { buffer },
            Action::Tick,
            Action::PollTransport,
            Action::RequestRedraw,
        ],
{
}

/// Every new size with something to draw on reaches the surface, whatever the size
/// was before: it is measured at the scale factor that the window reports (the old
/// one where it reports none), the surface is resized to it once, and the window is
/// drawn. Size and scale factor are all that is stored.
pub proof fn law_resize_reaches_the_surface(
    state: AppState,
    window_id: u64,
    size: PhysicalSize,
    window_scale: ScaleFactor,
)
    requires
        state.window_id == Some(window_id),
        state.window,
        state.soft_surface,
        size.width > 0,
        size.height > 0,
    ensures
        ({
            let (resized, actions) = state.window_event(
                window_id,
                WindowEvent::Resized { size, window_scale: Some(window_scale) },
            );
            &&& resized == AppState {
                last_physical_size: size,
                scale_factor: window_scale,
                ..state
            }
            &&& actions == seq![
                Action::MeasureLogicalSize { size, scale_factor: window_scale },
                Action::ResizeSurface { width: size.width, height: size.height },
                Action::RequestRedraw,
            ]
        }),
        ({
            let (resized, actions) = state.window_event(
                window_id,
                WindowEvent::Resized { size, window_scale: None },
            );
            &&& resized == AppState { last_physical_size: size, ..state }
            &&& actions == seq![
                Action::MeasureLogicalSize { size, scale_factor: state.scale_factor },
                Action::ResizeSurface { width: size.width, height: size.height },
                Action::RequestRedraw,
            ]
        }),
{
    let reported = state.window_event(
        window_id,
        WindowEvent::Resized { size, window_scale: Some(window_scale) },
    ).1;
    assert(reported =~= seq![
        Action::MeasureLogicalSize { size, scale_factor: window_scale },
        Action::ResizeSurface { width: size.width, height: size.height },
        Action::RequestRedraw,
    ]);
    let kept = state.window_event(
        window_id,
        WindowEvent::Resized { size, window_scale: None },
    ).1;
    assert(kept =~= seq![
        Action::MeasureLogicalSize { size, scale_factor: state.scale_factor },
        Action::ResizeSurface { width: size.width, height: size.height },
        Action::RequestRedraw,
    ]);
}

/// A size without anything to draw on is remembered, with the scale factor that the
/// window reports; neither the surface nor the logical size follows it.
pub proof fn law_resize_to_nothing_leaves_the_surface(
    state: AppState,
    window_id: u64,
    size: PhysicalSize,
    window_scale: Option<ScaleFactor>,
)
    requires
        state.window_id == Some(window_id),
        state.window,
        size.width == 0 || size.height == 0,
    ensures
        ({
            let (resized, actions) = state.window_event(
                window_id,
                WindowEvent::Resized { size, window_scale },
            );
            &&& resized.last_physical_size == size
            &&& window_scale matches Some(scale) ==> resized.scale_factor == scale
            &&& window_scale is None ==> resized.scale_factor == state.scale_factor
            &&& resized == AppState {
                last_physical_size: size,
                scale_factor: resized.scale_factor,
                ..state
            }
            &&& actions == seq![Action::RequestRedraw]
        }),
{
    let actions = state.window_event(window_id, WindowEvent::Resized { size, window_scale }).1;
    assert(actions =~= seq![Action::RequestRedraw]);
}

/// A new scale factor is stored together with the window's size. The size is
/// measured and the surface resized at the new scale factor, an assigned place is
/// applied as it was assigned at the new scale factor, and the window is drawn.
pub proof fn law_new_scale_resizes_and_places(
    state: AppState,
    window_id: u64,
    scale_factor: ScaleFactor,
    size: PhysicalSize,
    geometry: MonitorGeometry,
)
    requires
        state.window_id == Some(window_id),
        state.window,
        state.soft_surface,
        size.width > 0,
        size.height > 0,
    ensures
        ({
            let (scaled, actions) = state.window_event(
                window_id,
                WindowEvent::ScaleFactorChanged {
                    scale_factor,
                    inner_size: Some(size),
                    geometry: Some(geometry),
                },
            );
            &&& scaled == AppState { last_physical_size: size, scale_factor, ..state }
            &&& actions == seq![
                Action::MeasureLogicalSize { size, scale_factor },
                Action::ResizeSurface { width: size.width, height: size.height },
                Action::ApplyGeometry { geometry, scale_factor },
                Action::RequestRedraw,
            ]
        }),
        ({
            let (scaled, actions) = state.window_event(
                window_id,
                WindowEvent::ScaleFactorChanged {
                    scale_factor,
                    inner_size: Some(size),
                    geometry: None,
                },
            );
            &&& scaled == AppState { last_physical_size: size, scale_factor, ..state }
            &&& actions == seq![
                Action::MeasureLogicalSize { size, scale_factor },
                Action::ResizeSurface { width: size.width, height: size.height },
                Action::RequestRedraw,
            ]
        }),
{
    let placed = state.window_event(
        window_id,
        WindowEvent::ScaleFactorChanged {
            scale_factor,
            inner_size: Some(size),
            geometry: Some(geometry),
        },
    ).1;
    assert(placed =~= seq![
        Action::MeasureLogicalSize { size, scale_factor },
        Action::ResizeSurface { width: size.width, height: size.height },
        Action::ApplyGeometry { geometry, scale_factor },
        Action::RequestRedraw,
    ]);
    let unplaced = state.window_event(
        window_id,
        WindowEvent::ScaleFactorChanged { scale_factor, inner_size: Some(size), geometry: None },
    ).1;
    assert(unplaced =~= seq![
        Action::MeasureLogicalSize { size, scale_factor },
        Action::ResizeSurface { width: size.width, height: size.height },
        Action::RequestRedraw,
    ]);
}

/// A new scale factor with no size, or none to draw on, is stored and the place
/// applied at it; the surface stays as it is.
pub proof fn law_new_scale_without_a_size(
    state: AppState,
    window_id: u64,
    scale_factor: ScaleFactor,
    inner_size: Option<PhysicalSize>,
    geometry: Option<MonitorGeometry>,
)
    requires
        state.window_id == Some(window_id),
        state.window,
        inner_size matches Some(size) ==> size.width == 0 || size.height == 0,
    ensures
        ({
            let (scaled, actions) = state.window_event(
                window_id,
                WindowEvent::ScaleFactorChanged { scale_factor, inner_size, geometry },
            );
            &&& inner_size matches Some(size) ==> scaled.last_physical_size == size
            &&& inner_size is None ==> scaled.last_physical_size == state.last_physical_size
            &&& scaled == AppState {
                last_physical_size: scaled.last_physical_size,
                scale_factor,
                ..state
            }
            &&& geometry matches Some(place) ==> actions == seq![
                Action::ApplyGeometry { geometry: place, scale_factor },
                Action::RequestRedraw,
            ]
            &&& geometry is None ==> actions == seq![Action::RequestRedraw]
        }),
{
    let actions = state.window_event(
        window_id,
        WindowEvent::ScaleFactorChanged { scale_factor, inner_size, geometry },
    ).1;
    if let Some(place) = geometry {
        assert(actions =~= seq![
            Action::ApplyGeometry { geometry: place, scale_factor },
            Action::RequestRedraw,
        ]);
    } else {
        assert(actions =~= seq![Action::RequestRedraw]);
    }
}

/// After a resize whose size was measured, the window is drawn in exactly that
/// size, at exactly that scale factor, in exactly the measured logical size, unless
/// a side is beyond 2147483647.
pub proof fn law_redraw_after_a_resize_uses_the_new_size(
    state: AppState,
    window_id: u64,
    size: PhysicalSize,
    scale_factor: ScaleFactor,
    logical_size: LogicalSize,
)
    requires
        state.window_id == Some(window_id),
        state.window,
        state.soft_surface,
        0 < size.width <= 0x7fff_ffff,
        0 < size.height <= 0x7fff_ffff,
    ensures
        ({
            let plan = state.window_event(
                window_id,
                WindowEvent::Resized { size, window_scale: Some(scale_factor) },
            ).0.logical_size_measured(logical_size).redraw();
            &&& plan matches Ok(RedrawPlan::Paint {
                size: drawn,
                image,
                scale_factor: scale,
                logical_size: logical,
                present,
            })
            &&& drawn == size && scale == scale_factor && logical == logical_size && present
        }),
{
}

/// The bar is painted, whether or not its image has to be created, in the last
/// size, at the current scale factor and in the current logical size, and it is
/// presented where there is a surface.
pub proof fn law_redraw_paints_the_current_state(state: AppState)
    ensures
        state.redraw() matches Ok(RedrawPlan::Paint {
            size,
            image,
            scale_factor,
            logical_size,
            present,
        }) ==> {
            &&& size == state.last_physical_size
            &&& scale_factor == state.scale_factor
            &&& logical_size == state.logical_size
            &&& present == state.soft_surface
        },
{
}

/// Drawing is skipped exactly where there is no window or a side of it is zero.
pub proof fn law_redraw_is_skipped_only_without_a_canvas(state: AppState)
    ensures
        state.redraw() == Ok::<RedrawPlan, BufferError>(RedrawPlan::Skip) <==> !state.window
            || state.last_physical_size.width == 0 || state.last_physical_size.height == 0,
{
}

/// A redraw keeps its image exactly where there is a back buffer of the window's
/// size, and otherwise asks for an image of that size. It fails exactly where the
/// image cannot be kept and a side is beyond 2147483647, the width being blamed
/// first.
pub proof fn law_redraw_creates_an_image_on_any_change_of_size(state: AppState)
    requires
        state.window,
        state.last_physical_size.width > 0,
        state.last_physical_size.height > 0,
    ensures
        ({
            let size = state.last_physical_size;
            let kept = state.back matches Some(buffer) && buffer.width == size.width
                && buffer.height == size.height;
            match state.redraw() {
                Ok(RedrawPlan::Paint { image: None, .. }) => kept,
                Ok(RedrawPlan::Paint { image: Some(buffer), .. }) => {
                    &&& !kept
                    &&& buffer.width == size.width && buffer.height == size.height
                    &&& buffer.image.width == size.width && buffer.image.height == size.height
                },
                Ok(RedrawPlan::Skip) => false,
                Err(BufferError::WidthTooLarge) => !kept && size.width > 0x7fff_ffff,
                Err(BufferError::HeightTooLarge) => !kept && size.width <= 0x7fff_ffff
                    && size.height > 0x7fff_ffff,
            }
        }),
        state.last_physical_size.width <= 0x7fff_ffff && state.last_physical_size.height
            <= 0x7fff_ffff ==> state.redraw() is Ok,
{
}

/// A created image is remembered, and nothing else changes.
pub proof fn law_created_image_is_remembered(state: AppState, buffer: CairoBackBuffer)
    ensures
        state.image_created(buffer) == (AppState { back: Some(buffer), ..state }),
{
}

/// A measured size is remembered, and nothing else changes.
pub proof fn law_measured_size_is_remembered(state: AppState, size: LogicalSize)
    ensures
        state.logical_size_measured(size) == (AppState { logical_size: size, ..state }),
{
}

/// Closing the window ends the program, a request to draw leads to a drawing, and
/// any other event to nothing; none of them changes anything.
pub proof fn law_plain_window_events(state: AppState, window_id: u64)
    requires
        state.window_id == Some(window_id),
    ensures
        state.window_event(window_id, WindowEvent::CloseRequested).0 == state,
        state.window_event(window_id, WindowEvent::CloseRequested).1 == seq![Action::Exit],
        state.window_event(window_id, WindowEvent::RedrawRequested).0 == state,
        state.window_event(window_id, WindowEvent::RedrawRequested).1 == seq![Action::Redraw],
        state.window_event(window_id, WindowEvent::Other).0 == state,
        state.window_event(window_id, WindowEvent::Other).1.len() == 0,
{
}

/// A position of the pointer is converted as it was reported, at the current scale
/// factor; the converted place is remembered and told to the bar.
pub proof fn law_pointer_is_followed(
    state: AppState,
    window_id: u64,
    position: CursorPosition,
    point: Point,
)
    requires
        state.window_id == Some(window_id),
    ensures
        state.window_event(window_id, WindowEvent::CursorMoved { position }).0 == state,
        state.window_event(window_id, WindowEvent::CursorMoved { position }).1 == seq![
            Action::LocateCursor { position, scale_factor: state.scale_factor },
        ],
        state.cursor_located(point).0 == (AppState { last_cursor_pos: Some(point), ..state }),
        state.cursor_located(point).1 == seq![Action::MovePointer { point }],
{
}

/// A pointer that leaves is forgotten, and the bar is told; nothing else changes.
pub proof fn law_leaving_pointer_is_forgotten(state: AppState, window_id: u64)
    requires
        state.window_id == Some(window_id),
    ensures
        state.window_event(window_id, WindowEvent::CursorLeft).0 == (AppState {
            last_cursor_pos: None,
            ..state
        }),
        state.window_event(window_id, WindowEvent::CursorLeft).1 == seq![Action::LeavePointer],
{
}

/// The bar is drawn again exactly when it says that it looks different and there is
/// a window.
pub proof fn law_hover_is_drawn_when_it_changes(state: AppState, changed: bool)
    ensures
        changed && state.window ==> state.hover_updated(changed) == seq![Action::RequestRedraw],
        !changed || !state.window ==> state.hover_updated(changed).len() == 0,
{
}

/// A pressed left or right button acts at the place of the pointer; other buttons,
/// released buttons and buttons without a pointer do nothing. No button changes
/// anything.
pub proof fn law_buttons_act_at_the_pointer(
    state: AppState,
    window_id: u64,
    pressed: bool,
    button: MouseButton,
)
    requires
        state.window_id == Some(window_id),
    ensures
        ({
            let (later, actions) = state.window_event(
                window_id,
                WindowEvent::MouseInput { pressed, button },
            );
            &&& later == state
            &&& match state.last_cursor_pos {
                Some(point) => if pressed && button == MouseButton::Left {
                    actions == seq![
                        Action::ActOnPointer { point, action: PointerAction::Primary },
                    ]
                } else if pressed && button == MouseButton::Right {
                    actions == seq![
                        Action::ActOnPointer { point, action: PointerAction::Secondary },
                    ]
                } else {
                    actions.len() == 0
                },
                None => actions.len() == 0,
            }
        }),
{
}

/// A turn of the wheel scrolls at the place of the pointer: up for a positive
/// number, down for a negative one; a zero, what is not a number, and a turn without
/// a pointer do nothing. No turn changes anything.
pub proof fn law_wheel_scrolls_at_the_pointer(state: AppState, window_id: u64, delta: WheelDelta)
    requires
        state.window_id == Some(window_id),
    ensures
        ({
            let (later, actions) = state.window_event(window_id, WindowEvent::MouseWheel { delta });
            let up = match delta {
                WheelDelta::Lines { lines } => 0 < lines <= 0x7f80_0000,
                WheelDelta::Pixels { pixels } => 0 < pixels <= 0x7ff0_0000_0000_0000,
            };
            let down = match delta {
                WheelDelta::Lines { lines } => 0x8000_0000 < lines <= 0xff80_0000,
                WheelDelta::Pixels { pixels } => 0x8000_0000_0000_0000 < pixels
                    <= 0xfff0_0000_0000_0000,
            };
            &&& later == state
            &&& match state.last_cursor_pos {
                Some(point) => if up {
                    actions == seq![
                        Action::ActOnPointer { point, action: PointerAction::ScrollUp },
                    ]
                } else if down {
                    actions == seq![
                        Action::ActOnPointer { point, action: PointerAction::ScrollDown },
                    ]
                } else {
                    actions.len() == 0
                },
                None => actions.len() == 0,
            }
        }),
{
}

/// A place that the window manager assigns is applied with its position and width
/// as they were assigned, at the current scale factor, wherever it stands among the
/// effects; without a window it is dropped.
pub proof fn law_assigned_place_is_applied_as_it_is(
    state: AppState,
    geometry: MonitorGeometry,
    index: int,
)
    ensures
        state.window ==> state.handle_platform_effect(
            BarEffect::ApplyMonitorGeometry(geometry),
            index,
        ) == seq![Action::ApplyGeometry { geometry, scale_factor: state.scale_factor }],
        !state.window ==> state.handle_platform_effect(
            BarEffect::ApplyMonitorGeometry(geometry),
            index,
        ).len() == 0,
{
}

/// Giving up the assigned place brings back the default size, not the current one;
/// without a window nothing happens.
pub proof fn law_given_up_place_brings_back_the_default_size(state: AppState, index: int)
    ensures
        state.window ==> state.handle_platform_effect(BarEffect::ClearMonitorGeometry, index)
            == seq![Action::ResetGeometry { logical_size: state.default_logical_size }],
        !state.window ==> state.handle_platform_effect(
            BarEffect::ClearMonitorGeometry,
            index,
        ).len() == 0,
{
}

/// A screenshot is taken by one program and the audio control opened by another,
/// with or without a window; what is meant for the window manager or a device is
/// reported with its place among the effects.
pub proof fn law_other_effects_need_no_window(state: AppState, effect: BarEffect, index: usize)
    ensures
        effect == BarEffect::Screenshot ==> state.handle_platform_effect(effect, index as int)
            == seq![Action::Launch { program: Program::Flameshot }],
        effect == BarEffect::OpenAudioControl ==> state.handle_platform_effect(effect, index as int)
            == seq![Action::Launch { program: Program::Pavucontrol }],
        effect == BarEffect::WindowManager || effect == BarEffect::ToggleMute || effect
            == BarEffect::AdjustVolume || effect == BarEffect::AdjustBrightness || effect
            == BarEffect::RefreshBattery ==> state.handle_platform_effect(effect, index as int)
            == seq![Action::Unhandled { index }],
{
}

/// One more effect adds its own actions behind those of the effects before it, and
/// takes its place among them as its number; no effects lead to no actions.
pub proof fn law_one_more_effect_comes_last(
    state: AppState,
    effects: Seq<BarEffect>,
    effect: BarEffect,
)
    ensures
        state.handle_platform_effects(Seq::<BarEffect>::empty()).len() == 0,
        state.handle_platform_effects(effects.push(effect)) == state.handle_platform_effects(
            effects,
        ) + state.handle_platform_effect(effect, effects.len() as int),
{
    assert(effects.push(effect).drop_last() =~= effects);
}

/// An update leads to the actions of its effects, followed by one request for a
/// redraw exactly where something changed and there is a window.
pub proof fn law_update_is_effects_and_then_a_redraw(
    state: AppState,
    changed: bool,
    effects: Seq<BarEffect>,
)
    ensures
        changed && state.window ==> state.handle_runtime_update(changed, effects)
            == state.handle_platform_effects(effects).push(Action::RequestRedraw),
        !changed || !state.window ==> state.handle_runtime_update(changed, effects)
            == state.handle_platform_effects(effects),
{
    if changed && state.window {
        assert(state.handle_runtime_update(changed, effects) =~= state.handle_platform_effects(
            effects,
        ).push(Action::RequestRedraw));
    } else {
        assert(state.handle_runtime_update(changed, effects) =~= state.handle_platform_effects(
            effects,
        ));
    }
}

/// A tick always feeds the bar. It tries the transport before that, and remembers
/// the time, exactly where a path is given, the runtime is not connected, and two
/// seconds have passed since the last attempt. Nothing else changes.
pub proof fn law_tick_retries_after_two_seconds(state: AppState, now: u128, connected: bool)
    ensures
        ({
            let (later, actions) = state.user_event(UserEvent::Tick { now, connected });
            if state.shared_path.len() > 0 && !connected && now >= state.last_transport_attempt
                + 2_000_000_000 {
                &&& later == AppState { last_transport_attempt: now, ..state }
                &&& actions == seq![Action::OpenTransport, Action::TickAndPoll]
            } else {
                &&& later == state
                &&& actions == seq![Action::TickAndPoll]
            }
        }),
{
}

/// News of the transport leads to a poll and then clears the flag, with or without
/// a window, and changes nothing by itself.
pub proof fn law_news_are_polled_and_acknowledged(state: AppState)
    ensures
        state.user_event(UserEvent::SharedUpdated).0 == state,
        state.user_event(UserEvent::SharedUpdated).1 == seq![
            Action::PollTransport,
            Action::ClearPending,
        ],
{
}

} // verus!
