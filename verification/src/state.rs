//! The state of the bar's window as a mathematical value, and what every input
//! makes of it.

use vstd::prelude::*;

use crate::action::{Action, Program};
use crate::back_buffer::{BufferError, CairoBackBuffer};
use crate::event::{BarEffect, UserEvent, WindowEvent};
use crate::geometry::{LogicalSize, Monitor, MonitorGeometry, PhysicalSize, Point, ScaleFactor};
use crate::pointer::PointerAction;

verus! {

/// The least time between two attempts to open the transport, in nanoseconds.
pub const TRANSPORT_RETRY_INTERVAL: u128 = 2_000_000_000;

/// How a window is to be drawn.
#[derive(Clone, Copy, Debug, PartialEq, Eq, Structural)]
pub enum RedrawPlan {
    /// There is nothing to draw on.
    Skip,
    /// Create the image first, where one is given; render at the scale factor and
    /// in the logical size; then, if there is a surface to present on, copy the
    /// image of the given size to it.
    Paint {
        size: PhysicalSize,
        image: Option<CairoBackBuffer>,
        scale_factor: ScaleFactor,
        logical_size: LogicalSize,
        present: bool,
    },
}

/// The state of the bar's window.
#[verifier::ext_equal]
pub struct AppState {
    /// There is a window.
    pub window: bool,
    /// The window's number.
    pub window_id: Option<u64>,
    pub scale_factor: ScaleFactor,
    pub logical_size: LogicalSize,
    /// The size that the window goes back to when no place is assigned to it.
    pub default_logical_size: LogicalSize,
    pub last_physical_size: PhysicalSize,
    /// Where the pointer is, while it is over the window.
    pub last_cursor_pos: Option<Point>,
    pub back: Option<CairoBackBuffer>,
    /// There is a surface.
    pub soft_surface: bool,
    /// Where the shared transport is, empty if none is wanted.
    pub shared_path: Seq<char>,
    /// When the transport was last tried, in nanoseconds.
    pub last_transport_attempt: u128,
}

/// Zero or one action.
pub open spec fn only_if(condition: bool, action: Action) -> Seq<Action> {
    if condition {
        seq![action]
    } else {
        Seq::empty()
    }
}

/// A size with both sides at least one pixel.
pub open spec fn at_least_one_pixel(size: PhysicalSize) -> PhysicalSize {
    PhysicalSize {
        width: if size.width == 0 {
            1
        } else {
            size.width
        },
        height: if size.height == 0 {
            1
        } else {
            size.height
        },
    }
}

impl AppState {
    /// Before the event loop has started.
    pub open spec fn initial(
        logical_size: LogicalSize,
        physical_size: PhysicalSize,
        scale_factor: ScaleFactor,
        shared_path: Seq<char>,
        now: u128,
    ) -> Self {
        AppState {
            window: false,
            window_id: None,
            scale_factor,
            logical_size,
            default_logical_size: logical_size,
            last_physical_size: physical_size,
            last_cursor_pos: None,
            back: None,
            soft_surface: false,
            shared_path,
            last_transport_attempt: now,
        }
    }

    /// Window, number, surface and back buffer are there together or not at all,
    /// and the back buffer has an image that is not empty.
    pub open spec fn wf(self) -> bool {
        &&& self.window == self.window_id is Some
        &&& self.window == self.soft_surface
        &&& self.window == self.back is Some
        &&& self.back matches Some(buffer) ==> buffer.wf() && buffer.width > 0 && buffer.height > 0
    }

    /// Asking for a redraw.
    pub open spec fn request_redraw(self) -> Seq<Action> {
        only_if(self.window, Action::RequestRedraw)
    }

    /// Moving the window to an assigned place.
    pub open spec fn apply_monitor_geometry(self, geometry: MonitorGeometry) -> Seq<Action> {
        only_if(
            self.window,
            Action::ApplyGeometry { geometry, scale_factor: self.scale_factor },
        )
    }

    /// Taking over a size in device pixels.
    pub open spec fn resize_surface(self, size: PhysicalSize) -> (AppState, Seq<Action>) {
        (
            AppState { last_physical_size: size, ..self },
            if size.is_empty() {
                Seq::empty()
            } else {
                seq![Action::MeasureLogicalSize { size, scale_factor: self.scale_factor }]
                    + only_if(
                    self.soft_surface,
                    Action::ResizeSurface { width: size.width, height: size.height },
                )
            },
        )
    }

    /// What the effect at place `index` of an update leads to.
    pub open spec fn handle_platform_effect(self, effect: BarEffect, index: int) -> Seq<Action> {
        match effect {
            BarEffect::ApplyMonitorGeometry(geometry) => self.apply_monitor_geometry(geometry),
            BarEffect::ClearMonitorGeometry => only_if(
                self.window,
                Action::ResetGeometry { logical_size: self.default_logical_size },
            ),
            BarEffect::Screenshot => seq![Action::Launch { program: Program::Flameshot }],
            BarEffect::OpenAudioControl => seq![Action::Launch { program: Program::Pavucontrol }],
            _ => seq![Action::Unhandled { index: index as usize }],
        }
    }

    /// What effects lead to, one after the other.
    pub open spec fn handle_platform_effects(self, effects: Seq<BarEffect>) -> Seq<Action>
        decreases effects.len(),
    {
        if effects.len() == 0 {
            Seq::empty()
        } else {
            self.handle_platform_effects(effects.drop_last()) + self.handle_platform_effect(
                effects.last(),
                effects.len() - 1,
            )
        }
    }

    /// What an update of the runtime leads to.
    pub open spec fn handle_runtime_update(self, changed: bool, effects: Seq<BarEffect>) -> Seq<
        Action,
    > {
        self.handle_platform_effects(effects) + only_if(
            changed && self.window,
            Action::RequestRedraw,
        )
    }

    /// Whether it is time to try the transport.
    pub open spec fn transport_due(self, now: u128, connected: bool) -> bool {
        &&& self.shared_path.len() > 0
        &&& !connected
        &&& now - self.last_transport_attempt >= TRANSPORT_RETRY_INTERVAL
    }

    /// A second has begun.
    pub open spec fn tick_and_poll(self, now: u128, connected: bool) -> (AppState, Seq<Action>) {
        if self.transport_due(now, connected) {
            (
                AppState { last_transport_attempt: now, ..self },
                seq![Action::OpenTransport, Action::TickAndPoll],
            )
        } else {
            (self, seq![Action::TickAndPoll])
        }
    }

    /// A thread has sent an event.
    pub open spec fn user_event(self, event: UserEvent) -> (AppState, Seq<Action>) {
        match event {
            UserEvent::Tick { now, connected } => self.tick_and_poll(now, connected),
            UserEvent::SharedUpdated => (
                self,
                seq![Action::PollTransport, Action::ClearPending],
            ),
        }
    }

    /// The user does something with the pointer.
    pub open spec fn pointer_input(self, action: Option<PointerAction>) -> Seq<Action> {
        match (self.last_cursor_pos, action) {
            (Some(point), Some(action)) => seq![Action::ActOnPointer { point, action }],
            _ => Seq::empty(),
        }
    }

    /// An event of the bar's own window.
    pub open spec fn own_window_event(self, event: WindowEvent) -> (AppState, Seq<Action>) {
        match event {
            WindowEvent::CloseRequested => (self, seq![Action::Exit]),
            WindowEvent::Resized { size, window_scale } => {
                let scaled = AppState {
                    scale_factor: match window_scale {
                        Some(scale_factor) => scale_factor,
                        None => self.scale_factor,
                    },
                    ..self
                };
                let (resized, actions) = scaled.resize_surface(size);
                (resized, actions + resized.request_redraw())
            },
            WindowEvent::ScaleFactorChanged { scale_factor, inner_size, geometry } => {
                let scaled = AppState { scale_factor, ..self };
                let (resized, actions) = match inner_size {
                    Some(size) => scaled.resize_surface(size),
                    None => (scaled, Seq::empty()),
                };
                let placing = match geometry {
                    Some(geometry) => resized.apply_monitor_geometry(geometry),
                    None => Seq::empty(),
                };
                (resized, actions + placing + resized.request_redraw())
            },
            WindowEvent::CursorMoved { position } => (
                self,
                seq![Action::LocateCursor { position, scale_factor: self.scale_factor }],
            ),
            WindowEvent::CursorLeft => (
                AppState { last_cursor_pos: None, ..self },
                seq![Action::LeavePointer],
            ),
            WindowEvent::MouseInput { pressed, button } => (
                self,
                if pressed {
                    self.pointer_input(crate::pointer::button_meaning(button))
                } else {
                    Seq::empty()
                },
            ),
            WindowEvent::MouseWheel { delta } => (
                self,
                self.pointer_input(crate::pointer::wheel_meaning(delta)),
            ),
            WindowEvent::RedrawRequested => (self, seq![Action::Redraw]),
            WindowEvent::Other => (self, Seq::empty()),
        }
    }

    /// An event of some window.
    pub open spec fn window_event(self, window_id: u64, event: WindowEvent) -> (
        AppState,
        Seq<Action>,
    ) {
        if self.window_id == Some(window_id) {
            self.own_window_event(event)
        } else {
            (self, Seq::empty())
        }
    }

    /// A size in device pixels was converted.
    pub open spec fn logical_size_measured(self, size: LogicalSize) -> AppState {
        AppState { logical_size: size, ..self }
    }

    /// A position of the pointer was converted.
    pub open spec fn cursor_located(self, point: Point) -> (AppState, Seq<Action>) {
        (AppState { last_cursor_pos: Some(point), ..self }, seq![Action::MovePointer { point }])
    }

    /// The bar has taken note of the pointer.
    pub open spec fn hover_updated(self, changed: bool) -> Seq<Action> {
        only_if(changed && self.window, Action::RequestRedraw)
    }

    /// The event loop runs.
    pub open spec fn resumed(self) -> Seq<Action> {
        only_if(!self.window, Action::FindMonitor)
    }

    /// The monitors are known.
    pub open spec fn monitor_found(self, primary: Option<Monitor>, first: Option<Monitor>) -> (
        AppState,
        Seq<Action>,
    ) {
        let monitor = crate::geometry::chosen_monitor(primary, first);
        (
            AppState { scale_factor: monitor.scale_factor, ..self },
            seq![
                Action::MeasureBar {
                    screen_width: monitor.size.width,
                    scale_factor: monitor.scale_factor,
                },
            ],
        )
    }

    /// The bar's size on the monitor is known.
    pub open spec fn bar_measured(self, size: LogicalSize) -> (AppState, Seq<Action>) {
        (
            AppState { logical_size: size, default_logical_size: size, ..self },
            seq![Action::CreateWindow { logical_size: size }],
        )
    }

    /// The back buffer for a new window of the given size.
    pub open spec fn first_buffer(size: PhysicalSize) -> Result<CairoBackBuffer, BufferError> {
        crate::back_buffer::buffer_for(
            at_least_one_pixel(size).width,
            at_least_one_pixel(size).height,
        )
    }

    /// The window and its surface are there, with the back buffer for them.
    pub open spec fn window_created(
        self,
        window_id: u64,
        size: PhysicalSize,
        buffer: CairoBackBuffer,
    ) -> (AppState, Seq<Action>) {
        (
            AppState {
                window: true,
                window_id: Some(window_id),
                last_physical_size: size,
                back: Some(buffer),
                soft_surface: true,
                ..self
            },
            only_if(
                !size.is_empty(),
                Action::PrepareSurface { width: size.width, height: size.height },
            ) + seq![
                Action::CreateImage { buffer },
                Action::Tick,
                Action::PollTransport,
                Action::RequestRedraw,
            ],
        )
    }

    /// The back buffer that has to be created before the window can be drawn.
    pub open spec fn missing_buffer(self) -> Result<Option<CairoBackBuffer>, BufferError> {
        let size = self.last_physical_size;
        match self.back {
            Some(buffer) => buffer.replacement(size.width, size.height),
            None => match crate::back_buffer::buffer_for(size.width, size.height) {
                Ok(buffer) => Ok(Some(buffer)),
                Err(error) => Err(error),
            },
        }
    }

    /// How the window is to be drawn.
    pub open spec fn redraw(self) -> Result<RedrawPlan, BufferError> {
        if !self.window || self.last_physical_size.is_empty() {
            Ok(RedrawPlan::Skip)
        } else {
            match self.missing_buffer() {
                Ok(image) => Ok(
                    RedrawPlan::Paint {
                        size: self.last_physical_size,
                        image,
                        scale_factor: self.scale_factor,
                        logical_size: self.logical_size,
                        present: self.soft_surface,
                    },
                ),
                Err(error) => Err(error),
            }
        }
    }

    /// The image of a back buffer was created.
    pub open spec fn image_created(self, buffer: CairoBackBuffer) -> AppState {
        AppState { back: Some(buffer), ..self }
    }
}

} // verus!
