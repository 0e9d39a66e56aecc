//! The bar's window: what its events change and what has to follow.

use vstd::prelude::*;

use crate::action::{Action, Program};
use crate::back_buffer::{BufferError, CairoBackBuffer};
use crate::event::{BarEffect, RuntimeUpdate, UserEvent, WindowEvent};
use crate::geometry::{
    choose_monitor, LogicalSize, Monitor, MonitorGeometry, PhysicalSize, Point, ScaleFactor,
};
use crate::pointer::{button_action, wheel_action, PointerAction};
use crate::startup::wants_transport;
use crate::state::{AppState, RedrawPlan, TRANSPORT_RETRY_INTERVAL};

verus! {

/// The state of the bar's window.
pub struct App {
    window: bool,
    window_id: Option<u64>,
    scale_factor: ScaleFactor,
    logical_size: LogicalSize,
    default_logical_size: LogicalSize,
    last_physical_size: PhysicalSize,
    last_cursor_pos: Option<Point>,
    back: Option<CairoBackBuffer>,
    soft_surface: bool,
    shared_path: String,
    last_transport_attempt: u128,
}

impl View for App {
    type V = AppState;

    closed spec fn view(&self) -> AppState {
        AppState {
            window: self.window,
            window_id: self.window_id,
            scale_factor: self.scale_factor,
            logical_size: self.logical_size,
            default_logical_size: self.default_logical_size,
            last_physical_size: self.last_physical_size,
            last_cursor_pos: self.last_cursor_pos,
            back: self.back,
            soft_surface: self.soft_surface,
            shared_path: self.shared_path@,
            last_transport_attempt: self.last_transport_attempt,
        }
    }
}

impl App {
    /// The state before the event loop has started: no window yet.
    pub fn new(
        logical_size: LogicalSize,
        physical_size: PhysicalSize,
        scale_factor: ScaleFactor,
        shared_path: String,
        now: u128,
    ) -> (app: Self)
        ensures
            app@ == AppState::initial(
                logical_size,
                physical_size,
                scale_factor,
                shared_path@,
                now,
            ),
            app@.wf(),
    {
        App {
            window: false,
            window_id: None,
            scale_factor,
            logical_size,
            default_logical_size: logical_size,
            last_physical_size: physical_size,
            last_cursor_pos: None,
            back: None,
            soft_surface: false,
            shared_path,
            last_transport_attempt: now,
        }
    }

    /// Where the shared transport is, empty if none is wanted.
    pub fn shared_path(&self) -> (path: &str)
        ensures
            path@ == self@.shared_path,
    {
        self.shared_path.as_str()
    }

    /// Asks for a redraw if there is a window.
    fn request_redraw(&self, actions: &mut Vec<Action>)
        ensures
            final(actions)@ == old(actions)@ + self@.request_redraw(),
    {
        if self.window {
            actions.push(Action::RequestRedraw);
        }
    }

    /// Moves the window, if there is one, to an assigned place.
    fn apply_monitor_geometry(&self, geometry: MonitorGeometry, actions: &mut Vec<Action>)
        ensures
            final(actions)@ == old(actions)@ + self@.apply_monitor_geometry(geometry),
    {
        if self.window {
            actions.push(Action::ApplyGeometry { geometry, scale_factor: self.scale_factor });
        }
    }

    /// Takes over a size in device pixels; an empty one leaves the rest alone.
    fn resize_surface(&mut self, size: PhysicalSize, actions: &mut Vec<Action>)
        ensures
            final(self)@ == old(self)@.resize_surface(size).0,
            final(actions)@ == old(actions)@ + old(self)@.resize_surface(size).1,
    {
        self.last_physical_size = size;
        if size.is_empty() {
            return ;
        }
        actions.push(Action::MeasureLogicalSize { size, scale_factor: self.scale_factor });
        if self.soft_surface {
            actions.push(Action::ResizeSurface { width: size.width, height: size.height });
        }
    }

    /// Decides what the effect at place `index` of an update leads to.
    fn handle_platform_effect(&self, effect: BarEffect, index: usize, actions: &mut Vec<Action>)
        ensures
            final(actions)@ == old(actions)@ + self@.handle_platform_effect(effect, index as int),
    {
        match effect {
            BarEffect::ApplyMonitorGeometry(geometry) => self.apply_monitor_geometry(
                geometry,
                actions,
            ),
            BarEffect::ClearMonitorGeometry => {
                if self.window {
                    actions.push(Action::ResetGeometry { logical_size: self.default_logical_size });
                }
            },
            BarEffect::Screenshot => actions.push(Action::Launch { program: Program::Flameshot }),
            BarEffect::OpenAudioControl => actions.push(
                Action::Launch { program: Program::Pavucontrol },
            ),
            BarEffect::WindowManager
            | BarEffect::ToggleMute
            | BarEffect::AdjustVolume
            | BarEffect::AdjustBrightness
            | BarEffect::RefreshBattery => actions.push(Action::Unhandled { index }),
        }
    }

    /// The runtime was fed: its effects are handled in order, then a change is
    /// shown.
    pub fn handle_runtime_update(&self, update: &RuntimeUpdate) -> (actions: Vec<Action>)
        ensures
            actions@ == self@.handle_runtime_update(update.changed, update.effects@),
    {
        let mut actions: Vec<Action> = Vec::new();
        let mut index: usize = 0;
        assert(update.effects@.take(0) =~= Seq::<BarEffect>::empty());
        while index < update.effects.len()
            invariant
                index <= update.effects@.len(),
                actions@ == self@.handle_platform_effects(update.effects@.take(index as int)),
            decreases update.effects@.len() - index,
        {
            assert(update.effects@.take(index + 1).drop_last() =~= update.effects@.take(
                index as int,
            ));
            self.handle_platform_effect(update.effects[index], index, &mut actions);
            index = index + 1;
        }
        assert(update.effects@.take(index as int) =~= update.effects@);
        if update.changed {
            self.request_redraw(&mut actions);
        }
        actions
    }

    /// A second has begun: a transport that is wanted and not connected is tried
    /// again once the retry interval is over, then the bar is fed.
    fn tick_and_poll(&mut self, now: u128, connected: bool) -> (actions: Vec<Action>)
        ensures
            final(self)@ == old(self)@.tick_and_poll(now, connected).0,
            actions@ == old(self)@.tick_and_poll(now, connected).1,
    {
        let mut actions: Vec<Action> = Vec::new();
        if wants_transport(&self.shared_path) && !connected && now.saturating_sub(
            self.last_transport_attempt,
        ) >= TRANSPORT_RETRY_INTERVAL {
            self.last_transport_attempt = now;
            actions.push(Action::OpenTransport);
        }
        actions.push(Action::TickAndPoll);
        actions
    }

    /// A thread has sent an event.
    pub fn user_event(&mut self, event: UserEvent) -> (actions: Vec<Action>)
        ensures
            final(self)@ == old(self)@.user_event(event).0,
            actions@ == old(self)@.user_event(event).1,
    {
        match event {
            UserEvent::Tick { now, connected } => self.tick_and_poll(now, connected),
            UserEvent::SharedUpdated => vec![Action::PollTransport, Action::ClearPending],
        }
    }

    /// The user does something with the pointer.
    fn pointer_input(&self, action: Option<PointerAction>) -> (actions: Vec<Action>)
        ensures
            actions@ == self@.pointer_input(action),
    {
        match (self.last_cursor_pos, action) {
            (Some(point), Some(action)) => vec![Action::ActOnPointer { point, action }],
            _ => Vec::new(),
        }
    }

    /// A window has sent an event; those of other windows are ignored.
    pub fn window_event(&mut self, window_id: u64, event: WindowEvent) -> (actions: Vec<Action>)
        ensures
            final(self)@ == old(self)@.window_event(window_id, event).0,
            actions@ == old(self)@.window_event(window_id, event).1,
    {
        let own: bool = match self.window_id {
            Some(own_id) => own_id == window_id,
            None => false,
        };
        if !own {
            return Vec::new();
        }
        match event {
            WindowEvent::CloseRequested => vec![Action::Exit],
            WindowEvent::Resized { size, window_scale } => {
                if let Some(scale_factor) = window_scale {
                    self.scale_factor = scale_factor;
                }
                let mut actions: Vec<Action> = Vec::new();
                self.resize_surface(size, &mut actions);
                self.request_redraw(&mut actions);
                actions
            },
            WindowEvent::ScaleFactorChanged { scale_factor, inner_size, geometry } => {
                self.scale_factor = scale_factor;
                let mut actions: Vec<Action> = Vec::new();
                if let Some(size) = inner_size {
                    self.resize_surface(size, &mut actions);
                }
                if let Some(geometry) = geometry {
                    self.apply_monitor_geometry(geometry, &mut actions);
                }
                self.request_redraw(&mut actions);
                actions
            },
            WindowEvent::CursorMoved { position } => vec![
                Action::LocateCursor { position, scale_factor: self.scale_factor },
            ],
            WindowEvent::CursorLeft => {
                self.last_cursor_pos = None;
                vec![Action::LeavePointer]
            },
            WindowEvent::MouseInput { pressed, button } => {
                if pressed {
                    self.pointer_input(button_action(button))
                } else {
                    Vec::new()
                }
            },
            WindowEvent::MouseWheel { delta } => self.pointer_input(wheel_action(delta)),
            WindowEvent::RedrawRequested => vec![Action::Redraw],
            WindowEvent::Other => Vec::new(),
        }
    }

    /// A size in device pixels was converted to logical units.
    pub fn logical_size_measured(&mut self, size: LogicalSize)
        ensures
            final(self)@ == old(self)@.logical_size_measured(size),
    {
        self.logical_size = size;
    }

    /// A position of the pointer was converted to logical units.
    pub fn cursor_located(&mut self, point: Point) -> (actions: Vec<Action>)
        ensures
            final(self)@ == old(self)@.cursor_located(point).0,
            actions@ == old(self)@.cursor_located(point).1,
    {
        self.last_cursor_pos = Some(point);
        vec![Action::MovePointer { point }]
    }

    /// The bar has taken note of where the pointer is, or that it is gone;
    /// `changed` tells whether it looks different now.
    pub fn hover_updated(&self, changed: bool) -> (actions: Vec<Action>)
        ensures
            actions@ == self@.hover_updated(changed),
    {
        let mut actions: Vec<Action> = Vec::new();
        if changed {
            self.request_redraw(&mut actions);
        }
        actions
    }

    /// The event loop runs: a window is wanted unless there is one.
    pub fn resumed(&self) -> (actions: Vec<Action>)
        ensures
            actions@ == self@.resumed(),
    {
        if self.window {
            Vec::new()
        } else {
            vec![Action::FindMonitor]
        }
    }

    /// The monitors are known: the primary one and the first of all.
    pub fn monitor_found(&mut self, primary: Option<Monitor>, first: Option<Monitor>) -> (actions:
        Vec<Action>)
        ensures
            final(self)@ == old(self)@.monitor_found(primary, first).0,
            actions@ == old(self)@.monitor_found(primary, first).1,
    {
        let monitor = choose_monitor(primary, first);
        self.scale_factor = monitor.scale_factor;
        vec![
            Action::MeasureBar {
                screen_width: monitor.size.width,
                scale_factor: monitor.scale_factor,
            },
        ]
    }

    /// The bar's size on the monitor is known.
    pub fn bar_measured(&mut self, size: LogicalSize) -> (actions: Vec<Action>)
        ensures
            final(self)@ == old(self)@.bar_measured(size).0,
            actions@ == old(self)@.bar_measured(size).1,
    {
        self.logical_size = size;
        self.default_logical_size = size;
        vec![Action::CreateWindow { logical_size: size }]
    }

    /// The window and its surface are there; `size` is the window's.
    pub fn window_created(&mut self, window_id: u64, size: PhysicalSize) -> (r: Result<
        Vec<Action>,
        BufferError,
    >)
        ensures
            r is Ok <==> AppState::first_buffer(size) is Ok,
            r matches Ok(actions) ==> {
                let buffer = AppState::first_buffer(size)->Ok_0;
                &&& final(self)@ == old(self)@.window_created(window_id, size, buffer).0
                &&& actions@ == old(self)@.window_created(window_id, size, buffer).1
            },
            r matches Err(error) ==> {
                &&& final(self)@ == old(self)@
                &&& AppState::first_buffer(size) == Err::<CairoBackBuffer, BufferError>(error)
            },
    {
        let width: u32 = if size.width == 0 {
            1
        } else {
            size.width
        };
        let height: u32 = if size.height == 0 {
            1
        } else {
            size.height
        };
        let buffer = match CairoBackBuffer::new(width, height) {
            Ok(buffer) => buffer,
            Err(error) => {
                return Err(error);
            },
        };
        self.window = true;
        self.window_id = Some(window_id);
        self.last_physical_size = size;
        self.back = Some(buffer);
        self.soft_surface = true;
        let mut actions: Vec<Action> = Vec::new();
        if !size.is_empty() {
            actions.push(Action::PrepareSurface { width: size.width, height: size.height });
        }
        actions.push(Action::CreateImage { buffer });
        actions.push(Action::Tick);
        actions.push(Action::PollTransport);
        self.request_redraw(&mut actions);
        Ok(actions)
    }

    /// The back buffer that has to be created before the window can be drawn.
    fn missing_buffer(&self) -> (r: Result<Option<CairoBackBuffer>, BufferError>)
        ensures
            r == self@.missing_buffer(),
    {
        let size = self.last_physical_size;
        match self.back {
            Some(buffer) => buffer.ensure_size(size.width, size.height),
            None => match CairoBackBuffer::new(size.width, size.height) {
                Ok(buffer) => Ok(Some(buffer)),
                Err(error) => Err(error),
            },
        }
    }

    /// Plans how the window is drawn.
    pub fn redraw(&self) -> (plan: Result<RedrawPlan, BufferError>)
        ensures
            plan == self@.redraw(),
    {
        if !self.window || self.last_physical_size.is_empty() {
            return Ok(RedrawPlan::Skip);
        }
        match self.missing_buffer() {
            Ok(image) => Ok(
                RedrawPlan::Paint {
                    size: self.last_physical_size,
                    image,
                    scale_factor: self.scale_factor,
                    logical_size: self.logical_size,
                    present: self.soft_surface,
                },
            ),
            Err(error) => Err(error),
        }
    }

    /// The image of a back buffer was created.
    pub fn image_created(&mut self, buffer: CairoBackBuffer)
        ensures
            final(self)@ == old(self)@.image_created(buffer),
    {
        self.back = Some(buffer);
    }
}

} // verus!
