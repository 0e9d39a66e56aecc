//! What the window system, the timer and the bar's runtime report.

use vstd::prelude::*;

use crate::geometry::{CursorPosition, MonitorGeometry, PhysicalSize, ScaleFactor};
use crate::pointer::{MouseButton, WheelDelta};

verus! {

/// An event of a window.
#[derive(Clone, Copy, Debug, PartialEq, Eq, Structural)]
pub enum WindowEvent {
    /// The user asks to close the window.
    CloseRequested,
    /// The window has a new size. `window_scale` is the scale factor that the
    /// window reports, absent where there is no window.
    Resized { size: PhysicalSize, window_scale: Option<ScaleFactor> },
    /// The window has a new scale factor. `inner_size` is the size that the
    /// window reports, absent where there is no window; `geometry` is the place
    /// that the window manager has assigned to the bar, if it has.
    ScaleFactorChanged {
        scale_factor: ScaleFactor,
        inner_size: Option<PhysicalSize>,
        geometry: Option<MonitorGeometry>,
    },
    /// The pointer is over the window.
    CursorMoved { position: CursorPosition },
    /// The pointer has left the window.
    CursorLeft,
    /// A mouse button was pressed or released.
    MouseInput { pressed: bool, button: MouseButton },
    /// The mouse wheel was turned.
    MouseWheel { delta: WheelDelta },
    /// The window has to be drawn.
    RedrawRequested,
    /// Anything else.
    Other,
}

/// An event that a thread of the program sends.
#[derive(Clone, Copy, Debug, PartialEq, Eq, Structural)]
pub enum UserEvent {
    /// A second has begun. `now` counts nanoseconds on a monotonic clock;
    /// `connected` tells whether the runtime has a transport.
    Tick { now: u128, connected: bool },
    /// The shared transport has news.
    SharedUpdated,
}

/// What the bar's runtime asks of the program around it.
#[derive(Clone, Copy, Debug, PartialEq, Eq, Structural)]
pub enum BarEffect {
    ApplyMonitorGeometry(MonitorGeometry),
    ClearMonitorGeometry,
    Screenshot,
    OpenAudioControl,
    WindowManager,
    ToggleMute,
    AdjustVolume,
    AdjustBrightness,
    RefreshBattery,
}

/// What came of feeding the bar's runtime.
pub struct RuntimeUpdate {
    /// Something that is shown has changed.
    pub changed: bool,
    /// What the runtime asks for, in order.
    pub effects: Vec<BarEffect>,
}

} // verus!
