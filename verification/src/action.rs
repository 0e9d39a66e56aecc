//! The outside work that decisions lead to.

use vstd::prelude::*;

use crate::back_buffer::CairoBackBuffer;
use crate::geometry::{
    CursorPosition, LogicalSize, MonitorGeometry, PhysicalSize, Point, ScaleFactor,
};
use crate::pointer::PointerAction;

verus! {

/// A program that the bar can start.
#[derive(Clone, Copy, Debug, PartialEq, Eq, Structural)]
pub enum Program {
    Flameshot,
    Pavucontrol,
}

/// One piece of outside work. Actions are carried out in order; where an action
/// is answered, the answer and all that it leads to come before the next action.
#[derive(Clone, Copy, Debug, PartialEq, Eq, Structural)]
pub enum Action {
    /// End the event loop.
    Exit,
    /// Ask the window for a redraw.
    RequestRedraw,
    /// Draw the window.
    Redraw,
    /// Convert a size to logical units; answered by `logical_size_measured`.
    MeasureLogicalSize { size: PhysicalSize, scale_factor: ScaleFactor },
    /// Resize the surface, both numbers above zero.
    ResizeSurface { width: u32, height: u32 },
    /// Convert a position to logical units; answered by `cursor_located`.
    LocateCursor { position: CursorPosition, scale_factor: ScaleFactor },
    /// Tell the bar where the pointer is; answered by `hover_updated`.
    MovePointer { point: Point },
    /// Tell the bar that the pointer is gone; answered by `hover_updated`.
    LeavePointer,
    /// Tell the bar what the user does; answered by `handle_runtime_update`.
    ActOnPointer { point: Point, action: PointerAction },
    /// Move the window to the place and make it as wide; its height is the bar's,
    /// scaled.
    ApplyGeometry { geometry: MonitorGeometry, scale_factor: ScaleFactor },
    /// Move the window to the origin and give it the size.
    ResetGeometry { logical_size: LogicalSize },
    /// Start a program.
    Launch { program: Program },
    /// Report that nothing handles the effect at this place of an update.
    Unhandled { index: usize },
    /// Open the transport at the shared path and hand it to the runtime.
    OpenTransport,
    /// Tick the bar and poll its transport as one update; answered by
    /// `handle_runtime_update`.
    TickAndPoll,
    /// Tick the bar; answered by `handle_runtime_update`.
    Tick,
    /// Poll the bar's transport; answered by `handle_runtime_update`.
    PollTransport,
    /// Clear the pending flag that is shared with the forwarding thread.
    ClearPending,
    /// Look for monitors; answered by `monitor_found`.
    FindMonitor,
    /// Compute the logical size of a bar across a screen; answered by
    /// `bar_measured`.
    MeasureBar { screen_width: u32, scale_factor: ScaleFactor },
    /// Create the window and its surface; answered by `window_created`.
    CreateWindow { logical_size: LogicalSize },
    /// Give a new surface its first size, both numbers above zero.
    PrepareSurface { width: u32, height: u32 },
    /// Create the image of a back buffer.
    CreateImage { buffer: CairoBackBuffer },
}

impl Program {
    /// The name of the executable.
    pub fn command(&self) -> (name: &'static str)
        ensures
            *self == Program::Flameshot ==> name@ == "flameshot"@,
            *self == Program::Pavucontrol ==> name@ == "pavucontrol"@,
    {
        match self {
            Program::Flameshot => "flameshot",
            Program::Pavucontrol => "pavucontrol",
        }
    }

    /// The arguments that it is started with.
    pub fn arguments(&self) -> (args: Vec<&'static str>)
        ensures
            *self == Program::Flameshot ==> args@.len() == 1 && args@[0]@ == "gui"@,
            *self == Program::Pavucontrol ==> args@.len() == 0,
    {
        match self {
            Program::Flameshot => vec!["gui"],
            Program::Pavucontrol => Vec::new(),
        }
    }
}

} // verus!
