//! Sizes, positions and scale factors.
//!
//! Fractional quantities are carried as the IEEE 754 bit patterns of the values
//! that the window system and the renderer exchange; nothing here computes with
//! them.

use vstd::prelude::*;

verus! {

/// A size in device pixels.
#[derive(Clone, Copy, Debug, PartialEq, Eq, Structural)]
pub struct PhysicalSize {
    pub width: u32,
    pub height: u32,
}

/// A size in units that the scale factor turns into device pixels, as bit
/// patterns in double precision.
#[derive(Clone, Copy, Debug, PartialEq, Eq, Structural)]
pub struct LogicalSize {
    pub width: u64,
    pub height: u64,
}

/// A position in device pixels, as bit patterns in double precision.
#[derive(Clone, Copy, Debug, PartialEq, Eq, Structural)]
pub struct CursorPosition {
    pub x: u64,
    pub y: u64,
}

/// A position in logical units, as bit patterns in single precision.
#[derive(Clone, Copy, Debug, PartialEq, Eq, Structural)]
pub struct Point {
    pub x: u32,
    pub y: u32,
}

/// A scale factor, as a bit pattern in double precision.
#[derive(Clone, Copy, Debug, PartialEq, Eq, Structural)]
pub struct ScaleFactor {
    pub bits: u64,
}

/// The bit pattern of the scale factor one.
pub const UNIT_SCALE_BITS: u64 = 0x3ff0_0000_0000_0000;

/// The place that a window manager assigns to the bar.
#[derive(Clone, Copy, Debug, PartialEq, Eq, Structural)]
pub struct MonitorGeometry {
    pub x: i32,
    pub y: i32,
    pub width: u32,
}

/// A monitor of the desktop.
#[derive(Clone, Copy, Debug, PartialEq, Eq, Structural)]
pub struct Monitor {
    pub scale_factor: ScaleFactor,
    pub size: PhysicalSize,
}

impl PhysicalSize {
    /// Whether there is nothing to draw on.
    pub open spec fn is_empty_spec(self) -> bool {
        self.width == 0 || self.height == 0
    }

    /// The number of pixels.
    pub open spec fn pixels(self) -> int {
        self.width * self.height
    }

    /// Whether there is nothing to draw on.
    #[verifier::when_used_as_spec(is_empty_spec)]
    pub fn is_empty(self) -> (empty: bool)
        ensures
            empty == self.is_empty_spec(),
    {
        self.width == 0 || self.height == 0
    }
}

/// The monitor that the bar goes on: the primary one, else the first that there
/// is, else a plain full-HD screen.
pub open spec fn chosen_monitor(primary: Option<Monitor>, first: Option<Monitor>) -> Monitor {
    match (primary, first) {
        (Some(monitor), _) => monitor,
        (None, Some(monitor)) => monitor,
        (None, None) => Monitor {
            scale_factor: ScaleFactor { bits: UNIT_SCALE_BITS },
            size: PhysicalSize { width: 1920, height: 1080 },
        },
    }
}

/// Picks the monitor that the bar goes on.
pub fn choose_monitor(primary: Option<Monitor>, first: Option<Monitor>) -> (monitor: Monitor)
    ensures
        monitor == chosen_monitor(primary, first),
{
    match primary {
        Some(monitor) => monitor,
        None => match first {
            Some(monitor) => monitor,
            None => Monitor {
                scale_factor: ScaleFactor { bits: UNIT_SCALE_BITS },
                size: PhysicalSize { width: 1920, height: 1080 },
            },
        },
    }
}

} // verus!
