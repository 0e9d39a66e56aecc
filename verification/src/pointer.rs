//! What mouse buttons and wheels mean to the bar.

use vstd::prelude::*;

verus! {

/// What the user does with the pointer on an item of the bar.
#[derive(Clone, Copy, Debug, PartialEq, Eq, Structural)]
pub enum PointerAction {
    Primary,
    Secondary,
    ScrollUp,
    ScrollDown,
}

/// A mouse button.
#[derive(Clone, Copy, Debug, PartialEq, Eq, Structural)]
pub enum MouseButton {
    Left,
    Right,
    Middle,
    Back,
    Forward,
    Other(u16),
}

/// The vertical movement of a wheel, as the bit pattern of the reported value.
#[derive(Clone, Copy, Debug, PartialEq, Eq, Structural)]
pub enum WheelDelta {
    /// Lines, in single precision.
    Lines { lines: u32 },
    /// Pixels, in double precision.
    Pixels { pixels: u64 },
}

/// Infinity in single precision; the largest pattern of a positive number.
pub const SINGLE_INFINITY: u32 = 0x7f80_0000;

/// The sign bit in single precision.
pub const SINGLE_SIGN: u32 = 0x8000_0000;

/// Infinity in double precision; the largest pattern of a positive number.
pub const DOUBLE_INFINITY: u64 = 0x7ff0_0000_0000_0000;

/// The sign bit in double precision.
pub const DOUBLE_SIGN: u64 = 0x8000_0000_0000_0000;

impl WheelDelta {
    /// The movement is a number above zero.
    pub open spec fn is_positive(self) -> bool {
        match self {
            WheelDelta::Lines { lines } => 0 < lines <= SINGLE_INFINITY,
            WheelDelta::Pixels { pixels } => 0 < pixels <= DOUBLE_INFINITY,
        }
    }

    /// The movement is a number below zero.
    pub open spec fn is_negative(self) -> bool {
        match self {
            WheelDelta::Lines { lines } => 0 < lines - SINGLE_SIGN <= SINGLE_INFINITY,
            WheelDelta::Pixels { pixels } => 0 < pixels - DOUBLE_SIGN <= DOUBLE_INFINITY,
        }
    }

    /// The movement by the same amount the other way.
    pub open spec fn reversed(self) -> WheelDelta {
        match self {
            WheelDelta::Lines { lines } => WheelDelta::Lines {
                lines: (if lines < SINGLE_SIGN {
                    lines + SINGLE_SIGN
                } else {
                    lines - SINGLE_SIGN
                }) as u32,
            },
            WheelDelta::Pixels { pixels } => WheelDelta::Pixels {
                pixels: (if pixels < DOUBLE_SIGN {
                    pixels + DOUBLE_SIGN
                } else {
                    pixels - DOUBLE_SIGN
                }) as u64,
            },
        }
    }
}

/// What a button asks of the item under the pointer.
pub open spec fn button_meaning(button: MouseButton) -> Option<PointerAction> {
    match button {
        MouseButton::Left => Some(PointerAction::Primary),
        MouseButton::Right => Some(PointerAction::Secondary),
        _ => None,
    }
}

/// What a movement of the wheel asks of the item under the pointer.
pub open spec fn wheel_meaning(delta: WheelDelta) -> Option<PointerAction> {
    if delta.is_positive() {
        Some(PointerAction::ScrollUp)
    } else if delta.is_negative() {
        Some(PointerAction::ScrollDown)
    } else {
        None
    }
}

/// What a button asks of the item under the pointer.
pub fn button_action(button: MouseButton) -> (action: Option<PointerAction>)
    ensures
        action == button_meaning(button),
{
    match button {
        MouseButton::Left => Some(PointerAction::Primary),
        MouseButton::Right => Some(PointerAction::Secondary),
        MouseButton::Middle | MouseButton::Back | MouseButton::Forward | MouseButton::Other(
            _,
        ) => None,
    }
}

/// What a movement of the wheel asks of the item under the pointer.
pub fn wheel_action(delta: WheelDelta) -> (action: Option<PointerAction>)
    ensures
        action == wheel_meaning(delta),
{
    let (up, down): (bool, bool) = match delta {
        WheelDelta::Lines { lines } => (
            0 < lines && lines <= SINGLE_INFINITY,
            SINGLE_SIGN < lines && lines - SINGLE_SIGN <= SINGLE_INFINITY,
        ),
        WheelDelta::Pixels { pixels } => (
            0 < pixels && pixels <= DOUBLE_INFINITY,
            DOUBLE_SIGN < pixels && pixels - DOUBLE_SIGN <= DOUBLE_INFINITY,
        ),
    };
    if up {
        Some(PointerAction::ScrollUp)
    } else if down {
        Some(PointerAction::ScrollDown)
    } else {
        None
    }
}

/// Turning the wheel the other way asks for the opposite, and a movement that
/// means nothing means nothing the other way round either.
pub proof fn law_reversed_wheel_means_the_opposite(delta: WheelDelta)
    ensures
        wheel_meaning(delta) == Some(PointerAction::ScrollUp) <==> wheel_meaning(delta.reversed())
            == Some(PointerAction::ScrollDown),
        wheel_meaning(delta) == Some(PointerAction::ScrollDown) <==> wheel_meaning(delta.reversed())
            == Some(PointerAction::ScrollUp),
        wheel_meaning(delta) is None <==> wheel_meaning(delta.reversed()) is None,
{
}

/// The left button and no other acts, the right button and no other acts in the
/// second way, and no button scrolls.
pub proof fn law_only_two_buttons_act(button: MouseButton)
    ensures
        button_meaning(button) == Some(PointerAction::Primary) <==> button == MouseButton::Left,
        button_meaning(button) == Some(PointerAction::Secondary) <==> button == MouseButton::Right,
        button_meaning(button) is None <==> button != MouseButton::Left && button
            != MouseButton::Right,
{
}

/// A wheel scrolls up for the patterns of all positive numbers up to infinity, down
/// for those of all negative ones, and not at all for the two zeros and whatever is
/// not a number; it never clicks.
pub proof fn law_wheel_scrolls_by_sign(delta: WheelDelta)
    ensures
        wheel_meaning(delta) == Some(PointerAction::ScrollUp) <==> match delta {
            WheelDelta::Lines { lines } => lines != 0 && lines <= 0x7f80_0000,
            WheelDelta::Pixels { pixels } => pixels != 0 && pixels <= 0x7ff0_0000_0000_0000,
        },
        wheel_meaning(delta) == Some(PointerAction::ScrollDown) <==> match delta {
            WheelDelta::Lines { lines } => 0x8000_0000 < lines && lines <= 0xff80_0000,
            WheelDelta::Pixels { pixels } => 0x8000_0000_0000_0000 < pixels && pixels
                <= 0xfff0_0000_0000_0000,
        },
        wheel_meaning(delta) != Some(PointerAction::Primary),
        wheel_meaning(delta) != Some(PointerAction::Secondary),
{
}

} // verus!
