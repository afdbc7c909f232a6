//! What the window layer is told to do once a press is resolved.

use vstd::prelude::*;
use crate::debounce::Mode;

verus! {

/// Horizontal distance of the overlay from the monitor's left edge, in
/// physical pixels.
pub const WINDOW_MARGIN_X: i32 = 8;

/// Vertical distance of the overlay from the monitor's top edge, in physical
/// pixels.
pub const WINDOW_MARGIN_Y: i32 = 6;

/// The operations on the overlay window that one resolution calls for, in the
/// order cursor, visibility, focus, notification.
#[derive(Clone, Copy, Debug, PartialEq, Eq, Structural)]
pub struct WindowPlan {
    /// Whether to switch click-through on or off; `None` leaves it alone.
    pub ignore_cursor: Option<bool>,
    /// `true` shows the window, `false` hides it.
    pub show: bool,
    /// Whether the window takes the focus.
    pub focus: bool,
    /// The mode announced to the window's content, if any.
    pub announce: Option<Mode>,
}

/// The name under which a mode is announced.
pub open spec fn mode_name(mode: Mode) -> Seq<char> {
    match mode {
        Mode::Edit => "edit"@,
        Mode::Emphasis => "emphasis"@,
    }
}

/// Presenting a mode: only the edit mode takes the pointer; the window is
/// shown and focused and the mode announced.
pub open spec fn mode_plan(mode: Mode) -> WindowPlan {
    WindowPlan {
        ignore_cursor: Some(mode != Mode::Edit),
        show: true,
        focus: true,
        announce: Some(mode),
    }
}

/// A resolved single press toggles the overlay: a visible window becomes
/// click-through and is hidden; a hidden one is shown, focused and told to
/// emphasise.
pub open spec fn single_press_plan(is_visible: bool) -> WindowPlan {
    if is_visible {
        WindowPlan { ignore_cursor: Some(true), show: false, focus: false, announce: None }
    } else {
        WindowPlan {
            ignore_cursor: None,
            show: true,
            focus: true,
            announce: Some(Mode::Emphasis),
        }
    }
}

/// The plan for a resolution: a double press presents the edit mode, a single
/// press toggles.
pub open spec fn resolution_plan(mode: Mode, is_visible: bool) -> WindowPlan {
    match mode {
        Mode::Edit => mode_plan(Mode::Edit),
        Mode::Emphasis => single_press_plan(is_visible),
    }
}

/// Where the overlay is placed on a monitor whose top-left corner is at
/// `(monitor_x, monitor_y)`, unless the coordinates leave the range of `i32`.
pub open spec fn top_left(monitor_x: i32, monitor_y: i32) -> Option<(i32, i32)> {
    if monitor_x + WINDOW_MARGIN_X <= i32::MAX && monitor_y + WINDOW_MARGIN_Y <= i32::MAX {
        Some(((monitor_x + WINDOW_MARGIN_X) as i32, (monitor_y + WINDOW_MARGIN_Y) as i32))
    } else {
        None
    }
}

impl Mode {
    /// The name under which the mode is announced: `edit` or `emphasis`.
    pub fn name(self) -> (name: &'static str)
        ensures
            name@ == mode_name(self),
    {
        match self {
            Mode::Edit => "edit",
            Mode::Emphasis => "emphasis",
        }
    }

    /// Whether the window lets the pointer through while it shows this mode:
    /// it does in every mode but the edit mode.
    pub fn ignores_cursor(self) -> (ignore: bool)
        ensures
            ignore == (self != Mode::Edit),
    {
        match self {
            Mode::Edit => false,
            Mode::Emphasis => true,
        }
    }
}

/// The operations that present `mode`.
pub fn plan_for_mode(mode: Mode) -> (plan: WindowPlan)
    ensures
        plan == mode_plan(mode),
{
    WindowPlan {
        ignore_cursor: Some(mode.ignores_cursor()),
        show: true,
        focus: true,
        announce: Some(mode),
    }
}

/// The operations that a resolved single press calls for, given whether the
/// window is visible now.
pub fn plan_for_single_press(is_visible: bool) -> (plan: WindowPlan)
    ensures
        plan == single_press_plan(is_visible),
{
    if is_visible {
        WindowPlan { ignore_cursor: Some(true), show: false, focus: false, announce: None }
    } else {
        WindowPlan {
            ignore_cursor: None,
            show: true,
            focus: true,
            announce: Some(Mode::Emphasis),
        }
    }
}

/// The operations that a resolution in `mode` calls for.
pub fn plan_for_resolution(mode: Mode, is_visible: bool) -> (plan: WindowPlan)
    ensures
        plan == resolution_plan(mode, is_visible),
{
    match mode {
        Mode::Edit => plan_for_mode(Mode::Edit),
        Mode::Emphasis => plan_for_single_press(is_visible),
    }
}

/// The overlay's position on a monitor whose top-left corner is at
/// `(monitor_x, monitor_y)`: the margins further right and down. `None`
/// where a coordinate would leave the range of `i32`.
pub fn top_left_position(monitor_x: i32, monitor_y: i32) -> (position: Option<(i32, i32)>)
    ensures
        position == top_left(monitor_x, monitor_y),
{
    match (monitor_x.checked_add(WINDOW_MARGIN_X), monitor_y.checked_add(WINDOW_MARGIN_Y)) {
        (Some(x), Some(y)) => Some((x, y)),
        _ => None,
    }
}

} // verus!
