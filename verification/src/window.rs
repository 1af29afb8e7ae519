//! Window-placement arithmetic: anchoring a floating window at the
//! bottom-right corner of a monitor, clamped so it never leaves the
//! monitor's top-left edge. The window system itself (monitors, cursor,
//! actual moves) is platform work in the surrounding application.

use vstd::prelude::*;

verus! {

/// The horizontal margin kept from the monitor edge, in pixels.
pub const ANCHOR_MARGIN_X: i32 = 24;

/// The vertical margin kept from the monitor edge, in pixels.
pub const ANCHOR_MARGIN_Y: i32 = 24;

/// The larger vertical margin used where a taskbar usually sits at the
/// bottom of the screen.
pub const ANCHOR_MARGIN_Y_TASKBAR: i32 = 72;

/// The bottom-right anchor position of a window on a monitor: the corner
/// position minus the window size and margins, clamped to the monitor's
/// own origin.
pub fn anchor_bottom_right(
    monitor_x: i32,
    monitor_y: i32,
    monitor_width: u32,
    monitor_height: u32,
    window_width: u32,
    window_height: u32,
    margin_x: i32,
    margin_y: i32,
) -> (r: (i32, i32))
    requires
        i32::MIN <= monitor_x + monitor_width - window_width - margin_x <= i32::MAX,
        i32::MIN <= monitor_y + monitor_height - window_height - margin_y <= i32::MAX,
    ensures
        r.0 == if monitor_x + monitor_width - window_width - margin_x >= monitor_x {
            monitor_x + monitor_width - window_width - margin_x
        } else {
            monitor_x as int
        },
        r.1 == if monitor_y + monitor_height - window_height - margin_y >= monitor_y {
            monitor_y + monitor_height - window_height - margin_y
        } else {
            monitor_y as int
        },
{
    let x = (monitor_x as i64 + monitor_width as i64 - window_width as i64 - margin_x as i64)
        as i32;
    let y = (monitor_y as i64 + monitor_height as i64 - window_height as i64 - margin_y as i64)
        as i32;
    let rx = if x >= monitor_x {
        x
    } else {
        monitor_x
    };
    let ry = if y >= monitor_y {
        y
    } else {
        monitor_y
    };
    (rx, ry)
}

} // verus!
