//! Where the notification toasts go: at the top right of the screen.
use vstd::prelude::*;

use crate::input::mouse::ClickRegion;

verus! {

/// Maximum width of notification toasts.
pub const MAX_NOTIFICATION_WIDTH: u16 = 50;

/// Height per notification (including border).
pub const NOTIFICATION_HEIGHT: u16 = 3;

/// Maximum visible notifications.
pub const MAX_VISIBLE_NOTIFICATIONS: usize = 3;

/// `a - b`, or 0 when `b` is larger.
pub open spec fn sat_sub(a: int, b: int) -> int {
    if a > b { a - b } else { 0 }
}

/// The width of the toast column in a frame `frame_width` wide.
pub open spec fn toast_width(frame_width: u16) -> int {
    if MAX_NOTIFICATION_WIDTH < frame_width { MAX_NOTIFICATION_WIDTH as int } else { frame_width as int }
}

/// The area of `count` toasts in a frame: at most three of them stacked,
/// as wide as a toast or the frame, one cell from the right edge and one
/// row below the top.
pub open spec fn toast_area(frame: ClickRegion, count: nat) -> ClickRegion {
    let shown = if count < MAX_VISIBLE_NOTIFICATIONS { count as int } else { MAX_VISIBLE_NOTIFICATIONS as int };
    let stacked = shown * NOTIFICATION_HEIGHT;
    let height = if stacked < frame.height { stacked } else { frame.height as int };
    let width = toast_width(frame.width);
    ClickRegion {
        x: (frame.x + sat_sub(frame.width as int, width + 1)) as u16,
        y: (frame.y + 1) as u16,
        width: width as u16,
        height: height as u16,
    }
}

/// The area needed for the notifications overlay.
pub fn notification_area(frame_area: ClickRegion, notification_count: usize) -> (r: ClickRegion)
    requires
        frame_area.x + sat_sub(frame_area.width as int, toast_width(frame_area.width) + 1) <= u16::MAX,
        frame_area.y + 1 <= u16::MAX,
    ensures
        r == toast_area(frame_area, notification_count as nat),
{
    let count = if notification_count < MAX_VISIBLE_NOTIFICATIONS { notification_count } else { MAX_VISIBLE_NOTIFICATIONS };
    let stacked = (count as u16) * NOTIFICATION_HEIGHT;
    let height = if stacked < frame_area.height { stacked } else { frame_area.height };
    let width = if MAX_NOTIFICATION_WIDTH < frame_area.width { MAX_NOTIFICATION_WIDTH } else { frame_area.width };
    let gap = if frame_area.width > width + 1 { frame_area.width - (width + 1) } else { 0 };
    ClickRegion { x: frame_area.x + gap, y: frame_area.y + 1, width, height }
}

} // verus!
