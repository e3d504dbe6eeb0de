//! Compact listening mode: the main window hidden and the small listening
//! pill window shown. The windows themselves belong to the application
//! shell; this module keeps the mode and decides what entering and leaving
//! it do.

use vstd::prelude::*;

verus! {

/// The label of the listening pill window.
pub const LISTENING_PILL_LABEL: &'static str = "listening_pill";

/// Whether the compact listening mode is on. It starts off.
pub struct CompactMode {
    active: bool,
}

impl CompactMode {
    pub closed spec fn is_on(&self) -> bool {
        self.active
    }

    pub fn new() -> (res: CompactMode)
        ensures
            !res.is_on(),
    {
        CompactMode { active: false }
    }

    pub fn is_compact_mode(&self) -> (res: bool)
        ensures
            res == self.is_on(),
    {
        self.active
    }

    /// Entering the mode has work to do (create, show and focus the pill,
    /// hide the main window) only while the mode is off; entering it again
    /// succeeds at once.
    pub fn enter_needed(&self) -> (res: bool)
        ensures
            res == !self.is_on(),
    {
        !self.active
    }

    /// Records the outcome of the window work of entering: the mode is on
    /// once that work succeeded, and the outcome is handed back.
    pub fn finish_enter(&mut self, outcome: Result<(), String>) -> (res: Result<(), String>)
        ensures
            final(self).is_on() == (old(self).is_on() || outcome is Ok),
            res == outcome,
    {
        if outcome.is_ok() {
            self.active = true;
        }
        outcome
    }

    /// Leaves the mode. The result says whether it was on, that is whether
    /// the pill must be hidden and the main window shown again.
    pub fn exit(&mut self) -> (res: bool)
        ensures
            res == old(self).is_on(),
            !final(self).is_on(),
    {
        let was_on = self.active;
        self.active = false;
        was_on
    }
}

/// Integer division by two rounding toward zero, as Rust's `/` on `i32`.
pub open spec fn half_toward_zero(d: int) -> int {
    if d >= 0 {
        d / 2
    } else {
        -((-d) / 2)
    }
}

/// The offset that centres a window of `window_len` pixels in a monitor of
/// `monitor_len` pixels, both lengths taken as `i32`.
pub open spec fn centring_offset(monitor_len: u32, window_len: u32) -> int {
    half_toward_zero((monitor_len as i32) - (window_len as i32))
}

/// The arithmetic stays within `i32` (it would stop a debug build otherwise).
pub open spec fn centring_fits(monitor_pos: i32, monitor_len: u32, window_len: u32) -> bool {
    i32::MIN <= (monitor_len as i32) - (window_len as i32) <= i32::MAX && i32::MIN <= monitor_pos
        + centring_offset(monitor_len, window_len) <= i32::MAX
}

fn centred_coordinate(monitor_pos: i32, monitor_len: u32, window_len: u32) -> (res: i32)
    requires
        centring_fits(monitor_pos, monitor_len, window_len),
    ensures
        res == monitor_pos + centring_offset(monitor_len, window_len),
{
    let m = monitor_len as i32;
    let w = window_len as i32;
    let d: i64 = (m as i64) - (w as i64);
    let half: i64 = if d >= 0 {
        d / 2
    } else {
        -((-d) / 2)
    };
    let x: i64 = (monitor_pos as i64) + half;
    x as i32
}

/// Where the listening pill goes: centred on its monitor (the position is
/// the window's top-left corner).
pub fn centered_position(monitor_x: i32, monitor_y: i32, monitor_width: u32, monitor_height: u32, window_width: u32, window_height: u32) -> (res: (i32, i32))
    requires
        centring_fits(monitor_x, monitor_width, window_width),
        centring_fits(monitor_y, monitor_height, window_height),
    ensures
        res.0 == monitor_x + centring_offset(monitor_width, window_width),
        res.1 == monitor_y + centring_offset(monitor_height, window_height),
{
    (
        centred_coordinate(monitor_x, monitor_width, window_width),
        centred_coordinate(monitor_y, monitor_height, window_height),
    )
}

} // verus!
